//! The editor's two colour themes. The UI toolkit applies them; the palette
//! itself is plain data, fixed here with one exact sRGB value per role.

use vstd::prelude::*;

verus! {

/// An sRGB colour.
#[derive(Clone, Copy, Debug, PartialEq, Eq, Structural)]
pub struct Rgb {
    pub r: u8,
    pub g: u8,
    pub b: u8,
}

impl Rgb {
    /// The grey with this level in all three channels.
    pub open spec fn grey_spec(level: u8) -> Rgb {
        Rgb { r: level, g: level, b: level }
    }

    /// Builds the grey with this level in all three channels.
    pub fn grey(level: u8) -> (c: Rgb)
        ensures
            c == Rgb::grey_spec(level),
    {
        Rgb { r: level, g: level, b: level }
    }
}

/// A named colour for every role the widgets draw with.
pub struct Theme {
    pub dark: bool,
    pub bg_color: Rgb,
    pub panel_bg_color: Rgb,
    pub inactive_bg_fill: Rgb,
    pub hovered_color: Rgb,
    pub highlight_color: Rgb,
    pub bg_stroke_color: Rgb,
    pub default_text: Rgb,
    pub subdued: Rgb,
    pub strong: Rgb,
    pub floating_color: Rgb,
}

impl Theme {
    /// The light theme: near-white surfaces, dark text.
    pub fn light() -> (t: Theme)
        ensures
            !t.dark,
            t.bg_color == Rgb::grey_spec(255),
            t.panel_bg_color == Rgb::grey_spec(248),
            t.inactive_bg_fill == (Rgb { r: 250, g: 250, b: 250 }),
            t.hovered_color == Rgb::grey_spec(230),
            t.highlight_color == (Rgb { r: 90, g: 129, b: 255 }),
            t.bg_stroke_color == Rgb::grey_spec(190),
            t.default_text == Rgb::grey_spec(60),
            t.subdued == Rgb::grey_spec(80),
            t.strong == (Rgb { r: 1, g: 1, b: 1 }),
            t.floating_color == Rgb::grey_spec(195),
    {
        Theme {
            dark: false,
            bg_color: Rgb::grey(255),
            panel_bg_color: Rgb::grey(248),
            inactive_bg_fill: Rgb { r: 250, g: 250, b: 250 },
            hovered_color: Rgb::grey(230),
            highlight_color: Rgb { r: 90, g: 129, b: 255 },
            bg_stroke_color: Rgb::grey(190),
            default_text: Rgb::grey(60),
            subdued: Rgb::grey(80),
            strong: Rgb { r: 1, g: 1, b: 1 },
            floating_color: Rgb::grey(195),
        }
    }

    /// The dark theme: near-black surfaces, light text.
    pub fn dark() -> (t: Theme)
        ensures
            t.dark,
            t.bg_color == Rgb::grey_spec(0),
            t.panel_bg_color == (Rgb { r: 13, g: 16, b: 17 }),
            t.inactive_bg_fill == (Rgb { r: 5, g: 6, b: 7 }),
            t.hovered_color == Rgb::grey_spec(64),
            t.highlight_color == (Rgb { r: 90, g: 129, b: 255 }),
            t.bg_stroke_color == Rgb::grey_spec(30),
            t.default_text == (Rgb { r: 202, g: 216, b: 222 }),
            t.subdued == (Rgb { r: 108, g: 121, b: 127 }),
            t.strong == (Rgb { r: 249, g: 249, b: 249 }),
            t.floating_color == Rgb::grey_spec(35),
    {
        Theme {
            dark: true,
            bg_color: Rgb::grey(0),
            panel_bg_color: Rgb { r: 13, g: 16, b: 17 },
            inactive_bg_fill: Rgb { r: 5, g: 6, b: 7 },
            hovered_color: Rgb::grey(64),
            highlight_color: Rgb { r: 90, g: 129, b: 255 },
            bg_stroke_color: Rgb::grey(30),
            default_text: Rgb { r: 202, g: 216, b: 222 },
            subdued: Rgb { r: 108, g: 121, b: 127 },
            strong: Rgb { r: 249, g: 249, b: 249 },
            floating_color: Rgb::grey(35),
        }
    }
}

} // verus!
