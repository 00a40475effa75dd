//! Screen-space reservation coordinator.
//!
//! Docked UI panels report the pixel extent they rendered with each frame;
//! the coordinator stores those extents into a shared `OccupiedScreenSpace`
//! snapshot. The snapshot is overwritten, never accumulated, so it is always
//! the current frame's measurement, and every field stays within the
//! viewport. Camera and viewport logic reads it to keep 3D content from
//! rendering under the panels.

use vstd::prelude::*;

verus! {

/// The width the left tool panel opens with, in pixels.
pub const SIDE_PANEL_DEFAULT_WIDTH: u32 = 200;

/// The widest the resizable left tool panel may report, in pixels.
pub const SIDE_PANEL_MAX_WIDTH: u32 = 400;

/// The exact width of the right inspector panel, in pixels.
pub const INSPECTOR_PANEL_WIDTH: u32 = 200;

/// The height of the top menu bar, in pixels.
pub const TOP_PANEL_HEIGHT: u32 = 20;

/// Pixel extents consumed by docked panels on each screen edge this frame.
pub struct OccupiedScreenSpace {
    pub left: u32,
    pub top: u32,
    pub right: u32,
    pub bottom: u32,
}

impl OccupiedScreenSpace {
    /// Every reserved extent fits inside the viewport.
    pub open spec fn wf(self, viewport_w: int, viewport_h: int) -> bool {
        &&& self.left <= viewport_w
        &&& self.right <= viewport_w
        &&& self.top <= viewport_h
        &&& self.bottom <= viewport_h
    }

    /// Records this frame's panel measurements, overwriting every field:
    /// nothing from an earlier frame's layout survives.
    pub fn record_frame(&mut self, left: u32, top: u32, right: u32, bottom: u32)
        ensures
            final(self).left == left,
            final(self).top == top,
            final(self).right == right,
            final(self).bottom == bottom,
    {
        self.left = left;
        self.top = top;
        self.right = right;
        self.bottom = bottom;
    }
}

impl Default for OccupiedScreenSpace {
    /// Before the first frame no panel has reported: nothing is reserved.
    fn default() -> (s: OccupiedScreenSpace)
        ensures
            s.left == 0 && s.top == 0 && s.right == 0 && s.bottom == 0,
    {
        OccupiedScreenSpace { left: 0, top: 0, right: 0, bottom: 0 }
    }
}

/// The width the left tool panel occupies when the user has resized it to
/// `requested` pixels: the panel itself never exceeds its maximum width nor
/// the viewport.
pub open spec fn tool_panel_width(requested: int, viewport_w: int) -> int {
    vstd::math::min(vstd::math::min(requested, SIDE_PANEL_MAX_WIDTH as int), viewport_w)
}

/// One frame of the UI layer, after the panels have rendered: store the
/// measured extents of the left tool panel, the top menu bar and the right
/// inspector panel into the snapshot. Panels wider than the viewport cannot
/// render; their reports are clamped to it, keeping the snapshot well-formed.
pub fn ui_frame(
    screen: &mut OccupiedScreenSpace,
    requested_tool_width: u32,
    viewport_w: u32,
    viewport_h: u32,
) -> (tool_width: u32)
    ensures
        tool_width == tool_panel_width(requested_tool_width as int, viewport_w as int),
        final(screen).left == tool_width,
        final(screen).top == vstd::math::min(TOP_PANEL_HEIGHT as int, viewport_h as int),
        final(screen).right == vstd::math::min(INSPECTOR_PANEL_WIDTH as int, viewport_w as int),
        final(screen).bottom == 0,
        final(screen).wf(viewport_w as int, viewport_h as int),
{
    let width: u32 = if requested_tool_width > SIDE_PANEL_MAX_WIDTH {
        SIDE_PANEL_MAX_WIDTH
    } else {
        requested_tool_width
    };
    let width: u32 = if width > viewport_w {
        viewport_w
    } else {
        width
    };
    let top: u32 = if TOP_PANEL_HEIGHT > viewport_h {
        viewport_h
    } else {
        TOP_PANEL_HEIGHT
    };
    let right: u32 = if INSPECTOR_PANEL_WIDTH > viewport_w {
        viewport_w
    } else {
        INSPECTOR_PANEL_WIDTH
    };
    screen.record_frame(width, top, right, 0);
    width
}

} // verus!
