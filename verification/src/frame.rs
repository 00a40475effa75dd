//! The per-frame tick: one pass over the whole core in a fixed, deterministic
//! order — pointer routing, then the drag or drop the event calls for, then
//! the spin animator, then the camera, then the screen-space snapshot. A drop
//! therefore starts its spins in the same tick the animator first advances
//! them, and every tick's mutations complete before the next sample arrives.

use vstd::prelude::*;
use crate::camera::MIN_RADIUS;
use crate::camera::OrbitCamera;
use crate::camera::PI_ANGLE;
use crate::spin::HALF_PI_ANGLE;
use crate::ui::INSPECTOR_PANEL_WIDTH;
use crate::ui::OccupiedScreenSpace;
use crate::ui::TOP_PANEL_HEIGHT;
use crate::ui::tool_panel_width;
use crate::ui::ui_frame;
use crate::world::DragState;
use crate::world::Entity;
use crate::world::PointerEvent;
use crate::world::PointerSample;
use crate::world::World;
use crate::world::dragged_entity;
use crate::world::route_model;
use crate::world::spin_step_entity;
use crate::world::spun_entity;

verus! {

/// One frame's camera gestures: the orbit drag delta (zero when the orbit
/// button is not held), the pan delta already projected into the camera's
/// local plane by the input layer, and the scroll clicks in each direction.
#[derive(Clone, Copy)]
pub struct CameraSample {
    pub rotate_dx: i64,
    pub rotate_dy: i64,
    pub pan_x: i64,
    pub pan_y: i64,
    pub pan_z: i64,
    pub zoom_in_clicks: u8,
    pub zoom_out_clicks: u8,
}

/// Everything the core consumes in one frame.
#[derive(Clone, Copy)]
pub struct FrameInput {
    pub pointer: PointerSample,
    pub camera: CameraSample,
    pub tool_panel_width: u32,
    pub viewport_w: u32,
    pub viewport_h: u32,
}

/// The camera after `n` zoom-in clicks.
pub open spec fn zoom_in_n(c: OrbitCamera, n: nat) -> OrbitCamera
    decreases n,
{
    if n == 0 {
        c
    } else {
        zoom_in_n(c, (n - 1) as nat).zoom_in_model()
    }
}

/// The camera after `n` zoom-out clicks.
pub open spec fn zoom_out_n(c: OrbitCamera, n: nat) -> OrbitCamera
    decreases n,
{
    if n == 0 {
        c
    } else {
        zoom_out_n(c, (n - 1) as nat).zoom_out_model()
    }
}

/// The camera after one frame's gestures: rotate, then pan, then the scroll
/// clicks, zoom-in before zoom-out.
pub open spec fn camera_step(c: OrbitCamera, cs: CameraSample) -> OrbitCamera {
    let rotated = c.rotate_model(cs.rotate_dx as int, cs.rotate_dy as int);
    let panned = rotated.pan_model(cs.pan_x as int, cs.pan_y as int, cs.pan_z as int);
    zoom_out_n(zoom_in_n(panned, cs.zoom_in_clicks as nat), cs.zoom_out_clicks as nat)
}

/// The registry and drag state after one whole tick of the interaction core:
/// the router fires, the event's handler runs (a `Drag` moves the dragged
/// entity, a `DropOn` starts both spins), and then the animator advances
/// every spinning entity once.
pub open spec fn tick_world_model(ents: Seq<Entity>, drag: DragState, s: PointerSample) -> (
    Seq<Entity>,
    DragState,
    Option<PointerEvent>,
) {
    let routed = route_model(ents, drag, s);
    let ents1 = routed.0;
    let handled = match routed.2 {
        Option::Some(PointerEvent::Drag { entity, dx, dy }) => ents1.update(
            entity as int,
            dragged_entity(ents1[entity as int], dx as int, dy as int),
        ),
        Option::Some(PointerEvent::DropOn { dropped, target }) => ents1.update(
            dropped as int,
            spun_entity(ents1[dropped as int], HALF_PI_ANGLE),
        ).update(target as int, spun_entity(ents1[target as int], (-HALF_PI_ANGLE) as i64)),
        _ => ents1,
    };
    (handled.map_values(|e: Entity| spin_step_entity(e)), routed.1, routed.2)
}

/// Camera radius floor, over whole frames: however many zoom-in clicks
/// arrive, a well-formed camera's radius never leaves the positive clamp
/// range, so the camera cannot collapse onto or invert through its focus.
pub proof fn lemma_zoom_in_n_radius_floor(c: OrbitCamera, n: nat)
    requires
        c.wf(),
    ensures
        zoom_in_n(c, n).wf(),
        zoom_in_n(c, n).radius >= MIN_RADIUS,
        zoom_in_n(c, n).radius > 0,
    decreases n,
{
    if n > 0 {
        lemma_zoom_in_n_radius_floor(c, (n - 1) as nat);
    }
}

/// Runs one tick: routing, drag/drop handling, spin decay, camera gestures,
/// and the screen-space snapshot, in that order, completing before it
/// returns. The returned event is this frame's routed pointer event.
pub fn tick_frame(
    w: &mut World,
    cam: &mut OrbitCamera,
    screen: &mut OccupiedScreenSpace,
    input: &FrameInput,
) -> (ev: Option<PointerEvent>)
    requires
        old(w).wf(),
        old(cam).wf(),
        -PI_ANGLE <= input.camera.rotate_dx <= PI_ANGLE,
        -PI_ANGLE <= input.camera.rotate_dy <= PI_ANGLE,
    ensures
        final(w).ents@ == tick_world_model(old(w).ents@, old(w).drag, input.pointer).0,
        final(w).drag == tick_world_model(old(w).ents@, old(w).drag, input.pointer).1,
        ev == tick_world_model(old(w).ents@, old(w).drag, input.pointer).2,
        final(w).wf(),
        *final(cam) == camera_step(*old(cam), input.camera),
        final(cam).wf(),
        final(cam).radius >= MIN_RADIUS,
        final(screen).left == tool_panel_width(
            input.tool_panel_width as int,
            input.viewport_w as int,
        ),
        final(screen).top == vstd::math::min(TOP_PANEL_HEIGHT as int, input.viewport_h as int),
        final(screen).right == vstd::math::min(
            INSPECTOR_PANEL_WIDTH as int,
            input.viewport_w as int,
        ),
        final(screen).bottom == 0,
        final(screen).wf(input.viewport_w as int, input.viewport_h as int),
{
    let ev = w.route(&input.pointer);
    match ev {
        Option::Some(PointerEvent::Drag { entity, dx, dy }) => {
            w.apply_drag(entity, dx, dy);
        },
        Option::Some(PointerEvent::DropOn { dropped, target }) => {
            w.apply_drop(dropped, target);
        },
        _ => {},
    }
    w.spin_tick();
    cam.rotate(input.camera.rotate_dx, input.camera.rotate_dy);
    cam.pan(input.camera.pan_x, input.camera.pan_y, input.camera.pan_z);
    let ghost panned = *cam;
    let mut k: u8 = 0;
    while k < input.camera.zoom_in_clicks
        invariant
            cam.wf(),
            k <= input.camera.zoom_in_clicks,
            *cam == zoom_in_n(panned, k as nat),
        decreases input.camera.zoom_in_clicks - k,
    {
        cam.zoom_in();
        k = k + 1;
    }
    let ghost zoomed_in = *cam;
    let mut k2: u8 = 0;
    while k2 < input.camera.zoom_out_clicks
        invariant
            cam.wf(),
            k2 <= input.camera.zoom_out_clicks,
            *cam == zoom_out_n(zoomed_in, k2 as nat),
        decreases input.camera.zoom_out_clicks - k2,
    {
        cam.zoom_out();
        k2 = k2 + 1;
    }
    ui_frame(screen, input.tool_panel_width, input.viewport_w, input.viewport_h);
    ev
}

} // verus!
