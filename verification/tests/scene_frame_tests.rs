use scene_core::camera::OrbitCamera;
use scene_core::camera::MIN_RADIUS;
use scene_core::frame::tick_frame;
use scene_core::frame::CameraSample;
use scene_core::frame::FrameInput;
use scene_core::scene::setup_scene;
use scene_core::scene::uv_debug_texture_data;
use scene_core::spin::HALF_PI_ANGLE;
use scene_core::ui::OccupiedScreenSpace;
use scene_core::world::DragState;
use scene_core::world::PointerEvent;
use scene_core::world::PointerSample;

#[test]
fn the_scene_starts_with_a_row_of_cubes_over_the_ground() {
    let w = setup_scene();
    assert_eq!(w.ents.len(), 6);
    assert_eq!(w.drag, DragState::Idle);
    for (i, e) in w.ents.iter().enumerate().take(5) {
        let x = i as i64 - 2;
        assert_eq!(e.pos_x, x * 200_000);
        assert_eq!(e.pos_y, 100_000);
        assert_eq!(e.pos_z, 500 + x * 100);
        assert_eq!(e.rot, 0);
        assert!(e.pickable);
        assert_eq!(e.spin, None);
    }
    let ground = &w.ents[5];
    assert_eq!((ground.pos_x, ground.pos_y, ground.pos_z), (0, 0, 0));
    assert!(ground.pickable);
}

#[test]
fn the_test_texture_rotates_the_palette_one_colour_per_row() {
    let palette: [u8; 32] = [
        255, 102, 159, 255, 255, 159, 102, 255, 236, 255, 102, 255, 121, 255, 102, 255, 102, 255,
        198, 255, 102, 198, 255, 255, 121, 102, 255, 255, 236, 102, 255, 255,
    ];
    let d = uv_debug_texture_data();
    assert_eq!(d.len(), 256);
    // Row 0 is the palette itself.
    assert_eq!(&d[0..32], &palette);
    // Each later row is the one above rotated right by one colour (4 bytes).
    for y in 1..8usize {
        for j in 0..32usize {
            assert_eq!(d[y * 32 + j], d[(y - 1) * 32 + (j + 28) % 32]);
        }
    }
    // Spot check: row 1 starts with the last colour of the palette.
    assert_eq!(&d[32..36], &[236, 102, 255, 255]);
}

fn quiet_camera() -> CameraSample {
    CameraSample {
        rotate_dx: 0,
        rotate_dy: 0,
        pan_x: 0,
        pan_y: 0,
        pan_z: 0,
        zoom_in_clicks: 0,
        zoom_out_clicks: 0,
    }
}

fn frame(pointer: PointerSample, camera: CameraSample) -> FrameInput {
    FrameInput { pointer, camera, tool_panel_width: 200, viewport_w: 1280, viewport_h: 720 }
}

#[test]
fn a_whole_drag_and_drop_session_through_the_tick_loop() {
    let mut w = setup_scene();
    let mut cam = OrbitCamera::startup();
    let mut screen = OccupiedScreenSpace::default();

    // Press on the second cube.
    let ev = tick_frame(
        &mut w,
        &mut cam,
        &mut screen,
        &frame(
            PointerSample { button_down: true, hit: Some(2), dx: 0, dy: 0 },
            quiet_camera(),
        ),
    );
    assert_eq!(ev, Some(PointerEvent::DragStart { entity: 2 }));
    assert!(!w.ents[2].pickable);

    // Hold and move: the cube follows the pointer.
    let x0 = w.ents[2].pos_x;
    let y0 = w.ents[2].pos_y;
    let ev = tick_frame(
        &mut w,
        &mut cam,
        &mut screen,
        &frame(
            PointerSample { button_down: true, hit: Some(2), dx: 4_000, dy: 1_000 },
            quiet_camera(),
        ),
    );
    assert_eq!(ev, Some(PointerEvent::Drag { entity: 2, dx: 4_000, dy: 1_000 }));
    assert_eq!(w.ents[2].pos_x, x0 + 4_000);
    assert_eq!(w.ents[2].pos_y, y0 - 1_000);

    // Release over the fifth cube: one drop, both spins start this tick.
    let ev = tick_frame(
        &mut w,
        &mut cam,
        &mut screen,
        &frame(
            PointerSample { button_down: false, hit: Some(4), dx: 0, dy: 0 },
            quiet_camera(),
        ),
    );
    assert_eq!(ev, Some(PointerEvent::DropOn { dropped: 2, target: 4 }));
    assert!(w.ents[2].pickable);
    assert_eq!(w.drag, DragState::Idle);
    // The animator already ran once within the drop's own tick.
    assert_eq!(w.ents[2].rot, HALF_PI_ANGLE);
    assert_eq!(w.ents[4].rot, -HALF_PI_ANGLE);
    assert_eq!(w.ents[2].spin, Some(1_520_796));
    assert_eq!(w.ents[4].spin, Some(-1_520_796));

    // Quiet frames until both spins rest at exactly identity.
    let mut ticks: u32 = 0;
    while w.ents[2].spin.is_some() || w.ents[4].spin.is_some() {
        let ev = tick_frame(
            &mut w,
            &mut cam,
            &mut screen,
            &frame(
                PointerSample { button_down: false, hit: None, dx: 0, dy: 0 },
                quiet_camera(),
            ),
        );
        assert_eq!(ev, None);
        ticks += 1;
        assert!(ticks <= 31_415);
    }
    assert_eq!(w.ents[2].rot, 0);
    assert_eq!(w.ents[4].rot, 0);

    // The screen snapshot is this frame's measurement.
    assert_eq!(screen.left, 200);
    assert_eq!(screen.top, 20);
    assert_eq!(screen.right, 200);
    assert_eq!(screen.bottom, 0);
}

#[test]
fn camera_gestures_run_even_while_dragging() {
    let mut w = setup_scene();
    let mut cam = OrbitCamera::startup();
    let mut screen = OccupiedScreenSpace::default();
    let ev = tick_frame(
        &mut w,
        &mut cam,
        &mut screen,
        &frame(
            PointerSample { button_down: true, hit: Some(0), dx: 0, dy: 0 },
            CameraSample {
                rotate_dx: 3_000,
                rotate_dy: -2_000,
                pan_x: 10,
                pan_y: 20,
                pan_z: 30,
                zoom_in_clicks: 1,
                zoom_out_clicks: 0,
            },
        ),
    );
    assert_eq!(ev, Some(PointerEvent::DragStart { entity: 0 }));
    assert_eq!(cam.yaw, 3_000);
    assert_eq!(cam.pitch, 291_457 - 2_000);
    assert_eq!((cam.focus_x, cam.focus_y, cam.focus_z), (10, 20, 30));
    assert_eq!(cam.radius, 4_176);
    assert!(cam.radius >= MIN_RADIUS);
}
