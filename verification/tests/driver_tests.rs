use animbox::camera::Camera;
use animbox::command::BufferTarget;
use animbox::command::Command;
use animbox::command::ObjectKind;
use animbox::command::UniformName;
use animbox::driver::InputEvent;
use animbox::driver::InputState;
use animbox::driver::Key;
use animbox::driver::MouseButton;
use animbox::driver::Reaction;
use animbox::driver::Scene;
use animbox::driver::START_ASPECT;
use animbox::gpu::Gpu;
use animbox::matrix::Angle;
use animbox::matrix::Matrix;
use animbox::scalar::Scalar;
use animbox::scalar::Vec3;
use animbox::shader_program::ProgramError;

fn s(micros: i64) -> Scalar {
    Scalar::from_micros(micros)
}

fn units(n: i32) -> Scalar {
    Scalar::from_units(n)
}

fn sources() -> Vec<Vec<u8>> {
    vec![b"vertex".to_vec(), b"fragment".to_vec()]
}

fn press(button: MouseButton) -> InputEvent {
    InputEvent::MouseInput { button, pressed: true }
}

fn release(button: MouseButton) -> InputEvent {
    InputEvent::MouseInput { button, pressed: false }
}

fn move_to(x: i32, y: i32) -> InputEvent {
    InputEvent::CursorMoved { x: units(x), y: units(y) }
}

#[test]
fn input_starts_with_a_window_of_900_by_700() {
    let input = InputState::new();
    assert_eq!(input.width, units(900));
    assert_eq!(input.height, units(700));
    assert_eq!(input.mouse_x, units(0));
    assert_eq!(input.mouse_y, units(0));
    assert!(!input.left_down);
    assert!(!input.middle_down);
    assert!(!input.right_down);
    assert!(input.running);
    assert_eq!(START_ASPECT, 1_285_714);
}

#[test]
fn close_request_stops_the_sandbox() {
    let mut input = InputState::new();
    let mut camera = Camera::new();
    let reaction = input.handle(&mut camera, InputEvent::CloseRequested);
    assert_eq!(reaction, Reaction::Nothing);
    assert!(!input.running);
}

#[test]
fn escape_stops_the_sandbox_pressed_or_released() {
    let mut input = InputState::new();
    let mut camera = Camera::new();
    input.handle(&mut camera, InputEvent::KeyboardInput { key: Key::Escape, pressed: false });
    assert!(!input.running);
    let mut input = InputState::new();
    input.handle(&mut camera, InputEvent::KeyboardInput { key: Key::Escape, pressed: true });
    assert!(!input.running);
}

#[test]
fn other_keys_do_nothing() {
    let mut input = InputState::new();
    let mut camera = Camera::new();
    camera.set_azimuth(units(33));
    let reaction =
        input.handle(&mut camera, InputEvent::KeyboardInput { key: Key::Other, pressed: true });
    assert_eq!(reaction, Reaction::Nothing);
    assert_eq!(input, InputState::new());
    assert_eq!(camera.get_azimuth(), units(33));
}

#[test]
fn buttons_are_remembered() {
    let mut input = InputState::new();
    let mut camera = Camera::new();
    input.handle(&mut camera, press(MouseButton::Left));
    assert!(input.left_down && !input.middle_down && !input.right_down);
    input.handle(&mut camera, press(MouseButton::Middle));
    assert!(input.left_down && input.middle_down && !input.right_down);
    input.handle(&mut camera, press(MouseButton::Right));
    assert!(input.left_down && input.middle_down && input.right_down);
    input.handle(&mut camera, press(MouseButton::Other));
    assert!(input.left_down && input.middle_down && input.right_down);
    input.handle(&mut camera, release(MouseButton::Left));
    assert!(!input.left_down && input.middle_down && input.right_down);
    input.handle(&mut camera, release(MouseButton::Right));
    input.handle(&mut camera, release(MouseButton::Middle));
    assert!(!input.left_down && !input.middle_down && !input.right_down);
}

#[test]
fn moving_without_a_button_only_moves_the_pointer() {
    let mut input = InputState::new();
    let mut camera = Camera::new();
    let reaction = input.handle(&mut camera, move_to(40, 30));
    assert_eq!(reaction, Reaction::Nothing);
    assert_eq!(input.mouse_x, units(40));
    assert_eq!(input.mouse_y, units(30));
    assert_eq!(camera.get_azimuth(), units(0));
    assert_eq!(camera.get_incline(), units(20));
    assert_eq!(camera.get_distance(), units(10));
}

#[test]
fn left_drag_turns_the_camera() {
    let mut input = InputState::new();
    let mut camera = Camera::new();
    input.handle(&mut camera, press(MouseButton::Left));
    // 40 to the right and 30 down: azimuth grows by 40, incline by 30
    input.handle(&mut camera, move_to(40, 30));
    assert_eq!(camera.get_azimuth(), units(40));
    assert_eq!(camera.get_incline(), units(50));
    assert_eq!(camera.get_distance(), units(10));
    // back up by 60: incline falls by 60
    input.handle(&mut camera, move_to(40, -30));
    assert_eq!(camera.get_azimuth(), units(40));
    assert_eq!(camera.get_incline(), units(-10));
}

#[test]
fn pointer_steps_count_for_no_more_than_100() {
    let mut input = InputState::new();
    let mut camera = Camera::new();
    camera.set_incline(units(0));
    input.handle(&mut camera, press(MouseButton::Left));
    input.handle(&mut camera, move_to(5000, 0));
    assert_eq!(camera.get_azimuth(), units(100));
    input.handle(&mut camera, move_to(-5000, 0));
    assert_eq!(camera.get_azimuth(), units(0));
    assert_eq!(input.mouse_x, units(-5000));
}

#[test]
fn incline_stays_between_minus_90_and_90() {
    let mut input = InputState::new();
    let mut camera = Camera::new();
    input.handle(&mut camera, press(MouseButton::Left));
    let mut y: i32 = 0;
    for _ in 0..50 {
        y += 77;
        input.handle(&mut camera, move_to(0, y));
        assert!(camera.get_incline().micros() <= 90_000_000);
        assert!(camera.get_incline().micros() >= -90_000_000);
    }
    assert_eq!(camera.get_incline(), units(90));
    for _ in 0..50 {
        y -= 1000;
        input.handle(&mut camera, move_to(0, y));
        assert!(camera.get_incline().micros() <= 90_000_000);
        assert!(camera.get_incline().micros() >= -90_000_000);
    }
    assert_eq!(camera.get_incline(), units(-90));
}

#[test]
fn a_drag_brings_a_wild_incline_back_into_range() {
    let mut input = InputState::new();
    let mut camera = Camera::new();
    camera.set_incline(units(500));
    input.handle(&mut camera, press(MouseButton::Left));
    input.handle(&mut camera, move_to(1, 1));
    assert_eq!(camera.get_incline(), units(90));
    camera.set_incline(s(i64::MIN));
    input.handle(&mut camera, move_to(2, 2));
    assert_eq!(camera.get_incline(), units(-90));
}

#[test]
fn the_farthest_pointer_positions_are_taken() {
    let mut input = InputState::new();
    let mut camera = Camera::new();
    input.handle(&mut camera, press(MouseButton::Left));
    input.handle(&mut camera, InputEvent::CursorMoved { x: s(i64::MIN), y: s(i64::MIN) });
    input.handle(&mut camera, InputEvent::CursorMoved { x: s(i64::MAX), y: s(i64::MAX) });
    // 100 back and 100 forth in x
    assert_eq!(camera.get_azimuth(), units(0));
    // 100 up, from 20 to -80, and 100 down again
    assert_eq!(camera.get_incline(), units(20));
}

#[test]
fn right_drag_moves_the_camera_toward_the_origin() {
    let mut input = InputState::new();
    let mut camera = Camera::new();
    input.handle(&mut camera, press(MouseButton::Right));
    // 20 to the right: 10 * (1 - 20 * 0.005) = 9
    input.handle(&mut camera, move_to(20, 0));
    assert_eq!(camera.get_distance(), units(9));
    assert_eq!(camera.get_azimuth(), units(0));
    assert_eq!(camera.get_incline(), units(20));
    // 100 to the left: 9 * (1 + 100 * 0.005) = 13.5
    input.handle(&mut camera, move_to(-80, 500));
    assert_eq!(camera.get_distance(), s(13_500_000));
}

#[test]
fn distance_stays_between_a_hundredth_and_a_thousand() {
    let mut input = InputState::new();
    let mut camera = Camera::new();
    input.handle(&mut camera, press(MouseButton::Right));
    let mut x: i32 = 0;
    for _ in 0..40 {
        x += 100;
        input.handle(&mut camera, move_to(x, 0));
        assert!(camera.get_distance().micros() >= 10_000);
    }
    assert_eq!(camera.get_distance(), s(10_000));
    for _ in 0..40 {
        x -= 100;
        input.handle(&mut camera, move_to(x, 0));
        assert!(camera.get_distance().micros() <= 1_000_000_000);
    }
    assert_eq!(camera.get_distance(), units(1000));
}

#[test]
fn both_buttons_turn_and_move() {
    let mut input = InputState::new();
    let mut camera = Camera::new();
    input.handle(&mut camera, press(MouseButton::Left));
    input.handle(&mut camera, press(MouseButton::Right));
    input.handle(&mut camera, move_to(20, 10));
    assert_eq!(camera.get_azimuth(), units(20));
    assert_eq!(camera.get_incline(), units(30));
    assert_eq!(camera.get_distance(), units(9));
}

#[test]
fn the_wheel_moves_the_camera() {
    let mut input = InputState::new();
    let mut camera = Camera::new();
    // two rows: 10 * (1 - 2 * 0.05) = 9
    let reaction = input.handle(&mut camera, InputEvent::MouseWheel { rows: units(2) });
    assert_eq!(reaction, Reaction::Nothing);
    assert_eq!(camera.get_distance(), units(9));
    // back by four rows: 9 * (1 + 4 * 0.05) = 10.8
    input.handle(&mut camera, InputEvent::MouseWheel { rows: units(-4) });
    assert_eq!(camera.get_distance(), s(10_800_000));
    // far more rows than there is distance
    input.handle(&mut camera, InputEvent::MouseWheel { rows: units(1000) });
    assert_eq!(camera.get_distance(), s(10_000));
    input.handle(&mut camera, InputEvent::MouseWheel { rows: s(i64::MIN) });
    assert_eq!(camera.get_distance(), units(1000));
    assert_eq!(input, InputState::new());
}

#[test]
fn a_new_size_sets_the_aspect_and_asks_for_a_viewport() {
    let mut input = InputState::new();
    let mut camera = Camera::new();
    let reaction = input.handle(
        &mut camera,
        InputEvent::Resized { width: s(1280_500_000), height: units(720) },
    );
    assert_eq!(reaction, Reaction::Viewport { width: 1280, height: 720 });
    assert_eq!(input.width, s(1280_500_000));
    assert_eq!(input.height, units(720));
    // 1280.5 / 720 = 1.778472...
    assert_eq!(camera.get_aspect(), s(1_778_472));
}

#[test]
fn a_window_of_no_height_keeps_the_aspect() {
    let mut input = InputState::new();
    let mut camera = Camera::new();
    let reaction =
        input.handle(&mut camera, InputEvent::Resized { width: units(640), height: units(0) });
    assert_eq!(reaction, Reaction::Viewport { width: 640, height: 0 });
    assert_eq!(input.height, units(0));
    assert_eq!(camera.get_aspect(), s(1_330_000));
}

#[test]
fn r_resets_the_camera_when_pressed() {
    let mut input = InputState::new();
    let mut camera = Camera::new();
    camera.set_distance(units(3));
    camera.set_azimuth(units(4));
    camera.set_incline(units(5));
    camera.set_aspect(units(2));
    let reaction =
        input.handle(&mut camera, InputEvent::KeyboardInput { key: Key::R, pressed: false });
    assert_eq!(reaction, Reaction::Nothing);
    assert_eq!(camera.get_distance(), units(3));
    let reaction =
        input.handle(&mut camera, InputEvent::KeyboardInput { key: Key::R, pressed: true });
    assert_eq!(reaction, Reaction::ResetCube);
    assert_eq!(camera.get_distance(), units(10));
    assert_eq!(camera.get_azimuth(), units(0));
    assert_eq!(camera.get_incline(), units(20));
    assert_eq!(camera.get_aspect(), s(1_285_714));
    assert!(input.running);
}

#[test]
fn a_new_scene() {
    let mut gpu = Gpu::new();
    let scene = Scene::new(&mut gpu, &sources()).unwrap();
    assert!(scene.is_running());
    assert!(scene.is_valid(&gpu));
    assert_eq!(scene.get_input(), InputState::new());
    assert_eq!(scene.shader_id(), 3);
    assert_eq!(scene.get_cube().model_ids(), (4, 5, 6));
    assert_eq!(scene.get_cube2().model_ids(), (7, 8, 9));
    assert_eq!(scene.get_cube().position(), Vec3::from_units(0, 0, 0));
    assert_eq!(scene.get_cube2().position(), Vec3::from_units(3, 3, 0));
    assert_eq!(scene.get_camera().get_aspect(), s(1_285_714));
    assert_eq!(scene.get_camera().get_distance(), units(10));
    assert_eq!(gpu.next_name(), 10);
    let commands = gpu.take_commands();
    // the program, then one cube, then the other
    assert_eq!(commands.len(), 17 + 15 + 15);
    assert_eq!(commands[8], Command::CreateProgram { name: 3 });
    assert_eq!(commands[17], Command::GenBuffer { name: 4 });
    assert_eq!(commands[32], Command::GenBuffer { name: 7 });
    assert!(gpu.is_live(ObjectKind::Program, 3));
    assert!(gpu.is_live(ObjectKind::VertexArray, 9));
}

#[test]
fn a_scene_needs_two_sources() {
    let mut gpu = Gpu::new();
    let one: Vec<Vec<u8>> = vec![b"v".to_vec()];
    assert!(matches!(Scene::new(&mut gpu, &one), Err(ProgramError::SourceCount)));
    let three: Vec<Vec<u8>> = vec![b"v".to_vec(), b"g".to_vec(), b"f".to_vec()];
    assert!(matches!(Scene::new(&mut gpu, &three), Err(ProgramError::SourceCount)));
    assert_eq!(gpu.pending(), 0);
    assert_eq!(gpu.next_name(), 1);
}

#[test]
fn a_scene_needs_nine_names() {
    let mut gpu = Gpu::starting_at(u32::MAX - 8);
    assert_eq!(gpu.names_left(), 8);
    assert!(matches!(Scene::new(&mut gpu, &sources()), Err(ProgramError::OutOfNames)));
    assert_eq!(gpu.pending(), 0);
    assert_eq!(gpu.next_name(), u32::MAX - 8);
    let mut enough = Gpu::starting_at(u32::MAX - 9);
    assert!(Scene::new(&mut enough, &sources()).is_ok());
    assert_eq!(enough.names_left(), 0);
}

#[test]
fn a_frame_clears_updates_and_draws_both_cubes() {
    let mut gpu = Gpu::new();
    let mut scene = Scene::new(&mut gpu, &sources()).unwrap();
    gpu.take_commands();
    scene.frame(&mut gpu, s(16_000));
    assert_eq!(scene.get_cube().angle(), s(16_000));
    assert_eq!(scene.get_cube2().angle(), s(16_000));
    let view_proj = scene.get_camera().get_view_proj_mat();
    assert_ne!(view_proj, Matrix::Identity);
    let world = |position: Vec3| {
        Matrix::Product(
            Box::new(Matrix::Translation(position)),
            Box::new(Matrix::Rotation {
                angle: Angle::Radians(s(16_000)),
                axis: Vec3::from_units(0, 1, 0),
            }),
        )
    };
    let draw = |index_buffer: u32, vertex_array: u32, model: Matrix| {
        vec![
            Command::UseProgram { name: 3 },
            Command::UniformMatrix {
                program: 3,
                uniform: UniformName::ModelMtx,
                matrix: model.clone(),
            },
            Command::UniformMatrix {
                program: 3,
                uniform: UniformName::ModelViewProjMtx,
                matrix: Matrix::Product(Box::new(view_proj.clone()), Box::new(model)),
            },
            Command::BindBuffer { target: BufferTarget::ElementArray, name: index_buffer },
            Command::BindVertexArray { name: vertex_array },
            Command::DrawElements { count: 36 },
            Command::BindVertexArray { name: 0 },
            Command::BindBuffer { target: BufferTarget::ElementArray, name: 0 },
            Command::UseProgram { name: 0 },
        ]
    };
    let mut expected = vec![Command::Clear];
    expected.extend(draw(5, 6, world(Vec3::from_units(0, 0, 0))));
    expected.extend(draw(8, 9, world(Vec3::from_units(3, 3, 0))));
    assert_eq!(gpu.take_commands(), expected);
    assert!(scene.is_valid(&gpu));
}

#[test]
fn r_resets_the_first_cube_only() {
    let mut gpu = Gpu::new();
    let mut scene = Scene::new(&mut gpu, &sources()).unwrap();
    scene.frame(&mut gpu, s(500_000));
    scene.handle_event(&mut gpu, press(MouseButton::Left));
    scene.handle_event(&mut gpu, move_to(10, 10));
    assert_eq!(scene.get_camera().get_azimuth(), units(10));
    gpu.take_commands();
    scene.handle_event(&mut gpu, InputEvent::KeyboardInput { key: Key::R, pressed: true });
    assert_eq!(scene.get_cube().angle(), s(0));
    assert_eq!(scene.get_cube().world_mat(), Matrix::Identity);
    assert_eq!(scene.get_cube2().angle(), s(500_000));
    assert_eq!(scene.get_camera().get_azimuth(), units(0));
    assert_eq!(scene.get_camera().get_incline(), units(20));
    assert_eq!(scene.get_camera().get_aspect(), s(1_285_714));
    assert_eq!(gpu.pending(), 0);
    assert!(scene.is_running());
}

#[test]
fn a_new_size_is_recorded_as_a_viewport() {
    let mut gpu = Gpu::new();
    let mut scene = Scene::new(&mut gpu, &sources()).unwrap();
    gpu.take_commands();
    scene.handle_event(&mut gpu, InputEvent::Resized { width: units(1024), height: units(768) });
    assert_eq!(gpu.take_commands(), vec![Command::Viewport { width: 1024, height: 768 }]);
    assert_eq!(scene.get_camera().get_aspect(), s(1_333_333));
    assert_eq!(scene.get_input().width, units(1024));
    scene.handle_event(&mut gpu, move_to(3, 4));
    assert_eq!(gpu.pending(), 0);
}

#[test]
fn a_scene_stops_on_escape() {
    let mut gpu = Gpu::new();
    let mut scene = Scene::new(&mut gpu, &sources()).unwrap();
    scene.handle_event(&mut gpu, InputEvent::KeyboardInput { key: Key::Escape, pressed: true });
    assert!(!scene.is_running());
}

#[test]
fn destroying_a_scene_releases_everything() {
    let mut gpu = Gpu::new();
    let scene = Scene::new(&mut gpu, &sources()).unwrap();
    gpu.take_commands();
    scene.destroy(&mut gpu);
    assert_eq!(
        gpu.take_commands(),
        vec![
            Command::DeleteBuffer { name: 7 },
            Command::DeleteBuffer { name: 8 },
            Command::DeleteVertexArray { name: 9 },
            Command::DeleteBuffer { name: 4 },
            Command::DeleteBuffer { name: 5 },
            Command::DeleteVertexArray { name: 6 },
            Command::DeleteProgram { name: 3 },
        ]
    );
    for name in 1..10u32 {
        assert!(!gpu.is_live(ObjectKind::Buffer, name));
        assert!(!gpu.is_live(ObjectKind::VertexArray, name));
        assert!(!gpu.is_live(ObjectKind::Program, name));
        assert!(!gpu.is_live(ObjectKind::Shader, name));
    }
}
