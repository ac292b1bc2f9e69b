//! The frame driver: what the sandbox does with input and with time.
//!
//! A host program owns the window. It hands every input event to
//! [`Scene::handle_event`] and, once a frame, the time that has passed to
//! [`Scene::frame`], and then carries out the commands that the context has
//! recorded.

use vstd::prelude::*;
use crate::camera::Camera;
use crate::camera::CameraState;
use crate::command::Command;
use crate::command::CommandView;
use crate::command::ObjectKind;
use crate::gpu::lemma_issued_all_wf;
use crate::gpu::lemma_issued_concat;
use crate::gpu::lemma_issued_push;
use crate::gpu::lemma_issued_wf;
use crate::gpu::Gpu;
use crate::gpu::GpuState;
use crate::matrix::Matrix;
use crate::model::draw_commands;
use crate::model::drawn;
use crate::model::lemma_draw_allowed;
use crate::model::model_destroyed;
use crate::scalar::clamp_scalar;
use crate::scalar::Scalar;
use crate::scalar::Vec3;
use crate::shader_program::lemma_program_allowed;
use crate::shader_program::program_commands;
use crate::shader_program::program_created;
use crate::shader_program::stages_of;
use crate::shader_program::texts_of;
use crate::shader_program::ProgramError;
use crate::shader_program::ProgramType;
use crate::shader_program::ShaderProgram;
use crate::spinning_cube::cube_commands;
use crate::spinning_cube::cube_created;
use crate::spinning_cube::lemma_cube_allowed;
use crate::spinning_cube::CubeState;
use crate::spinning_cube::SpinningCube;

verus! {

/// The width that the window starts with, in millionths.
pub const START_WIDTH: i64 = 900_000_000;

/// The height that the window starts with, in millionths.
pub const START_HEIGHT: i64 = 700_000_000;

/// The aspect of the window as it starts, 900 over 700, in millionths.
pub const START_ASPECT: i64 = 1_285_714;

/// The most that the pointer counts as having moved between two events, in
/// millionths.
pub const MAX_DELTA: i64 = 100_000_000;

/// The degrees that the camera turns for each unit that the pointer moves,
/// in millionths.
pub const ORBIT_RATE: i64 = 1_000_000;

/// The part of its distance that the camera moves for each unit that the
/// pointer moves, in millionths.
pub const DOLLY_RATE: i64 = 5_000;

/// The part of its distance that the camera moves for each row that the
/// wheel turns, in millionths.
pub const WHEEL_RATE: i64 = 50_000;

/// The least distance of the camera, in millionths.
pub const MIN_DISTANCE: i64 = 10_000;

/// The greatest distance of the camera, in millionths.
pub const MAX_DISTANCE: i64 = 1_000_000_000;

/// The least incline of the camera, in millionths of a degree.
pub const MIN_INCLINE: i64 = -90_000_000;

/// The greatest incline of the camera, in millionths of a degree.
pub const MAX_INCLINE: i64 = 90_000_000;

/// The keys that the sandbox tells apart.
#[derive(Clone, Copy, Debug, PartialEq, Eq, Structural)]
pub enum Key {
    R,
    Escape,
    Other,
}

/// The buttons of the pointer.
#[derive(Clone, Copy, Debug, PartialEq, Eq, Structural)]
pub enum MouseButton {
    Left,
    Middle,
    Right,
    Other,
}

/// What the window reports.
#[derive(Clone, Copy, Debug, PartialEq, Eq, Structural)]
pub enum InputEvent {
    /// The window is asked to close.
    CloseRequested,
    /// The window has a new size.
    Resized { width: Scalar, height: Scalar },
    /// A key went down (`pressed`) or up.
    KeyboardInput { key: Key, pressed: bool },
    /// The pointer is now at `(x, y)`, with `y` growing downward.
    CursorMoved { x: Scalar, y: Scalar },
    /// A button of the pointer went down (`pressed`) or up.
    MouseInput { button: MouseButton, pressed: bool },
    /// The wheel turned by `rows` rows.
    MouseWheel { rows: Scalar },
}

/// What the sandbox remembers of the input.
#[derive(Clone, Copy, Debug, PartialEq, Eq, Structural)]
pub struct InputState {
    pub width: Scalar,
    pub height: Scalar,
    pub mouse_x: Scalar,
    pub mouse_y: Scalar,
    pub left_down: bool,
    pub middle_down: bool,
    pub right_down: bool,
    pub running: bool,
}

/// What is to be done beyond the camera after an event.
#[derive(Clone, Copy, Debug, PartialEq, Eq, Structural)]
pub enum Reaction {
    /// Nothing.
    Nothing,
    /// The first cube is put back to where it started.
    ResetCube,
    /// The view is drawn at a new size.
    Viewport { width: i32, height: i32 },
}

/// The scalar that is `micros` millionths.
pub open spec fn scalar(micros: int) -> Scalar {
    Scalar { micros: micros as i64 }
}

/// How far the pointer counts as having moved from `from` to `to`: no more
/// than 100 units either way. Taken from the new place to the old one, it is
/// the way upward on a screen whose `y` grows downward.
pub open spec fn pointer_delta(from: Scalar, to: Scalar) -> Scalar {
    to.minus(from).clamped(scalar(-100_000_000), scalar(100_000_000))
}

/// The distance of the camera after it moved by `part` of its distance
/// toward the origin: never under 0.01 and never over 1000.
pub open spec fn dollied(distance: Scalar, part: Scalar) -> Scalar {
    distance.times(scalar(1_000_000).minus(part)).clamped(scalar(10_000), scalar(1_000_000_000))
}

impl InputState {
    /// The input as the sandbox starts: a window of 900 by 700, the pointer
    /// at the origin, no button down, running.
    pub open spec fn initial() -> InputState {
        InputState {
            width: scalar(900_000_000),
            height: scalar(700_000_000),
            mouse_x: scalar(0),
            mouse_y: scalar(0),
            left_down: false,
            middle_down: false,
            right_down: false,
            running: true,
        }
    }

    /// What is remembered of the input after `event`.
    pub open spec fn after(self, event: InputEvent) -> InputState {
        match event {
            InputEvent::CloseRequested => InputState { running: false, ..self },
            InputEvent::Resized { width, height } => InputState { width, height, ..self },
            InputEvent::KeyboardInput { key, pressed } => match key {
                Key::Escape => InputState { running: false, ..self },
                _ => self,
            },
            InputEvent::CursorMoved { x, y } => InputState { mouse_x: x, mouse_y: y, ..self },
            InputEvent::MouseInput { button, pressed } => match button {
                MouseButton::Left => InputState { left_down: pressed, ..self },
                MouseButton::Right => InputState { right_down: pressed, ..self },
                MouseButton::Middle => InputState { middle_down: pressed, ..self },
                MouseButton::Other => self,
            },
            InputEvent::MouseWheel { rows } => self,
        }
    }

    /// The camera after `event`, where this is what was remembered of the
    /// input before it.
    ///
    /// A new size sets the aspect to width over height, unless the height is
    /// zero. The key R puts the camera back to where it started. With the
    /// left button down, the pointer turns the camera by a degree for each
    /// unit it moves, and the incline is held between -90 and 90 degrees.
    /// With the right button down, the pointer's way to the right moves the
    /// camera toward the origin, and so do the rows of the wheel.
    pub open spec fn steer(self, camera: CameraState, event: InputEvent) -> CameraState {
        match event {
            InputEvent::Resized { width, height } => if height@ == 0 {
                camera
            } else {
                CameraState { aspect: width.over(height), ..camera }
            },
            InputEvent::KeyboardInput { key, pressed } => if key == Key::R && pressed {
                CameraState { aspect: scalar(1_285_714), ..camera.reset() }
            } else {
                camera
            },
            InputEvent::CursorMoved { x, y } => {
                let dx = pointer_delta(self.mouse_x, x);
                let dy = pointer_delta(y, self.mouse_y);
                let turned = if self.left_down {
                    CameraState {
                        azimuth: camera.azimuth.plus(dx.times(scalar(1_000_000))),
                        incline: camera.incline.minus(dy.times(scalar(1_000_000))).clamped(
                            scalar(-90_000_000),
                            scalar(90_000_000),
                        ),
                        ..camera
                    }
                } else {
                    camera
                };
                if self.right_down {
                    CameraState {
                        distance: dollied(turned.distance, dx.times(scalar(5_000))),
                        ..turned
                    }
                } else {
                    turned
                }
            },
            InputEvent::MouseWheel { rows } => CameraState {
                distance: dollied(camera.distance, rows.times(scalar(50_000))),
                ..camera
            },
            _ => camera,
        }
    }

    /// What is to be done beyond the camera after `event`.
    pub open spec fn reaction(self, event: InputEvent) -> Reaction {
        match event {
            InputEvent::Resized { width, height } => Reaction::Viewport {
                width: width.whole(),
                height: height.whole(),
            },
            InputEvent::KeyboardInput { key, pressed } => if key == Key::R && pressed {
                Reaction::ResetCube
            } else {
                Reaction::Nothing
            },
            _ => Reaction::Nothing,
        }
    }

    /// The input as the sandbox starts.
    pub fn new() -> (input: InputState)
        ensures
            input == InputState::initial(),
    {
        InputState {
            width: Scalar::from_micros(START_WIDTH),
            height: Scalar::from_micros(START_HEIGHT),
            mouse_x: Scalar::zero(),
            mouse_y: Scalar::zero(),
            left_down: false,
            middle_down: false,
            right_down: false,
            running: true,
        }
    }

    /// Takes in `event`: remembers what it says of the input, steers the
    /// camera by it, and says what else is to be done.
    pub fn handle(&mut self, camera: &mut Camera, event: InputEvent) -> (reaction: Reaction)
        ensures
            *final(self) == old(self).after(event),
            final(camera)@ == old(self).steer(old(camera)@, event),
            reaction == old(self).reaction(event),
    {
        match event {
            InputEvent::CloseRequested => {
                self.running = false;
                Reaction::Nothing
            },
            InputEvent::Resized { width, height } => {
                self.width = width;
                self.height = height;
                match width.checked_div(height) {
                    Some(aspect) => {
                        camera.set_aspect(aspect);
                    },
                    None => {},
                }
                Reaction::Viewport { width: width.trunc_to_i32(), height: height.trunc_to_i32() }
            },
            InputEvent::KeyboardInput { key, pressed } => {
                match key {
                    Key::R => {
                        if pressed {
                            camera.reset();
                            camera.set_aspect(Scalar::from_micros(START_ASPECT));
                            Reaction::ResetCube
                        } else {
                            Reaction::Nothing
                        }
                    },
                    Key::Escape => {
                        self.running = false;
                        Reaction::Nothing
                    },
                    Key::Other => Reaction::Nothing,
                }
            },
            InputEvent::CursorMoved { x, y } => {
                let max_delta = Scalar::from_micros(MAX_DELTA);
                let dx = clamp_scalar(x.sub(self.mouse_x), max_delta.neg(), max_delta);
                let dy = clamp_scalar(self.mouse_y.sub(y), max_delta.neg(), max_delta);

                self.mouse_x = x;
                self.mouse_y = y;

                if self.left_down {
                    let rate = Scalar::from_micros(ORBIT_RATE);
                    let azimuth = camera.get_azimuth();
                    let incline = camera.get_incline();
                    camera.set_azimuth(azimuth.add(dx.mul(rate)));
                    camera.set_incline(
                        clamp_scalar(
                            incline.sub(dy.mul(rate)),
                            Scalar::from_micros(MIN_INCLINE),
                            Scalar::from_micros(MAX_INCLINE),
                        ),
                    );
                }
                if self.right_down {
                    let rate = Scalar::from_micros(DOLLY_RATE);
                    let distance = clamp_scalar(
                        camera.get_distance().mul(Scalar::one().sub(dx.mul(rate))),
                        Scalar::from_micros(MIN_DISTANCE),
                        Scalar::from_micros(MAX_DISTANCE),
                    );
                    camera.set_distance(distance);
                }
                Reaction::Nothing
            },
            InputEvent::MouseInput { button, pressed } => {
                match button {
                    MouseButton::Left => {
                        self.left_down = pressed;
                    },
                    MouseButton::Right => {
                        self.right_down = pressed;
                    },
                    MouseButton::Middle => {
                        self.middle_down = pressed;
                    },
                    MouseButton::Other => {},
                }
                Reaction::Nothing
            },
            InputEvent::MouseWheel { rows } => {
                let rate = Scalar::from_micros(WHEEL_RATE);
                let distance = clamp_scalar(
                    camera.get_distance().mul(Scalar::one().sub(rows.mul(rate))),
                    Scalar::from_micros(MIN_DISTANCE),
                    Scalar::from_micros(MAX_DISTANCE),
                );
                camera.set_distance(distance);
                Reaction::Nothing
            },
        }
    }
}

/// The context after a scene is made: a program of vertex and fragment
/// stage, then one cube, then another.
pub open spec fn scene_created(s: GpuState, texts: Seq<Seq<u8>>) -> GpuState {
    cube_created(cube_created(program_created(s, ProgramType::Render, texts)))
}

/// The commands that set a scene up, in a context whose next name is
/// `first`: the program takes three names, each cube three more.
pub open spec fn scene_commands(first: u32, texts: Seq<Seq<u8>>) -> Seq<CommandView> {
    program_commands(first, stages_of(ProgramType::Render), texts) + cube_commands(
        (first + 3) as u32,
    ) + cube_commands((first + 6) as u32)
}

/// Wherever there are two texts and nine names left, the commands that set
/// a scene up may be given in their order, and they leave what
/// [`scene_created`] says.
pub proof fn lemma_scene_allowed(s: GpuState, texts: Seq<Seq<u8>>)
    requires
        s.wf(),
        texts.len() == 2,
        s.names_left() >= 9,
    ensures
        s.allows_all(scene_commands(s.next_name, texts)),
        s.issued_all(scene_commands(s.next_name, texts)) == scene_created(s, texts),
{
    let first = s.next_name;
    let program = program_commands(first, stages_of(ProgramType::Render), texts);
    lemma_program_allowed(s, ProgramType::Render, texts);
    lemma_issued_all_wf(s, program);
    let s1 = s.issued_all(program);
    lemma_cube_allowed(s1);
    lemma_issued_concat(s, program, cube_commands((first + 3) as u32));
    let s2 = cube_created(s1);
    lemma_cube_allowed(s2);
    lemma_issued_concat(
        s,
        program + cube_commands((first + 3) as u32),
        cube_commands((first + 6) as u32),
    );
}

/// The context after a frame is drawn: the frame is cleared, then the two
/// cubes are drawn, each with its transform after the update.
pub open spec fn frame_drawn(
    s: GpuState,
    cube: SpinningCube,
    cube2: SpinningCube,
    view_proj: Matrix,
    shader: u32,
) -> GpuState {
    drawn(
        drawn(
            s.issued(CommandView::Clear),
            cube.model().index_buffer(),
            cube.model().vertex_array(),
            cube.model().index_count(),
            cube@.world_mat,
            view_proj,
            shader,
        ),
        cube2.model().index_buffer(),
        cube2.model().vertex_array(),
        cube2.model().index_count(),
        cube2@.world_mat,
        view_proj,
        shader,
    )
}

/// The commands of a frame: the frame is cleared, then the two cubes are
/// drawn.
pub open spec fn frame_commands(
    cube: SpinningCube,
    cube2: SpinningCube,
    view_proj: Matrix,
    shader: u32,
) -> Seq<CommandView> {
    seq![CommandView::Clear] + draw_commands(
        cube.model().index_buffer(),
        cube.model().vertex_array(),
        cube.model().index_count(),
        cube@.world_mat,
        view_proj,
        shader,
    ) + draw_commands(
        cube2.model().index_buffer(),
        cube2.model().vertex_array(),
        cube2.model().index_count(),
        cube2@.world_mat,
        view_proj,
        shader,
    )
}

/// Wherever the models of two cubes and a program are alive, the commands
/// of a frame may be given in their order, and they leave what
/// [`frame_drawn`] says.
pub proof fn lemma_frame_allowed(
    s: GpuState,
    cube: SpinningCube,
    cube2: SpinningCube,
    view_proj: Matrix,
    shader: u32,
)
    requires
        s.wf(),
        cube.wf(s),
        cube2.wf(s),
        cube.model().index_count() >= 0,
        cube2.model().index_count() >= 0,
        s.is_live(ObjectKind::Program, shader),
    ensures
        s.allows_all(frame_commands(cube, cube2, view_proj, shader)),
        s.issued_all(frame_commands(cube, cube2, view_proj, shader)) == frame_drawn(
            s,
            cube,
            cube2,
            view_proj,
            shader,
        ),
{
    let clear = seq![CommandView::Clear];
    assert(clear.take(0) =~= Seq::empty());
    lemma_issued_push(s, clear.take(0), clear[0]);
    assert(clear =~= clear.take(0).push(clear[0]));
    let s1 = s.issued_all(clear);
    lemma_issued_wf(s, CommandView::Clear);
    let first = draw_commands(
        cube.model().index_buffer(),
        cube.model().vertex_array(),
        cube.model().index_count(),
        cube@.world_mat,
        view_proj,
        shader,
    );
    lemma_draw_allowed(
        s1,
        cube.model().index_buffer(),
        cube.model().vertex_array(),
        cube.model().index_count(),
        cube@.world_mat,
        view_proj,
        shader,
    );
    lemma_issued_concat(s, clear, first);
    lemma_issued_all_wf(s, clear + first);
    let s2 = s.issued_all(clear + first);
    let second = draw_commands(
        cube2.model().index_buffer(),
        cube2.model().vertex_array(),
        cube2.model().index_count(),
        cube2@.world_mat,
        view_proj,
        shader,
    );
    lemma_draw_allowed(
        s2,
        cube2.model().index_buffer(),
        cube2.model().vertex_array(),
        cube2.model().index_count(),
        cube2@.world_mat,
        view_proj,
        shader,
    );
    lemma_issued_concat(s, clear + first, second);
}

/// The sandbox's scene: a camera, two cubes and the program that they are
/// drawn with.
pub struct Scene {
    input: InputState,
    camera: Camera,
    cube: SpinningCube,
    cube2: SpinningCube,
    shader_program: ShaderProgram,
}

impl Scene {
    /// What is remembered of the input.
    pub closed spec fn input(&self) -> InputState {
        self.input
    }

    /// The camera.
    pub closed spec fn camera(&self) -> CameraState {
        self.camera@
    }

    /// The first cube, which the key R resets.
    pub closed spec fn cube(&self) -> SpinningCube {
        self.cube
    }

    /// The second cube.
    pub closed spec fn cube2(&self) -> SpinningCube {
        self.cube2
    }

    /// The name of the program that the cubes are drawn with.
    pub closed spec fn program(&self) -> u32 {
        self.shader_program.name()
    }

    /// The scene's objects are alive in `gpu`, and the two cubes share none.
    pub open spec fn wf(&self, gpu: GpuState) -> bool {
        &&& self.cube().wf(gpu)
        &&& self.cube2().wf(gpu)
        &&& gpu.is_live(ObjectKind::Program, self.program())
        &&& self.cube().model().vertex_buffer() != self.cube2().model().vertex_buffer()
        &&& self.cube().model().vertex_buffer() != self.cube2().model().index_buffer()
        &&& self.cube().model().index_buffer() != self.cube2().model().vertex_buffer()
        &&& self.cube().model().index_buffer() != self.cube2().model().index_buffer()
        &&& self.cube().model().vertex_array() != self.cube2().model().vertex_array()
    }

    /// Sets the scene up from the texts of the vertex and the fragment
    /// shader: the program, a camera for a window of 900 by 700, a cube at
    /// the origin and a second cube at (3, 3, 0).
    ///
    /// Nothing is done, and an error is returned, where there are not
    /// exactly two texts, or else where the context has fewer than nine
    /// names left.
    pub fn new(gpu: &mut Gpu, sources: &Vec<Vec<u8>>) -> (r: Result<Scene, ProgramError>)
        ensures
            match r {
                Ok(scene) => {
                    &&& sources@.len() == 2
                    &&& old(gpu)@.names_left() >= 9
                    &&& scene.input() == InputState::initial()
                    &&& scene.camera() == (CameraState {
                        aspect: scalar(1_285_714),
                        ..CameraState::initial()
                    })
                    &&& scene.cube()@ == CubeState::initial()
                    &&& scene.cube2()@ == (CubeState {
                        position: Vec3::units(3, 3, 0),
                        ..CubeState::initial()
                    })
                    &&& scene.program() == old(gpu)@.next_name + 2
                    &&& scene.wf(final(gpu)@)
                    &&& final(gpu)@ == scene_created(old(gpu)@, texts_of(sources@))
                },
                Err(ProgramError::SourceCount) => {
                    &&& sources@.len() != 2
                    &&& final(gpu)@ == old(gpu)@
                },
                Err(ProgramError::OutOfNames) => {
                    &&& sources@.len() == 2
                    &&& old(gpu)@.names_left() < 9
                    &&& final(gpu)@ == old(gpu)@
                },
            },
    {
        proof {
            use_type_invariant(&*gpu);
        }
        if sources.len() != 2 {
            return Err(ProgramError::SourceCount);
        }
        if gpu.names_left() < 9 {
            return Err(ProgramError::OutOfNames);
        }
        let shader_program = match ShaderProgram::from_file(gpu, ProgramType::Render, sources) {
            Ok(program) => program,
            Err(e) => {
                return Err(e);
            },
        };
        let mut camera = Camera::new();
        camera.set_aspect(Scalar::from_micros(START_ASPECT));
        let cube = SpinningCube::new(gpu).unwrap();
        let mut cube2 = SpinningCube::new(gpu).unwrap();
        cube2.set_position(Vec3::from_units(3, 3, 0));
        Ok(Scene { input: InputState::new(), camera, cube, cube2, shader_program })
    }

    /// Whether the sandbox goes on: no close was asked for and Escape was
    /// not pressed.
    pub fn is_running(&self) -> (running: bool)
        ensures
            running == self.input().running,
    {
        self.input.running
    }

    /// What is remembered of the input.
    pub fn get_input(&self) -> (input: InputState)
        ensures
            input == self.input(),
    {
        self.input
    }

    /// The camera.
    pub fn get_camera(&self) -> (camera: &Camera)
        ensures
            camera@ == self.camera(),
    {
        &self.camera
    }

    /// The first cube, which the key R resets.
    pub fn get_cube(&self) -> (cube: &SpinningCube)
        ensures
            *cube == self.cube(),
    {
        &self.cube
    }

    /// The second cube.
    pub fn get_cube2(&self) -> (cube: &SpinningCube)
        ensures
            *cube == self.cube2(),
    {
        &self.cube2
    }

    /// The name of the program that the cubes are drawn with.
    pub fn shader_id(&self) -> (name: u32)
        ensures
            name == self.program(),
    {
        self.shader_program.id()
    }

    /// Whether the scene's objects are alive in `gpu`.
    pub fn is_valid(&self, gpu: &Gpu) -> (b: bool)
        ensures
            b == self.wf(gpu@),
    {
        self.cube.is_valid(gpu) && self.cube2.is_valid(gpu) && gpu.is_live(
            ObjectKind::Program,
            self.shader_program.id(),
        ) && self.cube.model_ids().0 != self.cube2.model_ids().0 && self.cube.model_ids().0
            != self.cube2.model_ids().1 && self.cube.model_ids().1 != self.cube2.model_ids().0
            && self.cube.model_ids().1 != self.cube2.model_ids().1 && self.cube.model_ids().2
            != self.cube2.model_ids().2
    }

    /// Takes in one event of the window.
    ///
    /// The input and the camera follow [`InputState::after`] and
    /// [`InputState::steer`]. The key R also resets the first cube. A new
    /// size of the window is recorded as a new viewport.
    pub fn handle_event(&mut self, gpu: &mut Gpu, event: InputEvent)
        ensures
            final(self).input() == old(self).input().after(event),
            final(self).camera() == old(self).input().steer(old(self).camera(), event),
            final(self).cube()@ == match old(self).input().reaction(event) {
                Reaction::ResetCube => old(self).cube()@.reset(),
                _ => old(self).cube()@,
            },
            final(self).cube().model() == old(self).cube().model(),
            final(self).cube2() == old(self).cube2(),
            final(self).program() == old(self).program(),
            final(gpu)@ == match old(self).input().reaction(event) {
                Reaction::Viewport { width, height } => old(gpu)@.issued(
                    CommandView::Viewport { width, height },
                ),
                _ => old(gpu)@,
            },
            old(self).wf(old(gpu)@) ==> final(self).wf(final(gpu)@),
    {
        match self.input.handle(&mut self.camera, event) {
            Reaction::Nothing => {},
            Reaction::ResetCube => {
                self.cube.reset();
            },
            Reaction::Viewport { width, height } => {
                gpu.issue(Command::Viewport { width, height });
            },
        }
    }

    /// Draws one frame, `dt` seconds after the last: the frame is cleared,
    /// the camera's matrix is worked out, and each cube is moved on by `dt`
    /// and drawn.
    pub fn frame(&mut self, gpu: &mut Gpu, dt: Scalar)
        requires
            old(self).wf(old(gpu)@),
        ensures
            final(self).input() == old(self).input(),
            final(self).camera() == old(self).camera().updated(),
            final(self).cube()@ == old(self).cube()@.updated(dt),
            final(self).cube2()@ == old(self).cube2()@.updated(dt),
            final(self).cube().model() == old(self).cube().model(),
            final(self).cube2().model() == old(self).cube2().model(),
            final(self).program() == old(self).program(),
            final(self).wf(final(gpu)@),
            final(gpu)@ == frame_drawn(
                old(gpu)@,
                final(self).cube(),
                final(self).cube2(),
                final(self).camera().view_proj_mat,
                old(self).program(),
            ),
    {
        gpu.issue(Command::Clear);
        self.camera.update();
        self.cube.update(dt);
        self.cube.draw(gpu, self.camera.get_view_proj_mat(), self.shader_program.id());
        self.cube2.update(dt);
        self.cube2.draw(gpu, self.camera.get_view_proj_mat(), self.shader_program.id());
    }

    /// Releases all that the scene owns: the second cube, the first cube,
    /// then the program.
    pub fn destroy(self, gpu: &mut Gpu)
        requires
            self.wf(old(gpu)@),
        ensures
            final(gpu)@ == model_destroyed(
                model_destroyed(
                    old(gpu)@,
                    self.cube2().model().vertex_buffer(),
                    self.cube2().model().index_buffer(),
                    self.cube2().model().vertex_array(),
                ),
                self.cube().model().vertex_buffer(),
                self.cube().model().index_buffer(),
                self.cube().model().vertex_array(),
            ).issued(CommandView::DeleteProgram { name: self.program() }),
    {
        let Scene { input: _, camera: _, cube, cube2, shader_program } = self;
        cube2.destroy(gpu);
        cube.destroy(gpu);
        shader_program.destroy(gpu);
    }
}

/// The camera after each of `events`, in order, and what was then
/// remembered of the input.
pub open spec fn steer_all(input: InputState, camera: CameraState, events: Seq<InputEvent>) -> (
    InputState,
    CameraState,
)
    decreases events.len(),
{
    if events.len() == 0 {
        (input, camera)
    } else {
        let before = steer_all(input, camera, events.drop_last());
        (before.0.after(events.last()), before.0.steer(before.1, events.last()))
    }
}

/// The incline lies between -90 and 90 degrees.
pub open spec fn incline_in_range(camera: CameraState) -> bool {
    -90_000_000 <= camera.incline@ <= 90_000_000
}

/// The distance lies between 0.01 and 1000.
pub open spec fn distance_in_range(camera: CameraState) -> bool {
    10_000 <= camera.distance@ <= 1_000_000_000
}

/// One event leaves the incline between -90 and 90 degrees and the
/// distance between 0.01 and 1000, if they were there before.
pub proof fn lemma_steer_keeps_range(input: InputState, camera: CameraState, event: InputEvent)
    ensures
        incline_in_range(camera) ==> incline_in_range(input.steer(camera, event)),
        distance_in_range(camera) ==> distance_in_range(input.steer(camera, event)),
{
}

/// A drag of the pointer with the left button down leaves the incline
/// between -90 and 90 degrees, wherever it was before and however far the
/// pointer went.
pub proof fn lemma_drag_clamps_incline(input: InputState, camera: CameraState, x: Scalar, y: Scalar)
    requires
        input.left_down,
    ensures
        incline_in_range(input.steer(camera, InputEvent::CursorMoved { x, y })),
{
}

/// Whatever events come, in whatever order and however many: a camera whose
/// incline lies between -90 and 90 degrees keeps it there, and one whose
/// distance lies between 0.01 and 1000 keeps it there. The camera of a new
/// scene is such a camera.
pub proof fn lemma_steering_stays_in_range(
    input: InputState,
    camera: CameraState,
    events: Seq<InputEvent>,
)
    ensures
        incline_in_range(camera) ==> incline_in_range(steer_all(input, camera, events).1),
        distance_in_range(camera) ==> distance_in_range(steer_all(input, camera, events).1),
        incline_in_range(CameraState::initial()),
        distance_in_range(CameraState::initial()),
    decreases events.len(),
{
    if events.len() > 0 {
        lemma_steering_stays_in_range(input, camera, events.drop_last());
        let before = steer_all(input, camera, events.drop_last());
        lemma_steer_keeps_range(before.0, before.1, events.last());
    }
}

} // verus!
