//! A cube that spins in place.
//!
//! The cube turns about its own centre and is then set at its position in
//! the world. Its angle grows with time at its spin rate.

use vstd::prelude::*;
use crate::geometry::box_indices;
use crate::geometry::box_vertices;
use crate::gpu::lemma_issued_all_wf;
use crate::gpu::lemma_issued_concat;
use crate::gpu::Gpu;
use crate::gpu::GpuState;
use crate::command::ObjectKind;
use crate::matrix::Angle;
use crate::matrix::Matrix;
use crate::command::CommandView;
use crate::model::create_commands;
use crate::model::drawn;
use crate::model::lemma_create_allowed;
use crate::model::lemma_upload_allowed;
use crate::model::upload_commands;
use crate::model::model_created;
use crate::model::model_destroyed;
use crate::model::uploaded;
use crate::model::Mesh;
use crate::model::Model;
use crate::scalar::Scalar;
use crate::scalar::Vec3;

verus! {

/// The mathematical value of a [`SpinningCube`], but for its model.
pub struct CubeState {
    /// Where the cube's centre is.
    pub position: Vec3,
    /// The direction of the line that the cube turns about.
    pub axis: Vec3,
    /// How fast the cube turns, in radians a second.
    pub spin_delta: Scalar,
    /// How far the cube has turned, in radians.
    pub angle: Scalar,
    /// The cube's transform as the last update or reset left it.
    pub world_mat: Matrix,
}

impl CubeState {
    /// The cube that [`SpinningCube::new`] makes: at the origin, about to
    /// turn about the vertical axis at one radian a second.
    pub open spec fn initial() -> CubeState {
        CubeState {
            position: Vec3::units(0, 0, 0),
            axis: Vec3::units(0, 1, 0),
            spin_delta: Scalar { micros: 1_000_000 },
            angle: Scalar { micros: 0 },
            world_mat: Matrix::Identity,
        }
    }

    /// The transform of a cube at `position` that has turned by `angle`
    /// about `axis`: the turn comes first, the shift to the position after.
    pub open spec fn world(position: Vec3, angle: Scalar, axis: Vec3) -> Matrix {
        Matrix::spec_product(
            Matrix::Translation(position),
            Matrix::Rotation { angle: Angle::Radians(angle), axis },
        )
    }

    /// The cube after `dt` seconds more: it has turned on by its spin rate
    /// times `dt`.
    pub open spec fn updated(self, dt: Scalar) -> CubeState {
        let angle = self.angle.plus(self.spin_delta.times(dt));
        CubeState { angle, world_mat: CubeState::world(self.position, angle, self.axis), ..self }
    }

    /// The cube after [`SpinningCube::reset`].
    pub open spec fn reset(self) -> CubeState {
        CubeState { angle: Scalar { micros: 0 }, world_mat: Matrix::Identity, ..self }
    }

    /// The cube after one update for each of `dts`, in order.
    pub open spec fn updated_all(self, dts: Seq<Scalar>) -> CubeState
        decreases dts.len(),
    {
        if dts.len() == 0 {
            self
        } else {
            self.updated_all(dts.drop_last()).updated(dts.last())
        }
    }
}

/// The sum of `dts`, in millionths.
pub open spec fn total(dts: Seq<Scalar>) -> int
    decreases dts.len(),
{
    if dts.len() == 0 {
        0
    } else {
        total(dts.drop_last()) + dts.last()@
    }
}

/// The context after a cube is made: the three objects of its model got the
/// next three names, and the box from (-1, -1, -1) to (1, 1, 1) is uploaded
/// into them.
pub open spec fn cube_created(s: GpuState) -> GpuState
    recommends
        s.names_left() >= 3,
{
    uploaded(
        model_created(s),
        s.next_name,
        (s.next_name + 1) as u32,
        (s.next_name + 2) as u32,
        box_vertices(Vec3::units(-1, -1, -1), Vec3::units(1, 1, 1)),
        box_indices(),
    )
}

/// The commands that make a cube whose objects get the names from `first`
/// on: its model is made, and the box is uploaded into it.
pub open spec fn cube_commands(first: u32) -> Seq<CommandView> {
    create_commands(first) + upload_commands(
        first,
        (first + 1) as u32,
        (first + 2) as u32,
        box_vertices(Vec3::units(-1, -1, -1), Vec3::units(1, 1, 1)),
        box_indices(),
    )
}

/// While there are three names left, the commands that make a cube may be
/// given in their order, and they leave what [`cube_created`] says.
pub proof fn lemma_cube_allowed(s: GpuState)
    requires
        s.wf(),
        s.names_left() >= 3,
    ensures
        s.allows_all(cube_commands(s.next_name)),
        s.issued_all(cube_commands(s.next_name)) == cube_created(s),
        cube_created(s).wf(),
        cube_created(s).next_name == s.next_name + 3,
{
    let first = s.next_name;
    let create = create_commands(first);
    lemma_create_allowed(s);
    lemma_issued_all_wf(s, create);
    let upload = upload_commands(
        first,
        (first + 1) as u32,
        (first + 2) as u32,
        box_vertices(Vec3::units(-1, -1, -1), Vec3::units(1, 1, 1)),
        box_indices(),
    );
    lemma_upload_allowed(
        model_created(s),
        first,
        (first + 1) as u32,
        (first + 2) as u32,
        box_vertices(Vec3::units(-1, -1, -1), Vec3::units(1, 1, 1)),
        box_indices(),
    );
    lemma_issued_concat(s, create, upload);
    lemma_issued_all_wf(s, create + upload);
}

/// A cube with its model, its place in the world and its spin.
pub struct SpinningCube {
    cube: Model,
    position: Vec3,
    axis: Vec3,
    spin_delta: Scalar,
    angle: Scalar,
    world_mat: Matrix,
}

impl View for SpinningCube {
    type V = CubeState;

    closed spec fn view(&self) -> CubeState {
        CubeState {
            position: self.position,
            axis: self.axis,
            spin_delta: self.spin_delta,
            angle: self.angle,
            world_mat: self.world_mat,
        }
    }
}

impl SpinningCube {
    /// The cube's model.
    pub closed spec fn model(&self) -> Model {
        self.cube
    }

    /// The cube's model is alive in `gpu`.
    pub open spec fn wf(&self, gpu: GpuState) -> bool {
        self.model().wf(gpu)
    }

    /// Makes a cube: a model that holds the box from (-1, -1, -1) to
    /// (1, 1, 1), at the origin, not yet turned. Returns `None`, and leaves
    /// the context as it is, where the context has fewer than three names
    /// left.
    pub fn new(gpu: &mut Gpu) -> (r: Option<SpinningCube>)
        ensures
            r.is_some() <==> old(gpu)@.names_left() >= 3,
            match r {
                Some(cube) => {
                    &&& cube@ == CubeState::initial()
                    &&& cube.model().vertex_buffer() == old(gpu)@.next_name
                    &&& cube.model().index_buffer() == old(gpu)@.next_name + 1
                    &&& cube.model().vertex_array() == old(gpu)@.next_name + 2
                    &&& cube.model().index_count() == 36
                    &&& cube.model().mesh() == (Mesh {
                        vertices: box_vertices(Vec3::units(-1, -1, -1), Vec3::units(1, 1, 1)),
                        indices: box_indices(),
                    })
                    &&& cube.wf(final(gpu)@)
                    &&& final(gpu)@ == cube_created(old(gpu)@)
                },
                None => final(gpu)@ == old(gpu)@,
            },
    {
        match Model::new(gpu) {
            Some(mut cube) => {
                cube.make_box(gpu, Vec3::from_units(-1, -1, -1), Vec3::from_units(1, 1, 1));
                Some(
                    SpinningCube {
                        cube,
                        position: Vec3::from_units(0, 0, 0),
                        axis: Vec3::from_units(0, 1, 0),
                        spin_delta: Scalar::one(),
                        angle: Scalar::zero(),
                        world_mat: Matrix::Identity,
                    },
                )
            },
            None => None,
        }
    }

    /// Whether the cube's model is alive in `gpu`.
    pub fn is_valid(&self, gpu: &Gpu) -> (b: bool)
        ensures
            b == self.wf(gpu@),
    {
        self.cube.is_valid(gpu)
    }

    /// The names of the model's vertex buffer, index buffer and vertex
    /// array.
    pub fn model_ids(&self) -> (ids: (u32, u32, u32))
        ensures
            ids.0 == self.model().vertex_buffer(),
            ids.1 == self.model().index_buffer(),
            ids.2 == self.model().vertex_array(),
    {
        (self.cube.vertex_buffer_id(), self.cube.index_buffer_id(), self.cube.vertex_array_id())
    }

    /// Sets where the cube's centre is. The transform follows with the next
    /// update.
    pub fn set_position(&mut self, pos: Vec3)
        ensures
            final(self)@ == (CubeState { position: pos, ..old(self)@ }),
            final(self).model() == old(self).model(),
    {
        self.position = pos
    }

    /// How far the cube has turned, in radians.
    pub fn angle(&self) -> (angle: Scalar)
        ensures
            angle == self@.angle,
    {
        self.angle
    }

    /// Where the cube's centre is.
    pub fn position(&self) -> (position: Vec3)
        ensures
            position == self@.position,
    {
        self.position
    }

    /// The cube's transform as the last update or reset left it.
    pub fn world_mat(&self) -> (m: Matrix)
        ensures
            m == self@.world_mat,
    {
        self.world_mat.clone()
    }

    /// Moves time on by `dt` seconds: the angle grows by the spin rate times
    /// `dt`, and the transform becomes the turn by the new angle about the
    /// axis, followed by the shift to the position.
    pub fn update(&mut self, dt: Scalar)
        ensures
            final(self)@ == old(self)@.updated(dt),
            final(self).model() == old(self).model(),
    {
        self.angle = self.angle.add(self.spin_delta.mul(dt));
        self.world_mat = Matrix::product(
            Matrix::Translation(self.position),
            Matrix::Rotation { angle: Angle::Radians(self.angle), axis: self.axis },
        );
    }

    /// Draws the cube's model, with the cube's transform, with the program
    /// `shader`.
    pub fn draw(&self, gpu: &mut Gpu, view_proj_mat: Matrix, shader: u32)
        requires
            self.wf(old(gpu)@),
            old(gpu)@.is_live(ObjectKind::Program, shader),
        ensures
            final(gpu)@ == drawn(
                old(gpu)@,
                self.model().index_buffer(),
                self.model().vertex_array(),
                self.model().index_count(),
                self@.world_mat,
                view_proj_mat,
                shader,
            ),
    {
        self.cube.draw(gpu, self.world_mat.clone(), view_proj_mat, shader);
    }

    /// Turns the cube back to where it started: the angle is zero and the
    /// transform the identity. Position, axis and spin rate stay.
    pub fn reset(&mut self)
        ensures
            final(self)@ == old(self)@.reset(),
            final(self).model() == old(self).model(),
    {
        self.angle = Scalar::zero();
        self.world_mat = Matrix::Identity;
    }

    /// Releases the cube's model.
    pub fn destroy(self, gpu: &mut Gpu)
        requires
            self.wf(old(gpu)@),
        ensures
            final(gpu)@ == model_destroyed(
                old(gpu)@,
                self.model().vertex_buffer(),
                self.model().index_buffer(),
                self.model().vertex_array(),
            ),
    {
        self.cube.destroy(gpu);
    }
}

/// Resetting a cube twice leaves it as resetting it once does: not turned,
/// with the identity for its transform.
pub proof fn lemma_reset_idempotent(cube: CubeState)
    ensures
        cube.reset().reset() == cube.reset(),
        cube.reset().angle@ == 0,
        cube.reset().world_mat == Matrix::Identity,
{
}

/// What a reset leaves does not depend on the updates that came before it.
pub proof fn lemma_reset_forgets_updates(cube: CubeState, dts: Seq<Scalar>)
    ensures
        cube.updated_all(dts).reset() == cube.reset(),
    decreases dts.len(),
{
    if dts.len() > 0 {
        lemma_reset_forgets_updates(cube, dts.drop_last());
    }
}

/// The angle of `cube` and the sum of the first `k` of `dts`, for every
/// `k`, lie within what a scalar can hold: no update of the cube by `dts`
/// saturates.
pub open spec fn stays_in_range(cube: CubeState, dts: Seq<Scalar>) -> bool {
    forall|k: int|
        0 <= k <= dts.len() ==> i64::MIN <= cube.angle@ + #[trigger] total(dts.take(k))
            <= i64::MAX
}

/// A cube that spins at one radian a second has, after any number of
/// updates, turned by the sum of the times that passed: as long as the angle
/// stays within what a scalar can hold, nothing is lost from one update to
/// the next.
pub proof fn lemma_spin_accumulates(cube: CubeState, dts: Seq<Scalar>)
    requires
        cube.spin_delta@ == 1_000_000,
        stays_in_range(cube, dts),
    ensures
        cube.updated_all(dts).angle@ == cube.angle@ + total(dts),
        cube.updated_all(dts).spin_delta == cube.spin_delta,
    decreases dts.len(),
{
    assert(dts.take(dts.len() as int) =~= dts);
    if dts.len() > 0 {
        let init = dts.drop_last();
        assert forall|k: int| 0 <= k <= init.len() implies i64::MIN <= cube.angle@
            + #[trigger] total(init.take(k)) <= i64::MAX by {
            assert(init.take(k) =~= dts.take(k));
        }
        assert(init.take(init.len() as int) =~= init);
        lemma_spin_accumulates(cube, init);
    }
}

/// Two runs of updates over the same total time leave a cube that spins at
/// one radian a second at the same angle, however the time was cut up and
/// in whatever order: one update by a second gives what N updates by an N-th
/// of a second give.
pub proof fn lemma_spin_depends_on_total(cube: CubeState, a: Seq<Scalar>, b: Seq<Scalar>)
    requires
        cube.spin_delta@ == 1_000_000,
        stays_in_range(cube, a),
        stays_in_range(cube, b),
        total(a) == total(b),
    ensures
        cube.updated_all(a).angle == cube.updated_all(b).angle,
{
    lemma_spin_accumulates(cube, a);
    lemma_spin_accumulates(cube, b);
}

} // verus!
