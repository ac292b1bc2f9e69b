//! Drawable geometry.
//!
//! A [`Model`] owns a vertex buffer, an index buffer and a vertex array. Its
//! geometry is a list of vertices and a list of indices into it, three to a
//! triangle.

use vstd::prelude::*;
use crate::buffer::ArrayBuffer;
use crate::buffer::ElementArrayBuffer;
use crate::buffer::VertexArray;
use crate::command::BufferContents;
use crate::command::BufferContentsView;
use crate::command::BufferTarget;
use crate::command::Command;
use crate::command::CommandView;
use crate::command::ComponentType;
use crate::command::ObjectKind;
use crate::command::UniformName;
use crate::geometry::box_indices;
use crate::geometry::box_mesh_indices;
use crate::geometry::box_mesh_vertices;
use crate::geometry::box_vertices;
use crate::gpu::lemma_issued_all_wf;
use crate::gpu::lemma_issued_push;
use crate::gpu::Bindings;
use crate::gpu::Gpu;
use crate::gpu::GpuState;
use crate::matrix::Matrix;
use crate::scalar::Vec3;

verus! {

/// The bytes from one vertex to the next in a vertex buffer: a position and
/// a normal of three 4-byte numbers each.
pub const VERTEX_STRIDE: u32 = 24;

/// The bytes from the start of a vertex to its normal.
pub const NORMAL_OFFSET: u32 = 12;

/// The attribute slot of a vertex's position.
pub const POSITION_SLOT: u32 = 0;

/// The attribute slot of a vertex's normal.
pub const NORMAL_SLOT: u32 = 1;

/// One corner of a mesh: where it is and which way its surface faces.
#[derive(Clone, Copy, Debug, PartialEq, Eq, Structural)]
pub struct ModelVertex {
    pub position: Vec3,
    pub normal: Vec3,
}

impl ModelVertex {
    /// The vertex at `position` whose surface faces along `normal`.
    pub fn new(position: Vec3, normal: Vec3) -> (v: ModelVertex)
        ensures
            v == (ModelVertex { position, normal }),
    {
        ModelVertex { position, normal }
    }
}

/// The commands that upload a mesh into the three objects of a model and
/// say how a vertex is laid out: a position in slot 0 at the start of each
/// vertex and a normal in slot 1 after it, three numbers each. At the end
/// nothing is left current.
pub open spec fn upload_commands(
    vertex_buffer: u32,
    index_buffer: u32,
    vertex_array: u32,
    vertices: Seq<ModelVertex>,
    indices: Seq<u32>,
) -> Seq<CommandView> {
    seq![
        CommandView::BindVertexArray { name: vertex_array },
        CommandView::BindBuffer { target: BufferTarget::Array, name: vertex_buffer },
        CommandView::BufferData {
            target: BufferTarget::Array,
            contents: BufferContentsView::Vertices(vertices),
        },
        CommandView::BindBuffer { target: BufferTarget::ElementArray, name: index_buffer },
        CommandView::BufferData {
            target: BufferTarget::ElementArray,
            contents: BufferContentsView::Indices(indices),
        },
        CommandView::EnableVertexAttribArray { index: 0 },
        CommandView::VertexAttribPointer {
            index: 0,
            components: 3,
            component: ComponentType::Float,
            stride: 24,
            offset: 0,
        },
        CommandView::EnableVertexAttribArray { index: 1 },
        CommandView::VertexAttribPointer {
            index: 1,
            components: 3,
            component: ComponentType::Float,
            stride: 24,
            offset: 12,
        },
        CommandView::BindVertexArray { name: 0 },
        CommandView::BindBuffer { target: BufferTarget::Array, name: 0 },
        CommandView::BindBuffer { target: BufferTarget::ElementArray, name: 0 },
    ]
}

/// The commands that draw a model of `count` indices with the program
/// `shader`: the two matrix uniforms are set, the second to `view_proj`
/// times `model`; the index buffer and the vertex array are made current;
/// the triangles are drawn; and nothing is left current.
pub open spec fn draw_commands(
    index_buffer: u32,
    vertex_array: u32,
    count: i32,
    model: Matrix,
    view_proj: Matrix,
    shader: u32,
) -> Seq<CommandView> {
    seq![
        CommandView::UseProgram { name: shader },
        CommandView::UniformMatrix {
            program: shader,
            uniform: UniformName::ModelMtx,
            matrix: model,
        },
        CommandView::UniformMatrix {
            program: shader,
            uniform: UniformName::ModelViewProjMtx,
            matrix: Matrix::spec_product(view_proj, model),
        },
        CommandView::BindBuffer { target: BufferTarget::ElementArray, name: index_buffer },
        CommandView::BindVertexArray { name: vertex_array },
        CommandView::DrawElements { count },
        CommandView::BindVertexArray { name: 0 },
        CommandView::BindBuffer { target: BufferTarget::ElementArray, name: 0 },
        CommandView::UseProgram { name: 0 },
    ]
}

/// The state after a mesh is uploaded: the commands are recorded and no
/// buffer or vertex array is current.
pub open spec fn uploaded(
    s: GpuState,
    vertex_buffer: u32,
    index_buffer: u32,
    vertex_array: u32,
    vertices: Seq<ModelVertex>,
    indices: Seq<u32>,
) -> GpuState {
    GpuState {
        bindings: Bindings {
            array_buffer: 0,
            element_array_buffer: 0,
            vertex_array: 0,
            ..s.bindings
        },
        commands: s.commands + upload_commands(
            vertex_buffer,
            index_buffer,
            vertex_array,
            vertices,
            indices,
        ),
        ..s
    }
}

/// The state after a model is drawn: the commands are recorded and no
/// program, vertex array or index buffer is current.
pub open spec fn drawn(
    s: GpuState,
    index_buffer: u32,
    vertex_array: u32,
    count: i32,
    model: Matrix,
    view_proj: Matrix,
    shader: u32,
) -> GpuState {
    GpuState {
        bindings: Bindings { element_array_buffer: 0, vertex_array: 0, program: 0, ..s.bindings },
        commands: s.commands + draw_commands(
            index_buffer,
            vertex_array,
            count,
            model,
            view_proj,
            shader,
        ),
        ..s
    }
}

/// The state after a model's three objects are made: a vertex buffer, an
/// index buffer and a vertex array, which get the next three names in that
/// order.
pub open spec fn model_created(s: GpuState) -> GpuState
    recommends
        s.names_left() >= 3,
{
    s.issued(CommandView::GenBuffer { name: s.next_name }).issued(
        CommandView::GenBuffer { name: (s.next_name + 1) as u32 },
    ).issued(CommandView::GenVertexArray { name: (s.next_name + 2) as u32 })
}

/// The state after the three objects of a model are released, in the order
/// in which they were made.
pub open spec fn model_destroyed(
    s: GpuState,
    vertex_buffer: u32,
    index_buffer: u32,
    vertex_array: u32,
) -> GpuState {
    s.issued(CommandView::DeleteBuffer { name: vertex_buffer }).issued(
        CommandView::DeleteBuffer { name: index_buffer },
    ).issued(CommandView::DeleteVertexArray { name: vertex_array })
}

/// The commands that make the three objects of a model, which get the
/// names from `first` on.
pub open spec fn create_commands(first: u32) -> Seq<CommandView> {
    seq![
        CommandView::GenBuffer { name: first },
        CommandView::GenBuffer { name: (first + 1) as u32 },
        CommandView::GenVertexArray { name: (first + 2) as u32 },
    ]
}

/// The commands that release the three objects of a model.
pub open spec fn destroy_commands(
    vertex_buffer: u32,
    index_buffer: u32,
    vertex_array: u32,
) -> Seq<CommandView> {
    seq![
        CommandView::DeleteBuffer { name: vertex_buffer },
        CommandView::DeleteBuffer { name: index_buffer },
        CommandView::DeleteVertexArray { name: vertex_array },
    ]
}

/// While there are three names left, the commands that make the objects of
/// a model may be given in their order, and they leave what
/// [`model_created`] says.
pub proof fn lemma_create_allowed(s: GpuState)
    requires
        s.wf(),
        s.names_left() >= 3,
    ensures
        s.allows_all(create_commands(s.next_name)),
        s.issued_all(create_commands(s.next_name)) == model_created(s),
{
    let cs = create_commands(s.next_name);
    assert(cs.take(0) =~= Seq::empty());
    lemma_issued_push(s, cs.take(0), cs[0]);
    assert(cs.take(1) =~= cs.take(0).push(cs[0]));
    lemma_issued_push(s, cs.take(1), cs[1]);
    assert(cs.take(2) =~= cs.take(1).push(cs[1]));
    lemma_issued_push(s, cs.take(2), cs[2]);
    assert(cs.take(3) =~= cs.take(2).push(cs[2]));
    assert(cs.take(3) =~= cs);
}

/// Wherever the three objects of a model are alive, the commands that
/// release them may be given in their order, and they leave what
/// [`model_destroyed`] says.
pub proof fn lemma_destroy_allowed(
    s: GpuState,
    vertex_buffer: u32,
    index_buffer: u32,
    vertex_array: u32,
)
    requires
        s.is_live(ObjectKind::Buffer, vertex_buffer),
        s.is_live(ObjectKind::Buffer, index_buffer),
        s.is_live(ObjectKind::VertexArray, vertex_array),
        vertex_buffer != index_buffer,
    ensures
        s.allows_all(destroy_commands(vertex_buffer, index_buffer, vertex_array)),
        s.issued_all(destroy_commands(vertex_buffer, index_buffer, vertex_array))
            == model_destroyed(s, vertex_buffer, index_buffer, vertex_array),
{
    let cs = destroy_commands(vertex_buffer, index_buffer, vertex_array);
    assert(cs.take(0) =~= Seq::empty());
    lemma_issued_push(s, cs.take(0), cs[0]);
    assert(cs.take(1) =~= cs.take(0).push(cs[0]));
    lemma_issued_push(s, cs.take(1), cs[1]);
    assert(cs.take(2) =~= cs.take(1).push(cs[1]));
    lemma_issued_push(s, cs.take(2), cs[2]);
    assert(cs.take(3) =~= cs.take(2).push(cs[2]));
    assert(cs.take(3) =~= cs);
}

/// Wherever the three objects of a model are alive, the commands that
/// upload a mesh into them may be given in their order, and they leave what
/// [`uploaded`] says.
pub proof fn lemma_upload_allowed(
    s: GpuState,
    vertex_buffer: u32,
    index_buffer: u32,
    vertex_array: u32,
    vertices: Seq<ModelVertex>,
    indices: Seq<u32>,
)
    requires
        s.wf(),
        s.is_live(ObjectKind::Buffer, vertex_buffer),
        s.is_live(ObjectKind::Buffer, index_buffer),
        s.is_live(ObjectKind::VertexArray, vertex_array),
    ensures
        s.allows_all(upload_commands(vertex_buffer, index_buffer, vertex_array, vertices, indices)),
        s.issued_all(upload_commands(vertex_buffer, index_buffer, vertex_array, vertices, indices))
            == uploaded(s, vertex_buffer, index_buffer, vertex_array, vertices, indices),
{
    let cs = upload_commands(vertex_buffer, index_buffer, vertex_array, vertices, indices);
    assert(cs.take(0) =~= Seq::empty());
    lemma_issued_push(s, cs.take(0), cs[0]);
    assert(cs.take(1) =~= cs.take(0).push(cs[0]));
    lemma_issued_push(s, cs.take(1), cs[1]);
    assert(cs.take(2) =~= cs.take(1).push(cs[1]));
    lemma_issued_push(s, cs.take(2), cs[2]);
    assert(cs.take(3) =~= cs.take(2).push(cs[2]));
    lemma_issued_push(s, cs.take(3), cs[3]);
    assert(cs.take(4) =~= cs.take(3).push(cs[3]));
    lemma_issued_push(s, cs.take(4), cs[4]);
    assert(cs.take(5) =~= cs.take(4).push(cs[4]));
    lemma_issued_push(s, cs.take(5), cs[5]);
    assert(cs.take(6) =~= cs.take(5).push(cs[5]));
    lemma_issued_push(s, cs.take(6), cs[6]);
    assert(cs.take(7) =~= cs.take(6).push(cs[6]));
    lemma_issued_push(s, cs.take(7), cs[7]);
    assert(cs.take(8) =~= cs.take(7).push(cs[7]));
    lemma_issued_push(s, cs.take(8), cs[8]);
    assert(cs.take(9) =~= cs.take(8).push(cs[8]));
    lemma_issued_push(s, cs.take(9), cs[9]);
    assert(cs.take(10) =~= cs.take(9).push(cs[9]));
    lemma_issued_push(s, cs.take(10), cs[10]);
    assert(cs.take(11) =~= cs.take(10).push(cs[10]));
    lemma_issued_push(s, cs.take(11), cs[11]);
    assert(cs.take(12) =~= cs.take(11).push(cs[11]));
    assert(cs.take(12) =~= cs);
    lemma_issued_all_wf(s, cs);
}

/// Wherever the index buffer and the vertex array of a model and a program
/// are alive, the commands that draw the model with the program may be
/// given in their order, and they leave what [`drawn`] says.
pub proof fn lemma_draw_allowed(
    s: GpuState,
    index_buffer: u32,
    vertex_array: u32,
    count: i32,
    model: Matrix,
    view_proj: Matrix,
    shader: u32,
)
    requires
        s.wf(),
        s.is_live(ObjectKind::Buffer, index_buffer),
        s.is_live(ObjectKind::VertexArray, vertex_array),
        s.is_live(ObjectKind::Program, shader),
        count >= 0,
    ensures
        s.allows_all(draw_commands(index_buffer, vertex_array, count, model, view_proj, shader)),
        s.issued_all(draw_commands(index_buffer, vertex_array, count, model, view_proj, shader))
            == drawn(s, index_buffer, vertex_array, count, model, view_proj, shader),
{
    let cs = draw_commands(index_buffer, vertex_array, count, model, view_proj, shader);
    assert(cs.take(0) =~= Seq::empty());
    lemma_issued_push(s, cs.take(0), cs[0]);
    assert(cs.take(1) =~= cs.take(0).push(cs[0]));
    lemma_issued_push(s, cs.take(1), cs[1]);
    assert(cs.take(2) =~= cs.take(1).push(cs[1]));
    lemma_issued_push(s, cs.take(2), cs[2]);
    assert(cs.take(3) =~= cs.take(2).push(cs[2]));
    lemma_issued_push(s, cs.take(3), cs[3]);
    assert(cs.take(4) =~= cs.take(3).push(cs[3]));
    lemma_issued_push(s, cs.take(4), cs[4]);
    assert(cs.take(5) =~= cs.take(4).push(cs[4]));
    lemma_issued_push(s, cs.take(5), cs[5]);
    assert(cs.take(6) =~= cs.take(5).push(cs[5]));
    lemma_issued_push(s, cs.take(6), cs[6]);
    assert(cs.take(7) =~= cs.take(6).push(cs[6]));
    lemma_issued_push(s, cs.take(7), cs[7]);
    assert(cs.take(8) =~= cs.take(7).push(cs[7]));
    lemma_issued_push(s, cs.take(8), cs[8]);
    assert(cs.take(9) =~= cs.take(8).push(cs[8]));
    assert(cs.take(9) =~= cs);
    lemma_issued_all_wf(s, cs);
}

/// Geometry: vertices, and indices into them, three to a triangle.
pub struct Mesh {
    pub vertices: Seq<ModelVertex>,
    pub indices: Seq<u32>,
}

impl Mesh {
    /// The mesh without a vertex.
    pub open spec fn empty() -> Mesh {
        Mesh { vertices: Seq::empty(), indices: Seq::empty() }
    }

    /// Every index names one of the vertices.
    pub open spec fn wf(self) -> bool {
        forall|i: int|
            0 <= i < self.indices.len() ==> (#[trigger] self.indices[i]) < self.vertices.len()
    }
}

/// What a model holds: the mesh that was uploaded, and how many indices of
/// it there are to draw.
struct Extent {
    count: i32,
    mesh: Ghost<Mesh>,
}

/// One drawable mesh and the three objects of the context that hold it.
pub struct Model {
    vertex_buffer: ArrayBuffer,
    index_buffer: ElementArrayBuffer,
    vao: VertexArray,
    extent: Extent,
}

impl Model {
    /// The name of the model's vertex buffer.
    pub closed spec fn vertex_buffer(&self) -> u32 {
        self.vertex_buffer.name()
    }

    /// The name of the model's index buffer.
    pub closed spec fn index_buffer(&self) -> u32 {
        self.index_buffer.name()
    }

    /// The name of the model's vertex array.
    pub closed spec fn vertex_array(&self) -> u32 {
        self.vao.name()
    }

    /// The number of indices that the model draws.
    pub closed spec fn index_count(&self) -> i32 {
        self.extent.count
    }

    /// The mesh that was last uploaded into the model.
    pub closed spec fn mesh(&self) -> Mesh {
        self.extent.mesh@
    }

    /// The model draws as many indices as were uploaded, and each of them
    /// names a vertex that was uploaded.
    #[verifier::type_invariant]
    pub open spec fn inv(self) -> bool {
        &&& self.index_count() == self.mesh().indices.len()
        &&& self.mesh().wf()
    }

    /// The model's three objects are alive in `gpu`, and are three objects.
    pub open spec fn wf(&self, gpu: GpuState) -> bool {
        &&& gpu.is_live(ObjectKind::Buffer, self.vertex_buffer())
        &&& gpu.is_live(ObjectKind::Buffer, self.index_buffer())
        &&& gpu.is_live(ObjectKind::VertexArray, self.vertex_array())
        &&& self.vertex_buffer() != self.index_buffer()
    }

    /// Makes the three objects of a model, with nothing uploaded and nothing
    /// to draw. Returns `None`, and leaves the context as it is, where the
    /// context has fewer than three names left.
    pub fn new(gpu: &mut Gpu) -> (r: Option<Model>)
        ensures
            r.is_some() <==> old(gpu)@.names_left() >= 3,
            match r {
                Some(model) => {
                    &&& final(gpu)@ == model_created(old(gpu)@)
                    &&& model.vertex_buffer() == old(gpu)@.next_name
                    &&& model.index_buffer() == old(gpu)@.next_name + 1
                    &&& model.vertex_array() == old(gpu)@.next_name + 2
                    &&& model.index_count() == 0
                    &&& model.mesh() == Mesh::empty()
                    &&& model.wf(final(gpu)@)
                },
                None => final(gpu)@ == old(gpu)@,
            },
    {
        if gpu.names_left() < 3 {
            return None;
        }
        let vertex_buffer = ArrayBuffer::new(gpu).unwrap();
        let index_buffer = ElementArrayBuffer::new(gpu).unwrap();
        let vao = VertexArray::new(gpu).unwrap();
        Some(
            Model {
                vertex_buffer,
                index_buffer,
                vao,
                extent: Extent { count: 0, mesh: Ghost(Mesh::empty()) },
            },
        )
    }

    /// The name of the model's vertex buffer.
    pub fn vertex_buffer_id(&self) -> (name: u32)
        ensures
            name == self.vertex_buffer(),
    {
        self.vertex_buffer.id()
    }

    /// The name of the model's index buffer.
    pub fn index_buffer_id(&self) -> (name: u32)
        ensures
            name == self.index_buffer(),
    {
        self.index_buffer.id()
    }

    /// The name of the model's vertex array.
    pub fn vertex_array_id(&self) -> (name: u32)
        ensures
            name == self.vertex_array(),
    {
        self.vao.id()
    }

    /// The number of indices that the model draws.
    pub fn count(&self) -> (n: i32)
        ensures
            n == self.index_count(),
            n == self.mesh().indices.len(),
    {
        proof {
            use_type_invariant(self);
        }
        self.extent.count
    }

    /// Whether the model's three objects are alive in `gpu`.
    pub fn is_valid(&self, gpu: &Gpu) -> (b: bool)
        ensures
            b == self.wf(gpu@),
    {
        gpu.is_live(ObjectKind::Buffer, self.vertex_buffer.id()) && gpu.is_live(
            ObjectKind::Buffer,
            self.index_buffer.id(),
        ) && gpu.is_live(ObjectKind::VertexArray, self.vao.id()) && self.vertex_buffer.id()
            != self.index_buffer.id()
    }

    /// Uploads `vertices` and `indices`, declares the layout of a vertex,
    /// and remembers how many indices there are to draw. Every index must
    /// name one of the vertices.
    pub fn set_buffers(&mut self, gpu: &mut Gpu, vertices: Vec<ModelVertex>, indices: Vec<u32>)
        requires
            old(self).wf(old(gpu)@),
            indices@.len() <= i32::MAX,
            forall|i: int| 0 <= i < indices@.len() ==> (#[trigger] indices@[i]) < vertices@.len(),
        ensures
            final(self).vertex_buffer() == old(self).vertex_buffer(),
            final(self).index_buffer() == old(self).index_buffer(),
            final(self).vertex_array() == old(self).vertex_array(),
            final(self).index_count() == indices@.len(),
            final(self).mesh() == (Mesh { vertices: vertices@, indices: indices@ }),
            final(self).wf(final(gpu)@),
            final(gpu)@ == uploaded(
                old(gpu)@,
                old(self).vertex_buffer(),
                old(self).index_buffer(),
                old(self).vertex_array(),
                vertices@,
                indices@,
            ),
    {
        proof {
            use_type_invariant(&*gpu);
        }
        self.extent = Extent {
            count: indices.len() as i32,
            mesh: Ghost(Mesh { vertices: vertices@, indices: indices@ }),
        };

        self.vao.bind(gpu);

        self.vertex_buffer.bind(gpu);
        self.vertex_buffer.static_draw_data(gpu, BufferContents::Vertices(vertices));

        self.index_buffer.bind(gpu);
        self.index_buffer.static_draw_data(gpu, BufferContents::Indices(indices));

        self.vao.attribute(gpu, POSITION_SLOT, 3, ComponentType::Float, VERTEX_STRIDE, 0);
        self.vao.attribute(gpu, NORMAL_SLOT, 3, ComponentType::Float, VERTEX_STRIDE, NORMAL_OFFSET);

        self.vao.unbind(gpu);
        self.vertex_buffer.unbind(gpu);
        self.index_buffer.unbind(gpu);

        assert(gpu@.commands =~= old(gpu)@.commands + upload_commands(
            old(self).vertex_buffer(),
            old(self).index_buffer(),
            old(self).vertex_array(),
            vertices@,
            indices@,
        ));
    }

    /// Uploads the box between the corners `box_min` and `box_max`: 24
    /// vertices, four to a face with the face's own normal, and 36 indices,
    /// two triangles to a face.
    pub fn make_box(&mut self, gpu: &mut Gpu, box_min: Vec3, box_max: Vec3)
        requires
            old(self).wf(old(gpu)@),
        ensures
            final(self).vertex_buffer() == old(self).vertex_buffer(),
            final(self).index_buffer() == old(self).index_buffer(),
            final(self).vertex_array() == old(self).vertex_array(),
            final(self).index_count() == 36,
            final(self).mesh() == (Mesh {
                vertices: box_vertices(box_min, box_max),
                indices: box_indices(),
            }),
            final(self).wf(final(gpu)@),
            final(gpu)@ == uploaded(
                old(gpu)@,
                old(self).vertex_buffer(),
                old(self).index_buffer(),
                old(self).vertex_array(),
                box_vertices(box_min, box_max),
                box_indices(),
            ),
    {
        let vertices = box_mesh_vertices(box_min, box_max);
        let indices = box_mesh_indices();
        self.set_buffers(gpu, vertices, indices);
    }

    /// Draws the model with the program `shader`, which must be alive:
    /// sets the uniform `ModelMtx` to `model_mat` and `ModelViewProjMtx` to
    /// `view_proj_mat` times `model_mat`, draws all the model's indices as
    /// triangles, and leaves no program, vertex array or index buffer
    /// current. As many indices are drawn as were uploaded, and each of them
    /// names a vertex that was uploaded.
    pub fn draw(&self, gpu: &mut Gpu, model_mat: Matrix, view_proj_mat: Matrix, shader: u32)
        requires
            self.wf(old(gpu)@),
            old(gpu)@.is_live(ObjectKind::Program, shader),
        ensures
            self.index_count() == self.mesh().indices.len(),
            self.mesh().wf(),
            final(gpu)@ == drawn(
                old(gpu)@,
                self.index_buffer(),
                self.vertex_array(),
                self.index_count(),
                model_mat,
                view_proj_mat,
                shader,
            ),
    {
        proof {
            use_type_invariant(self);
            use_type_invariant(&*gpu);
        }
        gpu.issue(Command::UseProgram { name: shader });
        let model_copy = model_mat.clone();
        gpu.issue(
            Command::UniformMatrix {
                program: shader,
                uniform: UniformName::ModelMtx,
                matrix: model_copy,
            },
        );
        let mvp_mat = Matrix::product(view_proj_mat, model_mat);
        gpu.issue(
            Command::UniformMatrix {
                program: shader,
                uniform: UniformName::ModelViewProjMtx,
                matrix: mvp_mat,
            },
        );
        self.index_buffer.bind(gpu);
        self.vao.bind(gpu);
        gpu.issue(Command::DrawElements { count: self.extent.count });
        self.vao.unbind(gpu);
        self.index_buffer.unbind(gpu);
        gpu.issue(Command::UseProgram { name: 0 });

        assert(gpu@.commands =~= old(gpu)@.commands + draw_commands(
            self.index_buffer(),
            self.vertex_array(),
            self.index_count(),
            model_mat,
            view_proj_mat,
            shader,
        ));
    }

    /// Releases the model's three objects, in the order in which they were
    /// made.
    pub fn destroy(self, gpu: &mut Gpu)
        requires
            self.wf(old(gpu)@),
        ensures
            final(gpu)@ == model_destroyed(
                old(gpu)@,
                self.vertex_buffer(),
                self.index_buffer(),
                self.vertex_array(),
            ),
    {
        let Model { vertex_buffer, index_buffer, vao, extent: _ } = self;
        vertex_buffer.destroy(gpu);
        index_buffer.destroy(gpu);
        vao.destroy(gpu);
    }
}

} // verus!
