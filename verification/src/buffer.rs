//! Handles that own buffers and vertex arrays of the graphics context.
//!
//! A handle is made by the context and owns one object of it. It cannot be
//! copied, and releasing the object consumes the handle, so no object is
//! released twice.

use std::marker::PhantomData;
use vstd::prelude::*;
use crate::command::BufferContents;
use crate::command::BufferTarget;
use crate::command::Command;
use crate::command::CommandView;
use crate::command::ComponentType;
use crate::command::ObjectKind;
use crate::gpu::Gpu;
use crate::gpu::GpuState;

verus! {

/// Says at which binding point the buffers of a type are used.
pub trait BufferType {
    /// The binding point.
    spec fn target() -> BufferTarget;

    /// The binding point.
    fn buffer_type() -> (t: BufferTarget)
        ensures
            t == Self::target(),
    ;
}

/// Marks a buffer of vertex attributes.
pub struct BufferTypeArray;

impl BufferType for BufferTypeArray {
    open spec fn target() -> BufferTarget {
        BufferTarget::Array
    }

    fn buffer_type() -> (t: BufferTarget) {
        BufferTarget::Array
    }
}

/// Marks a buffer of element indices.
pub struct BufferTypeElementArray;

impl BufferType for BufferTypeElementArray {
    open spec fn target() -> BufferTarget {
        BufferTarget::ElementArray
    }

    fn buffer_type() -> (t: BufferTarget) {
        BufferTarget::ElementArray
    }
}

/// A buffer of vertex attributes.
pub type ArrayBuffer = Buffer<BufferTypeArray>;

/// A buffer of element indices.
pub type ElementArrayBuffer = Buffer<BufferTypeElementArray>;

/// The owner of one buffer of the graphics context.
pub struct Buffer<B> where B: BufferType {
    vbo: u32,
    _marker: PhantomData<B>,
}

impl<B> Buffer<B> where B: BufferType {
    /// The name of the buffer that this handle owns.
    pub closed spec fn name(&self) -> u32 {
        self.vbo
    }

    /// The handle's buffer is alive in `gpu`.
    pub open spec fn is_live(&self, gpu: GpuState) -> bool {
        gpu.is_live(ObjectKind::Buffer, self.name())
    }

    /// Makes a buffer, or returns `None` where the context has no name left
    /// for one and so stays as it is.
    pub fn new(gpu: &mut Gpu) -> (r: Option<Buffer<B>>)
        ensures
            r.is_some() <==> old(gpu)@.names_left() >= 1,
            match r {
                Some(buffer) => {
                    &&& buffer.name() == old(gpu)@.next_name
                    &&& final(gpu)@ == old(gpu)@.issued(
                        CommandView::GenBuffer { name: buffer.name() },
                    )
                },
                None => final(gpu)@ == old(gpu)@,
            },
    {
        if gpu.names_left() == 0 {
            return None;
        }
        let vbo = gpu.next_name();
        gpu.issue(Command::GenBuffer { name: vbo });
        Some(Buffer { vbo, _marker: PhantomData })
    }

    /// The name of the buffer that this handle owns.
    pub fn id(&self) -> (name: u32)
        ensures
            name == self.name(),
    {
        self.vbo
    }

    /// Makes the buffer current at its binding point.
    pub fn bind(&self, gpu: &mut Gpu)
        requires
            self.is_live(old(gpu)@),
        ensures
            final(gpu)@ == old(gpu)@.issued(
                CommandView::BindBuffer { target: B::target(), name: self.name() },
            ),
    {
        gpu.issue(Command::BindBuffer { target: B::buffer_type(), name: self.vbo });
    }

    /// Leaves no buffer current at this buffer's binding point.
    pub fn unbind(&self, gpu: &mut Gpu)
        ensures
            final(gpu)@ == old(gpu)@.issued(
                CommandView::BindBuffer { target: B::target(), name: 0 },
            ),
    {
        gpu.issue(Command::BindBuffer { target: B::buffer_type(), name: 0 });
    }

    /// Replaces all that the buffer holds with `contents`, as data that is
    /// set once and drawn many times. The buffer must be current.
    pub fn static_draw_data(&self, gpu: &mut Gpu, contents: BufferContents)
        requires
            self.is_live(old(gpu)@),
            old(gpu)@.bindings.buffer(B::target()) == self.name(),
        ensures
            final(gpu)@ == old(gpu)@.issued(
                CommandView::BufferData { target: B::target(), contents: contents@ },
            ),
    {
        proof {
            use_type_invariant(&*gpu);
        }
        gpu.issue(Command::BufferData { target: B::buffer_type(), contents });
    }

    /// Releases the buffer. Where it was current, nothing is now.
    pub fn destroy(self, gpu: &mut Gpu)
        requires
            self.is_live(old(gpu)@),
        ensures
            final(gpu)@ == old(gpu)@.issued(CommandView::DeleteBuffer { name: self.name() }),
    {
        gpu.issue(Command::DeleteBuffer { name: self.vbo });
    }
}

/// The owner of one vertex array of the graphics context.
pub struct VertexArray {
    vao: u32,
}

impl VertexArray {
    /// The name of the vertex array that this handle owns.
    pub closed spec fn name(&self) -> u32 {
        self.vao
    }

    /// The handle's vertex array is alive in `gpu`.
    pub open spec fn is_live(&self, gpu: GpuState) -> bool {
        gpu.is_live(ObjectKind::VertexArray, self.name())
    }

    /// Makes a vertex array, or returns `None` where the context has no name
    /// left for one and so stays as it is.
    pub fn new(gpu: &mut Gpu) -> (r: Option<VertexArray>)
        ensures
            r.is_some() <==> old(gpu)@.names_left() >= 1,
            match r {
                Some(array) => {
                    &&& array.name() == old(gpu)@.next_name
                    &&& final(gpu)@ == old(gpu)@.issued(
                        CommandView::GenVertexArray { name: array.name() },
                    )
                },
                None => final(gpu)@ == old(gpu)@,
            },
    {
        if gpu.names_left() == 0 {
            return None;
        }
        let vao = gpu.next_name();
        gpu.issue(Command::GenVertexArray { name: vao });
        Some(VertexArray { vao })
    }

    /// The name of the vertex array that this handle owns.
    pub fn id(&self) -> (name: u32)
        ensures
            name == self.name(),
    {
        self.vao
    }

    /// Makes the vertex array current.
    pub fn bind(&self, gpu: &mut Gpu)
        requires
            self.is_live(old(gpu)@),
        ensures
            final(gpu)@ == old(gpu)@.issued(CommandView::BindVertexArray { name: self.name() }),
    {
        gpu.issue(Command::BindVertexArray { name: self.vao });
    }

    /// Leaves no vertex array current.
    pub fn unbind(&self, gpu: &mut Gpu)
        ensures
            final(gpu)@ == old(gpu)@.issued(CommandView::BindVertexArray { name: 0 }),
    {
        gpu.issue(Command::BindVertexArray { name: 0 });
    }

    /// Switches on the attribute `index` and says where it is found in the
    /// vertex buffer that is current: `components` numbers of type
    /// `component`, `offset` bytes into each vertex, `stride` bytes from one
    /// vertex to the next. The vertex array must be current, and so must a
    /// vertex buffer.
    pub fn attribute(
        &self,
        gpu: &mut Gpu,
        index: u32,
        components: u32,
        component: ComponentType,
        stride: u32,
        offset: u32,
    )
        requires
            self.is_live(old(gpu)@),
            old(gpu)@.bindings.vertex_array == self.name(),
            old(gpu)@.bindings.array_buffer != 0,
        ensures
            final(gpu)@ == old(gpu)@.issued(
                CommandView::EnableVertexAttribArray { index },
            ).issued(
                CommandView::VertexAttribPointer { index, components, component, stride, offset },
            ),
    {
        proof {
            use_type_invariant(&*gpu);
        }
        gpu.issue(Command::EnableVertexAttribArray { index });
        gpu.issue(Command::VertexAttribPointer { index, components, component, stride, offset });
    }

    /// Releases the vertex array. Where it was current, nothing is now.
    pub fn destroy(self, gpu: &mut Gpu)
        requires
            self.is_live(old(gpu)@),
        ensures
            final(gpu)@ == old(gpu)@.issued(CommandView::DeleteVertexArray { name: self.name() }),
    {
        gpu.issue(Command::DeleteVertexArray { name: self.vao });
    }
}

} // verus!
