//! The commands that the crate records for the graphics context.
//!
//! Each [`Command`] stands for one call of the graphics interface. Objects are
//! referred to by the names that [`crate::gpu::Gpu`] hands out; the name zero
//! stands for "no object", as it does in the interface itself.

use vstd::prelude::*;
use crate::matrix::Matrix;
use crate::model::ModelVertex;

verus! {

/// What a named object of the graphics context is.
#[derive(Clone, Copy, Debug, PartialEq, Eq, Structural)]
pub enum ObjectKind {
    Buffer,
    VertexArray,
    Shader,
    Program,
}

/// The binding point of a buffer: vertex attributes or element indices.
#[derive(Clone, Copy, Debug, PartialEq, Eq, Structural)]
pub enum BufferTarget {
    Array,
    ElementArray,
}

/// The stage that a shader is compiled for.
#[derive(Clone, Copy, Debug, PartialEq, Eq, Structural)]
pub enum ShaderType {
    Geometry,
    Vertex,
    Fragment,
    Compute,
}

/// The matrix uniforms that every shader drawn with a model declares.
#[derive(Clone, Copy, Debug, PartialEq, Eq, Structural)]
pub enum UniformName {
    /// The model's own transform.
    ModelMtx,
    /// The view-projection transform times the model's own.
    ModelViewProjMtx,
}

/// The number type of a vertex attribute's components.
#[derive(Clone, Copy, Debug, PartialEq, Eq, Structural)]
pub enum ComponentType {
    /// A 32-bit floating-point number, four bytes wide.
    Float,
}

/// What is uploaded into a buffer.
#[derive(Debug, PartialEq, Eq)]
pub enum BufferContents {
    Vertices(Vec<ModelVertex>),
    Indices(Vec<u32>),
}

/// The mathematical value of a [`BufferContents`].
pub enum BufferContentsView {
    Vertices(Seq<ModelVertex>),
    Indices(Seq<u32>),
}

impl View for BufferContents {
    type V = BufferContentsView;

    open spec fn view(&self) -> BufferContentsView {
        match *self {
            BufferContents::Vertices(v) => BufferContentsView::Vertices(v@),
            BufferContents::Indices(i) => BufferContentsView::Indices(i@),
        }
    }
}

impl BufferContentsView {
    /// The number of bytes that the contents take in a buffer: 24 for each
    /// vertex, which is six 4-byte numbers, and 4 for each index.
    pub open spec fn byte_size(self) -> nat {
        match self {
            BufferContentsView::Vertices(v) => 24 * v.len(),
            BufferContentsView::Indices(i) => 4 * i.len(),
        }
    }
}

impl BufferContents {
    /// The number of bytes that the contents take in a buffer.
    pub fn byte_size(&self) -> (size: u128)
        ensures
            size == self@.byte_size(),
    {
        match self {
            BufferContents::Vertices(v) => 24 * (v.len() as u128),
            BufferContents::Indices(i) => 4 * (i.len() as u128),
        }
    }
}

/// One call of the graphics interface.
#[derive(Debug, PartialEq, Eq)]
pub enum Command {
    /// Make a buffer and know it by `name`.
    GenBuffer { name: u32 },
    /// Release the buffer `name`.
    DeleteBuffer { name: u32 },
    /// Make the buffer `name` current at `target`; zero makes none current.
    BindBuffer { target: BufferTarget, name: u32 },
    /// Replace what the buffer current at `target` holds with `contents`,
    /// all [`BufferContentsView::byte_size`] bytes of them, as data that is
    /// set once and drawn many times.
    BufferData { target: BufferTarget, contents: BufferContents },
    /// Make a vertex array and know it by `name`.
    GenVertexArray { name: u32 },
    /// Release the vertex array `name`.
    DeleteVertexArray { name: u32 },
    /// Make the vertex array `name` current; zero makes none current.
    BindVertexArray { name: u32 },
    /// Switch on the vertex attribute `index` of the current vertex array.
    EnableVertexAttribArray { index: u32 },
    /// Say where the attribute `index` is found in the current vertex
    /// buffer: `components` numbers of type `component`, not normalized, starting
    /// `offset` bytes into each vertex, with `stride` bytes from one vertex
    /// to the next.
    VertexAttribPointer {
        index: u32,
        components: u32,
        component: ComponentType,
        stride: u32,
        offset: u32,
    },
    /// Make a shader for the stage `stage` and know it by `name`.
    CreateShader { name: u32, stage: ShaderType },
    /// Give the shader `name` its source text, which ends in a zero byte.
    ShaderSource { name: u32, source: Vec<u8> },
    /// Compile the shader `name`.
    CompileShader { name: u32 },
    /// Ask whether the shader `name` compiled; if it did not, write the
    /// compiler's message to the log and go on.
    ReportCompileStatus { name: u32 },
    /// Release the shader `name`.
    DeleteShader { name: u32 },
    /// Make a program and know it by `name`.
    CreateProgram { name: u32 },
    /// Attach the shader to the program.
    AttachShader { program: u32, shader: u32 },
    /// Link the program from the shaders attached to it.
    LinkProgram { program: u32 },
    /// Ask whether the program linked; if it did not, write the linker's
    /// message to the log and go on.
    ReportLinkStatus { program: u32 },
    /// Detach the shader from the program.
    DetachShader { program: u32, shader: u32 },
    /// Release the program `name`.
    DeleteProgram { name: u32 },
    /// Make the program `name` current; zero makes none current.
    UseProgram { name: u32 },
    /// Set the 4x4 matrix uniform `uniform` of `program`, which is current.
    /// A program that has no such uniform is left as it is.
    UniformMatrix { program: u32, uniform: UniformName, matrix: Matrix },
    /// Draw `count` indices of the current element buffer, from its start,
    /// as a list of triangles with 32-bit unsigned indices.
    DrawElements { count: i32 },
    /// Draw into the rectangle of the given size at the window's origin.
    Viewport { width: i32, height: i32 },
    /// Clear the colour and depth of the frame.
    Clear,
}

/// The mathematical value of a [`Command`].
pub enum CommandView {
    GenBuffer { name: u32 },
    DeleteBuffer { name: u32 },
    BindBuffer { target: BufferTarget, name: u32 },
    BufferData { target: BufferTarget, contents: BufferContentsView },
    GenVertexArray { name: u32 },
    DeleteVertexArray { name: u32 },
    BindVertexArray { name: u32 },
    EnableVertexAttribArray { index: u32 },
    VertexAttribPointer {
        index: u32,
        components: u32,
        component: ComponentType,
        stride: u32,
        offset: u32,
    },
    CreateShader { name: u32, stage: ShaderType },
    ShaderSource { name: u32, source: Seq<u8> },
    CompileShader { name: u32 },
    ReportCompileStatus { name: u32 },
    DeleteShader { name: u32 },
    CreateProgram { name: u32 },
    AttachShader { program: u32, shader: u32 },
    LinkProgram { program: u32 },
    ReportLinkStatus { program: u32 },
    DetachShader { program: u32, shader: u32 },
    DeleteProgram { name: u32 },
    UseProgram { name: u32 },
    UniformMatrix { program: u32, uniform: UniformName, matrix: Matrix },
    DrawElements { count: i32 },
    Viewport { width: i32, height: i32 },
    Clear,
}

impl View for Command {
    type V = CommandView;

    open spec fn view(&self) -> CommandView {
        match *self {
            Command::GenBuffer { name } => CommandView::GenBuffer { name },
            Command::DeleteBuffer { name } => CommandView::DeleteBuffer { name },
            Command::BindBuffer { target, name } => CommandView::BindBuffer { target, name },
            Command::BufferData { target, contents } => CommandView::BufferData {
                target,
                contents: contents@,
            },
            Command::GenVertexArray { name } => CommandView::GenVertexArray { name },
            Command::DeleteVertexArray { name } => CommandView::DeleteVertexArray { name },
            Command::BindVertexArray { name } => CommandView::BindVertexArray { name },
            Command::EnableVertexAttribArray { index } => CommandView::EnableVertexAttribArray {
                index,
            },
            Command::VertexAttribPointer {
                index,
                components,
                component,
                stride,
                offset,
            } => CommandView::VertexAttribPointer { index, components, component, stride, offset },
            Command::CreateShader { name, stage } => CommandView::CreateShader { name, stage },
            Command::ShaderSource { name, source } => CommandView::ShaderSource {
                name,
                source: source@,
            },
            Command::CompileShader { name } => CommandView::CompileShader { name },
            Command::ReportCompileStatus { name } => CommandView::ReportCompileStatus { name },
            Command::DeleteShader { name } => CommandView::DeleteShader { name },
            Command::CreateProgram { name } => CommandView::CreateProgram { name },
            Command::AttachShader { program, shader } => CommandView::AttachShader {
                program,
                shader,
            },
            Command::LinkProgram { program } => CommandView::LinkProgram { program },
            Command::ReportLinkStatus { program } => CommandView::ReportLinkStatus { program },
            Command::DetachShader { program, shader } => CommandView::DetachShader {
                program,
                shader,
            },
            Command::DeleteProgram { name } => CommandView::DeleteProgram { name },
            Command::UseProgram { name } => CommandView::UseProgram { name },
            Command::UniformMatrix { program, uniform, matrix } => CommandView::UniformMatrix {
                program,
                uniform,
                matrix,
            },
            Command::DrawElements { count } => CommandView::DrawElements { count },
            Command::Viewport { width, height } => CommandView::Viewport { width, height },
            Command::Clear => CommandView::Clear,
        }
    }
}

impl UniformName {
    /// The uniform's name as the shader's source spells it.
    pub fn as_str(&self) -> (s: &'static str)
        ensures
            s@ == match *self {
                UniformName::ModelMtx => "ModelMtx"@,
                UniformName::ModelViewProjMtx => "ModelViewProjMtx"@,
            },
    {
        match self {
            UniformName::ModelMtx => "ModelMtx",
            UniformName::ModelViewProjMtx => "ModelViewProjMtx",
        }
    }
}

} // verus!
