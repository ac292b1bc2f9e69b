use animbox::buffer::ArrayBuffer;
use animbox::buffer::BufferType;
use animbox::buffer::BufferTypeArray;
use animbox::buffer::BufferTypeElementArray;
use animbox::buffer::ElementArrayBuffer;
use animbox::buffer::VertexArray;
use animbox::command::BufferContents;
use animbox::command::BufferTarget;
use animbox::command::Command;
use animbox::command::ComponentType;
use animbox::command::ObjectKind;
use animbox::command::UniformName;
use animbox::gpu::Bindings;
use animbox::gpu::Gpu;

fn no_bindings() -> Bindings {
    Bindings { array_buffer: 0, element_array_buffer: 0, vertex_array: 0, program: 0 }
}

#[test]
fn new_context_is_empty() {
    let gpu = Gpu::new();
    assert_eq!(gpu.next_name(), 1);
    assert_eq!(gpu.names_left(), u32::MAX - 1);
    assert_eq!(gpu.pending(), 0);
    assert_eq!(gpu.bindings(), no_bindings());
    assert!(!gpu.is_live(ObjectKind::Buffer, 0));
    assert!(!gpu.is_live(ObjectKind::Buffer, 1));
}

#[test]
fn context_starting_at_a_name() {
    let gpu = Gpu::starting_at(100);
    assert_eq!(gpu.next_name(), 100);
    assert_eq!(gpu.names_left(), u32::MAX - 100);
    let from_zero = Gpu::starting_at(0);
    assert_eq!(from_zero.next_name(), 1);
}

#[test]
fn buffer_types_name_their_targets() {
    assert_eq!(BufferTypeArray::buffer_type(), BufferTarget::Array);
    assert_eq!(BufferTypeElementArray::buffer_type(), BufferTarget::ElementArray);
}

#[test]
fn buffers_get_the_next_names() {
    let mut gpu = Gpu::new();
    let a = ArrayBuffer::new(&mut gpu).unwrap();
    let b = ElementArrayBuffer::new(&mut gpu).unwrap();
    let c = VertexArray::new(&mut gpu).unwrap();
    assert_eq!(a.id(), 1);
    assert_eq!(b.id(), 2);
    assert_eq!(c.id(), 3);
    assert_eq!(gpu.next_name(), 4);
    assert!(gpu.is_live(ObjectKind::Buffer, 1));
    assert!(gpu.is_live(ObjectKind::Buffer, 2));
    assert!(gpu.is_live(ObjectKind::VertexArray, 3));
    assert!(!gpu.is_live(ObjectKind::VertexArray, 1));
    assert!(!gpu.is_live(ObjectKind::Buffer, 3));
    assert_eq!(
        gpu.take_commands(),
        vec![
            Command::GenBuffer { name: 1 },
            Command::GenBuffer { name: 2 },
            Command::GenVertexArray { name: 3 },
        ]
    );
}

#[test]
fn no_buffer_without_a_name() {
    let mut gpu = Gpu::starting_at(u32::MAX);
    assert_eq!(gpu.names_left(), 0);
    assert!(ArrayBuffer::new(&mut gpu).is_none());
    assert!(ElementArrayBuffer::new(&mut gpu).is_none());
    assert!(VertexArray::new(&mut gpu).is_none());
    assert_eq!(gpu.pending(), 0);
    assert_eq!(gpu.next_name(), u32::MAX);
}

#[test]
fn the_last_name_can_be_had() {
    let mut gpu = Gpu::starting_at(u32::MAX - 1);
    assert_eq!(gpu.names_left(), 1);
    let a = ArrayBuffer::new(&mut gpu).unwrap();
    assert_eq!(a.id(), u32::MAX - 1);
    assert!(ArrayBuffer::new(&mut gpu).is_none());
}

#[test]
fn take_commands_leaves_none() {
    let mut gpu = Gpu::new();
    let a = ArrayBuffer::new(&mut gpu).unwrap();
    a.bind(&mut gpu);
    assert_eq!(gpu.pending(), 2);
    let taken = gpu.take_commands();
    assert_eq!(taken.len(), 2);
    assert_eq!(gpu.pending(), 0);
    assert!(gpu.take_commands().is_empty());
    // the rest of the context stays
    assert!(gpu.is_live(ObjectKind::Buffer, 1));
    assert_eq!(gpu.bindings().array_buffer, 1);
    assert_eq!(gpu.next_name(), 2);
}

#[test]
fn bind_and_unbind_a_buffer() {
    let mut gpu = Gpu::new();
    let a = ArrayBuffer::new(&mut gpu).unwrap();
    let e = ElementArrayBuffer::new(&mut gpu).unwrap();
    gpu.take_commands();
    a.bind(&mut gpu);
    assert_eq!(gpu.bindings(), Bindings { array_buffer: 1, ..no_bindings() });
    e.bind(&mut gpu);
    assert_eq!(
        gpu.bindings(),
        Bindings { array_buffer: 1, element_array_buffer: 2, ..no_bindings() }
    );
    a.unbind(&mut gpu);
    assert_eq!(gpu.bindings(), Bindings { element_array_buffer: 2, ..no_bindings() });
    e.unbind(&mut gpu);
    assert_eq!(gpu.bindings(), no_bindings());
    assert_eq!(
        gpu.take_commands(),
        vec![
            Command::BindBuffer { target: BufferTarget::Array, name: 1 },
            Command::BindBuffer { target: BufferTarget::ElementArray, name: 2 },
            Command::BindBuffer { target: BufferTarget::Array, name: 0 },
            Command::BindBuffer { target: BufferTarget::ElementArray, name: 0 },
        ]
    );
}

#[test]
fn upload_into_a_bound_buffer() {
    let mut gpu = Gpu::new();
    let e = ElementArrayBuffer::new(&mut gpu).unwrap();
    e.bind(&mut gpu);
    gpu.take_commands();
    e.static_draw_data(&mut gpu, BufferContents::Indices(vec![0, 1, 2]));
    assert_eq!(
        gpu.take_commands(),
        vec![Command::BufferData {
            target: BufferTarget::ElementArray,
            contents: BufferContents::Indices(vec![0, 1, 2]),
        }]
    );
    assert_eq!(gpu.bindings().element_array_buffer, 1);
}

#[test]
fn destroying_a_buffer_releases_it_once() {
    let mut gpu = Gpu::new();
    let a = ArrayBuffer::new(&mut gpu).unwrap();
    let b = ArrayBuffer::new(&mut gpu).unwrap();
    a.bind(&mut gpu);
    gpu.take_commands();
    a.destroy(&mut gpu);
    assert!(!gpu.is_live(ObjectKind::Buffer, 1));
    assert!(gpu.is_live(ObjectKind::Buffer, 2));
    // what was current is no longer
    assert_eq!(gpu.bindings().array_buffer, 0);
    assert_eq!(gpu.take_commands(), vec![Command::DeleteBuffer { name: 1 }]);
    // the name is not handed out again
    let c = ArrayBuffer::new(&mut gpu).unwrap();
    assert_eq!(c.id(), 3);
    b.destroy(&mut gpu);
    c.destroy(&mut gpu);
    assert!(!gpu.is_live(ObjectKind::Buffer, 2));
    assert!(!gpu.is_live(ObjectKind::Buffer, 3));
}

#[test]
fn destroying_a_buffer_leaves_other_bindings() {
    let mut gpu = Gpu::new();
    let a = ArrayBuffer::new(&mut gpu).unwrap();
    let b = ArrayBuffer::new(&mut gpu).unwrap();
    b.bind(&mut gpu);
    a.destroy(&mut gpu);
    assert_eq!(gpu.bindings().array_buffer, 2);
}

#[test]
fn vertex_array_bind_layout_and_release() {
    let mut gpu = Gpu::new();
    let buffer = ArrayBuffer::new(&mut gpu).unwrap();
    let vao = VertexArray::new(&mut gpu).unwrap();
    gpu.take_commands();
    vao.bind(&mut gpu);
    buffer.bind(&mut gpu);
    assert_eq!(gpu.bindings().vertex_array, 2);
    vao.attribute(&mut gpu, 1, 3, ComponentType::Float, 24, 12);
    vao.unbind(&mut gpu);
    assert_eq!(gpu.bindings().vertex_array, 0);
    vao.bind(&mut gpu);
    vao.destroy(&mut gpu);
    assert_eq!(gpu.bindings().vertex_array, 0);
    assert!(!gpu.is_live(ObjectKind::VertexArray, 2));
    assert_eq!(
        gpu.take_commands(),
        vec![
            Command::BindVertexArray { name: 2 },
            Command::BindBuffer { target: BufferTarget::Array, name: 1 },
            Command::EnableVertexAttribArray { index: 1 },
            Command::VertexAttribPointer {
                index: 1,
                components: 3,
                component: ComponentType::Float,
                stride: 24,
                offset: 12,
            },
            Command::BindVertexArray { name: 0 },
            Command::BindVertexArray { name: 2 },
            Command::DeleteVertexArray { name: 2 },
        ]
    );
}

#[test]
fn uniform_names_are_spelled_as_the_shaders_spell_them() {
    assert_eq!(UniformName::ModelMtx.as_str(), "ModelMtx");
    assert_eq!(UniformName::ModelViewProjMtx.as_str(), "ModelViewProjMtx");
}

#[test]
fn a_command_is_issued_where_it_is_allowed() {
    let mut gpu = Gpu::new();
    assert!(gpu.can_issue(&Command::GenBuffer { name: 1 }));
    // an object is made under the next name only
    assert!(!gpu.can_issue(&Command::GenBuffer { name: 2 }));
    assert!(!gpu.can_issue(&Command::GenBuffer { name: 0 }));
    gpu.issue(Command::GenBuffer { name: 1 });
    assert!(gpu.is_live(ObjectKind::Buffer, 1));
    assert_eq!(gpu.next_name(), 2);
    assert!(gpu.can_issue(&Command::BindBuffer { target: BufferTarget::Array, name: 1 }));
    assert!(gpu.can_issue(&Command::BindBuffer { target: BufferTarget::Array, name: 0 }));
    assert!(!gpu.can_issue(&Command::BindBuffer { target: BufferTarget::Array, name: 2 }));
    // a buffer is no vertex array
    assert!(!gpu.can_issue(&Command::BindVertexArray { name: 1 }));
    assert!(!gpu.can_issue(&Command::DeleteVertexArray { name: 1 }));
    assert!(gpu.can_issue(&Command::DeleteBuffer { name: 1 }));
    gpu.issue(Command::DeleteBuffer { name: 1 });
    // nothing is released twice
    assert!(!gpu.can_issue(&Command::DeleteBuffer { name: 1 }));
    assert!(gpu.can_issue(&Command::Clear));
    assert!(gpu.can_issue(&Command::Viewport { width: 640, height: 480 }));
    assert_eq!(
        gpu.take_commands(),
        vec![Command::GenBuffer { name: 1 }, Command::DeleteBuffer { name: 1 }]
    );
}

#[test]
fn data_goes_into_a_buffer_that_is_current() {
    let mut gpu = Gpu::new();
    let data = Command::BufferData {
        target: BufferTarget::Array,
        contents: BufferContents::Indices(vec![1, 2, 3]),
    };
    assert!(!gpu.can_issue(&data));
    gpu.issue(Command::GenBuffer { name: 1 });
    assert!(!gpu.can_issue(&data));
    gpu.issue(Command::BindBuffer { target: BufferTarget::ElementArray, name: 1 });
    assert!(!gpu.can_issue(&data));
    gpu.issue(Command::BindBuffer { target: BufferTarget::Array, name: 1 });
    assert!(gpu.can_issue(&data));
}

#[test]
fn drawing_needs_a_program_a_vertex_array_and_an_index_buffer() {
    let mut gpu = Gpu::new();
    let draw = Command::DrawElements { count: 3 };
    gpu.issue(Command::GenBuffer { name: 1 });
    gpu.issue(Command::GenVertexArray { name: 2 });
    gpu.issue(Command::CreateProgram { name: 3 });
    assert!(!gpu.can_issue(&draw));
    gpu.issue(Command::UseProgram { name: 3 });
    assert!(!gpu.can_issue(&draw));
    gpu.issue(Command::BindVertexArray { name: 2 });
    assert!(!gpu.can_issue(&draw));
    gpu.issue(Command::BindBuffer { target: BufferTarget::ElementArray, name: 1 });
    assert!(gpu.can_issue(&draw));
    assert!(!gpu.can_issue(&Command::DrawElements { count: -1 }));
    assert!(gpu.can_issue(&Command::DrawElements { count: 0 }));
    // the program that is current takes the uniforms
    let uniform = |program: u32| Command::UniformMatrix {
        program,
        uniform: UniformName::ModelMtx,
        matrix: animbox::matrix::Matrix::Identity,
    };
    assert!(gpu.can_issue(&uniform(3)));
    assert!(!gpu.can_issue(&uniform(1)));
    gpu.issue(Command::UseProgram { name: 0 });
    assert!(!gpu.can_issue(&uniform(3)));
    assert!(!gpu.can_issue(&uniform(0)));
    assert!(!gpu.can_issue(&draw));
}

#[test]
fn the_layout_needs_a_vertex_array_and_a_vertex_buffer() {
    let mut gpu = Gpu::new();
    let enable = Command::EnableVertexAttribArray { index: 0 };
    let pointer = Command::VertexAttribPointer {
        index: 0,
        components: 3,
        component: ComponentType::Float,
        stride: 24,
        offset: 0,
    };
    gpu.issue(Command::GenBuffer { name: 1 });
    gpu.issue(Command::GenVertexArray { name: 2 });
    assert!(!gpu.can_issue(&enable));
    assert!(!gpu.can_issue(&pointer));
    gpu.issue(Command::BindVertexArray { name: 2 });
    assert!(gpu.can_issue(&enable));
    assert!(!gpu.can_issue(&pointer));
    gpu.issue(Command::BindBuffer { target: BufferTarget::Array, name: 1 });
    assert!(gpu.can_issue(&pointer));
}

#[test]
fn a_shader_source_ends_in_a_zero_byte() {
    let mut gpu = Gpu::new();
    gpu.issue(Command::CreateShader { name: 1, stage: animbox::command::ShaderType::Vertex });
    assert!(gpu.can_issue(&Command::ShaderSource { name: 1, source: vec![b'a', 0] }));
    assert!(gpu.can_issue(&Command::ShaderSource { name: 1, source: vec![0] }));
    assert!(!gpu.can_issue(&Command::ShaderSource { name: 1, source: vec![b'a'] }));
    assert!(!gpu.can_issue(&Command::ShaderSource { name: 1, source: Vec::new() }));
    assert!(!gpu.can_issue(&Command::ShaderSource { name: 2, source: vec![0] }));
    assert!(gpu.can_issue(&Command::CompileShader { name: 1 }));
    assert!(gpu.can_issue(&Command::ReportCompileStatus { name: 1 }));
    assert!(!gpu.can_issue(&Command::CompileShader { name: 2 }));
}

#[test]
fn shaders_are_attached_to_programs() {
    let mut gpu = Gpu::new();
    gpu.issue(Command::CreateShader { name: 1, stage: animbox::command::ShaderType::Vertex });
    gpu.issue(Command::CreateProgram { name: 2 });
    assert!(gpu.can_issue(&Command::AttachShader { program: 2, shader: 1 }));
    assert!(!gpu.can_issue(&Command::AttachShader { program: 1, shader: 2 }));
    assert!(gpu.can_issue(&Command::DetachShader { program: 2, shader: 1 }));
    assert!(!gpu.can_issue(&Command::DetachShader { program: 2, shader: 3 }));
    assert!(gpu.can_issue(&Command::LinkProgram { program: 2 }));
    assert!(gpu.can_issue(&Command::ReportLinkStatus { program: 2 }));
    assert!(!gpu.can_issue(&Command::LinkProgram { program: 1 }));
    assert!(gpu.can_issue(&Command::DeleteShader { name: 1 }));
    assert!(!gpu.can_issue(&Command::DeleteShader { name: 2 }));
    assert!(gpu.can_issue(&Command::DeleteProgram { name: 2 }));
    assert!(!gpu.can_issue(&Command::DeleteProgram { name: 1 }));
}

#[test]
fn try_issue_refuses_what_is_not_allowed() {
    let mut gpu = Gpu::new();
    assert!(!gpu.try_issue(Command::DeleteBuffer { name: 1 }));
    assert_eq!(gpu.pending(), 0);
    assert!(gpu.try_issue(Command::GenBuffer { name: 1 }));
    assert!(!gpu.try_issue(Command::GenBuffer { name: 1 }));
    assert!(gpu.try_issue(Command::DeleteBuffer { name: 1 }));
    assert!(!gpu.try_issue(Command::DeleteBuffer { name: 1 }));
    assert_eq!(
        gpu.take_commands(),
        vec![Command::GenBuffer { name: 1 }, Command::DeleteBuffer { name: 1 }]
    );
}

#[test]
fn no_object_is_made_without_a_name() {
    let mut gpu = Gpu::starting_at(u32::MAX);
    assert!(!gpu.can_issue(&Command::GenBuffer { name: u32::MAX }));
    assert!(!gpu.try_issue(Command::CreateProgram { name: u32::MAX }));
    assert_eq!(gpu.next_name(), u32::MAX);
}

#[test]
fn contents_take_24_bytes_a_vertex_and_4_an_index() {
    let vertex = animbox::model::ModelVertex::new(
        animbox::scalar::Vec3::from_units(0, 0, 0),
        animbox::scalar::Vec3::from_units(0, 0, 1),
    );
    assert_eq!(BufferContents::Vertices(vec![vertex; 24]).byte_size(), 576);
    assert_eq!(BufferContents::Indices(vec![0; 36]).byte_size(), 144);
    assert_eq!(BufferContents::Vertices(Vec::new()).byte_size(), 0);
    assert_eq!(BufferContents::Indices(Vec::new()).byte_size(), 0);
}
