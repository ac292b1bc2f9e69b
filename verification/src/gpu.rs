//! A model of the graphics context.
//!
//! [`Gpu`] keeps what the crate needs to know of the context: which objects
//! are alive, which of them are current at each binding point, and the list of
//! commands recorded so far. It hands out the names of objects itself, one
//! after another, and never hands out a name twice.
//!
//! Every command reaches the list through [`Gpu::issue`], which takes a
//! command only where [`GpuState::allows`] it. So whoever carries the list
//! out is never asked to release an object twice, to make an object current
//! that is gone, or to draw with nothing to draw from.

use std::collections::HashMap;
use vstd::prelude::*;
use crate::command::BufferTarget;
use crate::command::Command;
use crate::command::CommandView;
use crate::command::ObjectKind;

verus! {

broadcast use vstd::std_specs::hash::group_hash_axioms;

/// The objects that are current, by name; zero where none is.
#[derive(Clone, Copy, Debug, PartialEq, Eq, Structural)]
pub struct Bindings {
    pub array_buffer: u32,
    pub element_array_buffer: u32,
    pub vertex_array: u32,
    pub program: u32,
}

impl Bindings {
    /// Nothing is current.
    pub open spec fn none() -> Bindings {
        Bindings { array_buffer: 0, element_array_buffer: 0, vertex_array: 0, program: 0 }
    }

    /// The buffer current at `target`.
    pub open spec fn buffer(self, target: BufferTarget) -> u32 {
        match target {
            BufferTarget::Array => self.array_buffer,
            BufferTarget::ElementArray => self.element_array_buffer,
        }
    }

    /// These bindings with `name` current at `target`.
    pub open spec fn with_buffer(self, target: BufferTarget, name: u32) -> Bindings {
        match target {
            BufferTarget::Array => Bindings { array_buffer: name, ..self },
            BufferTarget::ElementArray => Bindings { element_array_buffer: name, ..self },
        }
    }

    /// These bindings once the object `name` of kind `kind` is gone: every
    /// binding point at which it was current has none.
    pub open spec fn released(self, kind: ObjectKind, name: u32) -> Bindings {
        Bindings {
            array_buffer: if kind == ObjectKind::Buffer && self.array_buffer == name {
                0
            } else {
                self.array_buffer
            },
            element_array_buffer: if kind == ObjectKind::Buffer && self.element_array_buffer
                == name {
                0
            } else {
                self.element_array_buffer
            },
            vertex_array: if kind == ObjectKind::VertexArray && self.vertex_array == name {
                0
            } else {
                self.vertex_array
            },
            program: if kind == ObjectKind::Program && self.program == name {
                0
            } else {
                self.program
            },
        }
    }
}

/// The mathematical value of a [`Gpu`].
pub struct GpuState {
    /// The name that the next object will get.
    pub next_name: u32,
    /// The objects that are alive, each with its kind.
    pub objects: Map<u32, ObjectKind>,
    /// The objects that are current.
    pub bindings: Bindings,
    /// The commands recorded and not yet taken, oldest first.
    pub commands: Seq<CommandView>,
}

impl GpuState {
    /// A context in which nothing was made yet.
    pub open spec fn initial() -> GpuState {
        GpuState {
            next_name: 1,
            objects: Map::empty(),
            bindings: Bindings::none(),
            commands: Seq::empty(),
        }
    }

    /// An object of kind `kind` with the name `name` is alive.
    pub open spec fn is_live(self, kind: ObjectKind, name: u32) -> bool {
        self.objects.contains_key(name) && self.objects[name] == kind
    }

    /// `name` may be made current where a `kind` is expected: it is zero or
    /// names such an object that is alive.
    pub open spec fn bindable(self, kind: ObjectKind, name: u32) -> bool {
        name == 0 || self.is_live(kind, name)
    }

    /// What holds of every context: names start at one and are handed out in
    /// order, so every object alive has a name below the next one; and what
    /// is current is alive.
    pub open spec fn wf(self) -> bool {
        &&& self.next_name >= 1
        &&& forall|n: u32| #[trigger]
            self.objects.contains_key(n) ==> 1 <= n && n < self.next_name
        &&& self.bindable(ObjectKind::Buffer, self.bindings.array_buffer)
        &&& self.bindable(ObjectKind::Buffer, self.bindings.element_array_buffer)
        &&& self.bindable(ObjectKind::VertexArray, self.bindings.vertex_array)
        &&& self.bindable(ObjectKind::Program, self.bindings.program)
    }

    /// How many more objects can be made.
    pub open spec fn names_left(self) -> int {
        u32::MAX - self.next_name
    }

    /// The context after an object of kind `kind` is made: it gets the next
    /// name.
    pub open spec fn created(self, kind: ObjectKind) -> GpuState
        recommends
            self.names_left() >= 1,
    {
        GpuState {
            next_name: (self.next_name + 1) as u32,
            objects: self.objects.insert(self.next_name, kind),
            ..self
        }
    }

    /// The context after the object `name` of kind `kind` is released: it is
    /// no longer alive, and no longer current anywhere.
    pub open spec fn deleted(self, kind: ObjectKind, name: u32) -> GpuState {
        GpuState {
            objects: self.objects.remove(name),
            bindings: self.bindings.released(kind, name),
            ..self
        }
    }

    /// The context with other objects current.
    pub open spec fn bound(self, bindings: Bindings) -> GpuState {
        GpuState { bindings, ..self }
    }

    /// The context after `command` is recorded.
    pub open spec fn recorded(self, command: CommandView) -> GpuState {
        GpuState { commands: self.commands.push(command), ..self }
    }

    /// Whether `command` may be given to the graphics interface in this
    /// state.
    ///
    /// An object is made under the next name, while there is one. Only an
    /// object that is alive is released, compiled, attached, linked or made
    /// current. Data goes into a buffer that is current; the layout of a
    /// vertex is declared with a vertex array and a vertex buffer current; a
    /// uniform is set in the program that is current; and triangles are drawn
    /// with a program, a vertex array and an index buffer current. The source
    /// of a shader ends in a zero byte.
    pub open spec fn allows(self, command: CommandView) -> bool {
        match command {
            CommandView::GenBuffer { name } => name == self.next_name && self.names_left() >= 1,
            CommandView::GenVertexArray { name } => name == self.next_name && self.names_left()
                >= 1,
            CommandView::CreateShader { name, stage } => name == self.next_name
                && self.names_left() >= 1,
            CommandView::CreateProgram { name } => name == self.next_name && self.names_left()
                >= 1,
            CommandView::DeleteBuffer { name } => self.is_live(ObjectKind::Buffer, name),
            CommandView::DeleteVertexArray { name } => self.is_live(
                ObjectKind::VertexArray,
                name,
            ),
            CommandView::DeleteShader { name } => self.is_live(ObjectKind::Shader, name),
            CommandView::DeleteProgram { name } => self.is_live(ObjectKind::Program, name),
            CommandView::BindBuffer { target, name } => self.bindable(ObjectKind::Buffer, name),
            CommandView::BindVertexArray { name } => self.bindable(ObjectKind::VertexArray, name),
            CommandView::UseProgram { name } => self.bindable(ObjectKind::Program, name),
            CommandView::BufferData { target, contents } => self.bindings.buffer(target) != 0,
            CommandView::EnableVertexAttribArray { index } => self.bindings.vertex_array != 0,
            CommandView::VertexAttribPointer { index, components, component, stride, offset } => {
                self.bindings.vertex_array != 0 && self.bindings.array_buffer != 0
            },
            CommandView::ShaderSource { name, source } => self.is_live(ObjectKind::Shader, name)
                && source.len() > 0 && source.last() == 0,
            CommandView::CompileShader { name } => self.is_live(ObjectKind::Shader, name),
            CommandView::ReportCompileStatus { name } => self.is_live(ObjectKind::Shader, name),
            CommandView::AttachShader { program, shader } => self.is_live(
                ObjectKind::Program,
                program,
            ) && self.is_live(ObjectKind::Shader, shader),
            CommandView::DetachShader { program, shader } => self.is_live(
                ObjectKind::Program,
                program,
            ) && self.is_live(ObjectKind::Shader, shader),
            CommandView::LinkProgram { program } => self.is_live(ObjectKind::Program, program),
            CommandView::ReportLinkStatus { program } => self.is_live(
                ObjectKind::Program,
                program,
            ),
            CommandView::UniformMatrix { program, uniform, matrix } => program != 0
                && self.bindings.program == program,
            CommandView::DrawElements { count } => count >= 0 && self.bindings.program != 0
                && self.bindings.vertex_array != 0 && self.bindings.element_array_buffer != 0,
            CommandView::Viewport { width, height } => true,
            CommandView::Clear => true,
        }
    }

    /// What `command` does to the objects and to what is current.
    pub open spec fn applied(self, command: CommandView) -> GpuState {
        match command {
            CommandView::GenBuffer { name } => self.created(ObjectKind::Buffer),
            CommandView::GenVertexArray { name } => self.created(ObjectKind::VertexArray),
            CommandView::CreateShader { name, stage } => self.created(ObjectKind::Shader),
            CommandView::CreateProgram { name } => self.created(ObjectKind::Program),
            CommandView::DeleteBuffer { name } => self.deleted(ObjectKind::Buffer, name),
            CommandView::DeleteVertexArray { name } => self.deleted(ObjectKind::VertexArray, name),
            CommandView::DeleteShader { name } => self.deleted(ObjectKind::Shader, name),
            CommandView::DeleteProgram { name } => self.deleted(ObjectKind::Program, name),
            CommandView::BindBuffer { target, name } => self.bound(
                self.bindings.with_buffer(target, name),
            ),
            CommandView::BindVertexArray { name } => self.bound(
                Bindings { vertex_array: name, ..self.bindings },
            ),
            CommandView::UseProgram { name } => self.bound(
                Bindings { program: name, ..self.bindings },
            ),
            _ => self,
        }
    }

    /// The context after `command` is given: it has done its work and is
    /// recorded.
    pub open spec fn issued(self, command: CommandView) -> GpuState {
        self.applied(command).recorded(command)
    }

    /// The context after each of `commands` is given, in order.
    pub open spec fn issued_all(self, commands: Seq<CommandView>) -> GpuState
        decreases commands.len(),
    {
        if commands.len() == 0 {
            self
        } else {
            self.issued_all(commands.drop_last()).issued(commands.last())
        }
    }

    /// Whether `commands` may be given in order, starting in this state:
    /// each is allowed in the state that those before it leave.
    pub open spec fn allows_all(self, commands: Seq<CommandView>) -> bool
        decreases commands.len(),
    {
        if commands.len() == 0 {
            true
        } else {
            self.allows_all(commands.drop_last()) && self.issued_all(commands.drop_last()).allows(
                commands.last(),
            )
        }
    }
}

/// A command that the state allows leaves a well-formed state.
pub proof fn lemma_issued_wf(s: GpuState, command: CommandView)
    requires
        s.wf(),
        s.allows(command),
    ensures
        s.issued(command).wf(),
{
}

/// Commands that the state allows leave a well-formed state, in which all
/// of them are recorded, in order, after what was recorded before.
pub proof fn lemma_issued_all_wf(s: GpuState, commands: Seq<CommandView>)
    requires
        s.wf(),
        s.allows_all(commands),
    ensures
        s.issued_all(commands).wf(),
        s.issued_all(commands).commands == s.commands + commands,
    decreases commands.len(),
{
    if commands.len() == 0 {
        assert(s.commands + commands =~= s.commands);
    } else {
        lemma_issued_all_wf(s, commands.drop_last());
        lemma_issued_wf(s.issued_all(commands.drop_last()), commands.last());
        assert(s.commands + commands =~= (s.commands + commands.drop_last()).push(
            commands.last(),
        ));
    }
}

/// One more command after a list of commands: the list with the command is
/// allowed if the list is and the command is allowed after it, and it
/// leaves what the command leaves after the list.
pub proof fn lemma_issued_push(s: GpuState, commands: Seq<CommandView>, command: CommandView)
    ensures
        s.issued_all(commands.push(command)) == s.issued_all(commands).issued(command),
        s.allows_all(commands.push(command)) == (s.allows_all(commands) && s.issued_all(
            commands,
        ).allows(command)),
{
    assert(commands.push(command).drop_last() =~= commands);
}

/// One list of commands after another: the two in a row are allowed if the
/// first is and the second is allowed after it, and they leave what the
/// second leaves after the first.
pub proof fn lemma_issued_concat(s: GpuState, first: Seq<CommandView>, second: Seq<CommandView>)
    ensures
        s.issued_all(first + second) == s.issued_all(first).issued_all(second),
        s.allows_all(first + second) == (s.allows_all(first) && s.issued_all(first).allows_all(
            second,
        )),
    decreases second.len(),
{
    if second.len() == 0 {
        assert(first + second =~= first);
    } else {
        lemma_issued_concat(s, first, second.drop_last());
        assert((first + second).drop_last() =~= first + second.drop_last());
    }
}

/// `command` changes neither the objects nor what is current.
pub open spec fn is_inert(command: CommandView) -> bool {
    match command {
        CommandView::BufferData { .. } => true,
        CommandView::EnableVertexAttribArray { .. } => true,
        CommandView::VertexAttribPointer { .. } => true,
        CommandView::ShaderSource { .. } => true,
        CommandView::CompileShader { .. } => true,
        CommandView::ReportCompileStatus { .. } => true,
        CommandView::AttachShader { .. } => true,
        CommandView::LinkProgram { .. } => true,
        CommandView::ReportLinkStatus { .. } => true,
        CommandView::DetachShader { .. } => true,
        CommandView::UniformMatrix { .. } => true,
        CommandView::DrawElements { .. } => true,
        CommandView::Viewport { .. } => true,
        CommandView::Clear => true,
        _ => false,
    }
}

/// Commands that change neither the objects nor what is current, and each
/// of which is allowed now, may be given in any number and order: they are
/// recorded and nothing else changes.
pub proof fn lemma_issued_inert(s: GpuState, commands: Seq<CommandView>)
    requires
        forall|i: int|
            0 <= i < commands.len() ==> is_inert(#[trigger] commands[i]) && s.allows(commands[i]),
    ensures
        s.allows_all(commands),
        s.issued_all(commands) == (GpuState { commands: s.commands + commands, ..s }),
    decreases commands.len(),
{
    if commands.len() == 0 {
        assert(s.commands + commands =~= s.commands);
    } else {
        let init = commands.drop_last();
        lemma_issued_inert(s, init);
        assert(is_inert(commands[commands.len() - 1]));
        assert(s.commands + commands =~= (s.commands + init).push(commands.last()));
    }
}

/// The mathematical values of a list of commands.
pub open spec fn command_views(commands: Seq<Command>) -> Seq<CommandView> {
    commands.map_values(|c: Command| c@)
}

/// The fields of a [`Gpu`].
struct Core {
    next_name: u32,
    objects: HashMap<u32, ObjectKind>,
    bindings: Bindings,
    commands: Vec<Command>,
}

impl View for Core {
    type V = GpuState;

    closed spec fn view(&self) -> GpuState {
        GpuState {
            next_name: self.next_name,
            objects: self.objects@,
            bindings: self.bindings,
            commands: command_views(self.commands@),
        }
    }
}

impl Core {
    fn new() -> (core: Core)
        ensures
            core@ == GpuState::initial(),
    {
        let core = Core {
            next_name: 1,
            objects: HashMap::new(),
            bindings: Bindings {
                array_buffer: 0,
                element_array_buffer: 0,
                vertex_array: 0,
                program: 0,
            },
            commands: Vec::new(),
        };
        assert(core@.commands =~= Seq::empty());
        core
    }

    fn is_live(&self, kind: ObjectKind, name: u32) -> (b: bool)
        ensures
            b == self@.is_live(kind, name),
    {
        match self.objects.get(&name) {
            Some(k) => *k == kind,
            None => false,
        }
    }

    fn take_commands(&mut self) -> (taken: Vec<Command>)
        ensures
            command_views(taken@) == old(self)@.commands,
            final(self)@ == (GpuState { commands: Seq::empty(), ..old(self)@ }),
    {
        let mut taken: Vec<Command> = Vec::new();
        std::mem::swap(&mut taken, &mut self.commands);
        assert(self@.commands =~= Seq::empty());
        taken
    }

    fn create(&mut self, kind: ObjectKind) -> (name: u32)
        requires
            old(self)@.wf(),
            old(self)@.names_left() >= 1,
        ensures
            name == old(self)@.next_name,
            final(self)@ == old(self)@.created(kind),
    {
        let name = self.next_name;
        self.next_name = name + 1;
        self.objects.insert(name, kind);
        name
    }

    fn delete(&mut self, kind: ObjectKind, name: u32)
        ensures
            final(self)@ == old(self)@.deleted(kind, name),
    {
        if kind == ObjectKind::Buffer && self.bindings.array_buffer == name {
            self.bindings.array_buffer = 0;
        }
        if kind == ObjectKind::Buffer && self.bindings.element_array_buffer == name {
            self.bindings.element_array_buffer = 0;
        }
        if kind == ObjectKind::VertexArray && self.bindings.vertex_array == name {
            self.bindings.vertex_array = 0;
        }
        if kind == ObjectKind::Program && self.bindings.program == name {
            self.bindings.program = 0;
        }
        self.objects.remove(&name);
    }

    fn bind(&mut self, bindings: Bindings)
        ensures
            final(self)@ == old(self)@.bound(bindings),
    {
        self.bindings = bindings;
    }

    fn apply(&mut self, command: &Command)
        requires
            old(self)@.wf(),
            old(self)@.allows(command@),
        ensures
            final(self)@ == old(self)@.applied(command@),
    {
        let current = self.bindings;
        match command {
            Command::GenBuffer { name } => {
                self.create(ObjectKind::Buffer);
            },
            Command::GenVertexArray { name } => {
                self.create(ObjectKind::VertexArray);
            },
            Command::CreateShader { name, stage } => {
                self.create(ObjectKind::Shader);
            },
            Command::CreateProgram { name } => {
                self.create(ObjectKind::Program);
            },
            Command::DeleteBuffer { name } => {
                self.delete(ObjectKind::Buffer, *name);
            },
            Command::DeleteVertexArray { name } => {
                self.delete(ObjectKind::VertexArray, *name);
            },
            Command::DeleteShader { name } => {
                self.delete(ObjectKind::Shader, *name);
            },
            Command::DeleteProgram { name } => {
                self.delete(ObjectKind::Program, *name);
            },
            Command::BindBuffer { target, name } => {
                match target {
                    BufferTarget::Array => {
                        self.bind(Bindings { array_buffer: *name, ..current });
                    },
                    BufferTarget::ElementArray => {
                        self.bind(Bindings { element_array_buffer: *name, ..current });
                    },
                }
            },
            Command::BindVertexArray { name } => {
                self.bind(Bindings { vertex_array: *name, ..current });
            },
            Command::UseProgram { name } => {
                self.bind(Bindings { program: *name, ..current });
            },
            _ => {},
        }
    }

    fn record(&mut self, command: Command)
        ensures
            final(self)@ == old(self)@.recorded(command@),
    {
        self.commands.push(command);
        assert(self@.commands =~= old(self)@.commands.push(command@));
    }

    fn allows(&self, command: &Command) -> (b: bool)
        requires
            self@.wf(),
        ensures
            b == self@.allows(command@),
    {
        let current = self.bindings;
        match command {
            Command::GenBuffer { name } => *name == self.next_name && self.next_name < u32::MAX,
            Command::GenVertexArray { name } => *name == self.next_name && self.next_name
                < u32::MAX,
            Command::CreateShader { name, stage } => *name == self.next_name && self.next_name
                < u32::MAX,
            Command::CreateProgram { name } => *name == self.next_name && self.next_name
                < u32::MAX,
            Command::DeleteBuffer { name } => self.is_live(ObjectKind::Buffer, *name),
            Command::DeleteVertexArray { name } => self.is_live(ObjectKind::VertexArray, *name),
            Command::DeleteShader { name } => self.is_live(ObjectKind::Shader, *name),
            Command::DeleteProgram { name } => self.is_live(ObjectKind::Program, *name),
            Command::BindBuffer { target, name } => *name == 0 || self.is_live(
                ObjectKind::Buffer,
                *name,
            ),
            Command::BindVertexArray { name } => *name == 0 || self.is_live(
                ObjectKind::VertexArray,
                *name,
            ),
            Command::UseProgram { name } => *name == 0 || self.is_live(ObjectKind::Program, *name),
            Command::BufferData { target, contents } => match target {
                BufferTarget::Array => current.array_buffer != 0,
                BufferTarget::ElementArray => current.element_array_buffer != 0,
            },
            Command::EnableVertexAttribArray { index } => current.vertex_array != 0,
            Command::VertexAttribPointer { index, components, component, stride, offset } => {
                current.vertex_array != 0 && current.array_buffer != 0
            },
            Command::ShaderSource { name, source } => self.is_live(ObjectKind::Shader, *name)
                && source.len() > 0 && source[source.len() - 1] == 0,
            Command::CompileShader { name } => self.is_live(ObjectKind::Shader, *name),
            Command::ReportCompileStatus { name } => self.is_live(ObjectKind::Shader, *name),
            Command::AttachShader { program, shader } => self.is_live(
                ObjectKind::Program,
                *program,
            ) && self.is_live(ObjectKind::Shader, *shader),
            Command::DetachShader { program, shader } => self.is_live(
                ObjectKind::Program,
                *program,
            ) && self.is_live(ObjectKind::Shader, *shader),
            Command::LinkProgram { program } => self.is_live(ObjectKind::Program, *program),
            Command::ReportLinkStatus { program } => self.is_live(ObjectKind::Program, *program),
            Command::UniformMatrix { program, uniform, matrix } => *program != 0
                && current.program == *program,
            Command::DrawElements { count } => *count >= 0 && current.program != 0
                && current.vertex_array != 0 && current.element_array_buffer != 0,
            Command::Viewport { width, height } => true,
            Command::Clear => true,
        }
    }
}

/// The graphics context as the crate knows it.
pub struct Gpu {
    core: Core,
}

impl View for Gpu {
    type V = GpuState;

    closed spec fn view(&self) -> GpuState {
        self.core@
    }
}

impl Gpu {
    /// Every context is well formed.
    #[verifier::type_invariant]
    pub open spec fn inv(self) -> bool {
        self@.wf()
    }

    /// A context in which nothing was made yet.
    pub fn new() -> (gpu: Gpu)
        ensures
            gpu@ == GpuState::initial(),
    {
        Gpu { core: Core::new() }
    }

    /// A context in which nothing was made yet and whose first object will
    /// get the name `first`, or the name one where `first` is zero. The
    /// names below `first` are never handed out.
    pub fn starting_at(first: u32) -> (gpu: Gpu)
        ensures
            gpu@ == (GpuState {
                next_name: if first == 0 {
                    1
                } else {
                    first
                },
                ..GpuState::initial()
            }),
    {
        let mut core = Core::new();
        if first != 0 {
            core.next_name = first;
        }
        Gpu { core }
    }

    /// The name that the next object will get.
    pub fn next_name(&self) -> (name: u32)
        ensures
            name == self@.next_name,
    {
        self.core.next_name
    }

    /// How many more objects can be made.
    pub fn names_left(&self) -> (n: u32)
        ensures
            n == self@.names_left(),
    {
        proof {
            use_type_invariant(self);
        }
        u32::MAX - self.core.next_name
    }

    /// Whether an object of kind `kind` with the name `name` is alive.
    pub fn is_live(&self, kind: ObjectKind, name: u32) -> (b: bool)
        ensures
            b == self@.is_live(kind, name),
    {
        self.core.is_live(kind, name)
    }

    /// The objects that are current.
    pub fn bindings(&self) -> (b: Bindings)
        ensures
            b == self@.bindings,
    {
        self.core.bindings
    }

    /// How many commands are recorded and not yet taken.
    pub fn pending(&self) -> (n: usize)
        ensures
            n == self@.commands.len(),
    {
        self.core.commands.len()
    }

    /// Hands over the commands recorded since the last call, oldest first,
    /// and leaves none recorded. Nothing else of the context changes.
    pub fn take_commands(&mut self) -> (taken: Vec<Command>)
        ensures
            command_views(taken@) == old(self)@.commands,
            final(self)@ == (GpuState { commands: Seq::empty(), ..old(self)@ }),
    {
        proof {
            use_type_invariant(&*self);
        }
        let mut core = Core::new();
        std::mem::swap(&mut core, &mut self.core);
        let taken = core.take_commands();
        std::mem::swap(&mut core, &mut self.core);
        taken
    }

    /// Whether `command` may be given in the state that the context is in.
    pub fn can_issue(&self, command: &Command) -> (b: bool)
        ensures
            b == self@.allows(command@),
    {
        proof {
            use_type_invariant(self);
        }
        self.core.allows(command)
    }

    /// Gives `command` to the context: its work is done on the objects and
    /// on what is current, and it is recorded for the graphics interface.
    pub fn issue(&mut self, command: Command)
        requires
            old(self)@.allows(command@),
        ensures
            final(self)@ == old(self)@.issued(command@),
    {
        proof {
            use_type_invariant(&*self);
            lemma_issued_wf(self@, command@);
        }
        let mut core = Core::new();
        std::mem::swap(&mut core, &mut self.core);
        core.apply(&command);
        core.record(command);
        std::mem::swap(&mut core, &mut self.core);
    }

    /// Gives `command` to the context if the state allows it, and says
    /// whether it did. A command that is not allowed changes nothing.
    pub fn try_issue(&mut self, command: Command) -> (issued: bool)
        ensures
            issued == old(self)@.allows(command@),
            final(self)@ == if issued {
                old(self)@.issued(command@)
            } else {
                old(self)@
            },
    {
        if self.can_issue(&command) {
            self.issue(command);
            true
        } else {
            false
        }
    }
}

} // verus!
