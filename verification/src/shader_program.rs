//! Shader programs.
//!
//! A program is linked from one shader for each stage of its kind. The
//! shaders are made, compiled, attached, and after linking detached and
//! released again: only the program outlives its construction. A stage that
//! does not compile, or a program that does not link, is reported to the log
//! and construction goes on.

use vstd::prelude::*;
use crate::command::Command;
use crate::command::CommandView;
use crate::command::ObjectKind;
use crate::command::ShaderType;
use crate::gpu::lemma_issued_all_wf;
use crate::gpu::lemma_issued_concat;
use crate::gpu::lemma_issued_inert;
use crate::gpu::lemma_issued_push;
use crate::gpu::Gpu;
use crate::gpu::GpuState;

verus! {

/// The kinds of program, by the stages that they are linked from.
#[derive(Clone, Copy, Debug, PartialEq, Eq, Structural)]
pub enum ProgramType {
    /// A vertex, a geometry and a fragment stage.
    Geometry,
    /// A vertex and a fragment stage.
    Render,
    /// A compute stage alone.
    Compute,
}

/// Why a program was not made.
#[derive(Clone, Copy, Debug, PartialEq, Eq, Structural)]
pub enum ProgramError {
    /// There is not exactly one source text for each stage.
    SourceCount,
    /// The context has too few names left for the stages and the program.
    OutOfNames,
}

/// The stages of a program of kind `program_type`, in the order in which
/// they are compiled and attached.
pub open spec fn stages_of(program_type: ProgramType) -> Seq<ShaderType> {
    match program_type {
        ProgramType::Geometry => seq![
            ShaderType::Vertex,
            ShaderType::Geometry,
            ShaderType::Fragment,
        ],
        ProgramType::Render => seq![ShaderType::Vertex, ShaderType::Fragment],
        ProgramType::Compute => seq![ShaderType::Compute],
    }
}

/// What the name of a stage's source file ends in.
pub open spec fn extension_of(stage: ShaderType) -> Seq<char> {
    match stage {
        ShaderType::Geometry => ".geom"@,
        ShaderType::Vertex => ".vert"@,
        ShaderType::Fragment => ".frag"@,
        ShaderType::Compute => ".comp"@,
    }
}

/// The source texts as sequences of bytes.
pub open spec fn texts_of(sources: Seq<Vec<u8>>) -> Seq<Seq<u8>> {
    Seq::new(sources.len(), |i: int| sources[i]@)
}

/// The commands that make the shader `name` for `stage` from `text`: it is
/// made, given the text with a zero byte after it, compiled, and its
/// compile status is reported.
pub open spec fn stage_commands(name: u32, stage: ShaderType, text: Seq<u8>) -> Seq<
    CommandView,
> {
    seq![
        CommandView::CreateShader { name, stage },
        CommandView::ShaderSource { name, source: text.push(0u8) },
        CommandView::CompileShader { name },
        CommandView::ReportCompileStatus { name },
    ]
}

/// The commands that make the first `k` shaders of a program, which get
/// the names from `first` on.
pub open spec fn compile_commands(
    first: u32,
    stages: Seq<ShaderType>,
    texts: Seq<Seq<u8>>,
    k: nat,
) -> Seq<CommandView>
    decreases k,
{
    if k == 0 {
        Seq::empty()
    } else {
        compile_commands(first, stages, texts, (k - 1) as nat) + stage_commands(
            (first + k - 1) as u32,
            stages[k - 1],
            texts[k - 1],
        )
    }
}

/// The commands that attach the `k` shaders named from `first` on to
/// `program`.
pub open spec fn attach_commands(program: u32, first: u32, k: nat) -> Seq<CommandView> {
    Seq::new(k, |i: int| CommandView::AttachShader { program, shader: (first + i) as u32 })
}

/// The commands that detach the `k` shaders named from `first` on from
/// `program`.
pub open spec fn detach_commands(program: u32, first: u32, k: nat) -> Seq<CommandView> {
    Seq::new(k, |i: int| CommandView::DetachShader { program, shader: (first + i) as u32 })
}

/// The commands that release the `k` shaders named from `first` on.
pub open spec fn release_commands(first: u32, k: nat) -> Seq<CommandView> {
    Seq::new(k, |i: int| CommandView::DeleteShader { name: (first + i) as u32 })
}

/// All the commands that make a program from the given stages and texts:
/// every stage is made and compiled; the program is made; the shaders are
/// attached; the program is linked and its link status reported; the shaders
/// are detached, and released. The shaders get the names from `first` on,
/// the program the name after theirs.
pub open spec fn program_commands(first: u32, stages: Seq<ShaderType>, texts: Seq<Seq<u8>>) -> Seq<
    CommandView,
> {
    let n = stages.len();
    let program = (first + n) as u32;
    compile_commands(first, stages, texts, n) + seq![CommandView::CreateProgram { name: program }]
        + attach_commands(program, first, n) + seq![
        CommandView::LinkProgram { program },
        CommandView::ReportLinkStatus { program },
    ] + detach_commands(program, first, n) + release_commands(first, n)
}

/// The context after a program of kind `program_type` is made from `texts`:
/// one name was used for each stage and one for the program; of the objects
/// made, only the program is left; and nothing that was current has changed.
pub open spec fn program_created(
    s: GpuState,
    program_type: ProgramType,
    texts: Seq<Seq<u8>>,
) -> GpuState {
    let n = stages_of(program_type).len();
    GpuState {
        next_name: (s.next_name + n + 1) as u32,
        objects: s.objects.insert((s.next_name + n) as u32, ObjectKind::Program),
        bindings: s.bindings,
        commands: s.commands + program_commands(s.next_name, stages_of(program_type), texts),
    }
}

/// `objects` together with the shaders whose names are `first + from` up
/// to, and not including, `first + to`.
pub open spec fn with_shaders(
    objects: Map<u32, ObjectKind>,
    first: u32,
    from: int,
    to: int,
) -> Map<u32, ObjectKind> {
    Map::new(
        |n: u32| objects.contains_key(n) || first + from <= n < first + to,
        |n: u32|
            if first + from <= n < first + to {
                ObjectKind::Shader
            } else {
                objects[n]
            },
    )
}

/// The first `k` stages of a program may be made and compiled in their
/// order, while there are names for them; afterwards the `k` shaders are
/// alive under the next `k` names.
pub proof fn lemma_compile_allowed(
    s: GpuState,
    stages: Seq<ShaderType>,
    texts: Seq<Seq<u8>>,
    k: nat,
)
    requires
        s.wf(),
        k <= stages.len(),
        k <= texts.len(),
        s.names_left() >= k,
    ensures
        s.allows_all(compile_commands(s.next_name, stages, texts, k)),
        s.issued_all(compile_commands(s.next_name, stages, texts, k)) == (GpuState {
            next_name: (s.next_name + k) as u32,
            objects: with_shaders(s.objects, s.next_name, 0, k as int),
            bindings: s.bindings,
            commands: s.commands + compile_commands(s.next_name, stages, texts, k),
        }),
    decreases k,
{
    let first = s.next_name;
    if k == 0 {
        assert(s.objects =~= with_shaders(s.objects, first, 0, 0));
        assert(s.commands + compile_commands(first, stages, texts, 0) =~= s.commands);
    } else {
        let j = (k - 1) as nat;
        let before = compile_commands(first, stages, texts, j);
        lemma_compile_allowed(s, stages, texts, j);
        let t = s.issued_all(before);
        let name = (first + j) as u32;
        let cs = stage_commands(name, stages[j as int], texts[j as int]);
        assert(cs.take(0) =~= Seq::empty());
        lemma_issued_push(t, cs.take(0), cs[0]);
        assert(cs.take(1) =~= cs.take(0).push(cs[0]));
        lemma_issued_push(t, cs.take(1), cs[1]);
        assert(cs.take(2) =~= cs.take(1).push(cs[1]));
        lemma_issued_push(t, cs.take(2), cs[2]);
        assert(cs.take(3) =~= cs.take(2).push(cs[2]));
        lemma_issued_push(t, cs.take(3), cs[3]);
        assert(cs.take(4) =~= cs.take(3).push(cs[3]));
        assert(cs.take(4) =~= cs);
        assert(texts[j as int].push(0u8).last() == 0u8);
        lemma_issued_concat(s, before, cs);
        lemma_issued_all_wf(s, before + cs);
        assert(s.issued_all(before + cs).objects =~= with_shaders(s.objects, first, 0, k as int));
    }
}

/// The shaders named from `first` on, `k` of them, may be released in
/// their order where they are alive; afterwards they are gone, and nothing
/// else has changed.
pub proof fn lemma_release_allowed(
    s: GpuState,
    objects: Map<u32, ObjectKind>,
    first: u32,
    n: nat,
    k: nat,
)
    requires
        k <= n,
        first + n <= u32::MAX,
        s.objects == with_shaders(objects, first, 0, n as int),
        forall|name: u32| first <= name < first + n ==> !objects.contains_key(name),
    ensures
        s.allows_all(release_commands(first, k)),
        s.issued_all(release_commands(first, k)) == (GpuState {
            objects: with_shaders(objects, first, k as int, n as int),
            commands: s.commands + release_commands(first, k),
            ..s
        }),
    decreases k,
{
    if k == 0 {
        assert(s.commands + release_commands(first, 0) =~= s.commands);
    } else {
        let j = (k - 1) as nat;
        lemma_release_allowed(s, objects, first, n, j);
        let command = CommandView::DeleteShader { name: (first + j) as u32 };
        assert(release_commands(first, k) =~= release_commands(first, j).push(command));
        lemma_issued_push(s, release_commands(first, j), command);
        let t = s.issued_all(release_commands(first, j));
        assert(t.issued(command).objects =~= with_shaders(objects, first, k as int, n as int));
        assert(s.commands + release_commands(first, k) =~= (s.commands + release_commands(
            first,
            j,
        )).push(command));
    }
}

/// Wherever there is one text for each stage and there are names enough,
/// all the commands that make a program may be given in their order, and
/// they leave what [`program_created`] says: of all that was made, only the
/// program is alive.
pub proof fn lemma_program_allowed(s: GpuState, program_type: ProgramType, texts: Seq<Seq<u8>>)
    requires
        s.wf(),
        texts.len() == stages_of(program_type).len(),
        s.names_left() >= texts.len() + 1,
    ensures
        s.allows_all(program_commands(s.next_name, stages_of(program_type), texts)),
        s.issued_all(program_commands(s.next_name, stages_of(program_type), texts))
            == program_created(s, program_type, texts),
{
    let stages = stages_of(program_type);
    let n = stages.len();
    let first = s.next_name;
    let program = (first + n) as u32;

    let compile = compile_commands(first, stages, texts, n);
    lemma_compile_allowed(s, stages, texts, n);
    lemma_issued_all_wf(s, compile);
    let s1 = s.issued_all(compile);

    let create = seq![CommandView::CreateProgram { name: program }];
    assert(create.take(0) =~= Seq::empty());
    lemma_issued_push(s1, create.take(0), create[0]);
    assert(create =~= create.take(0).push(create[0]));
    lemma_issued_concat(s, compile, create);
    lemma_issued_all_wf(s, compile + create);
    let s2 = s.issued_all(compile + create);

    let attach = attach_commands(program, first, n);
    lemma_issued_inert(s2, attach);
    lemma_issued_concat(s, compile + create, attach);
    let s3 = s.issued_all(compile + create + attach);

    let link = seq![
        CommandView::LinkProgram { program },
        CommandView::ReportLinkStatus { program },
    ];
    lemma_issued_inert(s3, link);
    lemma_issued_concat(s, compile + create + attach, link);
    let s4 = s.issued_all(compile + create + attach + link);

    let detach = detach_commands(program, first, n);
    lemma_issued_inert(s4, detach);
    lemma_issued_concat(s, compile + create + attach + link, detach);
    let s5 = s.issued_all(compile + create + attach + link + detach);

    let release = release_commands(first, n);
    let kept = s.objects.insert(program, ObjectKind::Program);
    assert(s5.objects =~= with_shaders(kept, first, 0, n as int));
    lemma_release_allowed(s5, kept, first, n, n);
    lemma_issued_concat(s, compile + create + attach + link + detach, release);
    let s6 = s.issued_all(compile + create + attach + link + detach + release);
    assert(with_shaders(kept, first, n as int, n as int) =~= kept);
    assert(s6.commands =~= s.commands + program_commands(first, stages, texts));
}

impl ProgramType {
    /// The stages of a program of this kind, in the order in which they are
    /// compiled and attached.
    pub fn stages(&self) -> (stages: Vec<ShaderType>)
        ensures
            stages@ == stages_of(*self),
    {
        let stages = match self {
            ProgramType::Geometry => vec![
                ShaderType::Vertex,
                ShaderType::Geometry,
                ShaderType::Fragment,
            ],
            ProgramType::Render => vec![ShaderType::Vertex, ShaderType::Fragment],
            ProgramType::Compute => vec![ShaderType::Compute],
        };
        assert(stages@ =~= stages_of(*self));
        stages
    }
}

/// What the name of the source file of `stage` ends in.
pub fn extension(stage: ShaderType) -> (ext: &'static str)
    ensures
        ext@ == extension_of(stage),
{
    match stage {
        ShaderType::Geometry => ".geom",
        ShaderType::Vertex => ".vert",
        ShaderType::Fragment => ".frag",
        ShaderType::Compute => ".comp",
    }
}

/// `text` with a zero byte after it, as the compiler wants it.
pub fn null_terminated(text: &[u8]) -> (source: Vec<u8>)
    ensures
        source@ == text@.push(0u8),
{
    let mut source: Vec<u8> = Vec::new();
    let mut i: usize = 0;
    while i < text.len()
        invariant
            i <= text@.len(),
            source@ == text@.take(i as int),
        decreases text@.len() - i,
    {
        source.push(text[i]);
        i = i + 1;
        assert(source@ =~= text@.take(i as int));
    }
    source.push(0u8);
    assert(text@.take(text@.len() as int) =~= text@);
    source
}

/// One compiled stage, on its way into a program.
pub struct Shader {
    shader_id: u32,
}

impl Shader {
    /// The name of the shader that this handle owns.
    pub closed spec fn name(&self) -> u32 {
        self.shader_id
    }

    /// Makes a shader for `shader_type` from the source text `content` and
    /// compiles it. Whether it compiled is reported to the log; the shader
    /// is returned either way. Returns `None`, and leaves the context as it
    /// is, where the context has no name left.
    pub fn from_cstr(gpu: &mut Gpu, content: &[u8], shader_type: ShaderType) -> (r: Option<Shader>)
        ensures
            r.is_some() <==> old(gpu)@.names_left() >= 1,
            match r {
                Some(shader) => {
                    &&& shader.name() == old(gpu)@.next_name
                    &&& final(gpu)@ == (GpuState {
                        commands: old(gpu)@.commands + stage_commands(
                            shader.name(),
                            shader_type,
                            content@,
                        ),
                        ..old(gpu)@.created(ObjectKind::Shader)
                    })
                },
                None => final(gpu)@ == old(gpu)@,
            },
    {
        if gpu.names_left() == 0 {
            return None;
        }
        let shader_id = gpu.next_name();
        gpu.issue(Command::CreateShader { name: shader_id, stage: shader_type });
        gpu.issue(Command::ShaderSource { name: shader_id, source: null_terminated(content) });
        gpu.issue(Command::CompileShader { name: shader_id });
        gpu.issue(Command::ReportCompileStatus { name: shader_id });
        assert(gpu@.commands =~= old(gpu)@.commands + stage_commands(
            shader_id,
            shader_type,
            content@,
        ));
        Some(Shader { shader_id })
    }

    /// The name of the shader that this handle owns.
    pub fn id(&self) -> (name: u32)
        ensures
            name == self.name(),
    {
        self.shader_id
    }

    /// Releases the shader.
    pub fn destroy(self, gpu: &mut Gpu)
        requires
            old(gpu)@.is_live(ObjectKind::Shader, self.name()),
        ensures
            final(gpu)@ == old(gpu)@.issued(CommandView::DeleteShader { name: self.name() }),
    {
        gpu.issue(Command::DeleteShader { name: self.shader_id });
    }
}

/// The owner of one linked program of the graphics context.
pub struct ShaderProgram {
    program_id: u32,
}

impl ShaderProgram {
    /// The name of the program that this handle owns.
    pub closed spec fn name(&self) -> u32 {
        self.program_id
    }

    /// The handle's program is alive in `gpu`.
    pub open spec fn wf(&self, gpu: GpuState) -> bool {
        gpu.is_live(ObjectKind::Program, self.name())
    }

    /// The names of the files that hold the sources of a program of kind
    /// `program_type`, one for each stage in order: `name` followed by the
    /// stage's extension.
    pub fn source_files(name: &str, program_type: ProgramType) -> (files: Vec<String>)
        ensures
            files@.len() == stages_of(program_type).len(),
            forall|i: int|
                0 <= i < files@.len() ==> (#[trigger] files@[i])@ == name@ + extension_of(
                    stages_of(program_type)[i],
                ),
    {
        let stages = program_type.stages();
        let mut files: Vec<String> = Vec::new();
        let mut i: usize = 0;
        while i < stages.len()
            invariant
                i <= stages@.len(),
                stages@ == stages_of(program_type),
                files@.len() == i,
                forall|j: int|
                    0 <= j < i ==> (#[trigger] files@[j])@ == name@ + extension_of(stages@[j]),
            decreases stages@.len() - i,
        {
            let mut file = String::from_str(name);
            file.append(extension(stages[i]));
            files.push(file);
            i = i + 1;
        }
        files
    }

    /// Makes a program of kind `program_type` from the texts of its source
    /// files, one for each stage in order.
    ///
    /// Every stage is compiled and the program is linked from them; a stage
    /// that does not compile and a program that does not link are reported
    /// to the log, and construction goes on. Afterwards the shaders are
    /// detached and released, so that only the program is left.
    ///
    /// Nothing is done, and an error is returned, where the number of texts
    /// is not the number of stages, or else where the context has fewer
    /// names left than there are stages and one more.
    pub fn from_file(gpu: &mut Gpu, program_type: ProgramType, sources: &Vec<Vec<u8>>) -> (r:
        Result<ShaderProgram, ProgramError>)
        ensures
            match r {
                Ok(program) => {
                    &&& sources@.len() == stages_of(program_type).len()
                    &&& old(gpu)@.names_left() >= sources@.len() + 1
                    &&& program.name() == old(gpu)@.next_name + sources@.len()
                    &&& program.wf(final(gpu)@)
                    &&& final(gpu)@ == program_created(
                        old(gpu)@,
                        program_type,
                        texts_of(sources@),
                    )
                },
                Err(ProgramError::SourceCount) => {
                    &&& sources@.len() != stages_of(program_type).len()
                    &&& final(gpu)@ == old(gpu)@
                },
                Err(ProgramError::OutOfNames) => {
                    &&& sources@.len() == stages_of(program_type).len()
                    &&& old(gpu)@.names_left() < sources@.len() + 1
                    &&& final(gpu)@ == old(gpu)@
                },
            },
    {
        proof {
            use_type_invariant(&*gpu);
        }
        let stages = program_type.stages();
        let n = stages.len();
        if sources.len() != n {
            return Err(ProgramError::SourceCount);
        }
        if (gpu.names_left() as usize) < n + 1 {
            return Err(ProgramError::OutOfNames);
        }
        let ghost start = gpu@;
        let ghost first = start.next_name;
        let ghost texts = texts_of(sources@);

        let mut shaders: Vec<Shader> = Vec::new();
        let mut i: usize = 0;
        assert(start.objects =~= with_shaders(start.objects, first, 0, 0));
        assert(start.commands =~= start.commands + compile_commands(first, stages@, texts, 0));
        while i < n
            invariant
                i <= n,
                n == stages@.len(),
                n == sources@.len(),
                n <= 3,
                texts == texts_of(sources@),
                first == start.next_name,
                start.wf(),
                start.names_left() >= n + 1,
                shaders@.len() == i,
                forall|j: int| 0 <= j < i ==> (#[trigger] shaders@[j]).name() == first + j,
                gpu@ == (GpuState {
                    next_name: (first + i) as u32,
                    objects: with_shaders(start.objects, first, 0, i as int),
                    bindings: start.bindings,
                    commands: start.commands + compile_commands(first, stages@, texts, i as nat),
                }),
            decreases n - i,
        {
            let shader = Shader::from_cstr(gpu, sources[i].as_slice(), stages[i]).unwrap();
            shaders.push(shader);
            i = i + 1;
            assert(gpu@.objects =~= with_shaders(start.objects, first, 0, i as int));
            assert(gpu@.commands =~= start.commands + compile_commands(
                first,
                stages@,
                texts,
                i as nat,
            ));
        }

        let program_id = gpu.next_name();
        gpu.issue(Command::CreateProgram { name: program_id });
        let ghost created = gpu@;

        let mut i: usize = 0;
        while i < n
            invariant
                i <= n,
                n <= 3,
                shaders@.len() == n,
                first + n == program_id,
                start.names_left() >= n + 1,
                forall|j: int| 0 <= j < n ==> (#[trigger] shaders@[j]).name() == first + j,
                forall|j: int|
                    0 <= j < n ==> created.is_live(
                        ObjectKind::Shader,
                        (#[trigger] shaders@[j]).name(),
                    ),
                created.is_live(ObjectKind::Program, program_id),
                gpu@ == (GpuState {
                    commands: created.commands + attach_commands(program_id, first, i as nat),
                    ..created
                }),
            decreases n - i,
        {
            gpu.issue(Command::AttachShader { program: program_id, shader: shaders[i].id() });
            i = i + 1;
            assert(gpu@.commands =~= created.commands + attach_commands(
                program_id,
                first,
                i as nat,
            ));
        }

        gpu.issue(Command::LinkProgram { program: program_id });
        gpu.issue(Command::ReportLinkStatus { program: program_id });
        let ghost linked = gpu@;

        let mut i: usize = 0;
        while i < n
            invariant
                i <= n,
                n <= 3,
                shaders@.len() == n,
                first + n == program_id,
                start.names_left() >= n + 1,
                forall|j: int| 0 <= j < n ==> (#[trigger] shaders@[j]).name() == first + j,
                forall|j: int|
                    0 <= j < n ==> linked.is_live(
                        ObjectKind::Shader,
                        (#[trigger] shaders@[j]).name(),
                    ),
                linked.is_live(ObjectKind::Program, program_id),
                gpu@ == (GpuState {
                    commands: linked.commands + detach_commands(program_id, first, i as nat),
                    ..linked
                }),
            decreases n - i,
        {
            gpu.issue(Command::DetachShader { program: program_id, shader: shaders[i].id() });
            i = i + 1;
            assert(gpu@.commands =~= linked.commands + detach_commands(
                program_id,
                first,
                i as nat,
            ));
        }
        let ghost detached = gpu@;

        let mut i: usize = n;
        assert(gpu@.objects =~= with_shaders(start.objects, first, 0, n as int).insert(
            program_id,
            ObjectKind::Program,
        ));
        assert(detached.commands =~= detached.commands + release_commands(first, 0));
        while i > 0
            invariant
                i <= n,
                n <= 3,
                shaders@.len() == i,
                first + n == program_id,
                first == start.next_name,
                start.wf(),
                start.names_left() >= n + 1,
                forall|j: int|
                    0 <= j < i ==> (#[trigger] shaders@[j]).name() == first + (n - i) + j,
                detached.bindings == start.bindings,
                gpu@ == (GpuState {
                    objects: with_shaders(start.objects, first, (n - i) as int, n as int).insert(
                        program_id,
                        ObjectKind::Program,
                    ),
                    commands: detached.commands + release_commands(first, (n - i) as nat),
                    ..detached
                }),
            decreases i,
        {
            let shader = shaders.remove(0);
            shader.destroy(gpu);
            i = i - 1;
            assert(gpu@.objects =~= with_shaders(
                start.objects,
                first,
                (n - i) as int,
                n as int,
            ).insert(program_id, ObjectKind::Program));
            assert(gpu@.commands =~= detached.commands + release_commands(
                first,
                (n - i) as nat,
            ));
        }

        assert(gpu@.objects =~= start.objects.insert(program_id, ObjectKind::Program));
        assert(gpu@.commands =~= start.commands + program_commands(
            first,
            stages_of(program_type),
            texts,
        ));
        Ok(ShaderProgram { program_id })
    }

    /// The name of the program, by which a model is drawn with it.
    pub fn id(&self) -> (name: u32)
        ensures
            name == self.name(),
    {
        self.program_id
    }

    /// Releases the program. Where it was current, no program is now.
    pub fn destroy(self, gpu: &mut Gpu)
        requires
            self.wf(old(gpu)@),
        ensures
            final(gpu)@ == old(gpu)@.issued(CommandView::DeleteProgram { name: self.name() }),
    {
        gpu.issue(Command::DeleteProgram { name: self.program_id });
    }
}

} // verus!
