//! What making and releasing models does to the context, over any number
//! of models.
//!
//! Objects are counted as the graphics interface itself would count them:
//! one for each recorded command that makes an object, one for each that
//! releases one.

use vstd::prelude::*;
use crate::command::CommandView;
use crate::command::ObjectKind;
use crate::gpu::GpuState;
use crate::model::model_created;
use crate::model::model_destroyed;

verus! {

/// `command` makes an object of kind `kind`.
pub open spec fn makes(command: CommandView, kind: ObjectKind) -> bool {
    match command {
        CommandView::GenBuffer { .. } => kind == ObjectKind::Buffer,
        CommandView::GenVertexArray { .. } => kind == ObjectKind::VertexArray,
        CommandView::CreateShader { .. } => kind == ObjectKind::Shader,
        CommandView::CreateProgram { .. } => kind == ObjectKind::Program,
        _ => false,
    }
}

/// `command` releases an object of kind `kind`.
pub open spec fn releases(command: CommandView, kind: ObjectKind) -> bool {
    match command {
        CommandView::DeleteBuffer { .. } => kind == ObjectKind::Buffer,
        CommandView::DeleteVertexArray { .. } => kind == ObjectKind::VertexArray,
        CommandView::DeleteShader { .. } => kind == ObjectKind::Shader,
        CommandView::DeleteProgram { .. } => kind == ObjectKind::Program,
        _ => false,
    }
}

/// How many of `commands` make an object of kind `kind`.
pub open spec fn made(commands: Seq<CommandView>, kind: ObjectKind) -> nat
    decreases commands.len(),
{
    if commands.len() == 0 {
        0
    } else {
        made(commands.drop_last(), kind) + if makes(commands.last(), kind) {
            1nat
        } else {
            0nat
        }
    }
}

/// How many of `commands` release an object of kind `kind`.
pub open spec fn released(commands: Seq<CommandView>, kind: ObjectKind) -> nat
    decreases commands.len(),
{
    if commands.len() == 0 {
        0
    } else {
        released(commands.drop_last(), kind) + if releases(commands.last(), kind) {
            1nat
        } else {
            0nat
        }
    }
}

/// The context after `n` models are made, one after the other.
pub open spec fn models_created(s: GpuState, n: nat) -> GpuState
    decreases n,
{
    if n == 0 {
        s
    } else {
        model_created(models_created(s, (n - 1) as nat))
    }
}

/// The context after the first `n` of the models whose objects are named
/// from `first` on, three names to a model, are released in the order in
/// which they were made.
pub open spec fn models_destroyed(s: GpuState, first: u32, n: nat) -> GpuState
    decreases n,
{
    if n == 0 {
        s
    } else {
        model_destroyed(
            models_destroyed(s, first, (n - 1) as nat),
            (first + 3 * (n - 1)) as u32,
            (first + 3 * (n - 1) + 1) as u32,
            (first + 3 * (n - 1) + 2) as u32,
        )
    }
}

/// The kind of the object that has the name `first + offset` among models
/// named from `first` on: two buffers, then a vertex array.
pub open spec fn kind_at(offset: int) -> ObjectKind {
    if offset % 3 == 2 {
        ObjectKind::VertexArray
    } else {
        ObjectKind::Buffer
    }
}

/// `objects` together with the objects of the models `from` up to, and not
/// including, `to`, of the models named from `first` on.
pub open spec fn with_models(
    objects: Map<u32, ObjectKind>,
    first: u32,
    from: int,
    to: int,
) -> Map<u32, ObjectKind> {
    Map::new(
        |name: u32| objects.contains_key(name) || first + 3 * from <= name < first + 3 * to,
        |name: u32|
            if first + 3 * from <= name < first + 3 * to {
                kind_at(name - first)
            } else {
                objects[name]
            },
    )
}

/// Recording one more command adds one to the count of what it makes and
/// releases, and nothing to the others.
pub proof fn lemma_count_push(commands: Seq<CommandView>, command: CommandView, kind: ObjectKind)
    ensures
        made(commands.push(command), kind) == made(commands, kind) + if makes(command, kind) {
            1nat
        } else {
            0nat
        },
        released(commands.push(command), kind) == released(commands, kind) + if releases(
            command,
            kind,
        ) {
            1nat
        } else {
            0nat
        },
{
    assert(commands.push(command).drop_last() =~= commands);
}

/// Making a model takes three names that no object alive has, makes two
/// buffers and a vertex array of them, and touches nothing else.
pub proof fn lemma_model_created(s: GpuState)
    requires
        s.wf(),
        s.names_left() >= 3,
    ensures
        model_created(s).wf(),
        model_created(s).next_name == s.next_name + 3,
        model_created(s).bindings == s.bindings,
        model_created(s).objects == with_models(s.objects, s.next_name, 0, 1),
        !s.objects.contains_key(s.next_name),
        !s.objects.contains_key((s.next_name + 1) as u32),
        !s.objects.contains_key((s.next_name + 2) as u32),
        forall|kind: ObjectKind|
            #[trigger] made(model_created(s).commands, kind) == made(s.commands, kind) + (
            match kind {
                ObjectKind::Buffer => 2nat,
                ObjectKind::VertexArray => 1nat,
                _ => 0nat,
            }),
        forall|kind: ObjectKind| #[trigger]
            released(model_created(s).commands, kind) == released(s.commands, kind),
{
    let a = s.next_name;
    let b = (s.next_name + 1) as u32;
    let c = (s.next_name + 2) as u32;
    let s1 = s.issued(CommandView::GenBuffer { name: a });
    let s2 = s1.issued(CommandView::GenBuffer { name: b });
    assert(model_created(s).objects =~= with_models(s.objects, s.next_name, 0, 1));
    assert forall|kind: ObjectKind|
        #[trigger] made(model_created(s).commands, kind) == made(s.commands, kind) + (match kind {
            ObjectKind::Buffer => 2nat,
            ObjectKind::VertexArray => 1nat,
            _ => 0nat,
        }) by {
        lemma_count_push(s.commands, CommandView::GenBuffer { name: a }, kind);
        lemma_count_push(s1.commands, CommandView::GenBuffer { name: b }, kind);
        lemma_count_push(s2.commands, CommandView::GenVertexArray { name: c }, kind);
    }
    assert forall|kind: ObjectKind| #[trigger]
        released(model_created(s).commands, kind) == released(s.commands, kind) by {
        lemma_count_push(s.commands, CommandView::GenBuffer { name: a }, kind);
        lemma_count_push(s1.commands, CommandView::GenBuffer { name: b }, kind);
        lemma_count_push(s2.commands, CommandView::GenVertexArray { name: c }, kind);
    }
}

/// Making `n` models, one after the other, takes `3 * n` names that no
/// object alive has, no two of them the same. It makes `2 * n` buffers and
/// `n` vertex arrays, and releases nothing. Every object that was alive
/// before still is.
pub proof fn lemma_models_created(s: GpuState, n: nat)
    requires
        s.wf(),
        s.names_left() >= 3 * n,
    ensures
        models_created(s, n).wf(),
        models_created(s, n).next_name == s.next_name + 3 * n,
        models_created(s, n).bindings == s.bindings,
        models_created(s, n).objects == with_models(s.objects, s.next_name, 0, n as int),
        forall|kind: ObjectKind|
            #[trigger] made(models_created(s, n).commands, kind) == made(s.commands, kind) + (
            match kind {
                ObjectKind::Buffer => 2 * n,
                ObjectKind::VertexArray => n,
                _ => 0nat,
            }),
        forall|kind: ObjectKind| #[trigger]
            released(models_created(s, n).commands, kind) == released(s.commands, kind),
    decreases n,
{
    if n == 0 {
        assert(s.objects =~= with_models(s.objects, s.next_name, 0, 0));
    } else {
        let before = models_created(s, (n - 1) as nat);
        lemma_models_created(s, (n - 1) as nat);
        lemma_model_created(before);
        assert(models_created(s, n).objects =~= with_models(
            s.objects,
            s.next_name,
            0,
            n as int,
        ));
    }
}

/// Releasing a model that is alive, and whose objects are not current,
/// takes its three objects away and touches nothing else; it releases two
/// buffers and a vertex array, and makes nothing.
pub proof fn lemma_model_destroyed(s: GpuState, a: u32, b: u32, c: u32)
    requires
        s.bindings.array_buffer != a,
        s.bindings.array_buffer != b,
        s.bindings.element_array_buffer != a,
        s.bindings.element_array_buffer != b,
        s.bindings.vertex_array != c,
    ensures
        model_destroyed(s, a, b, c).next_name == s.next_name,
        model_destroyed(s, a, b, c).bindings == s.bindings,
        model_destroyed(s, a, b, c).objects == s.objects.remove(a).remove(b).remove(c),
        forall|kind: ObjectKind|
            #[trigger] released(model_destroyed(s, a, b, c).commands, kind) == released(
                s.commands,
                kind,
            ) + (match kind {
                ObjectKind::Buffer => 2nat,
                ObjectKind::VertexArray => 1nat,
                _ => 0nat,
            }),
        forall|kind: ObjectKind| #[trigger]
            made(model_destroyed(s, a, b, c).commands, kind) == made(s.commands, kind),
{
    let s1 = s.issued(CommandView::DeleteBuffer { name: a });
    let s2 = s1.issued(CommandView::DeleteBuffer { name: b });
    assert forall|kind: ObjectKind|
        #[trigger] released(model_destroyed(s, a, b, c).commands, kind) == released(
            s.commands,
            kind,
        ) + (match kind {
            ObjectKind::Buffer => 2nat,
            ObjectKind::VertexArray => 1nat,
            _ => 0nat,
        }) by {
        lemma_count_push(s.commands, CommandView::DeleteBuffer { name: a }, kind);
        lemma_count_push(s1.commands, CommandView::DeleteBuffer { name: b }, kind);
        lemma_count_push(s2.commands, CommandView::DeleteVertexArray { name: c }, kind);
    }
    assert forall|kind: ObjectKind| #[trigger]
        made(model_destroyed(s, a, b, c).commands, kind) == made(s.commands, kind) by {
        lemma_count_push(s.commands, CommandView::DeleteBuffer { name: a }, kind);
        lemma_count_push(s1.commands, CommandView::DeleteBuffer { name: b }, kind);
        lemma_count_push(s2.commands, CommandView::DeleteVertexArray { name: c }, kind);
    }
}

/// After `n` models are made, and the first `k` of them released again,
/// the objects of the other models are alive beside what was alive before,
/// and `2 * k` buffers and `k` vertex arrays were released.
pub proof fn lemma_models_destroyed(s: GpuState, n: nat, k: nat)
    requires
        s.wf(),
        s.names_left() >= 3 * n,
        k <= n,
    ensures
        models_destroyed(models_created(s, n), s.next_name, k).next_name == s.next_name + 3 * n,
        models_destroyed(models_created(s, n), s.next_name, k).bindings == s.bindings,
        models_destroyed(models_created(s, n), s.next_name, k).objects == with_models(
            s.objects,
            s.next_name,
            k as int,
            n as int,
        ),
        forall|kind: ObjectKind|
            #[trigger] released(
                models_destroyed(models_created(s, n), s.next_name, k).commands,
                kind,
            ) == released(s.commands, kind) + (match kind {
                ObjectKind::Buffer => 2 * k,
                ObjectKind::VertexArray => k,
                _ => 0nat,
            }),
        forall|kind: ObjectKind| #[trigger]
            made(models_destroyed(models_created(s, n), s.next_name, k).commands, kind) == made(
                models_created(s, n).commands,
                kind,
            ),
    decreases k,
{
    lemma_models_created(s, n);
    if k > 0 {
        let j = (k - 1) as nat;
        lemma_models_destroyed(s, n, j);
        let before = models_destroyed(models_created(s, n), s.next_name, j);
        let a = (s.next_name + 3 * j) as u32;
        let b = (s.next_name + 3 * j + 1) as u32;
        let c = (s.next_name + 3 * j + 2) as u32;
        lemma_model_destroyed(before, a, b, c);
        assert(before.objects.remove(a).remove(b).remove(c) =~= with_models(
            s.objects,
            s.next_name,
            k as int,
            n as int,
        ));
    }
}

/// Making `n` models and releasing them all makes and releases exactly
/// `2 * n` buffers and `n` vertex arrays, and leaves alive exactly what was
/// alive before: nothing leaks. The names of the `3 * n` objects are the
/// next `3 * n` names, so no two objects share a name and none takes the
/// name of an object that is alive.
pub proof fn lemma_models_balance(s: GpuState, n: nat)
    requires
        s.wf(),
        s.names_left() >= 3 * n,
    ensures
        models_destroyed(models_created(s, n), s.next_name, n).objects == s.objects,
        models_destroyed(models_created(s, n), s.next_name, n).bindings == s.bindings,
        forall|name: u32|
            s.next_name <= name < s.next_name + 3 * n ==> !s.objects.contains_key(name)
                && #[trigger] models_created(s, n).objects.contains_key(name),
        forall|name: u32| #[trigger]
            s.objects.contains_key(name) ==> models_created(s, n).objects.contains_key(name)
                && models_created(s, n).objects[name] == s.objects[name],
        forall|kind: ObjectKind|
            #[trigger] made(
                models_destroyed(models_created(s, n), s.next_name, n).commands,
                kind,
            ) == made(s.commands, kind) + (match kind {
                ObjectKind::Buffer => 2 * n,
                ObjectKind::VertexArray => n,
                _ => 0nat,
            }),
        forall|kind: ObjectKind|
            #[trigger] released(
                models_destroyed(models_created(s, n), s.next_name, n).commands,
                kind,
            ) == released(s.commands, kind) + (match kind {
                ObjectKind::Buffer => 2 * n,
                ObjectKind::VertexArray => n,
                _ => 0nat,
            }),
{
    lemma_models_created(s, n);
    lemma_models_destroyed(s, n, n);
    assert(with_models(s.objects, s.next_name, n as int, n as int) =~= s.objects);
}

} // verus!
