//! What the operations on a registry do to the mapping from object names to
//! usage histories that the registry stands for, and what holds of them
//! whatever they are applied to.

use crate::timestamp::Timestamp;
use crate::usages::{lemma_prune_idempotent, pruned};
use vstd::prelude::*;

verus! {

/// What a registry stands for: the usage history of each tracked object, by
/// name.
pub type Registry = Map<Seq<char>, Seq<Timestamp>>;

/// The history of `name` in `registry`: empty for a name that is not tracked.
pub open spec fn history_of(registry: Registry, name: Seq<char>) -> Seq<Timestamp> {
    if registry.contains_key(name) {
        registry[name]
    } else {
        Seq::empty()
    }
}

/// Whether an attempt to add the object `name` is turned down: the object is
/// tracked already.
pub open spec fn add_refused(registry: Registry, name: Seq<char>) -> bool {
    registry.contains_key(name)
}

/// The registry after an attempt to add the object `name`: a new object
/// starts with an empty history, one that is tracked already stays as it is.
pub open spec fn added(registry: Registry, name: Seq<char>) -> Registry {
    if add_refused(registry, name) {
        registry
    } else {
        registry.insert(name, Seq::empty())
    }
}

/// Whether an attempt to record a usage of the object `name` is turned
/// down: the object is not tracked and is not to be added.
pub open spec fn record_refused(registry: Registry, name: Seq<char>, add_if_new: bool) -> bool {
    !add_if_new && !registry.contains_key(name)
}

/// The registry after an attempt to record a usage of the object `name` at
/// the instant `at`: the usage goes to the end of the object's history, and
/// nothing changes where the attempt is turned down.
pub open spec fn recorded(
    registry: Registry,
    name: Seq<char>,
    add_if_new: bool,
    at: Timestamp,
) -> Registry {
    if record_refused(registry, name, add_if_new) {
        registry
    } else {
        registry.insert(name, history_of(registry, name).push(at))
    }
}

/// The registry after an attempt to prune the object `name`: with a cutoff
/// the usages before it leave the object's history, without one all of them
/// do. Nothing changes where the object is not tracked.
pub open spec fn cut(registry: Registry, name: Seq<char>, before: Option<Timestamp>) -> Registry {
    if registry.contains_key(name) {
        registry.insert(
            name,
            match before {
                Some(cutoff) => pruned(registry[name], cutoff),
                None => Seq::empty(),
            },
        )
    } else {
        registry
    }
}

/// The registry that a list of named histories stands for. Where a name
/// occurs more than once, its last history counts.
pub open spec fn transcoded(objects: Seq<(Seq<char>, Seq<Timestamp>)>) -> Registry
    decreases objects.len(),
{
    if objects.len() == 0 {
        Map::empty()
    } else {
        transcoded(objects.drop_last()).insert(objects.last().0, objects.last().1)
    }
}

/// One of the operations that change which objects are tracked or what
/// their histories hold.
pub ghost enum Operation {
    /// Start to track an object.
    Add { name: Seq<char> },
    /// Record a usage of an object.
    Record { name: Seq<char>, add_if_new: bool, at: Timestamp },
    /// Stop to track an object.
    Remove { name: Seq<char> },
}

/// The registry after `operation`.
pub open spec fn applied(registry: Registry, operation: Operation) -> Registry {
    match operation {
        Operation::Add { name } => added(registry, name),
        Operation::Record { name, add_if_new, at } => recorded(registry, name, add_if_new, at),
        Operation::Remove { name } => registry.remove(name),
    }
}

/// The registry after `operations`, one after the other.
pub open spec fn applied_all(registry: Registry, operations: Seq<Operation>) -> Registry
    decreases operations.len(),
{
    if operations.len() == 0 {
        registry
    } else {
        applied(applied_all(registry, operations.drop_last()), operations.last())
    }
}

/// The names in use after `operation`, going by the operation alone: adding
/// brings a name in, recording does so where it may add, removing takes a
/// name out.
pub open spec fn names_after(names: Set<Seq<char>>, operation: Operation) -> Set<Seq<char>> {
    match operation {
        Operation::Add { name } => names.insert(name),
        Operation::Record { name, add_if_new, at } => if add_if_new {
            names.insert(name)
        } else {
            names
        },
        Operation::Remove { name } => names.remove(name),
    }
}

/// The names in use after `operations`, one after the other.
pub open spec fn names_after_all(names: Set<Seq<char>>, operations: Seq<Operation>) -> Set<
    Seq<char>,
>
    decreases operations.len(),
{
    if operations.len() == 0 {
        names
    } else {
        names_after(names_after_all(names, operations.drop_last()), operations.last())
    }
}

/// After any sequence of operations the tracked objects are exactly the
/// names that were added and not removed since. Removing a name that is not
/// tracked changes nothing, and neither does a usage that is turned down.
pub proof fn lemma_tracked_names(registry: Registry, operations: Seq<Operation>)
    ensures
        applied_all(registry, operations).dom() == names_after_all(registry.dom(), operations),
    decreases operations.len(),
{
    if operations.len() > 0 {
        let earlier = operations.drop_last();
        lemma_tracked_names(registry, earlier);
        let before = applied_all(registry, earlier);
        assert(applied(before, operations.last()).dom() =~= names_after(
            before.dom(),
            operations.last(),
        ));
    }
}

/// Starting from nothing, the tracked objects are the names added and not
/// removed since.
pub proof fn lemma_tracked_names_from_empty(operations: Seq<Operation>)
    ensures
        applied_all(Map::empty(), operations).dom() == names_after_all(Set::empty(), operations),
{
    lemma_tracked_names(Map::empty(), operations);
    assert(Map::<Seq<char>, Seq<Timestamp>>::empty().dom() =~= Set::<Seq<char>>::empty());
}

/// Removing an object that is not tracked changes nothing, so removing
/// twice is removing once.
pub proof fn lemma_remove_idempotent(registry: Registry, name: Seq<char>)
    ensures
        !registry.contains_key(name) ==> registry.remove(name) == registry,
        registry.remove(name).remove(name) == registry.remove(name),
{
    if !registry.contains_key(name) {
        assert(registry.remove(name) =~= registry);
    }
    assert(registry.remove(name).remove(name) =~= registry.remove(name));
}

/// Pruning an object twice with the same cutoff, or twice without one,
/// leaves what pruning it once leaves.
pub proof fn lemma_cut_idempotent(registry: Registry, name: Seq<char>, before: Option<Timestamp>)
    ensures
        cut(cut(registry, name, before), name, before) == cut(registry, name, before),
{
    if registry.contains_key(name) {
        if let Some(cutoff) = before {
            lemma_prune_idempotent(registry[name], cutoff);
        }
        assert(cut(cut(registry, name, before), name, before) =~= cut(registry, name, before));
    }
}

/// An attempt to add an object that follows another one for the same name
/// is turned down, whether the first one was or not, and changes nothing.
pub proof fn lemma_add_twice(registry: Registry, name: Seq<char>)
    ensures
        add_refused(added(registry, name), name),
        added(added(registry, name), name) == added(registry, name),
{
}

/// A usage of an object that is not tracked is turned down unless the
/// object may be added; a usage that may add is never turned down, and
/// lengthens the history of its object by exactly one usage, the new one at
/// its end, while every other object keeps its history.
pub proof fn lemma_record(registry: Registry, name: Seq<char>, at: Timestamp)
    ensures
        !registry.contains_key(name) ==> record_refused(registry, name, false),
        !registry.contains_key(name) ==> recorded(registry, name, false, at) == registry,
        !record_refused(registry, name, true),
        history_of(recorded(registry, name, true, at), name) == history_of(registry, name).push(
            at,
        ),
        history_of(recorded(registry, name, true, at), name).len() == history_of(
            registry,
            name,
        ).len() + 1,
        forall|other: Seq<char>|
            other != name ==> history_of(recorded(registry, name, true, at), other) == history_of(
                registry,
                other,
            ),
{
}

} // verus!
