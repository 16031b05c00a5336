//! Lists of tracked objects in ascending order of their names, and the
//! registries they stand for.

use crate::names::{
    ascending, lemma_name_irreflexive, lemma_name_precedes_differs, lemma_name_total,
    lemma_name_transitive, name_precedes,
};
use crate::operations::transcoded;
use crate::timestamp::Timestamp;
use crate::usages::Usages;
use vstd::prelude::*;

verus! {

/// The names of `entries`, in their order.
pub open spec fn entry_names(entries: Seq<(String, Usages)>) -> Seq<Seq<char>> {
    Seq::new(entries.len(), |i: int| entries[i].0@)
}

/// Whether an entry of `entries` has the name `name`.
pub open spec fn listed(entries: Seq<(String, Usages)>, name: Seq<char>) -> bool {
    exists|i: int| 0 <= i < entries.len() && #[trigger] entries[i].0@ == name
}

/// A place in `entries` where the name `name` stands, if there is one.
pub(crate) open spec fn place_of(entries: Seq<(String, Usages)>, name: Seq<char>) -> int {
    choose|i: int| 0 <= i < entries.len() && #[trigger] entries[i].0@ == name
}

/// The mapping from names to histories that `entries` stand for.
pub(crate) open spec fn contents(entries: Seq<(String, Usages)>) -> Map<Seq<char>, Seq<Timestamp>> {
    Map::new(
        |name: Seq<char>| listed(entries, name),
        |name: Seq<char>| entries[place_of(entries, name)].1@,
    )
}

/// Each entry of a list in ascending order is found in its contents under
/// its name.
pub(crate) proof fn lemma_contents(entries: Seq<(String, Usages)>)
    requires
        ascending(entry_names(entries)),
    ensures
        forall|i: int|
            0 <= i < entries.len() ==> contents(entries).contains_key(#[trigger] entries[i].0@)
                && contents(entries)[entries[i].0@] == entries[i].1@,
{
    assert forall|i: int| 0 <= i < entries.len() implies contents(entries).contains_key(
        #[trigger] entries[i].0@,
    ) && contents(entries)[entries[i].0@] == entries[i].1@ by {
        let name = entries[i].0@;
        let c = place_of(entries, name);
        if c != i {
            lemma_name_irreflexive(name);
            assert(entry_names(entries)[c] == name);
            assert(entry_names(entries)[i] == name);
        }
    }
}

/// Putting an entry with a new name into its place in a list in ascending
/// order keeps the order and adds the entry to the contents.
pub(crate) proof fn lemma_insert(entries: Seq<(String, Usages)>, at: int, entry: (String, Usages))
    requires
        ascending(entry_names(entries)),
        0 <= at <= entries.len(),
        forall|j: int| 0 <= j < at ==> name_precedes(#[trigger] entry_names(entries)[j], entry.0@),
        forall|j: int|
            at <= j < entries.len() ==> name_precedes(
                entry.0@,
                #[trigger] entry_names(entries)[j],
            ),
    ensures
        ascending(entry_names(entries.insert(at, entry))),
        contents(entries.insert(at, entry)) == contents(entries).insert(entry.0@, entry.1@),
{
    let after = entries.insert(at, entry);
    let names = entry_names(entries);
    let names_after = entry_names(after);
    assert forall|i: int, j: int| 0 <= i < j < names_after.len() implies name_precedes(
        #[trigger] names_after[i],
        #[trigger] names_after[j],
    ) by {
        let a = if i < at { i } else { i - 1 };
        let b = if j < at { j } else { j - 1 };
        if i != at && j != at {
            assert(names_after[i] == names[a]);
            assert(names_after[j] == names[b]);
        } else if i == at {
            assert(names_after[j] == names[b]);
        } else {
            assert(names_after[i] == names[a]);
        }
    }
    lemma_contents(entries);
    lemma_contents(after);
    let grown = contents(entries).insert(entry.0@, entry.1@);
    assert forall|name: Seq<char>| #[trigger]
        contents(after).contains_key(name) implies grown.contains_key(name) && grown[name]
        == contents(after)[name] by {
        let k = place_of(after, name);
        assert(after[k].0@ == name);
        if k < at {
            assert(entries[k].0@ == name);
            assert(names[k] == name);
            lemma_name_precedes_differs(name, entry.0@);
        } else if k > at {
            assert(entries[k - 1].0@ == name);
            assert(names[k - 1] == name);
            lemma_name_precedes_differs(entry.0@, name);
        }
    }
    assert forall|name: Seq<char>| #[trigger] grown.contains_key(name) implies contents(
        after,
    ).contains_key(name) by {
        if name == entry.0@ {
            assert(after[at].0@ == name);
        } else {
            let k = place_of(entries, name);
            if k < at {
                assert(after[k].0@ == name);
            } else {
                assert(after[k + 1].0@ == name);
            }
        }
    }
    assert(contents(after) =~= grown);
}

/// Taking an entry out of a list in ascending order keeps the order and
/// takes its name out of the contents.
pub(crate) proof fn lemma_remove(entries: Seq<(String, Usages)>, at: int)
    requires
        ascending(entry_names(entries)),
        0 <= at < entries.len(),
    ensures
        ascending(entry_names(entries.remove(at))),
        contents(entries.remove(at)) == contents(entries).remove(entries[at].0@),
{
    let after = entries.remove(at);
    let names = entry_names(entries);
    let names_after = entry_names(after);
    assert forall|i: int, j: int| 0 <= i < j < names_after.len() implies name_precedes(
        #[trigger] names_after[i],
        #[trigger] names_after[j],
    ) by {
        let a = if i < at { i } else { i + 1 };
        let b = if j < at { j } else { j + 1 };
        assert(names_after[i] == names[a]);
        assert(names_after[j] == names[b]);
    }
    lemma_contents(entries);
    lemma_contents(after);
    let shrunk = contents(entries).remove(entries[at].0@);
    assert forall|name: Seq<char>| #[trigger]
        contents(after).contains_key(name) implies shrunk.contains_key(name) && shrunk[name]
        == contents(after)[name] by {
        let k = place_of(after, name);
        let a = if k < at { k } else { k + 1 };
        assert(after[k].0@ == name);
        assert(entries[a].0@ == name);
        assert(names[a] == name);
        assert(names[at] == entries[at].0@);
        if a < at {
            lemma_name_precedes_differs(name, entries[at].0@);
        } else {
            lemma_name_precedes_differs(entries[at].0@, name);
        }
    }
    assert forall|name: Seq<char>| #[trigger] shrunk.contains_key(name) implies contents(
        after,
    ).contains_key(name) by {
        let k = place_of(entries, name);
        if k < at {
            assert(after[k].0@ == name);
        } else {
            assert(after[k - 1].0@ == name);
        }
    }
    assert(contents(after) =~= shrunk);
}

/// Replacing an entry of a list in ascending order by one of the same name
/// keeps the order and the names, and puts the new history under the name.
pub(crate) proof fn lemma_update(entries: Seq<(String, Usages)>, at: int, entry: (String, Usages))
    requires
        ascending(entry_names(entries)),
        0 <= at < entries.len(),
        entry.0@ == entries[at].0@,
    ensures
        entry_names(entries.update(at, entry)) == entry_names(entries),
        contents(entries.update(at, entry)) == contents(entries).insert(entry.0@, entry.1@),
{
    let after = entries.update(at, entry);
    assert(entry_names(after) =~= entry_names(entries));
    lemma_contents(entries);
    lemma_contents(after);
    let changed = contents(entries).insert(entry.0@, entry.1@);
    assert forall|name: Seq<char>| #[trigger]
        contents(after).contains_key(name) implies changed.contains_key(name) && changed[name]
        == contents(after)[name] by {
        let k = place_of(after, name);
        assert(after[k].0@ == name);
        assert(entries[k].0@ == name);
        if k != at {
            assert(entry_names(entries)[k] == name);
            assert(entry_names(entries)[at] == entry.0@);
            if k < at {
                lemma_name_precedes_differs(name, entry.0@);
            } else {
                lemma_name_precedes_differs(entry.0@, name);
            }
        }
    }
    assert forall|name: Seq<char>| #[trigger] changed.contains_key(name) implies contents(
        after,
    ).contains_key(name) by {
        if name == entry.0@ {
            assert(after[at].0@ == name);
        } else {
            let k = place_of(entries, name);
            assert(after[k].0@ == name);
        }
    }
    assert(contents(after) =~= changed);
}

/// Whether `entries` lists `registry`: every tracked object once, with its
/// history, by name in ascending order.
pub open spec fn lists(
    entries: Seq<(String, Usages)>,
    registry: Map<Seq<char>, Seq<Timestamp>>,
) -> bool {
    &&& ascending(entry_names(entries))
    &&& forall|i: int|
        0 <= i < entries.len() ==> registry.contains_key(#[trigger] entries[i].0@)
            && registry[entries[i].0@] == entries[i].1@
    &&& forall|name: Seq<char>| #[trigger] registry.contains_key(name) ==> listed(entries, name)
}

/// The views of `names`, in their order.
pub open spec fn name_views(names: Seq<&String>) -> Seq<Seq<char>> {
    Seq::new(names.len(), |i: int| names[i]@)
}

/// The objects of an earlier data layout as plain values: each name with
/// its usages.
pub open spec fn object_views(objects: Seq<(String, Vec<Timestamp>)>) -> Seq<
    (Seq<char>, Seq<Timestamp>),
> {
    Seq::new(objects.len(), |i: int| (objects[i].0@, objects[i].1@))
}

/// The objects that `entries` hold, as plain values: each name with its
/// usages.
pub open spec fn entry_views(entries: Seq<(String, Usages)>) -> Seq<(Seq<char>, Seq<Timestamp>)> {
    Seq::new(entries.len(), |i: int| (entries[i].0@, entries[i].1@))
}

/// A registry that is written out as the list of its objects and read back
/// from that list is the same registry: no object and no usage is lost, and
/// each history keeps its order.
pub proof fn lemma_listing_reads_back(
    entries: Seq<(String, Usages)>,
    registry: Map<Seq<char>, Seq<Timestamp>>,
)
    requires
        lists(entries, registry),
    ensures
        transcoded(entry_views(entries)) == registry,
{
    lemma_read_back_prefix(entries, entries.len() as int);
    assert(entry_views(entries).take(entries.len() as int) =~= entry_views(entries));
    let read = transcoded(entry_views(entries));
    assert forall|name: Seq<char>| #[trigger] registry.contains_key(name) implies read.contains_key(
        name,
    ) && read[name] == registry[name] by {
        let k = place_of(entries, name);
        assert(entries[k].0@ == name);
    }
    assert forall|name: Seq<char>| #[trigger] read.contains_key(name) implies registry.contains_key(
        name,
    ) by {
        let k = choose|k: int| 0 <= k < entries.len() && #[trigger] entries[k].0@ == name;
        assert(entries[k].0@ == name);
    }
    assert(read =~= registry);
}

/// What reading back the first `count` entries of a list in ascending order
/// gives: the names of those entries, each with its usages.
pub(crate) proof fn lemma_read_back_prefix(entries: Seq<(String, Usages)>, count: int)
    requires
        ascending(entry_names(entries)),
        0 <= count <= entries.len(),
    ensures
        forall|name: Seq<char>| #[trigger]
            transcoded(entry_views(entries).take(count)).contains_key(name) <==> exists|k: int|
                0 <= k < count && #[trigger] entries[k].0@ == name,
        forall|k: int|
            0 <= k < count ==> transcoded(
                entry_views(entries).take(count),
            )[#[trigger] entries[k].0@] == entries[k].1@,
    decreases count,
{
    let read = transcoded(entry_views(entries).take(count));
    if count > 0 {
        lemma_read_back_prefix(entries, count - 1);
        let earlier = transcoded(entry_views(entries).take(count - 1));
        let last = entry_views(entries).take(count).last();
        assert(entry_views(entries).take(count).drop_last() =~= entry_views(entries).take(
            count - 1,
        ));
        assert(last == (entries[count - 1].0@, entries[count - 1].1@));
        assert(read == earlier.insert(last.0, last.1));
        assert forall|name: Seq<char>| #[trigger] read.contains_key(name) implies exists|k: int|
            0 <= k < count && #[trigger] entries[k].0@ == name by {
            if name == last.0 {
                assert(entries[count - 1].0@ == name);
            } else {
                assert(earlier.contains_key(name));
                let k = choose|k: int| 0 <= k < count - 1 && #[trigger] entries[k].0@ == name;
                assert(entries[k].0@ == name);
            }
        }
        assert forall|k: int| 0 <= k < count implies read[#[trigger] entries[k].0@]
            == entries[k].1@ by {
            if k < count - 1 {
                assert(entry_names(entries)[k] == entries[k].0@);
                assert(entry_names(entries)[count - 1] == last.0);
                lemma_name_precedes_differs(entries[k].0@, last.0);
            }
        }
    }
}

/// Two lists in ascending order that agree entry by entry stand for the
/// same contents.
pub(crate) proof fn lemma_same_contents(a: Seq<(String, Usages)>, b: Seq<(String, Usages)>)
    requires
        ascending(entry_names(a)),
        a.len() == b.len(),
        forall|i: int| 0 <= i < a.len() ==> (#[trigger] a[i]).0@ == b[i].0@ && a[i].1@ == b[i].1@,
    ensures
        entry_names(a) == entry_names(b),
        contents(a) == contents(b),
{
    assert(entry_names(a) =~= entry_names(b));
    lemma_contents(a);
    lemma_contents(b);
    assert forall|name: Seq<char>| #[trigger] contents(a).contains_key(name) implies contents(
        b,
    ).contains_key(name) && contents(a)[name] == contents(b)[name] by {
        let k = place_of(a, name);
        assert(a[k].0@ == name);
        assert(b[k].0@ == name);
    }
    assert forall|name: Seq<char>| #[trigger] contents(b).contains_key(name) implies contents(
        a,
    ).contains_key(name) by {
        let k = place_of(b, name);
        assert(b[k].0@ == name);
        assert(a[k].0@ == name);
    }
    assert(contents(a) =~= contents(b));
}

/// Two lists in ascending order that agree before place `at` and part ways
/// there stand for different contents.
pub(crate) proof fn lemma_different_contents(
    a: Seq<(String, Usages)>,
    b: Seq<(String, Usages)>,
    at: int,
)
    requires
        ascending(entry_names(a)),
        ascending(entry_names(b)),
        0 <= at <= a.len(),
        at <= b.len(),
        forall|i: int| 0 <= i < at ==> (#[trigger] a[i]).0@ == b[i].0@,
        at < a.len() || at < b.len(),
        at < a.len() && at < b.len() ==> a[at].0@ != b[at].0@ || a[at].1@ != b[at].1@,
    ensures
        contents(a) != contents(b),
{
    lemma_contents(a);
    lemma_contents(b);
    if at < a.len() && at < b.len() && a[at].0@ == b[at].0@ {
        assert(contents(a)[a[at].0@] == a[at].1@);
        assert(contents(b)[b[at].0@] == b[at].1@);
    } else if at < a.len() && (at == b.len() || name_precedes(a[at].0@, b[at].0@)) {
        lemma_only_in(a, b, at);
    } else {
        if at < a.len() {
            if !name_precedes(b[at].0@, a[at].0@) {
                lemma_name_total(a[at].0@, b[at].0@);
            }
        }
        assert forall|i: int| 0 <= i < at implies (#[trigger] b[i]).0@ == a[i].0@ by {
            assert(a[i].0@ == b[i].0@);
        }
        lemma_only_in(b, a, at);
    }
}

/// Where two lists in ascending order agree on the names before place `at`
/// and the name that `a` has there precedes all that `b` has from there on,
/// that name is in the contents of `a` alone.
pub(crate) proof fn lemma_only_in(a: Seq<(String, Usages)>, b: Seq<(String, Usages)>, at: int)
    requires
        ascending(entry_names(a)),
        ascending(entry_names(b)),
        0 <= at < a.len(),
        at <= b.len(),
        forall|i: int| 0 <= i < at ==> (#[trigger] a[i]).0@ == b[i].0@,
        at < b.len() ==> name_precedes(a[at].0@, b[at].0@),
    ensures
        contents(a).contains_key(a[at].0@),
        !contents(b).contains_key(a[at].0@),
{
    let name = a[at].0@;
    lemma_contents(a);
    assert(contents(a).contains_key(a[at].0@));
    if contents(b).contains_key(name) {
        let k = place_of(b, name);
        assert(b[k].0@ == name);
        assert(entry_names(b)[k] == name);
        assert(entry_names(a)[at] == name);
        if k < at {
            assert(a[k].0@ == b[k].0@);
            assert(entry_names(a)[k] == name);
            lemma_name_irreflexive(name);
        } else if k == at {
            lemma_name_irreflexive(name);
        } else {
            assert(entry_names(b)[at] == b[at].0@);
            lemma_name_transitive(name, b[at].0@, name);
            lemma_name_irreflexive(name);
        }
    }
}

/// A name that lies after the names before place `at` and before the name at
/// `at` is in no entry, and precedes all names from `at` on.
pub(crate) proof fn lemma_absent(entries: Seq<(String, Usages)>, name: Seq<char>, at: int)
    requires
        ascending(entry_names(entries)),
        0 <= at <= entries.len(),
        forall|j: int| 0 <= j < at ==> name_precedes(#[trigger] entry_names(entries)[j], name),
        at < entries.len() ==> name_precedes(name, entry_names(entries)[at]),
    ensures
        !contents(entries).contains_key(name),
        forall|j: int|
            at <= j < entries.len() ==> name_precedes(name, #[trigger] entry_names(entries)[j]),
{
    let names = entry_names(entries);
    assert forall|j: int| at <= j < names.len() implies name_precedes(
        name,
        #[trigger] names[j],
    ) by {
        if at < j {
            lemma_name_transitive(name, names[at], names[j]);
        }
    }
    if contents(entries).contains_key(name) {
        let c = place_of(entries, name);
        assert(names[c] == name);
        lemma_name_irreflexive(name);
    }
}

} // verus!
