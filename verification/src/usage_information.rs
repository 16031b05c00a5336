//! The registry of tracked objects.

use crate::error::UsageTrackerError;
use crate::estimate::{estimate, usage_as_of, UsageEstimate};
use crate::listing::{
    contents, entry_names, lemma_absent, lemma_contents, lemma_different_contents, lemma_insert,
    lemma_remove, lemma_same_contents, lemma_update, lists, name_views, object_views, place_of,
};
use crate::names::{ascending, lemma_name_total, name_before, name_precedes};
use crate::operations::{add_refused, added, cut, record_refused, recorded, transcoded};
use crate::timestamp::{current_time, Timestamp};
use crate::usages::Usages;
use vstd::prelude::*;
use vstd::std_specs::cmp::PartialEqSpecImpl;

verus! {

/// A struct that keeps the records for all tracked objects.
///
/// It stands for a mapping from object names to usage histories; the
/// objects are listed by name, in ascending order.
#[derive(Debug)]
pub struct UsageInformation {
    usage_information: Vec<(String, Usages)>,
}

impl View for UsageInformation {
    type V = Map<Seq<char>, Seq<Timestamp>>;

    closed spec fn view(&self) -> Map<Seq<char>, Seq<Timestamp>> {
        contents(self.usage_information@)
    }
}

impl UsageInformation {
    #[verifier::type_invariant]
    spec fn listed_in_order(self) -> bool {
        ascending(entry_names(self.usage_information@))
    }

    /// Creates a new, empty UsageInformation object.
    pub fn new() -> (r: Self)
        ensures
            r@ == Map::<Seq<char>, Seq<Timestamp>>::empty(),
    {
        let r = Self { usage_information: Vec::new() };
        assert(r@ =~= Map::<Seq<char>, Seq<Timestamp>>::empty());
        r
    }

    /// Adds a new object to keep track of.
    ///
    /// # Possible errors
    /// - `UsageTrackerError::ObjectAlreadyTracked`
    pub fn add(&mut self, name: &String) -> (r: Result<(), UsageTrackerError>)
        ensures
            final(self)@ == added(old(self)@, name@),
            r is Err <==> add_refused(old(self)@, name@),
            r matches Err(e) ==> e.is_already_tracked(name@),
    {
        let (at, found) = self.find(name);
        if found {
            return Err(UsageTrackerError::ObjectAlreadyTracked { name: name.clone() });
        }
        let entry = (name.clone(), Usages::new());
        let mut entries = self.take_entries();
        proof {
            lemma_insert(entries@, at as int, entry);
        }
        entries.insert(at, entry);
        self.usage_information = entries;
        Ok(())
    }

    /// Removes **all** objects permanently.
    pub fn clear(&mut self)
        ensures
            final(self)@ == Map::<Seq<char>, Seq<Timestamp>>::empty(),
    {
        self.usage_information = Vec::new();
        assert(self@ =~= Map::<Seq<char>, Seq<Timestamp>>::empty());
    }

    /// Removes a currently tracked object permanently. An object that is not
    /// tracked is no error: nothing changes then.
    pub fn remove(&mut self, name: &String)
        ensures
            final(self)@ == old(self)@.remove(name@),
    {
        let (at, found) = self.find(name);
        if found {
            let mut entries = self.take_entries();
            proof {
                lemma_remove(entries@, at as int);
            }
            entries.remove(at);
            self.usage_information = entries;
        } else {
            assert(self@ =~= self@.remove(name@));
        }
    }

    /// Provides the usages for a specific object, as [`Self::usages`] does.
    ///
    /// # Possible errors
    /// - `UsageTrackerError::ObjectNotTracked`
    pub fn show(&self, name: &String) -> (r: Result<&Usages, UsageTrackerError>)
        ensures
            r is Ok <==> self@.contains_key(name@),
            r matches Ok(usages) ==> usages@ == self@[name@],
            r matches Err(e) ==> e.is_not_tracked(name@),
    {
        self.usages(name)
    }

    /// Removes usages from an object.
    ///
    /// If `before` is `None`, all usages are removed. Otherwise, only usages
    /// before `before` are removed.
    ///
    /// # Possible errors:
    /// - `UsageTrackerError::ObjectNotTracked`
    pub fn prune(&mut self, name: &String, before: &Option<Timestamp>) -> (r: Result<
        (),
        UsageTrackerError,
    >)
        ensures
            final(self)@ == cut(old(self)@, name@, *before),
            r is Err <==> !old(self)@.contains_key(name@),
            r matches Err(e) ==> e.is_not_tracked(name@),
    {
        let (at, found) = self.find(name);
        if !found {
            return Err(UsageTrackerError::ObjectNotTracked { name: name.clone() });
        }
        let mut entries = self.take_entries();
        proof {
            lemma_contents(entries@);
        }
        let ghost before_change = entries@;
        match before {
            Some(cutoff) => entries[at].1.prune(*cutoff),
            None => entries[at].1.clear(),
        }
        proof {
            assert(entries@ =~= before_change.update(at as int, entries@[at as int]));
            lemma_update(before_change, at as int, entries@[at as int]);
        }
        self.usage_information = entries;
        Ok(())
    }

    /// Records a new usage of an object, at the time the clock shows.
    ///
    /// The history of the object grows by one usage at its end; which
    /// instant that is depends on the clock. Nothing else changes.
    ///
    /// # Possible errors
    /// - `UsageTrackerError::ObjectNotTracked`
    pub fn record_use(&mut self, name: &String, add_if_new: bool) -> (r: Result<
        (),
        UsageTrackerError,
    >)
        ensures
            exists|at: Timestamp| final(self)@ == #[trigger] recorded(
                old(self)@,
                name@,
                add_if_new,
                at,
            ),
            r is Err <==> record_refused(old(self)@, name@, add_if_new),
            r matches Err(e) ==> e.is_not_tracked(name@),
    {
        let now = current_time();
        self.record_use_at(name, add_if_new, now)
    }

    /// Records a usage of an object at the instant `at`.
    ///
    /// An object that is not tracked yet is added first if `add_if_new`
    /// says so.
    ///
    /// # Possible errors
    /// - `UsageTrackerError::ObjectNotTracked`
    pub fn record_use_at(&mut self, name: &String, add_if_new: bool, at: Timestamp) -> (r: Result<
        (),
        UsageTrackerError,
    >)
        ensures
            final(self)@ == recorded(old(self)@, name@, add_if_new, at),
            r is Err <==> record_refused(old(self)@, name@, add_if_new),
            r matches Err(e) ==> e.is_not_tracked(name@),
    {
        let (place, found) = self.find(name);
        if !found && !add_if_new {
            return Err(UsageTrackerError::ObjectNotTracked { name: name.clone() });
        }
        let mut entries = self.take_entries();
        proof {
            lemma_contents(entries@);
        }
        let ghost before_change = entries@;
        if found {
            entries[place].1.record_usage_at(at);
            proof {
                assert(entries@ =~= before_change.update(place as int, entries@[place as int]));
                lemma_update(before_change, place as int, entries@[place as int]);
            }
        } else {
            let mut usages = Usages::new();
            usages.record_usage_at(at);
            let entry = (name.clone(), usages);
            proof {
                lemma_insert(entries@, place as int, entry);
            }
            entries.insert(place, entry);
        }
        self.usage_information = entries;
        Ok(())
    }

    /// Provides the usages for a specific object.
    ///
    /// # Possible errors
    /// - `UsageTrackerError::ObjectNotTracked`
    pub fn usages(&self, name: &String) -> (r: Result<&Usages, UsageTrackerError>)
        ensures
            r is Ok <==> self@.contains_key(name@),
            r matches Ok(usages) ==> usages@ == self@[name@],
            r matches Err(e) ==> e.is_not_tracked(name@),
    {
        let (at, found) = self.find(name);
        if !found {
            return Err(UsageTrackerError::ObjectNotTracked { name: name.clone() });
        }
        proof {
            use_type_invariant(self);
            lemma_contents(self.usage_information@);
        }
        Ok(&self.usage_information[at].1)
    }

    /// Calculates the number of usages of the specified object within the
    /// specified amount of time, as of the time the clock shows.
    ///
    /// This works by calculating how much the specified time frame is in
    /// comparison to the time since the oldest recorded usage. This
    /// relationship is then multiplied by the number of total uses.
    ///
    /// # Possible errors
    /// - `UsageTrackerError::ObjectNeverUsed`
    /// - `UsageTrackerError::ObjectNotTracked`
    pub fn usage(&self, name: &String, time_frame_seconds: i64) -> (r: Result<
        UsageEstimate,
        UsageTrackerError,
    >)
        ensures
            exists|now: Timestamp| #[trigger] usage_as_of(self@, name@, time_frame_seconds, now, r),
    {
        let now = current_time();
        self.usage_at(name, time_frame_seconds, now)
    }

    /// Calculates the number of usages of the specified object within the
    /// specified amount of time, as of the instant `now`.
    ///
    /// # Possible errors
    /// - `UsageTrackerError::ObjectNeverUsed`
    /// - `UsageTrackerError::ObjectNotTracked`
    pub fn usage_at(&self, name: &String, time_frame_seconds: i64, now: Timestamp) -> (r: Result<
        UsageEstimate,
        UsageTrackerError,
    >)
        ensures
            usage_as_of(self@, name@, time_frame_seconds, now, r),
    {
        let history = match self.usages(name) {
            Ok(usages) => usages.list(),
            Err(e) => {
                return Err(e);
            },
        };
        if history.len() == 0 {
            return Err(UsageTrackerError::ObjectNeverUsed { name: name.clone() });
        }
        let elapsed = now.time_since(&history[0]);
        estimate(name, time_frame_seconds, elapsed, history.len())
    }

    /// Provides a vector with all existing keys, in ascending order.
    pub fn list(&self) -> (r: Vec<&String>)
        ensures
            ascending(name_views(r@)),
            forall|name: Seq<char>| self@.contains_key(name) <==> name_views(r@).contains(name),
    {
        proof {
            use_type_invariant(self);
            lemma_contents(self.usage_information@);
        }
        let mut names: Vec<&String> = Vec::new();
        let mut i: usize = 0;
        while i < self.usage_information.len()
            invariant
                i <= self.usage_information@.len(),
                names@.len() == i,
                forall|k: int|
                    0 <= k < i ==> (#[trigger] names@[k])@ == self.usage_information@[k].0@,
            decreases self.usage_information@.len() - i,
        {
            names.push(&self.usage_information[i].0);
            i += 1;
        }
        proof {
            assert(name_views(names@) =~= entry_names(self.usage_information@));
            assert forall|name: Seq<char>| self@.contains_key(name) implies name_views(
                names@,
            ).contains(name) by {
                let k = place_of(self.usage_information@, name);
                assert(name_views(names@)[k] == name);
            }
            assert forall|name: Seq<char>| name_views(names@).contains(
                name,
            ) implies self@.contains_key(name) by {
                let k = choose|k: int|
                    0 <= k < name_views(names@).len() && name_views(names@)[k] == name;
                assert(self.usage_information@[k].0@ == name);
            }
        }
        names
    }

    /// Provides read access to all stored data: every tracked object with
    /// its usages, by name in ascending order.
    pub fn list_verbose(&self) -> (r: &Vec<(String, Usages)>)
        ensures
            lists(r@, self@),
    {
        proof {
            use_type_invariant(self);
            lemma_contents(self.usage_information@);
        }
        &self.usage_information
    }

    /// The registry that holds `objects`: each object's name with its
    /// usages. Where a name occurs more than once, its last usages count.
    pub fn from_objects(objects: Vec<(String, Vec<Timestamp>)>) -> (r: Self)
        ensures
            r@ == transcoded(object_views(objects@)),
    {
        let mut info = Self::new();
        let mut i: usize = 0;
        proof {
            assert(object_views(objects@).take(0) =~= Seq::empty());
        }
        while i < objects.len()
            invariant
                i <= objects@.len(),
                info@ == transcoded(object_views(objects@).take(i as int)),
            decreases objects@.len() - i,
        {
            proof {
                let next = object_views(objects@).take(i + 1);
                assert(next.drop_last() =~= object_views(objects@).take(i as int));
                assert(next.last() == (objects@[i as int].0@, objects@[i as int].1@));
            }
            info.put(&objects[i].0, Usages::from_list(objects[i].1.clone()));
            i += 1;
        }
        proof {
            assert(object_views(objects@).take(i as int) =~= object_views(objects@));
        }
        info
    }

    /// Loads a UsageInformation object from what a file of an earlier data
    /// layout was decoded to: each object's name with its usages, or the
    /// cause for which the file could not be decoded.
    ///
    /// # Possible errors
    /// - `UsageTrackerError::FileLoadErrorRon`
    pub fn load_usage_information_from_ron_file(
        decoded: Result<Vec<(String, Vec<Timestamp>)>, String>,
    ) -> (r: Result<Self, UsageTrackerError>)
        ensures
            match decoded {
                Ok(objects) => r matches Ok(info) && info@ == transcoded(object_views(objects@)),
                Err(cause) => r matches Err(UsageTrackerError::FileLoadErrorRon(c)) && c@
                    == cause@,
            },
    {
        match decoded {
            Ok(objects) => Ok(Self::from_objects(objects)),
            Err(cause) => Err(UsageTrackerError::FileLoadErrorRon(cause)),
        }
    }

    /// Puts `usages` under `name`, in place of what may stand there.
    fn put(&mut self, name: &String, usages: Usages)
        ensures
            final(self)@ == old(self)@.insert(name@, usages@),
    {
        let (at, found) = self.find(name);
        let mut entries = self.take_entries();
        let entry = (name.clone(), usages);
        if found {
            proof {
                lemma_update(entries@, at as int, entry);
            }
            entries.set(at, entry);
        } else {
            proof {
                lemma_insert(entries@, at as int, entry);
            }
            entries.insert(at, entry);
        }
        self.usage_information = entries;
    }

    /// Hands out the list of entries, to be changed and put back, and leaves
    /// an empty list in its place.
    fn take_entries(&mut self) -> (r: Vec<(String, Usages)>)
        ensures
            r@ == old(self).usage_information@,
            ascending(entry_names(r@)),
            final(self).usage_information@ == Seq::<(String, Usages)>::empty(),
    {
        proof {
            use_type_invariant(&*self);
        }
        let mut entries: Vec<(String, Usages)> = Vec::new();
        std::mem::swap(&mut self.usage_information, &mut entries);
        entries
    }

    /// Where `name` stands in the list, or where it would have to be put.
    fn find(&self, name: &String) -> (r: (usize, bool))
        ensures
            r.0 <= self.usage_information@.len(),
            r.1 == self@.contains_key(name@),
            r.1 ==> r.0 < self.usage_information@.len() && self.usage_information@[r.0 as int].0@
                == name@,
            forall|j: int|
                0 <= j < r.0 ==> name_precedes(
                    #[trigger] entry_names(self.usage_information@)[j],
                    name@,
                ),
            !r.1 ==> forall|j: int|
                r.0 <= j < self.usage_information@.len() ==> name_precedes(
                    name@,
                    #[trigger] entry_names(self.usage_information@)[j],
                ),
    {
        proof {
            use_type_invariant(self);
            lemma_contents(self.usage_information@);
        }
        let mut i: usize = 0;
        while i < self.usage_information.len()
            invariant
                i <= self.usage_information@.len(),
                ascending(entry_names(self.usage_information@)),
                forall|j: int|
                    0 <= j < i ==> name_precedes(
                        #[trigger] entry_names(self.usage_information@)[j],
                        name@,
                    ),
            decreases self.usage_information@.len() - i,
        {
            let here = &self.usage_information[i].0;
            if *here == *name {
                proof {
                    lemma_contents(self.usage_information@);
                }
                return (i, true);
            }
            if name_before(name.as_str(), here.as_str()) {
                proof {
                    lemma_absent(self.usage_information@, name@, i as int);
                }
                return (i, false);
            }
            proof {
                if !name_precedes(here@, name@) {
                    lemma_name_total(here@, name@);
                }
                assert(entry_names(self.usage_information@)[i as int] == here@);
            }
            i += 1;
        }
        proof {
            lemma_absent(self.usage_information@, name@, i as int);
        }
        (i, false)
    }
}

impl Clone for UsageInformation {
    fn clone(&self) -> (r: Self)
        ensures
            r@ == self@,
    {
        proof {
            use_type_invariant(self);
        }
        let mut entries: Vec<(String, Usages)> = Vec::new();
        let mut i: usize = 0;
        while i < self.usage_information.len()
            invariant
                i <= self.usage_information@.len(),
                entries@.len() == i,
                forall|k: int|
                    0 <= k < i ==> (#[trigger] self.usage_information@[k]).0@ == entries@[k].0@
                        && self.usage_information@[k].1@ == entries@[k].1@,
            decreases self.usage_information@.len() - i,
        {
            let entry = &self.usage_information[i];
            entries.push((entry.0.clone(), entry.1.clone()));
            i += 1;
        }
        proof {
            lemma_same_contents(self.usage_information@, entries@);
        }
        Self { usage_information: entries }
    }
}

impl PartialEq for UsageInformation {
    fn eq(&self, other: &Self) -> (r: bool) {
        proof {
            use_type_invariant(self);
            use_type_invariant(other);
        }
        let mut i: usize = 0;
        while i < self.usage_information.len() && i < other.usage_information.len()
            invariant
                i <= self.usage_information@.len(),
                i <= other.usage_information@.len(),
                ascending(entry_names(self.usage_information@)),
                ascending(entry_names(other.usage_information@)),
                forall|k: int|
                    0 <= k < i ==> (#[trigger] self.usage_information@[k]).0@
                        == other.usage_information@[k].0@ && self.usage_information@[k].1@
                        == other.usage_information@[k].1@,
            decreases self.usage_information@.len() - i,
        {
            let mine = &self.usage_information[i];
            let theirs = &other.usage_information[i];
            if mine.0 != theirs.0 || mine.1 != theirs.1 {
                proof {
                    lemma_different_contents(
                        self.usage_information@,
                        other.usage_information@,
                        i as int,
                    );
                }
                return false;
            }
            i += 1;
        }
        if self.usage_information.len() != other.usage_information.len() {
            proof {
                lemma_different_contents(
                    self.usage_information@,
                    other.usage_information@,
                    i as int,
                );
            }
            return false;
        }
        proof {
            lemma_same_contents(self.usage_information@, other.usage_information@);
        }
        true
    }
}

impl PartialEqSpecImpl for UsageInformation {
    open spec fn obeys_eq_spec() -> bool {
        true
    }

    open spec fn eq_spec(&self, other: &Self) -> bool {
        self@ == other@
    }
}

impl Eq for UsageInformation {

}

} // verus!
