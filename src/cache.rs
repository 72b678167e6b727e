use crate::home::StatusUpdate;
use crate::state::{AppState, StateKind};
use vstd::prelude::*;

verus! {

/// The last screen of each kind that was left, to resume it later.
pub struct Cache {
    storage: Vec<AppState>,
}

impl Cache {
    /// The cached screens, in the order their kinds were first cached.
    pub closed spec fn entries(&self) -> Seq<AppState> {
        self.storage@
    }

    pub open spec fn kinds(&self) -> Seq<StateKind> {
        self.entries().map_values(|s: AppState| s.spec_kind())
    }

    /// No two cached screens share a kind, and each one is well formed.
    pub open spec fn wf(&self) -> bool {
        &&& forall|i: int, j: int|
            0 <= i < j < self.entries().len() ==> #[trigger] self.entries()[i].spec_kind()
                != #[trigger] self.entries()[j].spec_kind()
        &&& forall|i: int| 0 <= i < self.entries().len() ==> (#[trigger] self.entries()[i])@.wf()
    }

    pub fn new() -> (r: Cache)
        ensures
            r.entries().len() == 0,
            r.wf(),
    {
        Cache { storage: Vec::new() }
    }

    pub fn len(&self) -> (r: usize)
        ensures
            r == self.entries().len(),
    {
        self.storage.len()
    }

    /// Caches a screen: it replaces, in its place, the cached screen of the
    /// same kind, or else goes at the end. The index it went to comes back.
    pub fn add(&mut self, state: AppState) -> (r: usize)
        requires
            old(self).wf(),
            state@.wf(),
        ensures
            final(self).wf(),
            r < final(self).entries().len(),
            final(self).entries()[r as int] == state,
            old(self).kinds().contains(state.spec_kind()) ==> r < old(self).entries().len()
                && old(self).entries()[r as int].spec_kind() == state.spec_kind()
                && final(self).entries() == old(self).entries().update(r as int, state),
            !old(self).kinds().contains(state.spec_kind()) ==> r == old(self).entries().len()
                && final(self).entries() == old(self).entries().push(state),
    {
        let kind = state.kind();
        let mut i: usize = 0;
        while i < self.storage.len()
            invariant
                i <= self.storage.len(),
                self.storage@ == old(self).storage@,
                old(self).wf(),
                state@.wf(),
                kind == state.spec_kind(),
                forall|j: int| 0 <= j < i ==> #[trigger] self.storage@[j].spec_kind() != kind,
            decreases self.storage.len() - i,
        {
            if self.storage[i].kind() == kind {
                self.storage.set(i, state);
                proof {
                    assert(old(self).kinds()[i as int] == kind);
                    assert forall|a: int, b: int|
                        0 <= a < b < self.entries().len() implies #[trigger] self.entries()[a].spec_kind()
                        != #[trigger] self.entries()[b].spec_kind() by {
                        assert(old(self).entries()[a].spec_kind() != old(self).entries()[b].spec_kind());
                        if a == i as int {
                            assert(self.entries()[a].spec_kind() == old(self).entries()[a].spec_kind());
                        }
                        if b == i as int {
                            assert(self.entries()[b].spec_kind() == old(self).entries()[b].spec_kind());
                        }
                    }
                }
                return i;
            }
            i = i + 1;
        }
        proof {
            assert forall|j: int| 0 <= j < old(self).kinds().len() implies old(self).kinds()[j]
                != kind by {
                assert(self.storage@[j].spec_kind() != kind);
            }
        }
        self.storage.push(state);
        self.storage.len() - 1
    }

    /// A fresh screen built from the one cached at `index`.
    pub fn get(&self, index: usize) -> (r: Option<AppState>)
        requires
            self.wf(),
        ensures
            index < self.entries().len() ==> r is Some && r.unwrap()@ == self.entries()[index as int]@.resumed()
                && r.unwrap().spec_kind() == self.entries()[index as int].spec_kind()
                && r.unwrap()@.wf(),
            index >= self.entries().len() ==> r is None,
    {
        if index < self.storage.len() {
            Some(self.storage[index].resume())
        } else {
            None
        }
    }

    /// Applies status results to every cached screen that shows channels,
    /// so that a screen brought back later shows them.
    pub fn receive(&mut self, updates: &Vec<StatusUpdate>)
        requires
            old(self).wf(),
        ensures
            final(self).wf(),
            final(self).entries().len() == old(self).entries().len(),
            forall|i: int|
                0 <= i < old(self).entries().len() ==> (#[trigger] final(self).entries()[i])@
                    == old(self).entries()[i]@.received(updates@) && final(self).entries()[i].spec_kind()
                    == old(self).entries()[i].spec_kind(),
    {
        let mut i: usize = 0;
        while i < self.storage.len()
            invariant
                i <= self.storage.len(),
                old(self).wf(),
                self.storage@.len() == old(self).storage@.len(),
                forall|j: int|
                    0 <= j < i ==> (#[trigger] self.storage@[j])@ == old(self).storage@[j]@.received(
                        updates@,
                    ) && self.storage@[j].spec_kind() == old(self).storage@[j].spec_kind()
                        && self.storage@[j]@.wf(),
                forall|j: int| i <= j < self.storage@.len() ==> #[trigger] self.storage@[j] == old(
                    self).storage@[j],
            decreases self.storage.len() - i,
        {
            let mut state = self.storage.remove(i);
            state.receive(updates);
            self.storage.insert(i, state);
            i = i + 1;
        }
        proof {
            assert forall|a: int, b: int|
                0 <= a < b < self.entries().len() implies #[trigger] self.entries()[a].spec_kind()
                != #[trigger] self.entries()[b].spec_kind() by {
                assert(old(self).entries()[a].spec_kind() != old(self).entries()[b].spec_kind());
            }
        }
    }
}

} // verus!
