//! The domains of a run, each with what the run knows about it.
//!
//! A domain is entered once, when the first candidate on it comes up, and
//! never again: what was resolved and classified for it is shared by every
//! later candidate on the same domain. Entries are only ever added.

use crate::smtp::domain::DomainVerificationState;
use vstd::prelude::*;

verus! {

/// The domains of a run, by name, each with its state.
#[derive(Debug)]
pub struct DomainTable {
    /// The names, in lower case, in the order in which they were entered.
    pub names: Vec<Vec<u8>>,
    /// The state of each domain, at the position of its name.
    pub states: Vec<DomainVerificationState>,
}

/// The names of a table as byte sequences.
pub open spec fn name_bytes(names: Seq<Vec<u8>>) -> Seq<Seq<u8>> {
    Seq::new(names.len(), |i: int| names[i]@)
}

impl DomainTable {
    /// The names of the table.
    pub open spec fn keys(&self) -> Seq<Seq<u8>> {
        name_bytes(self.names@)
    }

    /// Whether the table is consistent: every name has a state, no name
    /// occurs twice, and every state is consistent.
    pub open spec fn well_formed(&self) -> bool {
        &&& self.names@.len() == self.states@.len()
        &&& forall|i: int, j: int|
            0 <= i < j < self.names@.len() ==> (#[trigger] self.names@[i])@
                != (#[trigger] self.names@[j])@
        &&& forall|i: int|
            0 <= i < self.states@.len() ==> (#[trigger] self.states@[i]).well_formed()
    }

    /// Whether the domain `name` is entered at position `at`.
    pub open spec fn holds_at(&self, name: Seq<u8>, at: int) -> bool {
        0 <= at < self.names@.len() && self.names@[at]@ == name
    }

    /// Whether the domain `name` is entered.
    pub open spec fn holds(&self, name: Seq<u8>) -> bool {
        exists|at: int| self.holds_at(name, at)
    }

    /// An empty table.
    pub fn new() -> (table: DomainTable)
        ensures
            table.names@.len() == 0,
            table.states@.len() == 0,
            table.well_formed(),
    {
        DomainTable { names: Vec::new(), states: Vec::new() }
    }

    /// Finds the position at which a domain is entered, if it is.
    pub fn position(&self, name: &[u8]) -> (at: Option<usize>)
        ensures
            at is Some <==> self.holds(name@),
            at matches Some(i) ==> self.holds_at(name@, i as int),
    {
        let mut i: usize = 0;
        while i < self.names.len()
            invariant
                i <= self.names.len(),
                forall|k: int| 0 <= k < i ==> !self.holds_at(name@, k),
            decreases self.names.len() - i,
        {
            if bytes_equal(self.names[i].as_slice(), name) {
                assert(self.holds_at(name@, i as int));
                return Some(i);
            }
            i += 1;
        }
        None
    }

    /// Enters a domain with the state `fresh` unless it is entered already,
    /// and says where it stands. A domain that is entered keeps its state,
    /// and `fresh` is dropped; every other entry stays as it is.
    pub fn enter(&mut self, name: Vec<u8>, fresh: DomainVerificationState) -> (at: usize)
        requires
            old(self).well_formed(),
            fresh.well_formed(),
        ensures
            final(self).well_formed(),
            final(self).holds_at(name@, at as int),
            old(self).holds(name@) ==> *final(self) == *old(self),
            !old(self).holds(name@) ==> {
                &&& at == old(self).names@.len()
                &&& final(self).names@ == old(self).names@.push(name)
                &&& final(self).states@ == old(self).states@.push(fresh)
            },
    {
        match self.position(name.as_slice()) {
            Some(at) => at,
            None => {
                let at = self.names.len();
                proof {
                    assert forall|i: int| 0 <= i < self.names@.len() implies (
                    #[trigger] self.names@[i])@ != name@ by {
                        if self.names@[i]@ == name@ {
                            assert(self.holds_at(name@, i));
                        }
                    }
                }
                self.names.push(name);
                self.states.push(fresh);
                at
            },
        }
    }
}

/// Says whether two byte strings are equal.
pub fn bytes_equal(a: &[u8], b: &[u8]) -> (r: bool)
    ensures
        r == (a@ == b@),
{
    if a.len() != b.len() {
        return false;
    }
    let mut i: usize = 0;
    while i < a.len()
        invariant
            i <= a.len(),
            a.len() == b.len(),
            forall|k: int| 0 <= k < i ==> a@[k] == b@[k],
        decreases a.len() - i,
    {
        if a[i] != b[i] {
            return false;
        }
        i += 1;
    }
    proof {
        assert(a@ =~= b@);
    }
    true
}

/// A domain is entered at one position only.
pub proof fn lemma_one_entry_per_domain(table: DomainTable, name: Seq<u8>, a: int, b: int)
    requires
        table.well_formed(),
        table.holds_at(name, a),
        table.holds_at(name, b),
    ensures
        a == b,
{
    if a < b {
        assert(table.names@[a]@ != table.names@[b]@);
    } else if b < a {
        assert(table.names@[b]@ != table.names@[a]@);
    }
}

} // verus!
