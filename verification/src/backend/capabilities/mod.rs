//! Backend capabilities — what a given backend can actually do.
//!
//! The console uses this to decide which screens and features to expose, so
//! it never assumes that every backend supports every operation.

pub mod caps;

use vstd::prelude::*;

verus! {

/// A set of capability identifiers.
#[derive(Debug, PartialEq, Eq)]
pub struct Capabilities {
    /// The identifiers, each at most once.
    pub available: Vec<String>,
}

/// The set of identifiers a list holds.
pub open spec fn names_set(v: Seq<String>) -> Set<Seq<char>> {
    Set::new(|c: Seq<char>| exists|k: int| 0 <= k < v.len() && (#[trigger] v[k])@ == c)
}

impl View for Capabilities {
    type V = Set<Seq<char>>;

    open spec fn view(&self) -> Set<Seq<char>> {
        names_set(self.available@)
    }
}

impl Capabilities {
    /// No identifier occurs twice (as in a set).
    pub open spec fn wf(&self) -> bool {
        forall|i: int, j: int|
            0 <= i < j < self.available@.len() ==> self.available@[i]@ != self.available@[j]@
    }

    /// No capabilities.
    pub fn new() -> (c: Self)
        ensures
            c.wf(),
            c@ == Set::<Seq<char>>::empty(),
    {
        let c = Capabilities { available: Vec::new() };
        assert(c@ =~= Set::<Seq<char>>::empty());
        c
    }

    /// Whether the capability `cap` is available.
    pub fn has(&self, cap: &str) -> (b: bool)
        ensures
            b == self@.contains(cap@),
    {
        let k = cap.to_owned();
        let mut i: usize = 0;
        while i < self.available.len()
            invariant
                i <= self.available@.len(),
                k@ == cap@,
                forall|j: int| 0 <= j < i ==> self.available@[j]@ != cap@,
            decreases self.available@.len() - i,
        {
            if self.available[i] == k {
                assert(self.available@[i as int]@ == cap@);
                return true;
            }
            i = i + 1;
        }
        false
    }

    /// Adds the capability `cap` (a no-op when it is already there).
    pub fn insert(&mut self, cap: &str)
        requires
            old(self).wf(),
        ensures
            final(self).wf(),
            final(self)@ == old(self)@.insert(cap@),
    {
        if self.has(cap) {
            assert(self@ =~= old(self)@.insert(cap@));
            return ;
        }
        let ghost v0 = self.available@;
        self.available.push(cap.to_owned());
        proof {
            assert forall|c: Seq<char>| self@.contains(c) <==> old(self)@.insert(cap@).contains(c) by {
                if self@.contains(c) {
                    let k = choose|k: int| 0 <= k < self.available@.len() && (#[trigger] self.available@[k])@ == c;
                    if k < v0.len() {
                        assert(v0[k]@ == c);
                    }
                }
                if old(self)@.contains(c) {
                    let k = choose|k: int| 0 <= k < v0.len() && (#[trigger] v0[k])@ == c;
                    assert(self.available@[k]@ == c);
                }
                if c == cap@ {
                    assert(self.available@[v0.len() as int]@ == c);
                }
            }
            assert(self@ =~= old(self)@.insert(cap@));
        }
    }
}


/// After a capability is added it is available, and every capability that
/// was available still is.
pub proof fn law_has_after_insert(before: Set<Seq<char>>, after: Set<Seq<char>>, cap: Seq<char>)
    requires
        after == before.insert(cap),
    ensures
        after.contains(cap),
        forall|c: Seq<char>| before.contains(c) ==> #[trigger] after.contains(c),
{
}

} // verus!
