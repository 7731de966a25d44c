//! The canonical result collection: a set of hostnames with no duplicates.

use vstd::prelude::*;

verus! {

broadcast use vstd::seq_lib::group_seq_properties;

/// A deduplicated collection of discovered hostnames.
///
/// Abstractly the collection is a set of character sequences (its view);
/// concretely it stores one copy of each distinct hostname.
#[derive(Debug)]
pub struct SubdomainSet {
    items: Vec<String>,
}

impl View for SubdomainSet {
    type V = Set<Seq<char>>;

    closed spec fn view(&self) -> Set<Seq<char>> {
        self.items.deep_view().to_set()
    }
}

impl SubdomainSet {
    /// The stored hostnames, in first-insertion order.
    closed spec fn spec_seq(&self) -> Seq<Seq<char>> {
        self.items.deep_view()
    }

    /// Well-formedness: no hostname is stored twice.
    pub closed spec fn wf(&self) -> bool {
        self.items.deep_view().no_duplicates()
    }

    pub fn new() -> (r: SubdomainSet)
        ensures
            r@ == Set::<Seq<char>>::empty(),
            r.wf(),
    {
        let r = SubdomainSet { items: Vec::new() };
        proof {
            assert(r.items.deep_view() =~= Seq::<Seq<char>>::empty());
            assert(r@ =~= Set::<Seq<char>>::empty());
        }
        r
    }

    pub fn contains(&self, name: &String) -> (r: bool)
        ensures
            r == self@.contains(name@),
    {
        let n = self.items.len();
        let mut i: usize = 0;
        while i < n
            invariant
                n == self.items.len(),
                i <= n,
                forall|j: int| 0 <= j < i ==> self.items.deep_view()[j] != name@,
            decreases n - i,
        {
            if self.items[i].eq(name) {
                assert(self.items.deep_view()[i as int] == name@);
                assert(self.spec_seq().contains(name@));
                return true;
            }
            i += 1;
        }
        assert(!self.spec_seq().contains(name@));
        false
    }

    pub fn insert(&mut self, name: String)
        requires
            old(self).wf(),
        ensures
            final(self).wf(),
            final(self)@ == old(self)@.insert(name@),
    {
        if !self.contains(&name) {
            proof {
                assert(!old(self).spec_seq().contains(name@));
            }
            self.items.push(name);
            proof {
                assert(self.items.deep_view() =~= old(self).items.deep_view().push(name@));
                assert(self@ =~= old(self)@.insert(name@));
            }
        } else {
            proof {
                assert(self@ =~= old(self)@.insert(name@));
            }
        }
    }

    pub fn len(&self) -> (r: usize)
        requires
            self.wf(),
        ensures
            r == self@.len(),
    {
        proof {
            self.items.deep_view().unique_seq_to_set();
        }
        self.items.len()
    }

    pub fn is_empty(&self) -> (r: bool)
        ensures
            r == self@.is_empty(),
    {
        let n = self.items.len();
        proof {
            if n == 0 {
                assert(self@ =~= Set::<Seq<char>>::empty());
            } else {
                assert(self.spec_seq().contains(self.spec_seq()[0]));
                assert(self@.contains(self.spec_seq()[0]));
            }
        }
        n == 0
    }

    /// Fold every hostname of `other` into this collection.
    pub fn union_with(&mut self, other: &SubdomainSet)
        requires
            old(self).wf(),
        ensures
            final(self).wf(),
            final(self)@ == old(self)@.union(other@),
    {
        let n = other.items.len();
        let mut j: usize = 0;
        while j < n
            invariant
                n == other.items.len(),
                j <= n,
                self.wf(),
                self@ == old(self)@.union(other.spec_seq().take(j as int).to_set()),
            decreases n - j,
        {
            let name = other.items[j].clone();
            proof {
                assert(name@ == other.spec_seq()[j as int]);
                assert(other.spec_seq().take(j + 1) =~= other.spec_seq().take(j as int).push(
                    other.spec_seq()[j as int],
                ));
            }
            let ghost pre = self@;
            self.insert(name);
            proof {
                assert(self@ =~= old(self)@.union(other.spec_seq().take(j + 1).to_set()));
            }
            j += 1;
        }
        proof {
            assert(other.spec_seq().take(n as int) =~= other.spec_seq());
            assert(self@ =~= old(self)@.union(other@));
        }
    }

    /// Hand the stored hostnames out as a plain vector, one per set member.
    pub fn into_vec(self) -> (r: Vec<String>)
        ensures
            r.deep_view().to_set() == self@,
            self.wf() ==> r.deep_view().no_duplicates(),
    {
        self.items
    }
}

} // verus!
