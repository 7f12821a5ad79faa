//! What belongs to a subclass, gathered while the declarations are gone through.

use crate::names::SubclassName;
use crate::text;
use crate::text::Text;
use vstd::prelude::*;

verus! {

/// Declarations grouped by the subclass that they belong to. Within a group they keep
/// the order in which they were added.
pub struct BySubclass<'a, T> {
    ids: Vec<&'a String>,
    groups: Vec<Vec<&'a T>>,
}

impl<'a, T: View> BySubclass<'a, T> {
    /// Every subclass has at most one group.
    pub closed spec fn wf(&self) -> bool {
        &&& self.ids@.len() == self.groups@.len()
        &&& forall|i: int, j: int|
            #![trigger self.ids@[i], self.ids@[j]]
            0 <= i < j < self.ids@.len() ==> self.ids@[i]@ != self.ids@[j]@
    }

    closed spec fn is_at(&self, id: Text, i: int) -> bool {
        0 <= i < self.ids@.len() && self.ids@[i]@ == id
    }

    /// The group of the subclass `id`. It is empty if nothing was added to it.
    pub closed spec fn group(&self, id: Text) -> Seq<T::V> {
        if exists|i: int| self.is_at(id, i) {
            text::views(self.groups@[choose|i: int| self.is_at(id, i)]@)
        } else {
            Seq::empty()
        }
    }

    proof fn lemma_group_at(&self, id: Text, i: int)
        requires
            self.wf(),
            self.is_at(id, i),
        ensures
            self.group(id) == text::views(self.groups@[i]@),
    {
        let k = choose|k: int| self.is_at(id, k);
        assert(self.is_at(id, k));
        if k < i {
            assert(self.ids@[k]@ != self.ids@[i]@);
        } else if i < k {
            assert(self.ids@[i]@ != self.ids@[k]@);
        }
    }

    /// Nothing yet.
    pub fn new() -> (r: Self)
        ensures
            r.wf(),
            forall|id: Text| #[trigger] r.group(id) == Seq::<T::V>::empty(),
    {
        BySubclass { ids: Vec::new(), groups: Vec::new() }
    }

    fn find(&self, id: &String) -> (r: Option<usize>)
        ensures
            match r {
                Some(i) => self.is_at(id@, i as int),
                None => forall|i: int| !self.is_at(id@, i),
            },
    {
        for i in 0..self.ids.len()
            invariant
                forall|j: int| 0 <= j < i ==> !self.is_at(id@, j),
        {
            if *self.ids[i] == *id {
                return Some(i);
            }
        }
        None
    }

    /// Adds `item` at the end of the group of `subclass`.
    pub fn push(&mut self, subclass: &'a SubclassName, item: &'a T)
        requires
            old(self).wf(),
        ensures
            final(self).wf(),
            forall|id: Text| #[trigger]
                final(self).group(id) == if id == subclass@.id {
                    old(self).group(id).push(item@)
                } else {
                    old(self).group(id)
                },
    {
        match self.find(&subclass.id) {
            Some(i) => {
                proof {
                    old(self).lemma_group_at(subclass@.id, i as int);
                }
                self.groups[i].push(item);
                assert forall|id: Text| #[trigger]
                    self.group(id) == if id == subclass@.id {
                        old(self).group(id).push(item@)
                    } else {
                        old(self).group(id)
                    } by {
                    if exists|k: int| self.is_at(id, k) {
                        let k = choose|k: int| self.is_at(id, k);
                        assert(old(self).is_at(id, k));
                        old(self).lemma_group_at(id, k);
                        self.lemma_group_at(id, k);
                        if id == subclass@.id {
                            self.lemma_group_at(id, i as int);
                            assert(self.group(id) =~= old(self).group(id).push(item@));
                        }
                    } else {
                        assert(forall|k: int| old(self).is_at(id, k) ==> self.is_at(id, k));
                    }
                }
            },
            None => {
                let mut group: Vec<&'a T> = Vec::new();
                group.push(item);
                self.ids.push(&subclass.id);
                self.groups.push(group);
                let ghost last = old(self).ids@.len() as int;
                assert forall|i: int, j: int|
                    #![trigger self.ids@[i], self.ids@[j]]
                    0 <= i < j < self.ids@.len() implies self.ids@[i]@ != self.ids@[j]@ by {
                    assert(!old(self).is_at(subclass@.id, i));
                    assert(self.ids@[i] == old(self).ids@[i]);
                    if j < last {
                        assert(old(self).ids@[i]@ != old(self).ids@[j]@);
                    }
                }
                assert forall|id: Text| #[trigger]
                    self.group(id) == if id == subclass@.id {
                        old(self).group(id).push(item@)
                    } else {
                        old(self).group(id)
                    } by {
                    if id == subclass@.id {
                        assert(self.is_at(id, last));
                        self.lemma_group_at(id, last);
                        assert(self.group(id) =~= old(self).group(id).push(item@));
                    } else if exists|k: int| self.is_at(id, k) {
                        let k = choose|k: int| self.is_at(id, k);
                        assert(old(self).is_at(id, k));
                        old(self).lemma_group_at(id, k);
                        self.lemma_group_at(id, k);
                    } else {
                        assert(forall|k: int| old(self).is_at(id, k) ==> self.is_at(id, k));
                    }
                }
            },
        }
    }

    /// Takes the group of `subclass` out. Nothing is left of it.
    pub fn remove(&mut self, subclass: &SubclassName) -> (r: Vec<&'a T>)
        requires
            old(self).wf(),
        ensures
            text::views(r@) == old(self).group(subclass@.id),
            final(self).wf(),
            forall|id: Text| #[trigger]
                final(self).group(id) == if id == subclass@.id {
                    Seq::empty()
                } else {
                    old(self).group(id)
                },
    {
        match self.find(&subclass.id) {
            Some(i) => {
                proof {
                    old(self).lemma_group_at(subclass@.id, i as int);
                }
                self.ids.remove(i);
                let group = self.groups.remove(i);
                assert(forall|k: int|
                    0 <= k < self.ids@.len() ==> #[trigger] self.ids@[k] == old(self).ids@[if k < i {
                        k
                    } else {
                        k + 1
                    }]);
                assert forall|id: Text| #[trigger]
                    self.group(id) == if id == subclass@.id {
                        Seq::empty()
                    } else {
                        old(self).group(id)
                    } by {
                    if exists|k: int| self.is_at(id, k) {
                        let k = choose|k: int| self.is_at(id, k);
                        let old_k = if k < i {
                            k
                        } else {
                            k + 1
                        };
                        assert(old(self).is_at(id, old_k));
                        old(self).lemma_group_at(id, old_k);
                        self.lemma_group_at(id, k);
                        assert(old_k != i);
                        assert(id != subclass@.id);
                    } else if id != subclass@.id && exists|k: int| old(self).is_at(id, k) {
                        let k = choose|k: int| old(self).is_at(id, k);
                        assert(self.is_at(id, if k < i { k } else { k - 1 }));
                    }
                }
                group
            },
            None => {
                let none: Vec<&'a T> = Vec::new();
                assert(text::views(none@) =~= Seq::<T::V>::empty());
                none
            },
        }
    }
}

} // verus!
