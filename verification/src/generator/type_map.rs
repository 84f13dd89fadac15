//! A map from shader types to lists of values, where types are told apart as the
//! language does: structures by their names.
use crate::ast::types::{lemma_type_eq_symm, lemma_type_eq_trans, type_eq, DataType};
use vstd::prelude::*;

verus! {

/// Lists of values filed under types.
pub struct TypeMap<V> {
    entries: Vec<(DataType, Vec<V>)>,
}

impl<V> TypeMap<V> {
    /// No two entries are filed under equal types.
    pub closed spec fn wf(&self) -> bool {
        forall|a: int, b: int|
            0 <= a < self.entries@.len() && 0 <= b < self.entries@.len() && a != b ==> !type_eq(
                #[trigger] self.entries@[a].0,
                #[trigger] self.entries@[b].0,
            )
    }

    /// The values filed under type `k`, in the order they were added.
    pub closed spec fn values_for(&self, k: DataType) -> Seq<V> {
        if exists|j: int| 0 <= j < self.entries@.len() && type_eq(#[trigger] self.entries@[j].0, k) {
            let j = choose|j: int| 0 <= j < self.entries@.len() && type_eq(#[trigger] self.entries@[j].0, k);
            self.entries@[j].1@
        } else {
            Seq::empty()
        }
    }

    /// An empty map.
    pub fn new() -> (r: TypeMap<V>)
        ensures
            r.wf(),
            forall|k: DataType| #[trigger] r.values_for(k) == Seq::<V>::empty(),
    {
        TypeMap { entries: Vec::new() }
    }

    /// The entry of a wf map filed under a type equal to `k`, if any, holds what is
    /// filed under `k`.
    proof fn lemma_entry_for(&self, j: int, k: DataType)
        requires
            self.wf(),
            0 <= j < self.entries@.len(),
            type_eq(self.entries@[j].0, k),
        ensures
            self.values_for(k) == self.entries@[j].1@,
    {
        let c = choose|c: int| 0 <= c < self.entries@.len() && type_eq(#[trigger] self.entries@[c].0, k);
        if c != j {
            lemma_type_eq_symm(self.entries@[c].0, k);
            lemma_type_eq_trans(self.entries@[j].0, k, self.entries@[c].0);
        }
    }

    /// The values filed under `k`, if any are.
    pub fn get(&self, k: &DataType) -> (r: Option<&Vec<V>>)
        requires
            self.wf(),
        ensures
            match r {
                Some(v) => v@ == self.values_for(*k),
                None => self.values_for(*k) == Seq::<V>::empty(),
            },
    {
        match self.find_entry(k) {
            Some(j) => {
                proof {
                    self.lemma_entry_for(j as int, *k);
                }
                Some(&self.entries[j].1)
            },
            None => None,
        }
    }

    /// The entry filed under a type equal to `key`, if any.
    fn find_entry(&self, key: &DataType) -> (r: Option<usize>)
        ensures
            match r {
                Some(j) => j < self.entries@.len() && type_eq(self.entries@[j as int].0, *key),
                None => forall|c: int| 0 <= c < self.entries@.len() ==> !type_eq(#[trigger] self.entries@[c].0, *key),
            },
    {
        let mut j: usize = 0;
        while j < self.entries.len()
            invariant
                j <= self.entries@.len(),
                forall|c: int| 0 <= c < j ==> !type_eq(#[trigger] self.entries@[c].0, *key),
            decreases self.entries.len() - j,
        {
            if self.entries[j].0.eq_type(key) {
                return Some(j);
            }
            j = j + 1;
        }
        None
    }

    /// Where entry `j`'s values gain `v`, each type equal to its key gains `v`.
    proof fn lemma_push_into_entry(&self, old_map: &TypeMap<V>, j: int, v: V)
        requires
            old_map.wf(),
            0 <= j < old_map.entries@.len(),
            self.entries@.len() == old_map.entries@.len(),
            forall|a: int| 0 <= a < self.entries@.len() && a != j ==> #[trigger] self.entries@[a] == old_map.entries@[a],
            self.entries@[j].0 == old_map.entries@[j].0,
            self.entries@[j].1@ == old_map.entries@[j].1@.push(v),
        ensures
            self.wf(),
            forall|k: DataType|
                #[trigger] self.values_for(k) == old_map.values_for(k) + if type_eq(old_map.entries@[j].0, k) {
                    seq![v]
                } else {
                    Seq::<V>::empty()
                },
    {
        assert forall|a: int| 0 <= a < self.entries@.len() implies #[trigger] self.entries@[a].0 == old_map.entries@[a].0 by {
            if a != j {
                assert(self.entries@[a] == old_map.entries@[a]);
            }
        }
        assert forall|k: DataType| #[trigger] self.values_for(k) == old_map.values_for(k) + if type_eq(
            old_map.entries@[j].0,
            k,
        ) {
            seq![v]
        } else {
            Seq::<V>::empty()
        } by {
            if type_eq(old_map.entries@[j].0, k) {
                self.lemma_entry_for(j, k);
                old_map.lemma_entry_for(j, k);
            } else if exists|c: int| 0 <= c < old_map.entries@.len() && type_eq(#[trigger] old_map.entries@[c].0, k) {
                let c = choose|c: int| 0 <= c < old_map.entries@.len() && type_eq(#[trigger] old_map.entries@[c].0, k);
                assert(c != j);
                assert(self.entries@[c] == old_map.entries@[c]);
                self.lemma_entry_for(c, k);
                old_map.lemma_entry_for(c, k);
                assert(old_map.values_for(k) + Seq::<V>::empty() =~= old_map.values_for(k));
            } else {
                assert(!exists|c: int| 0 <= c < self.entries@.len() && type_eq(#[trigger] self.entries@[c].0, k));
                assert(old_map.values_for(k) + Seq::<V>::empty() =~= old_map.values_for(k));
            }
        }
    }

    /// Adding an entry under a type that no entry's key equals files `v` under exactly
    /// the types equal to it.
    proof fn lemma_push_entry(&self, old_map: &TypeMap<V>, key: DataType, v: V)
        requires
            old_map.wf(),
            forall|c: int| 0 <= c < old_map.entries@.len() ==> !type_eq(#[trigger] old_map.entries@[c].0, key),
            self.entries@.len() == old_map.entries@.len() + 1,
            forall|c: int| 0 <= c < old_map.entries@.len() ==> #[trigger] self.entries@[c] == old_map.entries@[c],
            self.entries@.last().0 == key,
            self.entries@.last().1@ == seq![v],
        ensures
            self.wf(),
            forall|k: DataType|
                #[trigger] self.values_for(k) == old_map.values_for(k) + if type_eq(key, k) {
                    seq![v]
                } else {
                    Seq::<V>::empty()
                },
    {
        let n = old_map.entries@.len() as int;
        assert forall|a: int, b: int|
            0 <= a < self.entries@.len() && 0 <= b < self.entries@.len() && a != b implies !type_eq(
            #[trigger] self.entries@[a].0,
            #[trigger] self.entries@[b].0,
        ) by {
            if a == n {
                if type_eq(self.entries@[a].0, self.entries@[b].0) {
                    lemma_type_eq_symm(self.entries@[a].0, self.entries@[b].0);
                    assert(self.entries@[b] == old_map.entries@[b]);
                }
            } else if b == n {
                assert(self.entries@[a] == old_map.entries@[a]);
            } else {
                assert(self.entries@[a] == old_map.entries@[a]);
                assert(self.entries@[b] == old_map.entries@[b]);
            }
        }
        assert forall|k: DataType| #[trigger] self.values_for(k) == old_map.values_for(k) + if type_eq(key, k) {
            seq![v]
        } else {
            Seq::<V>::empty()
        } by {
            if type_eq(key, k) {
                self.lemma_entry_for(n, k);
                if exists|c: int| 0 <= c < old_map.entries@.len() && type_eq(#[trigger] old_map.entries@[c].0, k) {
                    let c = choose|c: int| 0 <= c < old_map.entries@.len() && type_eq(#[trigger] old_map.entries@[c].0, k);
                    lemma_type_eq_symm(key, k);
                    lemma_type_eq_trans(old_map.entries@[c].0, k, key);
                }
                assert(Seq::<V>::empty() + seq![v] =~= seq![v]);
            } else if exists|c: int| 0 <= c < old_map.entries@.len() && type_eq(#[trigger] old_map.entries@[c].0, k) {
                let c = choose|c: int| 0 <= c < old_map.entries@.len() && type_eq(#[trigger] old_map.entries@[c].0, k);
                assert(self.entries@[c] == old_map.entries@[c]);
                self.lemma_entry_for(c, k);
                old_map.lemma_entry_for(c, k);
                assert(old_map.values_for(k) + Seq::<V>::empty() =~= old_map.values_for(k));
            } else {
                assert forall|c: int| 0 <= c < self.entries@.len() implies !type_eq(#[trigger] self.entries@[c].0, k) by {
                    if c < n {
                        assert(self.entries@[c] == old_map.entries@[c]);
                    }
                }
                assert(old_map.values_for(k) + Seq::<V>::empty() =~= old_map.values_for(k));
            }
        }
    }

    /// Files `v` under `key`: after the values already filed under it, or in a new
    /// entry where no entry's type equals `key`.
    pub fn push(&mut self, key: &DataType, v: V)
        requires
            old(self).wf(),
        ensures
            final(self).wf(),
            forall|k: DataType|
                #[trigger] final(self).values_for(k) == old(self).values_for(k) + if type_eq(*key, k) {
                    seq![v]
                } else {
                    Seq::<V>::empty()
                },
    {
        let ghost before = *self;
        match self.find_entry(key) {
            Some(j) => {
                let ghost e0 = before.entries@[j as int];
                let mut e = self.entries.remove(j);
                e.1.push(v);
                self.entries.insert(j, e);
                proof {
                    assert(self.entries@ =~= before.entries@.update(j as int, e));
                    self.lemma_push_into_entry(&before, j as int, v);
                    assert forall|k: DataType| #[trigger] self.values_for(k) == before.values_for(k) + if type_eq(*key, k) {
                        seq![v]
                    } else {
                        Seq::<V>::empty()
                    } by {
                        let ej = e0.0;
                        if type_eq(*key, k) {
                            lemma_type_eq_trans(ej, *key, k);
                        }
                        if type_eq(ej, k) {
                            lemma_type_eq_symm(ej, *key);
                            lemma_type_eq_trans(*key, ej, k);
                        }
                    }
                }
            },
            None => {
                let mut vs: Vec<V> = Vec::new();
                vs.push(v);
                self.entries.push((key.clone(), vs));
                proof {
                    assert(self.entries@.last().1@ =~= seq![v]);
                    self.lemma_push_entry(&before, *key, v);
                }
            },
        }
    }
}

} // verus!
