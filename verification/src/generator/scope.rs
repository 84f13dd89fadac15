//! The variables in scope while generating a function body, filed by the types they
//! give access to.
use crate::ast::types::{lemma_type_eq_refl, type_eq, DataType, MemoryViewType};
use crate::generator::builtins::keys_of;
use crate::generator::type_map::TypeMap;
use crate::generator::accessible_types_of;
use crate::harness::types::{append_decimal, decimal_digits};
use rand::rngs::StdRng;
use rand::seq::IteratorRandom;
use vstd::prelude::*;
use vstd::string::StringExecFns;

verus! {

/// `rand::rngs::StdRng`, the random generator the generator draws from, carried
/// through opaquely.
#[verifier::external_type_specification]
#[verifier::external_body]
pub struct ExStdRng(StdRng);

/// Calls `rand::seq::IteratorRandom::choose` on the range `0..n`. For an iterator of
/// known length its source gives `None` where the length is zero and otherwise the
/// element at an index drawn below the length; which index comes out is left to `rng`.
#[verifier::external_body]
pub(crate) fn choose_index(rng: &mut StdRng, n: usize) -> (r: Option<usize>)
    ensures
        match r {
            None => n == 0,
            Some(i) => i < n,
        },
{
    (0..n).choose(rng)
}

/// The number of `keys` that equal `k`.
pub open spec fn matching_keys(keys: Seq<DataType>, k: DataType) -> nat
    decreases keys.len(),
{
    if keys.len() == 0 {
        0
    } else {
        matching_keys(keys.drop_last(), k) + if type_eq(keys.last(), k) {
            1nat
        } else {
            0nat
        }
    }
}

/// A named symbol by its views.
pub type SymbolView = (Seq<char>, DataType);

/// The views of symbols.
pub open spec fn symbols_view(s: Seq<(String, DataType)>) -> Seq<SymbolView> {
    s.map_values(|e: (String, DataType)| (e.0@, e.1))
}

/// The symbols in scope.
pub struct Scope {
    next_name: u32,
    symbols: TypeMap<(String, DataType)>,
    mutables: Vec<(String, DataType)>,
    references: Vec<(String, MemoryViewType)>,
}

impl Scope {
    /// The symbol table has no two entries under equal types.
    pub closed spec fn wf(&self) -> bool {
        self.symbols.wf()
    }

    /// The symbols through which a value of type `ty` can be reached, in the order
    /// they were added.
    pub closed spec fn symbols_of(&self, ty: DataType) -> Seq<SymbolView> {
        symbols_view(self.symbols.values_for(ty))
    }

    /// The symbols that may be assigned to, in the order they were added.
    pub closed spec fn mutables(&self) -> Seq<SymbolView> {
        symbols_view(self.mutables@)
    }

    /// The mutable symbols that are references, with what they refer to.
    pub closed spec fn references(&self) -> Seq<(Seq<char>, MemoryViewType)> {
        self.references@.map_values(|e: (String, MemoryViewType)| (e.0@, e.1))
    }

    /// The number in the next fresh name.
    pub closed spec fn next_index(&self) -> u32 {
        self.next_name
    }

    /// A scope with no symbols.
    pub fn empty() -> (r: Scope)
        ensures
            r.wf(),
            forall|k: DataType| #[trigger] r.symbols_of(k) == Seq::<SymbolView>::empty(),
            r.mutables() == Seq::<SymbolView>::empty(),
            r.references() == Seq::<(Seq<char>, MemoryViewType)>::empty(),
            r.next_index() == 0,
    {
        let r = Scope { next_name: 0, symbols: TypeMap::new(), mutables: Vec::new(), references: Vec::new() };
        assert forall|k: DataType| #[trigger] r.symbols_of(k) == Seq::<SymbolView>::empty() by {
            assert(r.symbols_of(k) =~= Seq::<SymbolView>::empty());
        }
        assert(r.mutables() =~= Seq::<SymbolView>::empty());
        assert(r.references() =~= Seq::<(Seq<char>, MemoryViewType)>::empty());
        r
    }

    /// Whether any symbol may be assigned to.
    pub fn has_mutables(&self) -> (r: bool)
        ensures
            r == (self.mutables().len() > 0),
    {
        self.mutables.len() > 0
    }

    /// Whether any mutable symbol is a reference.
    pub fn has_references(&self) -> (r: bool)
        ensures
            r == (self.references().len() > 0),
    {
        self.references.len() > 0
    }

    /// The symbols through which a value of type `ty` can be reached.
    pub fn of_type(&self, ty: &DataType) -> (r: &[(String, DataType)])
        requires
            self.wf(),
        ensures
            symbols_view(r@) == self.symbols_of(*ty),
    {
        match self.symbols.get(ty) {
            Some(v) => v.as_slice(),
            None => {
                assert(symbols_view(Seq::<(String, DataType)>::empty()) =~= Seq::<SymbolView>::empty());
                &[]
            },
        }
    }

    /// One of the mutable symbols, as `rng` picks it.
    pub fn choose_mutable(&self, rng: &mut StdRng) -> (r: (&String, &DataType))
        requires
            self.mutables().len() > 0,
        ensures
            exists|i: int| 0 <= i < self.mutables().len() && #[trigger] self.mutables()[i] == (r.0@, *r.1),
    {
        let i = choose_index(rng, self.mutables.len()).unwrap();
        let e = &self.mutables[i];
        assert(self.mutables()[i as int] == (e.0@, e.1));
        (&e.0, &e.1)
    }

    /// One of the references among the mutable symbols, as `rng` picks it.
    pub fn choose_reference(&self, rng: &mut StdRng) -> (r: (&String, &MemoryViewType))
        requires
            self.references().len() > 0,
        ensures
            exists|i: int| 0 <= i < self.references().len() && #[trigger] self.references()[i] == (r.0@, *r.1),
    {
        let i = choose_index(rng, self.references.len()).unwrap();
        let e = &self.references[i];
        assert(self.references()[i as int] == (e.0@, e.1));
        (&e.0, &e.1)
    }

    /// Adds a symbol that may be read only.
    pub fn insert_readonly(&mut self, name: String, data_type: DataType)
        requires
            old(self).wf(),
        ensures
            final(self).wf(),
            forall|k: DataType|
                #[trigger] final(self).symbols_of(k) == old(self).symbols_of(k) + Seq::new(
                    matching_keys(keys_of(data_type), k),
                    |i: int| (name@, data_type),
                ),
            final(self).mutables() == old(self).mutables(),
            final(self).references() == old(self).references(),
            final(self).next_index() == old(self).next_index(),
    {
        self.insert_symbol(&name, &data_type);
    }

    /// Adds a symbol that may be assigned to; a reference is also listed among the
    /// references.
    pub fn insert_mutable(&mut self, name: String, data_type: DataType)
        requires
            old(self).wf(),
        ensures
            final(self).wf(),
            forall|k: DataType|
                #[trigger] final(self).symbols_of(k) == old(self).symbols_of(k) + Seq::new(
                    matching_keys(keys_of(data_type), k),
                    |i: int| (name@, data_type),
                ),
            final(self).mutables() == old(self).mutables().push((name@, data_type)),
            final(self).references() == match data_type {
                DataType::Ref(view) => old(self).references().push((name@, view)),
                _ => old(self).references(),
            },
            final(self).next_index() == old(self).next_index(),
    {
        self.insert_symbol(&name, &data_type);
        let ghost after = *self;
        if let DataType::Ref(mem_view) = &data_type {
            self.references.push((name.clone(), mem_view.clone()));
        }
        assert(self.references() =~= match data_type {
            DataType::Ref(view) => old(self).references().push((name@, view)),
            _ => old(self).references(),
        });
        let ghost muts = self.mutables@;
        self.mutables.push((name, data_type));
        assert(self.mutables@ =~= muts.push((name, data_type)));
        assert(self.mutables() =~= old(self).mutables().push((name@, data_type)));
        assert(self.symbols == after.symbols);
        assert forall|k: DataType| #[trigger] self.symbols_of(k) == after.symbols_of(k) by {}
    }

    /// Files `name` under its type and under every type reachable from it.
    fn insert_symbol(&mut self, name: &String, ty: &DataType)
        requires
            old(self).wf(),
        ensures
            final(self).wf(),
            forall|k: DataType|
                #[trigger] final(self).symbols_of(k) == old(self).symbols_of(k) + Seq::new(
                    matching_keys(keys_of(*ty), k),
                    |i: int| (name@, *ty),
                ),
            final(self).mutables@ == old(self).mutables@,
            final(self).references@ == old(self).references@,
            final(self).next_name == old(self).next_name,
    {
        let mut keys: Vec<DataType> = vec![ty.clone()];
        let mut acc = accessible_types_of(ty);
        keys.append(&mut acc);
        assert(keys@ =~= keys_of(*ty));
        let ghost start = *self;
        let ghost sym: SymbolView = (name@, *ty);
        let mut i: usize = 0;
        assert forall|k: DataType| #[trigger] self.symbols_of(k) == start.symbols_of(k) + Seq::new(
            matching_keys(keys@.subrange(0, 0), k),
            |j: int| sym,
        ) by {
            assert(keys@.subrange(0, 0).len() == 0);
            assert(start.symbols_of(k) + Seq::new(0, |j: int| sym) =~= start.symbols_of(k));
        }
        while i < keys.len()
            invariant
                i <= keys@.len(),
                keys@ == keys_of(*ty),
                sym == (name@, *ty),
                self.wf(),
                self.mutables@ == start.mutables@,
                self.references@ == start.references@,
                self.next_name == start.next_name,
                forall|k: DataType|
                    #[trigger] self.symbols_of(k) == start.symbols_of(k) + Seq::new(
                        matching_keys(keys@.subrange(0, i as int), k),
                        |j: int| sym,
                    ),
            decreases keys.len() - i,
        {
            let ghost before = *self;
            let key = &keys[i];
            self.symbols.push(key, (name.clone(), ty.clone()));
            proof {
                assert(keys@.subrange(0, i + 1).drop_last() =~= keys@.subrange(0, i as int));
                assert forall|k: DataType| #[trigger] self.symbols_of(k) == start.symbols_of(k) + Seq::new(
                    matching_keys(keys@.subrange(0, i + 1), k),
                    |j: int| sym,
                ) by {
                    let n = matching_keys(keys@.subrange(0, i as int), k);
                    assert(before.symbols_of(k) == start.symbols_of(k) + Seq::new(n, |j: int| sym));
                    if type_eq(*key, k) {
                        assert(self.symbols.values_for(k) == before.symbols.values_for(k).push((*name, *ty)));
                        assert(symbols_view(before.symbols.values_for(k).push((*name, *ty))) =~= symbols_view(
                            before.symbols.values_for(k),
                        ).push(sym));
                        assert(start.symbols_of(k) + Seq::new(n + 1, |j: int| sym) =~= (start.symbols_of(k) + Seq::new(
                            n,
                            |j: int| sym,
                        )).push(sym));
                    } else {
                        assert(self.symbols.values_for(k) =~= before.symbols.values_for(k));
                    }
                }
            }
            i = i + 1;
        }
        assert(keys@.subrange(0, keys@.len() as int) =~= keys@);
    }

    /// A fresh name, `var_` and a number, and counts on.
    pub fn next_name(&mut self) -> (r: String)
        requires
            old(self).next_index() < u32::MAX,
        ensures
            r@ == "var_"@ + decimal_digits(old(self).next_index() as nat),
            final(self).next_index() == old(self).next_index() + 1,
            final(self).wf() == old(self).wf(),
            forall|k: DataType| #[trigger] final(self).symbols_of(k) == old(self).symbols_of(k),
            final(self).mutables() == old(self).mutables(),
            final(self).references() == old(self).references(),
    {
        let next = self.next_name;
        self.next_name = self.next_name + 1;
        let mut r = String::from_str("var_");
        append_decimal(&mut r, next as usize);
        r
    }
}

proof fn lemma_matching_keys_positive(keys: Seq<DataType>, j: int, k: DataType)
    requires
        0 <= j < keys.len(),
        type_eq(keys[j], k),
    ensures
        matching_keys(keys, k) >= 1,
    decreases keys.len(),
{
    if j < keys.len() - 1 {
        assert(keys.drop_last()[j] == keys[j]);
        lemma_matching_keys_positive(keys.drop_last(), j, k);
    }
}

/// A symbol inserted into a scope is filed at least once under its own type, so that
/// looking up that type finds it.
pub proof fn law_symbol_filed_under_its_type(ty: DataType)
    ensures
        matching_keys(keys_of(ty), ty) >= 1,
{
    lemma_type_eq_refl(ty);
    assert(keys_of(ty)[0] == ty);
    lemma_matching_keys_positive(keys_of(ty), 0, ty);
}

} // verus!
