//! The builtin functions the generator may call, filed under every type that a call
//! can produce: its return type and the types reachable from it.
use crate::ast::builtins::BuiltinFn;
use crate::ast::types::{type_eq, DataType};
use crate::generator::type_map::TypeMap;
use crate::generator::overloads::{builtin_entries, builtin_table, entries_view, entry_view, Entry};
use crate::generator::{accessible_types_of, spec_accessible_types_of};
use crate::rc_spec::rc_clone;
use std::rc::Rc;
use vstd::prelude::*;

verus! {

/// A signature of a builtin function.
pub struct Overload {
    pub params: Vec<DataType>,
    pub return_type: DataType,
}

/// A function the generator may call.
pub enum Func {
    Builtin(BuiltinFn, Overload),
}

/// A builtin overload by its views: function, parameter types, return type.
pub type OverloadView = (BuiltinFn, Seq<DataType>, DataType);

/// The view of a function.
pub open spec fn func_view(f: Func) -> OverloadView {
    match f {
        Func::Builtin(b, o) => (b, o.params@, o.return_type),
    }
}

/// The views of a list of functions.
pub open spec fn funcs_view(fs: Seq<Rc<Func>>) -> Seq<OverloadView> {
    fs.map_values(|f: Rc<Func>| func_view(*f))
}

/// The types under which a function returning `ret` is filed: `ret`, then the types
/// reachable from it.
pub open spec fn keys_of(ret: DataType) -> Seq<DataType> {
    seq![ret] + spec_accessible_types_of(ret)
}

/// One copy of `o` for each key it is filed under that equals `k`.
pub open spec fn filed(o: OverloadView, k: DataType) -> Seq<OverloadView> {
    keys_filed(keys_of(o.2), o, k)
}

/// One copy of `o` for each of `keys` that equals `k`.
pub open spec fn keys_filed(keys: Seq<DataType>, o: OverloadView, k: DataType) -> Seq<OverloadView>
    decreases keys.len(),
{
    if keys.len() == 0 {
        Seq::empty()
    } else {
        keys_filed(keys.drop_last(), o, k) + if type_eq(keys.last(), k) {
            seq![o]
        } else {
            Seq::empty()
        }
    }
}

/// The functions, filed by the types that calls of them produce.
pub struct BuiltinMap {
    map: TypeMap<Rc<Func>>,
}

impl BuiltinMap {
    /// No two entries are filed under equal types.
    pub closed spec fn wf(&self) -> bool {
        self.map.wf()
    }

    /// The functions filed under type `k`, in the order they were added.
    pub closed spec fn funcs_for(&self, k: DataType) -> Seq<OverloadView> {
        funcs_view(self.map.values_for(k))
    }

    /// An empty map.
    pub fn new() -> (r: BuiltinMap)
        ensures
            r.wf(),
            forall|k: DataType| #[trigger] r.funcs_for(k) == Seq::<OverloadView>::empty(),
    {
        let r = BuiltinMap { map: TypeMap::new() };
        assert forall|k: DataType| #[trigger] r.funcs_for(k) == Seq::<OverloadView>::empty() by {
            assert(funcs_view(r.map.values_for(k)) =~= Seq::<OverloadView>::empty());
        }
        r
    }

    /// The functions filed under `k`, if any are.
    pub fn get(&self, k: &DataType) -> (r: Option<&Vec<Rc<Func>>>)
        requires
            self.wf(),
        ensures
            match r {
                Some(v) => funcs_view(v@) == self.funcs_for(*k),
                None => self.funcs_for(*k) == Seq::<OverloadView>::empty(),
            },
    {
        let r = self.map.get(k);
        proof {
            if r is None {
                assert(funcs_view(self.map.values_for(*k)) =~= Seq::<OverloadView>::empty());
            }
        }
        r
    }

    /// Files a builtin overload under its return type and under every type reachable
    /// from that.
    pub fn add(&mut self, builtin: BuiltinFn, params: Vec<DataType>, return_type: DataType)
        requires
            old(self).wf(),
        ensures
            final(self).wf(),
            forall|k: DataType|
                #[trigger] final(self).funcs_for(k) == old(self).funcs_for(k) + filed((builtin, params@, return_type), k),
    {
        let ghost o: OverloadView = (builtin, params@, return_type);
        let mut keys: Vec<DataType> = vec![return_type.clone()];
        let mut acc = accessible_types_of(&return_type);
        keys.append(&mut acc);
        assert(keys@ =~= keys_of(return_type));
        let func = Rc::new(Func::Builtin(builtin, Overload { params, return_type }));
        let ghost start = *self;
        let mut i: usize = 0;
        assert forall|k: DataType| #[trigger] self.funcs_for(k) == start.funcs_for(k) + keys_filed(
            keys@.subrange(0, 0),
            o,
            k,
        ) by {
            assert(keys_filed(keys@.subrange(0, 0), o, k) == Seq::<OverloadView>::empty());
            assert(start.funcs_for(k) + Seq::<OverloadView>::empty() =~= start.funcs_for(k));
        }
        while i < keys.len()
            invariant
                i <= keys@.len(),
                keys@ == keys_of(o.2),
                func_view(*func) == o,
                self.wf(),
                forall|k: DataType|
                    #[trigger] self.funcs_for(k) == start.funcs_for(k) + keys_filed(keys@.subrange(0, i as int), o, k),
            decreases keys.len() - i,
        {
            let ghost before = *self;
            let key = &keys[i];
            let extra = rc_clone(&func);
            self.map.push(key, extra);
            proof {
                assert(keys@.subrange(0, i + 1).drop_last() =~= keys@.subrange(0, i as int));
                assert forall|k: DataType| #[trigger] self.funcs_for(k) == start.funcs_for(k) + keys_filed(
                    keys@.subrange(0, i + 1),
                    o,
                    k,
                ) by {
                    let tail: Seq<OverloadView> = if type_eq(*key, k) {
                        seq![o]
                    } else {
                        Seq::<OverloadView>::empty()
                    };
                    let added: Seq<Rc<Func>> = if type_eq(*key, k) {
                        seq![func]
                    } else {
                        Seq::<Rc<Func>>::empty()
                    };
                    assert(self.map.values_for(k) == before.map.values_for(k) + added);
                    assert(before.funcs_for(k) == start.funcs_for(k) + keys_filed(keys@.subrange(0, i as int), o, k));
                    assert(funcs_view(before.map.values_for(k) + added) =~= funcs_view(before.map.values_for(k)) + tail);
                    assert(start.funcs_for(k) + keys_filed(keys@.subrange(0, i + 1), o, k) =~= start.funcs_for(k)
                        + keys_filed(keys@.subrange(0, i as int), o, k) + tail);
                }
            }
            i = i + 1;
        }
        assert(keys@.subrange(0, keys@.len() as int) =~= keys@);
    }
}

/// One copy of each of `os`, in turn, for each type it is filed under that equals `k`.
pub open spec fn filed_all(os: Seq<OverloadView>, k: DataType) -> Seq<OverloadView>
    decreases os.len(),
{
    if os.len() == 0 {
        Seq::empty()
    } else {
        filed_all(os.drop_last(), k) + filed(os.last(), k)
    }
}

impl BuiltinMap {
    /// Files each of the listed overloads in turn.
    pub fn add_all(&mut self, entries: Vec<Entry>)
        requires
            old(self).wf(),
        ensures
            final(self).wf(),
            forall|k: DataType|
                #[trigger] final(self).funcs_for(k) == old(self).funcs_for(k) + filed_all(entries_view(entries@), k),
    {
        let ghost start = *self;
        let ghost es = entries_view(entries@);
        let mut rest = entries;
        let ghost mut done: int = 0;
        assert forall|k: DataType| #[trigger] self.funcs_for(k) == start.funcs_for(k) + filed_all(es.subrange(0, 0), k) by {
            assert(start.funcs_for(k) + Seq::<OverloadView>::empty() =~= start.funcs_for(k));
        }
        while rest.len() > 0
            invariant
                self.wf(),
                0 <= done <= es.len(),
                rest@.len() + done == es.len(),
                entries_view(rest@) == es.subrange(done, es.len() as int),
                forall|k: DataType|
                    #[trigger] self.funcs_for(k) == start.funcs_for(k) + filed_all(es.subrange(0, done), k),
            decreases rest.len(),
        {
            let ghost before = *self;
            let ghost o = entry_view(rest@[0]);
            let ghost r0 = rest@;
            assert(entries_view(r0)[0] == o);
            assert(o == es[done]);
            let (b, params, ret) = rest.remove(0);
            self.add(b, params, ret);
            proof {
                assert(rest@ =~= r0.subrange(1, r0.len() as int));
                assert forall|i: int| 0 <= i < rest@.len() implies #[trigger] entries_view(rest@)[i] == es[done + 1 + i] by {
                    assert(entries_view(r0)[i + 1] == es.subrange(done, es.len() as int)[i + 1]);
                }
                assert(entries_view(rest@) =~= es.subrange(done + 1, es.len() as int));
                assert(es.subrange(0, done + 1).drop_last() =~= es.subrange(0, done));
                assert forall|k: DataType| #[trigger] self.funcs_for(k) == start.funcs_for(k) + filed_all(
                    es.subrange(0, done + 1),
                    k,
                ) by {
                    assert(start.funcs_for(k) + filed_all(es.subrange(0, done + 1), k) =~= start.funcs_for(k)
                        + filed_all(es.subrange(0, done), k) + filed(o, k));
                }
                done = done + 1;
            }
        }
        assert(es.subrange(0, done) =~= es);
    }
}

/// Files every builtin overload the generator may call under each type that a call of
/// it produces: its return type and the types reachable from that. The unstable float
/// functions are offered only if `unstable_float`, the subgroup operations and uniform
/// loads only if `collectives`.
pub fn gen_builtins(unstable_float: bool, collectives: bool) -> (r: BuiltinMap)
    ensures
        r.wf(),
        forall|k: DataType| #[trigger] r.funcs_for(k) == filed_all(builtin_table(unstable_float, collectives), k),
{
    let mut map = BuiltinMap::new();
    let entries = builtin_entries(unstable_float, collectives);
    map.add_all(entries);
    assert forall|k: DataType| #[trigger] map.funcs_for(k) == filed_all(builtin_table(unstable_float, collectives), k) by {
        assert(Seq::<OverloadView>::empty() + filed_all(builtin_table(unstable_float, collectives), k) =~= filed_all(
            builtin_table(unstable_float, collectives),
            k,
        ));
    }
    map
}

/// Some key in `keys` equals `k`.
pub open spec fn some_key_equals(keys: Seq<DataType>, k: DataType) -> bool {
    exists|j: int| 0 <= j < keys.len() && type_eq(#[trigger] keys[j], k)
}

proof fn lemma_keys_filed(keys: Seq<DataType>, o: OverloadView, k: DataType, x: OverloadView)
    ensures
        keys_filed(keys, o, k).contains(x) <==> (x == o && some_key_equals(keys, k)),
    decreases keys.len(),
{
    if keys.len() > 0 {
        let init = keys.drop_last();
        lemma_keys_filed(init, o, k, x);
        let tail: Seq<OverloadView> = if type_eq(keys.last(), k) {
            seq![o]
        } else {
            Seq::empty()
        };
        if keys_filed(keys, o, k).contains(x) {
            let i = choose|i: int| 0 <= i < keys_filed(keys, o, k).len() && keys_filed(keys, o, k)[i] == x;
            if i < keys_filed(init, o, k).len() {
                assert(keys_filed(init, o, k)[i] == x);
                let j = choose|j: int| 0 <= j < init.len() && type_eq(#[trigger] init[j], k);
                assert(keys[j] == init[j]);
            } else {
                assert(tail[i - keys_filed(init, o, k).len()] == x);
                assert(type_eq(keys[keys.len() - 1], k));
            }
        }
        if x == o && some_key_equals(keys, k) {
            let j = choose|j: int| 0 <= j < keys.len() && type_eq(#[trigger] keys[j], k);
            if j < keys.len() - 1 {
                assert(init[j] == keys[j]);
                assert(keys_filed(init, o, k).contains(x));
                let i = choose|i: int| 0 <= i < keys_filed(init, o, k).len() && keys_filed(init, o, k)[i] == x;
                assert(keys_filed(keys, o, k)[i] == x);
            } else {
                assert(keys_filed(keys, o, k)[keys_filed(init, o, k).len() as int] == x);
            }
        }
    }
}

/// An overload is filed under a type `k` exactly when it is one of the overloads that
/// were filed and `k` is its return type or a type reachable from it, up to type
/// equality: what the generator finds for a type are the calls that can produce it.
pub proof fn law_filed_iff_produces(os: Seq<OverloadView>, k: DataType, x: OverloadView)
    ensures
        filed_all(os, k).contains(x) <==> (os.contains(x) && some_key_equals(keys_of(x.2), k)),
    decreases os.len(),
{
    if os.len() > 0 {
        let init = os.drop_last();
        law_filed_iff_produces(init, k, x);
        lemma_keys_filed(keys_of(os.last().2), os.last(), k, x);
        let a = filed_all(init, k);
        let b = filed(os.last(), k);
        if filed_all(os, k).contains(x) {
            let i = choose|i: int| 0 <= i < (a + b).len() && (a + b)[i] == x;
            if i < a.len() {
                assert(a[i] == x);
                let j = choose|j: int| 0 <= j < init.len() && init[j] == x;
                assert(os[j] == x);
            } else {
                assert(b[i - a.len()] == x);
                assert(os[os.len() - 1] == x);
            }
        }
        if os.contains(x) && some_key_equals(keys_of(x.2), k) {
            let j = choose|j: int| 0 <= j < os.len() && os[j] == x;
            if j < os.len() - 1 {
                assert(init[j] == x);
                let i = choose|i: int| 0 <= i < a.len() && a[i] == x;
                assert((a + b)[i] == x);
            } else {
                let i = choose|i: int| 0 <= i < b.len() && b[i] == x;
                assert((a + b)[a.len() + i] == x);
            }
        }
    }
}

} // verus!
