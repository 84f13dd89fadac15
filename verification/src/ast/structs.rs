use crate::ast::types::{lemma_type_eq_symm, lemma_type_eq_trans, type_eq, DataType, ScalarType};
use crate::rc_spec::rc_clone;
use std::rc::Rc;
use vstd::prelude::*;

verus! {

#[derive(Clone, Copy, Debug, Hash, PartialEq, Eq, Structural)]
pub enum StructMemberAttr {
    Align(u8),
}

#[derive(Debug)]
pub struct StructMember {
    pub attrs: Vec<StructMemberAttr>,
    pub name: String,
    pub data_type: DataType,
}

/// The list that maps each type reachable through a structure to the members
/// through which it is reached.
#[derive(Debug)]
pub struct AccessorMap {
    entries: Vec<(DataType, Vec<Rc<StructMember>>)>,
}

#[derive(Debug)]
pub struct StructDecl {
    pub name: String,
    pub members: Vec<Rc<StructMember>>,
    pub accessors: AccessorMap,
}

/// Some type in `keys` equals `k`.
pub open spec fn covers(keys: Seq<DataType>, k: DataType) -> bool {
    exists|q: int| 0 <= q < keys.len() && type_eq(#[trigger] keys[q], k)
}

/// No two types in `keys` are equal.
pub open spec fn distinct_types(keys: Seq<DataType>) -> bool {
    forall|a: int, b: int| 0 <= a < keys.len() && 0 <= b < keys.len() && a != b ==> !type_eq(#[trigger] keys[a], #[trigger] keys[b])
}

/// The types of an accessor list.
pub open spec fn accessor_keys(acc: Seq<(DataType, Vec<Rc<StructMember>>)>) -> Seq<DataType> {
    acc.map_values(|e: (DataType, Vec<Rc<StructMember>>)| e.0)
}

/// `k` may be reached through a member of type `ty`: it is the member's own type, a
/// component or smaller swizzle of a vector member, a type reachable through the
/// elements of an array member, or a type reachable through a structure member.
pub open spec fn is_access_key(ty: DataType, k: DataType) -> bool
    decreases ty,
{
    type_eq(k, ty) || match ty {
        DataType::Vector(n, t) => k == DataType::Scalar(t) || (k is Vector && 2 <= k->Vector_0 < n
            && k->Vector_1 == t),
        DataType::Array(elem, _) => is_access_key(*elem, k),
        DataType::Struct(decl) => covers(decl.spec_accessible_types(), k),
        _ => false,
    }
}

/// Two members are the same member: equal attributes, names and types.
pub open spec fn member_eq(a: Rc<StructMember>, b: Rc<StructMember>) -> bool {
    a.attrs@ == b.attrs@ && a.name@ == b.name@ && type_eq(a.data_type, b.data_type)
}

/// `list` holds a member that is the same member as `m`.
pub open spec fn holds_member(list: Seq<Rc<StructMember>>, m: Rc<StructMember>) -> bool {
    exists|p: int| 0 <= p < list.len() && member_eq(#[trigger] list[p], m)
}

/// No member occurs twice in `list`.
pub open spec fn no_repeats(list: Seq<Rc<StructMember>>) -> bool {
    forall|a: int, b: int| 0 <= a < b < list.len() ==> !member_eq(#[trigger] list[a], #[trigger] list[b])
}

/// No entry of `acc` holds a member twice.
pub open spec fn entries_without_repeats(acc: Seq<(DataType, Vec<Rc<StructMember>>)>) -> bool {
    forall|j: int| 0 <= j < acc.len() ==> no_repeats((#[trigger] acc[j]).1@)
}

/// Sameness of members is reflexive.
pub proof fn lemma_member_eq_refl(a: Rc<StructMember>)
    ensures
        member_eq(a, a),
{
    crate::ast::types::lemma_type_eq_refl(member_type(a));
}

/// Sameness of members is symmetric.
pub proof fn lemma_member_eq_symm(a: Rc<StructMember>, b: Rc<StructMember>)
    requires
        member_eq(a, b),
    ensures
        member_eq(b, a),
{
    lemma_type_eq_symm(member_type(a), member_type(b));
}

/// Sameness of members is transitive.
pub proof fn lemma_member_eq_trans(a: Rc<StructMember>, b: Rc<StructMember>, c: Rc<StructMember>)
    requires
        member_eq(a, b),
        member_eq(b, c),
    ensures
        member_eq(a, c),
{
    lemma_type_eq_trans(member_type(a), member_type(b), member_type(c));
}

/// Checks whether two members are the same member.
fn same_member(a: &StructMember, b: &StructMember) -> (r: bool)
    ensures
        r == (a.attrs@ == b.attrs@ && a.name@ == b.name@ && type_eq(a.data_type, b.data_type)),
{
    if a.name != b.name || !a.data_type.eq_type(&b.data_type) || a.attrs.len() != b.attrs.len() {
        return false;
    }
    let mut i: usize = 0;
    while i < a.attrs.len()
        invariant
            i <= a.attrs.len(),
            a.attrs.len() == b.attrs.len(),
            forall|p: int| 0 <= p < i ==> a.attrs@[p] == b.attrs@[p],
        decreases a.attrs.len() - i,
    {
        if a.attrs[i] != b.attrs[i] {
            return false;
        }
        i = i + 1;
    }
    assert(a.attrs@ =~= b.attrs@);
    true
}

/// Checks whether `list` holds a member that is the same member as `m`.
fn list_holds_member(list: &Vec<Rc<StructMember>>, m: &Rc<StructMember>) -> (r: bool)
    ensures
        r == holds_member(list@, *m),
{
    let mut p: usize = 0;
    while p < list.len()
        invariant
            p <= list.len(),
            forall|x: int| 0 <= x < p ==> !member_eq(#[trigger] list@[x], *m),
        decreases list.len() - p,
    {
        if same_member(&list[p], m) {
            assert(member_eq(list@[p as int], *m));
            return true;
        }
        p = p + 1;
    }
    false
}

impl AccessorMap {
    pub closed spec fn entries(&self) -> Seq<(DataType, Vec<Rc<StructMember>>)> {
        self.entries@
    }
}

impl StructDecl {
    /// All types that can be reached (directly or indirectly) through this structure.
    pub closed spec fn spec_accessible_types(&self) -> Seq<DataType> {
        accessor_keys(self.accessors.entries@)
    }

    /// The members through which `ty` can be reached (empty if it cannot be reached).
    pub closed spec fn spec_accessors_of(&self, ty: DataType) -> Seq<Rc<StructMember>> {
        if exists|j: int| 0 <= j < self.accessors.entries@.len() && type_eq(#[trigger] self.accessors.entries@[j].0, ty) {
            let j = choose|j: int| 0 <= j < self.accessors.entries@.len() && type_eq(#[trigger] self.accessors.entries@[j].0, ty);
            self.accessors.entries@[j].1@
        } else {
            Seq::empty()
        }
    }

    /// The accessor list agrees with the members: each type reachable through a member
    /// is listed once, with exactly the members through which it is reached.
    pub closed spec fn wf(&self) -> bool {
        accessors_agree(self.members@, self.accessors.entries@, self.members@.len() as int)
    }
}

/// `acc` lists, without repetition, the types reachable through the first `n` members,
/// each with the members (among those) through which it is reached, none twice.
pub open spec fn accessors_agree(
    members: Seq<Rc<StructMember>>,
    acc: Seq<(DataType, Vec<Rc<StructMember>>)>,
    n: int,
) -> bool {
    &&& distinct_types(accessor_keys(acc))
    &&& nonempty_entries(acc)
    &&& entries_without_repeats(acc)
    &&& forall|j: int, m: Rc<StructMember>|
        0 <= j < acc.len() && #[trigger] acc[j].1@.contains(m) ==> exists|i: int|
            0 <= i < n && members[i] == m && is_access_key((#[trigger] members[i]).data_type, acc[j].0)
    &&& forall|i: int, k: DataType|
        0 <= i < n && #[trigger] is_access_key(members[i].data_type, k) ==> filed_under(acc, k, members[i])
}

/// Whether `k` is reachable through a member of type `ty` does not depend on which of
/// several equal types `k` is.
pub proof fn lemma_access_key_respects_eq(ty: DataType, k: DataType, k2: DataType)
    requires
        is_access_key(ty, k),
        type_eq(k, k2),
    ensures
        is_access_key(ty, k2),
    decreases ty,
{
    lemma_type_eq_symm(k, k2);
    if type_eq(k, ty) {
        lemma_type_eq_trans(k2, k, ty);
    } else {
        match ty {
            DataType::Array(elem, _) => {
                lemma_access_key_respects_eq(crate::ast::types::pointee(elem), k, k2);
            },
            DataType::Struct(decl) => {
                let keys = decl.spec_accessible_types();
                let q = choose|q: int| 0 <= q < keys.len() && type_eq(#[trigger] keys[q], k);
                lemma_type_eq_trans(keys[q], k, k2);
            },
            _ => {},
        }
    }
}

impl StructMember {
    pub fn new(attrs: Vec<StructMemberAttr>, name: String, ty: DataType) -> (r: Rc<StructMember>)
        ensures
            r.attrs == attrs,
            r.name == name,
            r.data_type == ty,
    {
        Rc::new(StructMember { attrs, name, data_type: ty })
    }
}

/// Adds `k` to `keys` unless an equal type is already there.
fn push_unique_type(keys: &mut Vec<DataType>, k: DataType)
    requires
        distinct_types(old(keys)@),
    ensures
        distinct_types(final(keys)@),
        forall|x: DataType| #![trigger covers(final(keys)@, x)] covers(final(keys)@, x) <==> (covers(old(keys)@, x) || type_eq(k, x)),
{
    let mut q: usize = 0;
    while q < keys.len()
        invariant
            q <= keys.len(),
            keys@ == old(keys)@,
            distinct_types(old(keys)@),
            forall|p: int| 0 <= p < q ==> !type_eq(#[trigger] keys@[p], k),
        decreases keys.len() - q,
    {
        if keys[q].eq_type(&k) {
            assert forall|x: DataType| covers(keys@, x) <==> (covers(keys@, x) || type_eq(k, x)) by {
                if type_eq(k, x) {
                    lemma_type_eq_trans(keys@[q as int], k, x);
                }
            }
            return;
        }
        q = q + 1;
    }
    let ghost prev = keys@;
    keys.push(k);
    assert forall|a: int, b: int| 0 <= a < keys@.len() && 0 <= b < keys@.len() && a != b implies !type_eq(
        #[trigger] keys@[a],
        #[trigger] keys@[b],
    ) by {
        if b == prev.len() as int {
            assert(!type_eq(prev[a], k));
        } else if a == prev.len() as int {
            if type_eq(k, prev[b]) {
                lemma_type_eq_symm(k, prev[b]);
            }
        }
    }
    assert forall|x: DataType| covers(keys@, x) <==> (covers(prev, x) || type_eq(k, x)) by {
        if covers(prev, x) {
            let p = choose|p: int| 0 <= p < prev.len() && type_eq(#[trigger] prev[p], x);
            assert(keys@[p] == prev[p]);
        }
        if type_eq(k, x) {
            assert(keys@[prev.len() as int] == k);
        }
        if covers(keys@, x) {
            let p = choose|p: int| 0 <= p < keys@.len() && type_eq(#[trigger] keys@[p], x);
            if p < prev.len() {
                assert(prev[p] == keys@[p]);
            }
        }
    }
}

/// The types reachable through a member of type `ty`, each listed once.
fn member_keys(ty: &DataType) -> (keys: Vec<DataType>)
    ensures
        distinct_types(keys@),
        forall|k: DataType| #![trigger covers(keys@, k)] covers(keys@, k) <==> is_access_key(*ty, k),
    decreases ty,
{
    let mut keys: Vec<DataType> = Vec::new();
    push_unique_type(&mut keys, ty.clone());
    assert forall|k: DataType| covers(keys@, k) <==> type_eq(*ty, k) by {
        assert(!covers(Seq::<DataType>::empty(), k));
    }
    match ty {
        DataType::Vector(n, t) => {
            push_unique_type(&mut keys, DataType::Scalar(*t));
            assert(forall|k: DataType| type_eq(DataType::Scalar(*t), k) <==> k == DataType::Scalar(*t));
            let mut i: u8 = 2;
            while i < *n
                invariant
                    2 <= i,
                    *n >= 2 ==> i <= *n,
                    *n < 2 ==> i == 2,
                    distinct_types(keys@),
                    forall|k: DataType|
                        #![trigger covers(keys@, k)]
                        covers(keys@, k) <==> (type_eq(*ty, k) || k == DataType::Scalar(*t) || (k is Vector && 2
                            <= k->Vector_0 < i && k->Vector_1 == *t)),
                decreases *n - i,
            {
                push_unique_type(&mut keys, DataType::Vector(i, *t));
                assert(forall|k: DataType| type_eq(DataType::Vector(i, *t), k) <==> k == DataType::Vector(i, *t));
                i = i + 1;
            }
            assert forall|k: DataType| covers(keys@, k) <==> is_access_key(*ty, k) by {
                if type_eq(*ty, k) {
                    lemma_type_eq_symm(*ty, k);
                }
                if type_eq(k, *ty) {
                    lemma_type_eq_symm(k, *ty);
                }
            }
        },
        DataType::Struct(decl) => {
            let mut j: usize = 0;
            while j < decl.accessors.entries.len()
                invariant
                    j <= decl.accessors.entries.len(),
                    distinct_types(keys@),
                    forall|k: DataType|
                        #![trigger covers(keys@, k)]
                        covers(keys@, k) <==> (type_eq(*ty, k) || exists|p: int|
                            0 <= p < j && type_eq(#[trigger] decl.accessors.entries@[p].0, k)),
                decreases decl.accessors.entries.len() - j,
            {
                push_unique_type(&mut keys, decl.accessors.entries[j].0.clone());
                j = j + 1;
            }
            assert forall|k: DataType| covers(keys@, k) <==> is_access_key(*ty, k) by {
                if type_eq(*ty, k) {
                    lemma_type_eq_symm(*ty, k);
                }
                if type_eq(k, *ty) {
                    lemma_type_eq_symm(k, *ty);
                }
                let acc_keys = decl.spec_accessible_types();
                if covers(acc_keys, k) {
                    let q = choose|q: int| 0 <= q < acc_keys.len() && type_eq(#[trigger] acc_keys[q], k);
                    assert(decl.accessors.entries@[q].0 == acc_keys[q]);
                }
                if exists|p: int| 0 <= p < decl.accessors.entries@.len() && type_eq(#[trigger] decl.accessors.entries@[p].0, k) {
                    let p = choose|p: int| 0 <= p < decl.accessors.entries@.len() && type_eq(#[trigger] decl.accessors.entries@[p].0, k);
                    assert(acc_keys[p] == decl.accessors.entries@[p].0);
                }
            }
        },
        DataType::Array(elem, _) => {
            let elem_keys = member_keys(&**elem);
            let mut j: usize = 0;
            while j < elem_keys.len()
                invariant
                    j <= elem_keys.len(),
                    distinct_types(keys@),
                    forall|k: DataType|
                        #![trigger covers(keys@, k)]
                        covers(keys@, k) <==> (type_eq(*ty, k) || exists|p: int|
                            0 <= p < j && type_eq(#[trigger] elem_keys@[p], k)),
                decreases elem_keys.len() - j,
            {
                push_unique_type(&mut keys, elem_keys[j].clone());
                j = j + 1;
            }
            assert forall|k: DataType| covers(keys@, k) <==> is_access_key(*ty, k) by {
                if type_eq(*ty, k) {
                    lemma_type_eq_symm(*ty, k);
                }
                if type_eq(k, *ty) {
                    lemma_type_eq_symm(k, *ty);
                }
                if covers(elem_keys@, k) {
                    assert(is_access_key(**elem, k));
                }
                if is_access_key(**elem, k) {
                    assert(covers(elem_keys@, k));
                }
            }
        },
        _ => {
            assert forall|k: DataType| covers(keys@, k) <==> is_access_key(*ty, k) by {
                if type_eq(*ty, k) {
                    lemma_type_eq_symm(*ty, k);
                }
                if type_eq(k, *ty) {
                    lemma_type_eq_symm(k, *ty);
                }
            }
        },
    }
    keys
}

/// Files `member` under `key`, adding an entry for `key` if the list has none; an entry
/// that already holds the same member is left as it is.
fn insert_accessor(acc: &mut Vec<(DataType, Vec<Rc<StructMember>>)>, key: &DataType, member: &Rc<StructMember>)
    requires
        distinct_types(accessor_keys(old(acc)@)),
        nonempty_entries(old(acc)@),
        entries_without_repeats(old(acc)@),
    ensures
        distinct_types(accessor_keys(final(acc)@)),
        nonempty_entries(final(acc)@),
        entries_without_repeats(final(acc)@),
        final(acc)@.len() == old(acc)@.len() || final(acc)@.len() == old(acc)@.len() + 1,
        forall|j: int|
            0 <= j < old(acc)@.len() ==> (#[trigger] final(acc)@[j]).0 == old(acc)@[j].0 && (final(acc)@[j].1@
                == old(acc)@[j].1@ || (type_eq(old(acc)@[j].0, *key) && final(acc)@[j].1@ == old(acc)@[j].1@.push(
            *member))),
        final(acc)@.len() == old(acc)@.len() + 1 ==> final(acc)@[old(acc)@.len() as int].0 == *key
            && final(acc)@[old(acc)@.len() as int].1@ == seq![*member],
        filed_under(final(acc)@, *key, *member),
{
    let ghost prev = acc@;
    let mut j: usize = 0;
    while j < acc.len()
        invariant
            j <= acc.len(),
            acc@ == prev,
            prev == old(acc)@,
            distinct_types(accessor_keys(prev)),
            nonempty_entries(prev),
            entries_without_repeats(prev),
            forall|p: int| 0 <= p < j ==> !type_eq((#[trigger] acc@[p]).0, *key),
        decreases acc.len() - j,
    {
        if acc[j].0.eq_type(key) {
            if list_holds_member(&acc[j].1, member) {
                return;
            }
            let mut entry = acc.remove(j);
            entry.1.push(rc_clone(member));
            let ghost pushed = entry;
            acc.insert(j, entry);
            proof {
                assert(acc@ =~= prev.update(j as int, pushed));
                assert(pushed.1@ == prev[j as int].1@.push(*member));
                assert(accessor_keys(acc@) =~= accessor_keys(prev));
                let last = pushed.1@.len() - 1;
                assert(pushed.1@[last] == *member);
                lemma_member_eq_refl(*member);
                assert(holds_member(acc@[j as int].1@, *member));
                assert(no_repeats(pushed.1@)) by {
                    assert forall|a: int, b: int| 0 <= a < b < pushed.1@.len() implies !member_eq(
                        #[trigger] pushed.1@[a],
                        #[trigger] pushed.1@[b],
                    ) by {
                        assert(pushed.1@[a] == prev[j as int].1@[a]);
                        if b < last {
                            assert(pushed.1@[b] == prev[j as int].1@[b]);
                            assert(no_repeats(prev[j as int].1@));
                        }
                    }
                }
                assert forall|x: int| 0 <= x < acc@.len() implies no_repeats((#[trigger] acc@[x]).1@) by {
                    if x != j {
                        assert(acc@[x] == prev[x]);
                    }
                }
            }
            return;
        }
        j = j + 1;
    }
    acc.push((key.clone(), vec![rc_clone(member)]));
    proof {
        assert(acc@[prev.len() as int].1@ =~= seq![*member]);
        assert(acc@[prev.len() as int].1@[0] == *member);
        lemma_member_eq_refl(*member);
        lemma_type_eq_refl_helper(*key);
        assert(holds_member(acc@[prev.len() as int].1@, *member));
        assert forall|x: int| 0 <= x < acc@.len() implies no_repeats((#[trigger] acc@[x]).1@) by {
            if x < prev.len() {
                assert(acc@[x] == prev[x]);
            }
        }
    }
    let ghost keys = accessor_keys(acc@);
    assert forall|a: int, b: int| 0 <= a < keys.len() && 0 <= b < keys.len() && a != b implies !type_eq(
        #[trigger] keys[a],
        #[trigger] keys[b],
    ) by {
        assert(keys[a] == acc@[a].0);
        assert(keys[b] == acc@[b].0);
        if b == prev.len() as int {
            assert(!type_eq(prev[a].0, *key));
        } else if a == prev.len() as int {
            if type_eq(*key, prev[b].0) {
                lemma_type_eq_symm(*key, prev[b].0);
            }
        } else {
            assert(accessor_keys(prev)[a] == prev[a].0);
            assert(accessor_keys(prev)[b] == prev[b].0);
        }
    }
}

proof fn lemma_type_eq_refl_helper(k: DataType)
    ensures
        type_eq(k, k),
{
    crate::ast::types::lemma_type_eq_refl(k);
}

/// The type of a member.
pub open spec fn member_type(m: Rc<StructMember>) -> DataType {
    m.data_type
}

/// Every entry holds at least one member.
pub open spec fn nonempty_entries(acc: Seq<(DataType, Vec<Rc<StructMember>>)>) -> bool {
    forall|j: int| 0 <= j < acc.len() ==> (#[trigger] acc[j]).1@.len() > 0
}

/// Some entry of `acc` for a type equal to `k` holds the same member as `m`.
pub open spec fn filed_under(acc: Seq<(DataType, Vec<Rc<StructMember>>)>, k: DataType, m: Rc<StructMember>) -> bool {
    exists|j: int| 0 <= j < acc.len() && type_eq((#[trigger] acc[j]).0, k) && holds_member(acc[j].1@, m)
}

/// `new` begins with `old`.
pub open spec fn extends(old: Seq<Rc<StructMember>>, new: Seq<Rc<StructMember>>) -> bool {
    old.len() <= new.len() && forall|p: int| 0 <= p < old.len() ==> #[trigger] new[p] == old[p]
}

/// The entries of `acc` at the same positions in `old` keep their types and members.
pub open spec fn entries_grow(
    old: Seq<(DataType, Vec<Rc<StructMember>>)>,
    acc: Seq<(DataType, Vec<Rc<StructMember>>)>,
) -> bool {
    &&& old.len() <= acc.len()
    &&& forall|j: int| 0 <= j < old.len() ==> (#[trigger] acc[j]).0 == old[j].0 && extends(old[j].1@, acc[j].1@)
    &&& forall|j: int, m: Rc<StructMember>|
        0 <= j < old.len() && #[trigger] old[j].1@.contains(m) ==> acc[j].1@.contains(m)
}

/// Files `member` under each of `keys`.
fn file_member(acc: &mut Vec<(DataType, Vec<Rc<StructMember>>)>, keys: &Vec<DataType>, member: &Rc<StructMember>)
    requires
        distinct_types(accessor_keys(old(acc)@)),
        nonempty_entries(old(acc)@),
        entries_without_repeats(old(acc)@),
    ensures
        distinct_types(accessor_keys(final(acc)@)),
        nonempty_entries(final(acc)@),
        entries_without_repeats(final(acc)@),
        entries_grow(old(acc)@, final(acc)@),
        forall|j: int, m: Rc<StructMember>|
            0 <= j < final(acc)@.len() && #[trigger] final(acc)@[j].1@.contains(m) ==> (j < old(acc)@.len()
                && old(acc)@[j].1@.contains(m)) || (m == *member && covers(keys@, final(acc)@[j].0)),
        forall|p: int| 0 <= p < keys@.len() ==> #[trigger] filed_under(final(acc)@, keys@[p], *member),
{
    let ghost start = acc@;
    let mut q: usize = 0;
    while q < keys.len()
        invariant
            q <= keys.len(),
            start == old(acc)@,
            distinct_types(accessor_keys(acc@)),
            nonempty_entries(acc@),
            entries_without_repeats(acc@),
            entries_grow(start, acc@),
            forall|j: int, m: Rc<StructMember>|
                0 <= j < acc@.len() && #[trigger] acc@[j].1@.contains(m) ==> (j < start.len()
                    && start[j].1@.contains(m)) || (m == *member && covers(keys@, acc@[j].0)),
            forall|p: int| 0 <= p < q ==> #[trigger] filed_under(acc@, keys@[p], *member),
        decreases keys.len() - q,
    {
        let ghost mid = acc@;
        insert_accessor(acc, &keys[q], member);
        proof {
            lemma_file_step(start, mid, acc@, keys@, q as int, *member);
        }
        q = q + 1;
    }
}

proof fn lemma_file_step(
    start: Seq<(DataType, Vec<Rc<StructMember>>)>,
    mid: Seq<(DataType, Vec<Rc<StructMember>>)>,
    acc: Seq<(DataType, Vec<Rc<StructMember>>)>,
    keys: Seq<DataType>,
    q: int,
    member: Rc<StructMember>,
)
    requires
        0 <= q < keys.len(),
        entries_grow(start, mid),
        forall|j: int, m: Rc<StructMember>|
            0 <= j < mid.len() && #[trigger] mid[j].1@.contains(m) ==> (j < start.len() && start[j].1@.contains(m)) || (
            m == member && covers(keys, mid[j].0)),
        forall|p: int| 0 <= p < q ==> #[trigger] filed_under(mid, keys[p], member),
        acc.len() == mid.len() || acc.len() == mid.len() + 1,
        forall|j: int|
            0 <= j < mid.len() ==> (#[trigger] acc[j]).0 == mid[j].0 && (acc[j].1@ == mid[j].1@ || (type_eq(
                mid[j].0,
                keys[q],
            ) && acc[j].1@ == mid[j].1@.push(member))),
        acc.len() == mid.len() + 1 ==> acc[mid.len() as int].0 == keys[q] && acc[mid.len() as int].1@ == seq![member],
        filed_under(acc, keys[q], member),
    ensures
        entries_grow(start, acc),
        forall|j: int, m: Rc<StructMember>|
            0 <= j < acc.len() && #[trigger] acc[j].1@.contains(m) ==> (j < start.len() && start[j].1@.contains(m)) || (
            m == member && covers(keys, acc[j].0)),
        forall|p: int| 0 <= p < q + 1 ==> #[trigger] filed_under(acc, keys[p], member),
{
    assert forall|j: int| 0 <= j < mid.len() implies extends(mid[j].1@, (#[trigger] acc[j]).1@) by {
        if acc[j].1@ != mid[j].1@ {
            assert forall|p: int| 0 <= p < mid[j].1@.len() implies #[trigger] acc[j].1@[p] == mid[j].1@[p] by {}
        }
    }
    assert forall|j: int| 0 <= j < start.len() implies (#[trigger] acc[j]).0 == start[j].0 && extends(
        start[j].1@,
        acc[j].1@,
    ) by {
        assert(extends(mid[j].1@, acc[j].1@));
        assert(extends(start[j].1@, mid[j].1@));
        assert forall|p: int| 0 <= p < start[j].1@.len() implies #[trigger] acc[j].1@[p] == start[j].1@[p] by {
            assert(mid[j].1@[p] == start[j].1@[p]);
        }
    }
    assert forall|j: int, m: Rc<StructMember>|
        0 <= j < mid.len() && #[trigger] mid[j].1@.contains(m) implies acc[j].1@.contains(m) by {
        let idx = choose|idx: int| 0 <= idx < mid[j].1@.len() && mid[j].1@[idx] == m;
        assert(extends(mid[j].1@, acc[j].1@));
        assert(acc[j].1@[idx] == m);
    }
    assert forall|j: int, m: Rc<StructMember>|
        0 <= j < start.len() && #[trigger] start[j].1@.contains(m) implies acc[j].1@.contains(m) by {
        assert(mid[j].1@.contains(m));
    }
    assert forall|j: int, m: Rc<StructMember>|
        0 <= j < acc.len() && #[trigger] acc[j].1@.contains(m) implies (j < start.len() && start[j].1@.contains(m)) || (
        m == member && covers(keys, acc[j].0)) by {
        let idx = choose|idx: int| 0 <= idx < acc[j].1@.len() && acc[j].1@[idx] == m;
        if j < mid.len() {
            if acc[j].1@ == mid[j].1@ {
                assert(mid[j].1@.contains(m));
            } else if idx < mid[j].1@.len() {
                assert(mid[j].1@[idx] == m);
                assert(mid[j].1@.contains(m));
            } else {
                lemma_type_eq_symm(mid[j].0, keys[q]);
                assert(type_eq(keys[q], acc[j].0));
            }
        } else {
            crate::ast::types::lemma_type_eq_refl(keys[q]);
            assert(type_eq(keys[q], acc[j].0));
        }
    }
    assert forall|p: int| 0 <= p < q + 1 implies #[trigger] filed_under(acc, keys[p], member) by {
        if p < q {
            assert(filed_under(mid, keys[p], member));
            let j = choose|j: int|
                0 <= j < mid.len() && type_eq((#[trigger] mid[j]).0, keys[p]) && holds_member(mid[j].1@, member);
            let x = choose|x: int| 0 <= x < mid[j].1@.len() && member_eq(#[trigger] mid[j].1@[x], member);
            assert(extends(mid[j].1@, acc[j].1@));
            assert(acc[j].1@[x] == mid[j].1@[x]);
            assert(holds_member(acc[j].1@, member));
        }
    }
}

/// For a list of struct members, builds the list that maps each type reachable through
/// them to the members through which it is reached.
fn collect_struct_accessors(members: &Vec<Rc<StructMember>>) -> (acc: Vec<(DataType, Vec<Rc<StructMember>>)>)
    ensures
        accessors_agree(members@, acc@, members@.len() as int),
{
    let mut acc: Vec<(DataType, Vec<Rc<StructMember>>)> = Vec::new();
    let mut i: usize = 0;
    while i < members.len()
        invariant
            i <= members.len(),
            accessors_agree(members@, acc@, i as int),
        decreases members.len() - i,
    {
        let member = &members[i];
        let keys = member_keys(&member.data_type);
        let ghost before = acc@;
        file_member(&mut acc, &keys, member);
        proof {
            lemma_agree_step(members@, before, acc@, keys@, i as int);
        }
        i = i + 1;
    }
    acc
}

proof fn lemma_agree_step(
    members: Seq<Rc<StructMember>>,
    before: Seq<(DataType, Vec<Rc<StructMember>>)>,
    acc: Seq<(DataType, Vec<Rc<StructMember>>)>,
    keys: Seq<DataType>,
    i: int,
)
    requires
        0 <= i < members.len(),
        accessors_agree(members, before, i),
        forall|k: DataType| #![trigger covers(keys, k)] covers(keys, k) <==> is_access_key(members[i].data_type, k),
        distinct_types(accessor_keys(acc)),
        nonempty_entries(acc),
        entries_without_repeats(acc),
        entries_grow(before, acc),
        forall|j: int, m: Rc<StructMember>|
            0 <= j < acc.len() && #[trigger] acc[j].1@.contains(m) ==> (j < before.len() && before[j].1@.contains(m))
                || (m == members[i] && covers(keys, acc[j].0)),
        forall|p: int| 0 <= p < keys.len() ==> #[trigger] filed_under(acc, keys[p], members[i]),
    ensures
        accessors_agree(members, acc, i + 1),
{
    assert forall|j: int, m: Rc<StructMember>|
        0 <= j < acc.len() && #[trigger] acc[j].1@.contains(m) implies exists|i2: int|
            0 <= i2 < i + 1 && members[i2] == m && is_access_key((#[trigger] members[i2]).data_type, acc[j].0) by {
        if j < before.len() && before[j].1@.contains(m) {
            let i2 = choose|i2: int|
                0 <= i2 < i && members[i2] == m && is_access_key((#[trigger] members[i2]).data_type, before[j].0);
            assert(acc[j].0 == before[j].0);
            assert(is_access_key(members[i2].data_type, acc[j].0));
        } else {
            assert(covers(keys, acc[j].0));
            assert(is_access_key(members[i].data_type, acc[j].0));
        }
    }
    assert forall|i2: int, k: DataType|
        0 <= i2 < i + 1 && #[trigger] is_access_key(members[i2].data_type, k) implies filed_under(acc, k, members[i2]) by {
        if i2 < i {
            assert(filed_under(before, k, members[i2]));
            let j = choose|j: int|
                0 <= j < before.len() && type_eq((#[trigger] before[j]).0, k) && holds_member(before[j].1@, members[i2]);
            let x = choose|x: int| 0 <= x < before[j].1@.len() && member_eq(#[trigger] before[j].1@[x], members[i2]);
            assert(acc[j].0 == before[j].0);
            assert(extends(before[j].1@, acc[j].1@));
            assert(acc[j].1@[x] == before[j].1@[x]);
            assert(holds_member(acc[j].1@, members[i2]));
        } else {
            assert(covers(keys, k));
            let p = choose|p: int| 0 <= p < keys.len() && type_eq(#[trigger] keys[p], k);
            assert(filed_under(acc, keys[p], members[i]));
            let j = choose|j: int|
                0 <= j < acc.len() && type_eq((#[trigger] acc[j]).0, keys[p]) && holds_member(acc[j].1@, members[i]);
            lemma_type_eq_trans(acc[j].0, keys[p], k);
        }
    }
}

impl StructDecl {
    pub fn new(name: String, members: Vec<Rc<StructMember>>) -> (r: Rc<StructDecl>)
        ensures
            r.name == name,
            r.members == members,
            r.wf(),
    {
        let entries = collect_struct_accessors(&members);
        Rc::new(StructDecl { name, members, accessors: AccessorMap { entries } })
    }
}

impl StructDecl {
    /// Returns all types that can be accessed (directly or indirectly) through this struct type.
    pub fn accessible_types(&self) -> (r: Vec<DataType>)
        ensures
            r@ == self.spec_accessible_types(),
    {
        let mut r: Vec<DataType> = Vec::new();
        let mut j: usize = 0;
        while j < self.accessors.entries.len()
            invariant
                j <= self.accessors.entries.len(),
                r@ =~= accessor_keys(self.accessors.entries@.take(j as int)),
            decreases self.accessors.entries.len() - j,
        {
            r.push(self.accessors.entries[j].0.clone());
            j = j + 1;
            assert(r@ =~= accessor_keys(self.accessors.entries@.take(j as int)));
        }
        assert(self.accessors.entries@.take(j as int) =~= self.accessors.entries@);
        r
    }

    /// Returns a list of members through which the specified type may be accessed (directly or
    /// indirectly).
    pub fn accessors_of(&self, ty: &DataType) -> (r: &[Rc<StructMember>])
        requires
            self.wf(),
        ensures
            r@ == self.spec_accessors_of(*ty),
    {
        let mut j: usize = 0;
        while j < self.accessors.entries.len()
            invariant
                j <= self.accessors.entries.len(),
                self.wf(),
                forall|p: int| 0 <= p < j ==> !type_eq((#[trigger] self.accessors.entries@[p]).0, *ty),
            decreases self.accessors.entries.len() - j,
        {
            if self.accessors.entries[j].0.eq_type(ty) {
                proof {
                    let entries = self.accessors.entries@;
                    let c = choose|c: int| 0 <= c < entries.len() && type_eq(#[trigger] entries[c].0, *ty);
                    if c != j {
                        lemma_type_eq_symm(entries[c].0, *ty);
                        lemma_type_eq_trans(entries[j as int].0, *ty, entries[c].0);
                        assert(accessor_keys(entries)[j as int] == entries[j as int].0);
                        assert(accessor_keys(entries)[c] == entries[c].0);
                    }
                }
                return self.accessors.entries[j].1.as_slice();
            }
            j = j + 1;
        }
        &[]
    }
}

/// Law of `StructDecl::new`: the types reachable through a structure are, without
/// repetition, exactly the types reachable through one of its members (its type, a
/// component or smaller swizzle of a vector, a type reachable through the elements of an
/// array, or a type reachable through a nested structure).
pub proof fn law_accessible_types(decl: StructDecl, k: DataType)
    requires
        decl.wf(),
    ensures
        distinct_types(decl.spec_accessible_types()),
        covers(decl.spec_accessible_types(), k) <==> exists|i: int|
            0 <= i < decl.members@.len() && #[trigger] is_access_key(decl.members@[i].data_type, k),
{
    let entries = decl.accessors.entries@;
    let keys = decl.spec_accessible_types();
    if covers(keys, k) {
        let q = choose|q: int| 0 <= q < keys.len() && type_eq(#[trigger] keys[q], k);
        assert(keys[q] == entries[q].0);
        assert(entries[q].1@.len() > 0);
        let m = entries[q].1@[0];
        assert(entries[q].1@.contains(m));
        let i = choose|i: int|
            0 <= i < decl.members@.len() && decl.members@[i] == m && is_access_key(
                (#[trigger] decl.members@[i]).data_type,
                entries[q].0,
            );
        lemma_access_key_respects_eq(member_type(decl.members@[i]), entries[q].0, k);
    }
    if exists|i: int| 0 <= i < decl.members@.len() && #[trigger] is_access_key(decl.members@[i].data_type, k) {
        let i = choose|i: int| 0 <= i < decl.members@.len() && #[trigger] is_access_key(decl.members@[i].data_type, k);
        assert(filed_under(entries, k, decl.members@[i]));
        let j = choose|j: int|
            0 <= j < entries.len() && type_eq((#[trigger] entries[j]).0, k) && holds_member(
                entries[j].1@,
                decl.members@[i],
            );
        assert(keys[j] == entries[j].0);
    }
}

/// Law of `StructDecl::accessors_of`: the members listed for a type are members through
/// which the type is reached; each member through which it is reached is listed (itself,
/// or the first member equal to it); no member is listed twice; and where no two members
/// of the structure are the same, a member is listed exactly when the type is reached
/// through it.
pub proof fn law_accessors_of(decl: StructDecl, ty: DataType, m: Rc<StructMember>)
    requires
        decl.wf(),
    ensures
        no_repeats(decl.spec_accessors_of(ty)),
        decl.spec_accessors_of(ty).contains(m) ==> exists|i: int|
            0 <= i < decl.members@.len() && decl.members@[i] == m && #[trigger] is_access_key(
                decl.members@[i].data_type,
                ty,
            ),
        holds_member(decl.spec_accessors_of(ty), m) <==> exists|i: int|
            0 <= i < decl.members@.len() && member_eq(decl.members@[i], m) && #[trigger] is_access_key(
                decl.members@[i].data_type,
                ty,
            ),
        no_repeats(decl.members@) ==> (decl.spec_accessors_of(ty).contains(m) <==> exists|i: int|
            0 <= i < decl.members@.len() && decl.members@[i] == m && #[trigger] is_access_key(
                decl.members@[i].data_type,
                ty,
            )),
{
    let entries = decl.accessors.entries@;
    let list = decl.spec_accessors_of(ty);
    if exists|j: int| 0 <= j < entries.len() && type_eq(#[trigger] entries[j].0, ty) {
        let c = choose|c: int| 0 <= c < entries.len() && type_eq(#[trigger] entries[c].0, ty);
        assert(list == entries[c].1@);
        assert(no_repeats(entries[c].1@));
    }
    if list.contains(m) {
        let j = choose|j: int| 0 <= j < entries.len() && type_eq(#[trigger] entries[j].0, ty);
        assert(entries[j].1@.contains(m));
        let i = choose|i: int|
            0 <= i < decl.members@.len() && decl.members@[i] == m && is_access_key(
                (#[trigger] decl.members@[i]).data_type,
                entries[j].0,
            );
        lemma_access_key_respects_eq(member_type(decl.members@[i]), entries[j].0, ty);
    }
    if holds_member(list, m) {
        let x = choose|x: int| 0 <= x < list.len() && member_eq(#[trigger] list[x], m);
        assert(list.contains(list[x]));
        let j = choose|j: int| 0 <= j < entries.len() && type_eq(#[trigger] entries[j].0, ty);
        assert(entries[j].1@.contains(list[x]));
        let i = choose|i: int|
            0 <= i < decl.members@.len() && decl.members@[i] == list[x] && is_access_key(
                (#[trigger] decl.members@[i]).data_type,
                entries[j].0,
            );
        lemma_access_key_respects_eq(member_type(decl.members@[i]), entries[j].0, ty);
        assert(member_eq(decl.members@[i], m));
    }
    if exists|i: int|
        0 <= i < decl.members@.len() && member_eq(decl.members@[i], m) && #[trigger] is_access_key(
            decl.members@[i].data_type,
            ty,
        ) {
        let i = choose|i: int|
            0 <= i < decl.members@.len() && member_eq(decl.members@[i], m) && #[trigger] is_access_key(
                decl.members@[i].data_type,
                ty,
            );
        lemma_filed_entry_is_listed(decl, ty, i);
        let x = choose|x: int| 0 <= x < list.len() && member_eq(#[trigger] list[x], decl.members@[i]);
        lemma_member_eq_trans(list[x], decl.members@[i], m);
    }
    if no_repeats(decl.members@) && exists|i: int|
        0 <= i < decl.members@.len() && decl.members@[i] == m && #[trigger] is_access_key(
            decl.members@[i].data_type,
            ty,
        ) {
        let i = choose|i: int|
            0 <= i < decl.members@.len() && decl.members@[i] == m && #[trigger] is_access_key(
                decl.members@[i].data_type,
                ty,
            );
        lemma_filed_entry_is_listed(decl, ty, i);
        let x = choose|x: int| 0 <= x < list.len() && member_eq(#[trigger] list[x], decl.members@[i]);
        let j = choose|j: int| 0 <= j < entries.len() && type_eq(#[trigger] entries[j].0, ty);
        assert(list.contains(list[x]));
        assert(entries[j].1@.contains(list[x]));
        let i2 = choose|i2: int|
            0 <= i2 < decl.members@.len() && decl.members@[i2] == list[x] && is_access_key(
                (#[trigger] decl.members@[i2]).data_type,
                entries[j].0,
            );
        if i2 < i {
            assert(!member_eq(decl.members@[i2], decl.members@[i]));
        } else if i < i2 {
            lemma_member_eq_symm(decl.members@[i2], decl.members@[i]);
            assert(!member_eq(decl.members@[i], decl.members@[i2]));
        }
        assert(list[x] == m);
    }
}

/// The member at `i`, through which `ty` is reached, is listed for `ty` as the same member.
proof fn lemma_filed_entry_is_listed(decl: StructDecl, ty: DataType, i: int)
    requires
        decl.wf(),
        0 <= i < decl.members@.len(),
        is_access_key(decl.members@[i].data_type, ty),
    ensures
        holds_member(decl.spec_accessors_of(ty), decl.members@[i]),
{
    let entries = decl.accessors.entries@;
    assert(filed_under(entries, ty, decl.members@[i]));
    let j = choose|j: int|
        0 <= j < entries.len() && type_eq((#[trigger] entries[j]).0, ty) && holds_member(
            entries[j].1@,
            decl.members@[i],
        );
    let c = choose|c: int| 0 <= c < entries.len() && type_eq(#[trigger] entries[c].0, ty);
    if c != j {
        lemma_type_eq_symm(entries[c].0, ty);
        lemma_type_eq_trans(entries[j].0, ty, entries[c].0);
        assert(accessor_keys(entries)[j] == entries[j].0);
        assert(accessor_keys(entries)[c] == entries[c].0);
    }
}

} // verus!
