//! Which kind of statement the generator writes next.
use rand::distributions::{Distribution, WeightedIndex};
use rand::rngs::StdRng;
use vstd::prelude::*;

verus! {

/// The kinds of statement the generator writes.
#[derive(Clone, Copy, Debug, PartialEq, Eq, Structural)]
pub enum StatementType {
    LetDecl,
    VarDecl,
    Assignment,
    If,
    Return,
    Loop,
    Switch,
    ForLoop,
    Break,
    Continue,
}

/// The kinds of statement allowed where the generator stands: declarations and
/// `return` always; `break` and `continue` inside a loop; an assignment where some
/// variable may be assigned to; the statements that open a block where blocks may
/// still nest.
pub open spec fn spec_allowed_statements(is_loop: bool, has_mutables: bool, can_nest: bool) -> Seq<StatementType> {
    seq![StatementType::LetDecl, StatementType::VarDecl, StatementType::Return] + (if is_loop {
        seq![StatementType::Break, StatementType::Continue]
    } else {
        Seq::empty()
    }) + (if has_mutables {
        seq![StatementType::Assignment]
    } else {
        Seq::empty()
    }) + if can_nest {
        seq![StatementType::If, StatementType::Loop, StatementType::Switch, StatementType::ForLoop]
    } else {
        Seq::empty()
    }
}

/// The kinds of statement allowed where the generator stands, in the order they are
/// weighed.
pub fn allowed_statements(is_loop: bool, has_mutables: bool, can_nest: bool) -> (r: Vec<StatementType>)
    ensures
        r@ == spec_allowed_statements(is_loop, has_mutables, can_nest),
{
    let mut allowed = vec![StatementType::LetDecl, StatementType::VarDecl, StatementType::Return];
    assert(allowed@ =~= seq![StatementType::LetDecl, StatementType::VarDecl, StatementType::Return]);
    let ghost a = allowed@;
    if is_loop {
        allowed.push(StatementType::Break);
        allowed.push(StatementType::Continue);
    }
    let ghost b = allowed@;
    if has_mutables {
        allowed.push(StatementType::Assignment);
    }
    let ghost c = allowed@;
    if can_nest {
        allowed.push(StatementType::If);
        allowed.push(StatementType::Loop);
        allowed.push(StatementType::Switch);
        allowed.push(StatementType::ForLoop);
    }
    assert(allowed@ =~= spec_allowed_statements(is_loop, has_mutables, can_nest));
    allowed
}

/// How likely the generator is to write a statement of kind `t`, relative to the
/// others allowed.
pub open spec fn spec_statement_weight(t: StatementType) -> u32 {
    match t {
        StatementType::LetDecl => 10,
        StatementType::VarDecl => 10,
        StatementType::Assignment => 10,
        StatementType::If => 5,
        StatementType::Return => 1,
        StatementType::Loop => 5,
        StatementType::Switch => 5,
        StatementType::ForLoop => 5,
        StatementType::Break => 5,
        StatementType::Continue => 5,
    }
}

/// How likely the generator is to write a statement of kind `t`.
pub fn statement_weight(t: StatementType) -> (r: u32)
    ensures
        r == spec_statement_weight(t),
{
    match t {
        StatementType::LetDecl => 10,
        StatementType::VarDecl => 10,
        StatementType::Assignment => 10,
        StatementType::If => 5,
        StatementType::Return => 1,
        StatementType::Loop => 5,
        StatementType::Switch => 5,
        StatementType::ForLoop => 5,
        StatementType::Break => 5,
        StatementType::Continue => 5,
    }
}

/// Draws an index by `rand::distributions::WeightedIndex` over `weights`, as
/// `SliceRandom::choose_weighted` does. By the crate's source the weights are summed
/// (in `u32`, which the bounds here keep from overflowing) and construction fails
/// only where there are none or all are zero; a draw gives an index of the list.
/// Which index comes out is left to `rng`.
#[verifier::external_body]
fn choose_weighted_index(rng: &mut StdRng, weights: &Vec<u32>) -> (r: Option<usize>)
    requires
        weights@.len() <= 1000,
        forall|i: int| 0 <= i < weights@.len() ==> weights@[i] <= 1000,
    ensures
        r matches Some(i) ==> i < weights@.len(),
        weights@.len() > 0 && (forall|i: int| 0 <= i < weights@.len() ==> weights@[i] > 0) ==> r is Some,
{
    match WeightedIndex::new(weights.iter()) {
        Ok(distr) => Some(distr.sample(rng)),
        Err(_) => None,
    }
}

/// The weights of the kinds of statement in `allowed`, in the same order.
pub fn statement_weights(allowed: &Vec<StatementType>) -> (r: Vec<u32>)
    ensures
        r@.len() == allowed@.len(),
        forall|j: int| 0 <= j < r@.len() ==> r@[j] == spec_statement_weight(#[trigger] allowed@[j]),
{
    let mut weights: Vec<u32> = Vec::new();
    let mut i: usize = 0;
    while i < allowed.len()
        invariant
            i <= allowed@.len(),
            weights@.len() == i,
            forall|j: int| 0 <= j < i ==> weights@[j] == spec_statement_weight(#[trigger] allowed@[j]),
        decreases allowed.len() - i,
    {
        weights.push(statement_weight(allowed[i]));
        i = i + 1;
    }
    weights
}

/// The kind of statement at position `i` among those allowed where the generator stands.
pub fn statement_at(is_loop: bool, has_mutables: bool, can_nest: bool, i: usize) -> (r: StatementType)
    requires
        i < spec_allowed_statements(is_loop, has_mutables, can_nest).len(),
    ensures
        r == spec_allowed_statements(is_loop, has_mutables, can_nest)[i as int],
{
    let allowed = allowed_statements(is_loop, has_mutables, can_nest);
    allowed[i]
}

/// Picks the kind of the next statement among those allowed, as `rng` decides by
/// their weights (`statement_weights` of `allowed_statements`).
pub fn choose_statement_type(rng: &mut StdRng, is_loop: bool, has_mutables: bool, can_nest: bool) -> (r: StatementType)
    ensures
        spec_allowed_statements(is_loop, has_mutables, can_nest).contains(r),
{
    let allowed = allowed_statements(is_loop, has_mutables, can_nest);
    let weights = statement_weights(&allowed);
    assert forall|j: int| 0 <= j < weights@.len() implies 0 < #[trigger] weights@[j] <= 1000 by {
        assert(weights@[j] == spec_statement_weight(allowed@[j]));
    }
    let idx = choose_weighted_index(rng, &weights).unwrap();
    let r = statement_at(is_loop, has_mutables, can_nest, idx);
    assert(spec_allowed_statements(is_loop, has_mutables, can_nest)[idx as int] == r);
    r
}

} // verus!
