use std::rc::Rc;
use wgslsmith::ast::builtins::BuiltinFn;
use wgslsmith::ast::types::{DataType, ScalarType};
use wgslsmith::generator::builtins::{gen_builtins, Func};
use wgslsmith::generator::overloads::builtin_entries;

fn count(fs: Option<&Vec<Rc<Func>>>, b: BuiltinFn) -> usize {
    match fs {
        None => 0,
        Some(fs) => fs
            .iter()
            .filter(|f| match &***f {
                Func::Builtin(x, _) => *x == b,
            })
            .count(),
    }
}

#[test]
fn first_overload_for_i32_is_abs_of_i32() {
    let map = gen_builtins(false, false);
    let fs = map.get(&DataType::Scalar(ScalarType::I32)).unwrap();
    match &*fs[0] {
        Func::Builtin(b, o) => {
            assert_eq!(*b, BuiltinFn::Abs);
            assert_eq!(o.params.len(), 1);
            assert!(matches!(o.params[0], DataType::Scalar(ScalarType::I32)));
            assert!(matches!(o.return_type, DataType::Scalar(ScalarType::I32)));
        }
    }
}

#[test]
fn vector_results_are_offered_for_their_components() {
    let map = gen_builtins(false, false);
    let i32s = map.get(&DataType::Scalar(ScalarType::I32));
    // abs of i32, vec2, vec3 and vec4 of i32: each gives access to an i32
    assert_eq!(count(i32s, BuiltinFn::Abs), 4);
    // dot of the three vector types of i32 returns an i32
    assert_eq!(count(i32s, BuiltinFn::Dot), 3);
    let vec2s = map.get(&DataType::Vector(2, ScalarType::I32));
    // abs of vec2, vec3 and vec4 of i32 gives access to a vec2
    assert_eq!(count(vec2s, BuiltinFn::Abs), 3);
    assert_eq!(count(vec2s, BuiltinFn::Dot), 0);
}

#[test]
fn unstable_float_functions_only_when_enabled() {
    let stable = gen_builtins(false, false);
    let f32s = stable.get(&DataType::Scalar(ScalarType::F32));
    assert_eq!(count(f32s, BuiltinFn::Sin), 0);
    assert_eq!(count(f32s, BuiltinFn::Floor), 4);
    let unstable = gen_builtins(true, false);
    let f32s = unstable.get(&DataType::Scalar(ScalarType::F32));
    assert_eq!(count(f32s, BuiltinFn::Sin), 4);
    assert_eq!(count(f32s, BuiltinFn::QuantizeToF16), 4);
    // length of f32 and its vectors returns f32
    assert_eq!(count(f32s, BuiltinFn::Length), 4);
    let vec3s = unstable.get(&DataType::Vector(3, ScalarType::F32));
    assert_eq!(count(vec3s, BuiltinFn::Cross), 1);
}

#[test]
fn collectives_only_when_enabled() {
    let plain = gen_builtins(false, false);
    let ballots = plain.get(&DataType::Vector(4, ScalarType::U32));
    assert_eq!(count(ballots, BuiltinFn::SubgroupBallot), 0);
    let with = gen_builtins(false, true);
    let ballots = with.get(&DataType::Vector(4, ScalarType::U32));
    assert_eq!(count(ballots, BuiltinFn::SubgroupBallot), 1);
    let u32s = with.get(&DataType::Scalar(ScalarType::U32));
    assert_eq!(count(u32s, BuiltinFn::SubgroupBallot), 1);
    // uniform loads of a u32 and of an atomic u32
    assert_eq!(count(u32s, BuiltinFn::WorkgroupUniformLoad), 2);
}

#[test]
fn atomics_are_filed_under_their_results() {
    let map = gen_builtins(false, false);
    let results = map.get(&DataType::AtomicCompareExchangeResult(ScalarType::I32));
    assert_eq!(count(results, BuiltinFn::AtomicCompareExchangeWeak), 1);
    let i32s = map.get(&DataType::Scalar(ScalarType::I32));
    assert_eq!(count(i32s, BuiltinFn::AtomicAdd), 1);
    assert_eq!(count(i32s, BuiltinFn::AtomicLoad), 1);
}

#[test]
fn nothing_is_filed_under_an_atomic_scalar_type() {
    let map = gen_builtins(true, true);
    assert!(map.get(&DataType::Scalar(ScalarType::AU32)).is_none());
}

#[test]
fn table_sizes() {
    // numeric: 3 scalars x (4 types x 4 + 3 dots); sign: 4; all/any: 6;
    // select: 4 scalars x (4 + 3); integers: 2 x (8 + 2 + 4 x 8); floats: 4 x 10
    assert_eq!(builtin_entries(false, false).len(), 57 + 4 + 6 + 28 + 84 + 40);
}

#[test]
fn every_listed_overload_is_typed_as_listed() {
    for (uf, c) in [(false, false), (true, false), (false, true), (true, true)] {
        for (f, params, ret) in builtin_entries(uf, c) {
            let typed = f.return_type(&params).expect("a listed overload has a return type");
            assert!(typed.eq_type(&ret), "{f:?}");
        }
    }
}
