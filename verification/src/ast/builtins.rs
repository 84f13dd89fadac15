use crate::ast::types::{spec_as_scalar, spec_dereference, DataType, ScalarType};
use vstd::prelude::*;

verus! {

/// The built-in functions of the shading language.
#[derive(Clone, Copy, Debug, PartialEq, Eq, Hash, Structural)]
pub enum BuiltinFn {
    Abs,
    Acos,
    Acosh,
    All,
    Any,
    ArrayLength,
    Asin,
    Asinh,
    Atan,
    Atanh,
    Atan2,
    AtomicAdd,
    AtomicAnd,
    AtomicCompareExchangeWeak,
    AtomicExchange,
    AtomicLoad,
    AtomicMax,
    AtomicMin,
    AtomicOr,
    AtomicStore,
    AtomicSub,
    AtomicXor,
    Ceil,
    Clamp,
    Cos,
    Cosh,
    CountLeadingZeros,
    CountOneBits,
    CountTrailingZeros,
    Cross,
    Degrees,
    Distance,
    Dot,
    Exp,
    Exp2,
    ExtractBits,
    FaceForward,
    FirstLeadingBit,
    FirstTrailingBit,
    Floor,
    Fma,
    Fract,
    InsertBits,
    InverseSqrt,
    Ldexp,
    Length,
    Log,
    Log2,
    Max,
    Min,
    Mix,
    Normalize,
    Pow,
    QuantizeToF16,
    Radians,
    Reflect,
    Refract,
    ReverseBits,
    Round,
    Saturate,
    Select,
    ShiftLeft,
    ShiftRight,
    Sign,
    Sin,
    Sinh,
    Smoothstep,
    Sqrt,
    Step,
    Tan,
    Tanh,
    Trunc,
    SubgroupAdd,
    SubgroupAnd,
    SubgroupExclusiveAdd,
    SubgroupInclusiveAdd,
    SubgroupAll,
    SubgroupAny,
    SubgroupBallot,
    SubgroupBroadcast,
    SubgroupBroadcastFirst,
    SubgroupElect,
    SubgroupMax,
    SubgroupMin,
    SubgroupMul,
    SubgroupExclusiveMul,
    SubgroupInclusiveMul,
    SubgroupOr,
    SubgroupShuffle,
    SubgroupShuffleDown,
    SubgroupShuffleUp,
    SubgroupShuffleXor,
    SubgroupXor,
    StorageBarrier,
    TextureBarrier,
    WorkgroupBarrier,
    WorkgroupUniformLoad,
}

/// The built-in functions that must be called in uniform control flow.
pub open spec fn spec_requires_uniformity(f: BuiltinFn) -> bool {
    match f {
        BuiltinFn::SubgroupAdd
        | BuiltinFn::SubgroupAnd
        | BuiltinFn::SubgroupExclusiveAdd
        | BuiltinFn::SubgroupInclusiveAdd
        | BuiltinFn::SubgroupAll
        | BuiltinFn::SubgroupAny
        | BuiltinFn::SubgroupBallot
        | BuiltinFn::SubgroupBroadcast
        | BuiltinFn::SubgroupBroadcastFirst
        | BuiltinFn::SubgroupElect
        | BuiltinFn::SubgroupMax
        | BuiltinFn::SubgroupMin
        | BuiltinFn::SubgroupMul
        | BuiltinFn::SubgroupExclusiveMul
        | BuiltinFn::SubgroupInclusiveMul
        | BuiltinFn::SubgroupOr
        | BuiltinFn::SubgroupShuffle
        | BuiltinFn::SubgroupShuffleDown
        | BuiltinFn::SubgroupShuffleUp
        | BuiltinFn::SubgroupShuffleXor
        | BuiltinFn::SubgroupXor
        | BuiltinFn::WorkgroupUniformLoad
        | BuiltinFn::StorageBarrier
        | BuiltinFn::TextureBarrier
        | BuiltinFn::WorkgroupBarrier => true,
        _ => false,
    }
}

/// The built-in functions whose result has the type of their first argument.
pub open spec fn returns_first_param(f: BuiltinFn) -> bool {
    match f {
        BuiltinFn::Abs
        | BuiltinFn::Acos
        | BuiltinFn::Acosh
        | BuiltinFn::Asin
        | BuiltinFn::Asinh
        | BuiltinFn::Atan
        | BuiltinFn::Atanh
        | BuiltinFn::Atan2
        | BuiltinFn::Ceil
        | BuiltinFn::Clamp
        | BuiltinFn::Cos
        | BuiltinFn::Cosh
        | BuiltinFn::CountLeadingZeros
        | BuiltinFn::CountOneBits
        | BuiltinFn::CountTrailingZeros
        | BuiltinFn::Cross
        | BuiltinFn::Degrees
        | BuiltinFn::Exp
        | BuiltinFn::Exp2
        | BuiltinFn::ExtractBits
        | BuiltinFn::FaceForward
        | BuiltinFn::FirstLeadingBit
        | BuiltinFn::FirstTrailingBit
        | BuiltinFn::Floor
        | BuiltinFn::Fma
        | BuiltinFn::Fract
        | BuiltinFn::InsertBits
        | BuiltinFn::InverseSqrt
        | BuiltinFn::Ldexp
        | BuiltinFn::Log
        | BuiltinFn::Log2
        | BuiltinFn::Max
        | BuiltinFn::Min
        | BuiltinFn::Mix
        | BuiltinFn::Normalize
        | BuiltinFn::Pow
        | BuiltinFn::QuantizeToF16
        | BuiltinFn::Radians
        | BuiltinFn::Reflect
        | BuiltinFn::Refract
        | BuiltinFn::ReverseBits
        | BuiltinFn::Round
        | BuiltinFn::Saturate
        | BuiltinFn::Select
        | BuiltinFn::ShiftLeft
        | BuiltinFn::ShiftRight
        | BuiltinFn::Sign
        | BuiltinFn::Sin
        | BuiltinFn::Sinh
        | BuiltinFn::Smoothstep
        | BuiltinFn::Sqrt
        | BuiltinFn::Step
        | BuiltinFn::Tan
        | BuiltinFn::Tanh
        | BuiltinFn::Trunc
        | BuiltinFn::SubgroupAdd
        | BuiltinFn::SubgroupAnd
        | BuiltinFn::SubgroupExclusiveAdd
        | BuiltinFn::SubgroupInclusiveAdd
        | BuiltinFn::SubgroupBroadcast
        | BuiltinFn::SubgroupBroadcastFirst
        | BuiltinFn::SubgroupMax
        | BuiltinFn::SubgroupMin
        | BuiltinFn::SubgroupMul
        | BuiltinFn::SubgroupExclusiveMul
        | BuiltinFn::SubgroupInclusiveMul
        | BuiltinFn::SubgroupOr
        | BuiltinFn::SubgroupShuffle
        | BuiltinFn::SubgroupShuffleDown
        | BuiltinFn::SubgroupShuffleUp
        | BuiltinFn::SubgroupShuffleXor
        | BuiltinFn::SubgroupXor => true,
        _ => false,
    }
}

/// The atomic read-modify-write functions, which return the atomic's scalar type.
pub open spec fn is_atomic_rmw(f: BuiltinFn) -> bool {
    match f {
        BuiltinFn::AtomicAdd
        | BuiltinFn::AtomicAnd
        | BuiltinFn::AtomicExchange
        | BuiltinFn::AtomicLoad
        | BuiltinFn::AtomicMax
        | BuiltinFn::AtomicMin
        | BuiltinFn::AtomicOr
        | BuiltinFn::AtomicSub
        | BuiltinFn::AtomicXor => true,
        _ => false,
    }
}

/// The (dereferenced) type of the first argument, if there is one.
pub open spec fn spec_first_param(params: Seq<DataType>) -> Option<DataType> {
    if params.len() > 0 {
        Some(spec_dereference(params[0]))
    } else {
        None
    }
}

/// The result type of a built-in function, given the argument types; `None` where the
/// function returns nothing or the arguments do not fit.
pub open spec fn spec_return_type(f: BuiltinFn, params: Seq<DataType>) -> Option<DataType> {
    let first = spec_first_param(params);
    if returns_first_param(f) {
        first
    } else if is_atomic_rmw(f) || f == BuiltinFn::AtomicCompareExchangeWeak {
        match first {
            Some(DataType::Ptr(view)) => match *view.inner {
                DataType::Atomic(t) => if f == BuiltinFn::AtomicCompareExchangeWeak {
                    Some(DataType::AtomicCompareExchangeResult(t))
                } else {
                    Some(DataType::Scalar(t))
                },
                _ => None,
            },
            _ => None,
        }
    } else if f == BuiltinFn::WorkgroupUniformLoad {
        match first {
            Some(DataType::Ptr(view)) => match *view.inner {
                DataType::Atomic(t) => Some(DataType::Scalar(t)),
                _ => Some(*view.inner),
            },
            _ => None,
        }
    } else {
        match f {
            BuiltinFn::All | BuiltinFn::Any | BuiltinFn::SubgroupAll | BuiltinFn::SubgroupAny
            | BuiltinFn::SubgroupElect => Some(DataType::Scalar(ScalarType::Bool)),
            BuiltinFn::ArrayLength => Some(DataType::Scalar(ScalarType::U32)),
            BuiltinFn::SubgroupBallot => Some(DataType::Vector(4, ScalarType::U32)),
            BuiltinFn::Distance | BuiltinFn::Dot | BuiltinFn::Length => match first {
                Some(t) => match spec_as_scalar(t) {
                    Some(s) => Some(DataType::Scalar(s)),
                    None => None,
                },
                None => None,
            },
            _ => None,
        }
    }
}

/// The name of a built-in function in shader source.
pub open spec fn spec_builtin_name(f: BuiltinFn) -> Seq<char> {
    match f {
        BuiltinFn::Abs => "abs"@,
        BuiltinFn::Acos => "acos"@,
        BuiltinFn::Acosh => "acosh"@,
        BuiltinFn::All => "all"@,
        BuiltinFn::Any => "any"@,
        BuiltinFn::ArrayLength => "arrayLength"@,
        BuiltinFn::Asin => "asin"@,
        BuiltinFn::Asinh => "asinh"@,
        BuiltinFn::Atan => "atan"@,
        BuiltinFn::Atanh => "atanh"@,
        BuiltinFn::Atan2 => "atan2"@,
        BuiltinFn::AtomicAdd => "atomicAdd"@,
        BuiltinFn::AtomicAnd => "atomicAnd"@,
        BuiltinFn::AtomicCompareExchangeWeak => "atomicCompareExchangeWeak"@,
        BuiltinFn::AtomicExchange => "atomicExchange"@,
        BuiltinFn::AtomicLoad => "atomicLoad"@,
        BuiltinFn::AtomicMax => "atomicMax"@,
        BuiltinFn::AtomicMin => "atomicMin"@,
        BuiltinFn::AtomicOr => "atomicOr"@,
        BuiltinFn::AtomicStore => "atomicStore"@,
        BuiltinFn::AtomicSub => "atomicSub"@,
        BuiltinFn::AtomicXor => "atomicXor"@,
        BuiltinFn::Ceil => "ceil"@,
        BuiltinFn::Clamp => "clamp"@,
        BuiltinFn::Cos => "cos"@,
        BuiltinFn::Cosh => "cosh"@,
        BuiltinFn::CountLeadingZeros => "countLeadingZeros"@,
        BuiltinFn::CountOneBits => "countOneBits"@,
        BuiltinFn::CountTrailingZeros => "countTrailingZeros"@,
        BuiltinFn::Cross => "cross"@,
        BuiltinFn::Degrees => "degrees"@,
        BuiltinFn::Distance => "distance"@,
        BuiltinFn::Dot => "dot"@,
        BuiltinFn::Exp => "exp"@,
        BuiltinFn::Exp2 => "exp2"@,
        BuiltinFn::ExtractBits => "extractBits"@,
        BuiltinFn::FaceForward => "faceForward"@,
        BuiltinFn::FirstLeadingBit => "firstLeadingBit"@,
        BuiltinFn::FirstTrailingBit => "firstTrailingBit"@,
        BuiltinFn::Floor => "floor"@,
        BuiltinFn::Fma => "fma"@,
        BuiltinFn::Fract => "fract"@,
        BuiltinFn::InsertBits => "insertBits"@,
        BuiltinFn::InverseSqrt => "inverseSqrt"@,
        BuiltinFn::Ldexp => "ldexp"@,
        BuiltinFn::Length => "length"@,
        BuiltinFn::Log => "log"@,
        BuiltinFn::Log2 => "log2"@,
        BuiltinFn::Max => "max"@,
        BuiltinFn::Min => "min"@,
        BuiltinFn::Mix => "mix"@,
        BuiltinFn::Normalize => "normalize"@,
        BuiltinFn::Pow => "pow"@,
        BuiltinFn::QuantizeToF16 => "quantizeToF16"@,
        BuiltinFn::Radians => "radians"@,
        BuiltinFn::Reflect => "reflect"@,
        BuiltinFn::Refract => "refract"@,
        BuiltinFn::ReverseBits => "reverseBits"@,
        BuiltinFn::Round => "round"@,
        BuiltinFn::Saturate => "saturate"@,
        BuiltinFn::Select => "select"@,
        BuiltinFn::ShiftLeft => "shiftLeft"@,
        BuiltinFn::ShiftRight => "shiftRight"@,
        BuiltinFn::Sign => "sign"@,
        BuiltinFn::Sin => "sin"@,
        BuiltinFn::Sinh => "sinh"@,
        BuiltinFn::Smoothstep => "smoothstep"@,
        BuiltinFn::Sqrt => "sqrt"@,
        BuiltinFn::Step => "step"@,
        BuiltinFn::Tan => "tan"@,
        BuiltinFn::Tanh => "tanh"@,
        BuiltinFn::Trunc => "trunc"@,
        BuiltinFn::SubgroupAdd => "subgroupAdd"@,
        BuiltinFn::SubgroupAnd => "subgroupAnd"@,
        BuiltinFn::SubgroupExclusiveAdd => "subgroupExclusiveAdd"@,
        BuiltinFn::SubgroupInclusiveAdd => "subgroupInclusiveAdd"@,
        BuiltinFn::SubgroupAll => "subgroupAll"@,
        BuiltinFn::SubgroupAny => "subgroupAny"@,
        BuiltinFn::SubgroupBallot => "subgroupBallot"@,
        BuiltinFn::SubgroupBroadcast => "subgroupBroadcast"@,
        BuiltinFn::SubgroupBroadcastFirst => "subgroupBroadcastFirst"@,
        BuiltinFn::SubgroupElect => "subgroupElect"@,
        BuiltinFn::SubgroupMax => "subgroupMax"@,
        BuiltinFn::SubgroupMin => "subgroupMin"@,
        BuiltinFn::SubgroupMul => "subgroupMul"@,
        BuiltinFn::SubgroupExclusiveMul => "subgroupExclusiveMul"@,
        BuiltinFn::SubgroupInclusiveMul => "subgroupInclusiveMul"@,
        BuiltinFn::SubgroupOr => "subgroupOr"@,
        BuiltinFn::SubgroupShuffle => "subgroupShuffle"@,
        BuiltinFn::SubgroupShuffleDown => "subgroupShuffleDown"@,
        BuiltinFn::SubgroupShuffleUp => "subgroupShuffleUp"@,
        BuiltinFn::SubgroupShuffleXor => "subgroupShuffleXor"@,
        BuiltinFn::SubgroupXor => "subgroupXor"@,
        BuiltinFn::StorageBarrier => "storageBarrier"@,
        BuiltinFn::TextureBarrier => "textureBarrier"@,
        BuiltinFn::WorkgroupBarrier => "workgroupBarrier"@,
        BuiltinFn::WorkgroupUniformLoad => "workgroupUniformLoad"@,
    }
}

impl BuiltinFn {
    pub fn requires_uniformity(&self) -> (r: bool)
        ensures
            r == spec_requires_uniformity(*self),
    {
        match self {
            BuiltinFn::SubgroupAdd
            | BuiltinFn::SubgroupAnd
            | BuiltinFn::SubgroupExclusiveAdd
            | BuiltinFn::SubgroupInclusiveAdd
            | BuiltinFn::SubgroupAll
            | BuiltinFn::SubgroupAny
            | BuiltinFn::SubgroupBallot
            | BuiltinFn::SubgroupBroadcast
            | BuiltinFn::SubgroupBroadcastFirst
            | BuiltinFn::SubgroupElect
            | BuiltinFn::SubgroupMax
            | BuiltinFn::SubgroupMin
            | BuiltinFn::SubgroupMul
            | BuiltinFn::SubgroupExclusiveMul
            | BuiltinFn::SubgroupInclusiveMul
            | BuiltinFn::SubgroupOr
            | BuiltinFn::SubgroupShuffle
            | BuiltinFn::SubgroupShuffleDown
            | BuiltinFn::SubgroupShuffleUp
            | BuiltinFn::SubgroupShuffleXor
            | BuiltinFn::SubgroupXor
            | BuiltinFn::WorkgroupUniformLoad
            | BuiltinFn::StorageBarrier
            | BuiltinFn::TextureBarrier
            | BuiltinFn::WorkgroupBarrier => true,
            _ => false,
        }
    }

    /// Determines the return type for a builtin function, given argument types.
    ///
    /// Note that this only does the bare minimum work for overload resolution and does not do any
    /// actual validation/type checking. In most cases it only looks at the first argument and
    /// doesn't even validate if the correct number of arguments have been supplied.
    pub fn return_type(&self, params: &[DataType]) -> (r: Option<DataType>)
        ensures
            r == spec_return_type(*self, params@),
    {
        let first = if params.len() > 0 {
            Some(params[0].dereference().clone())
        } else {
            None
        };
        match self {
            BuiltinFn::Abs
            | BuiltinFn::Acos
            | BuiltinFn::Acosh
            | BuiltinFn::Asin
            | BuiltinFn::Asinh
            | BuiltinFn::Atan
            | BuiltinFn::Atanh
            | BuiltinFn::Atan2
            | BuiltinFn::Ceil
            | BuiltinFn::Clamp
            | BuiltinFn::Cos
            | BuiltinFn::Cosh
            | BuiltinFn::CountLeadingZeros
            | BuiltinFn::CountOneBits
            | BuiltinFn::CountTrailingZeros
            | BuiltinFn::Cross
            | BuiltinFn::Degrees
            | BuiltinFn::Exp
            | BuiltinFn::Exp2
            | BuiltinFn::ExtractBits
            | BuiltinFn::FaceForward
            | BuiltinFn::FirstLeadingBit
            | BuiltinFn::FirstTrailingBit
            | BuiltinFn::Floor
            | BuiltinFn::Fma
            | BuiltinFn::Fract
            | BuiltinFn::InsertBits
            | BuiltinFn::InverseSqrt
            | BuiltinFn::Ldexp
            | BuiltinFn::Log
            | BuiltinFn::Log2
            | BuiltinFn::Max
            | BuiltinFn::Min
            | BuiltinFn::Mix
            | BuiltinFn::Normalize
            | BuiltinFn::Pow
            | BuiltinFn::QuantizeToF16
            | BuiltinFn::Radians
            | BuiltinFn::Reflect
            | BuiltinFn::Refract
            | BuiltinFn::ReverseBits
            | BuiltinFn::Round
            | BuiltinFn::Saturate
            | BuiltinFn::Select
            | BuiltinFn::ShiftLeft
            | BuiltinFn::ShiftRight
            | BuiltinFn::Sign
            | BuiltinFn::Sin
            | BuiltinFn::Sinh
            | BuiltinFn::Smoothstep
            | BuiltinFn::Sqrt
            | BuiltinFn::Step
            | BuiltinFn::Tan
            | BuiltinFn::Tanh
            | BuiltinFn::Trunc
            | BuiltinFn::SubgroupAdd
            | BuiltinFn::SubgroupAnd
            | BuiltinFn::SubgroupExclusiveAdd
            | BuiltinFn::SubgroupInclusiveAdd
            | BuiltinFn::SubgroupBroadcast
            | BuiltinFn::SubgroupBroadcastFirst
            | BuiltinFn::SubgroupMax
            | BuiltinFn::SubgroupMin
            | BuiltinFn::SubgroupMul
            | BuiltinFn::SubgroupExclusiveMul
            | BuiltinFn::SubgroupInclusiveMul
            | BuiltinFn::SubgroupOr
            | BuiltinFn::SubgroupShuffle
            | BuiltinFn::SubgroupShuffleDown
            | BuiltinFn::SubgroupShuffleUp
            | BuiltinFn::SubgroupShuffleXor
            | BuiltinFn::SubgroupXor => first,
            BuiltinFn::AtomicAdd
            | BuiltinFn::AtomicAnd
            | BuiltinFn::AtomicExchange
            | BuiltinFn::AtomicLoad
            | BuiltinFn::AtomicMax
            | BuiltinFn::AtomicMin
            | BuiltinFn::AtomicOr
            | BuiltinFn::AtomicSub
            | BuiltinFn::AtomicXor => match first {
                Some(DataType::Ptr(view)) => match &*view.inner {
                    DataType::Atomic(t) => Some(DataType::Scalar(*t)),
                    _ => None,
                },
                _ => None,
            },
            BuiltinFn::AtomicCompareExchangeWeak => match first {
                Some(DataType::Ptr(view)) => match &*view.inner {
                    DataType::Atomic(t) => Some(DataType::AtomicCompareExchangeResult(*t)),
                    _ => None,
                },
                _ => None,
            },
            BuiltinFn::WorkgroupUniformLoad => match first {
                Some(DataType::Ptr(view)) => match &*view.inner {
                    DataType::Atomic(t) => Some(DataType::Scalar(*t)),
                    inner => Some(inner.clone()),
                },
                _ => None,
            },
            BuiltinFn::All | BuiltinFn::Any | BuiltinFn::SubgroupAll | BuiltinFn::SubgroupAny
            | BuiltinFn::SubgroupElect => Some(DataType::Scalar(ScalarType::Bool)),
            BuiltinFn::ArrayLength => Some(DataType::Scalar(ScalarType::U32)),
            BuiltinFn::SubgroupBallot => Some(DataType::Vector(4, ScalarType::U32)),
            BuiltinFn::Distance | BuiltinFn::Dot | BuiltinFn::Length => match first {
                Some(t) => match t.as_scalar() {
                    Some(s) => Some(DataType::Scalar(s)),
                    None => None,
                },
                None => None,
            },
            BuiltinFn::AtomicStore
            | BuiltinFn::StorageBarrier
            | BuiltinFn::TextureBarrier
            | BuiltinFn::WorkgroupBarrier => None,
        }
    }

    /// The name of the function in shader source (camel case).
    pub fn name(&self) -> (r: &'static str)
        ensures
            r@ == spec_builtin_name(*self),
    {
        match self {
            BuiltinFn::Abs => {
                proof { reveal_strlit("abs"); }
                "abs"
            },
            BuiltinFn::Acos => {
                proof { reveal_strlit("acos"); }
                "acos"
            },
            BuiltinFn::Acosh => {
                proof { reveal_strlit("acosh"); }
                "acosh"
            },
            BuiltinFn::All => {
                proof { reveal_strlit("all"); }
                "all"
            },
            BuiltinFn::Any => {
                proof { reveal_strlit("any"); }
                "any"
            },
            BuiltinFn::ArrayLength => {
                proof { reveal_strlit("arrayLength"); }
                "arrayLength"
            },
            BuiltinFn::Asin => {
                proof { reveal_strlit("asin"); }
                "asin"
            },
            BuiltinFn::Asinh => {
                proof { reveal_strlit("asinh"); }
                "asinh"
            },
            BuiltinFn::Atan => {
                proof { reveal_strlit("atan"); }
                "atan"
            },
            BuiltinFn::Atanh => {
                proof { reveal_strlit("atanh"); }
                "atanh"
            },
            BuiltinFn::Atan2 => {
                proof { reveal_strlit("atan2"); }
                "atan2"
            },
            BuiltinFn::AtomicAdd => {
                proof { reveal_strlit("atomicAdd"); }
                "atomicAdd"
            },
            BuiltinFn::AtomicAnd => {
                proof { reveal_strlit("atomicAnd"); }
                "atomicAnd"
            },
            BuiltinFn::AtomicCompareExchangeWeak => {
                proof { reveal_strlit("atomicCompareExchangeWeak"); }
                "atomicCompareExchangeWeak"
            },
            BuiltinFn::AtomicExchange => {
                proof { reveal_strlit("atomicExchange"); }
                "atomicExchange"
            },
            BuiltinFn::AtomicLoad => {
                proof { reveal_strlit("atomicLoad"); }
                "atomicLoad"
            },
            BuiltinFn::AtomicMax => {
                proof { reveal_strlit("atomicMax"); }
                "atomicMax"
            },
            BuiltinFn::AtomicMin => {
                proof { reveal_strlit("atomicMin"); }
                "atomicMin"
            },
            BuiltinFn::AtomicOr => {
                proof { reveal_strlit("atomicOr"); }
                "atomicOr"
            },
            BuiltinFn::AtomicStore => {
                proof { reveal_strlit("atomicStore"); }
                "atomicStore"
            },
            BuiltinFn::AtomicSub => {
                proof { reveal_strlit("atomicSub"); }
                "atomicSub"
            },
            BuiltinFn::AtomicXor => {
                proof { reveal_strlit("atomicXor"); }
                "atomicXor"
            },
            BuiltinFn::Ceil => {
                proof { reveal_strlit("ceil"); }
                "ceil"
            },
            BuiltinFn::Clamp => {
                proof { reveal_strlit("clamp"); }
                "clamp"
            },
            BuiltinFn::Cos => {
                proof { reveal_strlit("cos"); }
                "cos"
            },
            BuiltinFn::Cosh => {
                proof { reveal_strlit("cosh"); }
                "cosh"
            },
            BuiltinFn::CountLeadingZeros => {
                proof { reveal_strlit("countLeadingZeros"); }
                "countLeadingZeros"
            },
            BuiltinFn::CountOneBits => {
                proof { reveal_strlit("countOneBits"); }
                "countOneBits"
            },
            BuiltinFn::CountTrailingZeros => {
                proof { reveal_strlit("countTrailingZeros"); }
                "countTrailingZeros"
            },
            BuiltinFn::Cross => {
                proof { reveal_strlit("cross"); }
                "cross"
            },
            BuiltinFn::Degrees => {
                proof { reveal_strlit("degrees"); }
                "degrees"
            },
            BuiltinFn::Distance => {
                proof { reveal_strlit("distance"); }
                "distance"
            },
            BuiltinFn::Dot => {
                proof { reveal_strlit("dot"); }
                "dot"
            },
            BuiltinFn::Exp => {
                proof { reveal_strlit("exp"); }
                "exp"
            },
            BuiltinFn::Exp2 => {
                proof { reveal_strlit("exp2"); }
                "exp2"
            },
            BuiltinFn::ExtractBits => {
                proof { reveal_strlit("extractBits"); }
                "extractBits"
            },
            BuiltinFn::FaceForward => {
                proof { reveal_strlit("faceForward"); }
                "faceForward"
            },
            BuiltinFn::FirstLeadingBit => {
                proof { reveal_strlit("firstLeadingBit"); }
                "firstLeadingBit"
            },
            BuiltinFn::FirstTrailingBit => {
                proof { reveal_strlit("firstTrailingBit"); }
                "firstTrailingBit"
            },
            BuiltinFn::Floor => {
                proof { reveal_strlit("floor"); }
                "floor"
            },
            BuiltinFn::Fma => {
                proof { reveal_strlit("fma"); }
                "fma"
            },
            BuiltinFn::Fract => {
                proof { reveal_strlit("fract"); }
                "fract"
            },
            BuiltinFn::InsertBits => {
                proof { reveal_strlit("insertBits"); }
                "insertBits"
            },
            BuiltinFn::InverseSqrt => {
                proof { reveal_strlit("inverseSqrt"); }
                "inverseSqrt"
            },
            BuiltinFn::Ldexp => {
                proof { reveal_strlit("ldexp"); }
                "ldexp"
            },
            BuiltinFn::Length => {
                proof { reveal_strlit("length"); }
                "length"
            },
            BuiltinFn::Log => {
                proof { reveal_strlit("log"); }
                "log"
            },
            BuiltinFn::Log2 => {
                proof { reveal_strlit("log2"); }
                "log2"
            },
            BuiltinFn::Max => {
                proof { reveal_strlit("max"); }
                "max"
            },
            BuiltinFn::Min => {
                proof { reveal_strlit("min"); }
                "min"
            },
            BuiltinFn::Mix => {
                proof { reveal_strlit("mix"); }
                "mix"
            },
            BuiltinFn::Normalize => {
                proof { reveal_strlit("normalize"); }
                "normalize"
            },
            BuiltinFn::Pow => {
                proof { reveal_strlit("pow"); }
                "pow"
            },
            BuiltinFn::QuantizeToF16 => {
                proof { reveal_strlit("quantizeToF16"); }
                "quantizeToF16"
            },
            BuiltinFn::Radians => {
                proof { reveal_strlit("radians"); }
                "radians"
            },
            BuiltinFn::Reflect => {
                proof { reveal_strlit("reflect"); }
                "reflect"
            },
            BuiltinFn::Refract => {
                proof { reveal_strlit("refract"); }
                "refract"
            },
            BuiltinFn::ReverseBits => {
                proof { reveal_strlit("reverseBits"); }
                "reverseBits"
            },
            BuiltinFn::Round => {
                proof { reveal_strlit("round"); }
                "round"
            },
            BuiltinFn::Saturate => {
                proof { reveal_strlit("saturate"); }
                "saturate"
            },
            BuiltinFn::Select => {
                proof { reveal_strlit("select"); }
                "select"
            },
            BuiltinFn::ShiftLeft => {
                proof { reveal_strlit("shiftLeft"); }
                "shiftLeft"
            },
            BuiltinFn::ShiftRight => {
                proof { reveal_strlit("shiftRight"); }
                "shiftRight"
            },
            BuiltinFn::Sign => {
                proof { reveal_strlit("sign"); }
                "sign"
            },
            BuiltinFn::Sin => {
                proof { reveal_strlit("sin"); }
                "sin"
            },
            BuiltinFn::Sinh => {
                proof { reveal_strlit("sinh"); }
                "sinh"
            },
            BuiltinFn::Smoothstep => {
                proof { reveal_strlit("smoothstep"); }
                "smoothstep"
            },
            BuiltinFn::Sqrt => {
                proof { reveal_strlit("sqrt"); }
                "sqrt"
            },
            BuiltinFn::Step => {
                proof { reveal_strlit("step"); }
                "step"
            },
            BuiltinFn::Tan => {
                proof { reveal_strlit("tan"); }
                "tan"
            },
            BuiltinFn::Tanh => {
                proof { reveal_strlit("tanh"); }
                "tanh"
            },
            BuiltinFn::Trunc => {
                proof { reveal_strlit("trunc"); }
                "trunc"
            },
            BuiltinFn::SubgroupAdd => {
                proof { reveal_strlit("subgroupAdd"); }
                "subgroupAdd"
            },
            BuiltinFn::SubgroupAnd => {
                proof { reveal_strlit("subgroupAnd"); }
                "subgroupAnd"
            },
            BuiltinFn::SubgroupExclusiveAdd => {
                proof { reveal_strlit("subgroupExclusiveAdd"); }
                "subgroupExclusiveAdd"
            },
            BuiltinFn::SubgroupInclusiveAdd => {
                proof { reveal_strlit("subgroupInclusiveAdd"); }
                "subgroupInclusiveAdd"
            },
            BuiltinFn::SubgroupAll => {
                proof { reveal_strlit("subgroupAll"); }
                "subgroupAll"
            },
            BuiltinFn::SubgroupAny => {
                proof { reveal_strlit("subgroupAny"); }
                "subgroupAny"
            },
            BuiltinFn::SubgroupBallot => {
                proof { reveal_strlit("subgroupBallot"); }
                "subgroupBallot"
            },
            BuiltinFn::SubgroupBroadcast => {
                proof { reveal_strlit("subgroupBroadcast"); }
                "subgroupBroadcast"
            },
            BuiltinFn::SubgroupBroadcastFirst => {
                proof { reveal_strlit("subgroupBroadcastFirst"); }
                "subgroupBroadcastFirst"
            },
            BuiltinFn::SubgroupElect => {
                proof { reveal_strlit("subgroupElect"); }
                "subgroupElect"
            },
            BuiltinFn::SubgroupMax => {
                proof { reveal_strlit("subgroupMax"); }
                "subgroupMax"
            },
            BuiltinFn::SubgroupMin => {
                proof { reveal_strlit("subgroupMin"); }
                "subgroupMin"
            },
            BuiltinFn::SubgroupMul => {
                proof { reveal_strlit("subgroupMul"); }
                "subgroupMul"
            },
            BuiltinFn::SubgroupExclusiveMul => {
                proof { reveal_strlit("subgroupExclusiveMul"); }
                "subgroupExclusiveMul"
            },
            BuiltinFn::SubgroupInclusiveMul => {
                proof { reveal_strlit("subgroupInclusiveMul"); }
                "subgroupInclusiveMul"
            },
            BuiltinFn::SubgroupOr => {
                proof { reveal_strlit("subgroupOr"); }
                "subgroupOr"
            },
            BuiltinFn::SubgroupShuffle => {
                proof { reveal_strlit("subgroupShuffle"); }
                "subgroupShuffle"
            },
            BuiltinFn::SubgroupShuffleDown => {
                proof { reveal_strlit("subgroupShuffleDown"); }
                "subgroupShuffleDown"
            },
            BuiltinFn::SubgroupShuffleUp => {
                proof { reveal_strlit("subgroupShuffleUp"); }
                "subgroupShuffleUp"
            },
            BuiltinFn::SubgroupShuffleXor => {
                proof { reveal_strlit("subgroupShuffleXor"); }
                "subgroupShuffleXor"
            },
            BuiltinFn::SubgroupXor => {
                proof { reveal_strlit("subgroupXor"); }
                "subgroupXor"
            },
            BuiltinFn::StorageBarrier => {
                proof { reveal_strlit("storageBarrier"); }
                "storageBarrier"
            },
            BuiltinFn::TextureBarrier => {
                proof { reveal_strlit("textureBarrier"); }
                "textureBarrier"
            },
            BuiltinFn::WorkgroupBarrier => {
                proof { reveal_strlit("workgroupBarrier"); }
                "workgroupBarrier"
            },
            BuiltinFn::WorkgroupUniformLoad => {
                proof { reveal_strlit("workgroupUniformLoad"); }
                "workgroupUniformLoad"
            },
        }
    }
}

/// The built-in values that shader inputs and outputs may be bound to.
#[derive(Clone, Copy, Debug, PartialEq, Eq, Hash, Structural)]
pub enum BuiltinValue {
    VertexIndex,
    InstanceIndex,
    Position,
    FrontFacing,
    FragDepth,
    LocalInvocationId,
    LocalInvocationIndex,
    GlobalInvocationId,
    WorkgroupId,
    NumWorkgroups,
    SampleIndex,
    SampleMask,
    ClipDistances,
    PrimitiveIndex,
    GlobalInvocationIndex,
    WorkgroupIndex,
    SubgroupInvocationId,
    SubgroupSize,
    SubgroupId,
    NumSubgroups,
}

/// The name of a built-in value in shader source (snake case).
pub open spec fn spec_builtin_value_name(v: BuiltinValue) -> Seq<char> {
    match v {
        BuiltinValue::VertexIndex => "vertex_index"@,
        BuiltinValue::InstanceIndex => "instance_index"@,
        BuiltinValue::Position => "position"@,
        BuiltinValue::FrontFacing => "front_facing"@,
        BuiltinValue::FragDepth => "frag_depth"@,
        BuiltinValue::LocalInvocationId => "local_invocation_id"@,
        BuiltinValue::LocalInvocationIndex => "local_invocation_index"@,
        BuiltinValue::GlobalInvocationId => "global_invocation_id"@,
        BuiltinValue::WorkgroupId => "workgroup_id"@,
        BuiltinValue::NumWorkgroups => "num_workgroups"@,
        BuiltinValue::SampleIndex => "sample_index"@,
        BuiltinValue::SampleMask => "sample_mask"@,
        BuiltinValue::ClipDistances => "clip_distances"@,
        BuiltinValue::PrimitiveIndex => "primitive_index"@,
        BuiltinValue::GlobalInvocationIndex => "global_invocation_index"@,
        BuiltinValue::WorkgroupIndex => "workgroup_index"@,
        BuiltinValue::SubgroupInvocationId => "subgroup_invocation_id"@,
        BuiltinValue::SubgroupSize => "subgroup_size"@,
        BuiltinValue::SubgroupId => "subgroup_id"@,
        BuiltinValue::NumSubgroups => "num_subgroups"@,
    }
}

impl BuiltinValue {
    /// The name of the value in shader source (snake case).
    pub fn name(&self) -> (r: &'static str)
        ensures
            r@ == spec_builtin_value_name(*self),
    {
        match self {
            BuiltinValue::VertexIndex => {
                proof { reveal_strlit("vertex_index"); }
                "vertex_index"
            },
            BuiltinValue::InstanceIndex => {
                proof { reveal_strlit("instance_index"); }
                "instance_index"
            },
            BuiltinValue::Position => {
                proof { reveal_strlit("position"); }
                "position"
            },
            BuiltinValue::FrontFacing => {
                proof { reveal_strlit("front_facing"); }
                "front_facing"
            },
            BuiltinValue::FragDepth => {
                proof { reveal_strlit("frag_depth"); }
                "frag_depth"
            },
            BuiltinValue::LocalInvocationId => {
                proof { reveal_strlit("local_invocation_id"); }
                "local_invocation_id"
            },
            BuiltinValue::LocalInvocationIndex => {
                proof { reveal_strlit("local_invocation_index"); }
                "local_invocation_index"
            },
            BuiltinValue::GlobalInvocationId => {
                proof { reveal_strlit("global_invocation_id"); }
                "global_invocation_id"
            },
            BuiltinValue::WorkgroupId => {
                proof { reveal_strlit("workgroup_id"); }
                "workgroup_id"
            },
            BuiltinValue::NumWorkgroups => {
                proof { reveal_strlit("num_workgroups"); }
                "num_workgroups"
            },
            BuiltinValue::SampleIndex => {
                proof { reveal_strlit("sample_index"); }
                "sample_index"
            },
            BuiltinValue::SampleMask => {
                proof { reveal_strlit("sample_mask"); }
                "sample_mask"
            },
            BuiltinValue::ClipDistances => {
                proof { reveal_strlit("clip_distances"); }
                "clip_distances"
            },
            BuiltinValue::PrimitiveIndex => {
                proof { reveal_strlit("primitive_index"); }
                "primitive_index"
            },
            BuiltinValue::GlobalInvocationIndex => {
                proof { reveal_strlit("global_invocation_index"); }
                "global_invocation_index"
            },
            BuiltinValue::WorkgroupIndex => {
                proof { reveal_strlit("workgroup_index"); }
                "workgroup_index"
            },
            BuiltinValue::SubgroupInvocationId => {
                proof { reveal_strlit("subgroup_invocation_id"); }
                "subgroup_invocation_id"
            },
            BuiltinValue::SubgroupSize => {
                proof { reveal_strlit("subgroup_size"); }
                "subgroup_size"
            },
            BuiltinValue::SubgroupId => {
                proof { reveal_strlit("subgroup_id"); }
                "subgroup_id"
            },
            BuiltinValue::NumSubgroups => {
                proof { reveal_strlit("num_subgroups"); }
                "num_subgroups"
            },
        }
    }
}

} // verus!
