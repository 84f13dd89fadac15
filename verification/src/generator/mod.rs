//! Decisions of the shader generator that do not depend on its random choices: which
//! types a value gives access to, which statements end a block, and how presets set
//! the generator's options.
use crate::ast::builtins::BuiltinFn;
use crate::ast::stmt::Statement;
use crate::ast::types::{DataType, ScalarType};
use crate::rc_spec::rc_clone;
use crate::generator::scope::choose_index;
use crate::strings::str_eq;
use rand::rngs::StdRng;
use vstd::string::StringExecFns;
use vstd::prelude::*;

pub mod builtins;
pub mod init_data;
pub mod overloads;
pub mod scope;
pub mod stmt;
pub mod structs;
pub mod type_map;

verus! {

/// The vector types of 2, 3 and 4 components of a scalar type.
pub open spec fn spec_vectors_of(ty: ScalarType) -> Seq<DataType> {
    seq![DataType::Vector(2, ty), DataType::Vector(3, ty), DataType::Vector(4, ty)]
}

/// The vector types of 2, 3 and 4 components of a scalar type.
pub fn vectors_of(ty: ScalarType) -> (r: Vec<DataType>)
    ensures
        r@ == spec_vectors_of(ty),
{
    let r = vec![DataType::Vector(2, ty), DataType::Vector(3, ty), DataType::Vector(4, ty)];
    assert(r@ =~= spec_vectors_of(ty));
    r
}

/// A scalar type and its vector types.
pub fn scalar_and_vectors_of(ty: ScalarType) -> (r: Vec<DataType>)
    ensures
        r@ == seq![DataType::Scalar(ty)] + spec_vectors_of(ty),
{
    let r = vec![DataType::Scalar(ty), DataType::Vector(2, ty), DataType::Vector(3, ty), DataType::Vector(4, ty)];
    assert(r@ =~= seq![DataType::Scalar(ty)] + spec_vectors_of(ty));
    r
}

/// The types reachable from a value of type `ty` by member access, indexing and
/// swizzling: a vector's component type and smaller vectors of it, an array's element
/// type, what a structure gives access to, and what a pointer or reference leads to.
pub open spec fn spec_accessible_types_of(ty: DataType) -> Seq<DataType>
    decreases ty,
{
    match ty {
        DataType::Vector(n, t) => seq![DataType::Scalar(t)] + Seq::new(
            if n > 2 { (n - 2) as nat } else { 0 },
            |i: int| DataType::Vector((i + 2) as u8, t),
        ),
        DataType::Array(t, _) => seq![*t],
        DataType::Struct(decl) => decl.spec_accessible_types(),
        DataType::Ptr(view) | DataType::Ref(view) => spec_accessible_types_of(*view.inner),
        _ => Seq::empty(),
    }
}

/// Computes the types which are accessible through this type via member access, etc.
pub fn accessible_types_of(ty: &DataType) -> (r: Vec<DataType>)
    ensures
        r@ == spec_accessible_types_of(*ty),
    decreases ty,
{
    match ty {
        DataType::Vector(n, t) => {
            let mut derived: Vec<DataType> = vec![DataType::Scalar(*t)];
            let mut i: u8 = 2;
            while i < *n
                invariant
                    2 <= i,
                    i <= *n || *n < 2,
                    *n >= 2 ==> derived@ =~= seq![DataType::Scalar(*t)] + Seq::new(
                        (i - 2) as nat,
                        |j: int| DataType::Vector((j + 2) as u8, *t),
                    ),
                    *n < 2 ==> derived@ == seq![DataType::Scalar(*t)],
                decreases *n - i,
            {
                derived.push(DataType::Vector(i, *t));
                i = i + 1;
            }
            proof {
                if *n <= 2 {
                    assert(derived@ =~= seq![DataType::Scalar(*t)] + Seq::<DataType>::empty());
                }
            }
            derived
        },
        DataType::Array(t, _) => vec![(**t).clone()],
        DataType::Struct(decl) => decl.accessible_types(),
        DataType::Ptr(view) | DataType::Ref(view) => accessible_types_of(&*view.inner),
        _ => Vec::new(),
    }
}

/// A statement after which a block cannot go on.
pub open spec fn spec_is_terminal_stmt(last: Option<Statement>) -> bool {
    match last {
        Some(Statement::Return(_)) | Some(Statement::Break) | Some(Statement::Continue) | Some(
            Statement::Fallthrough,
        ) => true,
        _ => false,
    }
}

/// Whether the last statement of a block ends it: a return, break, continue or
/// fallthrough.
pub fn is_terminal_stmt(last_statement: Option<&Statement>) -> (r: bool)
    ensures
        r == spec_is_terminal_stmt(
            match last_statement {
                Some(s) => Some(*s),
                None => None,
            },
        ),
{
    match last_statement {
        Some(Statement::Return(_)) | Some(Statement::Break) | Some(Statement::Continue) | Some(
            Statement::Fallthrough,
        ) => true,
        _ => false,
    }
}

/// What kind of structure to generate.
#[derive(Clone, Copy, Debug, PartialEq, Eq, Structural)]
pub enum StructKind {
    Default,
    HostShareable,
    UniformBuffer,
}

/// A preset of generator options.
#[derive(Clone, Copy, Debug, PartialEq, Eq, Structural)]
pub enum Preset {
    /// Preset for crash-testing Tint.
    Tint,
}

impl Preset {
    /// Reads a preset by name.
    pub fn parse(s: &str) -> (r: Result<Preset, &'static str>)
        ensures
            s@ == "tint"@ ==> r == Ok::<Preset, &'static str>(Preset::Tint),
            s@ != "tint"@ ==> (r matches Err(e) && e@ == "invalid preset - must be one of {tint}"@),
    {
        if str_eq(s, "tint") {
            Ok(Preset::Tint)
        } else {
            Err("invalid preset - must be one of {tint}")
        }
    }
}

/// The builtin functions that the Tint preset enables.
pub open spec fn spec_tint_extras() -> Seq<BuiltinFn> {
    seq![BuiltinFn::CountLeadingZeros, BuiltinFn::CountTrailingZeros, BuiltinFn::Refract]
}

/// The options of the generator that a preset changes.
pub struct PresetOptions {
    pub enabled_fns: Vec<BuiltinFn>,
    pub enable_pointers: bool,
    pub skip_pointer_checks: bool,
    pub recondition: bool,
}

/// The enabled functions after adding each of `extras` that is not already there.
pub open spec fn with_extras(fns: Seq<BuiltinFn>, extras: Seq<BuiltinFn>) -> Seq<BuiltinFn>
    decreases extras.len(),
{
    if extras.len() == 0 {
        fns
    } else {
        let before = with_extras(fns, extras.drop_last());
        if before.contains(extras.last()) {
            before
        } else {
            before.push(extras.last())
        }
    }
}

impl PresetOptions {
    /// Applies a preset: the Tint preset enables its extra builtins (each once), pointers,
    /// unchecked pointer aliasing and reconditioning.
    pub fn apply_preset(&mut self, preset: &Preset)
        ensures
            match *preset {
                Preset::Tint => {
                    &&& final(self).enabled_fns@ == with_extras(old(self).enabled_fns@, spec_tint_extras())
                    &&& final(self).enable_pointers
                    &&& final(self).skip_pointer_checks
                    &&& final(self).recondition
                },
            },
    {
        match preset {
            Preset::Tint => {
                let extras = vec![BuiltinFn::CountLeadingZeros, BuiltinFn::CountTrailingZeros, BuiltinFn::Refract];
                assert(extras@ =~= spec_tint_extras());
                let ghost start = self.enabled_fns@;
                let mut k: usize = 0;
                while k < extras.len()
                    invariant
                        k <= extras@.len(),
                        extras@ == spec_tint_extras(),
                        self.enabled_fns@ == with_extras(start, extras@.subrange(0, k as int)),
                    decreases extras.len() - k,
                {
                    assert(extras@.subrange(0, k + 1).drop_last() =~= extras@.subrange(0, k as int));
                    let builtin = extras[k];
                    let mut present = false;
                    let mut j: usize = 0;
                    while j < self.enabled_fns.len()
                        invariant
                            j <= self.enabled_fns@.len(),
                            present == exists|q: int| 0 <= q < j && self.enabled_fns@[q] == builtin,
                        decreases self.enabled_fns.len() - j,
                    {
                        if self.enabled_fns[j] == builtin {
                            present = true;
                        }
                        j = j + 1;
                    }
                    assert(present == self.enabled_fns@.contains(builtin));
                    if !present {
                        self.enabled_fns.push(builtin);
                    }
                    k = k + 1;
                }
                assert(extras@.subrange(0, 3) =~= extras@);
                self.enable_pointers = true;
                self.skip_pointer_checks = true;
                self.recondition = true;
            },
        }
    }
}

/// The letters that name the components of a vector of `m` components.
pub open spec fn component_letters(m: u8) -> Seq<char> {
    seq!['x', 'y', 'z', 'w'].take(m as int)
}

fn component_letter(i: usize) -> (r: &'static str)
    requires
        i < 4,
    ensures
        r@ == seq![seq!['x', 'y', 'z', 'w'][i as int]],
{
    if i == 0 {
        proof {
            reveal_strlit("x");
        }
        "x"
    } else if i == 1 {
        proof {
            reveal_strlit("y");
        }
        "y"
    } else if i == 2 {
        proof {
            reveal_strlit("z");
        }
        "z"
    } else {
        proof {
            reveal_strlit("w");
        }
        "w"
    }
}

/// A swizzle that reads a value of `target_type` out of a vector of `size`
/// components: `x` for a scalar, and for a vector one letter per component, each
/// naming a component of the source as `rng` picks it.
pub fn gen_vector_accessor(rng: &mut StdRng, size: u8, target_type: &DataType) -> (r: String)
    requires
        target_type is Scalar || target_type is Vector,
        *target_type matches DataType::Vector(n, _) ==> 2 <= size <= 4 && 2 <= n <= 4,
    ensures
        match *target_type {
            DataType::Vector(n, _) => r@.len() == n && forall|i: int|
                0 <= i < n ==> component_letters(size).contains(#[trigger] r@[i]),
            _ => r@ == seq!['x'],
        },
{
    let n = match target_type {
        DataType::Vector(n, _) => *n,
        _ => {
            let r = String::from_str("x");
            proof {
                reveal_strlit("x");
            }
            return r;
        },
    };
    let mut accessor = String::new();
    let mut k: u8 = 0;
    while k < n
        invariant
            k <= n,
            2 <= size <= 4,
            accessor@.len() == k,
            forall|i: int| 0 <= i < k ==> component_letters(size).contains(#[trigger] accessor@[i]),
        decreases n - k,
    {
        let idx = choose_index(rng, size as usize).unwrap();
        let letter = component_letter(idx);
        let ghost before = accessor@;
        accessor.append(letter);
        proof {
            assert(component_letters(size)[idx as int] == letter@[0]);
            assert forall|i: int| 0 <= i < k + 1 implies component_letters(size).contains(#[trigger] accessor@[i]) by {
                if i == k {
                    assert(accessor@[i] == letter@[0]);
                } else {
                    assert(accessor@[i] == before[i]);
                }
            }
        }
        k = k + 1;
    }
    accessor
}

impl std::str::FromStr for Preset {
    type Err = &'static str;

    /// Reads a preset by name, as `Preset::parse` does.
    fn from_str(s: &str) -> Result<Preset, &'static str> {
        Preset::parse(s)
    }
}

} // verus!
