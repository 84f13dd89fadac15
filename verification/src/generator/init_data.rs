//! The uniform buffers of a generated shader that need initial data: the key under
//! which the harness looks each one up, and how many bytes it holds.
use crate::ast::globals::{spec_binding_index, spec_group_index, GlobalVarDecl};
use crate::ast::types::StorageClass;
use crate::harness::types::{append_decimal, decimal_digits};
use crate::layout::{converts_to, layout_fits, spec_aligned, spec_alignment, spec_conversion_error, spec_size, type_wf, Type};
use vstd::prelude::*;
use vstd::string::StringExecFns;

verus! {

/// A global variable in the uniform address space.
pub open spec fn is_uniform(v: GlobalVarDecl) -> bool {
    v.qualifier matches Some(q) && q.storage_class == StorageClass::Uniform
}

/// The key of a buffer's initial data: its group and binding, `group:binding`.
pub open spec fn buffer_key(v: GlobalVarDecl) -> Seq<char> {
    decimal_digits(spec_group_index(v.attrs@).unwrap() as nat) + ":"@ + decimal_digits(
        spec_binding_index(v.attrs@).unwrap() as nat,
    )
}

/// The indices, below `n`, of the uniform variables, in order.
pub open spec fn uniform_indices(vars: Seq<GlobalVarDecl>, n: int) -> Seq<int>
    decreases n,
{
    if n <= 0 {
        Seq::empty()
    } else {
        uniform_indices(vars, n - 1) + if is_uniform(vars[n - 1]) {
            seq![n - 1]
        } else {
            Seq::empty()
        }
    }
}

/// The first conversion error among the uniform variables below index `n`.
pub open spec fn first_layout_error(vars: Seq<GlobalVarDecl>, n: int) -> Option<Seq<char>>
    decreases n,
{
    if n <= 0 {
        None
    } else {
        match first_layout_error(vars, n - 1) {
            Some(e) => Some(e),
            None => if is_uniform(vars[n - 1]) {
                spec_conversion_error(vars[n - 1].data_type)
            } else {
                None
            },
        }
    }
}

proof fn lemma_first_error_stays(vars: Seq<GlobalVarDecl>, n: int, m: int)
    requires
        0 <= n <= m,
        first_layout_error(vars, n) is Some,
    ensures
        first_layout_error(vars, m) == first_layout_error(vars, n),
    decreases m,
{
    if m > n {
        lemma_first_error_stays(vars, n, m - 1);
    }
}

/// Each uniform variable has a group and a binding, and each layout its type may have
/// is well formed and small enough to size in 32 bits.
pub open spec fn uniforms_sizable(vars: Seq<GlobalVarDecl>) -> bool {
    forall|i: int|
        0 <= i < vars.len() && #[trigger] is_uniform(vars[i]) ==> {
            &&& spec_group_index(vars[i].attrs@) is Some
            &&& spec_binding_index(vars[i].attrs@) is Some
            &&& forall|t: Type| converts_to(vars[i].data_type, t) ==> type_wf(t) && layout_fits(t)
        }
}

/// The initial data the generator writes for each uniform buffer, as a key and a size
/// in bytes: one entry per uniform variable, in order, sized by the buffer size of
/// its layout. A uniform variable whose type has no layout is an error.
pub fn uniform_buffer_sizes(vars: &Vec<GlobalVarDecl>) -> (r: Result<Vec<(String, u32)>, &'static str>)
    requires
        uniforms_sizable(vars@),
    ensures
        match r {
            Err(e) => first_layout_error(vars@, vars@.len() as int) == Some(e@),
            Ok(entries) => {
                let idx = uniform_indices(vars@, vars@.len() as int);
                &&& first_layout_error(vars@, vars@.len() as int) is None
                &&& entries@.len() == idx.len()
                &&& forall|j: int|
                    0 <= j < idx.len() ==> {
                        &&& (#[trigger] entries@[j]).0@ == buffer_key(vars@[idx[j]])
                        &&& exists|t: Type|
                            converts_to(vars@[idx[j]].data_type, t) && entries@[j].1 == spec_aligned(
                                spec_size(t),
                                spec_alignment(t),
                            )
                    }
            },
        },
{
    let mut entries: Vec<(String, u32)> = Vec::new();
    let mut i: usize = 0;
    while i < vars.len()
        invariant
            i <= vars@.len(),
            uniforms_sizable(vars@),
            first_layout_error(vars@, i as int) is None,
            entries@.len() == uniform_indices(vars@, i as int).len(),
            forall|j: int|
                0 <= j < entries@.len() ==> {
                    let idx = uniform_indices(vars@, i as int);
                    &&& (#[trigger] entries@[j]).0@ == buffer_key(vars@[idx[j]])
                    &&& exists|t: Type|
                        converts_to(vars@[idx[j]].data_type, t) && entries@[j].1 == spec_aligned(
                            spec_size(t),
                            spec_alignment(t),
                        )
                },
        decreases vars.len() - i,
    {
        let var = &vars[i];
        let uniform = match &var.qualifier {
            Some(q) => match q.storage_class {
                StorageClass::Uniform => true,
                _ => false,
            },
            None => false,
        };
        let ghost before = entries@;
        if uniform {
            assert(is_uniform(vars@[i as int]));
            let type_desc = match Type::try_from_data_type(&var.data_type) {
                Ok(t) => t,
                Err(e) => {
                    proof {
                        assert(first_layout_error(vars@, i + 1) == Some(e@));
                        lemma_first_error_stays(vars@, i + 1, vars@.len() as int);
                    }
                    return Err(e);
                },
            };
            let group = var.group_index().unwrap();
            let binding = var.binding_index().unwrap();
            let size = type_desc.buffer_size();
            let mut key = String::new();
            append_decimal(&mut key, group as usize);
            key.append(":");
            append_decimal(&mut key, binding as usize);
            entries.push((key, size));
            proof {
                let idx = uniform_indices(vars@, i + 1);
                assert(idx == uniform_indices(vars@, i as int).push(i as int));
                assert forall|j: int| 0 <= j < entries@.len() implies {
                    &&& (#[trigger] entries@[j]).0@ == buffer_key(vars@[idx[j]])
                    &&& exists|t: Type|
                        converts_to(vars@[idx[j]].data_type, t) && entries@[j].1 == spec_aligned(
                            spec_size(t),
                            spec_alignment(t),
                        )
                } by {
                    if j < before.len() {
                        assert(entries@[j] == before[j]);
                        assert(idx[j] == uniform_indices(vars@, i as int)[j]);
                    } else {
                        assert(idx[j] == i);
                        assert(converts_to(vars@[i as int].data_type, type_desc));
                    }
                }
            }
        } else {
            proof {
                assert(uniform_indices(vars@, i + 1) =~= uniform_indices(vars@, i as int));
            }
        }
        i = i + 1;
    }
    Ok(entries)
}

} // verus!
