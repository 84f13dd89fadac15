//! Rewrites shader source for compilers that expect a different spelling.
use crate::ast::writer::Options;
use crate::strings::{replace, replace_all};
use vstd::prelude::*;

verus! {

/// The shader with the compute stage attribute written concisely where the options
/// ask for it. Module-scope constants cannot be rewritten yet, so the options must
/// not ask for them.
pub fn preprocess(options: Options, shader: String) -> (r: String)
    requires
        !options.module_scope_constants,
    ensures
        r@ == if options.concise_stage_attrs {
            replace_all(shader@, "@stage(compute)"@, "@compute"@)
        } else {
            shader@
        },
{
    if options.concise_stage_attrs {
        proof {
            reveal_strlit("@stage(compute)");
        }
        replace(shader.as_str(), "@stage(compute)", "@compute")
    } else {
        shader
    }
}

} // verus!
