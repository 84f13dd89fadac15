use std::rc::Rc;
use vstd::prelude::*;

verus! {

/// Calls `Rc::clone`, which hands out another pointer to the same allocation: the value
/// seen through the new pointer is the value seen through the old one.
#[verifier::external_body]
pub(crate) fn rc_clone<T>(this: &Rc<T>) -> (res: Rc<T>)
    ensures
        res == *this,
{
    Rc::clone(this)
}

} // verus!
