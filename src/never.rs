use vstd::prelude::*;

verus! {

/// Names the result type of a function type, so that a routine's return
/// type can be written as the result of a function that never returns.
pub trait HasOutput {
    type Output;
}

} // verus!
