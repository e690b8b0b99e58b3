//! Outcomes of the host's work, seen as mathematical values.

use vstd::prelude::*;

verus! {

/// The view of an outcome: the view of what it holds on either side.
pub open spec fn result_view<T: View, E: View>(outcome: Result<T, E>) -> Result<T::V, E::V> {
    match outcome {
        Ok(value) => Ok(value@),
        Err(error) => Err(error@),
    }
}

} // verus!
