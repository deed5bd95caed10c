//! The result type of the crate's operations.

use vstd::prelude::*;

verus! {

/// What an operation of this crate returns.
pub type SlinkResult<T> = Result<T, crate::conn::Error>;

/// A result with its value and its error as text.
pub open spec fn result_view<T: View, E: View>(r: Result<T, E>) -> Result<T::V, E::V> {
    match r {
        Ok(value) => Ok(value@),
        Err(error) => Err(error@),
    }
}

} // verus!
