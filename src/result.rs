//! Extension for [`std::result::Result`].

use vstd::prelude::*;

verus! {

/// Extension methods for [`std::result::Result`].
pub trait ResultExt<T, E>: Sized {
    /// The result itself, for use in contracts.
    spec fn as_result(&self) -> Result<T, E>;

    /// Swap the `Ok` and `Err` values of a `Result`.
    fn swap(self) -> (r: Result<E, T>)
        ensures
            r == (match self.as_result() {
                Ok(t) => Err(t),
                Err(e) => Ok(e),
            }),
    ;
}

impl<T, E> ResultExt<T, E> for Result<T, E> {
    open spec fn as_result(&self) -> Result<T, E> {
        *self
    }

    fn swap(self) -> (r: Result<E, T>) {
        match self {
            Ok(t) => Err(t),
            Err(e) => Ok(e),
        }
    }
}

} // verus!
