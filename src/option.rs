//! Extension for [`std::option::Option`].

use vstd::prelude::*;

verus! {

/// Extension methods for [`std::option::Option`].
pub trait OptionExt<T>: Sized {
    /// The option itself, for use in contracts.
    spec fn as_option(&self) -> Option<T>;

    /// Converts an `Option` to a `Result`, treating the value of the `Option`
    /// as the error: `Some(t)` gives `Err(t)`, `None` gives `Ok(ok)`.
    ///
    /// `ok` is evaluated eagerly; see [`OptionExt::err_or_else`] for a lazy
    /// version.
    fn err_or<U>(self, ok: U) -> (r: Result<U, T>)
        ensures
            r == (match self.as_option() {
                Some(t) => Err(t),
                None => Ok(ok),
            }),
    ;

    /// Converts an `Option` to a `Result`, treating the value of the `Option`
    /// as the error: `Some(t)` gives `Err(t)`, `None` gives `Ok` of what `f`
    /// returns. `f` is called only for `None`.
    fn err_or_else<U, F: FnOnce() -> U>(self, f: F) -> (r: Result<U, T>)
        requires
            self.as_option() is None ==> f.requires(()),
        ensures
            match self.as_option() {
                Some(t) => r == Err::<U, T>(t),
                None => r is Ok && f.ensures((), r->Ok_0),
            },
    ;

    /// Converts an `Option` to a `Result`, treating the value of the `Option`
    /// as the error: `Some(t)` gives `Err(t)`, `None` gives `Ok` of the
    /// default value of `U`.
    fn err_or_default<U: Default>(self) -> (r: Result<U, T>)
        ensures
            match self.as_option() {
                Some(t) => r == Err::<U, T>(t),
                None => r is Ok && call_ensures(U::default, (), r->Ok_0),
            },
    ;

    /// Returns `true` if the `Option` is a `None` or the value inside of it
    /// matches a predicate.
    ///
    /// `Option::is_none_or` of std does the same.
    fn is_none_or<F: FnOnce(&T) -> bool>(&self, f: F) -> (r: bool)
        requires
            forall|t: T| self.as_option() == Some(t) ==> f.requires((&t,)),
        ensures
            match self.as_option() {
                Some(t) => f.ensures((&t,), r),
                None => r,
            },
    ;

    /// Returns nothing, consuming the value contained.
    ///
    /// The option must be `None`: where it is a `Some`, the caller has broken
    /// the expectation that `msg` describes.
    fn expect_none(self, msg: &str)
        requires
            self.as_option() is None,
    ;
}

impl<T> OptionExt<T> for Option<T> {
    open spec fn as_option(&self) -> Option<T> {
        *self
    }

    fn err_or<U>(self, ok: U) -> (r: Result<U, T>) {
        match self {
            Some(t) => Err(t),
            None => Ok(ok),
        }
    }

    fn err_or_else<U, F: FnOnce() -> U>(self, f: F) -> (r: Result<U, T>) {
        match self {
            Some(t) => Err(t),
            None => Ok(f()),
        }
    }

    fn err_or_default<U: Default>(self) -> (r: Result<U, T>) {
        match self {
            Some(t) => Err(t),
            None => Ok(U::default()),
        }
    }

    fn is_none_or<F: FnOnce(&T) -> bool>(&self, f: F) -> (r: bool) {
        match self {
            Some(t) => f(t),
            None => true,
        }
    }

    fn expect_none(self, _msg: &str) {
    }
}

} // verus!
