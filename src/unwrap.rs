//! Unwrapping nested `Result` and `Option` values in one call.

use std::fmt::Debug;
use vstd::prelude::*;

verus! {

/// Extension for `unwrap` methods on a `Result` or `Option` that holds
/// another `Result` or `Option`.
pub trait UnwrapExt: Sized {
    type Output;

    /// Whether both layers hold a value (`Ok` or `Some`).
    spec fn unwrappable(&self) -> bool;

    /// The value inside both layers, where there is one.
    spec fn unwrapped(&self) -> Self::Output;

    /// `unwrap` both layers.
    fn unwrap_all(self) -> (r: Self::Output)
        requires
            self.unwrappable(),
        ensures
            r == self.unwrapped(),
    ;
}

impl<T, E: Debug> UnwrapExt for Result<Option<T>, E> {
    type Output = T;

    open spec fn unwrappable(&self) -> bool {
        *self is Ok && self->Ok_0 is Some
    }

    open spec fn unwrapped(&self) -> T {
        self->Ok_0->Some_0
    }

    fn unwrap_all(self) -> (r: T) {
        self.unwrap().unwrap()
    }
}

impl<T, E1: Debug, E2: Debug> UnwrapExt for Result<Result<T, E1>, E2> {
    type Output = T;

    open spec fn unwrappable(&self) -> bool {
        *self is Ok && self->Ok_0 is Ok
    }

    open spec fn unwrapped(&self) -> T {
        self->Ok_0->Ok_0
    }

    fn unwrap_all(self) -> (r: T) {
        self.unwrap().unwrap()
    }
}

impl<T, E: Debug> UnwrapExt for Option<Result<T, E>> {
    type Output = T;

    open spec fn unwrappable(&self) -> bool {
        *self is Some && self->Some_0 is Ok
    }

    open spec fn unwrapped(&self) -> T {
        self->Some_0->Ok_0
    }

    fn unwrap_all(self) -> (r: T) {
        self.unwrap().unwrap()
    }
}

impl<T> UnwrapExt for Option<Option<T>> {
    type Output = T;

    open spec fn unwrappable(&self) -> bool {
        *self is Some && self->Some_0 is Some
    }

    open spec fn unwrapped(&self) -> T {
        self->Some_0->Some_0
    }

    fn unwrap_all(self) -> (r: T) {
        self.unwrap().unwrap()
    }
}

} // verus!
