//! Structural operations on tuples: appending a value, inserting or removing
//! the element at a fixed position, and joining two tuples.
//!
//! Each operation is a trait implemented for tuples of one to ten elements;
//! `TupleConcat` is implemented for every pair whose joined length is at most
//! ten. The position of an insertion or a removal is a const generic
//! parameter, so a position out of range is a missing implementation and is
//! rejected when the caller is compiled.
//!
//! Removing what was just inserted gives back the tuple it was inserted into;
//! this is proved for tuples of up to nine elements, since removal is
//! implemented up to ten.
//!
//! Every trait carries a spec function that states the result positionally,
//! and every implementation defines it as the tuple built from the fields of
//! its inputs.

use vstd::prelude::*;

verus! {

/// Zip a tuple with one more value, appended after its last element.
///
/// For joining two tuples, see [`TupleConcat`].
pub trait TupleZip<T>: Sized {
    type Output;

    /// The tuple made of the elements of `self` in order, followed by `val`.
    spec fn zipped(self, val: T) -> Self::Output;

    /// Zip with another single value.
    fn zip(self, val: T) -> (r: Self::Output)
        ensures
            r == self.zipped(val),
    ;
}

/// Insert a value into a tuple at the position `POS`.
///
/// This is the trait behind [`TupleInsert`], which lets the position be given
/// on the method instead of on the trait.
pub trait TupleInsertExact<const POS: usize, T>: Sized {
    type Output;

    /// The elements of `self` before `POS`, then `val`, then the elements of
    /// `self` from `POS` on.
    spec fn inserted(self, val: T) -> Self::Output;

    /// Insert `val` so that it becomes the element at `POS`.
    fn insert_exact(self, val: T) -> (r: Self::Output)
        ensures
            r == self.inserted(val),
    ;
}

/// Insert a value into a tuple, with the position given on the method.
pub trait TupleInsert<T>: Sized {
    /// Insert `val` so that it becomes the element at `POS`.
    fn insert<const POS: usize>(self, val: T) -> (r: <Self as TupleInsertExact<POS, T>>::Output) where
        Self: TupleInsertExact<POS, T>,

        ensures
            r == <Self as TupleInsertExact<POS, T>>::inserted(self, val),
    {
        <Self as TupleInsertExact<POS, T>>::insert_exact(self, val)
    }
}

/// Remove the element at the position `POS` from a tuple.
///
/// This is the trait behind [`TupleRemove`], which lets the position be given
/// on the method instead of on the trait.
pub trait TupleRemoveExact<const POS: usize>: Sized {
    type Output;

    /// The elements of `self` before `POS`, then those after it.
    spec fn removed(self) -> Self::Output;

    /// Drop the element at `POS`.
    fn remove_exact(self) -> (r: Self::Output)
        ensures
            r == self.removed(),
    ;
}

/// Remove an element from a tuple, with the position given on the method.
pub trait TupleRemove: Sized {
    /// Drop the element at `POS`.
    fn remove<const POS: usize>(self) -> (r: <Self as TupleRemoveExact<POS>>::Output) where
        Self: TupleRemoveExact<POS>,

        ensures
            r == <Self as TupleRemoveExact<POS>>::removed(self),
    {
        <Self as TupleRemoveExact<POS>>::remove_exact(self)
    }
}

/// Join two tuples: the elements of `self` in order, then those of the other.
///
/// Implemented where the joined tuple has at most ten elements.
pub trait TupleConcat<T>: Sized {
    type Output;

    /// The elements of `self` in order, followed by those of `other`.
    spec fn concatenated(self, other: T) -> Self::Output;

    /// Join `other` after `self`.
    fn concat(self, other: T) -> (r: Self::Output)
        ensures
            r == self.concatenated(other),
    ;
}


impl<A, Z> TupleZip<Z> for (A,) {
    type Output = (A, Z);

    open spec fn zipped(self, val: Z) -> (A, Z) {
        (self.0, val)
    }

    fn zip(self, val: Z) -> (r: (A, Z)) {
        let (a,) = self;
        (a, val)
    }
}

impl<A, B, Z> TupleZip<Z> for (A, B) {
    type Output = (A, B, Z);

    open spec fn zipped(self, val: Z) -> (A, B, Z) {
        (self.0, self.1, val)
    }

    fn zip(self, val: Z) -> (r: (A, B, Z)) {
        let (a, b) = self;
        (a, b, val)
    }
}

impl<A, B, C, Z> TupleZip<Z> for (A, B, C) {
    type Output = (A, B, C, Z);

    open spec fn zipped(self, val: Z) -> (A, B, C, Z) {
        (self.0, self.1, self.2, val)
    }

    fn zip(self, val: Z) -> (r: (A, B, C, Z)) {
        let (a, b, c) = self;
        (a, b, c, val)
    }
}

impl<A, B, C, D, Z> TupleZip<Z> for (A, B, C, D) {
    type Output = (A, B, C, D, Z);

    open spec fn zipped(self, val: Z) -> (A, B, C, D, Z) {
        (self.0, self.1, self.2, self.3, val)
    }

    fn zip(self, val: Z) -> (r: (A, B, C, D, Z)) {
        let (a, b, c, d) = self;
        (a, b, c, d, val)
    }
}

impl<A, B, C, D, E, Z> TupleZip<Z> for (A, B, C, D, E) {
    type Output = (A, B, C, D, E, Z);

    open spec fn zipped(self, val: Z) -> (A, B, C, D, E, Z) {
        (self.0, self.1, self.2, self.3, self.4, val)
    }

    fn zip(self, val: Z) -> (r: (A, B, C, D, E, Z)) {
        let (a, b, c, d, e) = self;
        (a, b, c, d, e, val)
    }
}

impl<A, B, C, D, E, F, Z> TupleZip<Z> for (A, B, C, D, E, F) {
    type Output = (A, B, C, D, E, F, Z);

    open spec fn zipped(self, val: Z) -> (A, B, C, D, E, F, Z) {
        (self.0, self.1, self.2, self.3, self.4, self.5, val)
    }

    fn zip(self, val: Z) -> (r: (A, B, C, D, E, F, Z)) {
        let (a, b, c, d, e, f) = self;
        (a, b, c, d, e, f, val)
    }
}

impl<A, B, C, D, E, F, G, Z> TupleZip<Z> for (A, B, C, D, E, F, G) {
    type Output = (A, B, C, D, E, F, G, Z);

    open spec fn zipped(self, val: Z) -> (A, B, C, D, E, F, G, Z) {
        (self.0, self.1, self.2, self.3, self.4, self.5, self.6, val)
    }

    fn zip(self, val: Z) -> (r: (A, B, C, D, E, F, G, Z)) {
        let (a, b, c, d, e, f, g) = self;
        (a, b, c, d, e, f, g, val)
    }
}

impl<A, B, C, D, E, F, G, H, Z> TupleZip<Z> for (A, B, C, D, E, F, G, H) {
    type Output = (A, B, C, D, E, F, G, H, Z);

    open spec fn zipped(self, val: Z) -> (A, B, C, D, E, F, G, H, Z) {
        (self.0, self.1, self.2, self.3, self.4, self.5, self.6, self.7, val)
    }

    fn zip(self, val: Z) -> (r: (A, B, C, D, E, F, G, H, Z)) {
        let (a, b, c, d, e, f, g, h) = self;
        (a, b, c, d, e, f, g, h, val)
    }
}

impl<A, B, C, D, E, F, G, H, I, Z> TupleZip<Z> for (A, B, C, D, E, F, G, H, I) {
    type Output = (A, B, C, D, E, F, G, H, I, Z);

    open spec fn zipped(self, val: Z) -> (A, B, C, D, E, F, G, H, I, Z) {
        (self.0, self.1, self.2, self.3, self.4, self.5, self.6, self.7, self.8, val)
    }

    fn zip(self, val: Z) -> (r: (A, B, C, D, E, F, G, H, I, Z)) {
        let (a, b, c, d, e, f, g, h, i) = self;
        (a, b, c, d, e, f, g, h, i, val)
    }
}

impl<A, B, C, D, E, F, G, H, I, J, Z> TupleZip<Z> for (A, B, C, D, E, F, G, H, I, J) {
    type Output = (A, B, C, D, E, F, G, H, I, J, Z);

    open spec fn zipped(self, val: Z) -> (A, B, C, D, E, F, G, H, I, J, Z) {
        (self.0, self.1, self.2, self.3, self.4, self.5, self.6, self.7, self.8, self.9, val)
    }

    fn zip(self, val: Z) -> (r: (A, B, C, D, E, F, G, H, I, J, Z)) {
        let (a, b, c, d, e, f, g, h, i, j) = self;
        (a, b, c, d, e, f, g, h, i, j, val)
    }
}

impl<A, Z> TupleInsert<Z> for (A,) {
}

impl<A, Z> TupleInsertExact<0, Z> for (A,) {
    type Output = (Z, A);

    open spec fn inserted(self, val: Z) -> (Z, A) {
        (val, self.0)
    }

    fn insert_exact(self, val: Z) -> (r: (Z, A)) {
        let (a,) = self;
        (val, a)
    }
}

impl<A, Z> TupleInsertExact<1, Z> for (A,) {
    type Output = (A, Z);

    open spec fn inserted(self, val: Z) -> (A, Z) {
        (self.0, val)
    }

    fn insert_exact(self, val: Z) -> (r: (A, Z)) {
        let (a,) = self;
        (a, val)
    }
}

impl<A, B, Z> TupleInsert<Z> for (A, B) {
}

impl<A, B, Z> TupleInsertExact<0, Z> for (A, B) {
    type Output = (Z, A, B);

    open spec fn inserted(self, val: Z) -> (Z, A, B) {
        (val, self.0, self.1)
    }

    fn insert_exact(self, val: Z) -> (r: (Z, A, B)) {
        let (a, b) = self;
        (val, a, b)
    }
}

impl<A, B, Z> TupleInsertExact<1, Z> for (A, B) {
    type Output = (A, Z, B);

    open spec fn inserted(self, val: Z) -> (A, Z, B) {
        (self.0, val, self.1)
    }

    fn insert_exact(self, val: Z) -> (r: (A, Z, B)) {
        let (a, b) = self;
        (a, val, b)
    }
}

impl<A, B, Z> TupleInsertExact<2, Z> for (A, B) {
    type Output = (A, B, Z);

    open spec fn inserted(self, val: Z) -> (A, B, Z) {
        (self.0, self.1, val)
    }

    fn insert_exact(self, val: Z) -> (r: (A, B, Z)) {
        let (a, b) = self;
        (a, b, val)
    }
}

impl<A, B, C, Z> TupleInsert<Z> for (A, B, C) {
}

impl<A, B, C, Z> TupleInsertExact<0, Z> for (A, B, C) {
    type Output = (Z, A, B, C);

    open spec fn inserted(self, val: Z) -> (Z, A, B, C) {
        (val, self.0, self.1, self.2)
    }

    fn insert_exact(self, val: Z) -> (r: (Z, A, B, C)) {
        let (a, b, c) = self;
        (val, a, b, c)
    }
}

impl<A, B, C, Z> TupleInsertExact<1, Z> for (A, B, C) {
    type Output = (A, Z, B, C);

    open spec fn inserted(self, val: Z) -> (A, Z, B, C) {
        (self.0, val, self.1, self.2)
    }

    fn insert_exact(self, val: Z) -> (r: (A, Z, B, C)) {
        let (a, b, c) = self;
        (a, val, b, c)
    }
}

impl<A, B, C, Z> TupleInsertExact<2, Z> for (A, B, C) {
    type Output = (A, B, Z, C);

    open spec fn inserted(self, val: Z) -> (A, B, Z, C) {
        (self.0, self.1, val, self.2)
    }

    fn insert_exact(self, val: Z) -> (r: (A, B, Z, C)) {
        let (a, b, c) = self;
        (a, b, val, c)
    }
}

impl<A, B, C, Z> TupleInsertExact<3, Z> for (A, B, C) {
    type Output = (A, B, C, Z);

    open spec fn inserted(self, val: Z) -> (A, B, C, Z) {
        (self.0, self.1, self.2, val)
    }

    fn insert_exact(self, val: Z) -> (r: (A, B, C, Z)) {
        let (a, b, c) = self;
        (a, b, c, val)
    }
}

impl<A, B, C, D, Z> TupleInsert<Z> for (A, B, C, D) {
}

impl<A, B, C, D, Z> TupleInsertExact<0, Z> for (A, B, C, D) {
    type Output = (Z, A, B, C, D);

    open spec fn inserted(self, val: Z) -> (Z, A, B, C, D) {
        (val, self.0, self.1, self.2, self.3)
    }

    fn insert_exact(self, val: Z) -> (r: (Z, A, B, C, D)) {
        let (a, b, c, d) = self;
        (val, a, b, c, d)
    }
}

impl<A, B, C, D, Z> TupleInsertExact<1, Z> for (A, B, C, D) {
    type Output = (A, Z, B, C, D);

    open spec fn inserted(self, val: Z) -> (A, Z, B, C, D) {
        (self.0, val, self.1, self.2, self.3)
    }

    fn insert_exact(self, val: Z) -> (r: (A, Z, B, C, D)) {
        let (a, b, c, d) = self;
        (a, val, b, c, d)
    }
}

impl<A, B, C, D, Z> TupleInsertExact<2, Z> for (A, B, C, D) {
    type Output = (A, B, Z, C, D);

    open spec fn inserted(self, val: Z) -> (A, B, Z, C, D) {
        (self.0, self.1, val, self.2, self.3)
    }

    fn insert_exact(self, val: Z) -> (r: (A, B, Z, C, D)) {
        let (a, b, c, d) = self;
        (a, b, val, c, d)
    }
}

impl<A, B, C, D, Z> TupleInsertExact<3, Z> for (A, B, C, D) {
    type Output = (A, B, C, Z, D);

    open spec fn inserted(self, val: Z) -> (A, B, C, Z, D) {
        (self.0, self.1, self.2, val, self.3)
    }

    fn insert_exact(self, val: Z) -> (r: (A, B, C, Z, D)) {
        let (a, b, c, d) = self;
        (a, b, c, val, d)
    }
}

impl<A, B, C, D, Z> TupleInsertExact<4, Z> for (A, B, C, D) {
    type Output = (A, B, C, D, Z);

    open spec fn inserted(self, val: Z) -> (A, B, C, D, Z) {
        (self.0, self.1, self.2, self.3, val)
    }

    fn insert_exact(self, val: Z) -> (r: (A, B, C, D, Z)) {
        let (a, b, c, d) = self;
        (a, b, c, d, val)
    }
}

impl<A, B, C, D, E, Z> TupleInsert<Z> for (A, B, C, D, E) {
}

impl<A, B, C, D, E, Z> TupleInsertExact<0, Z> for (A, B, C, D, E) {
    type Output = (Z, A, B, C, D, E);

    open spec fn inserted(self, val: Z) -> (Z, A, B, C, D, E) {
        (val, self.0, self.1, self.2, self.3, self.4)
    }

    fn insert_exact(self, val: Z) -> (r: (Z, A, B, C, D, E)) {
        let (a, b, c, d, e) = self;
        (val, a, b, c, d, e)
    }
}

impl<A, B, C, D, E, Z> TupleInsertExact<1, Z> for (A, B, C, D, E) {
    type Output = (A, Z, B, C, D, E);

    open spec fn inserted(self, val: Z) -> (A, Z, B, C, D, E) {
        (self.0, val, self.1, self.2, self.3, self.4)
    }

    fn insert_exact(self, val: Z) -> (r: (A, Z, B, C, D, E)) {
        let (a, b, c, d, e) = self;
        (a, val, b, c, d, e)
    }
}

impl<A, B, C, D, E, Z> TupleInsertExact<2, Z> for (A, B, C, D, E) {
    type Output = (A, B, Z, C, D, E);

    open spec fn inserted(self, val: Z) -> (A, B, Z, C, D, E) {
        (self.0, self.1, val, self.2, self.3, self.4)
    }

    fn insert_exact(self, val: Z) -> (r: (A, B, Z, C, D, E)) {
        let (a, b, c, d, e) = self;
        (a, b, val, c, d, e)
    }
}

impl<A, B, C, D, E, Z> TupleInsertExact<3, Z> for (A, B, C, D, E) {
    type Output = (A, B, C, Z, D, E);

    open spec fn inserted(self, val: Z) -> (A, B, C, Z, D, E) {
        (self.0, self.1, self.2, val, self.3, self.4)
    }

    fn insert_exact(self, val: Z) -> (r: (A, B, C, Z, D, E)) {
        let (a, b, c, d, e) = self;
        (a, b, c, val, d, e)
    }
}

impl<A, B, C, D, E, Z> TupleInsertExact<4, Z> for (A, B, C, D, E) {
    type Output = (A, B, C, D, Z, E);

    open spec fn inserted(self, val: Z) -> (A, B, C, D, Z, E) {
        (self.0, self.1, self.2, self.3, val, self.4)
    }

    fn insert_exact(self, val: Z) -> (r: (A, B, C, D, Z, E)) {
        let (a, b, c, d, e) = self;
        (a, b, c, d, val, e)
    }
}

impl<A, B, C, D, E, Z> TupleInsertExact<5, Z> for (A, B, C, D, E) {
    type Output = (A, B, C, D, E, Z);

    open spec fn inserted(self, val: Z) -> (A, B, C, D, E, Z) {
        (self.0, self.1, self.2, self.3, self.4, val)
    }

    fn insert_exact(self, val: Z) -> (r: (A, B, C, D, E, Z)) {
        let (a, b, c, d, e) = self;
        (a, b, c, d, e, val)
    }
}

impl<A, B, C, D, E, F, Z> TupleInsert<Z> for (A, B, C, D, E, F) {
}

impl<A, B, C, D, E, F, Z> TupleInsertExact<0, Z> for (A, B, C, D, E, F) {
    type Output = (Z, A, B, C, D, E, F);

    open spec fn inserted(self, val: Z) -> (Z, A, B, C, D, E, F) {
        (val, self.0, self.1, self.2, self.3, self.4, self.5)
    }

    fn insert_exact(self, val: Z) -> (r: (Z, A, B, C, D, E, F)) {
        let (a, b, c, d, e, f) = self;
        (val, a, b, c, d, e, f)
    }
}

impl<A, B, C, D, E, F, Z> TupleInsertExact<1, Z> for (A, B, C, D, E, F) {
    type Output = (A, Z, B, C, D, E, F);

    open spec fn inserted(self, val: Z) -> (A, Z, B, C, D, E, F) {
        (self.0, val, self.1, self.2, self.3, self.4, self.5)
    }

    fn insert_exact(self, val: Z) -> (r: (A, Z, B, C, D, E, F)) {
        let (a, b, c, d, e, f) = self;
        (a, val, b, c, d, e, f)
    }
}

impl<A, B, C, D, E, F, Z> TupleInsertExact<2, Z> for (A, B, C, D, E, F) {
    type Output = (A, B, Z, C, D, E, F);

    open spec fn inserted(self, val: Z) -> (A, B, Z, C, D, E, F) {
        (self.0, self.1, val, self.2, self.3, self.4, self.5)
    }

    fn insert_exact(self, val: Z) -> (r: (A, B, Z, C, D, E, F)) {
        let (a, b, c, d, e, f) = self;
        (a, b, val, c, d, e, f)
    }
}

impl<A, B, C, D, E, F, Z> TupleInsertExact<3, Z> for (A, B, C, D, E, F) {
    type Output = (A, B, C, Z, D, E, F);

    open spec fn inserted(self, val: Z) -> (A, B, C, Z, D, E, F) {
        (self.0, self.1, self.2, val, self.3, self.4, self.5)
    }

    fn insert_exact(self, val: Z) -> (r: (A, B, C, Z, D, E, F)) {
        let (a, b, c, d, e, f) = self;
        (a, b, c, val, d, e, f)
    }
}

impl<A, B, C, D, E, F, Z> TupleInsertExact<4, Z> for (A, B, C, D, E, F) {
    type Output = (A, B, C, D, Z, E, F);

    open spec fn inserted(self, val: Z) -> (A, B, C, D, Z, E, F) {
        (self.0, self.1, self.2, self.3, val, self.4, self.5)
    }

    fn insert_exact(self, val: Z) -> (r: (A, B, C, D, Z, E, F)) {
        let (a, b, c, d, e, f) = self;
        (a, b, c, d, val, e, f)
    }
}

impl<A, B, C, D, E, F, Z> TupleInsertExact<5, Z> for (A, B, C, D, E, F) {
    type Output = (A, B, C, D, E, Z, F);

    open spec fn inserted(self, val: Z) -> (A, B, C, D, E, Z, F) {
        (self.0, self.1, self.2, self.3, self.4, val, self.5)
    }

    fn insert_exact(self, val: Z) -> (r: (A, B, C, D, E, Z, F)) {
        let (a, b, c, d, e, f) = self;
        (a, b, c, d, e, val, f)
    }
}

impl<A, B, C, D, E, F, Z> TupleInsertExact<6, Z> for (A, B, C, D, E, F) {
    type Output = (A, B, C, D, E, F, Z);

    open spec fn inserted(self, val: Z) -> (A, B, C, D, E, F, Z) {
        (self.0, self.1, self.2, self.3, self.4, self.5, val)
    }

    fn insert_exact(self, val: Z) -> (r: (A, B, C, D, E, F, Z)) {
        let (a, b, c, d, e, f) = self;
        (a, b, c, d, e, f, val)
    }
}

impl<A, B, C, D, E, F, G, Z> TupleInsert<Z> for (A, B, C, D, E, F, G) {
}

impl<A, B, C, D, E, F, G, Z> TupleInsertExact<0, Z> for (A, B, C, D, E, F, G) {
    type Output = (Z, A, B, C, D, E, F, G);

    open spec fn inserted(self, val: Z) -> (Z, A, B, C, D, E, F, G) {
        (val, self.0, self.1, self.2, self.3, self.4, self.5, self.6)
    }

    fn insert_exact(self, val: Z) -> (r: (Z, A, B, C, D, E, F, G)) {
        let (a, b, c, d, e, f, g) = self;
        (val, a, b, c, d, e, f, g)
    }
}

impl<A, B, C, D, E, F, G, Z> TupleInsertExact<1, Z> for (A, B, C, D, E, F, G) {
    type Output = (A, Z, B, C, D, E, F, G);

    open spec fn inserted(self, val: Z) -> (A, Z, B, C, D, E, F, G) {
        (self.0, val, self.1, self.2, self.3, self.4, self.5, self.6)
    }

    fn insert_exact(self, val: Z) -> (r: (A, Z, B, C, D, E, F, G)) {
        let (a, b, c, d, e, f, g) = self;
        (a, val, b, c, d, e, f, g)
    }
}

impl<A, B, C, D, E, F, G, Z> TupleInsertExact<2, Z> for (A, B, C, D, E, F, G) {
    type Output = (A, B, Z, C, D, E, F, G);

    open spec fn inserted(self, val: Z) -> (A, B, Z, C, D, E, F, G) {
        (self.0, self.1, val, self.2, self.3, self.4, self.5, self.6)
    }

    fn insert_exact(self, val: Z) -> (r: (A, B, Z, C, D, E, F, G)) {
        let (a, b, c, d, e, f, g) = self;
        (a, b, val, c, d, e, f, g)
    }
}

impl<A, B, C, D, E, F, G, Z> TupleInsertExact<3, Z> for (A, B, C, D, E, F, G) {
    type Output = (A, B, C, Z, D, E, F, G);

    open spec fn inserted(self, val: Z) -> (A, B, C, Z, D, E, F, G) {
        (self.0, self.1, self.2, val, self.3, self.4, self.5, self.6)
    }

    fn insert_exact(self, val: Z) -> (r: (A, B, C, Z, D, E, F, G)) {
        let (a, b, c, d, e, f, g) = self;
        (a, b, c, val, d, e, f, g)
    }
}

impl<A, B, C, D, E, F, G, Z> TupleInsertExact<4, Z> for (A, B, C, D, E, F, G) {
    type Output = (A, B, C, D, Z, E, F, G);

    open spec fn inserted(self, val: Z) -> (A, B, C, D, Z, E, F, G) {
        (self.0, self.1, self.2, self.3, val, self.4, self.5, self.6)
    }

    fn insert_exact(self, val: Z) -> (r: (A, B, C, D, Z, E, F, G)) {
        let (a, b, c, d, e, f, g) = self;
        (a, b, c, d, val, e, f, g)
    }
}

impl<A, B, C, D, E, F, G, Z> TupleInsertExact<5, Z> for (A, B, C, D, E, F, G) {
    type Output = (A, B, C, D, E, Z, F, G);

    open spec fn inserted(self, val: Z) -> (A, B, C, D, E, Z, F, G) {
        (self.0, self.1, self.2, self.3, self.4, val, self.5, self.6)
    }

    fn insert_exact(self, val: Z) -> (r: (A, B, C, D, E, Z, F, G)) {
        let (a, b, c, d, e, f, g) = self;
        (a, b, c, d, e, val, f, g)
    }
}

impl<A, B, C, D, E, F, G, Z> TupleInsertExact<6, Z> for (A, B, C, D, E, F, G) {
    type Output = (A, B, C, D, E, F, Z, G);

    open spec fn inserted(self, val: Z) -> (A, B, C, D, E, F, Z, G) {
        (self.0, self.1, self.2, self.3, self.4, self.5, val, self.6)
    }

    fn insert_exact(self, val: Z) -> (r: (A, B, C, D, E, F, Z, G)) {
        let (a, b, c, d, e, f, g) = self;
        (a, b, c, d, e, f, val, g)
    }
}

impl<A, B, C, D, E, F, G, Z> TupleInsertExact<7, Z> for (A, B, C, D, E, F, G) {
    type Output = (A, B, C, D, E, F, G, Z);

    open spec fn inserted(self, val: Z) -> (A, B, C, D, E, F, G, Z) {
        (self.0, self.1, self.2, self.3, self.4, self.5, self.6, val)
    }

    fn insert_exact(self, val: Z) -> (r: (A, B, C, D, E, F, G, Z)) {
        let (a, b, c, d, e, f, g) = self;
        (a, b, c, d, e, f, g, val)
    }
}

impl<A, B, C, D, E, F, G, H, Z> TupleInsert<Z> for (A, B, C, D, E, F, G, H) {
}

impl<A, B, C, D, E, F, G, H, Z> TupleInsertExact<0, Z> for (A, B, C, D, E, F, G, H) {
    type Output = (Z, A, B, C, D, E, F, G, H);

    open spec fn inserted(self, val: Z) -> (Z, A, B, C, D, E, F, G, H) {
        (val, self.0, self.1, self.2, self.3, self.4, self.5, self.6, self.7)
    }

    fn insert_exact(self, val: Z) -> (r: (Z, A, B, C, D, E, F, G, H)) {
        let (a, b, c, d, e, f, g, h) = self;
        (val, a, b, c, d, e, f, g, h)
    }
}

impl<A, B, C, D, E, F, G, H, Z> TupleInsertExact<1, Z> for (A, B, C, D, E, F, G, H) {
    type Output = (A, Z, B, C, D, E, F, G, H);

    open spec fn inserted(self, val: Z) -> (A, Z, B, C, D, E, F, G, H) {
        (self.0, val, self.1, self.2, self.3, self.4, self.5, self.6, self.7)
    }

    fn insert_exact(self, val: Z) -> (r: (A, Z, B, C, D, E, F, G, H)) {
        let (a, b, c, d, e, f, g, h) = self;
        (a, val, b, c, d, e, f, g, h)
    }
}

impl<A, B, C, D, E, F, G, H, Z> TupleInsertExact<2, Z> for (A, B, C, D, E, F, G, H) {
    type Output = (A, B, Z, C, D, E, F, G, H);

    open spec fn inserted(self, val: Z) -> (A, B, Z, C, D, E, F, G, H) {
        (self.0, self.1, val, self.2, self.3, self.4, self.5, self.6, self.7)
    }

    fn insert_exact(self, val: Z) -> (r: (A, B, Z, C, D, E, F, G, H)) {
        let (a, b, c, d, e, f, g, h) = self;
        (a, b, val, c, d, e, f, g, h)
    }
}

impl<A, B, C, D, E, F, G, H, Z> TupleInsertExact<3, Z> for (A, B, C, D, E, F, G, H) {
    type Output = (A, B, C, Z, D, E, F, G, H);

    open spec fn inserted(self, val: Z) -> (A, B, C, Z, D, E, F, G, H) {
        (self.0, self.1, self.2, val, self.3, self.4, self.5, self.6, self.7)
    }

    fn insert_exact(self, val: Z) -> (r: (A, B, C, Z, D, E, F, G, H)) {
        let (a, b, c, d, e, f, g, h) = self;
        (a, b, c, val, d, e, f, g, h)
    }
}

impl<A, B, C, D, E, F, G, H, Z> TupleInsertExact<4, Z> for (A, B, C, D, E, F, G, H) {
    type Output = (A, B, C, D, Z, E, F, G, H);

    open spec fn inserted(self, val: Z) -> (A, B, C, D, Z, E, F, G, H) {
        (self.0, self.1, self.2, self.3, val, self.4, self.5, self.6, self.7)
    }

    fn insert_exact(self, val: Z) -> (r: (A, B, C, D, Z, E, F, G, H)) {
        let (a, b, c, d, e, f, g, h) = self;
        (a, b, c, d, val, e, f, g, h)
    }
}

impl<A, B, C, D, E, F, G, H, Z> TupleInsertExact<5, Z> for (A, B, C, D, E, F, G, H) {
    type Output = (A, B, C, D, E, Z, F, G, H);

    open spec fn inserted(self, val: Z) -> (A, B, C, D, E, Z, F, G, H) {
        (self.0, self.1, self.2, self.3, self.4, val, self.5, self.6, self.7)
    }

    fn insert_exact(self, val: Z) -> (r: (A, B, C, D, E, Z, F, G, H)) {
        let (a, b, c, d, e, f, g, h) = self;
        (a, b, c, d, e, val, f, g, h)
    }
}

impl<A, B, C, D, E, F, G, H, Z> TupleInsertExact<6, Z> for (A, B, C, D, E, F, G, H) {
    type Output = (A, B, C, D, E, F, Z, G, H);

    open spec fn inserted(self, val: Z) -> (A, B, C, D, E, F, Z, G, H) {
        (self.0, self.1, self.2, self.3, self.4, self.5, val, self.6, self.7)
    }

    fn insert_exact(self, val: Z) -> (r: (A, B, C, D, E, F, Z, G, H)) {
        let (a, b, c, d, e, f, g, h) = self;
        (a, b, c, d, e, f, val, g, h)
    }
}

impl<A, B, C, D, E, F, G, H, Z> TupleInsertExact<7, Z> for (A, B, C, D, E, F, G, H) {
    type Output = (A, B, C, D, E, F, G, Z, H);

    open spec fn inserted(self, val: Z) -> (A, B, C, D, E, F, G, Z, H) {
        (self.0, self.1, self.2, self.3, self.4, self.5, self.6, val, self.7)
    }

    fn insert_exact(self, val: Z) -> (r: (A, B, C, D, E, F, G, Z, H)) {
        let (a, b, c, d, e, f, g, h) = self;
        (a, b, c, d, e, f, g, val, h)
    }
}

impl<A, B, C, D, E, F, G, H, Z> TupleInsertExact<8, Z> for (A, B, C, D, E, F, G, H) {
    type Output = (A, B, C, D, E, F, G, H, Z);

    open spec fn inserted(self, val: Z) -> (A, B, C, D, E, F, G, H, Z) {
        (self.0, self.1, self.2, self.3, self.4, self.5, self.6, self.7, val)
    }

    fn insert_exact(self, val: Z) -> (r: (A, B, C, D, E, F, G, H, Z)) {
        let (a, b, c, d, e, f, g, h) = self;
        (a, b, c, d, e, f, g, h, val)
    }
}

impl<A, B, C, D, E, F, G, H, I, Z> TupleInsert<Z> for (A, B, C, D, E, F, G, H, I) {
}

impl<A, B, C, D, E, F, G, H, I, Z> TupleInsertExact<0, Z> for (A, B, C, D, E, F, G, H, I) {
    type Output = (Z, A, B, C, D, E, F, G, H, I);

    open spec fn inserted(self, val: Z) -> (Z, A, B, C, D, E, F, G, H, I) {
        (val, self.0, self.1, self.2, self.3, self.4, self.5, self.6, self.7, self.8)
    }

    fn insert_exact(self, val: Z) -> (r: (Z, A, B, C, D, E, F, G, H, I)) {
        let (a, b, c, d, e, f, g, h, i) = self;
        (val, a, b, c, d, e, f, g, h, i)
    }
}

impl<A, B, C, D, E, F, G, H, I, Z> TupleInsertExact<1, Z> for (A, B, C, D, E, F, G, H, I) {
    type Output = (A, Z, B, C, D, E, F, G, H, I);

    open spec fn inserted(self, val: Z) -> (A, Z, B, C, D, E, F, G, H, I) {
        (self.0, val, self.1, self.2, self.3, self.4, self.5, self.6, self.7, self.8)
    }

    fn insert_exact(self, val: Z) -> (r: (A, Z, B, C, D, E, F, G, H, I)) {
        let (a, b, c, d, e, f, g, h, i) = self;
        (a, val, b, c, d, e, f, g, h, i)
    }
}

impl<A, B, C, D, E, F, G, H, I, Z> TupleInsertExact<2, Z> for (A, B, C, D, E, F, G, H, I) {
    type Output = (A, B, Z, C, D, E, F, G, H, I);

    open spec fn inserted(self, val: Z) -> (A, B, Z, C, D, E, F, G, H, I) {
        (self.0, self.1, val, self.2, self.3, self.4, self.5, self.6, self.7, self.8)
    }

    fn insert_exact(self, val: Z) -> (r: (A, B, Z, C, D, E, F, G, H, I)) {
        let (a, b, c, d, e, f, g, h, i) = self;
        (a, b, val, c, d, e, f, g, h, i)
    }
}

impl<A, B, C, D, E, F, G, H, I, Z> TupleInsertExact<3, Z> for (A, B, C, D, E, F, G, H, I) {
    type Output = (A, B, C, Z, D, E, F, G, H, I);

    open spec fn inserted(self, val: Z) -> (A, B, C, Z, D, E, F, G, H, I) {
        (self.0, self.1, self.2, val, self.3, self.4, self.5, self.6, self.7, self.8)
    }

    fn insert_exact(self, val: Z) -> (r: (A, B, C, Z, D, E, F, G, H, I)) {
        let (a, b, c, d, e, f, g, h, i) = self;
        (a, b, c, val, d, e, f, g, h, i)
    }
}

impl<A, B, C, D, E, F, G, H, I, Z> TupleInsertExact<4, Z> for (A, B, C, D, E, F, G, H, I) {
    type Output = (A, B, C, D, Z, E, F, G, H, I);

    open spec fn inserted(self, val: Z) -> (A, B, C, D, Z, E, F, G, H, I) {
        (self.0, self.1, self.2, self.3, val, self.4, self.5, self.6, self.7, self.8)
    }

    fn insert_exact(self, val: Z) -> (r: (A, B, C, D, Z, E, F, G, H, I)) {
        let (a, b, c, d, e, f, g, h, i) = self;
        (a, b, c, d, val, e, f, g, h, i)
    }
}

impl<A, B, C, D, E, F, G, H, I, Z> TupleInsertExact<5, Z> for (A, B, C, D, E, F, G, H, I) {
    type Output = (A, B, C, D, E, Z, F, G, H, I);

    open spec fn inserted(self, val: Z) -> (A, B, C, D, E, Z, F, G, H, I) {
        (self.0, self.1, self.2, self.3, self.4, val, self.5, self.6, self.7, self.8)
    }

    fn insert_exact(self, val: Z) -> (r: (A, B, C, D, E, Z, F, G, H, I)) {
        let (a, b, c, d, e, f, g, h, i) = self;
        (a, b, c, d, e, val, f, g, h, i)
    }
}

impl<A, B, C, D, E, F, G, H, I, Z> TupleInsertExact<6, Z> for (A, B, C, D, E, F, G, H, I) {
    type Output = (A, B, C, D, E, F, Z, G, H, I);

    open spec fn inserted(self, val: Z) -> (A, B, C, D, E, F, Z, G, H, I) {
        (self.0, self.1, self.2, self.3, self.4, self.5, val, self.6, self.7, self.8)
    }

    fn insert_exact(self, val: Z) -> (r: (A, B, C, D, E, F, Z, G, H, I)) {
        let (a, b, c, d, e, f, g, h, i) = self;
        (a, b, c, d, e, f, val, g, h, i)
    }
}

impl<A, B, C, D, E, F, G, H, I, Z> TupleInsertExact<7, Z> for (A, B, C, D, E, F, G, H, I) {
    type Output = (A, B, C, D, E, F, G, Z, H, I);

    open spec fn inserted(self, val: Z) -> (A, B, C, D, E, F, G, Z, H, I) {
        (self.0, self.1, self.2, self.3, self.4, self.5, self.6, val, self.7, self.8)
    }

    fn insert_exact(self, val: Z) -> (r: (A, B, C, D, E, F, G, Z, H, I)) {
        let (a, b, c, d, e, f, g, h, i) = self;
        (a, b, c, d, e, f, g, val, h, i)
    }
}

impl<A, B, C, D, E, F, G, H, I, Z> TupleInsertExact<8, Z> for (A, B, C, D, E, F, G, H, I) {
    type Output = (A, B, C, D, E, F, G, H, Z, I);

    open spec fn inserted(self, val: Z) -> (A, B, C, D, E, F, G, H, Z, I) {
        (self.0, self.1, self.2, self.3, self.4, self.5, self.6, self.7, val, self.8)
    }

    fn insert_exact(self, val: Z) -> (r: (A, B, C, D, E, F, G, H, Z, I)) {
        let (a, b, c, d, e, f, g, h, i) = self;
        (a, b, c, d, e, f, g, h, val, i)
    }
}

impl<A, B, C, D, E, F, G, H, I, Z> TupleInsertExact<9, Z> for (A, B, C, D, E, F, G, H, I) {
    type Output = (A, B, C, D, E, F, G, H, I, Z);

    open spec fn inserted(self, val: Z) -> (A, B, C, D, E, F, G, H, I, Z) {
        (self.0, self.1, self.2, self.3, self.4, self.5, self.6, self.7, self.8, val)
    }

    fn insert_exact(self, val: Z) -> (r: (A, B, C, D, E, F, G, H, I, Z)) {
        let (a, b, c, d, e, f, g, h, i) = self;
        (a, b, c, d, e, f, g, h, i, val)
    }
}

impl<A, B, C, D, E, F, G, H, I, J, Z> TupleInsert<Z> for (A, B, C, D, E, F, G, H, I, J) {
}

impl<A, B, C, D, E, F, G, H, I, J, Z> TupleInsertExact<0, Z> for (A, B, C, D, E, F, G, H, I, J) {
    type Output = (Z, A, B, C, D, E, F, G, H, I, J);

    open spec fn inserted(self, val: Z) -> (Z, A, B, C, D, E, F, G, H, I, J) {
        (val, self.0, self.1, self.2, self.3, self.4, self.5, self.6, self.7, self.8, self.9)
    }

    fn insert_exact(self, val: Z) -> (r: (Z, A, B, C, D, E, F, G, H, I, J)) {
        let (a, b, c, d, e, f, g, h, i, j) = self;
        (val, a, b, c, d, e, f, g, h, i, j)
    }
}

impl<A, B, C, D, E, F, G, H, I, J, Z> TupleInsertExact<1, Z> for (A, B, C, D, E, F, G, H, I, J) {
    type Output = (A, Z, B, C, D, E, F, G, H, I, J);

    open spec fn inserted(self, val: Z) -> (A, Z, B, C, D, E, F, G, H, I, J) {
        (self.0, val, self.1, self.2, self.3, self.4, self.5, self.6, self.7, self.8, self.9)
    }

    fn insert_exact(self, val: Z) -> (r: (A, Z, B, C, D, E, F, G, H, I, J)) {
        let (a, b, c, d, e, f, g, h, i, j) = self;
        (a, val, b, c, d, e, f, g, h, i, j)
    }
}

impl<A, B, C, D, E, F, G, H, I, J, Z> TupleInsertExact<2, Z> for (A, B, C, D, E, F, G, H, I, J) {
    type Output = (A, B, Z, C, D, E, F, G, H, I, J);

    open spec fn inserted(self, val: Z) -> (A, B, Z, C, D, E, F, G, H, I, J) {
        (self.0, self.1, val, self.2, self.3, self.4, self.5, self.6, self.7, self.8, self.9)
    }

    fn insert_exact(self, val: Z) -> (r: (A, B, Z, C, D, E, F, G, H, I, J)) {
        let (a, b, c, d, e, f, g, h, i, j) = self;
        (a, b, val, c, d, e, f, g, h, i, j)
    }
}

impl<A, B, C, D, E, F, G, H, I, J, Z> TupleInsertExact<3, Z> for (A, B, C, D, E, F, G, H, I, J) {
    type Output = (A, B, C, Z, D, E, F, G, H, I, J);

    open spec fn inserted(self, val: Z) -> (A, B, C, Z, D, E, F, G, H, I, J) {
        (self.0, self.1, self.2, val, self.3, self.4, self.5, self.6, self.7, self.8, self.9)
    }

    fn insert_exact(self, val: Z) -> (r: (A, B, C, Z, D, E, F, G, H, I, J)) {
        let (a, b, c, d, e, f, g, h, i, j) = self;
        (a, b, c, val, d, e, f, g, h, i, j)
    }
}

impl<A, B, C, D, E, F, G, H, I, J, Z> TupleInsertExact<4, Z> for (A, B, C, D, E, F, G, H, I, J) {
    type Output = (A, B, C, D, Z, E, F, G, H, I, J);

    open spec fn inserted(self, val: Z) -> (A, B, C, D, Z, E, F, G, H, I, J) {
        (self.0, self.1, self.2, self.3, val, self.4, self.5, self.6, self.7, self.8, self.9)
    }

    fn insert_exact(self, val: Z) -> (r: (A, B, C, D, Z, E, F, G, H, I, J)) {
        let (a, b, c, d, e, f, g, h, i, j) = self;
        (a, b, c, d, val, e, f, g, h, i, j)
    }
}

impl<A, B, C, D, E, F, G, H, I, J, Z> TupleInsertExact<5, Z> for (A, B, C, D, E, F, G, H, I, J) {
    type Output = (A, B, C, D, E, Z, F, G, H, I, J);

    open spec fn inserted(self, val: Z) -> (A, B, C, D, E, Z, F, G, H, I, J) {
        (self.0, self.1, self.2, self.3, self.4, val, self.5, self.6, self.7, self.8, self.9)
    }

    fn insert_exact(self, val: Z) -> (r: (A, B, C, D, E, Z, F, G, H, I, J)) {
        let (a, b, c, d, e, f, g, h, i, j) = self;
        (a, b, c, d, e, val, f, g, h, i, j)
    }
}

impl<A, B, C, D, E, F, G, H, I, J, Z> TupleInsertExact<6, Z> for (A, B, C, D, E, F, G, H, I, J) {
    type Output = (A, B, C, D, E, F, Z, G, H, I, J);

    open spec fn inserted(self, val: Z) -> (A, B, C, D, E, F, Z, G, H, I, J) {
        (self.0, self.1, self.2, self.3, self.4, self.5, val, self.6, self.7, self.8, self.9)
    }

    fn insert_exact(self, val: Z) -> (r: (A, B, C, D, E, F, Z, G, H, I, J)) {
        let (a, b, c, d, e, f, g, h, i, j) = self;
        (a, b, c, d, e, f, val, g, h, i, j)
    }
}

impl<A, B, C, D, E, F, G, H, I, J, Z> TupleInsertExact<7, Z> for (A, B, C, D, E, F, G, H, I, J) {
    type Output = (A, B, C, D, E, F, G, Z, H, I, J);

    open spec fn inserted(self, val: Z) -> (A, B, C, D, E, F, G, Z, H, I, J) {
        (self.0, self.1, self.2, self.3, self.4, self.5, self.6, val, self.7, self.8, self.9)
    }

    fn insert_exact(self, val: Z) -> (r: (A, B, C, D, E, F, G, Z, H, I, J)) {
        let (a, b, c, d, e, f, g, h, i, j) = self;
        (a, b, c, d, e, f, g, val, h, i, j)
    }
}

impl<A, B, C, D, E, F, G, H, I, J, Z> TupleInsertExact<8, Z> for (A, B, C, D, E, F, G, H, I, J) {
    type Output = (A, B, C, D, E, F, G, H, Z, I, J);

    open spec fn inserted(self, val: Z) -> (A, B, C, D, E, F, G, H, Z, I, J) {
        (self.0, self.1, self.2, self.3, self.4, self.5, self.6, self.7, val, self.8, self.9)
    }

    fn insert_exact(self, val: Z) -> (r: (A, B, C, D, E, F, G, H, Z, I, J)) {
        let (a, b, c, d, e, f, g, h, i, j) = self;
        (a, b, c, d, e, f, g, h, val, i, j)
    }
}

impl<A, B, C, D, E, F, G, H, I, J, Z> TupleInsertExact<9, Z> for (A, B, C, D, E, F, G, H, I, J) {
    type Output = (A, B, C, D, E, F, G, H, I, Z, J);

    open spec fn inserted(self, val: Z) -> (A, B, C, D, E, F, G, H, I, Z, J) {
        (self.0, self.1, self.2, self.3, self.4, self.5, self.6, self.7, self.8, val, self.9)
    }

    fn insert_exact(self, val: Z) -> (r: (A, B, C, D, E, F, G, H, I, Z, J)) {
        let (a, b, c, d, e, f, g, h, i, j) = self;
        (a, b, c, d, e, f, g, h, i, val, j)
    }
}

impl<A, B, C, D, E, F, G, H, I, J, Z> TupleInsertExact<10, Z> for (A, B, C, D, E, F, G, H, I, J) {
    type Output = (A, B, C, D, E, F, G, H, I, J, Z);

    open spec fn inserted(self, val: Z) -> (A, B, C, D, E, F, G, H, I, J, Z) {
        (self.0, self.1, self.2, self.3, self.4, self.5, self.6, self.7, self.8, self.9, val)
    }

    fn insert_exact(self, val: Z) -> (r: (A, B, C, D, E, F, G, H, I, J, Z)) {
        let (a, b, c, d, e, f, g, h, i, j) = self;
        (a, b, c, d, e, f, g, h, i, j, val)
    }
}

impl<A> TupleRemove for (A,) {
}

impl<A> TupleRemoveExact<0> for (A,) {
    type Output = ();

    open spec fn removed(self) -> () {
        ()
    }

    fn remove_exact(self) -> (r: ()) {
    }
}

impl<A, B> TupleRemove for (A, B) {
}

impl<A, B> TupleRemoveExact<0> for (A, B) {
    type Output = (B,);

    open spec fn removed(self) -> (B,) {
        (self.1,)
    }

    fn remove_exact(self) -> (r: (B,)) {
        let (_a, b) = self;
        (b,)
    }
}

impl<A, B> TupleRemoveExact<1> for (A, B) {
    type Output = (A,);

    open spec fn removed(self) -> (A,) {
        (self.0,)
    }

    fn remove_exact(self) -> (r: (A,)) {
        let (a, _b) = self;
        (a,)
    }
}

impl<A, B, C> TupleRemove for (A, B, C) {
}

impl<A, B, C> TupleRemoveExact<0> for (A, B, C) {
    type Output = (B, C);

    open spec fn removed(self) -> (B, C) {
        (self.1, self.2)
    }

    fn remove_exact(self) -> (r: (B, C)) {
        let (_a, b, c) = self;
        (b, c)
    }
}

impl<A, B, C> TupleRemoveExact<1> for (A, B, C) {
    type Output = (A, C);

    open spec fn removed(self) -> (A, C) {
        (self.0, self.2)
    }

    fn remove_exact(self) -> (r: (A, C)) {
        let (a, _b, c) = self;
        (a, c)
    }
}

impl<A, B, C> TupleRemoveExact<2> for (A, B, C) {
    type Output = (A, B);

    open spec fn removed(self) -> (A, B) {
        (self.0, self.1)
    }

    fn remove_exact(self) -> (r: (A, B)) {
        let (a, b, _c) = self;
        (a, b)
    }
}

impl<A, B, C, D> TupleRemove for (A, B, C, D) {
}

impl<A, B, C, D> TupleRemoveExact<0> for (A, B, C, D) {
    type Output = (B, C, D);

    open spec fn removed(self) -> (B, C, D) {
        (self.1, self.2, self.3)
    }

    fn remove_exact(self) -> (r: (B, C, D)) {
        let (_a, b, c, d) = self;
        (b, c, d)
    }
}

impl<A, B, C, D> TupleRemoveExact<1> for (A, B, C, D) {
    type Output = (A, C, D);

    open spec fn removed(self) -> (A, C, D) {
        (self.0, self.2, self.3)
    }

    fn remove_exact(self) -> (r: (A, C, D)) {
        let (a, _b, c, d) = self;
        (a, c, d)
    }
}

impl<A, B, C, D> TupleRemoveExact<2> for (A, B, C, D) {
    type Output = (A, B, D);

    open spec fn removed(self) -> (A, B, D) {
        (self.0, self.1, self.3)
    }

    fn remove_exact(self) -> (r: (A, B, D)) {
        let (a, b, _c, d) = self;
        (a, b, d)
    }
}

impl<A, B, C, D> TupleRemoveExact<3> for (A, B, C, D) {
    type Output = (A, B, C);

    open spec fn removed(self) -> (A, B, C) {
        (self.0, self.1, self.2)
    }

    fn remove_exact(self) -> (r: (A, B, C)) {
        let (a, b, c, _d) = self;
        (a, b, c)
    }
}

impl<A, B, C, D, E> TupleRemove for (A, B, C, D, E) {
}

impl<A, B, C, D, E> TupleRemoveExact<0> for (A, B, C, D, E) {
    type Output = (B, C, D, E);

    open spec fn removed(self) -> (B, C, D, E) {
        (self.1, self.2, self.3, self.4)
    }

    fn remove_exact(self) -> (r: (B, C, D, E)) {
        let (_a, b, c, d, e) = self;
        (b, c, d, e)
    }
}

impl<A, B, C, D, E> TupleRemoveExact<1> for (A, B, C, D, E) {
    type Output = (A, C, D, E);

    open spec fn removed(self) -> (A, C, D, E) {
        (self.0, self.2, self.3, self.4)
    }

    fn remove_exact(self) -> (r: (A, C, D, E)) {
        let (a, _b, c, d, e) = self;
        (a, c, d, e)
    }
}

impl<A, B, C, D, E> TupleRemoveExact<2> for (A, B, C, D, E) {
    type Output = (A, B, D, E);

    open spec fn removed(self) -> (A, B, D, E) {
        (self.0, self.1, self.3, self.4)
    }

    fn remove_exact(self) -> (r: (A, B, D, E)) {
        let (a, b, _c, d, e) = self;
        (a, b, d, e)
    }
}

impl<A, B, C, D, E> TupleRemoveExact<3> for (A, B, C, D, E) {
    type Output = (A, B, C, E);

    open spec fn removed(self) -> (A, B, C, E) {
        (self.0, self.1, self.2, self.4)
    }

    fn remove_exact(self) -> (r: (A, B, C, E)) {
        let (a, b, c, _d, e) = self;
        (a, b, c, e)
    }
}

impl<A, B, C, D, E> TupleRemoveExact<4> for (A, B, C, D, E) {
    type Output = (A, B, C, D);

    open spec fn removed(self) -> (A, B, C, D) {
        (self.0, self.1, self.2, self.3)
    }

    fn remove_exact(self) -> (r: (A, B, C, D)) {
        let (a, b, c, d, _e) = self;
        (a, b, c, d)
    }
}

impl<A, B, C, D, E, F> TupleRemove for (A, B, C, D, E, F) {
}

impl<A, B, C, D, E, F> TupleRemoveExact<0> for (A, B, C, D, E, F) {
    type Output = (B, C, D, E, F);

    open spec fn removed(self) -> (B, C, D, E, F) {
        (self.1, self.2, self.3, self.4, self.5)
    }

    fn remove_exact(self) -> (r: (B, C, D, E, F)) {
        let (_a, b, c, d, e, f) = self;
        (b, c, d, e, f)
    }
}

impl<A, B, C, D, E, F> TupleRemoveExact<1> for (A, B, C, D, E, F) {
    type Output = (A, C, D, E, F);

    open spec fn removed(self) -> (A, C, D, E, F) {
        (self.0, self.2, self.3, self.4, self.5)
    }

    fn remove_exact(self) -> (r: (A, C, D, E, F)) {
        let (a, _b, c, d, e, f) = self;
        (a, c, d, e, f)
    }
}

impl<A, B, C, D, E, F> TupleRemoveExact<2> for (A, B, C, D, E, F) {
    type Output = (A, B, D, E, F);

    open spec fn removed(self) -> (A, B, D, E, F) {
        (self.0, self.1, self.3, self.4, self.5)
    }

    fn remove_exact(self) -> (r: (A, B, D, E, F)) {
        let (a, b, _c, d, e, f) = self;
        (a, b, d, e, f)
    }
}

impl<A, B, C, D, E, F> TupleRemoveExact<3> for (A, B, C, D, E, F) {
    type Output = (A, B, C, E, F);

    open spec fn removed(self) -> (A, B, C, E, F) {
        (self.0, self.1, self.2, self.4, self.5)
    }

    fn remove_exact(self) -> (r: (A, B, C, E, F)) {
        let (a, b, c, _d, e, f) = self;
        (a, b, c, e, f)
    }
}

impl<A, B, C, D, E, F> TupleRemoveExact<4> for (A, B, C, D, E, F) {
    type Output = (A, B, C, D, F);

    open spec fn removed(self) -> (A, B, C, D, F) {
        (self.0, self.1, self.2, self.3, self.5)
    }

    fn remove_exact(self) -> (r: (A, B, C, D, F)) {
        let (a, b, c, d, _e, f) = self;
        (a, b, c, d, f)
    }
}

impl<A, B, C, D, E, F> TupleRemoveExact<5> for (A, B, C, D, E, F) {
    type Output = (A, B, C, D, E);

    open spec fn removed(self) -> (A, B, C, D, E) {
        (self.0, self.1, self.2, self.3, self.4)
    }

    fn remove_exact(self) -> (r: (A, B, C, D, E)) {
        let (a, b, c, d, e, _f) = self;
        (a, b, c, d, e)
    }
}

impl<A, B, C, D, E, F, G> TupleRemove for (A, B, C, D, E, F, G) {
}

impl<A, B, C, D, E, F, G> TupleRemoveExact<0> for (A, B, C, D, E, F, G) {
    type Output = (B, C, D, E, F, G);

    open spec fn removed(self) -> (B, C, D, E, F, G) {
        (self.1, self.2, self.3, self.4, self.5, self.6)
    }

    fn remove_exact(self) -> (r: (B, C, D, E, F, G)) {
        let (_a, b, c, d, e, f, g) = self;
        (b, c, d, e, f, g)
    }
}

impl<A, B, C, D, E, F, G> TupleRemoveExact<1> for (A, B, C, D, E, F, G) {
    type Output = (A, C, D, E, F, G);

    open spec fn removed(self) -> (A, C, D, E, F, G) {
        (self.0, self.2, self.3, self.4, self.5, self.6)
    }

    fn remove_exact(self) -> (r: (A, C, D, E, F, G)) {
        let (a, _b, c, d, e, f, g) = self;
        (a, c, d, e, f, g)
    }
}

impl<A, B, C, D, E, F, G> TupleRemoveExact<2> for (A, B, C, D, E, F, G) {
    type Output = (A, B, D, E, F, G);

    open spec fn removed(self) -> (A, B, D, E, F, G) {
        (self.0, self.1, self.3, self.4, self.5, self.6)
    }

    fn remove_exact(self) -> (r: (A, B, D, E, F, G)) {
        let (a, b, _c, d, e, f, g) = self;
        (a, b, d, e, f, g)
    }
}

impl<A, B, C, D, E, F, G> TupleRemoveExact<3> for (A, B, C, D, E, F, G) {
    type Output = (A, B, C, E, F, G);

    open spec fn removed(self) -> (A, B, C, E, F, G) {
        (self.0, self.1, self.2, self.4, self.5, self.6)
    }

    fn remove_exact(self) -> (r: (A, B, C, E, F, G)) {
        let (a, b, c, _d, e, f, g) = self;
        (a, b, c, e, f, g)
    }
}

impl<A, B, C, D, E, F, G> TupleRemoveExact<4> for (A, B, C, D, E, F, G) {
    type Output = (A, B, C, D, F, G);

    open spec fn removed(self) -> (A, B, C, D, F, G) {
        (self.0, self.1, self.2, self.3, self.5, self.6)
    }

    fn remove_exact(self) -> (r: (A, B, C, D, F, G)) {
        let (a, b, c, d, _e, f, g) = self;
        (a, b, c, d, f, g)
    }
}

impl<A, B, C, D, E, F, G> TupleRemoveExact<5> for (A, B, C, D, E, F, G) {
    type Output = (A, B, C, D, E, G);

    open spec fn removed(self) -> (A, B, C, D, E, G) {
        (self.0, self.1, self.2, self.3, self.4, self.6)
    }

    fn remove_exact(self) -> (r: (A, B, C, D, E, G)) {
        let (a, b, c, d, e, _f, g) = self;
        (a, b, c, d, e, g)
    }
}

impl<A, B, C, D, E, F, G> TupleRemoveExact<6> for (A, B, C, D, E, F, G) {
    type Output = (A, B, C, D, E, F);

    open spec fn removed(self) -> (A, B, C, D, E, F) {
        (self.0, self.1, self.2, self.3, self.4, self.5)
    }

    fn remove_exact(self) -> (r: (A, B, C, D, E, F)) {
        let (a, b, c, d, e, f, _g) = self;
        (a, b, c, d, e, f)
    }
}

impl<A, B, C, D, E, F, G, H> TupleRemove for (A, B, C, D, E, F, G, H) {
}

impl<A, B, C, D, E, F, G, H> TupleRemoveExact<0> for (A, B, C, D, E, F, G, H) {
    type Output = (B, C, D, E, F, G, H);

    open spec fn removed(self) -> (B, C, D, E, F, G, H) {
        (self.1, self.2, self.3, self.4, self.5, self.6, self.7)
    }

    fn remove_exact(self) -> (r: (B, C, D, E, F, G, H)) {
        let (_a, b, c, d, e, f, g, h) = self;
        (b, c, d, e, f, g, h)
    }
}

impl<A, B, C, D, E, F, G, H> TupleRemoveExact<1> for (A, B, C, D, E, F, G, H) {
    type Output = (A, C, D, E, F, G, H);

    open spec fn removed(self) -> (A, C, D, E, F, G, H) {
        (self.0, self.2, self.3, self.4, self.5, self.6, self.7)
    }

    fn remove_exact(self) -> (r: (A, C, D, E, F, G, H)) {
        let (a, _b, c, d, e, f, g, h) = self;
        (a, c, d, e, f, g, h)
    }
}

impl<A, B, C, D, E, F, G, H> TupleRemoveExact<2> for (A, B, C, D, E, F, G, H) {
    type Output = (A, B, D, E, F, G, H);

    open spec fn removed(self) -> (A, B, D, E, F, G, H) {
        (self.0, self.1, self.3, self.4, self.5, self.6, self.7)
    }

    fn remove_exact(self) -> (r: (A, B, D, E, F, G, H)) {
        let (a, b, _c, d, e, f, g, h) = self;
        (a, b, d, e, f, g, h)
    }
}

impl<A, B, C, D, E, F, G, H> TupleRemoveExact<3> for (A, B, C, D, E, F, G, H) {
    type Output = (A, B, C, E, F, G, H);

    open spec fn removed(self) -> (A, B, C, E, F, G, H) {
        (self.0, self.1, self.2, self.4, self.5, self.6, self.7)
    }

    fn remove_exact(self) -> (r: (A, B, C, E, F, G, H)) {
        let (a, b, c, _d, e, f, g, h) = self;
        (a, b, c, e, f, g, h)
    }
}

impl<A, B, C, D, E, F, G, H> TupleRemoveExact<4> for (A, B, C, D, E, F, G, H) {
    type Output = (A, B, C, D, F, G, H);

    open spec fn removed(self) -> (A, B, C, D, F, G, H) {
        (self.0, self.1, self.2, self.3, self.5, self.6, self.7)
    }

    fn remove_exact(self) -> (r: (A, B, C, D, F, G, H)) {
        let (a, b, c, d, _e, f, g, h) = self;
        (a, b, c, d, f, g, h)
    }
}

impl<A, B, C, D, E, F, G, H> TupleRemoveExact<5> for (A, B, C, D, E, F, G, H) {
    type Output = (A, B, C, D, E, G, H);

    open spec fn removed(self) -> (A, B, C, D, E, G, H) {
        (self.0, self.1, self.2, self.3, self.4, self.6, self.7)
    }

    fn remove_exact(self) -> (r: (A, B, C, D, E, G, H)) {
        let (a, b, c, d, e, _f, g, h) = self;
        (a, b, c, d, e, g, h)
    }
}

impl<A, B, C, D, E, F, G, H> TupleRemoveExact<6> for (A, B, C, D, E, F, G, H) {
    type Output = (A, B, C, D, E, F, H);

    open spec fn removed(self) -> (A, B, C, D, E, F, H) {
        (self.0, self.1, self.2, self.3, self.4, self.5, self.7)
    }

    fn remove_exact(self) -> (r: (A, B, C, D, E, F, H)) {
        let (a, b, c, d, e, f, _g, h) = self;
        (a, b, c, d, e, f, h)
    }
}

impl<A, B, C, D, E, F, G, H> TupleRemoveExact<7> for (A, B, C, D, E, F, G, H) {
    type Output = (A, B, C, D, E, F, G);

    open spec fn removed(self) -> (A, B, C, D, E, F, G) {
        (self.0, self.1, self.2, self.3, self.4, self.5, self.6)
    }

    fn remove_exact(self) -> (r: (A, B, C, D, E, F, G)) {
        let (a, b, c, d, e, f, g, _h) = self;
        (a, b, c, d, e, f, g)
    }
}

impl<A, B, C, D, E, F, G, H, I> TupleRemove for (A, B, C, D, E, F, G, H, I) {
}

impl<A, B, C, D, E, F, G, H, I> TupleRemoveExact<0> for (A, B, C, D, E, F, G, H, I) {
    type Output = (B, C, D, E, F, G, H, I);

    open spec fn removed(self) -> (B, C, D, E, F, G, H, I) {
        (self.1, self.2, self.3, self.4, self.5, self.6, self.7, self.8)
    }

    fn remove_exact(self) -> (r: (B, C, D, E, F, G, H, I)) {
        let (_a, b, c, d, e, f, g, h, i) = self;
        (b, c, d, e, f, g, h, i)
    }
}

impl<A, B, C, D, E, F, G, H, I> TupleRemoveExact<1> for (A, B, C, D, E, F, G, H, I) {
    type Output = (A, C, D, E, F, G, H, I);

    open spec fn removed(self) -> (A, C, D, E, F, G, H, I) {
        (self.0, self.2, self.3, self.4, self.5, self.6, self.7, self.8)
    }

    fn remove_exact(self) -> (r: (A, C, D, E, F, G, H, I)) {
        let (a, _b, c, d, e, f, g, h, i) = self;
        (a, c, d, e, f, g, h, i)
    }
}

impl<A, B, C, D, E, F, G, H, I> TupleRemoveExact<2> for (A, B, C, D, E, F, G, H, I) {
    type Output = (A, B, D, E, F, G, H, I);

    open spec fn removed(self) -> (A, B, D, E, F, G, H, I) {
        (self.0, self.1, self.3, self.4, self.5, self.6, self.7, self.8)
    }

    fn remove_exact(self) -> (r: (A, B, D, E, F, G, H, I)) {
        let (a, b, _c, d, e, f, g, h, i) = self;
        (a, b, d, e, f, g, h, i)
    }
}

impl<A, B, C, D, E, F, G, H, I> TupleRemoveExact<3> for (A, B, C, D, E, F, G, H, I) {
    type Output = (A, B, C, E, F, G, H, I);

    open spec fn removed(self) -> (A, B, C, E, F, G, H, I) {
        (self.0, self.1, self.2, self.4, self.5, self.6, self.7, self.8)
    }

    fn remove_exact(self) -> (r: (A, B, C, E, F, G, H, I)) {
        let (a, b, c, _d, e, f, g, h, i) = self;
        (a, b, c, e, f, g, h, i)
    }
}

impl<A, B, C, D, E, F, G, H, I> TupleRemoveExact<4> for (A, B, C, D, E, F, G, H, I) {
    type Output = (A, B, C, D, F, G, H, I);

    open spec fn removed(self) -> (A, B, C, D, F, G, H, I) {
        (self.0, self.1, self.2, self.3, self.5, self.6, self.7, self.8)
    }

    fn remove_exact(self) -> (r: (A, B, C, D, F, G, H, I)) {
        let (a, b, c, d, _e, f, g, h, i) = self;
        (a, b, c, d, f, g, h, i)
    }
}

impl<A, B, C, D, E, F, G, H, I> TupleRemoveExact<5> for (A, B, C, D, E, F, G, H, I) {
    type Output = (A, B, C, D, E, G, H, I);

    open spec fn removed(self) -> (A, B, C, D, E, G, H, I) {
        (self.0, self.1, self.2, self.3, self.4, self.6, self.7, self.8)
    }

    fn remove_exact(self) -> (r: (A, B, C, D, E, G, H, I)) {
        let (a, b, c, d, e, _f, g, h, i) = self;
        (a, b, c, d, e, g, h, i)
    }
}

impl<A, B, C, D, E, F, G, H, I> TupleRemoveExact<6> for (A, B, C, D, E, F, G, H, I) {
    type Output = (A, B, C, D, E, F, H, I);

    open spec fn removed(self) -> (A, B, C, D, E, F, H, I) {
        (self.0, self.1, self.2, self.3, self.4, self.5, self.7, self.8)
    }

    fn remove_exact(self) -> (r: (A, B, C, D, E, F, H, I)) {
        let (a, b, c, d, e, f, _g, h, i) = self;
        (a, b, c, d, e, f, h, i)
    }
}

impl<A, B, C, D, E, F, G, H, I> TupleRemoveExact<7> for (A, B, C, D, E, F, G, H, I) {
    type Output = (A, B, C, D, E, F, G, I);

    open spec fn removed(self) -> (A, B, C, D, E, F, G, I) {
        (self.0, self.1, self.2, self.3, self.4, self.5, self.6, self.8)
    }

    fn remove_exact(self) -> (r: (A, B, C, D, E, F, G, I)) {
        let (a, b, c, d, e, f, g, _h, i) = self;
        (a, b, c, d, e, f, g, i)
    }
}

impl<A, B, C, D, E, F, G, H, I> TupleRemoveExact<8> for (A, B, C, D, E, F, G, H, I) {
    type Output = (A, B, C, D, E, F, G, H);

    open spec fn removed(self) -> (A, B, C, D, E, F, G, H) {
        (self.0, self.1, self.2, self.3, self.4, self.5, self.6, self.7)
    }

    fn remove_exact(self) -> (r: (A, B, C, D, E, F, G, H)) {
        let (a, b, c, d, e, f, g, h, _i) = self;
        (a, b, c, d, e, f, g, h)
    }
}

impl<A, B, C, D, E, F, G, H, I, J> TupleRemove for (A, B, C, D, E, F, G, H, I, J) {
}

impl<A, B, C, D, E, F, G, H, I, J> TupleRemoveExact<0> for (A, B, C, D, E, F, G, H, I, J) {
    type Output = (B, C, D, E, F, G, H, I, J);

    open spec fn removed(self) -> (B, C, D, E, F, G, H, I, J) {
        (self.1, self.2, self.3, self.4, self.5, self.6, self.7, self.8, self.9)
    }

    fn remove_exact(self) -> (r: (B, C, D, E, F, G, H, I, J)) {
        let (_a, b, c, d, e, f, g, h, i, j) = self;
        (b, c, d, e, f, g, h, i, j)
    }
}

impl<A, B, C, D, E, F, G, H, I, J> TupleRemoveExact<1> for (A, B, C, D, E, F, G, H, I, J) {
    type Output = (A, C, D, E, F, G, H, I, J);

    open spec fn removed(self) -> (A, C, D, E, F, G, H, I, J) {
        (self.0, self.2, self.3, self.4, self.5, self.6, self.7, self.8, self.9)
    }

    fn remove_exact(self) -> (r: (A, C, D, E, F, G, H, I, J)) {
        let (a, _b, c, d, e, f, g, h, i, j) = self;
        (a, c, d, e, f, g, h, i, j)
    }
}

impl<A, B, C, D, E, F, G, H, I, J> TupleRemoveExact<2> for (A, B, C, D, E, F, G, H, I, J) {
    type Output = (A, B, D, E, F, G, H, I, J);

    open spec fn removed(self) -> (A, B, D, E, F, G, H, I, J) {
        (self.0, self.1, self.3, self.4, self.5, self.6, self.7, self.8, self.9)
    }

    fn remove_exact(self) -> (r: (A, B, D, E, F, G, H, I, J)) {
        let (a, b, _c, d, e, f, g, h, i, j) = self;
        (a, b, d, e, f, g, h, i, j)
    }
}

impl<A, B, C, D, E, F, G, H, I, J> TupleRemoveExact<3> for (A, B, C, D, E, F, G, H, I, J) {
    type Output = (A, B, C, E, F, G, H, I, J);

    open spec fn removed(self) -> (A, B, C, E, F, G, H, I, J) {
        (self.0, self.1, self.2, self.4, self.5, self.6, self.7, self.8, self.9)
    }

    fn remove_exact(self) -> (r: (A, B, C, E, F, G, H, I, J)) {
        let (a, b, c, _d, e, f, g, h, i, j) = self;
        (a, b, c, e, f, g, h, i, j)
    }
}

impl<A, B, C, D, E, F, G, H, I, J> TupleRemoveExact<4> for (A, B, C, D, E, F, G, H, I, J) {
    type Output = (A, B, C, D, F, G, H, I, J);

    open spec fn removed(self) -> (A, B, C, D, F, G, H, I, J) {
        (self.0, self.1, self.2, self.3, self.5, self.6, self.7, self.8, self.9)
    }

    fn remove_exact(self) -> (r: (A, B, C, D, F, G, H, I, J)) {
        let (a, b, c, d, _e, f, g, h, i, j) = self;
        (a, b, c, d, f, g, h, i, j)
    }
}

impl<A, B, C, D, E, F, G, H, I, J> TupleRemoveExact<5> for (A, B, C, D, E, F, G, H, I, J) {
    type Output = (A, B, C, D, E, G, H, I, J);

    open spec fn removed(self) -> (A, B, C, D, E, G, H, I, J) {
        (self.0, self.1, self.2, self.3, self.4, self.6, self.7, self.8, self.9)
    }

    fn remove_exact(self) -> (r: (A, B, C, D, E, G, H, I, J)) {
        let (a, b, c, d, e, _f, g, h, i, j) = self;
        (a, b, c, d, e, g, h, i, j)
    }
}

impl<A, B, C, D, E, F, G, H, I, J> TupleRemoveExact<6> for (A, B, C, D, E, F, G, H, I, J) {
    type Output = (A, B, C, D, E, F, H, I, J);

    open spec fn removed(self) -> (A, B, C, D, E, F, H, I, J) {
        (self.0, self.1, self.2, self.3, self.4, self.5, self.7, self.8, self.9)
    }

    fn remove_exact(self) -> (r: (A, B, C, D, E, F, H, I, J)) {
        let (a, b, c, d, e, f, _g, h, i, j) = self;
        (a, b, c, d, e, f, h, i, j)
    }
}

impl<A, B, C, D, E, F, G, H, I, J> TupleRemoveExact<7> for (A, B, C, D, E, F, G, H, I, J) {
    type Output = (A, B, C, D, E, F, G, I, J);

    open spec fn removed(self) -> (A, B, C, D, E, F, G, I, J) {
        (self.0, self.1, self.2, self.3, self.4, self.5, self.6, self.8, self.9)
    }

    fn remove_exact(self) -> (r: (A, B, C, D, E, F, G, I, J)) {
        let (a, b, c, d, e, f, g, _h, i, j) = self;
        (a, b, c, d, e, f, g, i, j)
    }
}

impl<A, B, C, D, E, F, G, H, I, J> TupleRemoveExact<8> for (A, B, C, D, E, F, G, H, I, J) {
    type Output = (A, B, C, D, E, F, G, H, J);

    open spec fn removed(self) -> (A, B, C, D, E, F, G, H, J) {
        (self.0, self.1, self.2, self.3, self.4, self.5, self.6, self.7, self.9)
    }

    fn remove_exact(self) -> (r: (A, B, C, D, E, F, G, H, J)) {
        let (a, b, c, d, e, f, g, h, _i, j) = self;
        (a, b, c, d, e, f, g, h, j)
    }
}

impl<A, B, C, D, E, F, G, H, I, J> TupleRemoveExact<9> for (A, B, C, D, E, F, G, H, I, J) {
    type Output = (A, B, C, D, E, F, G, H, I);

    open spec fn removed(self) -> (A, B, C, D, E, F, G, H, I) {
        (self.0, self.1, self.2, self.3, self.4, self.5, self.6, self.7, self.8)
    }

    fn remove_exact(self) -> (r: (A, B, C, D, E, F, G, H, I)) {
        let (a, b, c, d, e, f, g, h, i, _j) = self;
        (a, b, c, d, e, f, g, h, i)
    }
}

impl<A, B> TupleConcat<(B,)> for (A,) {
    type Output = (A, B);

    open spec fn concatenated(self, other: (B,)) -> (A, B) {
        (self.0, other.0)
    }

    fn concat(self, other: (B,)) -> (r: (A, B)) {
        let (a,) = self;
        let (b,) = other;
        (a, b)
    }
}

impl<A, B, C> TupleConcat<(B, C)> for (A,) {
    type Output = (A, B, C);

    open spec fn concatenated(self, other: (B, C)) -> (A, B, C) {
        (self.0, other.0, other.1)
    }

    fn concat(self, other: (B, C)) -> (r: (A, B, C)) {
        let (a,) = self;
        let (b, c) = other;
        (a, b, c)
    }
}

impl<A, B, C, D> TupleConcat<(B, C, D)> for (A,) {
    type Output = (A, B, C, D);

    open spec fn concatenated(self, other: (B, C, D)) -> (A, B, C, D) {
        (self.0, other.0, other.1, other.2)
    }

    fn concat(self, other: (B, C, D)) -> (r: (A, B, C, D)) {
        let (a,) = self;
        let (b, c, d) = other;
        (a, b, c, d)
    }
}

impl<A, B, C, D, E> TupleConcat<(B, C, D, E)> for (A,) {
    type Output = (A, B, C, D, E);

    open spec fn concatenated(self, other: (B, C, D, E)) -> (A, B, C, D, E) {
        (self.0, other.0, other.1, other.2, other.3)
    }

    fn concat(self, other: (B, C, D, E)) -> (r: (A, B, C, D, E)) {
        let (a,) = self;
        let (b, c, d, e) = other;
        (a, b, c, d, e)
    }
}

impl<A, B, C, D, E, F> TupleConcat<(B, C, D, E, F)> for (A,) {
    type Output = (A, B, C, D, E, F);

    open spec fn concatenated(self, other: (B, C, D, E, F)) -> (A, B, C, D, E, F) {
        (self.0, other.0, other.1, other.2, other.3, other.4)
    }

    fn concat(self, other: (B, C, D, E, F)) -> (r: (A, B, C, D, E, F)) {
        let (a,) = self;
        let (b, c, d, e, f) = other;
        (a, b, c, d, e, f)
    }
}

impl<A, B, C, D, E, F, G> TupleConcat<(B, C, D, E, F, G)> for (A,) {
    type Output = (A, B, C, D, E, F, G);

    open spec fn concatenated(self, other: (B, C, D, E, F, G)) -> (A, B, C, D, E, F, G) {
        (self.0, other.0, other.1, other.2, other.3, other.4, other.5)
    }

    fn concat(self, other: (B, C, D, E, F, G)) -> (r: (A, B, C, D, E, F, G)) {
        let (a,) = self;
        let (b, c, d, e, f, g) = other;
        (a, b, c, d, e, f, g)
    }
}

impl<A, B, C, D, E, F, G, H> TupleConcat<(B, C, D, E, F, G, H)> for (A,) {
    type Output = (A, B, C, D, E, F, G, H);

    open spec fn concatenated(self, other: (B, C, D, E, F, G, H)) -> (A, B, C, D, E, F, G, H) {
        (self.0, other.0, other.1, other.2, other.3, other.4, other.5, other.6)
    }

    fn concat(self, other: (B, C, D, E, F, G, H)) -> (r: (A, B, C, D, E, F, G, H)) {
        let (a,) = self;
        let (b, c, d, e, f, g, h) = other;
        (a, b, c, d, e, f, g, h)
    }
}

impl<A, B, C, D, E, F, G, H, I> TupleConcat<(B, C, D, E, F, G, H, I)> for (A,) {
    type Output = (A, B, C, D, E, F, G, H, I);

    open spec fn concatenated(self, other: (B, C, D, E, F, G, H, I)) -> (A, B, C, D, E, F, G, H, I) {
        (self.0, other.0, other.1, other.2, other.3, other.4, other.5, other.6, other.7)
    }

    fn concat(self, other: (B, C, D, E, F, G, H, I)) -> (r: (A, B, C, D, E, F, G, H, I)) {
        let (a,) = self;
        let (b, c, d, e, f, g, h, i) = other;
        (a, b, c, d, e, f, g, h, i)
    }
}

impl<A, B, C, D, E, F, G, H, I, J> TupleConcat<(B, C, D, E, F, G, H, I, J)> for (A,) {
    type Output = (A, B, C, D, E, F, G, H, I, J);

    open spec fn concatenated(self, other: (B, C, D, E, F, G, H, I, J)) -> (A, B, C, D, E, F, G, H, I, J) {
        (self.0, other.0, other.1, other.2, other.3, other.4, other.5, other.6, other.7, other.8)
    }

    fn concat(self, other: (B, C, D, E, F, G, H, I, J)) -> (r: (A, B, C, D, E, F, G, H, I, J)) {
        let (a,) = self;
        let (b, c, d, e, f, g, h, i, j) = other;
        (a, b, c, d, e, f, g, h, i, j)
    }
}

impl<A, B, C> TupleConcat<(C,)> for (A, B) {
    type Output = (A, B, C);

    open spec fn concatenated(self, other: (C,)) -> (A, B, C) {
        (self.0, self.1, other.0)
    }

    fn concat(self, other: (C,)) -> (r: (A, B, C)) {
        let (a, b) = self;
        let (c,) = other;
        (a, b, c)
    }
}

impl<A, B, C, D> TupleConcat<(C, D)> for (A, B) {
    type Output = (A, B, C, D);

    open spec fn concatenated(self, other: (C, D)) -> (A, B, C, D) {
        (self.0, self.1, other.0, other.1)
    }

    fn concat(self, other: (C, D)) -> (r: (A, B, C, D)) {
        let (a, b) = self;
        let (c, d) = other;
        (a, b, c, d)
    }
}

impl<A, B, C, D, E> TupleConcat<(C, D, E)> for (A, B) {
    type Output = (A, B, C, D, E);

    open spec fn concatenated(self, other: (C, D, E)) -> (A, B, C, D, E) {
        (self.0, self.1, other.0, other.1, other.2)
    }

    fn concat(self, other: (C, D, E)) -> (r: (A, B, C, D, E)) {
        let (a, b) = self;
        let (c, d, e) = other;
        (a, b, c, d, e)
    }
}

impl<A, B, C, D, E, F> TupleConcat<(C, D, E, F)> for (A, B) {
    type Output = (A, B, C, D, E, F);

    open spec fn concatenated(self, other: (C, D, E, F)) -> (A, B, C, D, E, F) {
        (self.0, self.1, other.0, other.1, other.2, other.3)
    }

    fn concat(self, other: (C, D, E, F)) -> (r: (A, B, C, D, E, F)) {
        let (a, b) = self;
        let (c, d, e, f) = other;
        (a, b, c, d, e, f)
    }
}

impl<A, B, C, D, E, F, G> TupleConcat<(C, D, E, F, G)> for (A, B) {
    type Output = (A, B, C, D, E, F, G);

    open spec fn concatenated(self, other: (C, D, E, F, G)) -> (A, B, C, D, E, F, G) {
        (self.0, self.1, other.0, other.1, other.2, other.3, other.4)
    }

    fn concat(self, other: (C, D, E, F, G)) -> (r: (A, B, C, D, E, F, G)) {
        let (a, b) = self;
        let (c, d, e, f, g) = other;
        (a, b, c, d, e, f, g)
    }
}

impl<A, B, C, D, E, F, G, H> TupleConcat<(C, D, E, F, G, H)> for (A, B) {
    type Output = (A, B, C, D, E, F, G, H);

    open spec fn concatenated(self, other: (C, D, E, F, G, H)) -> (A, B, C, D, E, F, G, H) {
        (self.0, self.1, other.0, other.1, other.2, other.3, other.4, other.5)
    }

    fn concat(self, other: (C, D, E, F, G, H)) -> (r: (A, B, C, D, E, F, G, H)) {
        let (a, b) = self;
        let (c, d, e, f, g, h) = other;
        (a, b, c, d, e, f, g, h)
    }
}

impl<A, B, C, D, E, F, G, H, I> TupleConcat<(C, D, E, F, G, H, I)> for (A, B) {
    type Output = (A, B, C, D, E, F, G, H, I);

    open spec fn concatenated(self, other: (C, D, E, F, G, H, I)) -> (A, B, C, D, E, F, G, H, I) {
        (self.0, self.1, other.0, other.1, other.2, other.3, other.4, other.5, other.6)
    }

    fn concat(self, other: (C, D, E, F, G, H, I)) -> (r: (A, B, C, D, E, F, G, H, I)) {
        let (a, b) = self;
        let (c, d, e, f, g, h, i) = other;
        (a, b, c, d, e, f, g, h, i)
    }
}

impl<A, B, C, D, E, F, G, H, I, J> TupleConcat<(C, D, E, F, G, H, I, J)> for (A, B) {
    type Output = (A, B, C, D, E, F, G, H, I, J);

    open spec fn concatenated(self, other: (C, D, E, F, G, H, I, J)) -> (A, B, C, D, E, F, G, H, I, J) {
        (self.0, self.1, other.0, other.1, other.2, other.3, other.4, other.5, other.6, other.7)
    }

    fn concat(self, other: (C, D, E, F, G, H, I, J)) -> (r: (A, B, C, D, E, F, G, H, I, J)) {
        let (a, b) = self;
        let (c, d, e, f, g, h, i, j) = other;
        (a, b, c, d, e, f, g, h, i, j)
    }
}

impl<A, B, C, D> TupleConcat<(D,)> for (A, B, C) {
    type Output = (A, B, C, D);

    open spec fn concatenated(self, other: (D,)) -> (A, B, C, D) {
        (self.0, self.1, self.2, other.0)
    }

    fn concat(self, other: (D,)) -> (r: (A, B, C, D)) {
        let (a, b, c) = self;
        let (d,) = other;
        (a, b, c, d)
    }
}

impl<A, B, C, D, E> TupleConcat<(D, E)> for (A, B, C) {
    type Output = (A, B, C, D, E);

    open spec fn concatenated(self, other: (D, E)) -> (A, B, C, D, E) {
        (self.0, self.1, self.2, other.0, other.1)
    }

    fn concat(self, other: (D, E)) -> (r: (A, B, C, D, E)) {
        let (a, b, c) = self;
        let (d, e) = other;
        (a, b, c, d, e)
    }
}

impl<A, B, C, D, E, F> TupleConcat<(D, E, F)> for (A, B, C) {
    type Output = (A, B, C, D, E, F);

    open spec fn concatenated(self, other: (D, E, F)) -> (A, B, C, D, E, F) {
        (self.0, self.1, self.2, other.0, other.1, other.2)
    }

    fn concat(self, other: (D, E, F)) -> (r: (A, B, C, D, E, F)) {
        let (a, b, c) = self;
        let (d, e, f) = other;
        (a, b, c, d, e, f)
    }
}

impl<A, B, C, D, E, F, G> TupleConcat<(D, E, F, G)> for (A, B, C) {
    type Output = (A, B, C, D, E, F, G);

    open spec fn concatenated(self, other: (D, E, F, G)) -> (A, B, C, D, E, F, G) {
        (self.0, self.1, self.2, other.0, other.1, other.2, other.3)
    }

    fn concat(self, other: (D, E, F, G)) -> (r: (A, B, C, D, E, F, G)) {
        let (a, b, c) = self;
        let (d, e, f, g) = other;
        (a, b, c, d, e, f, g)
    }
}

impl<A, B, C, D, E, F, G, H> TupleConcat<(D, E, F, G, H)> for (A, B, C) {
    type Output = (A, B, C, D, E, F, G, H);

    open spec fn concatenated(self, other: (D, E, F, G, H)) -> (A, B, C, D, E, F, G, H) {
        (self.0, self.1, self.2, other.0, other.1, other.2, other.3, other.4)
    }

    fn concat(self, other: (D, E, F, G, H)) -> (r: (A, B, C, D, E, F, G, H)) {
        let (a, b, c) = self;
        let (d, e, f, g, h) = other;
        (a, b, c, d, e, f, g, h)
    }
}

impl<A, B, C, D, E, F, G, H, I> TupleConcat<(D, E, F, G, H, I)> for (A, B, C) {
    type Output = (A, B, C, D, E, F, G, H, I);

    open spec fn concatenated(self, other: (D, E, F, G, H, I)) -> (A, B, C, D, E, F, G, H, I) {
        (self.0, self.1, self.2, other.0, other.1, other.2, other.3, other.4, other.5)
    }

    fn concat(self, other: (D, E, F, G, H, I)) -> (r: (A, B, C, D, E, F, G, H, I)) {
        let (a, b, c) = self;
        let (d, e, f, g, h, i) = other;
        (a, b, c, d, e, f, g, h, i)
    }
}

impl<A, B, C, D, E, F, G, H, I, J> TupleConcat<(D, E, F, G, H, I, J)> for (A, B, C) {
    type Output = (A, B, C, D, E, F, G, H, I, J);

    open spec fn concatenated(self, other: (D, E, F, G, H, I, J)) -> (A, B, C, D, E, F, G, H, I, J) {
        (self.0, self.1, self.2, other.0, other.1, other.2, other.3, other.4, other.5, other.6)
    }

    fn concat(self, other: (D, E, F, G, H, I, J)) -> (r: (A, B, C, D, E, F, G, H, I, J)) {
        let (a, b, c) = self;
        let (d, e, f, g, h, i, j) = other;
        (a, b, c, d, e, f, g, h, i, j)
    }
}

impl<A, B, C, D, E> TupleConcat<(E,)> for (A, B, C, D) {
    type Output = (A, B, C, D, E);

    open spec fn concatenated(self, other: (E,)) -> (A, B, C, D, E) {
        (self.0, self.1, self.2, self.3, other.0)
    }

    fn concat(self, other: (E,)) -> (r: (A, B, C, D, E)) {
        let (a, b, c, d) = self;
        let (e,) = other;
        (a, b, c, d, e)
    }
}

impl<A, B, C, D, E, F> TupleConcat<(E, F)> for (A, B, C, D) {
    type Output = (A, B, C, D, E, F);

    open spec fn concatenated(self, other: (E, F)) -> (A, B, C, D, E, F) {
        (self.0, self.1, self.2, self.3, other.0, other.1)
    }

    fn concat(self, other: (E, F)) -> (r: (A, B, C, D, E, F)) {
        let (a, b, c, d) = self;
        let (e, f) = other;
        (a, b, c, d, e, f)
    }
}

impl<A, B, C, D, E, F, G> TupleConcat<(E, F, G)> for (A, B, C, D) {
    type Output = (A, B, C, D, E, F, G);

    open spec fn concatenated(self, other: (E, F, G)) -> (A, B, C, D, E, F, G) {
        (self.0, self.1, self.2, self.3, other.0, other.1, other.2)
    }

    fn concat(self, other: (E, F, G)) -> (r: (A, B, C, D, E, F, G)) {
        let (a, b, c, d) = self;
        let (e, f, g) = other;
        (a, b, c, d, e, f, g)
    }
}

impl<A, B, C, D, E, F, G, H> TupleConcat<(E, F, G, H)> for (A, B, C, D) {
    type Output = (A, B, C, D, E, F, G, H);

    open spec fn concatenated(self, other: (E, F, G, H)) -> (A, B, C, D, E, F, G, H) {
        (self.0, self.1, self.2, self.3, other.0, other.1, other.2, other.3)
    }

    fn concat(self, other: (E, F, G, H)) -> (r: (A, B, C, D, E, F, G, H)) {
        let (a, b, c, d) = self;
        let (e, f, g, h) = other;
        (a, b, c, d, e, f, g, h)
    }
}

impl<A, B, C, D, E, F, G, H, I> TupleConcat<(E, F, G, H, I)> for (A, B, C, D) {
    type Output = (A, B, C, D, E, F, G, H, I);

    open spec fn concatenated(self, other: (E, F, G, H, I)) -> (A, B, C, D, E, F, G, H, I) {
        (self.0, self.1, self.2, self.3, other.0, other.1, other.2, other.3, other.4)
    }

    fn concat(self, other: (E, F, G, H, I)) -> (r: (A, B, C, D, E, F, G, H, I)) {
        let (a, b, c, d) = self;
        let (e, f, g, h, i) = other;
        (a, b, c, d, e, f, g, h, i)
    }
}

impl<A, B, C, D, E, F, G, H, I, J> TupleConcat<(E, F, G, H, I, J)> for (A, B, C, D) {
    type Output = (A, B, C, D, E, F, G, H, I, J);

    open spec fn concatenated(self, other: (E, F, G, H, I, J)) -> (A, B, C, D, E, F, G, H, I, J) {
        (self.0, self.1, self.2, self.3, other.0, other.1, other.2, other.3, other.4, other.5)
    }

    fn concat(self, other: (E, F, G, H, I, J)) -> (r: (A, B, C, D, E, F, G, H, I, J)) {
        let (a, b, c, d) = self;
        let (e, f, g, h, i, j) = other;
        (a, b, c, d, e, f, g, h, i, j)
    }
}

impl<A, B, C, D, E, F> TupleConcat<(F,)> for (A, B, C, D, E) {
    type Output = (A, B, C, D, E, F);

    open spec fn concatenated(self, other: (F,)) -> (A, B, C, D, E, F) {
        (self.0, self.1, self.2, self.3, self.4, other.0)
    }

    fn concat(self, other: (F,)) -> (r: (A, B, C, D, E, F)) {
        let (a, b, c, d, e) = self;
        let (f,) = other;
        (a, b, c, d, e, f)
    }
}

impl<A, B, C, D, E, F, G> TupleConcat<(F, G)> for (A, B, C, D, E) {
    type Output = (A, B, C, D, E, F, G);

    open spec fn concatenated(self, other: (F, G)) -> (A, B, C, D, E, F, G) {
        (self.0, self.1, self.2, self.3, self.4, other.0, other.1)
    }

    fn concat(self, other: (F, G)) -> (r: (A, B, C, D, E, F, G)) {
        let (a, b, c, d, e) = self;
        let (f, g) = other;
        (a, b, c, d, e, f, g)
    }
}

impl<A, B, C, D, E, F, G, H> TupleConcat<(F, G, H)> for (A, B, C, D, E) {
    type Output = (A, B, C, D, E, F, G, H);

    open spec fn concatenated(self, other: (F, G, H)) -> (A, B, C, D, E, F, G, H) {
        (self.0, self.1, self.2, self.3, self.4, other.0, other.1, other.2)
    }

    fn concat(self, other: (F, G, H)) -> (r: (A, B, C, D, E, F, G, H)) {
        let (a, b, c, d, e) = self;
        let (f, g, h) = other;
        (a, b, c, d, e, f, g, h)
    }
}

impl<A, B, C, D, E, F, G, H, I> TupleConcat<(F, G, H, I)> for (A, B, C, D, E) {
    type Output = (A, B, C, D, E, F, G, H, I);

    open spec fn concatenated(self, other: (F, G, H, I)) -> (A, B, C, D, E, F, G, H, I) {
        (self.0, self.1, self.2, self.3, self.4, other.0, other.1, other.2, other.3)
    }

    fn concat(self, other: (F, G, H, I)) -> (r: (A, B, C, D, E, F, G, H, I)) {
        let (a, b, c, d, e) = self;
        let (f, g, h, i) = other;
        (a, b, c, d, e, f, g, h, i)
    }
}

impl<A, B, C, D, E, F, G, H, I, J> TupleConcat<(F, G, H, I, J)> for (A, B, C, D, E) {
    type Output = (A, B, C, D, E, F, G, H, I, J);

    open spec fn concatenated(self, other: (F, G, H, I, J)) -> (A, B, C, D, E, F, G, H, I, J) {
        (self.0, self.1, self.2, self.3, self.4, other.0, other.1, other.2, other.3, other.4)
    }

    fn concat(self, other: (F, G, H, I, J)) -> (r: (A, B, C, D, E, F, G, H, I, J)) {
        let (a, b, c, d, e) = self;
        let (f, g, h, i, j) = other;
        (a, b, c, d, e, f, g, h, i, j)
    }
}

impl<A, B, C, D, E, F, G> TupleConcat<(G,)> for (A, B, C, D, E, F) {
    type Output = (A, B, C, D, E, F, G);

    open spec fn concatenated(self, other: (G,)) -> (A, B, C, D, E, F, G) {
        (self.0, self.1, self.2, self.3, self.4, self.5, other.0)
    }

    fn concat(self, other: (G,)) -> (r: (A, B, C, D, E, F, G)) {
        let (a, b, c, d, e, f) = self;
        let (g,) = other;
        (a, b, c, d, e, f, g)
    }
}

impl<A, B, C, D, E, F, G, H> TupleConcat<(G, H)> for (A, B, C, D, E, F) {
    type Output = (A, B, C, D, E, F, G, H);

    open spec fn concatenated(self, other: (G, H)) -> (A, B, C, D, E, F, G, H) {
        (self.0, self.1, self.2, self.3, self.4, self.5, other.0, other.1)
    }

    fn concat(self, other: (G, H)) -> (r: (A, B, C, D, E, F, G, H)) {
        let (a, b, c, d, e, f) = self;
        let (g, h) = other;
        (a, b, c, d, e, f, g, h)
    }
}

impl<A, B, C, D, E, F, G, H, I> TupleConcat<(G, H, I)> for (A, B, C, D, E, F) {
    type Output = (A, B, C, D, E, F, G, H, I);

    open spec fn concatenated(self, other: (G, H, I)) -> (A, B, C, D, E, F, G, H, I) {
        (self.0, self.1, self.2, self.3, self.4, self.5, other.0, other.1, other.2)
    }

    fn concat(self, other: (G, H, I)) -> (r: (A, B, C, D, E, F, G, H, I)) {
        let (a, b, c, d, e, f) = self;
        let (g, h, i) = other;
        (a, b, c, d, e, f, g, h, i)
    }
}

impl<A, B, C, D, E, F, G, H, I, J> TupleConcat<(G, H, I, J)> for (A, B, C, D, E, F) {
    type Output = (A, B, C, D, E, F, G, H, I, J);

    open spec fn concatenated(self, other: (G, H, I, J)) -> (A, B, C, D, E, F, G, H, I, J) {
        (self.0, self.1, self.2, self.3, self.4, self.5, other.0, other.1, other.2, other.3)
    }

    fn concat(self, other: (G, H, I, J)) -> (r: (A, B, C, D, E, F, G, H, I, J)) {
        let (a, b, c, d, e, f) = self;
        let (g, h, i, j) = other;
        (a, b, c, d, e, f, g, h, i, j)
    }
}

impl<A, B, C, D, E, F, G, H> TupleConcat<(H,)> for (A, B, C, D, E, F, G) {
    type Output = (A, B, C, D, E, F, G, H);

    open spec fn concatenated(self, other: (H,)) -> (A, B, C, D, E, F, G, H) {
        (self.0, self.1, self.2, self.3, self.4, self.5, self.6, other.0)
    }

    fn concat(self, other: (H,)) -> (r: (A, B, C, D, E, F, G, H)) {
        let (a, b, c, d, e, f, g) = self;
        let (h,) = other;
        (a, b, c, d, e, f, g, h)
    }
}

impl<A, B, C, D, E, F, G, H, I> TupleConcat<(H, I)> for (A, B, C, D, E, F, G) {
    type Output = (A, B, C, D, E, F, G, H, I);

    open spec fn concatenated(self, other: (H, I)) -> (A, B, C, D, E, F, G, H, I) {
        (self.0, self.1, self.2, self.3, self.4, self.5, self.6, other.0, other.1)
    }

    fn concat(self, other: (H, I)) -> (r: (A, B, C, D, E, F, G, H, I)) {
        let (a, b, c, d, e, f, g) = self;
        let (h, i) = other;
        (a, b, c, d, e, f, g, h, i)
    }
}

impl<A, B, C, D, E, F, G, H, I, J> TupleConcat<(H, I, J)> for (A, B, C, D, E, F, G) {
    type Output = (A, B, C, D, E, F, G, H, I, J);

    open spec fn concatenated(self, other: (H, I, J)) -> (A, B, C, D, E, F, G, H, I, J) {
        (self.0, self.1, self.2, self.3, self.4, self.5, self.6, other.0, other.1, other.2)
    }

    fn concat(self, other: (H, I, J)) -> (r: (A, B, C, D, E, F, G, H, I, J)) {
        let (a, b, c, d, e, f, g) = self;
        let (h, i, j) = other;
        (a, b, c, d, e, f, g, h, i, j)
    }
}

impl<A, B, C, D, E, F, G, H, I> TupleConcat<(I,)> for (A, B, C, D, E, F, G, H) {
    type Output = (A, B, C, D, E, F, G, H, I);

    open spec fn concatenated(self, other: (I,)) -> (A, B, C, D, E, F, G, H, I) {
        (self.0, self.1, self.2, self.3, self.4, self.5, self.6, self.7, other.0)
    }

    fn concat(self, other: (I,)) -> (r: (A, B, C, D, E, F, G, H, I)) {
        let (a, b, c, d, e, f, g, h) = self;
        let (i,) = other;
        (a, b, c, d, e, f, g, h, i)
    }
}

impl<A, B, C, D, E, F, G, H, I, J> TupleConcat<(I, J)> for (A, B, C, D, E, F, G, H) {
    type Output = (A, B, C, D, E, F, G, H, I, J);

    open spec fn concatenated(self, other: (I, J)) -> (A, B, C, D, E, F, G, H, I, J) {
        (self.0, self.1, self.2, self.3, self.4, self.5, self.6, self.7, other.0, other.1)
    }

    fn concat(self, other: (I, J)) -> (r: (A, B, C, D, E, F, G, H, I, J)) {
        let (a, b, c, d, e, f, g, h) = self;
        let (i, j) = other;
        (a, b, c, d, e, f, g, h, i, j)
    }
}

impl<A, B, C, D, E, F, G, H, I, J> TupleConcat<(J,)> for (A, B, C, D, E, F, G, H, I) {
    type Output = (A, B, C, D, E, F, G, H, I, J);

    open spec fn concatenated(self, other: (J,)) -> (A, B, C, D, E, F, G, H, I, J) {
        (self.0, self.1, self.2, self.3, self.4, self.5, self.6, self.7, self.8, other.0)
    }

    fn concat(self, other: (J,)) -> (r: (A, B, C, D, E, F, G, H, I, J)) {
        let (a, b, c, d, e, f, g, h, i) = self;
        let (j,) = other;
        (a, b, c, d, e, f, g, h, i, j)
    }
}

/// Removing the element at a position right after inserting a value there
/// gives back the tuple that the insertion started from, for every position
/// of a one-element tuple.
pub proof fn lemma_remove_undoes_insert_single<A, Z>(t: (A,), v: Z)
    ensures
        <(Z, A) as TupleRemoveExact<0>>::removed(
            <(A,) as TupleInsertExact<0, Z>>::inserted(t, v),
        ) == t,
        <(A, Z) as TupleRemoveExact<1>>::removed(
            <(A,) as TupleInsertExact<1, Z>>::inserted(t, v),
        ) == t,
{
}

/// Removing the element at a position right after inserting a value there
/// gives back the tuple that the insertion started from, for every position
/// of a pair.
pub proof fn lemma_remove_undoes_insert_pair<A, B, Z>(t: (A, B), v: Z)
    ensures
        <(Z, A, B) as TupleRemoveExact<0>>::removed(
            <(A, B) as TupleInsertExact<0, Z>>::inserted(t, v),
        ) == t,
        <(A, Z, B) as TupleRemoveExact<1>>::removed(
            <(A, B) as TupleInsertExact<1, Z>>::inserted(t, v),
        ) == t,
        <(A, B, Z) as TupleRemoveExact<2>>::removed(
            <(A, B) as TupleInsertExact<2, Z>>::inserted(t, v),
        ) == t,
{
}

/// Removing the element at a position right after inserting a value there
/// gives back the tuple that the insertion started from, for every position
/// of a triple.
pub proof fn lemma_remove_undoes_insert_triple<A, B, C, Z>(t: (A, B, C), v: Z)
    ensures
        <(Z, A, B, C) as TupleRemoveExact<0>>::removed(
            <(A, B, C) as TupleInsertExact<0, Z>>::inserted(t, v),
        ) == t,
        <(A, Z, B, C) as TupleRemoveExact<1>>::removed(
            <(A, B, C) as TupleInsertExact<1, Z>>::inserted(t, v),
        ) == t,
        <(A, B, Z, C) as TupleRemoveExact<2>>::removed(
            <(A, B, C) as TupleInsertExact<2, Z>>::inserted(t, v),
        ) == t,
        <(A, B, C, Z) as TupleRemoveExact<3>>::removed(
            <(A, B, C) as TupleInsertExact<3, Z>>::inserted(t, v),
        ) == t,
{
}

/// Removing the element at a position right after inserting a value there
/// gives back the tuple that the insertion started from, for every position
/// of a quadruple.
pub proof fn lemma_remove_undoes_insert_quadruple<A, B, C, D, Z>(t: (A, B, C, D), v: Z)
    ensures
        <(Z, A, B, C, D) as TupleRemoveExact<0>>::removed(
            <(A, B, C, D) as TupleInsertExact<0, Z>>::inserted(t, v),
        ) == t,
        <(A, Z, B, C, D) as TupleRemoveExact<1>>::removed(
            <(A, B, C, D) as TupleInsertExact<1, Z>>::inserted(t, v),
        ) == t,
        <(A, B, Z, C, D) as TupleRemoveExact<2>>::removed(
            <(A, B, C, D) as TupleInsertExact<2, Z>>::inserted(t, v),
        ) == t,
        <(A, B, C, Z, D) as TupleRemoveExact<3>>::removed(
            <(A, B, C, D) as TupleInsertExact<3, Z>>::inserted(t, v),
        ) == t,
        <(A, B, C, D, Z) as TupleRemoveExact<4>>::removed(
            <(A, B, C, D) as TupleInsertExact<4, Z>>::inserted(t, v),
        ) == t,
{
}

/// Removing the element at a position right after inserting a value there
/// gives back the tuple that the insertion started from, for every position
/// of a quintuple.
pub proof fn lemma_remove_undoes_insert_quintuple<A, B, C, D, E, Z>(t: (A, B, C, D, E), v: Z)
    ensures
        <(Z, A, B, C, D, E) as TupleRemoveExact<0>>::removed(
            <(A, B, C, D, E) as TupleInsertExact<0, Z>>::inserted(t, v),
        ) == t,
        <(A, Z, B, C, D, E) as TupleRemoveExact<1>>::removed(
            <(A, B, C, D, E) as TupleInsertExact<1, Z>>::inserted(t, v),
        ) == t,
        <(A, B, Z, C, D, E) as TupleRemoveExact<2>>::removed(
            <(A, B, C, D, E) as TupleInsertExact<2, Z>>::inserted(t, v),
        ) == t,
        <(A, B, C, Z, D, E) as TupleRemoveExact<3>>::removed(
            <(A, B, C, D, E) as TupleInsertExact<3, Z>>::inserted(t, v),
        ) == t,
        <(A, B, C, D, Z, E) as TupleRemoveExact<4>>::removed(
            <(A, B, C, D, E) as TupleInsertExact<4, Z>>::inserted(t, v),
        ) == t,
        <(A, B, C, D, E, Z) as TupleRemoveExact<5>>::removed(
            <(A, B, C, D, E) as TupleInsertExact<5, Z>>::inserted(t, v),
        ) == t,
{
}

/// Removing the element at a position right after inserting a value there
/// gives back the tuple that the insertion started from, for every position
/// of a sextuple.
pub proof fn lemma_remove_undoes_insert_sextuple<A, B, C, D, E, F, Z>(
    t: (A, B, C, D, E, F),
    v: Z,
)
    ensures
        <(Z, A, B, C, D, E, F) as TupleRemoveExact<0>>::removed(
            <(A, B, C, D, E, F) as TupleInsertExact<0, Z>>::inserted(t, v),
        ) == t,
        <(A, Z, B, C, D, E, F) as TupleRemoveExact<1>>::removed(
            <(A, B, C, D, E, F) as TupleInsertExact<1, Z>>::inserted(t, v),
        ) == t,
        <(A, B, Z, C, D, E, F) as TupleRemoveExact<2>>::removed(
            <(A, B, C, D, E, F) as TupleInsertExact<2, Z>>::inserted(t, v),
        ) == t,
        <(A, B, C, Z, D, E, F) as TupleRemoveExact<3>>::removed(
            <(A, B, C, D, E, F) as TupleInsertExact<3, Z>>::inserted(t, v),
        ) == t,
        <(A, B, C, D, Z, E, F) as TupleRemoveExact<4>>::removed(
            <(A, B, C, D, E, F) as TupleInsertExact<4, Z>>::inserted(t, v),
        ) == t,
        <(A, B, C, D, E, Z, F) as TupleRemoveExact<5>>::removed(
            <(A, B, C, D, E, F) as TupleInsertExact<5, Z>>::inserted(t, v),
        ) == t,
        <(A, B, C, D, E, F, Z) as TupleRemoveExact<6>>::removed(
            <(A, B, C, D, E, F) as TupleInsertExact<6, Z>>::inserted(t, v),
        ) == t,
{
}

/// Removing the element at a position right after inserting a value there
/// gives back the tuple that the insertion started from, for every position
/// of a septuple.
pub proof fn lemma_remove_undoes_insert_septuple<A, B, C, D, E, F, G, Z>(
    t: (A, B, C, D, E, F, G),
    v: Z,
)
    ensures
        <(Z, A, B, C, D, E, F, G) as TupleRemoveExact<0>>::removed(
            <(A, B, C, D, E, F, G) as TupleInsertExact<0, Z>>::inserted(t, v),
        ) == t,
        <(A, Z, B, C, D, E, F, G) as TupleRemoveExact<1>>::removed(
            <(A, B, C, D, E, F, G) as TupleInsertExact<1, Z>>::inserted(t, v),
        ) == t,
        <(A, B, Z, C, D, E, F, G) as TupleRemoveExact<2>>::removed(
            <(A, B, C, D, E, F, G) as TupleInsertExact<2, Z>>::inserted(t, v),
        ) == t,
        <(A, B, C, Z, D, E, F, G) as TupleRemoveExact<3>>::removed(
            <(A, B, C, D, E, F, G) as TupleInsertExact<3, Z>>::inserted(t, v),
        ) == t,
        <(A, B, C, D, Z, E, F, G) as TupleRemoveExact<4>>::removed(
            <(A, B, C, D, E, F, G) as TupleInsertExact<4, Z>>::inserted(t, v),
        ) == t,
        <(A, B, C, D, E, Z, F, G) as TupleRemoveExact<5>>::removed(
            <(A, B, C, D, E, F, G) as TupleInsertExact<5, Z>>::inserted(t, v),
        ) == t,
        <(A, B, C, D, E, F, Z, G) as TupleRemoveExact<6>>::removed(
            <(A, B, C, D, E, F, G) as TupleInsertExact<6, Z>>::inserted(t, v),
        ) == t,
        <(A, B, C, D, E, F, G, Z) as TupleRemoveExact<7>>::removed(
            <(A, B, C, D, E, F, G) as TupleInsertExact<7, Z>>::inserted(t, v),
        ) == t,
{
}

/// Removing the element at a position right after inserting a value there
/// gives back the tuple that the insertion started from, for every position
/// of an octuple.
pub proof fn lemma_remove_undoes_insert_octuple<A, B, C, D, E, F, G, H, Z>(
    t: (A, B, C, D, E, F, G, H),
    v: Z,
)
    ensures
        <(Z, A, B, C, D, E, F, G, H) as TupleRemoveExact<0>>::removed(
            <(A, B, C, D, E, F, G, H) as TupleInsertExact<0, Z>>::inserted(t, v),
        ) == t,
        <(A, Z, B, C, D, E, F, G, H) as TupleRemoveExact<1>>::removed(
            <(A, B, C, D, E, F, G, H) as TupleInsertExact<1, Z>>::inserted(t, v),
        ) == t,
        <(A, B, Z, C, D, E, F, G, H) as TupleRemoveExact<2>>::removed(
            <(A, B, C, D, E, F, G, H) as TupleInsertExact<2, Z>>::inserted(t, v),
        ) == t,
        <(A, B, C, Z, D, E, F, G, H) as TupleRemoveExact<3>>::removed(
            <(A, B, C, D, E, F, G, H) as TupleInsertExact<3, Z>>::inserted(t, v),
        ) == t,
        <(A, B, C, D, Z, E, F, G, H) as TupleRemoveExact<4>>::removed(
            <(A, B, C, D, E, F, G, H) as TupleInsertExact<4, Z>>::inserted(t, v),
        ) == t,
        <(A, B, C, D, E, Z, F, G, H) as TupleRemoveExact<5>>::removed(
            <(A, B, C, D, E, F, G, H) as TupleInsertExact<5, Z>>::inserted(t, v),
        ) == t,
        <(A, B, C, D, E, F, Z, G, H) as TupleRemoveExact<6>>::removed(
            <(A, B, C, D, E, F, G, H) as TupleInsertExact<6, Z>>::inserted(t, v),
        ) == t,
        <(A, B, C, D, E, F, G, Z, H) as TupleRemoveExact<7>>::removed(
            <(A, B, C, D, E, F, G, H) as TupleInsertExact<7, Z>>::inserted(t, v),
        ) == t,
        <(A, B, C, D, E, F, G, H, Z) as TupleRemoveExact<8>>::removed(
            <(A, B, C, D, E, F, G, H) as TupleInsertExact<8, Z>>::inserted(t, v),
        ) == t,
{
}

/// Removing the element at a position right after inserting a value there
/// gives back the tuple that the insertion started from, for every position
/// of a nonuple.
pub proof fn lemma_remove_undoes_insert_nonuple<A, B, C, D, E, F, G, H, I, Z>(
    t: (A, B, C, D, E, F, G, H, I),
    v: Z,
)
    ensures
        <(Z, A, B, C, D, E, F, G, H, I) as TupleRemoveExact<0>>::removed(
            <(A, B, C, D, E, F, G, H, I) as TupleInsertExact<0, Z>>::inserted(t, v),
        ) == t,
        <(A, Z, B, C, D, E, F, G, H, I) as TupleRemoveExact<1>>::removed(
            <(A, B, C, D, E, F, G, H, I) as TupleInsertExact<1, Z>>::inserted(t, v),
        ) == t,
        <(A, B, Z, C, D, E, F, G, H, I) as TupleRemoveExact<2>>::removed(
            <(A, B, C, D, E, F, G, H, I) as TupleInsertExact<2, Z>>::inserted(t, v),
        ) == t,
        <(A, B, C, Z, D, E, F, G, H, I) as TupleRemoveExact<3>>::removed(
            <(A, B, C, D, E, F, G, H, I) as TupleInsertExact<3, Z>>::inserted(t, v),
        ) == t,
        <(A, B, C, D, Z, E, F, G, H, I) as TupleRemoveExact<4>>::removed(
            <(A, B, C, D, E, F, G, H, I) as TupleInsertExact<4, Z>>::inserted(t, v),
        ) == t,
        <(A, B, C, D, E, Z, F, G, H, I) as TupleRemoveExact<5>>::removed(
            <(A, B, C, D, E, F, G, H, I) as TupleInsertExact<5, Z>>::inserted(t, v),
        ) == t,
        <(A, B, C, D, E, F, Z, G, H, I) as TupleRemoveExact<6>>::removed(
            <(A, B, C, D, E, F, G, H, I) as TupleInsertExact<6, Z>>::inserted(t, v),
        ) == t,
        <(A, B, C, D, E, F, G, Z, H, I) as TupleRemoveExact<7>>::removed(
            <(A, B, C, D, E, F, G, H, I) as TupleInsertExact<7, Z>>::inserted(t, v),
        ) == t,
        <(A, B, C, D, E, F, G, H, Z, I) as TupleRemoveExact<8>>::removed(
            <(A, B, C, D, E, F, G, H, I) as TupleInsertExact<8, Z>>::inserted(t, v),
        ) == t,
        <(A, B, C, D, E, F, G, H, I, Z) as TupleRemoveExact<9>>::removed(
            <(A, B, C, D, E, F, G, H, I) as TupleInsertExact<9, Z>>::inserted(t, v),
        ) == t,
{
}

/// Zipping appends the value after the elements of a one-element tuple, kept in
/// order; it is the same as inserting at the end
/// and as joining a one-element tuple.
pub proof fn lemma_zip_appends_single<A, Z>(t: (A,), v: Z)
    ensures
        <(A,) as TupleZip<Z>>::zipped(t, v) == (t.0, v),
        <(A,) as TupleZip<Z>>::zipped(t, v)
            == <(A,) as TupleInsertExact<1, Z>>::inserted(t, v),
        <(A,) as TupleZip<Z>>::zipped(t, v)
            == <(A,) as TupleConcat<(Z,)>>::concatenated(t, (v,)),
{
}

/// Zipping appends the value after the elements of a pair, kept in
/// order; it is the same as inserting at the end
/// and as joining a one-element tuple.
pub proof fn lemma_zip_appends_pair<A, B, Z>(t: (A, B), v: Z)
    ensures
        <(A, B) as TupleZip<Z>>::zipped(t, v) == (t.0, t.1, v),
        <(A, B) as TupleZip<Z>>::zipped(t, v)
            == <(A, B) as TupleInsertExact<2, Z>>::inserted(t, v),
        <(A, B) as TupleZip<Z>>::zipped(t, v)
            == <(A, B) as TupleConcat<(Z,)>>::concatenated(t, (v,)),
{
}

/// Zipping appends the value after the elements of a triple, kept in
/// order; it is the same as inserting at the end
/// and as joining a one-element tuple.
pub proof fn lemma_zip_appends_triple<A, B, C, Z>(t: (A, B, C), v: Z)
    ensures
        <(A, B, C) as TupleZip<Z>>::zipped(t, v) == (t.0, t.1, t.2, v),
        <(A, B, C) as TupleZip<Z>>::zipped(t, v)
            == <(A, B, C) as TupleInsertExact<3, Z>>::inserted(t, v),
        <(A, B, C) as TupleZip<Z>>::zipped(t, v)
            == <(A, B, C) as TupleConcat<(Z,)>>::concatenated(t, (v,)),
{
}

/// Zipping appends the value after the elements of a quadruple, kept in
/// order; it is the same as inserting at the end
/// and as joining a one-element tuple.
pub proof fn lemma_zip_appends_quadruple<A, B, C, D, Z>(t: (A, B, C, D), v: Z)
    ensures
        <(A, B, C, D) as TupleZip<Z>>::zipped(t, v) == (t.0, t.1, t.2, t.3, v),
        <(A, B, C, D) as TupleZip<Z>>::zipped(t, v)
            == <(A, B, C, D) as TupleInsertExact<4, Z>>::inserted(t, v),
        <(A, B, C, D) as TupleZip<Z>>::zipped(t, v)
            == <(A, B, C, D) as TupleConcat<(Z,)>>::concatenated(t, (v,)),
{
}

/// Zipping appends the value after the elements of a quintuple, kept in
/// order; it is the same as inserting at the end
/// and as joining a one-element tuple.
pub proof fn lemma_zip_appends_quintuple<A, B, C, D, E, Z>(t: (A, B, C, D, E), v: Z)
    ensures
        <(A, B, C, D, E) as TupleZip<Z>>::zipped(t, v) == (t.0, t.1, t.2, t.3, t.4, v),
        <(A, B, C, D, E) as TupleZip<Z>>::zipped(t, v)
            == <(A, B, C, D, E) as TupleInsertExact<5, Z>>::inserted(t, v),
        <(A, B, C, D, E) as TupleZip<Z>>::zipped(t, v)
            == <(A, B, C, D, E) as TupleConcat<(Z,)>>::concatenated(t, (v,)),
{
}

/// Zipping appends the value after the elements of a sextuple, kept in
/// order; it is the same as inserting at the end
/// and as joining a one-element tuple.
pub proof fn lemma_zip_appends_sextuple<A, B, C, D, E, F, Z>(
    t: (A, B, C, D, E, F),
    v: Z,
)
    ensures
        <(A, B, C, D, E, F) as TupleZip<Z>>::zipped(t, v) == (t.0, t.1, t.2, t.3, t.4, t.5, v),
        <(A, B, C, D, E, F) as TupleZip<Z>>::zipped(t, v)
            == <(A, B, C, D, E, F) as TupleInsertExact<6, Z>>::inserted(t, v),
        <(A, B, C, D, E, F) as TupleZip<Z>>::zipped(t, v)
            == <(A, B, C, D, E, F) as TupleConcat<(Z,)>>::concatenated(t, (v,)),
{
}

/// Zipping appends the value after the elements of a septuple, kept in
/// order; it is the same as inserting at the end
/// and as joining a one-element tuple.
pub proof fn lemma_zip_appends_septuple<A, B, C, D, E, F, G, Z>(
    t: (A, B, C, D, E, F, G),
    v: Z,
)
    ensures
        <(A, B, C, D, E, F, G) as TupleZip<Z>>::zipped(t, v) == (t.0, t.1, t.2, t.3, t.4, t.5, t.6, v),
        <(A, B, C, D, E, F, G) as TupleZip<Z>>::zipped(t, v)
            == <(A, B, C, D, E, F, G) as TupleInsertExact<7, Z>>::inserted(t, v),
        <(A, B, C, D, E, F, G) as TupleZip<Z>>::zipped(t, v)
            == <(A, B, C, D, E, F, G) as TupleConcat<(Z,)>>::concatenated(t, (v,)),
{
}

/// Zipping appends the value after the elements of an octuple, kept in
/// order; it is the same as inserting at the end
/// and as joining a one-element tuple.
pub proof fn lemma_zip_appends_octuple<A, B, C, D, E, F, G, H, Z>(
    t: (A, B, C, D, E, F, G, H),
    v: Z,
)
    ensures
        <(A, B, C, D, E, F, G, H) as TupleZip<Z>>::zipped(t, v) == (t.0, t.1, t.2, t.3, t.4, t.5, t.6, t.7, v),
        <(A, B, C, D, E, F, G, H) as TupleZip<Z>>::zipped(t, v)
            == <(A, B, C, D, E, F, G, H) as TupleInsertExact<8, Z>>::inserted(t, v),
        <(A, B, C, D, E, F, G, H) as TupleZip<Z>>::zipped(t, v)
            == <(A, B, C, D, E, F, G, H) as TupleConcat<(Z,)>>::concatenated(t, (v,)),
{
}

/// Zipping appends the value after the elements of a nonuple, kept in
/// order; it is the same as inserting at the end
/// and as joining a one-element tuple.
pub proof fn lemma_zip_appends_nonuple<A, B, C, D, E, F, G, H, I, Z>(
    t: (A, B, C, D, E, F, G, H, I),
    v: Z,
)
    ensures
        <(A, B, C, D, E, F, G, H, I) as TupleZip<Z>>::zipped(t, v) == (t.0, t.1, t.2, t.3, t.4, t.5, t.6, t.7, t.8, v),
        <(A, B, C, D, E, F, G, H, I) as TupleZip<Z>>::zipped(t, v)
            == <(A, B, C, D, E, F, G, H, I) as TupleInsertExact<9, Z>>::inserted(t, v),
        <(A, B, C, D, E, F, G, H, I) as TupleZip<Z>>::zipped(t, v)
            == <(A, B, C, D, E, F, G, H, I) as TupleConcat<(Z,)>>::concatenated(t, (v,)),
{
}

/// Zipping appends the value after the elements of a tuple of ten, kept in
/// order; it is the same as inserting at the end.
pub proof fn lemma_zip_appends_ten<A, B, C, D, E, F, G, H, I, J, Z>(
    t: (A, B, C, D, E, F, G, H, I, J),
    v: Z,
)
    ensures
        <(A, B, C, D, E, F, G, H, I, J) as TupleZip<Z>>::zipped(t, v) == (t.0, t.1, t.2, t.3, t.4, t.5, t.6, t.7, t.8, t.9, v),
        <(A, B, C, D, E, F, G, H, I, J) as TupleZip<Z>>::zipped(t, v)
            == <(A, B, C, D, E, F, G, H, I, J) as TupleInsertExact<10, Z>>::inserted(t, v),
{
}

} // verus!
