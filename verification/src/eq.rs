//! Equality of cells is equality of what they hold.

use crate::container::MaybeBox;
use vstd::prelude::*;
use vstd::std_specs::cmp::{PartialEqSpec, PartialEqSpecImpl};

verus! {

impl<U, T: PartialEq<U>> PartialEq<MaybeBox<U>> for MaybeBox<T> {
    /// Compares the values held, by the `==` of `T` with `U`.
    fn eq(&self, other: &MaybeBox<U>) -> (r: bool) {
        let l: &T = &**self;
        let r: &U = &**other;
        *l == *r
    }

    /// Compares the values held, by the `!=` of `T` with `U`.
    fn ne(&self, other: &MaybeBox<U>) -> (r: bool) {
        let l: &T = &**self;
        let r: &U = &**other;
        *l != *r
    }
}

impl<U, T: PartialEq<U>> PartialEqSpecImpl<MaybeBox<U>> for MaybeBox<T> {
    /// Cells compare as stated here wherever the values do.
    open spec fn obeys_eq_spec() -> bool {
        T::obeys_eq_spec()
    }

    /// Two cells are equal when the values they hold are, wherever those
    /// values live.
    open spec fn eq_spec(&self, other: &MaybeBox<U>) -> bool {
        self@.eq_spec(&other@)
    }
}

impl<T: Eq> Eq for MaybeBox<T> {}

} // verus!
