//! What a cell hands back when it is taken apart.

use vstd::prelude::*;

verus! {

/// The content of a cell, in the form that the size rule assigns to its type.
///
/// Produced by [`MaybeBox::unpack`](crate::container::MaybeBox::unpack).
#[derive(Debug)]
pub enum Unpacked<T> {
    /// A `T` that fits in a word, carried directly.
    Inline(T),
    /// A `T` that does not fit in a word, still in the heap allocation that
    /// the cell kept it in.
    Boxed(Box<T>),
}

impl<T> View for Unpacked<T> {
    type V = T;

    /// The value carried, whichever the case.
    open spec fn view(&self) -> T {
        match *self {
            Unpacked::Inline(t) => t,
            Unpacked::Boxed(b) => *b,
        }
    }
}

} // verus!
