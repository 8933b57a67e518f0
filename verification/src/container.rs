//! The word-sized cell and its operations.

use crate::unpacked::Unpacked;
use crate::word::fits_word;
use vstd::prelude::*;
use vstd::std_specs::convert::FromSpecImpl;

verus! {

/// Holds one `T` in the space of a `usize`, whatever `T` is.
///
/// A cell owns exactly one value from [`new`](MaybeBox::new) until it is
/// dropped or taken apart by [`into_inner`](MaybeBox::into_inner) or
/// [`unpack`](MaybeBox::unpack). Both of those take the cell by value, so no
/// handle to an emptied cell is left behind, and the value meets its destructor
/// once: with the cell, or in the hands of whoever took it out.
///
/// The word is always an owning pointer to the value, also where the value
/// would fit in the word; for a zero-sized `T` it points at nothing allocated.
/// A cell dereferences to its value, and compares, hashes and prints as the
/// value does (printing wraps it in the cell's name).
#[derive(Debug, Hash)]
pub struct MaybeBox<T>(Box<T>);

impl<T> View for MaybeBox<T> {
    type V = T;

    /// The value that the cell holds.
    closed spec fn view(&self) -> T {
        *self.0
    }
}

impl<T> MaybeBox<T> {
    /// Moves `t` into a new cell.
    pub fn new(t: T) -> (cell: MaybeBox<T>)
        ensures
            cell@ == t,
    {
        MaybeBox(Box::new(t))
    }

    /// Takes the cell apart and returns the value it held.
    pub fn into_inner(self) -> (t: T)
        ensures
            t == self@,
    {
        self.get_inner()
    }

    /// Takes the cell apart and returns the value in the form that the size
    /// rule assigns to `T`: the bare value where a `T` fits in a word, and
    /// otherwise the heap allocation that held it, handed over as it is.
    ///
    /// For a `T` that does not fit in a word this spares the caller the new
    /// allocation that boxing the result of `into_inner` would cost.
    pub fn unpack(self) -> (u: Unpacked<T>)
        ensures
            u@ == self@,
            u is Inline <==> fits_word::<T>(),
    {
        if fits_word::<T>() {
            Unpacked::Inline(self.get_inner())
        } else {
            Unpacked::Boxed(self.0)
        }
    }

    /// Moves the value out and gives the emptied allocation back.
    fn get_inner(self) -> (t: T)
        ensures
            t == self@,
    {
        *self.0
    }

    /// A cell is nothing beyond the value it holds: two cells with the same
    /// value are the same cell.
    pub proof fn lemma_same_value_same_cell(self, other: MaybeBox<T>)
        requires
            self@ == other@,
        ensures
            self == other,
    {
    }
}

impl<T> core::ops::Deref for MaybeBox<T> {
    type Target = T;

    /// Borrows the value for as long as the cell is borrowed.
    fn deref(&self) -> (t: &T)
        ensures
            *t == self@,
    {
        &*self.0
    }
}

impl<T> core::ops::DerefMut for MaybeBox<T> {
    /// Borrows the value for writing. What the borrower leaves behind the
    /// reference is what the cell holds afterwards.
    fn deref_mut(&mut self) -> (t: &mut T)
        ensures
            *t == old(self)@,
            final(self)@ == *final(t),
    {
        &mut *self.0
    }
}

impl<T> From<T> for MaybeBox<T> {
    /// Moves `t` into a new cell, as [`MaybeBox::new`] does.
    fn from(t: T) -> (cell: MaybeBox<T>)
        ensures
            cell@ == t,
    {
        MaybeBox::new(t)
    }
}

impl<T> FromSpecImpl<T> for MaybeBox<T> {
    open spec fn obeys_from_spec() -> bool {
        true
    }

    /// The cell that holds `t`.
    closed spec fn from_spec(t: T) -> MaybeBox<T> {
        MaybeBox(Box::new(t))
    }
}

} // verus!
