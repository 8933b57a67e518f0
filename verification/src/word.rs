//! The size rule.
//!
//! A value is *inline* material when its type is no larger than a machine
//! word, and *boxed* material otherwise. The rule looks at the type and never
//! at the value, so every operation on a cell of one type reaches the same
//! answer, and no tag has to be stored to remember it.

use vstd::layout::{layout_of_primitives, layout_of_unit_tuple, size_of};
use vstd::prelude::*;

verus! {

/// A `T` fits in a word when it takes no more bytes than a `usize`.
pub open spec fn spec_fits_word<T>() -> bool {
    size_of::<T>() <= size_of::<usize>()
}

/// Decides, from the size of `T` alone, whether a `T` fits in a word.
#[verifier::when_used_as_spec(spec_fits_word)]
pub fn fits_word<T>() -> (fits: bool)
    ensures
        fits == spec_fits_word::<T>(),
{
    core::mem::size_of::<T>() <= core::mem::size_of::<usize>()
}

/// A type without bytes fits in a word, however wide the word is.
pub proof fn lemma_zero_sized_fits<T>()
    requires
        size_of::<T>() == 0,
    ensures
        fits_word::<T>(),
{
}

/// Where the primitive types fall, on a machine whose word is four or eight
/// bytes wide: everything up to 32 bits fits, a word fits in itself, 64 bits
/// fit exactly when the word has them, and 128 bits never do.
pub proof fn lemma_which_primitives_fit()
    ensures
        fits_word::<()>(),
        fits_word::<bool>(),
        fits_word::<u8>() && fits_word::<i8>(),
        fits_word::<u16>() && fits_word::<i16>(),
        fits_word::<u32>() && fits_word::<i32>(),
        fits_word::<char>(),
        fits_word::<usize>() && fits_word::<isize>(),
        fits_word::<u64>() <==> usize::BITS == 64,
        fits_word::<i64>() <==> usize::BITS == 64,
        !fits_word::<u128>() && !fits_word::<i128>(),
{
    broadcast use layout_of_primitives, layout_of_unit_tuple;

}

} // verus!
