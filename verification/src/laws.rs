//! What holds between the operations of a cell.
//!
//! Each law speaks of every outcome that the contracts of the operations
//! allow, so it keeps holding only as long as those contracts say enough.

use crate::container::MaybeBox;
use crate::unpacked::Unpacked;
use crate::word::fits_word;
use vstd::prelude::*;
use vstd::std_specs::cmp::PartialEqSpec;

verus! {

/// Round trip: a value put into a cell and taken out again is the same
/// value, whether or not its type fits in a word.
pub proof fn lemma_round_trip<T>(v: T)
    ensures
        forall|cell: MaybeBox<T>, out: T|
            #![trigger call_ensures(MaybeBox::<T>::new, (v,), cell), call_ensures(MaybeBox::<T>::into_inner, (cell,), out)]
            call_ensures(MaybeBox::<T>::new, (v,), cell) && call_ensures(
                MaybeBox::<T>::into_inner,
                (cell,),
                out,
            ) ==> out == v,
{
}

/// Unpacking a fresh cell gives the value back in the case that the size of
/// its type decides: inline where a `T` fits in a word, boxed where it does
/// not.
pub proof fn lemma_unpack_new<T>(v: T)
    ensures
        forall|cell: MaybeBox<T>, u: Unpacked<T>|
            #![trigger call_ensures(MaybeBox::<T>::new, (v,), cell), call_ensures(MaybeBox::<T>::unpack, (cell,), u)]
            call_ensures(MaybeBox::<T>::new, (v,), cell) && call_ensures(
                MaybeBox::<T>::unpack,
                (cell,),
                u,
            ) ==> u == (if fits_word::<T>() {
                Unpacked::Inline(v)
            } else {
                Unpacked::Boxed(Box::new(v))
            }),
{
}

/// The two ways of taking a cell apart agree on the value: what `unpack`
/// carries is what `into_inner` returns.
pub proof fn lemma_unpack_agrees_with_into_inner<T>(cell: MaybeBox<T>)
    ensures
        forall|u: Unpacked<T>, out: T|
            #![trigger call_ensures(MaybeBox::<T>::unpack, (cell,), u), call_ensures(MaybeBox::<T>::into_inner, (cell,), out)]
            call_ensures(MaybeBox::<T>::unpack, (cell,), u) && call_ensures(
                MaybeBox::<T>::into_inner,
                (cell,),
                out,
            ) ==> u@ == out,
{
}

/// Equality passes through: where `==` on `T` is what `eq_spec` says, two
/// cells compare as the values they hold do, under `==` and under `!=`.
pub proof fn lemma_eq_of_cells_is_eq_of_values<U, T: PartialEq<U>>(a: MaybeBox<T>, b: MaybeBox<U>)
    requires
        T::obeys_eq_spec(),
    ensures
        forall|r: bool| #[trigger]
            call_ensures(MaybeBox::<T>::eq, (&a, &b), r) ==> r == a@.eq_spec(&b@),
        forall|r: bool| #[trigger]
            call_ensures(MaybeBox::<T>::ne, (&a, &b), r) ==> r == !a@.eq_spec(&b@),
{
}

} // verus!
