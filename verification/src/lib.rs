//! Hold a value of any type in the space of one machine word.
//!
//! A [`MaybeBox<T>`] is as wide as a `usize` whatever `T` is, and owns exactly
//! one `T`. It is meant for places that offer a single word of room, such as
//! a user-data slot, to callers who want to keep values of any size there.
//!
//! Whether a `T` counts as *inline* or as *boxed* is decided by [`fits_word`]
//! from the size of `T` alone: a type no larger than a word is inline, any
//! other is boxed. [`MaybeBox::unpack`] answers in those terms, as an
//! [`Unpacked<T>`].
//!
//! The crate holds no `unsafe` code: the word that a cell consists of is
//! always an owning pointer to its value, also where the value would fit in
//! the word. Only a value without bytes costs no allocation. A value that does
//! not fit in a word is allocated once and handed out by `unpack` in that same
//! allocation.
//!
//! Contracts speak of a cell through its view, `cell@`: the value it holds.

pub mod container;
pub mod eq;
pub mod laws;
pub mod unpacked;
pub mod word;

pub use container::MaybeBox;
pub use unpacked::Unpacked;
pub use word::fits_word;
