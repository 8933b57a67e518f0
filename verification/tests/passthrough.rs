use maybe_box::{MaybeBox, Unpacked};
use std::collections::hash_map::DefaultHasher;
use std::collections::HashSet;
use std::hash::{Hash, Hasher};

fn hash_of<T: Hash>(value: &T) -> u64 {
    let mut hasher = DefaultHasher::new();
    value.hash(&mut hasher);
    hasher.finish()
}

fn is_send<T: Send>() -> bool {
    true
}

fn is_sync<T: Sync>() -> bool {
    true
}

#[test]
fn debug_wraps_the_debug_form_of_the_value() {
    assert_eq!(format!("{:?}", MaybeBox::new(true)), "MaybeBox(true)");
    assert_eq!(format!("{:?}", MaybeBox::new(123u8)), "MaybeBox(123)");
    assert_eq!(format!("{:?}", MaybeBox::new(String::from("hello"))), "MaybeBox(\"hello\")");
    assert_eq!(format!("{:?}", MaybeBox::new((1u64, 2u64))), "MaybeBox((1, 2))");
    assert_eq!(format!("{:?}", MaybeBox::new(())), "MaybeBox(())");
}

#[test]
fn debug_of_unpacked_names_the_case() {
    assert_eq!(format!("{:?}", MaybeBox::new(true).unpack()), "Inline(true)");
    assert_eq!(format!("{:?}", MaybeBox::new(String::from("hello")).unpack()), "Boxed(\"hello\")");
}

#[test]
fn cells_over_equal_values_are_equal() {
    assert!(MaybeBox::new(true) == MaybeBox::new(true));
    assert!(MaybeBox::new(123u8) == MaybeBox::new(123u8));
    assert!(MaybeBox::new(String::from("hello")) == MaybeBox::new(String::from("hello")));
    assert!(MaybeBox::new(u128::MAX) == MaybeBox::new(u128::MAX));
    assert_eq!(MaybeBox::new(()), MaybeBox::new(()));
}

#[test]
fn cells_over_different_values_are_different() {
    assert!(MaybeBox::new(true) != MaybeBox::new(false));
    assert!(MaybeBox::new(123u8) != MaybeBox::new(124u8));
    assert!(MaybeBox::new(String::from("hello")) != MaybeBox::new(String::from("world")));
    assert_ne!(MaybeBox::new(1u128), MaybeBox::new(2u128));
}

#[test]
fn cells_compare_across_types_as_their_values_do() {
    let owned = MaybeBox::new(String::from("hello"));
    let borrowed = MaybeBox::new("hello");
    let other = MaybeBox::new("world");
    assert!(owned == borrowed);
    assert!(!(owned != borrowed));
    assert!(owned != other);
    assert!(!(owned == other));
}

#[test]
fn equality_does_not_depend_on_where_the_value_lives() {
    let a = MaybeBox::new(String::from("hello"));
    let b = MaybeBox::new(String::from("hello"));
    assert_ne!(format!("{:p}", &*a), format!("{:p}", &*b));
    assert_eq!(a, b);
}

#[test]
fn hash_is_the_hash_of_the_value() {
    assert_eq!(hash_of(&MaybeBox::new(123u8)), hash_of(&123u8));
    assert_eq!(hash_of(&MaybeBox::new(123usize)), hash_of(&123usize));
    assert_eq!(hash_of(&MaybeBox::new(String::from("hello"))), hash_of(&String::from("hello")));
    assert_eq!(hash_of(&MaybeBox::new(u128::MAX)), hash_of(&u128::MAX));
    assert_eq!(hash_of(&MaybeBox::new(())), hash_of(&()));
}

#[test]
fn equal_cells_hash_alike() {
    let a = MaybeBox::new(String::from("hello"));
    let b = MaybeBox::new(String::from("hello"));
    assert_eq!(hash_of(&a), hash_of(&b));
    let mut set = HashSet::new();
    assert!(set.insert(a));
    assert!(!set.insert(b));
    assert!(set.insert(MaybeBox::new(String::from("world"))));
    assert_eq!(set.len(), 2);
}

#[test]
fn cell_reads_as_its_value() {
    let small = MaybeBox::new(123u8);
    assert_eq!(*small, 123u8);
    assert_eq!(small.leading_zeros(), 1);
    let text = MaybeBox::new(String::from("hello"));
    assert_eq!(text.len(), 5);
    assert_eq!(&*text, "hello");
    assert!(text.starts_with("he"));
}

#[test]
fn cell_writes_as_its_value() {
    let mut small = MaybeBox::new(1u8);
    *small = 200;
    assert_eq!(*small, 200);
    *small += 5;
    assert_eq!(small.into_inner(), 205);

    let mut text = MaybeBox::new(String::from("hello"));
    text.push_str(", world");
    assert_eq!(&*text, "hello, world");
    *text = String::from("replaced");
    assert_eq!(text.into_inner(), "replaced");

    let mut wide = MaybeBox::new([0u64; 4]);
    wide[2] = 7;
    assert!(matches!(wide.unpack(), Unpacked::Boxed(a) if *a == [0, 0, 7, 0]));
}

#[test]
fn cell_is_as_thread_safe_as_its_value() {
    assert!(is_send::<MaybeBox<u8>>());
    assert!(is_sync::<MaybeBox<u8>>());
    assert!(is_send::<MaybeBox<String>>());
    assert!(is_sync::<MaybeBox<String>>());
    let cell = MaybeBox::new(String::from("moved"));
    let moved = cell;
    assert_eq!(moved.into_inner(), "moved");
}
