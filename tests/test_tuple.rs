use std_ext::tuple::{
    TupleConcat, TupleInsert, TupleInsertExact, TupleRemove, TupleRemoveExact, TupleZip,
};

#[test]
fn test_tuple_zip() {
    let x = (1u8, 2usize, false);
    let y = x.zip('a');

    assert_eq!(y, (1, 2, false, 'a'))
}

#[test]
fn test_tuple_insert() {
    let x = (1u8, 2usize, false);
    let y = x.insert::<1>('a');

    assert_eq!(y, (1, 'a', 2, false))
}

#[test]
fn test_tuple_remove() {
    let x = (1u8, 2usize, false);
    let y = x.remove::<2>();
    assert_eq!(y, (1, 2))
}

#[test]
fn test_tuple_concat() {
    let x = (1u8, 2usize, false);
    let y = x.concat((10i32, 'a'));
    assert_eq!(y, (1, 2, false, 10, 'a'));
}

#[test]
fn zip_appends_value() {
    let x = (10u8, 'a');
    assert_eq!(x.zip(-5i32), (10u8, 'a', -5i32));
}

#[test]
fn zip_single_and_five() {
    assert_eq!((7u8,).zip("z"), (7u8, "z"));
    assert_eq!((1u8, 2u16, 3u32, 4u64, 5i8).zip('f'), (1u8, 2u16, 3u32, 4u64, 5i8, 'f'));
}

#[test]
fn insert_in_the_middle() {
    let x = (10u8, 'a');
    assert_eq!(x.insert::<1>(-5i32), (10u8, -5i32, 'a'));
}

#[test]
fn insert_at_every_position_of_a_triple() {
    let x = (1u8, 2u16, 3u32);
    assert_eq!(x.insert::<0>('z'), ('z', 1u8, 2u16, 3u32));
    assert_eq!(x.insert::<1>('z'), (1u8, 'z', 2u16, 3u32));
    assert_eq!(x.insert::<2>('z'), (1u8, 2u16, 'z', 3u32));
    assert_eq!(x.insert::<3>('z'), (1u8, 2u16, 3u32, 'z'));
}

#[test]
fn insert_through_exact_trait() {
    let x = (10u8, 'a');
    let y = <(u8, char) as TupleInsertExact<1, i32>>::insert_exact(x, -5i32);
    assert_eq!(y, (10u8, -5i32, 'a'));
}

#[test]
fn remove_in_the_middle() {
    let x = (10u8, 'a', -5i32);
    assert_eq!(x.remove::<1>(), (10u8, -5i32));
}

#[test]
fn remove_through_exact_trait() {
    let x = (10u8, 'a', -5i32);
    let y = <(u8, char, i32) as TupleRemoveExact<0>>::remove_exact(x);
    assert_eq!(y, ('a', -5i32));
}

#[test]
fn remove_only_element_gives_unit() {
    let x = (42u8,);
    assert_eq!(x.remove::<0>(), ());
}

#[test]
fn remove_undoes_insert() {
    let t = (1u8, 'b', 3i64, "d");
    assert_eq!(t.insert::<0>(9u8).remove::<0>(), t);
    assert_eq!(t.insert::<2>(9u8).remove::<2>(), t);
    assert_eq!(t.insert::<4>(9u8).remove::<4>(), t);
}

#[test]
fn concat_two_pairs() {
    let x = (10u8, 'a');
    let y = (-5i32, "foo");
    assert_eq!(x.concat(y), (10u8, 'a', -5i32, "foo"));
}

#[test]
fn concat_up_to_ten_elements() {
    let x = (1u8, 2u8, 3u8, 4u8, 5u8);
    let y = (6u8, 7u8, 8u8, 9u8, 10u8);
    assert_eq!(x.concat(y), (1u8, 2u8, 3u8, 4u8, 5u8, 6u8, 7u8, 8u8, 9u8, 10u8));
    let z = (0u8,).concat((1u8, 2u8, 3u8, 4u8, 5u8, 6u8, 7u8, 8u8, 9u8));
    assert_eq!(z, (0u8, 1u8, 2u8, 3u8, 4u8, 5u8, 6u8, 7u8, 8u8, 9u8));
}

#[test]
fn ten_element_tuples() {
    let t = (0u8, 1u8, 2u8, 3u8, 4u8, 5u8, 6u8, 7u8, 8u8, 9u8);
    assert_eq!(t.zip('k'), (0u8, 1u8, 2u8, 3u8, 4u8, 5u8, 6u8, 7u8, 8u8, 9u8, 'k'));
    assert_eq!(t.insert::<7>('k'), (0u8, 1u8, 2u8, 3u8, 4u8, 5u8, 6u8, 'k', 7u8, 8u8, 9u8));
    assert_eq!(t.remove::<9>(), (0u8, 1u8, 2u8, 3u8, 4u8, 5u8, 6u8, 7u8, 8u8));
    assert_eq!(t.remove::<0>(), (1u8, 2u8, 3u8, 4u8, 5u8, 6u8, 7u8, 8u8, 9u8));
}

#[test]
fn remove_undoes_insert_on_nine() {
    let t = (0u8, 'b', 2i16, 3u32, "e", 5i64, 6u8, 'h', 8u16);
    assert_eq!(t.insert::<5>(true).remove::<5>(), t);
    assert_eq!(t.insert::<9>(true).remove::<9>(), t);
}

#[test]
fn concat_long_left() {
    let x = (1u8, 2u8, 3u8, 4u8, 5u8, 6u8, 7u8, 8u8, 9u8);
    assert_eq!(x.concat(('j',)), (1u8, 2u8, 3u8, 4u8, 5u8, 6u8, 7u8, 8u8, 9u8, 'j'));
}
