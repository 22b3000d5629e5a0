use std_ext::option::OptionExt;
use std_ext::result::ResultExt;
use std_ext::unwrap::UnwrapExt;
use std_ext::vec::VecExt;

#[test]
fn option_err_or() {
    assert_eq!(Some("err").err_or(0), Err("err"));
    assert_eq!(None::<&str>.err_or(0), Ok(0));
}

#[test]
fn option_err_or_else() {
    assert_eq!(Some("err").err_or_else(|| 0), Err("err"));
    assert_eq!(None::<&str>.err_or_else(|| 7), Ok(7));
}

#[test]
fn option_err_or_default() {
    assert_eq!(Some("err").err_or_default::<usize>(), Err("err"));
    assert_eq!(None::<&str>.err_or_default::<usize>(), Ok(0));
}

#[test]
fn option_is_none_or() {
    assert!(OptionExt::is_none_or(&None::<usize>, |&i| i == 2));
    assert!(!OptionExt::is_none_or(&Some(5), |&i| i == 2));
    assert!(OptionExt::is_none_or(&Some(2), |&i| i == 2));
}

#[test]
fn option_expect_none() {
    None::<&str>.expect_none("fruits are healthy");
}

#[test]
fn result_swap() {
    let x: Result<&str, usize> = Ok("foo");
    assert_eq!(x.swap(), Err("foo"));
    let y: Result<&str, usize> = Err(3);
    assert_eq!(y.swap(), Ok(3));
}

#[test]
fn unwrap_all_layers() {
    let a: Result<Option<i32>, &str> = Ok(Some(10));
    assert_eq!(a.unwrap_all(), 10);
    let b: Result<Result<i32, &str>, &str> = Ok(Ok(11));
    assert_eq!(b.unwrap_all(), 11);
    let c: Option<Result<i32, &str>> = Some(Ok(12));
    assert_eq!(c.unwrap_all(), 12);
    let d: Option<Option<i32>> = Some(Some(13));
    assert_eq!(d.unwrap_all(), 13);
}

#[test]
fn vec_sorted_variants() {
    let v = vec![3, 1, 2, 1];
    assert_eq!(v.clone().sorted(), vec![1, 1, 2, 3]);
    assert_eq!(v.clone().sorted_unstable(), vec![1, 1, 2, 3]);
    assert_eq!(v.sorted(), vec![1, 1, 2, 3]);
}

#[test]
fn vec_sorted_tuples() {
    let v = vec![(2u8, 'a'), (1u8, 'b'), (2u8, 'c'), (1u8, 'd')];
    assert_eq!(v.sorted(), vec![(1u8, 'b'), (1u8, 'd'), (2u8, 'a'), (2u8, 'c')]);
}

#[test]
fn vec_reversed() {
    assert_eq!(vec![1, 2, 3].reversed(), vec![3, 2, 1]);
    assert_eq!(Vec::<u8>::new().reversed(), Vec::<u8>::new());
}
