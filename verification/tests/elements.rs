use densemat::helpers::memory::{allocate, copymemory};
use densemat::helpers::text::{render_signed, render_unsigned};
use densemat::helpers::traits::{AsIndex, Numerical};
use densemat::structs::dense::matrix::{mat, Matrix};

#[test]
fn identities_of_integers() {
    assert_eq!(<u8 as Numerical>::zero(), 0);
    assert_eq!(<u8 as Numerical>::ident(), 1);
    assert_eq!(<i64 as Numerical>::zero(), 0);
    assert_eq!(<i64 as Numerical>::ident(), 1);
    assert_eq!(<usize as Numerical>::ident(), 1);
    assert_eq!(<i128 as Numerical>::zero(), 0);
}

#[test]
fn unsigned_arithmetic_wraps() {
    assert_eq!(Numerical::add(250u8, 10u8), 4u8);
    assert_eq!(Numerical::sub(3u8, 5u8), 254u8);
    assert_eq!(Numerical::mul(16u8, 17u8), 16u8);
    assert_eq!(Numerical::add(u16::MAX, 1u16), 0u16);
    assert_eq!(Numerical::add(u32::MAX, 2u32), 1u32);
    assert_eq!(Numerical::mul(u64::MAX, 2u64), u64::MAX - 1);
    assert_eq!(Numerical::sub(0u128, 1u128), u128::MAX);
    assert_eq!(Numerical::add(usize::MAX, 1usize), 0usize);
    assert_eq!(Numerical::sub(0usize, 1usize), usize::MAX);
}

#[test]
fn signed_arithmetic_wraps() {
    assert_eq!(Numerical::add(i16::MAX, 1i16), i16::MIN);
    assert_eq!(Numerical::sub(i32::MIN, 1i32), i32::MAX);
    assert_eq!(Numerical::mul(i64::MAX, 2i64), -2i64);
    assert_eq!(Numerical::mul(i128::MIN, -1i128), i128::MIN);
    assert_eq!(Numerical::add(isize::MAX, 1isize), isize::MIN);
    assert_eq!(Numerical::sub(isize::MIN, 1isize), isize::MAX);
}

#[test]
fn exact_arithmetic_within_range() {
    assert_eq!(Numerical::add(2i32, 3i32), 5);
    assert_eq!(Numerical::sub(2i32, 3i32), -1);
    assert_eq!(Numerical::mul(-4i32, 3i32), -12);
    assert_eq!(Numerical::mul(7u64, 6u64), 42);
}

#[test]
fn integers_render_in_decimal() {
    assert_eq!(Numerical::render(&0u8), "0");
    assert_eq!(Numerical::render(&1205u32), "1205");
    assert_eq!(Numerical::render(&-17i32), "-17");
    assert_eq!(Numerical::render(&u64::MAX), "18446744073709551615");
    assert_eq!(Numerical::render(&i16::MIN), "-32768");
    assert_eq!(Numerical::render(&usize::MAX), usize::MAX.to_string());
    assert_eq!(Numerical::render(&isize::MIN), isize::MIN.to_string());
}

#[test]
fn decimal_text_of_extremes() {
    assert_eq!(render_unsigned(0), "0");
    assert_eq!(render_unsigned(9), "9");
    assert_eq!(render_unsigned(10), "10");
    assert_eq!(render_unsigned(u128::MAX), "340282366920938463463374607431768211455");
    assert_eq!(render_signed(0), "0");
    assert_eq!(render_signed(-1), "-1");
    assert_eq!(render_signed(i128::MAX), "170141183460469231731687303715884105727");
    assert_eq!(render_signed(i128::MIN), "-170141183460469231731687303715884105728");
}

#[test]
fn wrapping_matrix_arithmetic() {
    let a = mat(1, 2, vec![200u8, 100]);
    let b = mat(1, 2, vec![100u8, 100]);
    let c = a + b;
    assert_eq!(c.data.as_ref().unwrap().values().clone(), vec![44u8, 200]);
    let d = mat(1, 2, vec![200u8, 3]).scale(2).shift(250);
    assert_eq!(d.data.as_ref().unwrap().values().clone(), vec![138u8, 0]);
}

#[test]
fn unsigned_matrix_product() {
    let a = mat(2, 2, vec![1u64, 2, 3, 4]);
    let b = mat(2, 1, vec![5u64, 6]);
    let c = a * b;
    assert_eq!(c.data.as_ref().unwrap().values().clone(), vec![17u64, 39]);
    assert_eq!(c.data.as_ref().unwrap().rows(), 2);
    assert_eq!(c.data.as_ref().unwrap().cols(), 1);
}

#[test]
fn selectors_give_their_bounds() {
    assert_eq!((AsIndex::start(&4usize), AsIndex::end(&4usize)), (Some(4), Some(5)));
    assert_eq!((AsIndex::start(&(2..7usize)), AsIndex::end(&(2..7usize))), (Some(2), Some(7)));
    assert_eq!((AsIndex::start(&(..)), AsIndex::end(&(..))), (None, None));
    assert_eq!(
        (AsIndex::start(&(2..=7usize)), AsIndex::end(&(2..=7usize))),
        (Some(2), Some(8))
    );
    assert_eq!((AsIndex::start(&(3usize..)), AsIndex::end(&(3usize..))), (Some(3), None));
    assert_eq!((AsIndex::start(&(..3usize)), AsIndex::end(&(..3usize))), (None, Some(3)));
    assert_eq!((AsIndex::start(&(..=3usize)), AsIndex::end(&(..=3usize))), (None, Some(4)));
}

#[test]
fn allocated_block_is_zeroed() {
    let block: Vec<i32> = allocate(2, 3);
    assert_eq!(block, vec![0; 6]);
    let one: Vec<u8> = allocate(1, 1);
    assert_eq!(one, vec![0]);
}

#[test]
fn copy_replaces_only_the_target_slots() {
    let src = vec![1, 2, 3, 4, 5];
    let mut dst = vec![0; 6];
    copymemory(&src, &mut dst, 1..4, 2);
    assert_eq!(dst, vec![0, 0, 2, 3, 4, 0]);
}

#[test]
fn copy_of_empty_range_changes_nothing() {
    let src = vec![1, 2, 3];
    let mut dst = vec![7, 8];
    copymemory(&src, &mut dst, 3..3, 2);
    assert_eq!(dst, vec![7, 8]);
}
