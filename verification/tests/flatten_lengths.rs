use const_size_flatten::array::ArrayIter;
use const_size_flatten::mapped::Mapped;
use const_size_flatten::sequence::{DoubleEndedSequence, Sequence};
use const_size_flatten::IteratorExtension;

/// Flattens `1..=N`, each number mapped to an array of `M` copies of it,
/// pulls until nothing is left, from the back if `BACK` and else from the
/// front, and holds the reported length against the count after each pull.
fn check_flatten<const N: usize, const M: usize, const BACK: bool>() {
    let mut len = N * M;
    let numbers: [u8; N] = core::array::from_fn(|i| i as u8 + 1);
    let mut iter = Mapped::new(ArrayIter::new(numbers), |n: u8| [n; M])
        .const_size_flatten();
    assert_eq!(iter.size_hint(), (len, Some(len)));
    while len != 0 {
        let pulled = if BACK { iter.next_back() } else { iter.next() };
        assert!(pulled.is_some());
        len -= 1;
        assert_eq!(iter.size_hint(), (len, Some(len)));
    }
    assert_eq!(if BACK { iter.next_back() } else { iter.next() }, None);
    assert_eq!(iter.size_hint(), (0, Some(0)));
}

#[test]
fn test_flatten_0_0() {
    check_flatten::<0, 0, false>();
}

#[test]
fn test_flatten_back_0_0() {
    check_flatten::<0, 0, true>();
}

#[test]
fn test_flatten_1_1() {
    check_flatten::<1, 1, false>();
}

#[test]
fn test_flatten_back_1_1() {
    check_flatten::<1, 1, true>();
}

#[test]
fn test_flatten_4_4() {
    check_flatten::<4, 4, false>();
}

#[test]
fn test_flatten_back_4_4() {
    check_flatten::<4, 4, true>();
}

#[test]
fn test_flatten_10_10() {
    check_flatten::<10, 10, false>();
}

#[test]
fn test_flatten_back_10_10() {
    check_flatten::<10, 10, true>();
}

#[test]
fn test_flatten_1_0() {
    check_flatten::<1, 0, false>();
}

#[test]
fn test_flatten_back_1_0() {
    check_flatten::<1, 0, true>();
}

#[test]
fn test_flatten_0_1() {
    check_flatten::<0, 1, false>();
}

#[test]
fn test_flatten_back_0_1() {
    check_flatten::<0, 1, true>();
}

#[test]
fn test_flatten_10_0() {
    check_flatten::<10, 0, false>();
}

#[test]
fn test_flatten_back_10_0() {
    check_flatten::<10, 0, true>();
}

#[test]
fn test_flatten_0_10() {
    check_flatten::<0, 10, false>();
}

#[test]
fn test_flatten_back_0_10() {
    check_flatten::<0, 10, true>();
}

#[test]
fn test_flatten_4_0() {
    check_flatten::<4, 0, false>();
}

#[test]
fn test_flatten_back_4_0() {
    check_flatten::<4, 0, true>();
}

#[test]
fn test_flatten_0_4() {
    check_flatten::<0, 4, false>();
}

#[test]
fn test_flatten_back_0_4() {
    check_flatten::<0, 4, true>();
}

#[test]
fn test_flatten_3_7() {
    check_flatten::<3, 7, false>();
}

#[test]
fn test_flatten_back_3_7() {
    check_flatten::<3, 7, true>();
}

#[test]
fn test_flatten_7_3() {
    check_flatten::<7, 3, false>();
}

#[test]
fn test_flatten_back_7_3() {
    check_flatten::<7, 3, true>();
}

#[test]
fn test_flatten_11_5() {
    check_flatten::<11, 5, false>();
}

#[test]
fn test_flatten_back_11_5() {
    check_flatten::<11, 5, true>();
}

#[test]
fn test_flatten_5_11() {
    check_flatten::<5, 11, false>();
}

#[test]
fn test_flatten_back_5_11() {
    check_flatten::<5, 11, true>();
}

#[test]
fn test_flatten_3_9() {
    check_flatten::<3, 9, false>();
}

#[test]
fn test_flatten_back_3_9() {
    check_flatten::<3, 9, true>();
}

#[test]
fn test_flatten_9_3() {
    check_flatten::<9, 3, false>();
}

#[test]
fn test_flatten_back_9_3() {
    check_flatten::<9, 3, true>();
}
