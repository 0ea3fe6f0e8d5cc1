use const_size_flatten::sequence::{DoubleEndedSequence, Sequence};
use const_size_flatten::IteratorExtension;

/// Flattens three arrays of `N` units, pulls from the back but for every
/// eighth pull, which is from the front, and holds the reported lower bound
/// against the count after each pull.
fn check_mixed<const N: usize>() {
    let mut iter = [[(); N]; 3].const_size_flatten();
    let mut consumed = 0;
    while if consumed % 8 == 7 { iter.next() } else { iter.next_back() }.is_some() {
        consumed += 1;
        assert_eq!(N * 3 - consumed, iter.size_hint().0);
    }
    assert_eq!(consumed, N * 3);
}

#[test]
fn test_0() {
    check_mixed::<0>();
}

#[test]
fn test_1() {
    check_mixed::<1>();
}

#[test]
fn test_2() {
    check_mixed::<2>();
}

#[test]
fn test_3() {
    check_mixed::<3>();
}

#[test]
fn test_4() {
    check_mixed::<4>();
}

#[test]
fn test_5() {
    check_mixed::<5>();
}

#[test]
fn test_6() {
    check_mixed::<6>();
}

#[test]
fn test_7() {
    check_mixed::<7>();
}

#[test]
fn test_8() {
    check_mixed::<8>();
}

#[test]
fn test_9() {
    check_mixed::<9>();
}

#[test]
fn test_10() {
    check_mixed::<10>();
}

#[test]
fn test_12() {
    check_mixed::<12>();
}
