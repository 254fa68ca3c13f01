use simd_reduce::AsSimdSlice;

#[test]
fn it_works() {
    let a = &[10, 20, 3, 4, 5, 6, 7_i32];
    assert_eq!(a[1..5].iter().sum::<i32>(), a[1..5].as_simd_slice().sum());
    assert_eq!(a[1..5].iter().max().cloned(), a[1..5].as_simd_slice().max());
    assert_eq!(a[1..5].iter().min().cloned(), a[1..5].as_simd_slice().min());
}

#[test]
fn seven_elements() {
    let a = &[10, 20, 3, 4, 5, 6, 7_i32];
    assert_eq!(a.as_simd_slice().sum(), 55);
    let sub = &a[1..5];
    assert_eq!(sub.as_simd_slice().sum(), 32);
    assert_eq!(sub.as_simd_slice().max(), Some(20));
    assert_eq!(sub.as_simd_slice().min(), Some(3));
}

#[test]
fn empty_slice() {
    let a: &[i32] = &[];
    assert_eq!(a.as_simd_slice().sum(), 0);
    assert_eq!(a.as_simd_slice().min(), None);
    assert_eq!(a.as_simd_slice().max(), None);
}

#[test]
fn single_element() {
    let a = &[42_i64];
    assert_eq!(a.as_simd_slice().sum(), 42);
    assert_eq!(a.as_simd_slice().min(), Some(42));
    assert_eq!(a.as_simd_slice().max(), Some(42));
}

// One element short of a vector: min/max take the scalar fallback path only.
#[test]
fn length_three_scalar_fallback() {
    let a = &[9, 2, 5_u32];
    assert_eq!(a.as_simd_slice().sum(), 16);
    assert_eq!(a.as_simd_slice().min(), Some(2));
    assert_eq!(a.as_simd_slice().max(), Some(9));
}

#[test]
fn length_exactly_one_vector() {
    let a = &[4, 1, 8, 2_i16];
    assert_eq!(a.as_simd_slice().sum(), 15);
    assert_eq!(a.as_simd_slice().min(), Some(1));
    assert_eq!(a.as_simd_slice().max(), Some(8));
}

#[test]
fn length_one_vector_plus_one() {
    let a = &[4, 1, 8, 2, 9_i16];
    assert_eq!(a.as_simd_slice().sum(), 24);
    assert_eq!(a.as_simd_slice().min(), Some(1));
    assert_eq!(a.as_simd_slice().max(), Some(9));
}

#[test]
fn length_boundaries_match_scalar_reference() {
    for len in [0usize, 1, 2, 3, 4, 5, 7, 8, 100, 103] {
        let v: Vec<i64> = (0..len as i64).map(|k| (k * 37 - 50) % 101).collect();
        let s = v.as_slice();
        assert_eq!(s.as_simd_slice().sum(), s.iter().sum::<i64>(), "len {len}");
        assert_eq!(s.as_simd_slice().min(), s.iter().min().cloned(), "len {len}");
        assert_eq!(s.as_simd_slice().max(), s.iter().max().cloned(), "len {len}");
    }
}

// The vector loop must combine min/max lane-wise, and the remainder fold
// must use the right comparison direction for each operation.
#[test]
fn extremum_in_every_position() {
    for pos in 0..11 {
        let mut v = vec![50_i32; 11];
        v[pos] = -7;
        assert_eq!(v.as_slice().as_simd_slice().min(), Some(-7), "pos {pos}");
        let mut w = vec![50_i32; 11];
        w[pos] = 99;
        assert_eq!(w.as_slice().as_simd_slice().max(), Some(99), "pos {pos}");
    }
}

#[test]
fn ties_are_kept() {
    let a = &[3, 3, 3, 3, 3_u8];
    assert_eq!(a.as_simd_slice().min(), Some(3));
    assert_eq!(a.as_simd_slice().max(), Some(3));
}

#[test]
fn sum_wraps_unsigned() {
    let a = &[200, 100_u8];
    assert_eq!(a.as_simd_slice().sum(), 44);
    let b = &[u64::MAX, 1];
    assert_eq!(b.as_simd_slice().sum(), 0);
    let c = &[u16::MAX, 2, u16::MAX, 2, u16::MAX, 2];
    let reference = c.iter().fold(0_u16, |acc, &x| acc.wrapping_add(x));
    assert_eq!(c.as_simd_slice().sum(), reference);
}

#[test]
fn sum_wraps_signed() {
    let a = &[100, 100_i8];
    assert_eq!(a.as_simd_slice().sum(), -56);
    let b = &[i32::MIN, -1];
    assert_eq!(b.as_simd_slice().sum(), i32::MAX);
    let c = &[i64::MAX, i64::MAX, 3];
    let reference = c.iter().fold(0_i64, |acc, &x| acc.wrapping_add(x));
    assert_eq!(c.as_simd_slice().sum(), reference);
}

#[test]
fn repeated_calls_agree() {
    let v: Vec<u32> = (0..23).map(|k| (k * 7919) % 1000).collect();
    let s = v.as_slice();
    let first = (s.as_simd_slice().sum(), s.as_simd_slice().min(), s.as_simd_slice().max());
    let second = (s.as_simd_slice().sum(), s.as_simd_slice().min(), s.as_simd_slice().max());
    assert_eq!(first, second);
}

#[test]
fn every_unsigned_type() {
    assert_eq!([1, 2, 3, 4, 5_u8].as_simd_slice().sum(), 15);
    assert_eq!([1, 2, 3, 4, 5_u16].as_simd_slice().min(), Some(1));
    assert_eq!([1, 2, 3, 4, 5_u32].as_simd_slice().max(), Some(5));
    assert_eq!([1, 2, 3, 4, 5_u64].as_simd_slice().sum(), 15);
    assert_eq!([1, 2, 3, 4, 5_usize].as_simd_slice().max(), Some(5));
}

#[test]
fn every_signed_type() {
    assert_eq!([-1, 2, -3, 4, -5_i8].as_simd_slice().sum(), -3);
    assert_eq!([-1, 2, -3, 4, -5_i16].as_simd_slice().min(), Some(-5));
    assert_eq!([-1, 2, -3, 4, -5_i32].as_simd_slice().max(), Some(4));
    assert_eq!([-1, 2, -3, 4, -5_i64].as_simd_slice().sum(), -3);
    assert_eq!([-1, 2, -3, 4, -5_isize].as_simd_slice().min(), Some(-5));
}

#[test]
fn large_multiple_of_width_plus_remainder() {
    let v: Vec<u64> = (0..4 * 250 + 3).collect();
    let s = v.as_slice();
    assert_eq!(s.as_simd_slice().sum(), s.iter().sum::<u64>());
    assert_eq!(s.as_simd_slice().min(), Some(0));
    assert_eq!(s.as_simd_slice().max(), Some(1002));
}
