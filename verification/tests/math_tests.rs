use posix_shm::math::{align, align_to, log2_of_power_of_2, round_to_pow2};

#[test]
fn math_align_returns_input_when_already_aligned() {
    assert_eq!(align(25, 5), 25);
}

#[test]
fn math_align_returns_input_to_next_greater_value() {
    assert_eq!(align(30, 7), 35);
}

#[test]
fn math_log2_of_power_of_2_works() {
    assert_eq!(0, log2_of_power_of_2(0));
    for i in 0..64 {
        assert_eq!(i as u8, log2_of_power_of_2(2u64.pow(i)));
    }
}

#[test]
fn math_round_to_pow2_works() {
    assert_eq!(round_to_pow2(1), 1);
    assert_eq!(round_to_pow2(2), 2);
    assert_eq!(round_to_pow2(3), 4);
    assert_eq!(round_to_pow2(4), 4);
    assert_eq!(round_to_pow2(5), 8);
    assert_eq!(round_to_pow2(6), 8);
    assert_eq!(round_to_pow2(8589934597), 17179869184);
}

#[test]
fn math_align_is_the_least_multiple_not_below_the_value() {
    let mut alignment: usize = 1;
    while alignment <= 4096 {
        for value in 0..10000usize {
            let aligned = align(value, alignment);
            assert!(aligned >= value);
            assert_eq!(aligned % alignment, 0);
            assert!(aligned - value < alignment);
        }
        alignment *= 2;
    }
}

#[test]
fn math_align_of_zero_is_zero() {
    assert_eq!(align(0, 8), 0);
    assert_eq!(align(1, 8), 8);
    assert_eq!(align(usize::MAX, 1), usize::MAX);
}

#[test]
fn math_align_to_uses_the_alignment_of_the_type() {
    assert_eq!(align_to::<u64>(13), 16);
    assert_eq!(align_to::<u8>(13), 13);
    assert_eq!(align_to::<u32>(16), 16);
}

#[test]
fn math_log2_rounds_down_between_powers() {
    assert_eq!(log2_of_power_of_2(1), 0);
    assert_eq!(log2_of_power_of_2(3), 1);
    assert_eq!(log2_of_power_of_2(1000), 9);
    assert_eq!(log2_of_power_of_2(u64::MAX), 63);
}

#[test]
fn math_round_to_pow2_at_the_edges() {
    assert_eq!(round_to_pow2(1 << 63), 1 << 63);
    assert_eq!(round_to_pow2((1 << 62) + 1), 1 << 63);
    assert_eq!(round_to_pow2(1023), 1024);
    assert_eq!(round_to_pow2(1025), 2048);
    for exponent in 0..64 {
        assert_eq!(round_to_pow2(1u64 << exponent), 1u64 << exponent);
    }
}
