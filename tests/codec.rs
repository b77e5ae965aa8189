use hyperfuel_node::codec::{
    digit_string_to_u64, hex_encode, i64_to_u64_bits, u64_to_bigint, u64_to_digit_string,
    as_i64,
};

#[test]
fn digit_string_round_trip_edges() {
    for u in [0u64, 1, 9, 10, 1234, 9999999999, u64::MAX - 1, u64::MAX] {
        let s = u64_to_digit_string(u);
        assert_eq!(s, u.to_string());
        assert_eq!(digit_string_to_u64(&s), u);
    }
}

#[test]
fn lenient_parse_cases() {
    assert_eq!(digit_string_to_u64("42"), 42);
    assert_eq!(digit_string_to_u64("+42"), 42);
    assert_eq!(digit_string_to_u64("007"), 7);
    assert_eq!(digit_string_to_u64("+"), 0);
    assert_eq!(digit_string_to_u64(""), 0);
    assert_eq!(digit_string_to_u64("4 2"), 0);
    assert_eq!(digit_string_to_u64("18446744073709551616"), 0);
    assert_eq!(digit_string_to_u64("99999999999999999999999"), 0);
}

#[test]
fn widening_keeps_bit_pattern() {
    assert_eq!(as_i64(0), 0);
    assert_eq!(as_i64(1000), 1000);
    assert_eq!(as_i64((1 << 63) - 1), i64::MAX);
    assert_eq!(as_i64(1 << 63), i64::MIN);
    assert_eq!(as_i64(u64::MAX), -1);
    assert!(as_i64(u64::MAX - 5) < 0);
    assert_eq!(i64_to_u64_bits(-1), u64::MAX);
    assert_eq!(i64_to_u64_bits(i64::MIN), 1 << 63);
    assert_eq!(i64_to_u64_bits(55), 55);
}

#[test]
fn bigint_is_exact() {
    let b = u64_to_bigint(u64::MAX);
    assert!(!b.sign_bit);
    assert_eq!(b.words, vec![18446744073709551615u64]);
    let z = u64_to_bigint(0);
    assert_eq!(z.words, vec![0]);
}

#[test]
fn hex_is_lowercase_two_digits_per_byte() {
    assert_eq!(hex_encode(&vec![0, 0xab, 0xff, 0x0f]), "00abff0f");
    assert_eq!(hex_encode(&vec![]), "");
}
