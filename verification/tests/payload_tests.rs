//! Tests of the payload itself: construction, the round-trip through the
//! canonical decimal form, the total order, and the error messages.

use u256_extension::uint256::{U256Error, UINT256};

fn check_round_trip(s: &str) {
    let d = UINT256::from_str(s).expect("should be a valid u256");
    assert_eq!(s, d.to_decimal_string());
}

#[test]
fn uint256_display() {
    // these strings will display the same after parsing
    check_round_trip("1230");
    check_round_trip("12300");
    check_round_trip("1234560");
}

#[test]
fn round_trip_idempotence() {
    // a leading zero parses but is not canonical: one display canonicalizes
    let with_zero = UINT256::from_str("0123").expect("should be a valid u256");
    assert_eq!(with_zero.to_decimal_string(), "123");
    // ... and the canonical text constructs the same payload again
    let again = UINT256::from_str("123").expect("should be a valid u256");
    assert!(with_zero.same_value(&again));
    assert_eq!(again.to_decimal_string(), "123");
    // zero is canonical as "0"
    let zero = UINT256::from_str("000").expect("should be a valid u256");
    assert_eq!(zero.to_decimal_string(), "0");
}

#[test]
fn round_trip_multiword_values() {
    // values that need more than one 64-bit word round-trip through text
    check_round_trip("18446744073709551616"); // 2^64
    check_round_trip("340282366920938463463374607431768211456"); // 2^128
    check_round_trip("6277101735386680763835789423207666416102355444464034512896"); // 2^192
}

#[test]
fn rejection_set() {
    // a decimal point, a leading sign, or any non-digit character is a parse failure
    for s in ["12.34", "1.0.", ".1", "1.a", "-.", "", "+1", "-1", " 1", "1 ", "abc"] {
        match UINT256::from_str(s) {
            Err(U256Error::FailedParse(t)) => assert_eq!(t, s),
            other => panic!("Expected FailedParse for {:?}, got {:?}", s, other),
        }
    }
}

#[test]
fn overflow_boundary() {
    // the maximal representable value, 2^256 - 1, constructs successfully
    let max = "115792089237316195423570985008687907853269984665640564039457584007913129639935";
    let v = UINT256::from_str(max).expect("should be a valid u256");
    assert_eq!(v.to_decimal_string(), max);

    // one past the bound is lexically fine but out of range
    let past = "115792089237316195423570985008687907853269984665640564039457584007913129639936";
    assert!(matches!(UINT256::from_str(past), Err(U256Error::Overflow)));

    // all nines of the same length as the bound, and anything longer
    let nines = "9".repeat(78);
    assert!(matches!(UINT256::from_str(&nines), Err(U256Error::Overflow)));
    let longer = "9".repeat(79);
    assert!(matches!(UINT256::from_str(&longer), Err(U256Error::Overflow)));
}

#[test]
fn total_order_concrete() {
    let a = UINT256::from_str("123").expect("should be a valid u256");
    let b = UINT256::from_str("124").expect("should be a valid u256");
    let c = UINT256::from_str("123").expect("should be a valid u256");

    assert!(a.lt(&b));
    assert!(!b.lt(&a));
    assert!(!a.lt(&c));

    assert!(a.le(&b));
    assert!(a.le(&c));
    assert!(!b.le(&a));

    assert!(b.gt(&a));
    assert!(!a.gt(&b));
    assert!(!a.gt(&c));

    assert!(b.ge(&a));
    assert!(a.ge(&c));
    assert!(!a.ge(&b));

    // exactly one of lt, equal, gt holds on each pair
    for (x, y) in [(&a, &b), (&b, &a), (&a, &c)] {
        let lt = x.lt(y);
        let eq = x.same_value(y);
        let gt = x.gt(y);
        assert_eq!([lt, eq, gt].iter().filter(|h| **h).count(), 1);
        // le agrees with lt-or-equal
        assert_eq!(x.le(y), lt || eq);
    }
}

#[test]
fn order_across_word_boundaries() {
    let small = UINT256::from_str("18446744073709551615").expect("should be a valid u256");
    let big = UINT256::from_str("18446744073709551616").expect("should be a valid u256");
    assert!(small.lt(&big));
    assert!(!big.lt(&small));
    assert!(!small.same_value(&big));
}

#[test]
fn error_messages() {
    let parse_err = UINT256::from_str("1.a").expect_err("should fail");
    assert_eq!(
        parse_err.message(),
        "input string is not a well-formed u256 value: 1.a"
    );
    let nines = "9".repeat(79);
    let overflow = UINT256::from_str(&nines).expect_err("should fail");
    assert_eq!(overflow.message(), "overflow when converting to u256");
}
