use rollup_core::codec::{
    closest_packable_fee_amount, closest_packable_token_amount, is_fee_amount_packable,
    is_token_amount_packable, pack_fee_amount, pack_token_amount, unpack_fee_amount,
    unpack_token_amount,
};

#[test]
fn packable_token_amount_round_trips() {
    for a in [0u128, 1, 9, 10, 12345, 1_000_000, (1u128 << 35) - 1, 10u128.pow(31)] {
        assert!(is_token_amount_packable(a), "{a} should be packable");
        let packed = pack_token_amount(a);
        assert_eq!(packed.len(), 5);
        assert_eq!(unpack_token_amount(&packed), Some(a));
    }
}

#[test]
fn packable_fee_amount_round_trips() {
    for f in [0u128, 1, 2047, 2040, 2047 * 10u128.pow(31)] {
        assert!(is_fee_amount_packable(f), "{f} should be packable");
        let packed = pack_fee_amount(f);
        assert_eq!(packed.len(), 2);
        assert_eq!(unpack_fee_amount(&packed), Some(f));
    }
}

#[test]
fn non_packable_amounts_are_rejected() {
    // one above the mantissa range forces a lossy exponent
    assert!(!is_token_amount_packable((1u128 << 35) + 1));
    assert!(!is_fee_amount_packable(2048));
    assert!(!is_fee_amount_packable(u128::MAX));
}

#[test]
fn closest_packable_token_amount_picks_largest_below() {
    // (2^35 + 1): truncating a digit yields 34359738360, but the full
    // mantissa at the lower exponent reaches 2^35 - 1, which is closer
    let v = (1u128 << 35) + 1;
    let c = closest_packable_token_amount(v);
    assert_eq!(c, (1u128 << 35) - 1);
    assert!(is_token_amount_packable(c));
}

#[test]
fn closest_packable_fee_amount_picks_largest_below() {
    // 2048: truncating yields 2040, the full mantissa reaches 2047
    assert_eq!(closest_packable_fee_amount(2048), 2047);
    // exact values stay exact
    assert_eq!(closest_packable_fee_amount(2047), 2047);
    assert_eq!(closest_packable_fee_amount(0), 0);
    // beyond the whole range the codec clamps to its maximum
    assert_eq!(closest_packable_fee_amount(u128::MAX), 2047 * 10u128.pow(31));
}

#[test]
fn packed_forms_have_fixed_layout() {
    // zero packs to the all-zero code
    assert_eq!(pack_token_amount(0), vec![0, 0, 0, 0, 0]);
    assert_eq!(pack_fee_amount(0), vec![0, 0]);
    // one packs to exponent zero, mantissa one
    assert_eq!(pack_token_amount(1), vec![0, 0, 0, 0, 1]);
    assert_eq!(pack_fee_amount(1), vec![0, 1]);
    // ten packs exactly with exponent zero (mantissa ten)
    assert_eq!(pack_fee_amount(10), vec![0, 10]);
}

#[test]
fn unpack_rejects_wrong_lengths() {
    assert_eq!(unpack_token_amount(&vec![0, 0, 0, 0]), None);
    assert_eq!(unpack_token_amount(&vec![0, 0, 0, 0, 0, 0]), None);
    assert_eq!(unpack_fee_amount(&vec![0]), None);
    assert_eq!(unpack_fee_amount(&vec![0, 0, 0]), None);
}

#[test]
fn unpack_is_total_over_well_formed_forms() {
    // every two-byte fee form denotes a value unless it overflows 128 bits
    let decoded = unpack_fee_amount(&vec![0x08, 0x01]);
    // exponent 1, mantissa 1: ten
    assert_eq!(decoded, Some(10));
    // the largest fee form: exponent 31, mantissa 2047
    let decoded = unpack_fee_amount(&vec![0xff, 0xff]);
    assert_eq!(decoded, Some(2047 * 10u128.pow(31)));
}

#[test]
fn lossy_packing_truncates_downward() {
    let v = 123_456_789_012u128; // 12 digits, above the 35-bit mantissa
    assert!(!is_token_amount_packable(v));
    let c = closest_packable_token_amount(v);
    assert!(c <= v);
    assert!(is_token_amount_packable(c));
    assert_eq!(unpack_token_amount(&pack_token_amount(v)), Some(c));
}
