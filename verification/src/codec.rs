//! Amount codec: fixed-point packing of token amounts and fees into compact
//! mantissa/exponent binary forms used by the canonical transaction
//! encodings.
//!
//! A value is stored as `mantissa * 10^exponent` with fixed bit widths for
//! the two parts; transferable amounts carry a 35-bit mantissa and fees an
//! 11-bit mantissa, both with a 5-bit decimal exponent.  Packing is lossy by
//! design: it yields the largest exactly-representable value not above the
//! input.  Unpacking is total over well-formed bit strings.

use vstd::arithmetic::div_mod::{
    lemma_div_denominator, lemma_div_is_ordered, lemma_div_multiples_vanish,
    lemma_fundamental_div_mod, lemma_fundamental_div_mod_converse,
};
use vstd::arithmetic::mul::{
    lemma_mul_inequality, lemma_mul_is_associative, lemma_mul_is_commutative,
    lemma_mul_left_inequality,
};
use vstd::prelude::*;

use crate::primitives::{push_u16_be, push_u40_be, spec_u16_be, spec_u40_be};

verus! {

/// Largest value of the 5-bit decimal exponent.
pub const MAX_EXPONENT: u8 = 31;

/// Largest 35-bit mantissa, used for transferable amounts.
pub const AMOUNT_MAX_MANTISSA: u128 = 0x7_FFFF_FFFF;

/// Largest 11-bit mantissa, used for fees.
pub const FEE_MAX_MANTISSA: u128 = 0x7FF;

/// `2^35`, the weight of the exponent in a packed amount code.
pub const AMOUNT_MANTISSA_WEIGHT: u64 = 0x8_0000_0000;

/// `2^11`, the weight of the exponent in a packed fee code.
pub const FEE_MANTISSA_WEIGHT: u16 = 0x800;

pub open spec fn pow10(e: nat) -> nat
    decreases e,
{
    if e == 0 {
        1
    } else {
        10 * pow10((e - 1) as nat)
    }
}

/// `m * 10^e`; a named form so quantified packability statements have a
/// stable trigger.
pub open spec fn times_pow10(m: nat, e: nat) -> nat {
    m * pow10(e)
}

/// A value is packable when some in-range mantissa and exponent denote it
/// exactly.
pub open spec fn spec_packable(v: nat, max_mantissa: nat) -> bool {
    exists|e: nat, m: nat|
        e <= MAX_EXPONENT && m <= max_mantissa && v == #[trigger] times_pow10(m, e)
}

/// The largest value the codec can denote for a given mantissa bound.
pub open spec fn spec_max_encodable(max_mantissa: nat) -> nat {
    times_pow10(max_mantissa, MAX_EXPONENT as nat)
}

/// The smallest exponent at or above `e0` whose quotient fits the mantissa
/// bound, stopping at the 5-bit ceiling.
pub open spec fn spec_min_exp_from(v: nat, max_mantissa: nat, e0: nat) -> nat
    decreases 31 - e0,
{
    if e0 >= 31 || v / pow10(e0) <= max_mantissa {
        e0
    } else {
        spec_min_exp_from(v, max_mantissa, e0 + 1)
    }
}

pub open spec fn spec_min_exp(v: nat, max_mantissa: nat) -> nat {
    spec_min_exp_from(v, max_mantissa, 0)
}

/// The canonical packed form of `v`: the exponent/mantissa pair the codec
/// emits, or `None` when `v` exceeds the largest encodable value.
pub open spec fn spec_pack_parts(v: nat, max_mantissa: nat) -> Option<(nat, nat)> {
    let e = spec_min_exp(v, max_mantissa);
    if v / pow10(e) > max_mantissa {
        None
    } else if e == 0 {
        Some((0nat, v))
    } else {
        let m1 = v / pow10(e);
        if times_pow10(m1, e) >= times_pow10(max_mantissa, (e - 1) as nat) {
            Some((e, m1))
        } else {
            Some((((e - 1) as nat), max_mantissa))
        }
    }
}

/// The value a packed form denotes.
pub open spec fn spec_packed_value(v: nat, max_mantissa: nat) -> nat
    recommends
        spec_pack_parts(v, max_mantissa) is Some,
{
    let p = spec_pack_parts(v, max_mantissa)->Some_0;
    times_pow10(p.1, p.0)
}

// ------------------------------------------------------------------
// Facts about powers of ten.
// ------------------------------------------------------------------

pub proof fn lemma_pow10_pos(e: nat)
    ensures
        pow10(e) >= 1,
    decreases e,
{
    if e > 0 {
        lemma_pow10_pos((e - 1) as nat);
    }
}

pub proof fn lemma_pow10_increases(a: nat, b: nat)
    requires
        a <= b,
    ensures
        pow10(a) <= pow10(b),
    decreases b,
{
    if a < b {
        lemma_pow10_increases(a, (b - 1) as nat);
        lemma_pow10_pos((b - 1) as nat);
    }
}

pub proof fn lemma_pow10_adds(a: nat, b: nat)
    ensures
        pow10(a + b) == pow10(a) * pow10(b),
    decreases a,
{
    if a == 0 {
        assert(pow10(b) == 1 * pow10(b));
    } else {
        lemma_pow10_adds((a - 1) as nat, b);
        assert(pow10(a + b) == 10 * pow10((a - 1) as nat + b));
        lemma_mul_is_associative(10, pow10((a - 1) as nat) as int, pow10(b) as int);
    }
}

pub proof fn lemma_pow10_31_value()
    ensures
        pow10(31) == 10_000_000_000_000_000_000_000_000_000_000,
{
    reveal_with_fuel(pow10, 33);
}

// ------------------------------------------------------------------
// Facts about the canonical packed form.
// ------------------------------------------------------------------

proof fn lemma_min_exp_from_ge(v: nat, max_mantissa: nat, e0: nat)
    requires
        e0 <= 31,
    ensures
        e0 <= spec_min_exp_from(v, max_mantissa, e0) <= 31,
    decreases 31 - e0,
{
    if !(e0 >= 31 || v / pow10(e0) <= max_mantissa) {
        lemma_min_exp_from_ge(v, max_mantissa, e0 + 1);
    }
}

/// Every exponent below the minimal one overflows the mantissa bound.
proof fn lemma_min_exp_from_minimal(v: nat, max_mantissa: nat, e0: nat, e: nat)
    requires
        e0 <= e < spec_min_exp_from(v, max_mantissa, e0),
    ensures
        v / pow10(e) > max_mantissa,
    decreases 31 - e0,
{
    if e0 >= 31 || v / pow10(e0) <= max_mantissa {
        // the search stops here, contradicting the bound on e
        assert(false);
    } else {
        if e > e0 {
            lemma_min_exp_from_minimal(v, max_mantissa, e0 + 1, e);
        }
    }
}

/// When `v` is at most the largest encodable value, the packed form exists.
proof fn lemma_pack_exists(v: nat, max_mantissa: nat)
    requires
        v <= spec_max_encodable(max_mantissa),
    ensures
        spec_pack_parts(v, max_mantissa) is Some,
{
    let e = spec_min_exp(v, max_mantissa);
    lemma_min_exp_from_ge(v, max_mantissa, 0);
    if v / pow10(e) > max_mantissa {
        // then e == 31 and v / 10^31 > max_mantissa, contradicting the bound
        if e < 31 {
            // the search only stops below 31 when the quotient fits
            assert(v / pow10(e) <= max_mantissa || e
                < spec_min_exp_from(v, max_mantissa, 0)) by {
                lemma_min_exp_stops(v, max_mantissa, 0);
            }
        }
        assert(e == 31);
        lemma_pow10_pos(31);
        assert(v / pow10(31) > max_mantissa);
        assert(v >= times_pow10((max_mantissa + 1) as nat, 31)) by {
            lemma_fundamental_div_mod(v as int, pow10(31) as int);
            lemma_mul_inequality((max_mantissa + 1) as int, (v / pow10(31)) as int, pow10(
                31,
            ) as int);
            lemma_mul_is_commutative((v / pow10(31)) as int, pow10(31) as int);
        }
        assert(times_pow10((max_mantissa + 1) as nat, 31) > times_pow10(max_mantissa, 31)) by {
            lemma_pow10_pos(31);
            vstd::arithmetic::mul::lemma_mul_strict_inequality(
                max_mantissa as int,
                (max_mantissa + 1) as int,
                pow10(31) as int,
            );
        }
        assert(false);
    }
}

/// The minimal-exponent search stops exactly when the quotient fits or the
/// ceiling is reached.
proof fn lemma_min_exp_stops(v: nat, max_mantissa: nat, e0: nat)
    requires
        e0 <= 31,
    ensures
        ({
            let e = spec_min_exp_from(v, max_mantissa, e0);
            e == 31 || v / pow10(e) <= max_mantissa
        }),
    decreases 31 - e0,
{
    if !(e0 >= 31 || v / pow10(e0) <= max_mantissa) {
        lemma_min_exp_stops(v, max_mantissa, e0 + 1);
    }
}

/// When the packed form is absent, the value exceeds the largest encodable
/// one.
pub proof fn lemma_pack_none(v: nat, max_mantissa: nat)
    requires
        spec_pack_parts(v, max_mantissa) is None,
    ensures
        v > spec_max_encodable(max_mantissa),
{
    if v <= spec_max_encodable(max_mantissa) {
        lemma_pack_exists(v, max_mantissa);
    }
}

/// Every packable value is at most the largest encodable one.
pub proof fn lemma_packable_le_max(v: nat, max_mantissa: nat)
    requires
        spec_packable(v, max_mantissa),
    ensures
        v <= spec_max_encodable(max_mantissa),
{
    let (e, m) = choose|e: nat, m: nat|
        e <= MAX_EXPONENT && m <= max_mantissa && v == #[trigger] times_pow10(m, e);
    lemma_pow10_pos(e);
    lemma_pow10_increases(e, 31);
    vstd::arithmetic::mul::lemma_mul_upper_bound(
        m as int,
        max_mantissa as int,
        pow10(e) as int,
        pow10(31) as int,
    );
}

/// The packed form denotes the largest packable value not above the input.
pub proof fn lemma_packed_value_is_closest(v: nat, max_mantissa: nat)
    requires
        10 <= max_mantissa,
        spec_pack_parts(v, max_mantissa) is Some,
    ensures
        spec_pack_parts(v, max_mantissa)->Some_0.0 <= MAX_EXPONENT,
        spec_pack_parts(v, max_mantissa)->Some_0.1 <= max_mantissa,
        spec_packed_value(v, max_mantissa) <= v,
        spec_packable(spec_packed_value(v, max_mantissa), max_mantissa),
        forall|e: nat, m: nat|
            e <= MAX_EXPONENT && m <= max_mantissa && #[trigger] times_pow10(m, e) <= v
                ==> times_pow10(m, e) <= spec_packed_value(v, max_mantissa),
{
    let e = spec_min_exp(v, max_mantissa);
    lemma_min_exp_from_ge(v, max_mantissa, 0);
    let p = spec_pack_parts(v, max_mantissa)->Some_0;
    if e == 0 {
        lemma_div_by_one(v);
        assert(p == (0nat, v));
        assert(pow10(0) == 1);
        assert(times_pow10(v, 0nat) == v * 1);
        assert(v * 1 == v) by {
            vstd::arithmetic::mul::lemma_mul_basics(v as int);
        }
        assert(spec_packed_value(v, max_mantissa) == times_pow10(p.1, p.0));
        assert(spec_packed_value(v, max_mantissa) == v);
    } else {
        let m1 = v / pow10(e);
        let c1 = times_pow10(m1, e);
        let c2 = times_pow10(max_mantissa, (e - 1) as nat);
        lemma_pow10_pos(e);
        lemma_pow10_pos((e - 1) as nat);
        // c1 is the largest multiple of 10^e not above v
        assert(c1 <= v) by {
            lemma_fundamental_div_mod(v as int, pow10(e) as int);
            lemma_mul_is_commutative(m1 as int, pow10(e) as int);
        }
        // exponents below e overflow the mantissa, so v strictly exceeds c2
        lemma_min_exp_from_minimal(v, max_mantissa, 0, (e - 1) as nat);
        assert(c2 < v) by {
            lemma_fundamental_div_mod(v as int, pow10((e - 1) as nat) as int);
            lemma_mul_inequality(
                (max_mantissa + 1) as int,
                (v / pow10((e - 1) as nat)) as int,
                pow10((e - 1) as nat) as int,
            );
            lemma_mul_is_commutative((v / pow10((e - 1) as nat)) as int, pow10((e - 1) as nat) as int);
            vstd::arithmetic::mul::lemma_mul_strict_inequality(
                max_mantissa as int,
                (max_mantissa + 1) as int,
                pow10((e - 1) as nat) as int,
            );
        }
        assert(spec_packed_value(v, max_mantissa) == if c1 >= c2 { c1 } else { c2 });
        // any packable value not above v is bounded by c1 or by c2
        assert forall|ew: nat, mw: nat|
            ew <= MAX_EXPONENT && mw <= max_mantissa && #[trigger] times_pow10(mw, ew) <= v
            implies times_pow10(mw, ew) <= spec_packed_value(v, max_mantissa) by {
            let w = times_pow10(mw, ew);
            if ew >= e {
                // w is a multiple of 10^e not above v, hence at most c1
                let k = mw * pow10((ew - e) as nat);
                assert(w == k * pow10(e)) by {
                    lemma_pow10_adds((ew - e) as nat, e);
                    lemma_mul_is_associative(mw as int, pow10((ew - e) as nat) as int, pow10(e) as int);
                }
                assert(k <= v / pow10(e)) by {
                    lemma_mul_is_commutative(k as int, pow10(e) as int);
                    lemma_div_multiples_vanish(k as int, pow10(e) as int);
                    lemma_div_is_ordered((k * pow10(e)) as int, v as int, pow10(e) as int);
                }
                lemma_mul_inequality(k as int, m1 as int, pow10(e) as int);
                assert(w <= c1);
            } else {
                // w uses a smaller exponent, hence is at most c2
                lemma_mul_inequality(mw as int, max_mantissa as int, pow10(ew) as int);
                lemma_pow10_increases(ew, (e - 1) as nat);
                lemma_mul_left_inequality(
                    max_mantissa as int,
                    pow10(ew) as int,
                    pow10((e - 1) as nat) as int,
                );
                assert(w <= c2);
            }
        }
    }
    assert(spec_packable(spec_packed_value(v, max_mantissa), max_mantissa)) by {
        assert(p.0 <= MAX_EXPONENT && p.1 <= max_mantissa);
        assert(times_pow10(p.1, p.0) == spec_packed_value(v, max_mantissa));
    }
}

proof fn lemma_div_by_one(v: nat)
    ensures
        v / pow10(0) == v,
{
    assert(v / 1 == v);
}

/// A value is packable exactly when packing reproduces it.
pub proof fn lemma_packable_iff_exact(v: nat, max_mantissa: nat)
    requires
        10 <= max_mantissa,
    ensures
        spec_packable(v, max_mantissa) <==> (spec_pack_parts(v, max_mantissa) is Some
            && spec_packed_value(v, max_mantissa) == v),
{
    if spec_packable(v, max_mantissa) {
        lemma_packable_le_max(v, max_mantissa);
        lemma_pack_exists(v, max_mantissa);
        lemma_packed_value_is_closest(v, max_mantissa);
        let (e, m) = choose|e: nat, m: nat|
            e <= MAX_EXPONENT && m <= max_mantissa && v == #[trigger] times_pow10(m, e);
        assert(times_pow10(m, e) <= v);
    }
    if spec_pack_parts(v, max_mantissa) is Some && spec_packed_value(v, max_mantissa) == v {
        lemma_packed_value_is_closest(v, max_mantissa);
    }
}

// ------------------------------------------------------------------
// Executable codec.
// ------------------------------------------------------------------

/// `10^e` as a machine word.
pub fn pow10_u128(e: u8) -> (r: u128)
    requires
        e <= 31,
    ensures
        r as nat == pow10(e as nat),
{
    let mut r: u128 = 1;
    let mut i: u8 = 0;
    while i < e
        invariant
            i <= e <= 31,
            r as nat == pow10(i as nat),
        decreases e - i,
    {
        proof {
            lemma_pow10_increases((i + 1) as nat, 31);
            lemma_pow10_31_value();
            assert(pow10((i + 1) as nat) == 10 * pow10(i as nat));
        }
        r = r * 10;
        i = i + 1;
    }
    r
}

/// Computes the canonical exponent/mantissa pair of `value`, or `None` when
/// `value` exceeds the largest encodable value.
pub fn pack_parts(value: u128, max_mantissa: u128) -> (r: Option<(u8, u128)>)
    requires
        10 <= max_mantissa,
    ensures
        match r {
            Some(p) => spec_pack_parts(value as nat, max_mantissa as nat) == Some(
                (p.0 as nat, p.1 as nat),
            ),
            None => spec_pack_parts(value as nat, max_mantissa as nat) is None,
        },
{
    let ghost v = value as nat;
    let ghost maxm = max_mantissa as nat;
    let mut m: u128 = value;
    let mut e: u8 = 0;
    proof {
        lemma_div_by_one(v);
    }
    while m > max_mantissa && e < 31
        invariant
            10 <= max_mantissa,
            v == value as nat,
            maxm == max_mantissa as nat,
            e <= 31,
            m as nat == v / pow10(e as nat),
            spec_min_exp(v, maxm) == spec_min_exp_from(v, maxm, e as nat),
        decreases 31 - e,
    {
        proof {
            lemma_pow10_pos(e as nat);
            lemma_div_denominator(v as int, pow10(e as nat) as int, 10);
            assert(pow10((e + 1) as nat) == 10 * pow10(e as nat));
            lemma_mul_is_commutative(10, pow10(e as nat) as int);
        }
        m = m / 10;
        e = e + 1;
    }
    proof {
        lemma_min_exp_from_ge(v, maxm, e as nat);
    }
    if m > max_mantissa {
        // even the largest exponent cannot bring the mantissa into range
        return None;
    }
    proof {
        assert(spec_min_exp(v, maxm) == e as nat);
    }
    if e == 0 {
        return Some((0, value));
    }
    let p_e = pow10_u128(e);
    let p_e1 = pow10_u128(e - 1);
    proof {
        lemma_pow10_pos(e as nat);
        lemma_pow10_pos((e - 1) as nat);
        assert((m as nat) * pow10(e as nat) <= v) by {
            lemma_fundamental_div_mod(v as int, pow10(e as nat) as int);
            lemma_mul_is_commutative(m as int, pow10(e as nat) as int);
        }
        lemma_min_exp_from_minimal(v, maxm, 0, (e - 1) as nat);
        assert(maxm * pow10((e - 1) as nat) < v) by {
            lemma_fundamental_div_mod(v as int, pow10((e - 1) as nat) as int);
            lemma_mul_inequality(
                (maxm + 1) as int,
                (v / pow10((e - 1) as nat)) as int,
                pow10((e - 1) as nat) as int,
            );
            lemma_mul_is_commutative((v / pow10((e - 1) as nat)) as int, pow10((e - 1) as nat) as int);
            vstd::arithmetic::mul::lemma_mul_strict_inequality(
                maxm as int,
                (maxm + 1) as int,
                pow10((e - 1) as nat) as int,
            );
        }
    }
    let c1 = m * p_e;
    let c2 = max_mantissa * p_e1;
    if c1 >= c2 {
        Some((e, m))
    } else {
        Some((e - 1, max_mantissa))
    }
}

/// `mantissa * 10^exponent`, or `None` on 128-bit overflow.
pub fn unpack_parts(e: u8, m: u128) -> (r: Option<u128>)
    requires
        e <= 31,
    ensures
        match r {
            Some(v) => v as nat == times_pow10(m as nat, e as nat),
            None => times_pow10(m as nat, e as nat) > u128::MAX,
        },
{
    let p = pow10_u128(e);
    m.checked_mul(p)
}

// ------------------------------------------------------------------
// Byte-level forms: exponent bits first, then mantissa bits, big-endian.
// ------------------------------------------------------------------

/// The forty-bit amount code read back out of five bytes.
pub open spec fn spec_code5(s: Seq<u8>) -> u64 {
    ((s[0] as u64) << 32) | ((s[1] as u64) << 24) | ((s[2] as u64) << 16) | ((s[3] as u64) << 8)
        | (s[4] as u64)
}

/// The sixteen-bit fee code read back out of two bytes.
pub open spec fn spec_code2(s: Seq<u8>) -> u16 {
    ((s[0] as u16) << 8) | (s[1] as u16)
}

/// The five packed-amount bytes of a value within the codec's range.
pub open spec fn spec_packed_token_bytes(v: u128) -> Seq<u8> {
    let p = spec_pack_parts(v as nat, AMOUNT_MAX_MANTISSA as nat)->Some_0;
    spec_u40_be((p.0 * AMOUNT_MANTISSA_WEIGHT + p.1) as u64)
}

/// The two packed-fee bytes of a value within the codec's range.
pub open spec fn spec_packed_fee_bytes(v: u128) -> Seq<u8> {
    let p = spec_pack_parts(v as nat, FEE_MAX_MANTISSA as nat)->Some_0;
    spec_u16_be((p.0 * FEE_MANTISSA_WEIGHT + p.1) as u16)
}

/// The amount a five-byte packed form denotes; `None` when the denoted
/// value overflows 128 bits or the length is wrong.
pub open spec fn spec_unpack_token_bytes(s: Seq<u8>) -> Option<u128> {
    if s.len() != 5 {
        None
    } else {
        let code = spec_code5(s) as nat;
        let e = code / (AMOUNT_MANTISSA_WEIGHT as nat);
        let m = code % (AMOUNT_MANTISSA_WEIGHT as nat);
        if times_pow10(m, e) <= u128::MAX {
            Some(times_pow10(m, e) as u128)
        } else {
            None
        }
    }
}

/// The fee a two-byte packed form denotes.
pub open spec fn spec_unpack_fee_bytes(s: Seq<u8>) -> Option<u128> {
    if s.len() != 2 {
        None
    } else {
        let code = spec_code2(s) as nat;
        let e = code / (FEE_MANTISSA_WEIGHT as nat);
        let m = code % (FEE_MANTISSA_WEIGHT as nat);
        if times_pow10(m, e) <= u128::MAX {
            Some(times_pow10(m, e) as u128)
        } else {
            None
        }
    }
}

/// Every 128-bit value lies within the amount codec's range.
pub proof fn lemma_amount_always_encodable(v: u128)
    ensures
        v as nat <= spec_max_encodable(AMOUNT_MAX_MANTISSA as nat),
        spec_pack_parts(v as nat, AMOUNT_MAX_MANTISSA as nat) is Some,
{
    lemma_pow10_31_value();
    assert(times_pow10(AMOUNT_MAX_MANTISSA as nat, 31) == (AMOUNT_MAX_MANTISSA as nat) * pow10(
        31,
    ));
    lemma_pack_exists(v as nat, AMOUNT_MAX_MANTISSA as nat);
}

proof fn lemma_u40_code_round_trip(x: u64)
    requires
        x < 0x100_0000_0000,
    ensures
        spec_code5(spec_u40_be(x)) == x,
{
    let s = spec_u40_be(x);
    assert(s[0] == (x >> 32) as u8 && s[1] == (x >> 24) as u8 && s[2] == (x >> 16) as u8 && s[3]
        == (x >> 8) as u8 && s[4] == x as u8);
    assert(((((x >> 32) as u8) as u64) << 32) | ((((x >> 24) as u8) as u64) << 24) | ((((x
        >> 16) as u8) as u64) << 16) | ((((x >> 8) as u8) as u64) << 8) | ((x as u8) as u64)
        == x) by (bit_vector)
        requires
            x < 0x100_0000_0000,
    ;
}

proof fn lemma_u16_code_round_trip(x: u16)
    ensures
        spec_code2(spec_u16_be(x)) == x,
{
    let s = spec_u16_be(x);
    assert(s[0] == (x >> 8) as u8 && s[1] == x as u8);
    assert(((((x >> 8) as u8) as u16) << 8) | ((x as u8) as u16) == x) by (bit_vector);
}

/// Packs an amount: the largest packable value not above `amount`, in its
/// five-byte form.  Total over the 128-bit range.
pub fn pack_token_amount(amount: u128) -> (r: Vec<u8>)
    ensures
        r@ == spec_packed_token_bytes(amount),
{
    proof {
        lemma_amount_always_encodable(amount);
    }
    let parts = pack_parts(amount, AMOUNT_MAX_MANTISSA);
    let (e, m) = match parts {
        Some(p) => p,
        None => vstd::pervasive::unreached(),
    };
    proof {
        lemma_packed_value_is_closest(amount as nat, AMOUNT_MAX_MANTISSA as nat);
        lemma_mul_inequality(e as int, 31, AMOUNT_MANTISSA_WEIGHT as int);
    }
    let code: u64 = (e as u64) * AMOUNT_MANTISSA_WEIGHT + (m as u64);
    let mut out: Vec<u8> = Vec::new();
    push_u40_be(&mut out, code);
    proof {
        assert(out@ =~= spec_packed_token_bytes(amount));
    }
    out
}

/// Packs a fee: the largest packable value not above `fee`, in its two-byte
/// form.  The fee must lie within the codec's range.
pub fn pack_fee_amount(fee: u128) -> (r: Vec<u8>)
    requires
        fee as nat <= spec_max_encodable(FEE_MAX_MANTISSA as nat),
    ensures
        r@ == spec_packed_fee_bytes(fee),
{
    proof {
        lemma_pack_exists(fee as nat, FEE_MAX_MANTISSA as nat);
    }
    let parts = pack_parts(fee, FEE_MAX_MANTISSA);
    let (e, m) = match parts {
        Some(p) => p,
        None => vstd::pervasive::unreached(),
    };
    proof {
        lemma_packed_value_is_closest(fee as nat, FEE_MAX_MANTISSA as nat);
        lemma_mul_inequality(e as int, 31, FEE_MANTISSA_WEIGHT as int);
    }
    let code: u16 = (e as u16) * FEE_MANTISSA_WEIGHT + (m as u16);
    let mut out: Vec<u8> = Vec::new();
    push_u16_be(&mut out, code);
    proof {
        assert(out@ =~= spec_packed_fee_bytes(fee));
    }
    out
}

/// Reads an amount back out of its five-byte packed form.
pub fn unpack_token_amount(data: &Vec<u8>) -> (r: Option<u128>)
    ensures
        r == spec_unpack_token_bytes(data@),
{
    if data.len() != 5 {
        return None;
    }
    let code = compose_code5(data[0], data[1], data[2], data[3], data[4]);
    proof {
        lemma_div_is_ordered(code as int, 0xff_ffff_ffff, AMOUNT_MANTISSA_WEIGHT as int);
    }
    let e: u8 = (code / AMOUNT_MANTISSA_WEIGHT) as u8;
    let m: u128 = (code % AMOUNT_MANTISSA_WEIGHT) as u128;
    proof {
        assert(data@ =~= seq![data@[0], data@[1], data@[2], data@[3], data@[4]]);
    }
    unpack_parts(e, m)
}

/// Reads a fee back out of its two-byte packed form.
pub fn unpack_fee_amount(data: &Vec<u8>) -> (r: Option<u128>)
    ensures
        r == spec_unpack_fee_bytes(data@),
{
    if data.len() != 2 {
        return None;
    }
    let code = compose_code2(data[0], data[1]);
    let e: u8 = (code / FEE_MANTISSA_WEIGHT) as u8;
    let m: u128 = (code % FEE_MANTISSA_WEIGHT) as u128;
    proof {
        assert(data@ =~= seq![data@[0], data@[1]]);
    }
    unpack_parts(e, m)
}

fn compose_code5(b0: u8, b1: u8, b2: u8, b3: u8, b4: u8) -> (code: u64)
    ensures
        code == spec_code5(seq![b0, b1, b2, b3, b4]),
        code < 0x100_0000_0000,
{
    let code: u64 = ((b0 as u64) << 32) | ((b1 as u64) << 24) | ((b2 as u64) << 16) | ((
    b3 as u64) << 8) | (b4 as u64);
    proof {
        assert(((b0 as u64) << 32) | ((b1 as u64) << 24) | ((b2 as u64) << 16) | ((b3 as u64)
            << 8) | (b4 as u64) < 0x100_0000_0000) by (bit_vector);
    }
    code
}

fn compose_code2(b0: u8, b1: u8) -> (code: u16)
    ensures
        code == spec_code2(seq![b0, b1]),
{
    ((b0 as u16) << 8) | (b1 as u16)
}

/// Whether the codec denotes `amount` exactly.
pub fn is_token_amount_packable(amount: u128) -> (r: bool)
    ensures
        r == spec_packable(amount as nat, AMOUNT_MAX_MANTISSA as nat),
{
    proof {
        lemma_packable_iff_exact(amount as nat, AMOUNT_MAX_MANTISSA as nat);
    }
    match pack_parts(amount, AMOUNT_MAX_MANTISSA) {
        Some((e, m)) => {
            proof {
                lemma_packed_value_is_closest(amount as nat, AMOUNT_MAX_MANTISSA as nat);
            }
            match unpack_parts(e, m) {
                Some(v) => v == amount,
                None => false,
            }
        },
        None => false,
    }
}

/// Whether the codec denotes `fee` exactly.
pub fn is_fee_amount_packable(fee: u128) -> (r: bool)
    ensures
        r == spec_packable(fee as nat, FEE_MAX_MANTISSA as nat),
{
    proof {
        lemma_packable_iff_exact(fee as nat, FEE_MAX_MANTISSA as nat);
        if spec_packable(fee as nat, FEE_MAX_MANTISSA as nat) {
            lemma_packable_le_max(fee as nat, FEE_MAX_MANTISSA as nat);
        }
        if spec_pack_parts(fee as nat, FEE_MAX_MANTISSA as nat) is None {
            lemma_pack_none(fee as nat, FEE_MAX_MANTISSA as nat);
        }
    }
    match pack_parts(fee, FEE_MAX_MANTISSA) {
        Some((e, m)) => {
            proof {
                lemma_packed_value_is_closest(fee as nat, FEE_MAX_MANTISSA as nat);
            }
            match unpack_parts(e, m) {
                Some(v) => v == fee,
                None => false,
            }
        },
        None => false,
    }
}

/// The largest packable amount not above `amount`.
pub fn closest_packable_token_amount(amount: u128) -> (r: u128)
    ensures
        spec_packable(r as nat, AMOUNT_MAX_MANTISSA as nat),
        r <= amount,
        forall|w: u128|
            #[trigger] spec_packable(w as nat, AMOUNT_MAX_MANTISSA as nat) && w <= amount ==> w
                <= r,
{
    proof {
        lemma_amount_always_encodable(amount);
        lemma_packed_value_is_closest(amount as nat, AMOUNT_MAX_MANTISSA as nat);
    }
    let parts = pack_parts(amount, AMOUNT_MAX_MANTISSA);
    let (e, m) = match parts {
        Some(p) => p,
        None => vstd::pervasive::unreached(),
    };
    let r = match unpack_parts(e, m) {
        Some(v) => v,
        None => vstd::pervasive::unreached(),
    };
    proof {
        assert forall|w: u128|
            #[trigger] spec_packable(w as nat, AMOUNT_MAX_MANTISSA as nat) && w <= amount
            implies w <= r by {
            let (ew, mw) = choose|ew: nat, mw: nat|
                ew <= MAX_EXPONENT && mw <= AMOUNT_MAX_MANTISSA && w as nat == #[trigger]
                times_pow10(mw, ew);
        }
    }
    r
}

/// The largest packable fee not above `fee`.
pub fn closest_packable_fee_amount(fee: u128) -> (r: u128)
    ensures
        spec_packable(r as nat, FEE_MAX_MANTISSA as nat),
        r <= fee,
        forall|w: u128|
            #[trigger] spec_packable(w as nat, FEE_MAX_MANTISSA as nat) && w <= fee ==> w <= r,
{
    let parts = pack_parts(fee, FEE_MAX_MANTISSA);
    match parts {
        Some((e, m)) => {
            proof {
                lemma_packed_value_is_closest(fee as nat, FEE_MAX_MANTISSA as nat);
            }
            let r = match unpack_parts(e, m) {
                Some(v) => v,
                None => vstd::pervasive::unreached(),
            };
            proof {
                assert forall|w: u128|
                    #[trigger] spec_packable(w as nat, FEE_MAX_MANTISSA as nat) && w <= fee
                    implies w <= r by {
                    let (ew, mw) = choose|ew: nat, mw: nat|
                        ew <= MAX_EXPONENT && mw <= FEE_MAX_MANTISSA && w as nat == #[trigger]
                        times_pow10(mw, ew);
                }
            }
            r
        },
        None => {
            // the fee exceeds the codec's whole range: clamp to its maximum
            proof {
                lemma_pack_none(fee as nat, FEE_MAX_MANTISSA as nat);
                lemma_pow10_31_value();
            }
            let p31 = pow10_u128(31);
            let r = FEE_MAX_MANTISSA * p31;
            proof {
                assert(r as nat == times_pow10(FEE_MAX_MANTISSA as nat, 31));
                assert forall|w: u128|
                    #[trigger] spec_packable(w as nat, FEE_MAX_MANTISSA as nat) && w <= fee
                    implies w <= r by {
                    lemma_packable_le_max(w as nat, FEE_MAX_MANTISSA as nat);
                }
            }
            r
        },
    }
}

// ------------------------------------------------------------------
// The codec's round-trip law: packing a packable value and unpacking the
// bytes reproduces the value exactly.
// ------------------------------------------------------------------

/// Unpacking the packed five-byte form of a packable amount yields the
/// amount back.
pub proof fn lemma_token_amount_round_trip(amount: u128)
    requires
        spec_packable(amount as nat, AMOUNT_MAX_MANTISSA as nat),
    ensures
        spec_unpack_token_bytes(spec_packed_token_bytes(amount)) == Some(amount),
{
    lemma_amount_always_encodable(amount);
    lemma_packable_iff_exact(amount as nat, AMOUNT_MAX_MANTISSA as nat);
    lemma_packed_value_is_closest(amount as nat, AMOUNT_MAX_MANTISSA as nat);
    let p = spec_pack_parts(amount as nat, AMOUNT_MAX_MANTISSA as nat)->Some_0;
    lemma_mul_inequality(p.0 as int, 31, AMOUNT_MANTISSA_WEIGHT as int);
    let code = (p.0 * AMOUNT_MANTISSA_WEIGHT + p.1) as u64;
    lemma_u40_code_round_trip(code);
    lemma_fundamental_div_mod_converse(
        code as int,
        AMOUNT_MANTISSA_WEIGHT as int,
        p.0 as int,
        p.1 as int,
    );
    assert(code as nat / (AMOUNT_MANTISSA_WEIGHT as nat) == p.0);
    assert(code as nat % (AMOUNT_MANTISSA_WEIGHT as nat) == p.1);
}

/// Unpacking the packed two-byte form of a packable fee yields the fee back.
pub proof fn lemma_fee_amount_round_trip(fee: u128)
    requires
        spec_packable(fee as nat, FEE_MAX_MANTISSA as nat),
    ensures
        spec_unpack_fee_bytes(spec_packed_fee_bytes(fee)) == Some(fee),
{
    lemma_packable_le_max(fee as nat, FEE_MAX_MANTISSA as nat);
    lemma_pack_exists(fee as nat, FEE_MAX_MANTISSA as nat);
    lemma_packable_iff_exact(fee as nat, FEE_MAX_MANTISSA as nat);
    lemma_packed_value_is_closest(fee as nat, FEE_MAX_MANTISSA as nat);
    let p = spec_pack_parts(fee as nat, FEE_MAX_MANTISSA as nat)->Some_0;
    lemma_mul_inequality(p.0 as int, 31, FEE_MANTISSA_WEIGHT as int);
    let code = (p.0 * FEE_MANTISSA_WEIGHT + p.1) as u16;
    lemma_u16_code_round_trip(code);
    lemma_fundamental_div_mod_converse(
        code as int,
        FEE_MANTISSA_WEIGHT as int,
        p.0 as int,
        p.1 as int,
    );
    assert(code as nat / (FEE_MANTISSA_WEIGHT as nat) == p.0);
    assert(code as nat % (FEE_MANTISSA_WEIGHT as nat) == p.1);
}

} // verus!

