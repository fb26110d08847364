//! Verified text rendering: decimal numbers, fixed-point unit strings and
//! lowercase hexadecimal, used to build the human-readable messages that
//! base-chain keys sign.

use vstd::prelude::*;

use crate::primitives::{Address, PubKeyHash, H256};

verus! {

pub open spec fn spec_digit_char(d: u8) -> char {
    if d == 0 {
        '0'
    } else if d == 1 {
        '1'
    } else if d == 2 {
        '2'
    } else if d == 3 {
        '3'
    } else if d == 4 {
        '4'
    } else if d == 5 {
        '5'
    } else if d == 6 {
        '6'
    } else if d == 7 {
        '7'
    } else if d == 8 {
        '8'
    } else {
        '9'
    }
}

/// The decimal rendering of `n`, most significant digit first, no leading
/// zeros (zero itself is a single `'0'`).
pub open spec fn spec_dec(n: nat) -> Seq<char>
    decreases n,
{
    if n < 10 {
        seq![spec_digit_char(n as u8)]
    } else {
        spec_dec(n / 10) + seq![spec_digit_char((n % 10) as u8)]
    }
}

/// `k` zero characters.
pub open spec fn spec_zeros(k: nat) -> Seq<char> {
    Seq::new(k, |i: int| '0')
}

/// The decimal rendering of `n` left-padded with zeros to at least `k`
/// characters.
pub open spec fn spec_dec_padded(n: nat, k: nat) -> Seq<char> {
    if spec_dec(n).len() >= k {
        spec_dec(n)
    } else {
        spec_zeros((k - spec_dec(n).len()) as nat) + spec_dec(n)
    }
}

/// The fixed-point rendering of a quantity of `n` base units shown with
/// `units` fractional digits: the padded decimal string with a point before
/// the last `units` digits.
pub open spec fn spec_format_units(n: nat, units: nat) -> Seq<char> {
    let p = spec_dec_padded(n, units + 1);
    p.take(p.len() - units) + seq!['.'] + p.skip(p.len() - units)
}

/// The least-significant-first digit list a rendering loop produces; its
/// character form read back-to-front.
pub open spec fn spec_rev_chars(ds: Seq<u8>) -> Seq<char> {
    Seq::new(ds.len(), |j: int| spec_digit_char(ds[ds.len() - 1 - j]))
}

// ------------------------------------------------------------------
// Executable rendering.
// ------------------------------------------------------------------

/// Appends one decimal digit character.
fn push_digit(s: &mut String, d: u8)
    requires
        d < 10,
    ensures
        final(s)@ == old(s)@ + seq![spec_digit_char(d)],
{
    proof {
        reveal_strlit("0");
        reveal_strlit("1");
        reveal_strlit("2");
        reveal_strlit("3");
        reveal_strlit("4");
        reveal_strlit("5");
        reveal_strlit("6");
        reveal_strlit("7");
        reveal_strlit("8");
        reveal_strlit("9");
    }
    match d {
        0 => s.append("0"),
        1 => s.append("1"),
        2 => s.append("2"),
        3 => s.append("3"),
        4 => s.append("4"),
        5 => s.append("5"),
        6 => s.append("6"),
        7 => s.append("7"),
        8 => s.append("8"),
        _ => s.append("9"),
    }
    assert(final(s)@ =~= old(s)@ + seq![spec_digit_char(d)]);
}

/// The digits of `n`, least significant first, padded with zeros to at least
/// `min_len` entries.
fn dec_digits_padded(n: u128, min_len: usize) -> (ds: Vec<u8>)
    requires
        min_len <= 100,
    ensures
        forall|i: int| 0 <= i < ds@.len() ==> ds@[i] < 10,
        spec_rev_chars(ds@) == spec_dec_padded(n as nat, min_len as nat),
        ds@.len() >= 1,
{
    let mut ds: Vec<u8> = Vec::new();
    let mut x = n;
    loop
        invariant_except_break
            forall|i: int| 0 <= i < ds@.len() ==> ds@[i] < 10,
            x <= n,
            x == 0 ==> ds@.len() == 0,
            spec_dec(n as nat) =~= spec_dec(x as nat) + spec_rev_chars(ds@),
        ensures
            forall|i: int| 0 <= i < ds@.len() ==> ds@[i] < 10,
            ds@.len() >= 1,
            spec_dec(n as nat) =~= spec_rev_chars(ds@),
        decreases x,
    {
        let d = (x % 10) as u8;
        let ghost old_ds = ds@;
        let ghost old_x = x as nat;
        ds.push(d);
        x = x / 10;
        proof {
            assert(spec_rev_chars(ds@) =~= seq![spec_digit_char(d)] + spec_rev_chars(old_ds));
            if old_x >= 10 {
                assert(spec_dec(old_x) == spec_dec(old_x / 10) + seq![
                    spec_digit_char((old_x % 10) as u8),
                ]);
                assert(spec_dec(x as nat) + spec_rev_chars(ds@) =~= spec_dec(old_x)
                    + spec_rev_chars(old_ds));
            } else {
                assert(x == 0);
                assert(spec_dec(old_x) == seq![spec_digit_char(d)]);
                assert(spec_rev_chars(ds@) =~= spec_dec(old_x) + spec_rev_chars(old_ds));
                assert(spec_dec(n as nat) =~= spec_rev_chars(ds@));
            }
        }
        if x == 0 {
            break;
        }
    }
    proof {
        assert(spec_dec(n as nat).len() == ds@.len());
        assert(spec_dec_padded(n as nat, ds@.len() as nat) =~= spec_rev_chars(ds@));
    }
    while ds.len() < min_len
        invariant
            forall|i: int| 0 <= i < ds@.len() ==> ds@[i] < 10,
            ds@.len() >= 1,
            min_len <= 100,
            spec_dec(n as nat).len() <= ds@.len(),
            ds@.len() <= min_len || ds@.len() == spec_dec(n as nat).len(),
            spec_dec_padded(n as nat, ds@.len() as nat) =~= spec_rev_chars(ds@),
        decreases min_len - ds.len(),
    {
        let ghost old_ds = ds@;
        ds.push(0);
        proof {
            assert(spec_rev_chars(ds@) =~= seq!['0'] + spec_rev_chars(old_ds));
            assert(spec_dec_padded(n as nat, ds@.len() as nat) =~= seq!['0'] + spec_dec_padded(
                n as nat,
                old_ds.len() as nat,
            ));
        }
    }
    proof {
        assert(spec_dec_padded(n as nat, min_len as nat) =~= spec_dec_padded(
            n as nat,
            ds@.len() as nat,
        ));
    }
    ds
}

/// Appends the digit characters `ds[from..to]`, read most significant first.
fn push_digits_rev(s: &mut String, ds: &Vec<u8>, from: usize, to: usize)
    requires
        from <= to <= ds@.len(),
        forall|i: int| 0 <= i < ds@.len() ==> ds@[i] < 10,
    ensures
        final(s)@ == old(s)@ + spec_rev_chars(ds@).subrange(
            ds@.len() - to,
            ds@.len() - from,
        ),
{
    let ghost whole = spec_rev_chars(ds@);
    let mut i = to;
    while i > from
        invariant
            from <= i <= to <= ds@.len(),
            forall|k: int| 0 <= k < ds@.len() ==> ds@[k] < 10,
            whole == spec_rev_chars(ds@),
            s@ == old(s)@ + whole.subrange(ds@.len() - to, ds@.len() - i),
        decreases i,
    {
        push_digit(s, ds[i - 1]);
        i = i - 1;
        proof {
            assert(whole[ds@.len() - i - 1] == spec_digit_char(ds@[i as int]));
            assert(s@ =~= old(s)@ + whole.subrange(ds@.len() - to, ds@.len() - i));
        }
    }
    proof {
        assert(s@ =~= old(s)@ + whole.subrange(ds@.len() - to, ds@.len() - from));
    }
}

/// Appends the decimal rendering of `n`.
pub fn push_dec_u128(s: &mut String, n: u128)
    ensures
        final(s)@ == old(s)@ + spec_dec(n as nat),
{
    let ds = dec_digits_padded(n, 0);
    let len = ds.len();
    push_digits_rev(s, &ds, 0, len);
    proof {
        assert(spec_rev_chars(ds@).subrange(0, ds@.len() as int) =~= spec_rev_chars(ds@));
        assert(spec_dec_padded(n as nat, 0) == spec_dec(n as nat));
    }
}

/// Appends the decimal rendering of a 64-bit value.
pub fn push_dec_u64(s: &mut String, n: u64)
    ensures
        final(s)@ == old(s)@ + spec_dec(n as nat),
{
    push_dec_u128(s, n as u128);
}

/// Appends the decimal rendering of a 32-bit value.
pub fn push_dec_u32(s: &mut String, n: u32)
    ensures
        final(s)@ == old(s)@ + spec_dec(n as nat),
{
    push_dec_u128(s, n as u128);
}

/// Appends the decimal rendering of a 16-bit value.
pub fn push_dec_u16(s: &mut String, n: u16)
    ensures
        final(s)@ == old(s)@ + spec_dec(n as nat),
{
    push_dec_u128(s, n as u128);
}

/// Appends the fixed-point rendering of `n` base units with `units`
/// fractional digits, as shown in signed messages.
pub fn push_units(s: &mut String, n: u128, units: u8)
    requires
        units <= 77,
    ensures
        final(s)@ == old(s)@ + spec_format_units(n as nat, units as nat),
{
    let ds = dec_digits_padded(n, (units as usize) + 1);
    let len = ds.len();
    let ghost p = spec_dec_padded(n as nat, (units + 1) as nat);
    proof {
        assert(p.len() == ds@.len());
        assert(p.len() >= units + 1);
    }
    push_digits_rev(s, &ds, units as usize, len);
    proof {
        reveal_strlit(".");
    }
    s.append(".");
    push_digits_rev(s, &ds, 0, units as usize);
    proof {
        assert(spec_rev_chars(ds@).subrange(0, (ds@.len() - units) as int) =~= p.take(
            p.len() - units,
        ));
        assert(spec_rev_chars(ds@).subrange((ds@.len() - units) as int, ds@.len() as int) =~= p.skip(
            p.len() - units,
        ));
        assert(final(s)@ =~= old(s)@ + spec_format_units(n as nat, units as nat));
    }
}

// ------------------------------------------------------------------
// Hexadecimal.
// ------------------------------------------------------------------

pub open spec fn spec_hex_char(d: u8) -> char {
    if d < 10 {
        spec_digit_char(d)
    } else if d == 10 {
        'a'
    } else if d == 11 {
        'b'
    } else if d == 12 {
        'c'
    } else if d == 13 {
        'd'
    } else if d == 14 {
        'e'
    } else {
        'f'
    }
}

/// Two lowercase hex characters per byte, in byte order.
pub open spec fn spec_hex(bytes: Seq<u8>) -> Seq<char>
    decreases bytes.len(),
{
    if bytes.len() == 0 {
        Seq::empty()
    } else {
        spec_hex(bytes.drop_last()) + seq![
            spec_hex_char(bytes.last() / 16),
            spec_hex_char(bytes.last() % 16),
        ]
    }
}

fn push_hex_char(s: &mut String, d: u8)
    requires
        d < 16,
    ensures
        final(s)@ == old(s)@ + seq![spec_hex_char(d)],
{
    if d < 10 {
        push_digit(s, d);
    } else {
        proof {
            reveal_strlit("a");
            reveal_strlit("b");
            reveal_strlit("c");
            reveal_strlit("d");
            reveal_strlit("e");
            reveal_strlit("f");
        }
        match d {
            10 => s.append("a"),
            11 => s.append("b"),
            12 => s.append("c"),
            13 => s.append("d"),
            14 => s.append("e"),
            _ => s.append("f"),
        }
        assert(final(s)@ =~= old(s)@ + seq![spec_hex_char(d)]);
    }
}

/// Appends the lowercase hex rendering of the bytes.
pub fn push_hex(s: &mut String, bytes: &Vec<u8>)
    ensures
        final(s)@ == old(s)@ + spec_hex(bytes@),
{
    let mut i: usize = 0;
    while i < bytes.len()
        invariant
            i <= bytes@.len(),
            s@ == old(s)@ + spec_hex(bytes@.take(i as int)),
        decreases bytes@.len() - i,
    {
        let b = bytes[i];
        push_hex_char(s, b / 16);
        push_hex_char(s, b % 16);
        i = i + 1;
        proof {
            assert(bytes@.take(i as int).drop_last() =~= bytes@.take(i - 1));
            assert(s@ =~= old(s)@ + spec_hex(bytes@.take(i as int)));
        }
    }
    proof {
        assert(bytes@.take(bytes@.len() as int) =~= bytes@);
    }
}

/// Appends an address as it is shown in signed messages: `0x` and forty hex
/// characters.
pub fn push_address_hex(s: &mut String, a: &Address)
    ensures
        final(s)@ == old(s)@ + "0x"@ + spec_hex(a.spec_bytes()),
{
    let mut b: Vec<u8> = Vec::new();
    a.push_bytes(&mut b);
    s.append("0x");
    push_hex(s, &b);
    assert(final(s)@ =~= old(s)@ + "0x"@ + spec_hex(a.spec_bytes()));
}

/// Appends a 32-byte word as it is shown in signed messages: `0x` and
/// sixty-four hex characters.
pub fn push_h256_hex(s: &mut String, h: &H256)
    ensures
        final(s)@ == old(s)@ + "0x"@ + spec_hex(h.spec_bytes()),
{
    let mut b: Vec<u8> = Vec::new();
    h.push_bytes(&mut b);
    s.append("0x");
    push_hex(s, &b);
    assert(final(s)@ =~= old(s)@ + "0x"@ + spec_hex(h.spec_bytes()));
}

/// Appends a key hash in its prefixed textual form.
pub fn push_pub_key_hash_hex(s: &mut String, h: &PubKeyHash)
    ensures
        final(s)@ == old(s)@ + "sync:"@ + spec_hex(h.spec_bytes()),
{
    let mut b: Vec<u8> = Vec::new();
    h.push_bytes(&mut b);
    s.append("sync:");
    push_hex(s, &b);
    assert(final(s)@ =~= old(s)@ + "sync:"@ + spec_hex(h.spec_bytes()));
}

} // verus!
