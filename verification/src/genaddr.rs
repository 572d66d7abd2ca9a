//! Random test addresses: a fresh, well-formed, canonically lowercase
//! hex account identifier built from drawn random numbers.
//!
//! The randomness comes from outside and nothing is assumed about the
//! drawn values; what is proved is that whatever was drawn, the string
//! handed out is a valid address in canonical form, so checksumming it
//! always succeeds.

use vstd::prelude::*;

use crate::addresses::{
    canonical_account, hex_char, is_hex_digit, lemma_hex_char_value, lower_hex_digit,
    strip_hex_prefix, valid_address,
};

verus! {

/// Relies on `rand::random`: draws a fresh random value; nothing holds
/// of which one.
#[verifier::external_body]
fn random_u128() -> u128 {
    rand::random::<u128>()
}

/// Relies on `rand::random`: draws a fresh random value; nothing holds
/// of which one.
#[verifier::external_body]
fn random_u32() -> u32 {
    rand::random::<u32>()
}

/// Append the `width` lowest nibbles of `v`, most significant first, as
/// lowercase hex digits.
fn push_hex_nibbles(out: &mut String, v: u128, width: u32)
    requires
        1 <= width <= 32,
    ensures
        final(out)@.len() == old(out)@.len() + width,
        forall|j: int| 0 <= j < old(out)@.len() ==> final(out)@[j] == old(out)@[j],
        forall|j: int| old(out)@.len() <= j < final(out)@.len()
            ==> is_hex_digit(#[trigger] final(out)@[j]) && lower_hex_digit(final(out)@[j])
                == final(out)@[j],
{
    let ghost base = out@;
    let mut i: u32 = 0;
    while i < width
        invariant
            i <= width <= 32,
            out@.len() == base.len() + i,
            forall|j: int| 0 <= j < base.len() ==> out@[j] == base[j],
            forall|j: int| base.len() <= j < out@.len() ==> is_hex_digit(#[trigger] out@[j])
                && lower_hex_digit(out@[j]) == out@[j],
        decreases width - i,
    {
        let shift: u32 = (width - 1 - i) * 4;
        let nib: u8 = ((v >> shift) & 0xf) as u8;
        proof {
            assert((v >> shift) & 0xf < 16) by (bit_vector);
            lemma_hex_char_value(nib);
        }
        let c = hex_char(nib);
        out.push(c);
        i = i + 1;
    }
}

/// A fresh random address for testing: `0x` followed by 40 random
/// lowercase hex digits, so a well-formed account identifier already in
/// canonical form. The first 32 digits come from one 128-bit draw, the
/// last 8 from one 32-bit draw, each redrawn while its leading digit is
/// zero — boundedly often, the digit being forced non-zero in the end.
pub fn generate_hex_address() -> (r: String)
    ensures
        valid_address(r@),
        r@.len() == 42,
        r@[0] == '0' && r@[1] == 'x',
        canonical_account(r@) == r@.skip(2),
{
    let mut hi = random_u128();
    let mut tries: u32 = 0;
    while hi < 0x10000000000000000000000000000000u128 && tries < 64
        decreases 64 - tries,
    {
        hi = random_u128();
        tries = tries + 1;
    }
    if hi < 0x10000000000000000000000000000000u128 {
        hi = hi | 0x10000000000000000000000000000000u128;
    }
    let mut lo = random_u32();
    tries = 0;
    while lo < 0x10000000u32 && tries < 64
        decreases 64 - tries,
    {
        lo = random_u32();
        tries = tries + 1;
    }
    if lo < 0x10000000u32 {
        lo = lo | 0x10000000u32;
    }
    let mut out = String::from_str("0x");
    proof {
        reveal_strlit("0x");
        assert(out@ =~= seq!['0', 'x']);
    }
    push_hex_nibbles(&mut out, hi, 32);
    push_hex_nibbles(&mut out, lo as u128, 8);
    proof {
        assert(out@[0] == '0' && out@[1] == 'x');
        assert(strip_hex_prefix(out@) =~= out@.skip(2));
        assert(forall|j: int| 0 <= j < 40 ==> is_hex_digit(#[trigger] out@.skip(2)[j]));
        assert(valid_address(out@));
        assert(canonical_account(out@) =~= out@.skip(2));
    }
    out
}

} // verus!
