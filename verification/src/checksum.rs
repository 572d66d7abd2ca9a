//! Mixed-case checksum encoding of hex account identifiers.
//!
//! The checksummed spelling of an address is derived from the Keccak-256
//! digest of the ASCII bytes of its canonical (lowercase, unprefixed)
//! form: the hex digit at position `i` is uppercased exactly when nibble
//! `i` of the digest is 8 or more. Everything but the digest itself is
//! computed and proved here; the digest is obtained from an outside
//! implementation and only named.

use vstd::prelude::*;

use crate::addresses::{
    canonical_account, hex_char, hex_char_upper, hex_digit_val, hex_digit_value, is_hex_digit,
    is_valid_address, lemma_hex_char_value, lower_hex_digit, spec_hex_char, spec_hex_char_upper,
    strip_hex_prefix, valid_address,
};
use crate::model::WhaleError;

verus! {

/// The Keccak-256 digest of a byte sequence. The digest is a function of
/// its input alone; its 32 bytes are not further specified here.
pub uninterp spec fn keccak256_of(input: Seq<u8>) -> Seq<u8>;

/// Relies on `ethers::utils::keccak256`: computes the Keccak-256 digest
/// of the input bytes, a 32-byte value determined by the input alone.
#[verifier::external_body]
fn keccak256_digest(input: &Vec<u8>) -> (r: Vec<u8>)
    ensures
        r@ == keccak256_of(input@),
        r@.len() == 32,
{
    ethers::utils::keccak256(input.as_slice()).to_vec()
}

/// Nibble `i` of a digest: the high half of byte `i / 2` for even `i`,
/// the low half for odd `i`.
pub open spec fn digest_nibble(digest: Seq<u8>, i: int) -> u8 {
    if i % 2 == 0 {
        digest[i / 2] / 16
    } else {
        digest[i / 2] % 16
    }
}

/// One canonical hex digit, checksummed: uppercased exactly when the
/// digest nibble at its position is 8 or more. Decimal digits have no
/// case and pass through; so does any non-hex character.
pub open spec fn checksum_hex_digit(c: char, nib: u8) -> char {
    match hex_digit_value(c) {
        Some(n) => if nib >= 8 {
            spec_hex_char_upper(n)
        } else {
            spec_hex_char(n)
        },
        None => c,
    }
}

/// The 40 canonical digits of an account, checksummed against a digest.
pub open spec fn checksummed_digits(acct: Seq<char>, digest: Seq<u8>) -> Seq<char> {
    Seq::new(acct.len(), |i: int| checksum_hex_digit(acct[i], digest_nibble(digest, i)))
}

/// ASCII bytes of a sequence of (ASCII) characters.
pub open spec fn hex_ascii(s: Seq<char>) -> Seq<u8> {
    s.map_values(|c: char| c as u8)
}

/// The checksummed spelling of an address: `0x`, then its canonical
/// digits checksummed against the Keccak-256 digest of their ASCII bytes.
pub open spec fn spec_checksum(addr: Seq<char>) -> Seq<char> {
    let acct = canonical_account(addr);
    seq!['0', 'x'] + checksummed_digits(acct, keccak256_of(hex_ascii(acct)))
}

/// The canonical account of a valid address is 40 lowercase-canonical
/// hex digits: each is its own lowercase form.
pub proof fn lemma_canonical_shape(addr: Seq<char>)
    requires
        valid_address(addr),
    ensures
        canonical_account(addr).len() == 40,
        forall|i: int| 0 <= i < 40 ==> is_hex_digit(#[trigger] canonical_account(addr)[i]),
        forall|i: int| 0 <= i < 40 ==> lower_hex_digit(#[trigger] canonical_account(addr)[i])
            == canonical_account(addr)[i],
{
    let stripped = strip_hex_prefix(addr);
    let acct = canonical_account(addr);
    assert forall|i: int| 0 <= i < 40 implies is_hex_digit(#[trigger] acct[i])
        && lower_hex_digit(acct[i]) == acct[i] by {
        assert(is_hex_digit(stripped[i]));
        let n = hex_digit_value(stripped[i])->Some_0;
        lemma_hex_char_value(n);
    }
}

/// A checksummed spelling is itself a valid address naming the same
/// account, and checksumming it again changes nothing.
pub proof fn lemma_checksum_idempotent(addr: Seq<char>)
    requires
        valid_address(addr),
    ensures
        valid_address(spec_checksum(addr)),
        canonical_account(spec_checksum(addr)) == canonical_account(addr),
        spec_checksum(spec_checksum(addr)) == spec_checksum(addr),
{
    let acct = canonical_account(addr);
    let digest = keccak256_of(hex_ascii(acct));
    let body = checksummed_digits(acct, digest);
    let cs = spec_checksum(addr);
    lemma_canonical_shape(addr);
    assert(cs.len() == 42);
    assert(cs[0] == '0' && cs[1] == 'x');
    assert(strip_hex_prefix(cs) =~= body);
    assert forall|i: int| 0 <= i < 40 implies is_hex_digit(#[trigger] body[i])
        && lower_hex_digit(body[i]) == acct[i] by {
        let n = hex_digit_value(acct[i])->Some_0;
        lemma_hex_char_value(n);
    }
    assert(valid_address(cs));
    assert(canonical_account(cs) =~= acct);
    assert(spec_checksum(cs) == spec_checksum(addr));
}

/// Checksummed spelling of an address.
///
/// Succeeds exactly on well-formed addresses (40 hex digits, optional
/// `0x` prefix) and returns the `0x`-prefixed mixed-case checksummed
/// form, which names the same account as the input. Any malformed input
/// is rejected locally; nothing else is touched.
pub fn checksum(address: &str) -> (r: Result<String, WhaleError>)
    ensures
        r is Ok <==> valid_address(address@),
        r matches Ok(s) ==> s@ == spec_checksum(address@),
        r matches Ok(s) ==> valid_address(s@) && canonical_account(s@)
            == canonical_account(address@),
        r matches Err(e) ==> e == WhaleError::InvalidAddressFormat,
{
    if !is_valid_address(address) {
        return Err(WhaleError::InvalidAddressFormat);
    }
    proof {
        lemma_canonical_shape(address@);
    }
    let ghost acct = canonical_account(address@);
    let n = address.unicode_len();
    let start: usize = if n == 42 {
        2
    } else {
        0
    };
    proof {
        if n == 42 {
            assert(strip_hex_prefix(address@) =~= address@.skip(2));
        } else {
            assert(strip_hex_prefix(address@) =~= address@);
        }
    }
    let mut lower_bytes: Vec<u8> = Vec::new();
    let mut values: Vec<u8> = Vec::new();
    for i in 0..40usize
        invariant
            valid_address(address@),
            acct == canonical_account(address@),
            start + 40 == address@.len(),
            strip_hex_prefix(address@) =~= address@.skip(start as int),
            values@.len() == i,
            lower_bytes@.len() == i,
            forall|j: int| 0 <= j < i ==> hex_digit_value(acct[j]) == Some(#[trigger] values@[j]),
            forall|j: int| 0 <= j < i ==> #[trigger] lower_bytes@[j] == hex_ascii(acct)[j],
    {
        let c = address.get_char(start + i);
        proof {
            assert(strip_hex_prefix(address@)[i as int] == address@[start + i]);
            assert(acct[i as int] == lower_hex_digit(c));
            assert(is_hex_digit(c));
        }
        let v = hex_digit_val(c);
        proof {
            lemma_hex_char_value(v);
            assert(acct[i as int] == spec_hex_char(v));
            assert(spec_hex_char(v) as u8 == hex_ascii(acct)[i as int]);
        }
        values.push(v);
        lower_bytes.push(if v < 10 {
            48 + v
        } else {
            87 + v
        });
        proof {
            assert(lower_bytes@[i as int] == spec_hex_char(v) as u8);
        }
    }
    proof {
        assert(lower_bytes@ =~= hex_ascii(acct));
    }
    let digest = keccak256_digest(&lower_bytes);
    let ghost d = keccak256_of(hex_ascii(acct));
    let mut out = String::from_str("0x");
    proof {
        reveal_strlit("0x");
        assert(out@ =~= seq!['0', 'x']);
    }
    for i in 0..40usize
        invariant
            valid_address(address@),
            acct == canonical_account(address@),
            values@.len() == 40,
            forall|j: int| 0 <= j < 40 ==> hex_digit_value(acct[j]) == Some(#[trigger] values@[j]),
            digest@ == d,
            digest@.len() == 32,
            out@ =~= seq!['0', 'x'] + checksummed_digits(acct, d).take(i as int),
    {
        let v = values[i];
        let nib: u8 = if i % 2 == 0 {
            digest[i / 2] / 16
        } else {
            digest[i / 2] % 16
        };
        proof {
            assert(nib == digest_nibble(d, i as int));
            assert(nib < 16);
        }
        let ch = if nib >= 8 {
            hex_char_upper(v)
        } else {
            hex_char(v)
        };
        proof {
            assert(ch == checksum_hex_digit(acct[i as int], nib));
            assert(ch == checksummed_digits(acct, d)[i as int]);
        }
        out.push(ch);
        proof {
            assert(out@ =~= seq!['0', 'x'] + checksummed_digits(acct, d).take(i as int + 1));
        }
    }
    proof {
        assert(out@ =~= spec_checksum(address@));
        lemma_checksum_idempotent(address@);
    }
    Ok(out)
}

} // verus!
