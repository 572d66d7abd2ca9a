//! Hex account identifiers: what a well-formed address is, and the
//! character-level helpers the checksum and generator build on.
//!
//! A well-formed address is exactly 40 hexadecimal digits, optionally
//! preceded by the prefix `0x`. Its canonical account form is the 40
//! digits with every letter lowercased; two spellings that differ only
//! in case name the same account.

use vstd::prelude::*;

verus! {

/// Numeric value of a hexadecimal digit character, `None` for any other
/// character.
pub open spec fn hex_digit_value(c: char) -> Option<u8> {
    if '0' <= c && c <= '9' {
        Some(((c as int) - ('0' as int)) as u8)
    } else if 'a' <= c && c <= 'f' {
        Some(((c as int) - ('a' as int) + 10) as u8)
    } else if 'A' <= c && c <= 'F' {
        Some(((c as int) - ('A' as int) + 10) as u8)
    } else {
        None
    }
}

/// The character is a hexadecimal digit.
pub open spec fn is_hex_digit(c: char) -> bool {
    hex_digit_value(c) is Some
}

/// Lowercase hexadecimal digit character for a value below 16.
pub open spec fn spec_hex_char(n: u8) -> char {
    if n == 0 { '0' }
    else if n == 1 { '1' }
    else if n == 2 { '2' }
    else if n == 3 { '3' }
    else if n == 4 { '4' }
    else if n == 5 { '5' }
    else if n == 6 { '6' }
    else if n == 7 { '7' }
    else if n == 8 { '8' }
    else if n == 9 { '9' }
    else if n == 10 { 'a' }
    else if n == 11 { 'b' }
    else if n == 12 { 'c' }
    else if n == 13 { 'd' }
    else if n == 14 { 'e' }
    else { 'f' }
}

/// Uppercase hexadecimal digit character for a value below 16; decimal
/// digits have no case and stay as they are.
pub open spec fn spec_hex_char_upper(n: u8) -> char {
    if n < 10 { spec_hex_char(n) }
    else if n == 10 { 'A' }
    else if n == 11 { 'B' }
    else if n == 12 { 'C' }
    else if n == 13 { 'D' }
    else if n == 14 { 'E' }
    else { 'F' }
}

/// A hexadecimal digit character, lowercased; other characters unchanged.
pub open spec fn lower_hex_digit(c: char) -> char {
    match hex_digit_value(c) {
        Some(n) => spec_hex_char(n),
        None => c,
    }
}

/// The address with a leading `0x`, if any, removed.
pub open spec fn strip_hex_prefix(s: Seq<char>) -> Seq<char> {
    if s.len() >= 2 && s[0] == '0' && s[1] == 'x' {
        s.skip(2)
    } else {
        s
    }
}

/// Every character of the sequence is a hexadecimal digit.
pub open spec fn all_hex_digits(s: Seq<char>) -> bool {
    forall|i: int| 0 <= i < s.len() ==> is_hex_digit(s[i])
}

/// A well-formed 20-byte hex account identifier: exactly 40 hexadecimal
/// digits after removal of an optional `0x` prefix.
pub open spec fn valid_address(s: Seq<char>) -> bool {
    &&& strip_hex_prefix(s).len() == 40
    &&& all_hex_digits(strip_hex_prefix(s))
}

/// The canonical (all-lowercase, unprefixed) account identifier named by
/// an address. Two spellings denote the same account exactly when their
/// canonical forms are equal.
pub open spec fn canonical_account(s: Seq<char>) -> Seq<char> {
    strip_hex_prefix(s).map_values(|c: char| lower_hex_digit(c))
}

/// Reading back the digit character of a value gives the value again, in
/// both cases; so lowercasing is idempotent on hexadecimal digits.
pub proof fn lemma_hex_char_value(n: u8)
    requires
        n < 16,
    ensures
        hex_digit_value(spec_hex_char(n)) == Some(n),
        hex_digit_value(spec_hex_char_upper(n)) == Some(n),
{
}

pub fn hex_digit(c: char) -> (r: bool)
    ensures
        r == is_hex_digit(c),
{
    ('0' <= c && c <= '9') || ('a' <= c && c <= 'f') || ('A' <= c && c <= 'F')
}

pub fn hex_digit_val(c: char) -> (r: u8)
    requires
        is_hex_digit(c),
    ensures
        hex_digit_value(c) == Some(r),
{
    let u = c as u32;
    if '0' <= c && c <= '9' {
        (u - 48) as u8
    } else if 'a' <= c && c <= 'f' {
        (u - 97 + 10) as u8
    } else {
        (u - 65 + 10) as u8
    }
}

pub fn hex_char(n: u8) -> (c: char)
    requires
        n < 16,
    ensures
        c == spec_hex_char(n),
{
    if n == 0 { '0' }
    else if n == 1 { '1' }
    else if n == 2 { '2' }
    else if n == 3 { '3' }
    else if n == 4 { '4' }
    else if n == 5 { '5' }
    else if n == 6 { '6' }
    else if n == 7 { '7' }
    else if n == 8 { '8' }
    else if n == 9 { '9' }
    else if n == 10 { 'a' }
    else if n == 11 { 'b' }
    else if n == 12 { 'c' }
    else if n == 13 { 'd' }
    else if n == 14 { 'e' }
    else { 'f' }
}

pub fn hex_char_upper(n: u8) -> (c: char)
    requires
        n < 16,
    ensures
        c == spec_hex_char_upper(n),
{
    if n < 10 { hex_char(n) }
    else if n == 10 { 'A' }
    else if n == 11 { 'B' }
    else if n == 12 { 'C' }
    else if n == 13 { 'D' }
    else if n == 14 { 'E' }
    else { 'F' }
}

/// Whether the string is a well-formed 20-byte hex account identifier.
pub fn is_valid_address(s: &str) -> (b: bool)
    ensures
        b == valid_address(s@),
{
    let n = s.unicode_len();
    let start: usize = if n >= 2 && s.get_char(0) == '0' && s.get_char(1) == 'x' {
        2
    } else {
        0
    };
    let ghost stripped = strip_hex_prefix(s@);
    proof {
        assert(stripped =~= s@.skip(start as int));
    }
    if n - start != 40 {
        return false;
    }
    for i in 0..40usize
        invariant
            n == s@.len(),
            start + 40 == n,
            start == 0 || start == 2,
            stripped =~= s@.skip(start as int),
            stripped.len() == 40,
            forall|j: int| 0 <= j < i ==> is_hex_digit(stripped[j]),
    {
        if !hex_digit(s.get_char(start + i)) {
            assert(stripped[i as int] == s@[start + i]);
            return false;
        }
        assert(stripped[i as int] == s@[start + i]);
    }
    true
}

} // verus!
