//! The spatial index: a cell is named by 15 hexadecimal digits, kept in lower case.

use crate::invest::error::ContractError;
use crate::text::{bytes_less, comes_before};
use vstd::prelude::*;
use vstd::utf8::{encode_utf8, is_ascii_chars_encode_utf8};

verus! {

/// A normalized cell identifier.
pub type R3 = String;

/// Number of hexadecimal digits in a cell identifier.
pub const R3_LEN: usize = 15;

/// `c` is one of `0-9a-f`.
pub open spec fn is_lower_hex_char(c: char) -> bool {
    ('0' <= c && c <= '9') || ('a' <= c && c <= 'f')
}

/// `c` is one of `0-9a-fA-F`.
pub open spec fn is_hex_char(c: char) -> bool {
    is_lower_hex_char(c) || ('A' <= c && c <= 'F')
}

/// The ASCII lower-case form of `c`: `A-Z` move to `a-z`, every other character stays.
pub open spec fn ascii_lower(c: char) -> char {
    if 'A' <= c && c <= 'Z' {
        ((c as u32) + 32) as char
    } else {
        c
    }
}

/// Every character of `s` is a lower-case hexadecimal digit.
pub open spec fn is_hex_spec(s: Seq<char>) -> bool {
    forall|i: int| 0 <= i < s.len() ==> is_lower_hex_char(#[trigger] s[i])
}

/// `s` is a normalized cell identifier: 15 lower-case hexadecimal digits.
pub open spec fn is_r3(s: Seq<char>) -> bool {
    s.len() == R3_LEN && is_hex_spec(s)
}

/// `s` is accepted as a cell identifier: 15 hexadecimal digits in either case.
pub open spec fn is_r3_input(s: Seq<char>) -> bool {
    s.len() == R3_LEN && forall|i: int| 0 <= i < s.len() ==> is_hex_char(#[trigger] s[i])
}

/// The lower-case form of a whole string.
pub open spec fn lower(s: Seq<char>) -> Seq<char> {
    s.map_values(|c: char| ascii_lower(c))
}

/// `str::to_ascii_lowercase` of the standard library: a copy of `s` in which the
/// letters `A-Z` are replaced by `a-z` and all other characters are kept.
#[verifier::external_body]
fn to_ascii_lowercase(s: &str) -> (out: String)
    ensures
        out@ == lower(s@),
{
    s.to_ascii_lowercase()
}

/// Whether every character of `input` is a lower-case hexadecimal digit.
pub fn is_hex(input: &str) -> (b: bool)
    ensures
        b == is_hex_spec(input@),
{
    let n = input.unicode_len();
    let mut i: usize = 0;
    while i < n
        invariant
            n == input@.len(),
            i <= n,
            forall|j: int| 0 <= j < i ==> is_lower_hex_char(#[trigger] input@[j]),
        decreases n - i,
    {
        let c = input.get_char(i);
        if !((c >= '0' && c <= '9') || (c >= 'a' && c <= 'f')) {
            return false;
        }
        i += 1;
    }
    true
}

/// The value of one lower-case hexadecimal digit.
pub open spec fn hex_digit(c: char) -> nat {
    if '0' <= c && c <= '9' {
        (c as nat - '0' as nat) as nat
    } else {
        (c as nat - 'a' as nat + 10) as nat
    }
}

/// The number that a string of lower-case hexadecimal digits writes, most
/// significant digit first. Cells are ordered by it.
pub open spec fn r3_value(s: Seq<char>) -> nat
    decreases s.len(),
{
    if s.len() == 0 {
        0
    } else {
        r3_value(s.drop_last()) * 16 + hex_digit(s.last())
    }
}

/// `16^n`.
pub open spec fn pow16(n: nat) -> nat
    decreases n,
{
    if n == 0 {
        1
    } else {
        16 * pow16((n - 1) as nat)
    }
}

/// A string of `n` hexadecimal digits writes a number below `16^n`.
pub proof fn lemma_r3_value_bound(s: Seq<char>)
    requires
        is_hex_spec(s),
    ensures
        r3_value(s) < pow16(s.len()),
    decreases s.len(),
{
    if s.len() > 0 {
        lemma_r3_value_bound(s.drop_last());
    }
}

/// The number of a cell identifier fits in 60 bits.
pub proof fn lemma_r3_value_fits(s: Seq<char>)
    requires
        is_r3(s),
    ensures
        r3_value(s) < 0x1000_0000_0000_0000,
{
    lemma_r3_value_bound(s);
    assert(pow16(15) == 0x1000_0000_0000_0000) by {
        reveal_with_fuel(pow16, 16);
    }
}

/// Two digit strings of one length that write the same number are the same string.
pub proof fn lemma_r3_value_injective(a: Seq<char>, b: Seq<char>)
    requires
        is_hex_spec(a),
        is_hex_spec(b),
        a.len() == b.len(),
        r3_value(a) == r3_value(b),
    ensures
        a == b,
    decreases a.len(),
{
    if a.len() > 0 {
        lemma_r3_value_injective(a.drop_last(), b.drop_last());
        assert(a =~= a.drop_last().push(a.last()));
    }
}

/// The number of a digit string is the value of its first digit, shifted to
/// its place, plus the number of the rest.
pub proof fn lemma_r3_value_front(s: Seq<char>)
    requires
        s.len() > 0,
    ensures
        r3_value(s) == hex_digit(s.first()) * pow16((s.len() - 1) as nat) + r3_value(
            s.drop_first(),
        ),
    decreases s.len(),
{
    let d = hex_digit(s.first());
    if s.len() == 1 {
        assert(s.drop_last() =~= Seq::<char>::empty());
        assert(s.drop_first() =~= Seq::<char>::empty());
        assert(d * pow16(0) == d) by (nonlinear_arith)
            requires
                pow16(0) == 1,
        ;
    } else {
        let front = s.drop_last();
        lemma_r3_value_front(front);
        let mid = front.drop_first();
        assert(s.drop_first().drop_last() =~= mid);
        let p = pow16((s.len() - 2) as nat);
        assert((d * p + r3_value(mid)) * 16 == d * (16 * p) + r3_value(mid) * 16)
            by (nonlinear_arith);
    }
}

/// The bytes of a text of ASCII characters: one byte for each character.
pub open spec fn ascii_bytes(s: Seq<char>) -> Seq<u8> {
    Seq::new(s.len(), |i: int| s[i] as u8)
}

/// Among digit strings of one length, the one with the smaller number comes
/// first in the order of their bytes.
pub proof fn lemma_value_order_is_byte_order(a: Seq<char>, b: Seq<char>)
    requires
        is_hex_spec(a),
        is_hex_spec(b),
        a.len() == b.len(),
    ensures
        (r3_value(a) < r3_value(b)) == bytes_less(ascii_bytes(a), ascii_bytes(b)),
    decreases a.len(),
{
    if a.len() > 0 {
        let n = (a.len() - 1) as nat;
        let p = pow16(n);
        let da = hex_digit(a.first());
        let db = hex_digit(b.first());
        lemma_r3_value_front(a);
        lemma_r3_value_front(b);
        lemma_r3_value_bound(a.drop_first());
        lemma_r3_value_bound(b.drop_first());
        if a[0] != b[0] {
            if da < db {
                assert((da + 1) * p <= db * p) by (nonlinear_arith)
                    requires
                        da + 1 <= db,
                        p >= 0,
                ;
                assert((da + 1) * p == da * p + p) by (nonlinear_arith);
            } else {
                assert((db + 1) * p <= da * p) by (nonlinear_arith)
                    requires
                        db + 1 <= da,
                        p >= 0,
                ;
                assert((db + 1) * p == db * p + p) by (nonlinear_arith);
            }
        } else {
            assert(ascii_bytes(a).drop_first() =~= ascii_bytes(a.drop_first()));
            assert(ascii_bytes(b).drop_first() =~= ascii_bytes(b.drop_first()));
            lemma_value_order_is_byte_order(a.drop_first(), b.drop_first());
        }
    }
}

/// Cells are ordered by their numbers as they are ordered as texts, which is
/// the order of the keys under which they are stored.
pub proof fn lemma_cell_order_is_text_order(a: Seq<char>, b: Seq<char>)
    requires
        is_r3(a),
        is_r3(b),
    ensures
        (r3_value(a) < r3_value(b)) == comes_before(a, b),
{
    is_ascii_chars_encode_utf8(a);
    is_ascii_chars_encode_utf8(b);
    assert(encode_utf8(a) =~= ascii_bytes(a));
    assert(encode_utf8(b) =~= ascii_bytes(b));
    lemma_value_order_is_byte_order(a, b);
}

/// The number of a cell identifier.
pub fn r3_index(hex: &str) -> (v: u64)
    requires
        is_r3(hex@),
    ensures
        v == r3_value(hex@),
        v < 0x1000_0000_0000_0000,
{
    proof {
        lemma_r3_value_fits(hex@);
    }
    let mut acc: u64 = 0;
    let mut i: usize = 0;
    while i < R3_LEN
        invariant
            i <= R3_LEN,
            is_r3(hex@),
            acc == r3_value(hex@.take(i as int)),
        decreases R3_LEN - i,
    {
        let c = hex.get_char(i);
        let d: u64 = if c <= '9' {
            (c as u64) - ('0' as u64)
        } else {
            (c as u64) - ('a' as u64) + 10
        };
        proof {
            let next = hex@.take(i as int + 1);
            assert(next.drop_last() =~= hex@.take(i as int));
            lemma_r3_value_bound(next);
            lemma_pow16_monotone(next.len(), 15);
            assert(pow16(15) == 0x1000_0000_0000_0000) by {
                reveal_with_fuel(pow16, 16);
            }
        }
        acc = acc * 16 + d;
        i += 1;
    }
    assert(hex@.take(R3_LEN as int) =~= hex@);
    acc
}

/// `16^n` grows with `n`.
pub proof fn lemma_pow16_monotone(m: nat, n: nat)
    requires
        m <= n,
    ensures
        pow16(m) <= pow16(n),
    decreases n,
{
    if m < n {
        lemma_pow16_monotone(m, (n - 1) as nat);
    }
}

/// A string accepted as a cell identifier normalizes to a cell identifier.
pub proof fn lemma_lower_of_input_is_r3(s: Seq<char>)
    requires
        is_r3_input(s),
    ensures
        is_r3(lower(s)),
{
}

/// Accepts exactly the strings of 15 hexadecimal digits, in either case, and
/// returns them in lower case; any other string comes back in `InvalidR3`.
pub fn validate_r3(input: String) -> (r: Result<R3, ContractError>)
    ensures
        is_r3_input(input@) ==> (r matches Ok(hex) && hex@ == lower(input@) && is_r3(hex@)),
        !is_r3_input(input@) ==> (r matches Err(ContractError::InvalidR3(s)) && s@ == input@),
{
    let n = input.as_str().unicode_len();
    if n != R3_LEN {
        return Err(ContractError::InvalidR3(input));
    }
    let mut i: usize = 0;
    while i < n
        invariant
            n == input@.len(),
            i <= n,
            forall|j: int| 0 <= j < i ==> is_hex_char(#[trigger] input@[j]),
        decreases n - i,
    {
        let c = input.as_str().get_char(i);
        if !((c >= '0' && c <= '9') || (c >= 'a' && c <= 'f') || (c >= 'A' && c <= 'F')) {
            return Err(ContractError::InvalidR3(input));
        }
        i += 1;
    }
    proof {
        lemma_lower_of_input_is_r3(input@);
    }
    Ok(to_ascii_lowercase(input.as_str()))
}

} // verus!
