//! The deterministic digest of a record's raw payload string.
//!
//! The row hash persisted in the ledger is the decimal rendering of the
//! 64-bit value that `std`'s `DefaultHasher` yields for the payload string
//! exactly as ingested, or the sentinel `"None"` when the record carries no
//! payload string.

use vstd::prelude::*;
use vstd::string::StringExecFns;
use vstd::std_specs::hash::DefaultHasherAdditionalSpecFns;
use std::collections::hash_map::DefaultHasher;
use std::hash::Hasher;

verus! {

/// The 64-bit digest of one payload string: what `DefaultHasher` yields
/// after one write of the string's bytes and one write of the terminator
/// byte that `str`'s `Hash` impl appends.
pub open spec fn payload_digest(data: Seq<char>) -> u64 {
    DefaultHasher::spec_finish(
        seq![vstd::utf8::encode_utf8(data), seq![0xffu8]],
    )
}

/// The decimal digit character for `d` (meaningful for `0 <= d < 10`).
pub open spec fn dec_digit(d: int) -> char {
    if d == 0 {
        '0'
    } else if d == 1 {
        '1'
    } else if d == 2 {
        '2'
    } else if d == 3 {
        '3'
    } else if d == 4 {
        '4'
    } else if d == 5 {
        '5'
    } else if d == 6 {
        '6'
    } else if d == 7 {
        '7'
    } else if d == 8 {
        '8'
    } else {
        '9'
    }
}

/// The decimal rendering of a nonnegative integer, most significant digit
/// first, with no leading zeros (a single `'0'` for zero).
pub open spec fn dec_str(n: int) -> Seq<char>
    decreases n,
{
    if n < 10 {
        seq![dec_digit(n)]
    } else {
        dec_str(n / 10).push(dec_digit(n % 10))
    }
}

/// The row-hash string of an optional payload string: the digest's decimal
/// rendering, or the sentinel `"None"` when the payload string is absent.
pub open spec fn spec_row_hash(data: Option<Seq<char>>) -> Seq<char> {
    match data {
        Some(d) => dec_str(payload_digest(d) as int),
        None => "None"@,
    }
}

/// The one-character string of one decimal digit.
fn digit_str(d: u64) -> (r: &'static str)
    requires
        d < 10,
    ensures
        r@ =~= seq![dec_digit(d as int)],
{
    proof {
        reveal_strlit("0");
        reveal_strlit("1");
        reveal_strlit("2");
        reveal_strlit("3");
        reveal_strlit("4");
        reveal_strlit("5");
        reveal_strlit("6");
        reveal_strlit("7");
        reveal_strlit("8");
        reveal_strlit("9");
    }
    match d {
        0 => "0",
        1 => "1",
        2 => "2",
        3 => "3",
        4 => "4",
        5 => "5",
        6 => "6",
        7 => "7",
        8 => "8",
        _ => "9",
    }
}

/// Renders a 64-bit value in decimal.
pub fn u64_to_dec(n: u64) -> (r: String)
    ensures
        r@ == dec_str(n as int),
    decreases n,
{
    if n < 10 {
        String::from_str(digit_str(n))
    } else {
        let mut s = u64_to_dec(n / 10);
        s.append(digit_str(n % 10));
        s
    }
}

/// The 64-bit digest of a payload string.
pub fn digest_of_str(data: &str) -> (r: u64)
    ensures
        r == payload_digest(data@),
{
    let mut hasher = DefaultHasher::new();
    hasher.write(data.as_bytes());
    let mut terminator: Vec<u8> = Vec::new();
    terminator.push(0xffu8);
    hasher.write(terminator.as_slice());
    proof {
        assert(hasher@ =~= seq![vstd::utf8::encode_utf8(data@), seq![0xffu8]]);
    }
    hasher.finish()
}

/// The row-hash string of an optional payload string.
pub fn row_hash_string(data: &Option<String>) -> (r: String)
    ensures
        r@ == spec_row_hash(data.deep_view()),
{
    match data {
        Some(d) => u64_to_dec(digest_of_str(d.as_str())),
        None => String::from_str("None"),
    }
}

} // verus!
