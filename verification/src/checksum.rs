//! SHA-256 checksums of telemetry files, in lowercase hexadecimal.

use vstd::prelude::*;
use crate::text::str_eq;
use sha2::Digest;

verus! {

/// The lowercase hexadecimal digit of a value below sixteen.
pub open spec fn hex_char(n: nat) -> char {
    if n < 10 {
        (48 + n) as char
    } else {
        (87 + n) as char
    }
}

/// Lowercase hexadecimal text of a byte sequence, two digits per byte,
/// high nibble first.
pub open spec fn hex_chars(bytes: Seq<u8>) -> Seq<char>
    decreases bytes.len(),
{
    if bytes.len() == 0 {
        Seq::empty()
    } else {
        let last = bytes.last();
        hex_chars(bytes.drop_last()).push(hex_char((last / 16) as nat)).push(
            hex_char((last % 16) as nat),
        )
    }
}

/// The SHA-256 digest of a byte sequence.
pub uninterp spec fn sha256_digest(data: Seq<u8>) -> Seq<u8>;

/// Calls `sha2::Sha256::digest` (through the `Digest` trait) on `data`.
/// The contract claims only that the result is the SHA-256 digest of the input,
/// named `sha256_digest`, and that it is 32 bytes long (the output type of
/// `Sha256` is a 32-byte array).
#[verifier::external_body]
fn sha256(data: &[u8]) -> (d: Vec<u8>)
    ensures
        d@ == sha256_digest(data@),
        d@.len() == 32,
{
    sha2::Sha256::digest(data).to_vec()
}

/// A one-character string holding the given hexadecimal digit.
fn hex_str(n: u8) -> (s: &'static str)
    requires
        n < 16,
    ensures
        s@ == seq![hex_char(n as nat)],
{
    proof {
        reveal_strlit("0");
        reveal_strlit("1");
        reveal_strlit("2");
        reveal_strlit("3");
        reveal_strlit("4");
        reveal_strlit("5");
        reveal_strlit("6");
        reveal_strlit("7");
        reveal_strlit("8");
        reveal_strlit("9");
        reveal_strlit("a");
        reveal_strlit("b");
        reveal_strlit("c");
        reveal_strlit("d");
        reveal_strlit("e");
        reveal_strlit("f");
    }
    match n {
        0 => "0",
        1 => "1",
        2 => "2",
        3 => "3",
        4 => "4",
        5 => "5",
        6 => "6",
        7 => "7",
        8 => "8",
        9 => "9",
        10 => "a",
        11 => "b",
        12 => "c",
        13 => "d",
        14 => "e",
        _ => "f",
    }
}

/// Encodes bytes as lowercase hexadecimal text.
pub fn to_hex(bytes: &[u8]) -> (s: String)
    ensures
        s@ == hex_chars(bytes@),
{
    let mut s = String::new();
    let mut i: usize = 0;
    while i < bytes.len()
        invariant
            0 <= i <= bytes.len(),
            s@ == hex_chars(bytes@.take(i as int)),
        decreases bytes.len() - i,
    {
        let b = bytes[i];
        s.append(hex_str(b / 16));
        s.append(hex_str(b % 16));
        proof {
            assert(bytes@.take(i + 1).drop_last() =~= bytes@.take(i as int));
        }
        i = i + 1;
    }
    proof {
        assert(bytes@.take(bytes.len() as int) =~= bytes@);
    }
    s
}

/// The checksum text of a file's contents: the lowercase hexadecimal
/// SHA-256 digest.
pub open spec fn checksum_of(data: Seq<u8>) -> Seq<char> {
    hex_chars(sha256_digest(data))
}

/// Hexadecimal text has two digits per byte.
pub proof fn lemma_hex_chars_len(bytes: Seq<u8>)
    ensures
        hex_chars(bytes).len() == 2 * bytes.len(),
    decreases bytes.len(),
{
    if bytes.len() > 0 {
        lemma_hex_chars_len(bytes.drop_last());
    }
}

/// Computes the SHA-256 checksum of a file's contents as lowercase hex:
/// 64 digits.
pub fn compute_checksum(data: &[u8]) -> (s: String)
    ensures
        s@ == checksum_of(data@),
        s@.len() == 64,
{
    let d = sha256(data);
    proof {
        lemma_hex_chars_len(d@);
    }
    to_hex(d.as_slice())
}

/// Checks a file's contents against an expected SHA-256 checksum.
pub fn validate_checksum(data: &[u8], expected: &str) -> (r: bool)
    ensures
        r == (checksum_of(data@) == expected@),
{
    let actual = compute_checksum(data);
    str_eq(actual.as_str(), expected)
}

} // verus!
