//! Calls into outside crates that the upload logic needs: content hashing,
//! file-name encoding, task identifiers, and decimal rendering. Each call
//! stands behind a contract; the named results are functions of the
//! arguments alone.
use vstd::prelude::*;

verus! {

/// The lowercase hex rendering of the SHA1 digest of a byte sequence:
/// 40 hex characters.
pub uninterp spec fn sha1_hex_of(data: Seq<u8>) -> Seq<char>;

/// Relies on sha1_smol::Sha1: the digest of a byte buffer depends on the
/// bytes alone, and its display form is 40 lowercase hex characters.
#[verifier::external_body]
pub(crate) fn sha1_hex(data: &[u8]) -> (r: String)
    ensures
        r@ == sha1_hex_of(data@),
        r@.len() == 40,
{
    sha1_smol::Sha1::from(data).digest().to_string()
}

/// The percent-encoding of a string: every byte but alphanumerics and
/// `-`, `_`, `.`, `~` escaped.
pub uninterp spec fn url_encoded_of(s: Seq<char>) -> Seq<char>;

/// Relies on urlencoding::encode: the encoding depends on the characters
/// alone, and an empty string stays empty.
#[verifier::external_body]
pub(crate) fn url_encode(s: &str) -> (r: String)
    ensures
        r@ == url_encoded_of(s@),
        s@.len() == 0 ==> r@.len() == 0,
{
    urlencoding::encode(s).into_owned()
}

/// Relies on rand::random for a fresh task identifier; nothing is promised
/// of the value.
#[verifier::external_body]
pub(crate) fn random_id() -> u64 {
    rand::random()
}

/// The character of one decimal digit.
pub open spec fn dec_digit_char(d: int) -> char {
    if d == 0 {
        '0'
    } else if d == 1 {
        '1'
    } else if d == 2 {
        '2'
    } else if d == 3 {
        '3'
    } else if d == 4 {
        '4'
    } else if d == 5 {
        '5'
    } else if d == 6 {
        '6'
    } else if d == 7 {
        '7'
    } else if d == 8 {
        '8'
    } else {
        '9'
    }
}

/// The decimal digits of a non-negative integer, most significant first.
pub open spec fn spec_u64_dec(n: int) -> Seq<char>
    recommends
        n >= 0,
    decreases n,
{
    if n < 10 {
        seq![dec_digit_char(n)]
    } else {
        spec_u64_dec(n / 10).push(dec_digit_char(n % 10))
    }
}

/// Relies on u64's Display implementation: the decimal rendering of the
/// value, without sign or padding.
#[verifier::external_body]
pub(crate) fn u64_to_string(v: u64) -> (r: String)
    ensures
        r@ == spec_u64_dec(v as int),
{
    v.to_string()
}

} // verus!
