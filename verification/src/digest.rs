//! Content-addressed digests for captured snapshots: an MD5 digest of the
//! raw bytes, hex-encoded in lowercase, used as the stored object's name so
//! that identical captures collapse onto one key.

use vstd::prelude::*;

verus! {

/// The 16 bytes that the MD5 algorithm produces for the given input bytes.
/// Named rather than written out: the algorithm runs inside the `md5` crate.
pub uninterp spec fn md5_of(bytes: Seq<u8>) -> Seq<u8>;

/// Relies on `md5::compute`: the digest depends on the input bytes alone
/// and is always 16 bytes long.
#[verifier::external_body]
fn md5_digest(bytes: &Vec<u8>) -> (r: Vec<u8>)
    ensures
        r@ == md5_of(bytes@),
        r@.len() == 16,
{
    md5::compute(bytes.as_slice()).0.to_vec()
}

/// The lowercase hex digit for a nibble value.
pub open spec fn hex_digit_char(n: u8) -> char
    recommends
        n < 16,
{
    if n == 0 {
        '0'
    } else if n == 1 {
        '1'
    } else if n == 2 {
        '2'
    } else if n == 3 {
        '3'
    } else if n == 4 {
        '4'
    } else if n == 5 {
        '5'
    } else if n == 6 {
        '6'
    } else if n == 7 {
        '7'
    } else if n == 8 {
        '8'
    } else if n == 9 {
        '9'
    } else if n == 10 {
        'a'
    } else if n == 11 {
        'b'
    } else if n == 12 {
        'c'
    } else if n == 13 {
        'd'
    } else if n == 14 {
        'e'
    } else {
        'f'
    }
}

/// The lowercase hex digit character for a nibble value.
pub fn hex_digit(n: u8) -> (r: char)
    requires
        n < 16,
    ensures
        r == hex_digit_char(n),
{
    if n == 0 {
        '0'
    } else if n == 1 {
        '1'
    } else if n == 2 {
        '2'
    } else if n == 3 {
        '3'
    } else if n == 4 {
        '4'
    } else if n == 5 {
        '5'
    } else if n == 6 {
        '6'
    } else if n == 7 {
        '7'
    } else if n == 8 {
        '8'
    } else if n == 9 {
        '9'
    } else if n == 10 {
        'a'
    } else if n == 11 {
        'b'
    } else if n == 12 {
        'c'
    } else if n == 13 {
        'd'
    } else if n == 14 {
        'e'
    } else {
        'f'
    }
}

/// Two lowercase hex digits for each byte, high nibble first.
pub open spec fn hex_chars_of(bytes: Seq<u8>) -> Seq<char>
    decreases bytes.len(),
{
    if bytes.len() == 0 {
        Seq::empty()
    } else {
        seq![hex_digit_char(bytes[0] / 16), hex_digit_char(bytes[0] % 16)]
            + hex_chars_of(bytes.drop_first())
    }
}

/// Relies on `hex::encode`: two lowercase hex digits per input byte, high
/// nibble first.
#[verifier::external_body]
fn hex_lower(bytes: &Vec<u8>) -> (r: String)
    ensures
        r@ == hex_chars_of(bytes@),
{
    hex::encode(bytes.as_slice())
}

/// The content digest a capture's bytes map to: lowercase hex of MD5.
pub open spec fn digest_spec(bytes: Seq<u8>) -> Seq<char> {
    hex_chars_of(md5_of(bytes))
}

/// Hex encoding yields exactly two characters per byte.
pub proof fn lemma_hex_chars_len(bytes: Seq<u8>)
    ensures
        hex_chars_of(bytes).len() == 2 * bytes.len(),
    decreases bytes.len(),
{
    if bytes.len() != 0 {
        lemma_hex_chars_len(bytes.drop_first());
    }
}

/// Content digest of a captured image: 32 lowercase hex characters.
pub fn digest(bytes: &Vec<u8>) -> (r: String)
    ensures
        r@ == digest_spec(bytes@),
        r@.len() == 32,
{
    let d = md5_digest(bytes);
    let h = hex_lower(&d);
    proof {
        lemma_hex_chars_len(d@);
    }
    h
}

/// Law: the digest is a pure function of the payload. Identical byte
/// payloads give identical digests, on whichever call and in whichever run
/// they are computed.
pub proof fn lemma_digest_deterministic(a: Seq<u8>, b: Seq<u8>)
    requires
        a == b,
    ensures
        digest_spec(a) == digest_spec(b),
{
}

} // verus!
