//! Checksums of game files.
use vstd::prelude::*;
use md5::{Digest, Md5};
use crate::error::Error;

verus! {

/// The MD5 digest of `data`.
pub uninterp spec fn md5_of(data: Seq<u8>) -> Seq<u8>;

/// The MD5 digest of `data`, as the `md-5` crate computes it
/// (`Md5::digest`): the digest of the same bytes is the same, and it is
/// 16 bytes long. Nothing more of the digest is stated.
#[verifier::external_body]
fn md5_digest(data: &[u8]) -> (r: Vec<u8>)
    ensures
        r@ == md5_of(data@),
        r@.len() == 16,
{
    Md5::digest(data).to_vec()
}

/// The lower-case hexadecimal digit of `n`, for `n` below 16.
pub open spec fn hex_digit(n: int) -> char {
    if n < 10 {
        (n + 48) as char
    } else {
        (n + 87) as char
    }
}

/// `bytes` written in lower-case hexadecimal, two digits per byte, the high
/// digit first.
pub open spec fn hex_lower(bytes: Seq<u8>) -> Seq<char>
    decreases bytes.len(),
{
    if bytes.len() == 0 {
        Seq::empty()
    } else {
        seq![hex_digit(bytes[0] as int / 16), hex_digit(bytes[0] as int % 16)] + hex_lower(bytes.drop_first())
    }
}

/// `bytes` in lower-case hexadecimal, as `hex::encode` writes them.
#[verifier::external_body]
fn hex_encode(bytes: &[u8]) -> (r: String)
    ensures
        r@ == hex_lower(bytes@),
{
    hex::encode(bytes)
}

/// The checksum of a game file: the MD5 digest of its contents in
/// lower-case hexadecimal.
pub open spec fn checksum_of(data: Seq<u8>) -> Seq<char> {
    hex_lower(md5_of(data))
}

/// The checksum of `data`: always 32 lower-case hexadecimal digits.
pub fn compute_hash(data: &[u8]) -> (r: Result<String, Error>)
    ensures
        r matches Ok(s) && s@ == checksum_of(data@),
        r matches Ok(s) && s@.len() == 32 && forall|i: int| 0 <= i < 32 ==> is_hex_digit(#[trigger] s@[i]),
{
    let digest = md5_digest(data);
    proof {
        lemma_checksum_shape(data@);
    }
    Ok(hex_encode(digest.as_slice()))
}

/// Whether `c` is a lower-case hexadecimal digit.
pub open spec fn is_hex_digit(c: char) -> bool {
    ('0' <= c && c <= '9') || ('a' <= c && c <= 'f')
}

/// Hexadecimal text has two digits per byte, and only lower-case digits.
pub proof fn lemma_hex_shape(bytes: Seq<u8>)
    ensures
        hex_lower(bytes).len() == 2 * bytes.len(),
        forall|i: int| 0 <= i < hex_lower(bytes).len() ==> is_hex_digit(#[trigger] hex_lower(bytes)[i]),
    decreases bytes.len(),
{
    if bytes.len() > 0 {
        lemma_hex_shape(bytes.drop_first());
        let b = bytes[0];
        assert(0 <= b as int / 16 < 16 && 0 <= b as int % 16 < 16);
        let head = seq![hex_digit(b as int / 16), hex_digit(b as int % 16)];
        assert(is_hex_digit(head[0]) && is_hex_digit(head[1]));
        let h = hex_lower(bytes);
        assert forall|i: int| 0 <= i < h.len() implies is_hex_digit(#[trigger] h[i]) by {
            if i >= 2 {
                assert(h[i] == hex_lower(bytes.drop_first())[i - 2]);
            }
        }
    }
}

/// Every checksum is 32 lower-case hexadecimal digits.
pub proof fn lemma_checksum_shape(data: Seq<u8>)
    requires
        md5_of(data).len() == 16,
    ensures
        checksum_of(data).len() == 32,
        forall|i: int| 0 <= i < 32 ==> is_hex_digit(#[trigger] checksum_of(data)[i]),
{
    lemma_hex_shape(md5_of(data));
}

} // verus!
