//! Trusted wrappers around the outside hashing and encoding crates.
//!
//! SHA-256 digests are named by the uninterpreted function [`sha256_of`]:
//! the digest is a function of the input bytes alone, but its value is not
//! written out here.  Hex encoding is fully specified by [`hex_of`].

use vstd::prelude::*;

verus! {

/// The SHA-256 digest of a byte sequence.  The digest is a pure function of
/// the input; its value is stated nowhere in this crate.
pub uninterp spec fn sha256_of(data: Seq<u8>) -> Seq<u8>;

/// Relies on sha2::Sha256 (via the Digest trait): the digest depends on the
/// input bytes alone and is always 32 bytes long.
#[verifier::external_body]
pub fn sha256_digest(data: &[u8]) -> (r: Vec<u8>)
    ensures
        r@ == sha256_of(data@),
        r@.len() == 32,
{
    <sha2::Sha256 as sha2::Digest>::digest(data).to_vec()
}

/// The lowercase hex digit for a value below 16.
pub open spec fn hex_digit(n: u8) -> char {
    if n == 0 { '0' } else if n == 1 { '1' } else if n == 2 { '2' }
    else if n == 3 { '3' } else if n == 4 { '4' } else if n == 5 { '5' }
    else if n == 6 { '6' } else if n == 7 { '7' } else if n == 8 { '8' }
    else if n == 9 { '9' } else if n == 10 { 'a' } else if n == 11 { 'b' }
    else if n == 12 { 'c' } else if n == 13 { 'd' } else if n == 14 { 'e' }
    else { 'f' }
}

/// Lowercase hex encoding: two digits per byte, high nibble first.
pub open spec fn hex_of(data: Seq<u8>) -> Seq<char>
    decreases data.len(),
{
    if data.len() == 0 {
        Seq::<char>::empty()
    } else {
        seq![hex_digit(data.first() / 16), hex_digit(data.first() % 16)]
            + hex_of(data.drop_first())
    }
}

/// Length of a hex encoding: two characters per input byte.
pub proof fn lemma_hex_of_len(data: Seq<u8>)
    ensures
        hex_of(data).len() == 2 * data.len(),
    decreases data.len(),
{
    if data.len() > 0 {
        lemma_hex_of_len(data.drop_first());
    }
}

/// Relies on hex::encode: lowercase hex, two digits per byte, high nibble
/// first.
#[verifier::external_body]
pub fn hex_encode(data: &[u8]) -> (r: String)
    ensures
        r@ == hex_of(data@),
{
    hex::encode(data)
}

/// Relies on uuid::Uuid::new_v4: a freshly drawn random 128-bit value with
/// the version and variant bits forced.  Nothing is promised of the value;
/// two calls may or may not differ.
#[verifier::external_body]
pub fn random_u128() -> u128 {
    uuid::Uuid::new_v4().as_u128()
}

/// One big-endian byte of a 64-bit value; index 0 is the most significant.
pub open spec fn be_byte_of_u64(v: u64, i: int) -> u8 {
    ((v >> (8 * (7 - i)) as u64) & 0xff) as u8
}

/// The 8 big-endian bytes of a 64-bit value.
pub open spec fn be_bytes_of_u64(v: u64) -> Seq<u8> {
    Seq::new(8, |i: int| be_byte_of_u64(v, i))
}

/// Big-endian byte extraction of a 64-bit value.
pub fn u64_to_be_bytes(v: u64) -> (r: Vec<u8>)
    ensures
        r@ == be_bytes_of_u64(v),
{
    let mut out: Vec<u8> = Vec::new();
    let mut i: usize = 0;
    while i < 8
        invariant
            i <= 8,
            out@.len() == i,
            forall|j: int| 0 <= j < i ==> out@[j] == be_byte_of_u64(v, j),
        decreases 8 - i,
    {
        let shift: u32 = (8 * (7 - i)) as u32;
        out.push(((v >> shift) & 0xff) as u8);
        i = i + 1;
    }
    proof {
        assert(out@ =~= be_bytes_of_u64(v));
    }
    out
}

/// One big-endian byte of a 128-bit value; index 0 is the most significant.
pub open spec fn be_byte_of_u128(v: u128, i: int) -> u8 {
    ((v >> (8 * (15 - i)) as u128) & 0xff) as u8
}

/// The 16 big-endian bytes of a 128-bit value.
pub open spec fn be_bytes_of_u128(v: u128) -> Seq<u8> {
    Seq::new(16, |i: int| be_byte_of_u128(v, i))
}

/// Big-endian byte extraction of a 128-bit value.
pub fn u128_to_be_bytes(v: u128) -> (r: Vec<u8>)
    ensures
        r@ == be_bytes_of_u128(v),
{
    let mut out: Vec<u8> = Vec::new();
    let mut i: usize = 0;
    while i < 16
        invariant
            i <= 16,
            out@.len() == i,
            forall|j: int| 0 <= j < i ==> out@[j] == be_byte_of_u128(v, j),
        decreases 16 - i,
    {
        let shift: u32 = (8 * (15 - i)) as u32;
        out.push(((v >> shift) & 0xff) as u8);
        i = i + 1;
    }
    proof {
        assert(out@ =~= be_bytes_of_u128(v));
    }
    out
}

} // verus!
