//! A small DER length-prefixed TLV encoder.
//!
//! DER length encoding follows the short-form / long-form rule: below 128
//! the length is a single byte; from 128 to 255 it is `0x81` followed by one
//! byte; from 256 it is `0x82` followed by the big-endian 16-bit length.
//! Everything this crate encodes stays below 65536 bytes.

use vstd::prelude::*;

verus! {

/// The DER encoding of a length below 65536.
pub open spec fn der_len_encoding(n: int) -> Seq<u8> {
    if n < 128 {
        seq![n as u8]
    } else if n < 256 {
        seq![0x81u8, n as u8]
    } else {
        seq![0x82u8, (n / 256) as u8, (n % 256) as u8]
    }
}

/// A whole tag-length-value triple.
pub open spec fn der_tlv(tag: u8, content: Seq<u8>) -> Seq<u8> {
    seq![tag] + der_len_encoding(content.len() as int) + content
}

/// A DER element's header is consistent with what follows it: the byte
/// sequence starts with the tag, and the length its header declares equals
/// the count of remaining bytes, whichever of the three forms is used.
pub open spec fn der_header_matches(s: Seq<u8>, tag: u8) -> bool {
    &&& s.len() >= 2
    &&& s[0] == tag
    &&& if s[1] < 128 {
        s.len() == 2 + s[1]
    } else if s[1] == 0x81 {
        s.len() >= 3 && s.len() == 3 + s[2]
    } else {
        s[1] == 0x82 && s.len() >= 4 && s.len() == 4 + 256 * s[2] + s[3]
    }
}

/// Every TLV this encoder produces declares exactly the number of bytes
/// that follow its header.
pub proof fn lemma_der_tlv_header_matches(tag: u8, content: Seq<u8>)
    requires
        content.len() < 65536,
    ensures
        der_header_matches(der_tlv(tag, content), tag),
{
    let n = content.len() as int;
    let s = der_tlv(tag, content);
    if n < 128 {
        assert(s[1] == n as u8);
    } else if n < 256 {
        assert(s[1] == 0x81);
        assert(s[2] == n as u8);
    } else {
        assert(s[1] == 0x82);
        assert(s[2] == (n / 256) as u8);
        assert(s[3] == (n % 256) as u8);
        assert(256 * ((n / 256) as u8) + ((n % 256) as u8) == n);
    }
}

/// Builder for DER byte strings: a plain byte buffer with the three
/// primitive pushes.
pub struct TlvBuilder {
    /// The bytes written so far.
    pub bytes: Vec<u8>,
}

impl TlvBuilder {
    /// An empty builder.
    pub fn new() -> (r: TlvBuilder)
        ensures
            r.bytes@ == Seq::<u8>::empty(),
    {
        TlvBuilder { bytes: Vec::new() }
    }

    /// Append a raw tag byte.
    pub fn push_tag(&mut self, tag: u8)
        ensures
            final(self).bytes@ == old(self).bytes@ + seq![tag],
    {
        self.bytes.push(tag);
    }

    /// Append the DER encoding of a length.
    pub fn push_length(&mut self, len: usize)
        requires
            len < 65536,
        ensures
            final(self).bytes@ == old(self).bytes@ + der_len_encoding(len as int),
    {
        if len < 128 {
            self.bytes.push(len as u8);
        } else if len < 256 {
            self.bytes.push(0x81);
            self.bytes.push(len as u8);
        } else {
            self.bytes.push(0x82);
            self.bytes.push((len / 256) as u8);
            self.bytes.push((len % 256) as u8);
        }
        proof {
            assert(self.bytes@ =~= old(self).bytes@ + der_len_encoding(len as int));
        }
    }

    /// Append raw content bytes.
    pub fn push_bytes(&mut self, b: &[u8])
        ensures
            final(self).bytes@ == old(self).bytes@ + b@,
    {
        self.bytes.extend_from_slice(b);
    }

    /// Hand the accumulated bytes out.
    pub fn into_vec(self) -> (r: Vec<u8>)
        ensures
            r@ == self.bytes@,
    {
        self.bytes
    }
}

/// Wrap content in a tag-length-value triple.
pub fn wrap_tlv(tag: u8, content: Vec<u8>) -> (r: Vec<u8>)
    requires
        content@.len() < 65536,
    ensures
        r@ == der_tlv(tag, content@),
{
    let mut b = TlvBuilder::new();
    b.push_tag(tag);
    b.push_length(content.len());
    b.push_bytes(content.as_slice());
    proof {
        assert(b.bytes@ =~= der_tlv(tag, content@));
    }
    b.into_vec()
}

} // verus!
