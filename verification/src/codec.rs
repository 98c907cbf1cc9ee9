//! Wire format of a temperature datagram: a payload of exactly four bytes
//! carrying one big-endian IEEE-754 single-precision reading, with no header,
//! sequence number or checksum. The codec works on the 32-bit pattern; it
//! never interprets it as a number.

use vstd::prelude::*;

verus! {

/// Number of payload bytes in a well-formed temperature datagram.
pub const READING_LEN: usize = 4;

/// The 32-bit pattern that four big-endian payload bytes encode.
pub open spec fn spec_decode(b: Seq<u8>) -> u32
    recommends
        b.len() == READING_LEN,
{
    ((b[0] as u32) << 24) | ((b[1] as u32) << 16) | ((b[2] as u32) << 8) | (b[3] as u32)
}

/// The four big-endian payload bytes that encode a 32-bit pattern.
pub open spec fn spec_encode(bits: u32) -> Seq<u8> {
    seq![
        ((bits >> 24) & 0xff) as u8,
        ((bits >> 16) & 0xff) as u8,
        ((bits >> 8) & 0xff) as u8,
        (bits & 0xff) as u8,
    ]
}

/// Decode a well-formed payload into the reading's bit pattern.
pub fn decode_reading(b: &[u8]) -> (r: u32)
    requires
        b@.len() == READING_LEN,
    ensures
        r == spec_decode(b@),
{
    ((b[0] as u32) << 24) | ((b[1] as u32) << 16) | ((b[2] as u32) << 8) | (b[3] as u32)
}

/// Encode a reading's bit pattern as the four payload bytes of a datagram.
pub fn encode_reading(bits: u32) -> (r: Vec<u8>)
    ensures
        r@ == spec_encode(bits),
{
    let mut r: Vec<u8> = Vec::new();
    r.push(((bits >> 24) & 0xff) as u8);
    r.push(((bits >> 16) & 0xff) as u8);
    r.push(((bits >> 8) & 0xff) as u8);
    r.push((bits & 0xff) as u8);
    proof {
        assert(r@ =~= spec_encode(bits));
    }
    r
}

/// Law: decoding an encoded reading yields the reading back.
pub proof fn lemma_decode_of_encode(bits: u32)
    ensures
        spec_decode(spec_encode(bits)) == bits,
{
    assert(((((bits >> 24) & 0xff) as u8 as u32) << 24) | ((((bits >> 16) & 0xff) as u8 as u32)
        << 16) | ((((bits >> 8) & 0xff) as u8 as u32) << 8) | ((bits & 0xff) as u8 as u32)
        == bits) by (bit_vector);
}

/// Law: encoding a decoded well-formed payload yields the payload back.
pub proof fn lemma_encode_of_decode(b: Seq<u8>)
    requires
        b.len() == READING_LEN,
    ensures
        spec_encode(spec_decode(b)) == b,
{
    let b0 = b[0];
    let b1 = b[1];
    let b2 = b[2];
    let b3 = b[3];
    let x = spec_decode(b);
    assert(x == ((b0 as u32) << 24) | ((b1 as u32) << 16) | ((b2 as u32) << 8) | (b3 as u32));
    assert(((((b0 as u32) << 24) | ((b1 as u32) << 16) | ((b2 as u32) << 8) | (b3 as u32)) >> 24)
        & 0xff == b0 as u32) by (bit_vector);
    assert(((((b0 as u32) << 24) | ((b1 as u32) << 16) | ((b2 as u32) << 8) | (b3 as u32)) >> 16)
        & 0xff == b1 as u32) by (bit_vector);
    assert(((((b0 as u32) << 24) | ((b1 as u32) << 16) | ((b2 as u32) << 8) | (b3 as u32)) >> 8)
        & 0xff == b2 as u32) by (bit_vector);
    assert((((b0 as u32) << 24) | ((b1 as u32) << 16) | ((b2 as u32) << 8) | (b3 as u32)) & 0xff
        == b3 as u32) by (bit_vector);
    assert(spec_encode(x) =~= b);
}

} // verus!
