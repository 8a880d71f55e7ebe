//! Byte encodings of the values a request is made of.
use vstd::bytes::{spec_u64_to_le_bytes, u64_to_le_bytes};
use vstd::prelude::*;
use vstd::slice::slice_index_get;
use vstd::utf8::encode_utf8;

verus! {

/// A byte string behind its own length, the length as eight
/// little-endian bytes.
pub open spec fn length_prefixed(bytes: Seq<u8>) -> Seq<u8> {
    spec_u64_to_le_bytes(bytes.len() as u64) + bytes
}

/// A text as UTF-8 behind the number of bytes that takes.
pub open spec fn encoded_text(text: Seq<char>) -> Seq<u8> {
    length_prefixed(encode_utf8(text))
}

/// A signed 64-bit number as the eight little-endian bytes of its
/// two's complement.
pub open spec fn encoded_i64(x: i64) -> Seq<u8> {
    spec_u64_to_le_bytes(x as u64)
}

/// Appends `src` to `buf`.
pub fn put_bytes(buf: &mut Vec<u8>, src: &[u8])
    ensures
        final(buf)@ == old(buf)@ + src@,
{
    let mut i: usize = 0;
    while i < src.len()
        invariant
            i <= src@.len(),
            buf@ == old(buf)@ + src@.subrange(0, i as int),
        decreases src@.len() - i,
    {
        buf.push(*slice_index_get(src, i));
        i += 1;
        assert(buf@ =~= old(buf)@ + src@.subrange(0, i as int));
    }
    assert(src@.subrange(0, i as int) =~= src@);
}

/// Appends the eight little-endian bytes of `x` to `buf`.
pub fn put_u64(buf: &mut Vec<u8>, x: u64)
    ensures
        final(buf)@ == old(buf)@ + spec_u64_to_le_bytes(x),
{
    let bytes = u64_to_le_bytes(x);
    put_bytes(buf, bytes.as_slice());
}

/// Appends a signed number as [`encoded_i64`] describes.
pub fn put_i64(buf: &mut Vec<u8>, x: i64)
    ensures
        final(buf)@ == old(buf)@ + encoded_i64(x),
{
    put_u64(buf, x as u64);
}

/// Appends a text as [`encoded_text`] describes.
pub fn put_text(buf: &mut Vec<u8>, text: &str)
    ensures
        final(buf)@ == old(buf)@ + encoded_text(text@),
{
    let bytes = text.as_bytes();
    put_u64(buf, bytes.len() as u64);
    put_bytes(buf, bytes);
    assert(buf@ =~= old(buf)@ + encoded_text(text@));
}

} // verus!
