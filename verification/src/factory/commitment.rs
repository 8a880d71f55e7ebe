//! The hash commits to the values of a request: two requests with the
//! same preimage agree on every value that never changes. Whoever
//! presents a matching hash therefore speaks of the same request, as
//! far as the digest can be trusted to tell byte strings apart.
use crate::encoding::{encoded_i64, encoded_text, length_prefixed};
use crate::factory::state::{type_tag, RequestView};
use vstd::bytes::{lemma_auto_spec_u64_to_from_le_bytes, spec_u64_to_le_bytes};
use vstd::prelude::*;
use vstd::utf8::{encode_utf8, encode_utf8_decode_utf8};

verus! {

/// Two byte strings that are equal and start with pieces of the same
/// length agree on those pieces and on what follows them.
pub proof fn lemma_split(head_a: Seq<u8>, tail_a: Seq<u8>, head_b: Seq<u8>, tail_b: Seq<u8>)
    requires
        head_a + tail_a == head_b + tail_b,
        head_a.len() == head_b.len(),
    ensures
        head_a == head_b,
        tail_a == tail_b,
{
    let whole = head_a + tail_a;
    let cut = head_a.len() as int;
    assert(head_a =~= whole.subrange(0, cut));
    assert(head_b =~= whole.subrange(0, cut));
    assert(tail_a =~= whole.subrange(cut, whole.len() as int));
    assert(tail_b =~= whole.subrange(cut, whole.len() as int));
}

/// Eight little-endian bytes stand for one number only.
pub proof fn lemma_u64_bytes_are_injective(x: u64, y: u64)
    requires
        spec_u64_to_le_bytes(x) == spec_u64_to_le_bytes(y),
    ensures
        x == y,
{
    lemma_auto_spec_u64_to_from_le_bytes();
}

/// The encoding of a signed number stands for one number only.
pub proof fn lemma_i64_bytes_are_injective(x: i64, y: i64)
    requires
        encoded_i64(x) == encoded_i64(y),
    ensures
        x == y,
{
    lemma_u64_bytes_are_injective(x as u64, y as u64);
    assert(x as u64 == y as u64 ==> x == y) by (bit_vector);
}

/// Where two length-prefixed byte strings, each followed by something,
/// are equal, the byte strings are equal and so is what follows.
pub proof fn lemma_split_prefixed(
    bytes_a: Seq<u8>,
    tail_a: Seq<u8>,
    bytes_b: Seq<u8>,
    tail_b: Seq<u8>,
)
    requires
        length_prefixed(bytes_a) + tail_a == length_prefixed(bytes_b) + tail_b,
        bytes_a.len() <= u64::MAX,
        bytes_b.len() <= u64::MAX,
    ensures
        bytes_a == bytes_b,
        tail_a == tail_b,
{
    lemma_auto_spec_u64_to_from_le_bytes();
    let len_a = spec_u64_to_le_bytes(bytes_a.len() as u64);
    let len_b = spec_u64_to_le_bytes(bytes_b.len() as u64);
    assert(length_prefixed(bytes_a) + tail_a =~= len_a + (bytes_a + tail_a));
    assert(length_prefixed(bytes_b) + tail_b =~= len_b + (bytes_b + tail_b));
    lemma_split(len_a, bytes_a + tail_a, len_b, bytes_b + tail_b);
    lemma_u64_bytes_are_injective(bytes_a.len() as u64, bytes_b.len() as u64);
    lemma_split(bytes_a, tail_a, bytes_b, tail_b);
}

/// UTF-8 stands for one text only.
pub proof fn lemma_utf8_is_injective(a: Seq<char>, b: Seq<char>)
    requires
        encode_utf8(a) == encode_utf8(b),
    ensures
        a == b,
{
    encode_utf8_decode_utf8(a);
    encode_utf8_decode_utf8(b);
}

impl RequestView {
    /// The texts of the request are short enough for their lengths to
    /// be written in eight bytes, as every text in memory is.
    pub open spec fn texts_fit(self) -> bool {
        &&& encode_utf8(self.btc_deposit_address).len() <= u64::MAX
        &&& encode_utf8(self.committed_txid()).len() <= u64::MAX
    }
}

/// Eight bytes stand for a number.
pub proof fn lemma_u64_bytes_len(x: u64)
    ensures
        spec_u64_to_le_bytes(x).len() == 8,
{
    lemma_auto_spec_u64_to_from_le_bytes();
}

/// The part of the preimage whose places are fixed: type, number,
/// requester and amount.
pub open spec fn fixed_part(request: RequestView) -> Seq<u8> {
    seq![type_tag(request.request_type)] + (spec_u64_to_le_bytes(request.nonce) + (
    request.requester@ + spec_u64_to_le_bytes(request.amount)))
}

/// The rest of the preimage: the texts behind their lengths, the time
/// and the bump.
pub open spec fn free_part(request: RequestView) -> Seq<u8> {
    encoded_text(request.btc_deposit_address) + (encoded_text(request.committed_txid()) + (
    encoded_i64(request.timestamp) + seq![request.bump]))
}

/// The preimage is its fixed part followed by its free part, and the
/// fixed part has 49 bytes.
pub proof fn lemma_preimage_layout(request: RequestView)
    ensures
        request.preimage() == fixed_part(request) + free_part(request),
        fixed_part(request).len() == 49,
{
    lemma_u64_bytes_len(request.nonce);
    lemma_u64_bytes_len(request.amount);
    assert(request.preimage() =~= fixed_part(request) + free_part(request));
}

/// Requests with the same fixed part agree on type, number, requester
/// and amount.
pub proof fn lemma_fixed_part_is_injective(a: RequestView, b: RequestView)
    requires
        fixed_part(a) == fixed_part(b),
    ensures
        a.request_type == b.request_type,
        a.nonce == b.nonce,
        a.requester == b.requester,
        a.amount == b.amount,
{
    lemma_u64_bytes_len(a.nonce);
    lemma_u64_bytes_len(b.nonce);
    let tag_a = seq![type_tag(a.request_type)];
    let tag_b = seq![type_tag(b.request_type)];
    let rest1_a = a.requester@ + spec_u64_to_le_bytes(a.amount);
    let rest1_b = b.requester@ + spec_u64_to_le_bytes(b.amount);
    lemma_split(
        tag_a,
        spec_u64_to_le_bytes(a.nonce) + rest1_a,
        tag_b,
        spec_u64_to_le_bytes(b.nonce) + rest1_b,
    );
    assert(tag_a[0] == tag_b[0]);
    lemma_split(spec_u64_to_le_bytes(a.nonce), rest1_a, spec_u64_to_le_bytes(b.nonce), rest1_b);
    lemma_u64_bytes_are_injective(a.nonce, b.nonce);
    lemma_split(
        a.requester@,
        spec_u64_to_le_bytes(a.amount),
        b.requester@,
        spec_u64_to_le_bytes(b.amount),
    );
    assert(a.requester.bytes =~= b.requester.bytes);
    lemma_u64_bytes_are_injective(a.amount, b.amount);
}

/// Requests with the same free part agree on the deposit address, the
/// transaction id that is hashed, the time and the bump.
pub proof fn lemma_free_part_is_injective(a: RequestView, b: RequestView)
    requires
        free_part(a) == free_part(b),
        a.texts_fit(),
        b.texts_fit(),
    ensures
        a.btc_deposit_address == b.btc_deposit_address,
        a.committed_txid() == b.committed_txid(),
        a.timestamp == b.timestamp,
        a.bump == b.bump,
{
    lemma_u64_bytes_len(a.timestamp as u64);
    lemma_u64_bytes_len(b.timestamp as u64);
    let tail1_a = encoded_i64(a.timestamp) + seq![a.bump];
    let tail1_b = encoded_i64(b.timestamp) + seq![b.bump];
    let tail2_a = encoded_text(a.committed_txid()) + tail1_a;
    let tail2_b = encoded_text(b.committed_txid()) + tail1_b;
    lemma_split_prefixed(
        encode_utf8(a.btc_deposit_address),
        tail2_a,
        encode_utf8(b.btc_deposit_address),
        tail2_b,
    );
    lemma_utf8_is_injective(a.btc_deposit_address, b.btc_deposit_address);
    lemma_split_prefixed(
        encode_utf8(a.committed_txid()),
        tail1_a,
        encode_utf8(b.committed_txid()),
        tail1_b,
    );
    lemma_utf8_is_injective(a.committed_txid(), b.committed_txid());
    lemma_split(encoded_i64(a.timestamp), seq![a.bump], encoded_i64(b.timestamp), seq![b.bump]);
    lemma_i64_bytes_are_injective(a.timestamp, b.timestamp);
    assert(seq![a.bump][0] == seq![b.bump][0]);
}

/// Requests with the same preimage agree on every value that the hash
/// covers, and requests that agree on those have the same preimage.
pub proof fn lemma_preimage_is_injective(a: RequestView, b: RequestView)
    requires
        a.texts_fit(),
        b.texts_fit(),
    ensures
        a.preimage() == b.preimage() <==> a.same_terms(b),
{
    if a.preimage() == b.preimage() {
        lemma_preimage_layout(a);
        lemma_preimage_layout(b);
        lemma_split(fixed_part(a), free_part(a), fixed_part(b), free_part(b));
        lemma_fixed_part_is_injective(a, b);
        lemma_free_part_is_injective(a, b);
    }
}

} // verus!
