//! The public record: the verifier's inputs and outcome in a fixed layout of
//! five 32-byte words, as an EVM ABI encoding of the static tuple
//! `(bytes32 pubkey, bytes32 signature, bool verified, bytes32 email_header,
//! uint32 max_headers_length)`.
//!
//! The byte-string fields have variable length at the verifier; each is fitted
//! to its 32-byte slot by keeping its first 32 bytes and padding a shorter one
//! with zero bytes on the right, as Solidity aligns `bytes32`.
use crate::dkim::{dkim_accepts, verify_dkim_signature};
use alloy_sol_types::private::FixedBytes;
use vstd::prelude::*;

verus! {

/// Bytes in one field slot, and in one ABI word.
pub const SLOT_LEN: usize = 32;

/// Bytes in an encoded record: five words.
pub const RECORD_LEN: usize = 160;

/// The abstract content of a record.
pub struct RecordView {
    pub pubkey: Seq<u8>,
    pub signature: Seq<u8>,
    pub verified: bool,
    pub email_header: Seq<u8>,
    pub max_headers_length: u32,
}

impl RecordView {
    /// Each byte-string field fills exactly one slot.
    pub open spec fn wf(self) -> bool {
        &&& self.pubkey.len() == SLOT_LEN
        &&& self.signature.len() == SLOT_LEN
        &&& self.email_header.len() == SLOT_LEN
    }
}

/// `b` fitted to a slot: its first 32 bytes, zero-padded on the right.
pub open spec fn slot_of(b: Seq<u8>) -> Seq<u8> {
    Seq::new(SLOT_LEN as nat, |i: int| if i < b.len() { b[i] } else { 0u8 })
}

/// The ABI word of a boolean: 31 zero bytes, then 1 or 0.
pub open spec fn bool_word(v: bool) -> Seq<u8> {
    Seq::new(SLOT_LEN as nat, |i: int| if i == 31 && v { 1u8 } else { 0u8 })
}

/// The four big-endian bytes of `x`.
pub open spec fn u32_be(x: u32) -> Seq<u8> {
    seq![
        ((x >> 24u32) & 0xffu32) as u8,
        ((x >> 16u32) & 0xffu32) as u8,
        ((x >> 8u32) & 0xffu32) as u8,
        (x & 0xffu32) as u8,
    ]
}

/// The `u32` whose big-endian bytes are `b0 b1 b2 b3`.
pub open spec fn be_u32(b0: u8, b1: u8, b2: u8, b3: u8) -> u32 {
    ((b0 as u32) << 24u32) | ((b1 as u32) << 16u32) | ((b2 as u32) << 8u32) | (b3 as u32)
}

/// The ABI word of a `uint32`: 28 zero bytes, then its big-endian bytes.
pub open spec fn u32_word(x: u32) -> Seq<u8> {
    Seq::new(28, |i: int| 0u8) + u32_be(x)
}

/// The encoding of a record: its five words in field order.
pub open spec fn encode_view(v: RecordView) -> Seq<u8> {
    v.pubkey + v.signature + bool_word(v.verified) + v.email_header + u32_word(v.max_headers_length)
}

/// All bytes of `b` in `lo..hi` are zero.
pub open spec fn zeros_in(b: Seq<u8>, lo: int, hi: int) -> bool {
    forall|i: int| lo <= i < hi ==> b[i] == 0
}

/// `b` is the encoding of some record: five words, with the padding of the
/// boolean and integer words zero and the boolean 0 or 1.
pub open spec fn is_record_encoding(b: Seq<u8>) -> bool {
    &&& b.len() == RECORD_LEN
    &&& zeros_in(b, 64, 95)
    &&& b[95] <= 1
    &&& zeros_in(b, 128, 156)
}

/// The record that `b` encodes, if any.
pub open spec fn decode_view(b: Seq<u8>) -> Option<RecordView> {
    if is_record_encoding(b) {
        Some(
            RecordView {
                pubkey: b.subrange(0, 32),
                signature: b.subrange(32, 64),
                verified: b[95] == 1,
                email_header: b.subrange(96, 128),
                max_headers_length: be_u32(b[156], b[157], b[158], b[159]),
            },
        )
    } else {
        None
    }
}

/// The record committed for a verification with these inputs.
pub open spec fn committed_view(pubkey: Seq<u8>, signature: Seq<u8>, email_header: Seq<u8>, max_headers_length: u32) -> RecordView {
    RecordView {
        pubkey: slot_of(pubkey),
        signature: slot_of(signature),
        verified: dkim_accepts(pubkey, signature, email_header, max_headers_length),
        email_header: slot_of(email_header),
        max_headers_length,
    }
}

/// Relies on `alloy_sol_types::SolValue::abi_encode` for the tuple
/// `(FixedBytes<32>, FixedBytes<32>, bool, FixedBytes<32>, u32)`: the ABI
/// encoding of a static tuple is one 32-byte word per element, in order.
/// `FixedBytes::from_slice` panics unless given 32 bytes, hence `requires`.
#[verifier::external_body]
fn abi_encode_tuple(
    pubkey: &[u8],
    signature: &[u8],
    verified: bool,
    email_header: &[u8],
    max_headers_length: u32,
) -> (r: Vec<u8>)
    requires
        pubkey@.len() == SLOT_LEN,
        signature@.len() == SLOT_LEN,
        email_header@.len() == SLOT_LEN,
    ensures
        r@ == pubkey@ + signature@ + bool_word(verified) + email_header@ + u32_word(max_headers_length),
{
    let tuple = (
        FixedBytes::<32>::from_slice(pubkey),
        FixedBytes::<32>::from_slice(signature),
        verified,
        FixedBytes::<32>::from_slice(email_header),
        max_headers_length,
    );
    alloy_sol_types::SolValue::abi_encode(&tuple)
}

/// The published record of one verification.
#[derive(Debug, Clone, PartialEq, Eq)]
pub struct PublicRecord {
    pub pubkey: Vec<u8>,
    pub signature: Vec<u8>,
    pub verified: bool,
    pub email_header: Vec<u8>,
    pub max_headers_length: u32,
}

impl View for PublicRecord {
    type V = RecordView;

    open spec fn view(&self) -> RecordView {
        RecordView {
            pubkey: self.pubkey@,
            signature: self.signature@,
            verified: self.verified,
            email_header: self.email_header@,
            max_headers_length: self.max_headers_length,
        }
    }
}

/// Copies `b` into a 32-byte slot: its first 32 bytes, zero-padded on the right.
fn fit_slot(b: &Vec<u8>) -> (r: Vec<u8>)
    ensures
        r@ == slot_of(b@),
{
    let mut r: Vec<u8> = Vec::new();
    let mut i: usize = 0;
    while i < SLOT_LEN
        invariant
            i <= SLOT_LEN,
            r@.len() == i,
            forall|j: int| 0 <= j < i ==> r@[j] == slot_of(b@)[j],
        decreases SLOT_LEN - i,
    {
        if i < b.len() {
            r.push(b[i]);
        } else {
            r.push(0u8);
        }
        i += 1;
    }
    assert(r@ =~= slot_of(b@));
    r
}

impl PublicRecord {
    /// Builds the record for the given inputs and verification outcome, each
    /// byte string fitted to its slot; `verified` and `max_headers_length`
    /// are carried through unchanged.
    pub fn new(
        pubkey: &Vec<u8>,
        signature: &Vec<u8>,
        verified: bool,
        email_header: &Vec<u8>,
        max_headers_length: u32,
    ) -> (r: PublicRecord)
        ensures
            r@.wf(),
            r.pubkey@ == slot_of(pubkey@),
            r.signature@ == slot_of(signature@),
            r.verified == verified,
            r.email_header@ == slot_of(email_header@),
            r.max_headers_length == max_headers_length,
    {
        PublicRecord {
            pubkey: fit_slot(pubkey),
            signature: fit_slot(signature),
            verified,
            email_header: fit_slot(email_header),
            max_headers_length,
        }
    }

    /// The record's encoding: five 32-byte words in field order.
    pub fn encode(&self) -> (r: Vec<u8>)
        requires
            self@.wf(),
        ensures
            r@ == encode_view(self@),
            r@.len() == RECORD_LEN,
    {
        abi_encode_tuple(
            self.pubkey.as_slice(),
            self.signature.as_slice(),
            self.verified,
            self.email_header.as_slice(),
            self.max_headers_length,
        )
    }

    /// Reads a record back from its encoding; `None` when `bytes` is not the
    /// encoding of any record.
    pub fn decode(bytes: &Vec<u8>) -> (r: Option<PublicRecord>)
        ensures
            r is None <==> decode_view(bytes@) is None,
            r matches Some(rec) ==> decode_view(bytes@) == Some(rec@) && rec@.wf(),
    {
        if bytes.len() != RECORD_LEN {
            return None;
        }
        if !all_zero(bytes, 64, 95) || bytes[95] > 1 || !all_zero(bytes, 128, 156) {
            return None;
        }
        let b = bytes.as_slice();
        let rec = PublicRecord {
            pubkey: vstd::slice::slice_to_vec(vstd::slice::slice_subrange(b, 0, 32)),
            signature: vstd::slice::slice_to_vec(vstd::slice::slice_subrange(b, 32, 64)),
            verified: bytes[95] == 1,
            email_header: vstd::slice::slice_to_vec(vstd::slice::slice_subrange(b, 96, 128)),
            max_headers_length: ((bytes[156] as u32) << 24u32) | ((bytes[157] as u32) << 16u32)
                | ((bytes[158] as u32) << 8u32) | (bytes[159] as u32),
        };
        Some(rec)
    }
}

/// Whether the bytes of `b` in `lo..hi` are all zero.
fn all_zero(b: &Vec<u8>, lo: usize, hi: usize) -> (r: bool)
    requires
        lo <= hi <= b@.len(),
    ensures
        r == zeros_in(b@, lo as int, hi as int),
{
    let mut i: usize = lo;
    while i < hi
        invariant
            lo <= i <= hi <= b@.len(),
            zeros_in(b@, lo as int, i as int),
        decreases hi - i,
    {
        if b[i] != 0 {
            return false;
        }
        i += 1;
    }
    true
}

/// Runs the DKIM check and returns the encoded public record of its inputs
/// and outcome.
pub fn public_values(
    pubkey: &Vec<u8>,
    signature: &Vec<u8>,
    email_header: &Vec<u8>,
    max_headers_length: u32,
) -> (r: Vec<u8>)
    ensures
        r@ == encode_view(committed_view(pubkey@, signature@, email_header@, max_headers_length)),
{
    let verified = verify_dkim_signature(pubkey, signature, email_header, max_headers_length);
    let record = PublicRecord::new(pubkey, signature, verified, email_header, max_headers_length);
    record.encode()
}

/// The integer word reads back as the integer that was written.
pub proof fn lemma_u32_round_trip(x: u32)
    ensures
        be_u32(u32_be(x)[0], u32_be(x)[1], u32_be(x)[2], u32_be(x)[3]) == x,
{
    assert(((((x >> 24u32) & 0xffu32) as u8 as u32) << 24u32) | ((((x >> 16u32) & 0xffu32) as u8 as u32) << 16u32)
        | ((((x >> 8u32) & 0xffu32) as u8 as u32) << 8u32) | (((x & 0xffu32) as u8) as u32) == x) by (bit_vector);
}

/// Four bytes read as a big-endian integer are written back as the same bytes.
pub proof fn lemma_be_bytes_round_trip(b0: u8, b1: u8, b2: u8, b3: u8)
    ensures
        u32_be(be_u32(b0, b1, b2, b3)) == seq![b0, b1, b2, b3],
{
    let x = be_u32(b0, b1, b2, b3);
    assert((((((b0 as u32) << 24u32) | ((b1 as u32) << 16u32) | ((b2 as u32) << 8u32) | (b3 as u32)) >> 24u32) & 0xffu32) as u8 == b0) by (bit_vector);
    assert((((((b0 as u32) << 24u32) | ((b1 as u32) << 16u32) | ((b2 as u32) << 8u32) | (b3 as u32)) >> 16u32) & 0xffu32) as u8 == b1) by (bit_vector);
    assert((((((b0 as u32) << 24u32) | ((b1 as u32) << 16u32) | ((b2 as u32) << 8u32) | (b3 as u32)) >> 8u32) & 0xffu32) as u8 == b2) by (bit_vector);
    assert(((((b0 as u32) << 24u32) | ((b1 as u32) << 16u32) | ((b2 as u32) << 8u32) | (b3 as u32)) & 0xffu32) as u8 == b3) by (bit_vector);
    assert(u32_be(x) =~= seq![b0, b1, b2, b3]);
}

/// Decoding the encoding of a well-formed record gives back that record.
pub proof fn lemma_record_round_trip(v: RecordView)
    requires
        v.wf(),
    ensures
        decode_view(encode_view(v)) == Some(v),
{
    let b = encode_view(v);
    lemma_u32_round_trip(v.max_headers_length);
    assert(b.subrange(0, 32) =~= v.pubkey);
    assert(b.subrange(32, 64) =~= v.signature);
    assert(b.subrange(96, 128) =~= v.email_header);
    assert(b[95] == bool_word(v.verified)[31]);
    assert(b[156] == u32_be(v.max_headers_length)[0]);
    assert(b[157] == u32_be(v.max_headers_length)[1]);
    assert(b[158] == u32_be(v.max_headers_length)[2]);
    assert(b[159] == u32_be(v.max_headers_length)[3]);
    assert(is_record_encoding(b));
}

/// Every accepted encoding is the encoding of the record it decodes to, so
/// no two byte strings decode to the same record.
pub proof fn lemma_decode_canonical(b: Seq<u8>)
    requires
        decode_view(b) is Some,
    ensures
        decode_view(b)->Some_0.wf(),
        encode_view(decode_view(b)->Some_0) == b,
{
    let v = decode_view(b)->Some_0;
    lemma_be_bytes_round_trip(b[156], b[157], b[158], b[159]);
    assert(bool_word(v.verified) =~= b.subrange(64, 96));
    assert(u32_word(v.max_headers_length) =~= b.subrange(128, 160));
    assert(encode_view(v) =~= b);
}

} // verus!
