//! The binary instruction format understood by the proof program on the ledger.
//!
//! An instruction is one variant byte, then each string field as a
//! little-endian `u32` byte count followed by its UTF-8 bytes, then each
//! integer field as a little-endian `u64`.
use vstd::bytes::*;
use vstd::prelude::*;
use vstd::slice::*;
use vstd::utf8::*;

verus! {

broadcast use vstd::seq::group_seq_axioms, vstd::slice::group_slice_axioms;

/// Variant byte of `ProofInstruction::StoreProof`.
pub const STORE_PROOF_TAG: u8 = 0;

/// The instruction that asks the proof program to record one piece of content.
pub enum ProofInstruction {
    StoreProof { url: String, content_hash: String, content_length: u64 },
}

/// What a `ProofInstruction` holds, as mathematical values.
pub enum ProofInstructionView {
    StoreProof { url: Seq<char>, content_hash: Seq<char>, content_length: u64 },
}

impl View for ProofInstruction {
    type V = ProofInstructionView;

    open spec fn view(&self) -> ProofInstructionView {
        match self {
            ProofInstruction::StoreProof { url, content_hash, content_length } => {
                ProofInstructionView::StoreProof {
                    url: url@,
                    content_hash: content_hash@,
                    content_length: *content_length,
                }
            },
        }
    }
}

/// Why an instruction could not be encoded.
#[derive(Debug, Clone, Copy, PartialEq, Eq, Structural)]
pub enum EncodingError {
    /// A string field has more bytes than a `u32` count can state.
    FieldTooLong,
}

/// Why a byte string is not an encoded instruction.
#[derive(Debug, Clone, Copy, PartialEq, Eq, Structural)]
pub enum DecodeError {
    /// No bytes at all.
    Empty,
    /// The first byte names no known variant.
    UnknownVariant,
    /// The bytes end before the last field does.
    Truncated,
    /// A string field is not valid UTF-8.
    InvalidUtf8,
    /// Bytes remain after the last field.
    TrailingBytes,
}

/// A byte string preceded by its length as a little-endian `u32`.
pub open spec fn length_prefixed(bytes: Seq<u8>) -> Seq<u8> {
    spec_u32_to_le_bytes(bytes.len() as u32) + bytes
}

/// Whether a byte count can be written as a `u32` prefix.
pub open spec fn prefix_fits(bytes: Seq<u8>) -> bool {
    bytes.len() <= u32::MAX
}

impl ProofInstructionView {
    /// Whether every string field can be length-prefixed.
    pub open spec fn encodable(self) -> bool {
        match self {
            ProofInstructionView::StoreProof { url, content_hash, .. } => {
                prefix_fits(encode_utf8(url)) && prefix_fits(encode_utf8(content_hash))
            },
        }
    }

    /// The variant byte of this instruction.
    pub open spec fn tag(self) -> u8 {
        match self {
            ProofInstructionView::StoreProof { .. } => STORE_PROOF_TAG,
        }
    }

    /// The bytes of this instruction on the wire.
    pub open spec fn encoding(self) -> Seq<u8> {
        match self {
            ProofInstructionView::StoreProof { url, content_hash, content_length } => {
                seq![STORE_PROOF_TAG] + length_prefixed(encode_utf8(url)) + length_prefixed(
                    encode_utf8(content_hash),
                ) + spec_u64_to_le_bytes(content_length)
            },
        }
    }
}

/// The length-prefixed field that starts at `at`: its bytes and the offset after it.
spec fn read_prefixed(b: Seq<u8>, at: int) -> Option<(Seq<u8>, int)> {
    if 0 <= at && at + 4 <= b.len() {
        let n = spec_u32_from_le_bytes(b.subrange(at, at + 4)) as int;
        if at + 4 + n <= b.len() {
            Some((b.subrange(at + 4, at + 4 + n), at + 4 + n))
        } else {
            None
        }
    } else {
        None
    }
}

/// The instruction that a byte string encodes, if it encodes one, read
/// field by field.
spec fn decode_view(b: Seq<u8>) -> Option<ProofInstructionView> {
    if b.len() >= 1 && b[0] == STORE_PROOF_TAG {
        match read_prefixed(b, 1) {
            Some((u, p)) => match read_prefixed(b, p) {
                Some((h, q)) => {
                    if valid_utf8(u) && valid_utf8(h) && q + 8 == b.len() {
                        Some(
                            ProofInstructionView::StoreProof {
                                url: decode_utf8(u),
                                content_hash: decode_utf8(h),
                                content_length: spec_u64_from_le_bytes(b.subrange(q, q + 8)),
                            },
                        )
                    } else {
                        None
                    }
                },
                None => None,
            },
            None => None,
        }
    } else {
        None
    }
}

/// Relies on `String::from_utf8`: it accepts exactly the valid UTF-8 byte
/// strings and keeps the characters they encode.
#[verifier::external_body]
fn string_from_utf8(bytes: Vec<u8>) -> (r: Option<String>)
    ensures
        r is Some <==> valid_utf8(bytes@),
        r matches Some(s) ==> s@ == decode_utf8(bytes@),
{
    match String::from_utf8(bytes) {
        Ok(s) => Some(s),
        Err(_) => None,
    }
}

/// Appends `bytes` to `out`, preceded by their count as a little-endian `u32`.
fn push_prefixed(out: &mut Vec<u8>, bytes: &[u8])
    requires
        prefix_fits(bytes@),
    ensures
        final(out)@ == old(out)@ + length_prefixed(bytes@),
{
    let mut prefix = u32_to_le_bytes(bytes.len() as u32);
    out.append(&mut prefix);
    out.extend_from_slice(bytes);
}

/// Reads the length-prefixed field that starts at `at`.
fn take_prefixed(b: &[u8], at: usize) -> (r: Option<(Vec<u8>, usize)>)
    ensures
        match read_prefixed(b@, at as int) {
            Some((f, next)) => r matches Some((v, n)) && v@ == f && n == next,
            None => r is None,
        },
{
    if b.len() < 4 || at > b.len() - 4 {
        return None;
    }
    let n = u32_from_le_bytes(slice_subrange(b, at, at + 4)) as usize;
    if n > b.len() - (at + 4) {
        return None;
    }
    let field = slice_to_vec(slice_subrange(b, at + 4, at + 4 + n));
    Some((field, at + 4 + n))
}

impl ProofInstruction {
    /// The instruction that records `url`, `content_hash` and `content_length`.
    pub fn store_proof(url: &str, content_hash: &str, content_length: u64) -> (r: Self)
        ensures
            r@ == (ProofInstructionView::StoreProof {
                url: url@,
                content_hash: content_hash@,
                content_length,
            }),
    {
        ProofInstruction::StoreProof {
            url: url.to_owned(),
            content_hash: content_hash.to_owned(),
            content_length,
        }
    }

    /// The variant byte that leads this instruction's encoding.
    pub fn tag(&self) -> (r: u8)
        ensures
            r == self@.tag(),
    {
        match self {
            ProofInstruction::StoreProof { .. } => STORE_PROOF_TAG,
        }
    }

    /// Encodes the instruction; fails only when a string field is longer than
    /// a `u32` count can state.
    pub fn try_to_vec(&self) -> (r: Result<Vec<u8>, EncodingError>)
        ensures
            r is Ok <==> self@.encodable(),
            r matches Ok(v) ==> v@ == self@.encoding(),
            r matches Err(e) ==> e == EncodingError::FieldTooLong,
    {
        match self {
            ProofInstruction::StoreProof { url, content_hash, content_length } => {
                let u = url.as_str().as_bytes();
                let h = content_hash.as_str().as_bytes();
                if u.len() as u64 > u32::MAX as u64 || h.len() as u64 > u32::MAX as u64 {
                    return Err(EncodingError::FieldTooLong);
                }
                let mut out: Vec<u8> = Vec::new();
                out.push(STORE_PROOF_TAG);
                push_prefixed(&mut out, u);
                push_prefixed(&mut out, h);
                let mut tail = u64_to_le_bytes(*content_length);
                out.append(&mut tail);
                assert(out@ == self@.encoding());
                Ok(out)
            },
        }
    }

    /// Decodes an instruction: the inverse of encoding. It succeeds exactly
    /// on the encodings of encodable instructions, and gives back the
    /// instruction whose encoding the bytes are.
    pub fn try_from_slice(b: &[u8]) -> (r: Result<ProofInstruction, DecodeError>)
        ensures
            r matches Ok(i) ==> i@.encodable() && i@.encoding() == b@,
            r is Err ==> forall|v: ProofInstructionView| v.encodable() ==> #[trigger] v.encoding()
                != b@,
            r matches Err(e) ==> (e == DecodeError::Empty <==> b@.len() == 0),
            r matches Err(e) ==> (e == DecodeError::UnknownVariant <==> (b@.len() > 0 && b@[0]
                != STORE_PROOF_TAG)),
    {
        let r = Self::decode_fields(b);
        proof {
            if r is Ok {
                lemma_decoded_is_encoding(b@);
            } else {
                assert forall|v: ProofInstructionView| v.encodable() implies #[trigger] v.encoding()
                    != b@ by {
                    lemma_round_trip(v);
                }
            }
        }
        r
    }

    /// Reads an instruction field by field.
    fn decode_fields(b: &[u8]) -> (r: Result<ProofInstruction, DecodeError>)
        ensures
            r is Ok <==> decode_view(b@) is Some,
            r matches Ok(i) ==> decode_view(b@) == Some(i@),
            r matches Err(e) ==> (e == DecodeError::Empty <==> b@.len() == 0),
            r matches Err(e) ==> (e == DecodeError::UnknownVariant <==> (b@.len() > 0 && b@[0]
                != STORE_PROOF_TAG)),
    {
        if b.len() == 0 {
            return Err(DecodeError::Empty);
        }
        if b[0] != STORE_PROOF_TAG {
            return Err(DecodeError::UnknownVariant);
        }
        let (u, p) = match take_prefixed(b, 1) {
            Some(x) => x,
            None => return Err(DecodeError::Truncated),
        };
        let (h, q) = match take_prefixed(b, p) {
            Some(x) => x,
            None => return Err(DecodeError::Truncated),
        };
        if b.len() - q < 8 {
            return Err(DecodeError::Truncated);
        }
        if b.len() - q > 8 {
            return Err(DecodeError::TrailingBytes);
        }
        let content_length = u64_from_le_bytes(slice_subrange(b, q, q + 8));
        let url = match string_from_utf8(u) {
            Some(s) => s,
            None => return Err(DecodeError::InvalidUtf8),
        };
        let content_hash = match string_from_utf8(h) {
            Some(s) => s,
            None => return Err(DecodeError::InvalidUtf8),
        };
        Ok(ProofInstruction::StoreProof { url, content_hash, content_length })
    }
}

/// Encoding depends on an instruction's contents alone: two instructions
/// that hold the same values encode to the same bytes.
pub proof fn lemma_encoding_deterministic(a: &ProofInstruction, b: &ProofInstruction)
    requires
        a@ == b@,
    ensures
        a@.encoding() == b@.encoding(),
{
}

/// Every encoding starts with the variant byte of the instruction it encodes.
pub proof fn lemma_encoding_starts_with_tag(v: ProofInstructionView)
    ensures
        v.encoding().len() >= 1,
        v.encoding()[0] == v.tag(),
{
}

/// Reading the encoding of an encodable instruction field by field gives
/// that instruction back.
proof fn lemma_round_trip(v: ProofInstructionView)
    requires
        v.encodable(),
    ensures
        decode_view(v.encoding()) == Some(v),
{
    broadcast use encode_utf8_valid_utf8, encode_utf8_decode_utf8;

    lemma_auto_spec_u32_to_from_le_bytes();
    lemma_auto_spec_u64_to_from_le_bytes();
    match v {
        ProofInstructionView::StoreProof { url, content_hash, content_length } => {
            let u = encode_utf8(url);
            let h = encode_utf8(content_hash);
            let e = v.encoding();
            let lu = spec_u32_to_le_bytes(u.len() as u32);
            let lh = spec_u32_to_le_bytes(h.len() as u32);
            let tail = spec_u64_to_le_bytes(content_length);
            let p = 5 + u.len() as int;
            let q = p + 4 + h.len() as int;
            assert(e =~= seq![STORE_PROOF_TAG] + lu + u + lh + h + tail);
            assert(e.subrange(1, 5) =~= lu);
            assert(e.subrange(5, p) =~= u);
            assert(e.subrange(p, p + 4) =~= lh);
            assert(e.subrange(p + 4, q) =~= h);
            assert(e.subrange(q, q + 8) =~= tail);
            assert(read_prefixed(e, 1) == Some((u, p)));
            assert(read_prefixed(e, p) == Some((h, q)));
        },
    }
}

/// What is read field by field from some bytes is an encodable instruction
/// whose encoding is those bytes.
proof fn lemma_decoded_is_encoding(b: Seq<u8>)
    requires
        decode_view(b) is Some,
    ensures
        decode_view(b)->Some_0.encodable(),
        decode_view(b)->Some_0.encoding() == b,
{
    broadcast use decode_utf8_encode_utf8;

    lemma_auto_spec_u32_to_from_le_bytes();
    lemma_auto_spec_u64_to_from_le_bytes();
    let (u, p) = read_prefixed(b, 1)->Some_0;
    let (h, q) = read_prefixed(b, p)->Some_0;
    let v = decode_view(b)->Some_0;
    assert(encode_utf8(decode_utf8(u)) == u);
    assert(encode_utf8(decode_utf8(h)) == h);
    assert(spec_u32_to_le_bytes(u.len() as u32) == b.subrange(1, 5));
    assert(spec_u32_to_le_bytes(h.len() as u32) == b.subrange(p, p + 4));
    assert(spec_u64_to_le_bytes(spec_u64_from_le_bytes(b.subrange(q, q + 8))) == b.subrange(q, q + 8));
    assert(b =~= seq![b[0]] + b.subrange(1, 5) + u + b.subrange(p, p + 4) + h + b.subrange(q, q + 8));
    assert(v.encoding() =~= b);
}

/// Encoding loses nothing: two encodable instructions with the same
/// encoding are the same instruction. So decoding an encoding gives back the
/// instruction it came from.
pub proof fn lemma_encoding_injective(a: ProofInstructionView, b: ProofInstructionView)
    requires
        a.encodable(),
        b.encodable(),
        a.encoding() == b.encoding(),
    ensures
        a == b,
{
    lemma_round_trip(a);
    lemma_round_trip(b);
}

} // verus!
