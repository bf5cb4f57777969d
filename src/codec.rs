use vstd::prelude::*;

use crate::error::BridgeError;

verus! {

/// Bytes of an uncompressed Groth16 proof over BN254: two G1 points and one G2 point.
pub const PROOF_LEN: usize = 256;

/// Bytes of an uncompressed G1 point.
pub const G1_LEN: usize = 64;

/// Bytes before the verifying key's list of input points: one G1 and three G2 points.
pub const VK_HEAD_LEN: usize = 448;

/// Bytes of the verifying key's fixed part plus the 8-byte length of its point list.
pub const VK_FIXED_LEN: usize = 456;

/// The little-endian 64-bit integer stored at `at`.
pub open spec fn le_u64_at(b: Seq<u8>, at: int) -> int {
    b[at] as int + 256 * b[at + 1] as int + 65536 * b[at + 2] as int + 16777216 * b[at + 3] as int
        + 4294967296 * b[at + 4] as int + 1099511627776 * b[at + 5] as int + 281474976710656
        * b[at + 6] as int + 72057594037927936 * b[at + 7] as int
}

/// A proof frame has the fixed proof length.
pub open spec fn proof_frame_ok(b: Seq<u8>) -> bool {
    b.len() == PROOF_LEN
}

/// A verifying-key frame holds the fixed part, then a point list whose stored
/// length matches the bytes that follow.
pub open spec fn vk_frame_ok(b: Seq<u8>) -> bool {
    &&& b.len() >= VK_FIXED_LEN
    &&& (b.len() - VK_FIXED_LEN) % (G1_LEN as int) == 0
    &&& le_u64_at(b, VK_HEAD_LEN as int) == (b.len() - VK_FIXED_LEN) / (G1_LEN as int)
}

/// The number of public inputs that a well-framed verifying key accepts.
pub open spec fn vk_input_count(b: Seq<u8>) -> int {
    (b.len() - VK_FIXED_LEN) / (G1_LEN as int) - 1
}

/// What decoding `b` as a proof yields: the same bytes when well-framed.
pub open spec fn proof_decoding(b: Seq<u8>) -> Option<Seq<u8>> {
    if proof_frame_ok(b) {
        Some(b)
    } else {
        None
    }
}

/// What decoding `b` as a verifying key yields: the same bytes when well-framed.
pub open spec fn vk_decoding(b: Seq<u8>) -> Option<Seq<u8>> {
    if vk_frame_ok(b) {
        Some(b)
    } else {
        None
    }
}

/// The canonical bytes of a proof; always exactly `PROOF_LEN` long.
pub struct ProofBytes {
    bytes: Vec<u8>,
}

/// The canonical bytes of a verifying key, with a consistent point list.
pub struct VerifyingKeyBytes {
    bytes: Vec<u8>,
}

impl View for ProofBytes {
    type V = Seq<u8>;

    closed spec fn view(&self) -> Seq<u8> {
        self.bytes@
    }
}

impl View for VerifyingKeyBytes {
    type V = Seq<u8>;

    closed spec fn view(&self) -> Seq<u8> {
        self.bytes@
    }
}

/// The length of the key's point list, as stored after its fixed part.
fn stored_point_count(b: &Vec<u8>) -> (r: u128)
    requires
        b@.len() >= VK_FIXED_LEN,
    ensures
        r as int == le_u64_at(b@, VK_HEAD_LEN as int),
{
    let b0 = b[VK_HEAD_LEN] as u128;
    let b1 = b[VK_HEAD_LEN + 1] as u128;
    let b2 = b[VK_HEAD_LEN + 2] as u128;
    let b3 = b[VK_HEAD_LEN + 3] as u128;
    let b4 = b[VK_HEAD_LEN + 4] as u128;
    let b5 = b[VK_HEAD_LEN + 5] as u128;
    let b6 = b[VK_HEAD_LEN + 6] as u128;
    let b7 = b[VK_HEAD_LEN + 7] as u128;
    b0 + 256 * b1 + 65536 * b2 + 16777216 * b3 + 4294967296 * b4 + 1099511627776 * b5
        + 281474976710656 * b6 + 72057594037927936 * b7
}

impl ProofBytes {
    pub open spec fn wf(&self) -> bool {
        proof_frame_ok(self@)
    }

    /// Accepts exactly the byte strings of proof length; never truncates.
    pub fn decode(b: Vec<u8>) -> (r: Result<ProofBytes, BridgeError>)
        ensures
            r is Ok <==> proof_decoding(b@) is Some,
            r is Ok ==> Some(r->Ok_0@) == proof_decoding(b@) && r->Ok_0.wf(),
            r is Err ==> r == Err::<ProofBytes, BridgeError>(BridgeError::FormatError),
    {
        if b.len() == PROOF_LEN {
            Ok(ProofBytes { bytes: b })
        } else {
            Err(BridgeError::FormatError)
        }
    }

    /// The proof's bytes, always `PROOF_LEN` of them.
    pub fn encode(&self) -> (r: Vec<u8>)
        requires
            self.wf(),
        ensures
            r@ == self@,
            r@.len() == PROOF_LEN,
    {
        self.bytes.clone()
    }

    pub fn as_bytes(&self) -> (r: &Vec<u8>)
        ensures
            r@ == self@,
    {
        &self.bytes
    }
}

impl VerifyingKeyBytes {
    pub open spec fn wf(&self) -> bool {
        vk_frame_ok(self@)
    }

    /// Accepts exactly the well-framed verifying keys; never truncates.
    pub fn decode(b: Vec<u8>) -> (r: Result<VerifyingKeyBytes, BridgeError>)
        ensures
            r is Ok <==> vk_decoding(b@) is Some,
            r is Ok ==> Some(r->Ok_0@) == vk_decoding(b@) && r->Ok_0.wf(),
            r is Err ==> r == Err::<VerifyingKeyBytes, BridgeError>(BridgeError::FormatError),
    {
        let len = b.len();
        if len < VK_FIXED_LEN {
            return Err(BridgeError::FormatError);
        }
        let rest = len - VK_FIXED_LEN;
        if rest % G1_LEN != 0 {
            return Err(BridgeError::FormatError);
        }
        let stored = stored_point_count(&b);
        if stored != (rest / G1_LEN) as u128 {
            return Err(BridgeError::FormatError);
        }
        Ok(VerifyingKeyBytes { bytes: b })
    }

    /// The key's bytes, unchanged.
    pub fn encode(&self) -> (r: Vec<u8>)
        requires
            self.wf(),
        ensures
            r@ == self@,
    {
        self.bytes.clone()
    }

    /// How many input points the key lists: one more than the public inputs it accepts.
    pub fn point_count(&self) -> (r: usize)
        requires
            self.wf(),
        ensures
            r as int == vk_input_count(self@) + 1,
    {
        (self.bytes.len() - VK_FIXED_LEN) / G1_LEN
    }

    pub fn as_bytes(&self) -> (r: &Vec<u8>)
        ensures
            r@ == self@,
    {
        &self.bytes
    }
}

/// Decoding what the proof encoder produced gives back the same proof.
pub proof fn lemma_proof_round_trip(p: ProofBytes)
    requires
        p.wf(),
    ensures
        proof_decoding(p@) == Some(p@),
{
}

/// Decoding what the verifying-key encoder produced gives back the same key.
pub proof fn lemma_vk_round_trip(k: VerifyingKeyBytes)
    requires
        k.wf(),
    ensures
        vk_decoding(k@) == Some(k@),
{
}

/// Every proof has the same encoded length, whatever the instance it proves.
pub proof fn lemma_proof_length_constant(p: ProofBytes, q: ProofBytes)
    requires
        p.wf(),
        q.wf(),
    ensures
        p@.len() == q@.len() == PROOF_LEN,
{
}

} // verus!
