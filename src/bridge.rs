use vstd::prelude::*;

use crate::circuit::{seq_sum, AggregationCircuit};
use crate::codec::{proof_frame_ok, vk_frame_ok, vk_input_count, ProofBytes, VerifyingKeyBytes};
use crate::engine::{
    key_points_ok, pairing_check, pairing_outcome, proof_points_ok, read_key, read_proof,
    read_scalar, scalar_sources, EngineScalar,
};
use crate::error::{BridgeError, VerifyFault};
use crate::inputs::{canonical_digits, public_input_value};

verus! {

/// The values of the public inputs, each read under the lenient decimal policy.
pub open spec fn public_values(public_inputs: Seq<String>) -> Seq<nat> {
    public_inputs.map_values(|s: String| public_input_value(s@))
}

/// What verification returns once the pairing engine has answered: its verdict,
/// or a pairing fault when the engine itself failed.
pub fn verification_outcome(engine: Result<bool, ark_relations::r1cs::SynthesisError>) -> (r: Result<
    bool,
    BridgeError,
>)
    ensures
        engine is Ok ==> r == Ok::<bool, BridgeError>(engine->Ok_0),
        engine is Err ==> r == Err::<bool, BridgeError>(
            BridgeError::VerificationError(VerifyFault::PairingFault),
        ),
{
    match engine {
        Ok(valid) => Ok(valid),
        Err(_) => Err(BridgeError::VerificationError(VerifyFault::PairingFault)),
    }
}

/// Checks a proof against a verifying key and public inputs given as decimal
/// strings. A proof that fails the pairing check gives `Ok(false)`; errors are
/// reserved for inputs that cannot be checked at all. A missing key is reported
/// first, then a bad proof, then a bad key, then a wrong number of inputs.
pub fn verify(proof_bytes: Vec<u8>, vk_bytes: Vec<u8>, public_inputs: &Vec<String>) -> (r: Result<
    bool,
    BridgeError,
>)
    ensures
        vk_bytes@.len() == 0 ==> r == Err::<bool, BridgeError>(
            BridgeError::VerificationError(VerifyFault::MissingKey),
        ),
        vk_bytes@.len() > 0 && !(proof_frame_ok(proof_bytes@) && proof_points_ok(proof_bytes@))
            ==> r == Err::<bool, BridgeError>(
            BridgeError::VerificationError(VerifyFault::MalformedProof),
        ),
        vk_bytes@.len() > 0 && proof_frame_ok(proof_bytes@) && proof_points_ok(proof_bytes@) && !(
        vk_frame_ok(vk_bytes@) && key_points_ok(vk_bytes@)) ==> r == Err::<bool, BridgeError>(
            BridgeError::VerificationError(VerifyFault::MalformedKey),
        ),
        vk_bytes@.len() > 0 && proof_frame_ok(proof_bytes@) && proof_points_ok(proof_bytes@)
            && vk_frame_ok(vk_bytes@) && key_points_ok(vk_bytes@) && public_inputs@.len()
            != vk_input_count(vk_bytes@) ==> r == Err::<bool, BridgeError>(
            BridgeError::VerificationError(VerifyFault::PairingFault),
        ),
        vk_bytes@.len() > 0 && proof_frame_ok(proof_bytes@) && proof_points_ok(proof_bytes@)
            && vk_frame_ok(vk_bytes@) && key_points_ok(vk_bytes@) && public_inputs@.len()
            == vk_input_count(vk_bytes@) ==> r == match pairing_outcome(
            vk_bytes@,
            public_values(public_inputs@),
            proof_bytes@,
        ) {
            Some(v) => Ok::<bool, BridgeError>(v),
            None => Err::<bool, BridgeError>(
                BridgeError::VerificationError(VerifyFault::PairingFault),
            ),
        },
        r is Err ==> r->Err_0 is VerificationError,
{
    if vk_bytes.len() == 0 {
        return Err(BridgeError::VerificationError(VerifyFault::MissingKey));
    }
    let proof = match ProofBytes::decode(proof_bytes) {
        Ok(p) => p,
        Err(_) => return Err(BridgeError::VerificationError(VerifyFault::MalformedProof)),
    };
    let engine_proof = match read_proof(proof.as_bytes()) {
        Ok(p) => p,
        Err(_) => return Err(BridgeError::VerificationError(VerifyFault::MalformedProof)),
    };
    let key = match VerifyingKeyBytes::decode(vk_bytes) {
        Ok(k) => k,
        Err(_) => return Err(BridgeError::VerificationError(VerifyFault::MalformedKey)),
    };
    let engine_key = match read_key(key.as_bytes()) {
        Ok(k) => k,
        Err(_) => return Err(BridgeError::VerificationError(VerifyFault::MalformedKey)),
    };
    let points = key.point_count();
    if points == 0 || points - 1 != public_inputs.len() {
        return Err(BridgeError::VerificationError(VerifyFault::PairingFault));
    }
    let mut scalars: Vec<EngineScalar> = Vec::new();
    let mut i: usize = 0;
    while i < public_inputs.len()
        invariant
            i <= public_inputs@.len(),
            scalars@.len() == i,
            forall|j: int|
                0 <= j < i ==> (#[trigger] scalars@[j]).source() == public_input_value(
                    public_inputs@[j]@,
                ),
        decreases public_inputs@.len() - i,
    {
        let digits = canonical_digits(public_inputs[i].as_str());
        let scalar = match read_scalar(digits) {
            Ok(x) => x,
            Err(_) => return Err(BridgeError::VerificationError(VerifyFault::PairingFault)),
        };
        scalars.push(scalar);
        i = i + 1;
    }
    assert(scalar_sources(scalars@) =~= public_values(public_inputs@));
    verification_outcome(pairing_check(&engine_key, &scalars, &engine_proof))
}

/// The one-per-item witness that composition proves: each base value counts
/// as one, and the public sum is their number.
pub open spec fn composition_witness_ok(base_values: Seq<Vec<u8>>, c: AggregationCircuit) -> bool {
    &&& c.wf()
    &&& c.arity == base_values.len()
    &&& c.witness is Some
    &&& c.witness->0.inputs@ == Seq::new(base_values.len(), |i: int| 1u64)
    &&& c.witness->0.sum as int == base_values.len()
}

/// Validates the base values and builds the circuit that composition proves.
/// Fails with `FormatError` when there is no first element or it is empty.
pub fn plan_composition(base_values: &Vec<Vec<u8>>) -> (r: Result<AggregationCircuit, BridgeError>)
    ensures
        r is Err <==> (base_values@.len() == 0 || base_values@[0]@.len() == 0),
        r is Err ==> r == Err::<AggregationCircuit, BridgeError>(BridgeError::FormatError),
        r is Ok ==> composition_witness_ok(base_values@, r->Ok_0),
        r is Ok ==> r->Ok_0.relation_holds(),
{
    let n = base_values.len();
    if n == 0 || base_values[0].len() == 0 {
        return Err(BridgeError::FormatError);
    }
    let mut ones: Vec<u64> = Vec::new();
    let mut i: usize = 0;
    while i < n
        invariant
            i <= n,
            n == base_values@.len(),
            ones@ == Seq::new(i as nat, |j: int| 1u64),
            seq_sum(ones@) == i as int,
        decreases n - i,
    {
        ones.push(1);
        i = i + 1;
        assert(ones@.drop_last() =~= Seq::new((i - 1) as nat, |j: int| 1u64));
        assert(ones@ =~= Seq::new(i as nat, |j: int| 1u64));
    }
    let c = AggregationCircuit::with_witness(ones, n as u64);
    Ok(c)
}

} // verus!
