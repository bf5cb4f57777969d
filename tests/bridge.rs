use ark_bn254::{Bn254, Fr};
use ark_groth16::{Groth16, ProvingKey, VerifyingKey};
use ark_relations::r1cs::{
    ConstraintSynthesizer, ConstraintSystemRef, LinearCombination, SynthesisError, Variable,
};
use ark_serialize::{CanonicalDeserialize, CanonicalSerialize};
use ark_snark::SNARK;
use ark_std::rand::rngs::StdRng;
use ark_std::rand::SeedableRng;

use zk_bridge::bridge::{plan_composition, verification_outcome, verify};
use zk_bridge::circuit::{AggregationCircuit, VarRef};
use zk_bridge::codec::{ProofBytes, VerifyingKeyBytes, PROOF_LEN};
use zk_bridge::error::{BoundaryClass, BridgeError, VerifyFault};
use zk_bridge::inputs::canonical_digits;

struct Synth(AggregationCircuit);

fn value_of(values: &Option<Vec<u128>>, i: usize) -> Result<Fr, SynthesisError> {
    values
        .as_ref()
        .map(|v| Fr::from(v[i]))
        .ok_or(SynthesisError::AssignmentMissing)
}

impl ConstraintSynthesizer<Fr> for Synth {
    fn generate_constraints(self, cs: ConstraintSystemRef<Fr>) -> Result<(), SynthesisError> {
        let assignment = self.0.assignment();
        let witness_values = assignment.as_ref().map(|a| a.witness.clone());
        let public_values = assignment.as_ref().map(|a| a.public.clone());
        let mut witnesses = Vec::new();
        for i in 0..=self.0.arity {
            witnesses.push(cs.new_witness_variable(|| value_of(&witness_values, i))?);
        }
        let inputs = vec![cs.new_input_variable(|| value_of(&public_values, 0))?];
        let to_lc = |vars: &Vec<VarRef>| {
            let mut acc: LinearCombination<Fr> = LinearCombination::zero();
            for v in vars {
                acc = acc
                    + match v {
                        VarRef::One => Variable::One,
                        VarRef::Input(i) => inputs[*i],
                        VarRef::Witness(i) => witnesses[*i],
                    };
            }
            acc
        };
        for c in self.0.constraints() {
            cs.enforce_constraint(to_lc(&c.a), to_lc(&c.b), to_lc(&c.c))?;
        }
        Ok(())
    }
}

fn keys(n: usize, seed: u64) -> (ProvingKey<Bn254>, VerifyingKey<Bn254>) {
    let mut rng = StdRng::seed_from_u64(seed);
    Groth16::<Bn254>::circuit_specific_setup(Synth(AggregationCircuit::shape(n)), &mut rng).unwrap()
}

fn prove_bytes(pk: &ProvingKey<Bn254>, c: AggregationCircuit, seed: u64) -> Vec<u8> {
    c.check_witness().unwrap();
    let mut rng = StdRng::seed_from_u64(seed);
    let proof = Groth16::<Bn254>::prove(pk, Synth(c), &mut rng).unwrap();
    let mut out = Vec::new();
    proof.serialize_uncompressed(&mut out).unwrap();
    out
}

fn vk_bytes(vk: &VerifyingKey<Bn254>) -> Vec<u8> {
    let mut out = Vec::new();
    vk.serialize_uncompressed(&mut out).unwrap();
    out
}

fn strings(xs: &[&str]) -> Vec<String> {
    xs.iter().map(|s| s.to_string()).collect()
}

fn compose_bytes(base_values: &Vec<Vec<u8>>, seed: u64) -> (Vec<u8>, Vec<u8>) {
    let c = plan_composition(base_values).unwrap();
    let (pk, vk) = keys(c.arity, seed);
    (prove_bytes(&pk, c, seed + 1), vk_bytes(&vk))
}

#[test]
fn satisfying_witness_verifies() {
    let (pk, vk) = keys(3, 7);
    let proof = prove_bytes(&pk, AggregationCircuit::with_witness(vec![5, 9, 28], 42), 8);
    assert_eq!(verify(proof, vk_bytes(&vk), &strings(&["42"])), Ok(true));
}

#[test]
fn satisfying_witness_verifies_with_empty_inputs() {
    let (pk, vk) = keys(0, 11);
    let proof = prove_bytes(&pk, AggregationCircuit::with_witness(vec![], 0), 12);
    assert_eq!(verify(proof, vk_bytes(&vk), &strings(&["0"])), Ok(true));
}

#[test]
fn violating_witness_is_rejected_before_proving() {
    let c = AggregationCircuit::with_witness(vec![1, 2, 3], 7);
    assert_eq!(c.check_witness(), Err(BridgeError::ConstraintError));
    let missing = AggregationCircuit::shape(3);
    assert_eq!(missing.check_witness(), Err(BridgeError::ConstraintError));
    let large = AggregationCircuit::with_witness(vec![u64::MAX, 1], 0);
    assert_eq!(large.check_witness(), Err(BridgeError::ConstraintError));
    assert_eq!(AggregationCircuit::with_witness(vec![1, 2, 3], 6).check_witness(), Ok(()));
}

#[test]
fn proof_length_is_constant() {
    for n in [0usize, 1, 10, 1000] {
        let (pk, _vk) = keys(n, 3);
        let c = AggregationCircuit::with_witness(vec![1; n], n as u64);
        let bytes = prove_bytes(&pk, c, 4);
        assert_eq!(bytes.len(), PROOF_LEN);
    }
}

#[test]
fn empty_key_is_an_error_whatever_the_proof() {
    let missing = Err(BridgeError::VerificationError(VerifyFault::MissingKey));
    assert_eq!(verify(vec![], vec![], &strings(&["3"])), missing);
    assert_eq!(verify(vec![1, 2, 3], vec![], &strings(&[])), missing);
    assert_eq!(verify(vec![0; PROOF_LEN], vec![], &strings(&["3"])), missing);
}

#[test]
fn key_of_another_topology_gives_false() {
    let (pk3, _) = keys(3, 21);
    let (_, vk4) = keys(4, 22);
    let proof = prove_bytes(&pk3, AggregationCircuit::with_witness(vec![1, 1, 1], 3), 23);
    assert_eq!(verify(proof, vk_bytes(&vk4), &strings(&["3"])), Ok(false));
}

#[test]
fn engine_objects_round_trip_through_bytes() {
    let (pk, vk) = keys(2, 31);
    let proof_bytes = prove_bytes(&pk, AggregationCircuit::with_witness(vec![2, 3], 5), 32);
    let proof = ark_groth16::Proof::<Bn254>::deserialize_uncompressed(&proof_bytes[..]).unwrap();
    let mut again = Vec::new();
    proof.serialize_uncompressed(&mut again).unwrap();
    assert_eq!(again, proof_bytes);
    let key_bytes = vk_bytes(&vk);
    let key = VerifyingKey::<Bn254>::deserialize_uncompressed(&key_bytes[..]).unwrap();
    assert_eq!(key, vk);
}

#[test]
fn frames_round_trip() {
    let (pk, vk) = keys(2, 41);
    let proof_bytes = prove_bytes(&pk, AggregationCircuit::with_witness(vec![4, 4], 8), 42);
    let p = ProofBytes::decode(proof_bytes.clone()).unwrap();
    assert_eq!(p.encode(), proof_bytes);
    let key_bytes = vk_bytes(&vk);
    let k = VerifyingKeyBytes::decode(key_bytes.clone()).unwrap();
    assert_eq!(k.encode(), key_bytes);
    assert_eq!(k.point_count(), 2);
}

#[test]
fn truncated_or_padded_frames_are_rejected() {
    assert_eq!(ProofBytes::decode(vec![0; PROOF_LEN - 1]).err(), Some(BridgeError::FormatError));
    assert_eq!(ProofBytes::decode(vec![0; PROOF_LEN + 1]).err(), Some(BridgeError::FormatError));
    let (_, vk) = keys(1, 51);
    let mut key_bytes = vk_bytes(&vk);
    key_bytes.pop();
    assert_eq!(VerifyingKeyBytes::decode(key_bytes.clone()).err(), Some(BridgeError::FormatError));
    key_bytes.truncate(456 + 64);
    assert_eq!(VerifyingKeyBytes::decode(key_bytes).err(), Some(BridgeError::FormatError));
}

#[test]
fn compose_three_values_scenario() {
    let base = vec![b"a".to_vec(), b"b".to_vec(), b"c".to_vec()];
    let (proof, vk) = compose_bytes(&base, 61);
    assert_eq!(proof.len(), PROOF_LEN);
    assert_eq!(verify(proof.clone(), vk.clone(), &strings(&["3"])), Ok(true));
    assert_eq!(verify(proof, vk, &strings(&["4"])), Ok(false));
}

#[test]
fn compose_without_values_is_a_format_error() {
    assert_eq!(plan_composition(&vec![]).err(), Some(BridgeError::FormatError));
    assert_eq!(
        plan_composition(&vec![vec![], b"x".to_vec()]).err(),
        Some(BridgeError::FormatError)
    );
    assert_eq!(BridgeError::FormatError.boundary_class(), BoundaryClass::Value);
}

#[test]
fn compose_plan_counts_each_value_once() {
    let c = plan_composition(&vec![b"p".to_vec(), b"q".to_vec()]).unwrap();
    assert_eq!(c.arity, 2);
    let w = c.witness.as_ref().unwrap();
    assert_eq!(w.inputs, vec![1, 1]);
    assert_eq!(w.sum, 2);
}

#[test]
fn missing_key_scenario() {
    let base = vec![b"a".to_vec(), b"b".to_vec(), b"c".to_vec()];
    let (proof, _) = compose_bytes(&base, 71);
    let r = verify(proof, vec![], &strings(&["3"]));
    let e = r.unwrap_err();
    assert_eq!(e, BridgeError::VerificationError(VerifyFault::MissingKey));
    assert_eq!(e.message(), "Missing Verification Key");
    assert_eq!(e.boundary_class(), BoundaryClass::Verification);
}

#[test]
fn malformed_proof_and_key_are_told_apart() {
    let (pk, vk) = keys(1, 81);
    let proof = prove_bytes(&pk, AggregationCircuit::with_witness(vec![9], 9), 82);
    let key = vk_bytes(&vk);
    let bad_proof = verify(vec![7; 10], key.clone(), &strings(&["9"])).unwrap_err();
    assert_eq!(bad_proof, BridgeError::VerificationError(VerifyFault::MalformedProof));
    assert_eq!(bad_proof.message(), "Malformed cryptographic proof bytes");
    let bad_key = verify(proof.clone(), vec![7; 10], &strings(&["9"])).unwrap_err();
    assert_eq!(bad_key, BridgeError::VerificationError(VerifyFault::MalformedKey));
    assert_eq!(bad_key.message(), "Invalid Verification Key format");
    let off_curve = verify(vec![0xff; PROOF_LEN], key.clone(), &strings(&["9"]));
    assert_eq!(off_curve, Err(BridgeError::VerificationError(VerifyFault::MalformedProof)));
    assert_eq!(
        verify(proof, key, &strings(&["9", "1"])),
        Err(BridgeError::VerificationError(VerifyFault::PairingFault))
    );
}

#[test]
fn unparsable_public_input_counts_as_zero() {
    let (pk, vk) = keys(2, 91);
    let proof = prove_bytes(&pk, AggregationCircuit::with_witness(vec![0, 0], 0), 92);
    assert_eq!(verify(proof, vk_bytes(&vk), &strings(&["not a number"])), Ok(true));
    assert_eq!(canonical_digits("abc"), "0");
    assert_eq!(canonical_digits(""), "0");
    assert_eq!(canonical_digits("+"), "0");
    assert_eq!(canonical_digits("-1"), "0");
    assert_eq!(canonical_digits("1 "), "0");
    assert_eq!(canonical_digits("\u{661}"), "0");
}

#[test]
fn decimal_inputs_are_read_into_the_field() {
    assert_eq!(canonical_digits("+007"), "7");
    assert_eq!(canonical_digits("000"), "0");
    assert_eq!(canonical_digits("42"), "42");
    assert_eq!(canonical_digits("18446744073709551616"), "18446744073709551616");
    let base = vec![b"a".to_vec(), b"b".to_vec(), b"c".to_vec()];
    let (proof, vk) = compose_bytes(&base, 95);
    assert_eq!(verify(proof.clone(), vk.clone(), &strings(&["003"])), Ok(true));
    let modulus_plus_three =
        "21888242871839275222246405745257275088548364400416034343698204186575808495620";
    assert_eq!(verify(proof.clone(), vk.clone(), &strings(&[modulus_plus_three])), Ok(true));
    assert_eq!(verify(proof, vk, &strings(&["18446744073709551619"])), Ok(false));
}

#[test]
fn engine_outcomes_map_to_results() {
    assert_eq!(verification_outcome(Ok(true)), Ok(true));
    assert_eq!(verification_outcome(Ok(false)), Ok(false));
    assert_eq!(
        verification_outcome(Err(SynthesisError::UnexpectedIdentity)),
        Err(BridgeError::VerificationError(VerifyFault::PairingFault))
    );
}

#[test]
fn constraint_topology_depends_on_arity_only() {
    let a = AggregationCircuit::with_witness(vec![1, 2], 3).constraints();
    let b = AggregationCircuit::shape(2).constraints();
    assert_eq!(a.len(), 2);
    for (x, y) in a.iter().zip(b.iter()) {
        assert_eq!(x.a, y.a);
        assert_eq!(x.b, y.b);
        assert_eq!(x.c, y.c);
    }
    assert_eq!(a[0].a, vec![VarRef::Witness(0), VarRef::Witness(1)]);
    assert_eq!(a[1].c, vec![VarRef::Input(0)]);
    let asg = AggregationCircuit::with_witness(vec![u64::MAX, u64::MAX], 0).assignment().unwrap();
    assert_eq!(asg.witness[2], 2 * (u64::MAX as u128));
    assert!(AggregationCircuit::shape(2).assignment().is_none());
}

#[test]
fn error_classes() {
    assert_eq!(BridgeError::ConstraintError.boundary_class(), BoundaryClass::Verification);
    assert_eq!(
        BridgeError::RecursiveStepError { step: 0 }.boundary_class(),
        BoundaryClass::ProofGeneration
    );
    assert_eq!(BridgeError::SerializationError.boundary_class(), BoundaryClass::Runtime);
    assert_eq!(BridgeError::Panic.boundary_class(), BoundaryClass::Bridge);
}


#[test]
fn key_frame_with_wrong_stored_count_is_rejected() {
    let (pk, vk) = keys(1, 101);
    let proof = prove_bytes(&pk, AggregationCircuit::with_witness(vec![1], 1), 102);
    let mut key_bytes = vk_bytes(&vk);
    assert!(VerifyingKeyBytes::decode(key_bytes.clone()).is_ok());
    key_bytes[448] = key_bytes[448].wrapping_add(1);
    assert_eq!(VerifyingKeyBytes::decode(key_bytes.clone()).err(), Some(BridgeError::FormatError));
    assert_eq!(
        verify(proof, key_bytes, &strings(&["1"])),
        Err(BridgeError::VerificationError(VerifyFault::MalformedKey))
    );
}

#[test]
fn bad_points_are_reported_before_a_wrong_input_count() {
    let (pk, vk) = keys(1, 111);
    let proof = prove_bytes(&pk, AggregationCircuit::with_witness(vec![2], 2), 112);
    let key = vk_bytes(&vk);
    assert_eq!(
        verify(vec![0xff; PROOF_LEN], key.clone(), &strings(&["2", "5", "6"])),
        Err(BridgeError::VerificationError(VerifyFault::MalformedProof))
    );
    let mut bad_key = key.clone();
    for b in bad_key.iter_mut().take(64) {
        *b = 0xff;
    }
    assert!(VerifyingKeyBytes::decode(bad_key.clone()).is_ok());
    let e = verify(proof.clone(), bad_key, &strings(&["2", "5", "6"])).unwrap_err();
    assert_eq!(e, BridgeError::VerificationError(VerifyFault::MalformedKey));
    assert_eq!(e.message(), "Invalid Verification Key format");
    assert_eq!(verify(proof, key, &strings(&["2"])), Ok(true));
}
