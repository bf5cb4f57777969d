use vstd::prelude::*;

use ark_serialize::CanonicalDeserialize;
use ark_snark::SNARK;

verus! {

#[verifier::external_type_specification]
#[verifier::external_body]
pub struct ExSynthesisError(ark_relations::r1cs::SynthesisError);

#[verifier::external_type_specification]
#[verifier::external_body]
pub struct ExSerializationError(ark_serialize::SerializationError);

/// The proof bytes hold valid points: each on its curve and in the prime-order subgroup.
pub uninterp spec fn proof_points_ok(b: Seq<u8>) -> bool;

/// The verifying-key bytes hold valid points: each on its curve and in the subgroup.
pub uninterp spec fn key_points_ok(b: Seq<u8>) -> bool;

/// What the Groth16 pairing check answers for the key and proof read from these
/// bytes and the public inputs of these values (each taken modulo the field's
/// prime): `None` when the engine itself faults.
pub uninterp spec fn pairing_outcome(vk: Seq<u8>, inputs: Seq<nat>, proof: Seq<u8>) -> Option<bool>;

/// A Groth16 proof over BN254, as the pairing engine holds it.
#[verifier::external_body]
struct ArkProof {
    inner: ark_groth16::Proof<ark_bn254::Bn254>,
}

/// A Groth16 verifying key over BN254, as the pairing engine holds it.
#[verifier::external_body]
struct ArkKey {
    inner: ark_groth16::VerifyingKey<ark_bn254::Bn254>,
}

/// An element of the BN254 scalar field.
#[verifier::external_body]
struct ArkScalar {
    inner: ark_bn254::Fr,
}

/// An engine proof with the bytes it was read from. Only `read_proof` makes one.
pub struct EngineProof {
    engine: ArkProof,
    bytes: Ghost<Seq<u8>>,
}

/// An engine key with the bytes it was read from. Only `read_key` makes one.
pub struct EngineKey {
    engine: ArkKey,
    bytes: Ghost<Seq<u8>>,
}

/// A field element with the integer it was read from. Only `read_scalar` makes one.
pub struct EngineScalar {
    engine: ArkScalar,
    value: Ghost<nat>,
}

impl EngineProof {
    pub closed spec fn source(&self) -> Seq<u8> {
        self.bytes@
    }
}

impl EngineKey {
    pub closed spec fn source(&self) -> Seq<u8> {
        self.bytes@
    }
}

impl EngineScalar {
    pub closed spec fn source(&self) -> nat {
        self.value@
    }
}

/// The integers that the scalars were read from.
pub open spec fn scalar_sources(xs: Seq<EngineScalar>) -> Seq<nat> {
    xs.map_values(|x: EngineScalar| x.source())
}

/// Relies on `CanonicalDeserialize::deserialize_uncompressed` for
/// `ark_groth16::Proof<Bn254>`: reads the three curve points, checking that each
/// lies on its curve and in the prime-order subgroup.
#[verifier::external_body]
pub fn read_proof(b: &Vec<u8>) -> (r: Result<EngineProof, ark_serialize::SerializationError>)
    ensures
        r is Ok <==> proof_points_ok(b@),
        r is Ok ==> r->Ok_0.source() == b@,
{
    match ark_groth16::Proof::<ark_bn254::Bn254>::deserialize_uncompressed(&b[..]) {
        Ok(inner) => Ok(EngineProof { engine: ArkProof { inner }, bytes: Ghost(b@) }),
        Err(e) => Err(e),
    }
}

/// Relies on `CanonicalDeserialize::deserialize_uncompressed` for
/// `ark_groth16::VerifyingKey<Bn254>`: reads the key's points, checking each.
#[verifier::external_body]
pub fn read_key(b: &Vec<u8>) -> (r: Result<EngineKey, ark_serialize::SerializationError>)
    ensures
        r is Ok <==> key_points_ok(b@),
        r is Ok ==> r->Ok_0.source() == b@,
{
    match ark_groth16::VerifyingKey::<ark_bn254::Bn254>::deserialize_uncompressed(&b[..]) {
        Ok(inner) => Ok(EngineKey { engine: ArkKey { inner }, bytes: Ghost(b@) }),
        Err(e) => Err(e),
    }
}

/// Relies on `FromStr` for `ark_bn254::Fr`: a non-empty string of ASCII digits
/// without a superfluous leading zero reads as that integer modulo the prime.
#[verifier::external_body]
pub fn read_scalar(s: &str) -> (r: Result<EngineScalar, ()>)
    ensures
        crate::inputs::canonical_decimal(s@) ==> r is Ok,
        r is Ok ==> r->Ok_0.source() == crate::inputs::digits_value(s@),
{
    match <ark_bn254::Fr as std::str::FromStr>::from_str(s) {
        Ok(inner) => Ok(EngineScalar { engine: ArkScalar { inner }, value: Ghost(crate::inputs::digits_value(s@)) }),
        Err(e) => Err(e),
    }
}

/// Relies on `SNARK::verify` for `Groth16<Bn254>`: prepares the key and runs the
/// pairing check of the proof against the public inputs.
#[verifier::external_body]
pub fn pairing_check(key: &EngineKey, inputs: &Vec<EngineScalar>, proof: &EngineProof) -> (r: Result<
    bool,
    ark_relations::r1cs::SynthesisError,
>)
    ensures
        r is Ok <==> pairing_outcome(key.source(), scalar_sources(inputs@), proof.source()) is Some,
        r is Ok ==> r->Ok_0 == pairing_outcome(
            key.source(),
            scalar_sources(inputs@),
            proof.source(),
        )->0,
{
    let xs: Vec<ark_bn254::Fr> = inputs.iter().map(|x| x.engine.inner).collect();
    ark_groth16::Groth16::<ark_bn254::Bn254>::verify(&key.engine.inner, &xs, &proof.engine.inner)
}

} // verus!
