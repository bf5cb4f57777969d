use vstd::prelude::*;

verus! {

/// Why a verification call failed, as opposed to returning `false`.
#[derive(Clone, Copy, Debug, PartialEq, Eq, Structural)]
pub enum VerifyFault {
    /// No verifying-key bytes were supplied.
    MissingKey,
    /// The proof bytes do not decode to a proof.
    MalformedProof,
    /// The verifying-key bytes do not decode to a verifying key.
    MalformedKey,
    /// The pairing engine itself reported a fault.
    PairingFault,
}

/// Every failure the bridge can report.
#[derive(Clone, Copy, Debug, PartialEq, Eq, Structural)]
pub enum BridgeError {
    /// The witness does not satisfy the declared relation, or is absent.
    ConstraintError,
    /// Empty or malformed input, or a bad byte encoding.
    FormatError,
    /// Constraint synthesis failed at the given composition step.
    RecursiveStepError { step: u32 },
    /// The codec failed to produce bytes.
    SerializationError,
    /// Verification could not be carried out.
    VerificationError(VerifyFault),
    /// An internal invariant was violated.
    Panic,
}

/// The exception classes visible across the calling boundary.
#[derive(Clone, Copy, Debug, PartialEq, Eq, Structural)]
pub enum BoundaryClass {
    /// The root bridge exception (catch-all).
    Bridge,
    /// Raised while building a proof.
    ProofGeneration,
    /// Raised while checking a proof.
    Verification,
    /// Raised for malformed caller input.
    Value,
    /// A generic runtime error.
    Runtime,
}

impl BridgeError {
    pub open spec fn spec_boundary_class(self) -> BoundaryClass {
        match self {
            BridgeError::ConstraintError => BoundaryClass::Verification,
            BridgeError::FormatError => BoundaryClass::Value,
            BridgeError::RecursiveStepError { .. } => BoundaryClass::ProofGeneration,
            BridgeError::SerializationError => BoundaryClass::Runtime,
            BridgeError::VerificationError(_) => BoundaryClass::Verification,
            BridgeError::Panic => BoundaryClass::Bridge,
        }
    }

    /// The exception class under which this error crosses the boundary.
    pub fn boundary_class(&self) -> (r: BoundaryClass)
        ensures
            r == self.spec_boundary_class(),
    {
        match self {
            BridgeError::ConstraintError => BoundaryClass::Verification,
            BridgeError::FormatError => BoundaryClass::Value,
            BridgeError::RecursiveStepError { .. } => BoundaryClass::ProofGeneration,
            BridgeError::SerializationError => BoundaryClass::Runtime,
            BridgeError::VerificationError(_) => BoundaryClass::Verification,
            BridgeError::Panic => BoundaryClass::Bridge,
        }
    }

    /// A short human-readable message; verification faults are told apart.
    pub fn message(&self) -> (r: &'static str)
        ensures
            *self == BridgeError::VerificationError(VerifyFault::MissingKey) ==> r@ == "Missing Verification Key"@,
            *self == BridgeError::VerificationError(VerifyFault::MalformedProof) ==> r@ == "Malformed cryptographic proof bytes"@,
            *self == BridgeError::VerificationError(VerifyFault::MalformedKey) ==> r@ == "Invalid Verification Key format"@,
    {
        match self {
            BridgeError::ConstraintError => "R1CS Constraint Satisfaction Failed",
            BridgeError::FormatError => "Empty or malformed input",
            BridgeError::RecursiveStepError { .. } => "Failed to synthesize the constraint system",
            BridgeError::SerializationError => "Proof serialization failure",
            BridgeError::VerificationError(VerifyFault::MissingKey) => "Missing Verification Key",
            BridgeError::VerificationError(VerifyFault::MalformedProof) => "Malformed cryptographic proof bytes",
            BridgeError::VerificationError(VerifyFault::MalformedKey) => "Invalid Verification Key format",
            BridgeError::VerificationError(VerifyFault::PairingFault) => "Pairing check engine failure",
            BridgeError::Panic => "Unexpected internal fault",
        }
    }
}

} // verus!
