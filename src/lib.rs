//! A bridge that proves, with a Groth16 SNARK over BN254, that private values
//! add up to a public sum, and checks such proofs from their bytes.
//!
//! - `circuit`: the aggregation relation as a rank-one constraint system.
//! - `codec`: the fixed byte frames of proofs and verifying keys.
//! - `inputs`: the decimal reading of public inputs.
//! - `engine`: the Groth16 engine's reading and pairing calls.
//! - `bridge`: planning a composition and verifying a proof.
//! - `error`: the failure kinds and their boundary classes.
pub mod bridge;
pub mod circuit;
pub mod codec;
pub mod engine;
pub mod error;
pub mod inputs;
