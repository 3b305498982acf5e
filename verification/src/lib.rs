//! Groth16 proof tooling for a BLS-signature-verification circuit over BN254.
//!
//! The library parses the binary proving-parameter container and the JSON
//! verifying-key document into strongly typed curve parameters, runs the
//! Groth16 proof lifecycle against the arkworks backend, serializes proofs
//! canonically, formats on-chain calldata, and drives ordered fail-fast
//! batches.  Everything that computes is specified and verified; the calls
//! into the arkworks and num-bigint crates stand behind the trusted items of
//! the `backend` module.

pub mod backend;
pub mod batch;
pub mod calldata;
pub mod curve;
pub mod engine;
pub mod errors;
pub mod field;
pub mod inputs;
pub mod numeric;
pub mod proofs;
pub mod util;
pub mod vk;
pub mod zkey;

pub use errors::ZkError;
pub use field::{FieldElement, ScalarElement};
pub use curve::{G1Point, G2Point};
pub use zkey::{SectionHeader, ZkeyParser, ZkeySections};
pub use vk::{SnarkjsVerificationKey, VerifyingKey};
pub use proofs::Proof;
pub use calldata::{SolidityCalldata, parse_solidity_calldata, to_calldata};
pub use inputs::{BLSPublicInputs, BLSPrivateInputs, BLSProofInputs, ProofResult, ProofStats, build_proof_result};
pub use engine::{EngineState, Groth16Engine};
pub use batch::{BatchFailure, BatchProofResult, BatchRun, validate_batch};
