//! Proof inputs for the BLS-signature-verification circuit, their
//! validation, and the assembled proof result.
//!
//! A proof request carries three public values (the message hash and the
//! two public-key coordinates) and two private ones (the signature
//! coordinates), each a decimal string.  The public-input order — message
//! hash, key X, key Y — is load-bearing: it is the order the verifying
//! key's `IC` vector expects.

use vstd::prelude::*;
use crate::calldata::{to_calldata, SolidityCalldata};
use crate::errors::ZkError;
use crate::field::{check_all_digits, ScalarElement};
use crate::numeric::{dec_ok, dec_val, scalar_modulus};
use crate::proofs::{spec_serialize, Proof};

verus! {

/// The public signal values, as decimal strings.
#[derive(Clone, Debug)]
pub struct BLSPublicInputs {
    pub message_hash: String,
    pub public_key_x: String,
    pub public_key_y: String,
}

/// The private signal values, as decimal strings; request-scoped, never
/// persisted.
#[derive(Clone, Debug)]
pub struct BLSPrivateInputs {
    pub signature_x: String,
    pub signature_y: String,
}

/// One complete proof request.
#[derive(Clone, Debug)]
pub struct BLSProofInputs {
    pub public_inputs: BLSPublicInputs,
    pub private_inputs: BLSPrivateInputs,
}

/// A generated proof: its canonical bytes, the ordered public-input
/// strings, and the calldata for the on-chain verifier.
pub struct ProofResult {
    pub proof: Vec<u8>,
    pub public_inputs: Vec<String>,
    pub solidity_calldata: SolidityCalldata,
}

/// Timing and size metadata; purely observational, never affects
/// correctness.
#[derive(Clone, Copy, Debug)]
pub struct ProofStats {
    pub proving_time_ms: u128,
    pub verification_time_ms: u128,
    pub proof_size_bytes: usize,
    pub num_constraints: usize,
}

impl BLSProofInputs {
    /// Every one of the five signal values is a non-empty decimal string.
    pub open spec fn spec_valid(&self) -> bool {
        &&& dec_ok(self.public_inputs.message_hash@)
        &&& dec_ok(self.public_inputs.public_key_x@)
        &&& dec_ok(self.public_inputs.public_key_y@)
        &&& dec_ok(self.private_inputs.signature_x@)
        &&& dec_ok(self.private_inputs.signature_y@)
    }

    /// The position of the first non-numeric value, in the canonical order
    /// message hash, key X, key Y, signature X, signature Y; 5 when all are
    /// valid.
    pub open spec fn spec_first_invalid(&self) -> int {
        if !dec_ok(self.public_inputs.message_hash@) {
            0
        } else if !dec_ok(self.public_inputs.public_key_x@) {
            1
        } else if !dec_ok(self.public_inputs.public_key_y@) {
            2
        } else if !dec_ok(self.private_inputs.signature_x@) {
            3
        } else if !dec_ok(self.private_inputs.signature_y@) {
            4
        } else {
            5
        }
    }

    /// Checks all five values; a non-numeric value is an invalid witness,
    /// reported with the position of the first offender.
    pub fn validate(&self) -> (r: Result<(), ZkError>)
        ensures
            (r matches Ok(_)) <==> self.spec_valid(),
            !self.spec_valid() ==> r == Err::<(), ZkError>(
                ZkError::InvalidWitness { index: self.spec_first_invalid() as usize },
            ),
    {
        if !check_all_digits(self.public_inputs.message_hash.as_str()) {
            return Err(ZkError::InvalidWitness { index: 0 });
        }
        if !check_all_digits(self.public_inputs.public_key_x.as_str()) {
            return Err(ZkError::InvalidWitness { index: 1 });
        }
        if !check_all_digits(self.public_inputs.public_key_y.as_str()) {
            return Err(ZkError::InvalidWitness { index: 2 });
        }
        if !check_all_digits(self.private_inputs.signature_x.as_str()) {
            return Err(ZkError::InvalidWitness { index: 3 });
        }
        if !check_all_digits(self.private_inputs.signature_y.as_str()) {
            return Err(ZkError::InvalidWitness { index: 4 });
        }
        Ok(())
    }
}

impl BLSPublicInputs {
    /// All three public values are non-empty decimal strings.
    pub open spec fn spec_valid(&self) -> bool {
        dec_ok(self.message_hash@) && dec_ok(self.public_key_x@) && dec_ok(self.public_key_y@)
    }

    /// The ordered public-input strings: message hash, key X, key Y.
    pub fn ordered_strings(&self) -> (r: Vec<String>)
        ensures
            r@.len() == 3,
            r@[0]@ == self.message_hash@,
            r@[1]@ == self.public_key_x@,
            r@[2]@ == self.public_key_y@,
    {
        vec![self.message_hash.clone(), self.public_key_x.clone(), self.public_key_y.clone()]
    }

    /// The ordered public inputs reduced into the scalar field — the same
    /// reduction convention the witness generator uses, so that the proof
    /// is checked against the intended statement.
    pub fn ordered_scalars(&self) -> (r: Result<Vec<ScalarElement>, ZkError>)
        ensures
            (r matches Ok(_)) <==> self.spec_valid(),
            r matches Ok(v) ==> v@.len() == 3 && (forall|i: int|
                0 <= i < 3 ==> (#[trigger] v@[i]).wf()) && v@[0].value() == dec_val(
                self.message_hash@,
            ) % scalar_modulus() && v@[1].value() == dec_val(self.public_key_x@)
                % scalar_modulus() && v@[2].value() == dec_val(self.public_key_y@)
                % scalar_modulus(),
            r matches Err(e) ==> e matches ZkError::Format { .. },
    {
        let a = match ScalarElement::parse_decimal(self.message_hash.as_str()) {
            Ok(v) => v,
            Err(e) => { return Err(e) },
        };
        let b = match ScalarElement::parse_decimal(self.public_key_x.as_str()) {
            Ok(v) => v,
            Err(e) => { return Err(e) },
        };
        let c = match ScalarElement::parse_decimal(self.public_key_y.as_str()) {
            Ok(v) => v,
            Err(e) => { return Err(e) },
        };
        Ok(vec![a, b, c])
    }
}

/// Assembles the result handed back to callers: the proof's canonical
/// bytes, the ordered public-input signal strings, and the on-chain
/// calldata.  The signal strings are the caller's values reduced into the
/// scalar field and rendered canonically — exactly the public-signal vector
/// the circuit derives, by the witness generator's big-endian convention.
/// Fails exactly when a public value is non-numeric.
pub fn build_proof_result(proof: &Proof, public_inputs: &BLSPublicInputs) -> (r: Result<
    ProofResult,
    ZkError,
>)
    requires
        proof.wf(),
    ensures
        (r matches Ok(_)) <==> public_inputs.spec_valid(),
        r matches Ok(pr) ==> {
            &&& pr.proof@ == spec_serialize(*proof)
            &&& pr.public_inputs@.len() == 3
            &&& dec_ok(pr.public_inputs@[0]@) && dec_val(pr.public_inputs@[0]@) == dec_val(
                public_inputs.message_hash@,
            ) % scalar_modulus()
            &&& dec_ok(pr.public_inputs@[1]@) && dec_val(pr.public_inputs@[1]@) == dec_val(
                public_inputs.public_key_x@,
            ) % scalar_modulus()
            &&& dec_ok(pr.public_inputs@[2]@) && dec_val(pr.public_inputs@[2]@) == dec_val(
                public_inputs.public_key_y@,
            ) % scalar_modulus()
            &&& pr.solidity_calldata.a@.len() == 2
            &&& pr.solidity_calldata.b@.len() == 2
            &&& pr.solidity_calldata.b@[0]@.len() == 2
            &&& pr.solidity_calldata.b@[1]@.len() == 2
            &&& pr.solidity_calldata.c@.len() == 2
            &&& dec_val(pr.solidity_calldata.a@[0]@) == proof.a.x.value()
            &&& dec_val(pr.solidity_calldata.a@[1]@) == proof.a.y.value()
            &&& dec_val(pr.solidity_calldata.b@[0]@[0]@) == proof.b.x_c1.value()
            &&& dec_val(pr.solidity_calldata.b@[0]@[1]@) == proof.b.x_c0.value()
            &&& dec_val(pr.solidity_calldata.b@[1]@[0]@) == proof.b.y_c1.value()
            &&& dec_val(pr.solidity_calldata.b@[1]@[1]@) == proof.b.y_c0.value()
            &&& dec_val(pr.solidity_calldata.c@[0]@) == proof.c.x.value()
            &&& dec_val(pr.solidity_calldata.c@[1]@) == proof.c.y.value()
            &&& pr.solidity_calldata.inputs@.len() == 3
            &&& forall|k: int|
                0 <= k < 3 ==> dec_val((#[trigger] pr.solidity_calldata.inputs@[k])@) == dec_val(
                    pr.public_inputs@[k]@,
                )
        },
        r matches Err(e) ==> e matches ZkError::Format { .. },
{
    let scalars = match public_inputs.ordered_scalars() {
        Ok(v) => v,
        Err(e) => { return Err(e) },
    };
    let bytes = proof.serialize();
    let calldata = to_calldata(proof, &scalars);
    let signals = vec![scalars[0].to_decimal(), scalars[1].to_decimal(), scalars[2].to_decimal()];
    Ok(ProofResult { proof: bytes, public_inputs: signals, solidity_calldata: calldata })
}

} // verus!
