//! Ordered batch proving with fail-fast semantics.
//!
//! A batch proves its items strictly in input order.  On the first failure
//! at index `i` the whole batch aborts, surfacing `i` and the underlying
//! error; results already produced for earlier indices are discarded — a
//! cryptographic batch with silently dropped items is more dangerous than
//! an explicit abort, so the operation is all-or-nothing.
//!
//! The aggregated calldata of a finished batch is the plain concatenation
//! of the individual proof bytes.  It is not a cryptographic aggregation,
//! and nothing here claims otherwise.
//!
//! Proving one item needs the external toolchain, so the driver is split:
//! this module holds the verified decisions (which item is next, what a
//! failure reports, what the finished batch contains) and the caller
//! performs the outside work between steps.

use vstd::prelude::*;
use crate::errors::ZkError;
use crate::inputs::{BLSProofInputs, ProofResult};
use crate::util::append_bytes;

verus! {

/// Why and where a batch stopped: the index of the failing item and the
/// per-item error.
pub struct BatchFailure {
    pub index: usize,
    pub error: ZkError,
}

/// A finished batch: one result per input, aligned index for index, the
/// concatenated proof bytes, and the total wall-clock time.
pub struct BatchProofResult {
    pub proofs: Vec<ProofResult>,
    pub aggregated_calldata: Vec<u8>,
    pub total_proving_time_ms: u128,
}

/// The concatenation of the proof bytes of `ps`, in order.
pub open spec fn spec_concat_proofs(ps: Seq<ProofResult>) -> Seq<u8>
    decreases ps.len(),
{
    if ps.len() == 0 {
        Seq::empty()
    } else {
        ps.first().proof@ + spec_concat_proofs(ps.drop_first())
    }
}

/// There is no item before `i` whose values fail validation.
pub open spec fn spec_valid_before(inputs: Seq<BLSProofInputs>, i: int) -> bool {
    forall|j: int| 0 <= j < i ==> (#[trigger] inputs[j]).spec_valid()
}

/// Validates a batch up front, in input order, stopping at the first item
/// with a non-numeric value: the reported index is exactly the first
/// offending item, and nothing past it is considered.
#[verifier::loop_isolation(false)]
pub fn validate_batch(inputs: &Vec<BLSProofInputs>) -> (r: Result<(), BatchFailure>)
    ensures
        (r matches Ok(_)) <==> spec_valid_before(inputs@, inputs@.len() as int),
        r matches Err(f) ==> {
            &&& f.index < inputs@.len()
            &&& spec_valid_before(inputs@, f.index as int)
            &&& !inputs@[f.index as int].spec_valid()
            &&& f.error == ZkError::InvalidWitness {
                index: inputs@[f.index as int].spec_first_invalid() as usize,
            }
        },
{
    let mut i: usize = 0;
    while i < inputs.len()
        invariant
            i <= inputs@.len(),
            spec_valid_before(inputs@, i as int),
        decreases inputs@.len() - i,
    {
        match inputs[i].validate() {
            Ok(_) => {},
            Err(e) => {
                return Err(BatchFailure { index: i, error: e });
            },
        }
        i = i + 1;
    }
    Ok(())
}

/// The verified state of one sequential batch run: the inputs, the index
/// of the next item to prove, and the results completed so far — always
/// one per already-proved item, in order.
pub struct BatchRun {
    pub inputs: Vec<BLSProofInputs>,
    pub next: usize,
    pub completed: Vec<ProofResult>,
}

impl BatchRun {
    pub open spec fn wf(&self) -> bool {
        self.next <= self.inputs@.len() && self.completed@.len() == self.next
    }

    /// Everything proved, nothing left.
    pub open spec fn is_done(&self) -> bool {
        self.next == self.inputs@.len()
    }

    pub fn new(inputs: Vec<BLSProofInputs>) -> (r: BatchRun)
        ensures
            r.wf(),
            r.inputs@ == inputs@,
            r.next == 0,
            r.completed@.len() == 0,
    {
        BatchRun { inputs, next: 0, completed: Vec::new() }
    }

    /// The item to prove next, strictly in input order.
    pub fn current(&self) -> (r: Option<&BLSProofInputs>)
        requires
            self.wf(),
        ensures
            self.next < self.inputs@.len() ==> (r matches Some(x) && *x == self.inputs@[self.next as int]),
            self.next >= self.inputs@.len() ==> r is None,
    {
        if self.next < self.inputs.len() {
            Some(&self.inputs[self.next])
        } else {
            None
        }
    }

    /// Records the result of the item just proved and moves to the next
    /// one.
    pub fn record_success(&mut self, result: ProofResult)
        requires
            old(self).wf(),
            old(self).next < old(self).inputs@.len(),
        ensures
            final(self).wf(),
            final(self).inputs@ == old(self).inputs@,
            final(self).next == old(self).next + 1,
            final(self).completed@ == old(self).completed@.push(result),
    {
        self.completed.push(result);
        self.next = self.completed.len();
    }

    /// A failure at the current item aborts the batch: the failure names
    /// exactly the index of the item being proved, and every completed
    /// result is discarded with the run.
    pub fn fail(self, error: ZkError) -> (r: BatchFailure)
        requires
            self.wf(),
            self.next < self.inputs@.len(),
        ensures
            r.index == self.next,
            r.error == error,
    {
        BatchFailure { index: self.next, error }
    }

    /// Seals a fully proved batch: the results stand index for index with
    /// the inputs, and the aggregated calldata is the plain concatenation
    /// of the proof bytes.
    #[verifier::loop_isolation(false)]
    pub fn finish(self, total_proving_time_ms: u128) -> (r: BatchProofResult)
        requires
            self.wf(),
            self.is_done(),
        ensures
            r.proofs@ == self.completed@,
            r.proofs@.len() == self.inputs@.len(),
            r.aggregated_calldata@ == spec_concat_proofs(self.completed@),
            r.total_proving_time_ms == total_proving_time_ms,
    {
        let mut aggregated: Vec<u8> = Vec::new();
        let mut i: usize = 0;
        proof {
            assert(self.completed@.skip(0) =~= self.completed@);
        }
        while i < self.completed.len()
            invariant
                i <= self.completed@.len(),
                spec_concat_proofs(self.completed@) == aggregated@ + spec_concat_proofs(
                    self.completed@.skip(i as int),
                ),
            decreases self.completed@.len() - i,
        {
            let ghost before = aggregated@;
            append_bytes(&mut aggregated, &self.completed[i].proof);
            proof {
                assert(self.completed@.skip(i as int).first() == self.completed@[i as int]);
                assert(self.completed@.skip(i as int).drop_first() =~= self.completed@.skip(
                    i as int + 1,
                ));
                assert(before + (self.completed@[i as int].proof@ + spec_concat_proofs(
                    self.completed@.skip(i as int + 1),
                )) =~= aggregated@ + spec_concat_proofs(self.completed@.skip(i as int + 1)));
            }
            i = i + 1;
        }
        proof {
            assert(spec_concat_proofs(self.completed@.skip(self.completed@.len() as int))
                =~= Seq::<u8>::empty());
            assert(aggregated@ + Seq::<u8>::empty() =~= aggregated@);
        }
        BatchProofResult {
            proofs: self.completed,
            aggregated_calldata: aggregated,
            total_proving_time_ms,
        }
    }
}

} // verus!
