//! Error taxonomy for parameter loading, proving and verification.

use vstd::prelude::*;

verus! {

/// Every failure the library can report.
///
/// Parser and loader errors are fatal for the call that raised them and carry
/// positional context (a byte offset, a section type, an index).  A `false`
/// verification outcome is *not* an error: `verify` reports it as `Ok(false)`.
#[derive(Debug)]
pub enum ZkError {
    /// Malformed input: a bad magic tag, a malformed coordinate array, a
    /// non-decimal string where a decimal number is required.
    Format { offset: usize },
    /// A read would have run past the end of the buffer.
    Truncation { offset: usize, needed: u64 },
    /// The binary parameter container has no section of the required type.
    MissingSection { section_type: u32 },
    /// The number of public inputs does not match the verifying key.
    LengthMismatch { expected: usize, actual: usize },
    /// A witness value is non-numeric or structurally wrong; `index` names the
    /// offending input.
    InvalidWitness { index: usize },
    /// An operation that needs keys was requested on an uninitialized engine.
    SetupNotPerformed,
    /// The external witness/circuit collaborator failed; `detail` carries its
    /// diagnostic text.
    ExternalTool { detail: String },
    /// The textual calldata source could not be understood; no placeholder
    /// values are ever substituted for it.
    CalldataUnavailable,
}

impl ZkError {
    /// A short human-readable description.
    pub fn describe(&self) -> String {
        match self {
            ZkError::Format { .. } => "format error".to_owned(),
            ZkError::Truncation { .. } => "truncated buffer".to_owned(),
            ZkError::MissingSection { .. } => "missing section".to_owned(),
            ZkError::LengthMismatch { .. } => "public input count mismatch".to_owned(),
            ZkError::InvalidWitness { .. } => "invalid witness value".to_owned(),
            ZkError::SetupNotPerformed => "setup not performed".to_owned(),
            ZkError::ExternalTool { .. } => "external tool failure".to_owned(),
            ZkError::CalldataUnavailable => "calldata unavailable".to_owned(),
        }
    }
}

} // verus!
