use vstd::prelude::*;

verus! {

/// Why a run stopped.
#[derive(Clone, Copy, Debug, PartialEq, Eq, Structural)]
pub enum BenchError {
    /// The sample source could not be read or parsed.
    DataUnavailable,
    /// No batch header could be derived from the certificate.
    HeaderDerivationError,
    /// The state transition rejected the fixture.
    ValidationError,
    /// Bytes did not have the layout that the backend's convention asks for.
    EncodingError,
    /// The backend's virtual machine failed.
    ExecutionError,
    /// The backend's verifier rejected the proof.
    VerificationFailed,
}

} // verus!
