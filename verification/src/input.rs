//! What every backend is given: the prior state of a network and the batch
//! header, both in canonical bytes.

use crate::error::BenchError;
use vstd::prelude::*;

verus! {

/// The prior local state of one network, as the bytes that every guest
/// program reads it from.
#[derive(Debug, PartialEq, Eq)]
pub struct NetworkState {
    pub bytes: Vec<u8>,
}

/// The batch header that binds a state transition to its certificate, as
/// the bytes that every guest program reads it from.
#[derive(Debug, PartialEq, Eq)]
pub struct MultiBatchHeader {
    pub bytes: Vec<u8>,
}

/// The two values that a guest program reads, in the order it reads them.
#[derive(Debug, PartialEq, Eq)]
pub struct BenchmarkInput {
    pub initial_state: NetworkState,
    pub multi_batch_header: MultiBatchHeader,
}

impl View for NetworkState {
    type V = Seq<u8>;

    open spec fn view(&self) -> Seq<u8> {
        self.bytes@
    }
}

impl View for MultiBatchHeader {
    type V = Seq<u8>;

    open spec fn view(&self) -> Seq<u8> {
        self.bytes@
    }
}

impl Clone for NetworkState {
    fn clone(&self) -> (copy: NetworkState)
        ensures
            copy@ == self@,
    {
        NetworkState { bytes: self.bytes.clone() }
    }
}

impl Clone for MultiBatchHeader {
    fn clone(&self) -> (copy: MultiBatchHeader)
        ensures
            copy@ == self@,
    {
        MultiBatchHeader { bytes: self.bytes.clone() }
    }
}

impl Clone for BenchmarkInput {
    fn clone(&self) -> (copy: BenchmarkInput)
        ensures
            copy.initial_state@ == self.initial_state@,
            copy.multi_batch_header@ == self.multi_batch_header@,
    {
        BenchmarkInput {
            initial_state: self.initial_state.clone(),
            multi_batch_header: self.multi_batch_header.clone(),
        }
    }
}

/// Puts the prior state and the derived header together: the last step of
/// preparing an input. Where no header could be derived there is no input.
///
/// The steps before it are those of a [`crate::runner::Runner`], which is
/// given the two counts of events: it draws the events, has them applied,
/// settles the L1 info root and has the header derived.
pub fn prepare_benchmark_input(
    initial_state: NetworkState,
    derived: Option<MultiBatchHeader>,
) -> (r: Result<BenchmarkInput, BenchError>)
    ensures
        match derived {
            Some(header) => r == Ok::<BenchmarkInput, BenchError>(
                BenchmarkInput { initial_state, multi_batch_header: header },
            ),
            None => r == Err::<BenchmarkInput, BenchError>(BenchError::HeaderDerivationError),
        },
{
    match derived {
        Some(header) => Ok(BenchmarkInput { initial_state, multi_batch_header: header }),
        None => Err(BenchError::HeaderDerivationError),
    }
}

} // verus!
