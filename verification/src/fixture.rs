//! Building the events of a fixture from a sample sequence.

use crate::error::BenchError;
use crate::output::Digest;
use vstd::arithmetic::div_mod::{lemma_fundamental_div_mod, lemma_fundamental_div_mod_converse};
use vstd::prelude::*;

verus! {

/// A 20-byte account or contract address.
pub type Address = [u8; 20];

/// A token amount: 256 bits, most significant byte first.
pub type U256 = [u8; 32];

/// Which token an exit moves.
#[derive(Clone, Copy, Debug, PartialEq, Eq)]
pub struct TokenInfo {
    pub origin_network: u32,
    pub origin_token_address: Address,
}

/// Value that leaves one network for another through the bridge.
#[derive(Clone, Copy, Debug, PartialEq, Eq)]
pub struct BridgeExitEvent {
    pub token_info: TokenInfo,
    pub amount: U256,
    pub dest_network: u32,
}

/// Where the sample sequence comes from.
#[derive(Debug)]
pub enum SampleSource {
    /// The built-in sequence.
    Canonical(Vec<BridgeExitEvent>),
    /// A sequence read from a path that the user gave; none where the file
    /// could not be read or parsed.
    Custom(Option<Vec<BridgeExitEvent>>),
}

/// The sample sequence of a source, if it has one.
pub open spec fn source_events(source: SampleSource) -> Option<Seq<BridgeExitEvent>> {
    match source {
        SampleSource::Canonical(events) => Some(events@),
        SampleSource::Custom(Some(events)) => Some(events@),
        SampleSource::Custom(None) => None,
    }
}

/// Whether `n` events can be drawn from the samples: there is a sample to
/// repeat, or none is asked for.
pub open spec fn can_draw(samples: Seq<BridgeExitEvent>, n: nat) -> bool {
    samples.len() > 0 || n == 0
}

/// The first `n` events of the sample sequence repeated without end, each
/// as its token and amount.
pub open spec fn cycle_take(samples: Seq<BridgeExitEvent>, n: nat) -> Seq<(TokenInfo, U256)> {
    Seq::new(
        n,
        |i: int| (samples[i % samples.len() as int].token_info, samples[i % samples.len() as int].amount),
    )
}

/// The first `n` events of the sample sequence repeated without end: as
/// many as were asked for. With no sample to repeat and an event asked for,
/// the data is unavailable.
pub fn cycle_events(samples: &Vec<BridgeExitEvent>, n: usize) -> (r: Result<
    Vec<(TokenInfo, U256)>,
    BenchError,
>)
    ensures
        r is Ok ==> r->Ok_0@.len() == n,
        match r {
            Ok(events) => can_draw(samples@, n as nat) && events@ == cycle_take(
                samples@,
                n as nat,
            ),
            Err(e) => !can_draw(samples@, n as nat) && e == BenchError::DataUnavailable,
        },
{
    let mut events: Vec<(TokenInfo, U256)> = Vec::new();
    let len = samples.len();
    if len == 0 {
        if n == 0 {
            assert(events@ =~= cycle_take(samples@, 0));
            return Ok(events);
        }
        return Err(BenchError::DataUnavailable);
    }
    let mut i: usize = 0;
    let mut at: usize = 0;
    while i < n
        invariant
            len == samples@.len(),
            len > 0,
            i <= n,
            at == i % len,
            events@.len() == i,
            forall|j: int| 0 <= j < i ==> events@[j] == cycle_take(samples@, n as nat)[j],
        decreases n - i,
    {
        let sample = samples[at];
        events.push((sample.token_info, sample.amount));
        proof {
            lemma_next_in_cycle(i as int, len as int);
        }
        i = i + 1;
        at = if at + 1 == len { 0 } else { at + 1 };
    }
    assert(events@ =~= cycle_take(samples@, n as nat));
    Ok(events)
}

/// One step round a cycle of `len` places.
proof fn lemma_next_in_cycle(i: int, len: int)
    requires
        0 <= i,
        0 < len,
    ensures
        (i + 1) % len == if i % len + 1 == len { 0 } else { i % len + 1 },
{
    lemma_fundamental_div_mod(i, len);
    let q = i / len;
    let r = i % len;
    if r + 1 == len {
        assert(i + 1 == (q + 1) * len + 0) by (nonlinear_arith)
            requires
                i == len * q + r,
                r + 1 == len,
        ;
        lemma_fundamental_div_mod_converse(i + 1, len, q + 1, 0);
    } else {
        assert(i + 1 == q * len + (r + 1)) by (nonlinear_arith)
            requires
                i == len * q + r,
        ;
        lemma_fundamental_div_mod_converse(i + 1, len, q, r + 1);
    }
}

/// Whether `n` events can be had from a source: it was read, and it holds a
/// sample to repeat unless none is asked for.
pub open spec fn available(source: SampleSource, n: nat) -> bool {
    source_events(source) is Some && can_draw(source_events(source)->Some_0, n)
}

/// Produces exactly `n` events by repeating the sample sequence of `source`
/// in its order. A custom source that could not be read, and a source with
/// no sample when an event is asked for, give `DataUnavailable`.
pub fn get_events(n: usize, source: &SampleSource) -> (r: Result<
    Vec<(TokenInfo, U256)>,
    BenchError,
>)
    ensures
        r is Ok ==> r->Ok_0@.len() == n,
        match r {
            Ok(events) => available(*source, n as nat) && events@ == cycle_take(
                source_events(*source)->Some_0,
                n as nat,
            ),
            Err(e) => !available(*source, n as nat) && e == BenchError::DataUnavailable,
        },
{
    match source {
        SampleSource::Canonical(samples) => cycle_events(samples, n),
        SampleSource::Custom(Some(samples)) => cycle_events(samples, n),
        SampleSource::Custom(None) => Err(BenchError::DataUnavailable),
    }
}

/// What a certificate says of the L1 info root that its imported exits
/// were proved against.
#[derive(Clone, Copy, Debug, PartialEq, Eq)]
pub enum L1InfoRootLookup {
    /// The imported exits agree on this root.
    Found(Digest),
    /// The certificate imports nothing, so it names no root.
    Absent,
    /// The imported exits do not agree on one root.
    Malformed,
}

/// The root of 32 zero bytes.
pub open spec fn zero_root() -> Seq<u8> {
    Seq::new(32, |i: int| 0u8)
}

/// The L1 info root that the batch header is derived with.
pub open spec fn resolve_l1_info_root_spec(lookup: L1InfoRootLookup) -> Option<Seq<u8>> {
    match lookup {
        L1InfoRootLookup::Found(root) => Some(root@),
        L1InfoRootLookup::Absent => Some(zero_root()),
        L1InfoRootLookup::Malformed => None,
    }
}

/// Settles the L1 info root of a certificate: the root it names; the zero
/// root where it names none; `HeaderDerivationError` where it is malformed.
pub fn resolve_l1_info_root(lookup: L1InfoRootLookup) -> (r: Result<Digest, BenchError>)
    ensures
        match r {
            Ok(root) => resolve_l1_info_root_spec(lookup) == Some(root@),
            Err(e) => resolve_l1_info_root_spec(lookup) is None && e
                == BenchError::HeaderDerivationError,
        },
{
    match lookup {
        L1InfoRootLookup::Found(root) => Ok(root),
        L1InfoRootLookup::Absent => {
            let root: Digest = [0u8; 32];
            assert(root@ =~= zero_root());
            Ok(root)
        },
        L1InfoRootLookup::Malformed => Err(BenchError::HeaderDerivationError),
    }
}

} // verus!
