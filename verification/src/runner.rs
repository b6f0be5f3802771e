//! One benchmark run from fixture to report, as a machine that says which
//! step comes next and takes in how the step ended.
//!
//! The caller does what cannot be done here: it loads the samples, applies
//! the events to the network state, derives the header, runs the state
//! transition locally, drives the backend and writes the report. After each
//! of these it hands the outcome to [`Runner::step`].

use crate::backend::{Backend, RunMode};
use crate::codec::{
    decode_output, decode_spec, encode_input, encode_spec, InputCodec, RawOutput, RawOutputView,
};
use crate::error::BenchError;
use crate::fixture::{
    can_draw, cycle_events, cycle_take, resolve_l1_info_root, resolve_l1_info_root_spec,
    source_events,
    BridgeExitEvent, L1InfoRootLookup, SampleSource, TokenInfo, U256,
};
use crate::input::{prepare_benchmark_input, BenchmarkInput, MultiBatchHeader, NetworkState};
use crate::output::{Digest, ProofOutput, ProofOutputView};
use crate::stdin::StdIn;
use vstd::prelude::*;

verus! {

/// What a run is asked to do.
#[derive(Clone, Copy, Debug)]
pub struct RunConfig {
    pub backend: Backend,
    /// Number of bridge exits in the fixture.
    pub n_exits: usize,
    /// Number of imported bridge exits in the fixture.
    pub n_imported_exits: usize,
    /// Whether the result of a run that succeeds is written out.
    pub persist: bool,
}

/// A run on OpenVM with ten exits and ten imported exits, whose result is
/// not written out.
pub open spec fn default_config() -> RunConfig {
    RunConfig { backend: Backend::OpenVm, n_exits: 10, n_imported_exits: 10, persist: false }
}

impl Default for RunConfig {
    fn default() -> (config: RunConfig)
        ensures
            config == default_config(),
    {
        RunConfig { backend: Backend::OpenVm, n_exits: 10, n_imported_exits: 10, persist: false }
    }
}

/// What is written out for a run that succeeded.
#[derive(Clone, Copy, Debug, PartialEq, Eq)]
pub struct RunRecord {
    /// The hash that names the certificate and so the header.
    pub header_id: Digest,
    pub backend: Backend,
    /// How long the backend ran, in nanoseconds.
    pub latency_nanos: u64,
    /// The decoded output.
    pub output: ProofOutput,
}

/// How far a run has come.
#[derive(Clone, Copy, Debug, PartialEq, Eq, Structural)]
pub enum Phase {
    /// Nothing is there yet; the samples are to be loaded.
    AwaitingSamples,
    /// The samples are there; the events are to be applied to the state.
    AwaitingCertificate,
    /// The certificate's L1 info root is settled; the header is to be
    /// derived.
    AwaitingHeader,
    /// The input is there; the state transition is to be run locally.
    AwaitingValidation,
    /// The fixture is valid; no backend run has been asked for.
    Idle,
    /// The input is encoded; the backend is to run.
    Encoded,
    /// The backend has executed the guest program.
    Executed,
    /// The backend has proved the guest program's execution.
    Proved,
    /// The output is decoded.
    Decoded,
    /// The backend's verifier has accepted the proof.
    Verified,
    /// The run succeeded and was reported.
    Done,
    /// A step failed; no later step is taken.
    Failed,
}

/// What the caller is to do next.
#[derive(Clone, Copy, Debug, PartialEq, Eq, Structural)]
pub enum Action {
    LoadSamples,
    ApplyEvents,
    DeriveHeader,
    ValidateLocally,
    /// Ask for a run with [`Runner::execute`] or [`Runner::generate_proof`].
    RequestRun,
    /// Run the backend on the encoded input, and time this step alone.
    Run(RunMode),
    /// Ask for the output with [`Runner::decode`].
    Decode,
    Verify,
    /// Report the run's success, and write the result out if `persist`.
    Report { persist: bool },
    /// Report why the run failed; nothing is written out.
    ReportFailure(BenchError),
    Stop,
}

/// How a step of the caller's ended.
#[derive(Debug)]
pub enum Event {
    /// The samples were looked for.
    SamplesLoaded(SampleSource),
    /// The events were applied; the certificate has this hash and says
    /// this of its L1 info root.
    CertificateApplied(Digest, L1InfoRootLookup),
    /// The header was derived from the prior state, or could not be.
    HeaderDerived(NetworkState, Option<MultiBatchHeader>),
    /// The state transition was run locally and gave this output, or
    /// rejected the fixture with this error.
    LocallyValidated(Result<ProofOutput, String>),
    /// The backend ran for so many nanoseconds and handed this back, or
    /// failed.
    RunFinished(Option<RawOutput>, u64),
    /// The backend's verifier accepted the proof, or rejected it.
    Verified(bool),
    /// The report was made.
    Reported,
}

/// What can happen to a run, as a mathematical value: the outcome of a
/// step of the caller's, or one of the two requests that the caller makes
/// of the run itself.
pub enum EventView {
    SamplesLoaded(Option<Seq<BridgeExitEvent>>),
    CertificateApplied(Seq<u8>, L1InfoRootLookup),
    HeaderDerived(Seq<u8>, Option<Seq<u8>>),
    LocallyValidated(Result<ProofOutputView, Seq<char>>),
    /// A backend run was asked for, with [`Runner::execute`] or
    /// [`Runner::generate_proof`].
    RunRequested(RunMode),
    RunFinished(Option<RawOutputView>, u64),
    /// The output was asked for, with [`Runner::decode`].
    DecodeRequested,
    Verified(bool),
    Reported,
}

impl View for Event {
    type V = EventView;

    open spec fn view(&self) -> EventView {
        match self {
            Event::SamplesLoaded(source) => EventView::SamplesLoaded(source_events(*source)),
            Event::CertificateApplied(id, lookup) => EventView::CertificateApplied(id@, *lookup),
            Event::HeaderDerived(state, Some(header)) => EventView::HeaderDerived(
                state@,
                Some(header@),
            ),
            Event::HeaderDerived(state, None) => EventView::HeaderDerived(state@, None),
            Event::LocallyValidated(Ok(output)) => EventView::LocallyValidated(Ok(output@)),
            Event::LocallyValidated(Err(error)) => EventView::LocallyValidated(Err(error@)),
            Event::RunFinished(Some(raw), nanos) => EventView::RunFinished(Some(raw@), *nanos),
            Event::RunFinished(None, nanos) => EventView::RunFinished(None, *nanos),
            Event::Verified(accepted) => EventView::Verified(*accepted),
            Event::Reported => EventView::Reported,
        }
    }
}

/// The state of a run as a mathematical value.
pub struct RunState {
    pub config: RunConfig,
    pub phase: Phase,
    /// Why the run failed, once it has.
    pub failure: Option<BenchError>,
    /// The phase in which the run failed.
    pub failed_in: Option<Phase>,
    /// The error with which the state transition rejected the fixture, word
    /// for word.
    pub rejection: Option<Seq<char>>,
    /// The sample sequence.
    pub samples: Option<Seq<BridgeExitEvent>>,
    /// The hash that names the certificate.
    pub certificate_id: Option<Seq<u8>>,
    /// The L1 info root that the header is derived with.
    pub l1_info_root: Option<Seq<u8>>,
    /// The bytes of the prior state and of the header.
    pub input: Option<(Seq<u8>, Seq<u8>)>,
    /// What the state transition gave when it was run locally.
    pub expected: Option<ProofOutputView>,
    /// How the backend is run; execution alone until a proof is asked for.
    pub mode: RunMode,
    /// What the backend handed back.
    pub raw: Option<RawOutputView>,
    /// How long the backend ran.
    pub latency_nanos: Option<u64>,
    /// The decoded output.
    pub output: Option<ProofOutputView>,
    pub reported: bool,
}

/// The state before anything has happened.
pub open spec fn initial(config: RunConfig) -> RunState {
    RunState {
        config,
        phase: Phase::AwaitingSamples,
        failure: None,
        failed_in: None,
        rejection: None,
        samples: None,
        certificate_id: None,
        l1_info_root: None,
        input: None,
        expected: None,
        mode: RunMode::ExecuteOnly,
        raw: None,
        latency_nanos: None,
        output: None,
        reported: false,
    }
}

/// The state after a step failed.
pub open spec fn fail(s: RunState, why: BenchError) -> RunState {
    RunState { phase: Phase::Failed, failure: Some(why), failed_in: Some(s.phase), ..s }
}

/// Whether the samples can give the fixture that the run was asked for:
/// both counts of events can be drawn from them.
pub open spec fn gives_fixture(config: RunConfig, samples: Seq<BridgeExitEvent>) -> bool {
    can_draw(samples, config.n_exits as nat) && can_draw(samples, config.n_imported_exits as nat)
}

/// The state after the samples were looked for. Samples that could not be
/// read, and samples that cannot give as many events as the run was asked
/// for, fail the run: the data is unavailable.
pub open spec fn samples_loaded(s: RunState, samples: Option<Seq<BridgeExitEvent>>) -> RunState {
    if s.phase != Phase::AwaitingSamples {
        s
    } else if samples is Some && gives_fixture(s.config, samples->Some_0) {
        RunState { phase: Phase::AwaitingCertificate, samples, ..s }
    } else {
        fail(s, BenchError::DataUnavailable)
    }
}

/// The state after the events were applied.
pub open spec fn certificate_applied(
    s: RunState,
    id: Seq<u8>,
    lookup: L1InfoRootLookup,
) -> RunState {
    if s.phase != Phase::AwaitingCertificate {
        s
    } else {
        let named = RunState { certificate_id: Some(id), ..s };
        match resolve_l1_info_root_spec(lookup) {
            Some(root) => RunState {
                phase: Phase::AwaitingHeader,
                l1_info_root: Some(root),
                ..named
            },
            None => fail(named, BenchError::HeaderDerivationError),
        }
    }
}

/// The state after the header was derived, or could not be.
pub open spec fn header_derived(s: RunState, state: Seq<u8>, derived: Option<Seq<u8>>) -> RunState {
    if s.phase != Phase::AwaitingHeader {
        s
    } else {
        match derived {
            Some(header) => RunState {
                phase: Phase::AwaitingValidation,
                input: Some((state, header)),
                ..s
            },
            None => fail(s, BenchError::HeaderDerivationError),
        }
    }
}

/// The state after the state transition was run locally.
pub open spec fn locally_validated(
    s: RunState,
    outcome: Result<ProofOutputView, Seq<char>>,
) -> RunState {
    if s.phase != Phase::AwaitingValidation {
        s
    } else {
        match outcome {
            Ok(output) => RunState { phase: Phase::Idle, expected: Some(output), ..s },
            Err(error) => RunState {
                rejection: Some(error),
                ..fail(s, BenchError::ValidationError)
            },
        }
    }
}

/// Whether a run in this mode is started when it is asked for.
pub open spec fn accepts_run(s: RunState, mode: RunMode) -> bool {
    s.phase == Phase::Idle && (mode == RunMode::Prove
        ==> s.config.backend.conventions_spec().can_prove)
}

/// The state after a backend run was asked for. A proof is not started on
/// a backend that cannot prove.
pub open spec fn run_requested(s: RunState, mode: RunMode) -> RunState {
    if accepts_run(s, mode) {
        RunState { phase: Phase::Encoded, mode, ..s }
    } else {
        s
    }
}

/// The state after a backend run ended.
pub open spec fn run_finished(s: RunState, outcome: Option<RawOutputView>, nanos: u64) -> RunState {
    if s.phase != Phase::Encoded {
        s
    } else {
        match outcome {
            Some(raw) => RunState {
                phase: if s.mode == RunMode::Prove {
                    Phase::Proved
                } else {
                    Phase::Executed
                },
                raw: Some(raw),
                latency_nanos: Some(nanos),
                ..s
            },
            None => fail(s, BenchError::ExecutionError),
        }
    }
}

/// The state after the output was asked for.
pub open spec fn decode_requested(s: RunState) -> RunState {
    if s.phase != Phase::Executed && s.phase != Phase::Proved {
        s
    } else {
        match s.raw {
            Some(raw) => match decode_spec(s.config.backend.conventions_spec().output, raw) {
                Some(output) => RunState { phase: Phase::Decoded, output: Some(output), ..s },
                None => fail(s, BenchError::EncodingError),
            },
            None => fail(s, BenchError::EncodingError),
        }
    }
}

/// The state after the backend's verifier gave its answer.
pub open spec fn verified(s: RunState, accepted: bool) -> RunState {
    if s.phase != Phase::Decoded || s.mode != RunMode::Prove {
        s
    } else if accepted {
        RunState { phase: Phase::Verified, ..s }
    } else {
        fail(s, BenchError::VerificationFailed)
    }
}

/// Whether the run has succeeded: its output is decoded and, where it
/// proves, the proof is verified.
pub open spec fn succeeded(s: RunState) -> bool {
    s.phase == Phase::Verified || (s.phase == Phase::Decoded && s.mode != RunMode::Prove)
}

/// The state after the report was made.
pub open spec fn reported(s: RunState) -> RunState {
    if succeeded(s) {
        RunState { phase: Phase::Done, reported: true, ..s }
    } else if s.phase == Phase::Failed {
        RunState { reported: true, ..s }
    } else {
        s
    }
}

/// The state after `event`. An event that does not answer the step that the
/// run waits for changes nothing.
pub open spec fn step_spec(s: RunState, event: EventView) -> RunState {
    match event {
        EventView::SamplesLoaded(samples) => samples_loaded(s, samples),
        EventView::CertificateApplied(id, lookup) => certificate_applied(s, id, lookup),
        EventView::HeaderDerived(state, derived) => header_derived(s, state, derived),
        EventView::LocallyValidated(outcome) => locally_validated(s, outcome),
        EventView::RunRequested(mode) => run_requested(s, mode),
        EventView::RunFinished(outcome, nanos) => run_finished(s, outcome, nanos),
        EventView::DecodeRequested => decode_requested(s),
        EventView::Verified(accepted) => verified(s, accepted),
        EventView::Reported => reported(s),
    }
}

/// What the caller is to do in a state.
pub open spec fn next_action(s: RunState) -> Action {
    match s.phase {
        Phase::AwaitingSamples => Action::LoadSamples,
        Phase::AwaitingCertificate => Action::ApplyEvents,
        Phase::AwaitingHeader => Action::DeriveHeader,
        Phase::AwaitingValidation => Action::ValidateLocally,
        Phase::Idle => Action::RequestRun,
        Phase::Encoded => Action::Run(s.mode),
        Phase::Executed => Action::Decode,
        Phase::Proved => Action::Decode,
        Phase::Decoded => if s.mode == RunMode::Prove {
            Action::Verify
        } else {
            Action::Report { persist: s.config.persist }
        },
        Phase::Verified => Action::Report { persist: s.config.persist },
        Phase::Done => Action::Stop,
        Phase::Failed => match s.failure {
            Some(why) => if s.reported {
                Action::Stop
            } else {
                Action::ReportFailure(why)
            },
            None => Action::Stop,
        },
    }
}

/// Whether the fixture has passed local validation and no step has failed
/// since.
pub open spec fn is_validated(phase: Phase) -> bool {
    phase == Phase::Idle || phase == Phase::Encoded || phase == Phase::Executed || phase
        == Phase::Proved || phase == Phase::Decoded || phase == Phase::Verified || phase
        == Phase::Done
}

/// Whether the backend has handed something back.
pub open spec fn has_run(phase: Phase) -> bool {
    phase == Phase::Executed || phase == Phase::Proved || phase == Phase::Decoded || phase
        == Phase::Verified || phase == Phase::Done
}

/// Whether the output is decoded.
pub open spec fn has_output(phase: Phase) -> bool {
    phase == Phase::Decoded || phase == Phase::Verified || phase == Phase::Done
}

/// What holds of every state that a run can be in.
pub open spec fn inv(s: RunState) -> bool {
    &&& s.phase == Phase::Failed ==> s.failure is Some
    &&& s.phase != Phase::AwaitingSamples && s.phase != Phase::Failed ==> s.samples is Some
    &&& s.samples is Some ==> gives_fixture(s.config, s.samples->Some_0)
    &&& s.phase == Phase::AwaitingHeader || s.phase == Phase::AwaitingValidation || is_validated(
        s.phase,
    ) ==> s.l1_info_root is Some && s.certificate_id is Some
    &&& s.phase == Phase::AwaitingValidation || is_validated(s.phase) ==> s.input is Some
    &&& is_validated(s.phase) ==> s.expected is Some
    &&& s.mode == RunMode::Prove ==> s.config.backend.conventions_spec().can_prove
    &&& s.phase == Phase::Executed ==> s.mode == RunMode::ExecuteOnly
    &&& s.phase == Phase::Proved || s.phase == Phase::Verified ==> s.mode == RunMode::Prove
    &&& has_run(s.phase) ==> s.raw is Some && s.latency_nanos is Some
    &&& has_output(s.phase) ==> s.output is Some && decode_spec(
        s.config.backend.conventions_spec().output,
        s.raw->Some_0,
    ) == s.output
    &&& s.reported ==> s.phase == Phase::Done || s.phase == Phase::Failed
}

/// The state after a sequence of events, oldest first.
pub open spec fn run_spec(s: RunState, events: Seq<EventView>) -> RunState
    decreases events.len(),
{
    if events.len() == 0 {
        s
    } else {
        step_spec(run_spec(s, events.drop_last()), events.last())
    }
}

/// One benchmark run.
#[derive(Debug)]
pub struct Runner {
    config: RunConfig,
    phase: Phase,
    failure: Option<BenchError>,
    failed_in: Option<Phase>,
    rejection: Option<String>,
    samples: Option<Vec<BridgeExitEvent>>,
    certificate_id: Option<Digest>,
    l1_info_root: Option<Digest>,
    input: Option<BenchmarkInput>,
    expected: Option<ProofOutput>,
    mode: RunMode,
    raw: Option<RawOutput>,
    latency_nanos: Option<u64>,
    output: Option<ProofOutput>,
    reported: bool,
}

impl View for Runner {
    type V = RunState;

    closed spec fn view(&self) -> RunState {
        RunState {
            config: self.config,
            phase: self.phase,
            failure: self.failure,
            failed_in: self.failed_in,
            rejection: match self.rejection {
                Some(error) => Some(error@),
                None => None,
            },
            samples: match self.samples {
                Some(samples) => Some(samples@),
                None => None,
            },
            certificate_id: match self.certificate_id {
                Some(id) => Some(id@),
                None => None,
            },
            l1_info_root: match self.l1_info_root {
                Some(root) => Some(root@),
                None => None,
            },
            input: match self.input {
                Some(input) => Some((input.initial_state@, input.multi_batch_header@)),
                None => None,
            },
            expected: match self.expected {
                Some(output) => Some(output@),
                None => None,
            },
            mode: self.mode,
            raw: match self.raw {
                Some(raw) => Some(raw@),
                None => None,
            },
            latency_nanos: self.latency_nanos,
            output: match self.output {
                Some(output) => Some(output@),
                None => None,
            },
            reported: self.reported,
        }
    }
}

impl Default for Runner {
    fn default() -> (runner: Runner)
        ensures
            runner@ == initial(default_config()),
    {
        Runner::new(RunConfig::default())
    }
}

impl Runner {
    #[verifier::type_invariant]
    spec fn well_formed(self) -> bool {
        inv(self@)
    }

    /// A run on which nothing has happened yet.
    pub fn new(config: RunConfig) -> (runner: Runner)
        ensures
            runner@ == initial(config),
    {
        Runner {
            config,
            phase: Phase::AwaitingSamples,
            failure: None,
            failed_in: None,
            rejection: None,
            samples: None,
            certificate_id: None,
            l1_info_root: None,
            input: None,
            expected: None,
            mode: RunMode::ExecuteOnly,
            raw: None,
            latency_nanos: None,
            output: None,
            reported: false,
        }
    }

    /// The state and the header as the two records that a guest program
    /// reads one after the other.
    pub fn prepare_stdin(state: &NetworkState, batch_header: &MultiBatchHeader) -> (stdin: StdIn)
        ensures
            stdin@ == seq![state@, batch_header@],
    {
        encode_input(InputCodec::SequentialRecords, state, batch_header)
    }

    /// What the caller is to do next.
    pub fn next_action(&self) -> (action: Action)
        ensures
            action == next_action(self@),
    {
        match self.phase {
            Phase::AwaitingSamples => Action::LoadSamples,
            Phase::AwaitingCertificate => Action::ApplyEvents,
            Phase::AwaitingHeader => Action::DeriveHeader,
            Phase::AwaitingValidation => Action::ValidateLocally,
            Phase::Idle => Action::RequestRun,
            Phase::Encoded => Action::Run(self.mode),
            Phase::Executed => Action::Decode,
            Phase::Proved => Action::Decode,
            Phase::Decoded => match self.mode {
                RunMode::Prove => Action::Verify,
                RunMode::ExecuteOnly => Action::Report { persist: self.config.persist },
            },
            Phase::Verified => Action::Report { persist: self.config.persist },
            Phase::Done => Action::Stop,
            Phase::Failed => match self.failure {
                Some(why) => if self.reported {
                    Action::Stop
                } else {
                    Action::ReportFailure(why)
                },
                None => Action::Stop,
            },
        }
    }

    fn fail(&mut self, why: BenchError)
        ensures
            final(self)@ == fail(old(self)@, why),
    {
        proof {
            use_type_invariant(&*self);
        }
        self.failure = Some(why);
        self.failed_in = Some(self.phase);
        self.phase = Phase::Failed;
    }

    fn on_samples(&mut self, source: SampleSource)
        ensures
            final(self)@ == samples_loaded(old(self)@, source_events(source)),
    {
        proof {
            use_type_invariant(&*self);
        }
        if self.phase == Phase::AwaitingSamples {
            let read = match source {
                SampleSource::Canonical(samples) => Some(samples),
                SampleSource::Custom(read) => read,
            };
            let asked = self.config.n_exits > 0 || self.config.n_imported_exits > 0;
            match read {
                Some(samples) => {
                    if samples.len() == 0 && asked {
                        self.fail(BenchError::DataUnavailable);
                    } else {
                        self.samples = Some(samples);
                        self.phase = Phase::AwaitingCertificate;
                    }
                },
                None => {
                    self.fail(BenchError::DataUnavailable);
                },
            }
        }
    }

    fn on_certificate(&mut self, id: Digest, lookup: L1InfoRootLookup)
        ensures
            final(self)@ == certificate_applied(old(self)@, id@, lookup),
    {
        proof {
            use_type_invariant(&*self);
        }
        if self.phase == Phase::AwaitingCertificate {
            self.certificate_id = Some(id);
            match resolve_l1_info_root(lookup) {
                Ok(root) => {
                    self.l1_info_root = Some(root);
                    self.phase = Phase::AwaitingHeader;
                },
                Err(why) => {
                    self.fail(why);
                },
            }
        }
    }

    fn on_header(&mut self, state: NetworkState, derived: Option<MultiBatchHeader>)
        ensures
            final(self)@ == header_derived(
                old(self)@,
                state@,
                match derived {
                    Some(header) => Some(header@),
                    None => None,
                },
            ),
    {
        proof {
            use_type_invariant(&*self);
        }
        if self.phase == Phase::AwaitingHeader {
            match prepare_benchmark_input(state, derived) {
                Ok(input) => {
                    self.input = Some(input);
                    self.phase = Phase::AwaitingValidation;
                },
                Err(why) => {
                    self.fail(why);
                },
            }
        }
    }

    fn on_validated(&mut self, outcome: Result<ProofOutput, String>)
        ensures
            final(self)@ == locally_validated(
                old(self)@,
                match outcome {
                    Ok(output) => Ok(output@),
                    Err(error) => Err(error@),
                },
            ),
    {
        proof {
            use_type_invariant(&*self);
        }
        if self.phase == Phase::AwaitingValidation {
            match outcome {
                Ok(output) => {
                    self.expected = Some(output);
                    self.phase = Phase::Idle;
                },
                Err(error) => {
                    self.rejection = Some(error);
                    self.fail(BenchError::ValidationError);
                },
            }
        }
    }

    fn on_run_requested(&mut self, mode: RunMode) -> (started: bool)
        ensures
            final(self)@ == run_requested(old(self)@, mode),
            started == accepts_run(old(self)@, mode),
    {
        proof {
            use_type_invariant(&*self);
        }
        let able = match mode {
            RunMode::Prove => self.config.backend.conventions().can_prove,
            RunMode::ExecuteOnly => true,
        };
        if self.phase == Phase::Idle && able {
            self.mode = mode;
            self.phase = Phase::Encoded;
            true
        } else {
            false
        }
    }

    fn on_run_finished(&mut self, outcome: Option<RawOutput>, nanos: u64)
        ensures
            final(self)@ == run_finished(
                old(self)@,
                match outcome {
                    Some(raw) => Some(raw@),
                    None => None,
                },
                nanos,
            ),
    {
        proof {
            use_type_invariant(&*self);
        }
        if self.phase == Phase::Encoded {
            match outcome {
                Some(raw) => {
                    self.raw = Some(raw);
                    self.latency_nanos = Some(nanos);
                    self.phase = match self.mode {
                        RunMode::Prove => Phase::Proved,
                        RunMode::ExecuteOnly => Phase::Executed,
                    };
                },
                None => {
                    self.fail(BenchError::ExecutionError);
                },
            }
        }
    }

    fn on_verified(&mut self, accepted: bool)
        ensures
            final(self)@ == verified(old(self)@, accepted),
    {
        proof {
            use_type_invariant(&*self);
        }
        let proving = match self.mode {
            RunMode::Prove => true,
            RunMode::ExecuteOnly => false,
        };
        if self.phase == Phase::Decoded && proving {
            if accepted {
                self.phase = Phase::Verified;
            } else {
                self.fail(BenchError::VerificationFailed);
            }
        }
    }

    fn on_reported(&mut self)
        ensures
            final(self)@ == reported(old(self)@),
    {
        proof {
            use_type_invariant(&*self);
        }
        let proving = match self.mode {
            RunMode::Prove => true,
            RunMode::ExecuteOnly => false,
        };
        if self.phase == Phase::Verified || (self.phase == Phase::Decoded && !proving) {
            self.phase = Phase::Done;
            self.reported = true;
        } else if self.phase == Phase::Failed {
            self.reported = true;
        }
    }

    /// Decodes what the backend handed back. What cannot be decoded under
    /// the backend's convention fails the run with an encoding error.
    pub fn decode(&mut self) -> (action: Action)
        ensures
            final(self)@ == decode_requested(old(self)@),
            action == next_action(final(self)@),
    {
        proof {
            use_type_invariant(&*self);
        }
        if self.phase == Phase::Executed || self.phase == Phase::Proved {
            let codec = self.config.backend.conventions().output;
            let decoded = match &self.raw {
                Some(raw) => decode_output(codec, raw),
                None => Err(BenchError::EncodingError),
            };
            match decoded {
                Ok(output) => {
                    self.output = Some(output);
                    self.phase = Phase::Decoded;
                },
                Err(why) => {
                    self.fail(why);
                },
            }
        }
        self.next_action()
    }

    /// Takes in how a step of the caller's ended, and says what comes next.
    /// An event that does not answer the step that the run waits for changes
    /// nothing.
    pub fn step(&mut self, event: Event) -> (action: Action)
        ensures
            final(self)@ == step_spec(old(self)@, event@),
            action == next_action(final(self)@),
    {
        match event {
            Event::SamplesLoaded(source) => self.on_samples(source),
            Event::CertificateApplied(id, lookup) => self.on_certificate(id, lookup),
            Event::HeaderDerived(state, derived) => self.on_header(state, derived),
            Event::LocallyValidated(outcome) => self.on_validated(outcome),
            Event::RunFinished(outcome, nanos) => self.on_run_finished(outcome, nanos),
            Event::Verified(accepted) => self.on_verified(accepted),
            Event::Reported => self.on_reported(),
        }
        self.next_action()
    }

    fn start_run(&mut self, mode: RunMode) -> (stdin: Option<StdIn>)
        ensures
            final(self)@ == run_requested(old(self)@, mode),
            match stdin {
                Some(stdin) => accepts_run(old(self)@, mode) && old(self)@.input is Some && stdin@
                    == encode_spec(
                    old(self)@.config.backend.conventions_spec().input,
                    old(self)@.input->Some_0.0,
                    old(self)@.input->Some_0.1,
                ),
                None => !accepts_run(old(self)@, mode),
            },
    {
        proof {
            use_type_invariant(&*self);
        }
        if !self.on_run_requested(mode) {
            return None;
        }
        let codec = self.config.backend.conventions().input;
        match &self.input {
            Some(input) => Some(
                match codec {
                    InputCodec::SequentialRecords => Runner::prepare_stdin(
                        &input.initial_state,
                        &input.multi_batch_header,
                    ),
                    InputCodec::Concatenated => encode_input(
                        codec,
                        &input.initial_state,
                        &input.multi_batch_header,
                    ),
                },
            ),
            None => None,
        }
    }

    /// Asks for a run that only executes the guest program, and encodes the
    /// validated input for it. Nothing happens unless the fixture has passed
    /// local validation and no run was asked for before.
    pub fn execute(&mut self) -> (stdin: Option<StdIn>)
        ensures
            final(self)@ == run_requested(old(self)@, RunMode::ExecuteOnly),
            match stdin {
                Some(stdin) => accepts_run(old(self)@, RunMode::ExecuteOnly) && old(self)@.input
                    is Some && stdin@ == encode_spec(
                    old(self)@.config.backend.conventions_spec().input,
                    old(self)@.input->Some_0.0,
                    old(self)@.input->Some_0.1,
                ),
                None => !accepts_run(old(self)@, RunMode::ExecuteOnly),
            },
    {
        self.start_run(RunMode::ExecuteOnly)
    }

    /// Asks for a run that proves, and encodes the validated input for it.
    /// Nothing happens unless the fixture has passed local validation, no
    /// run was asked for before, and the backend can prove.
    pub fn generate_proof(&mut self) -> (stdin: Option<StdIn>)
        ensures
            final(self)@ == run_requested(old(self)@, RunMode::Prove),
            match stdin {
                Some(stdin) => accepts_run(old(self)@, RunMode::Prove) && old(self)@.input is Some
                    && stdin@ == encode_spec(
                    old(self)@.config.backend.conventions_spec().input,
                    old(self)@.input->Some_0.0,
                    old(self)@.input->Some_0.1,
                ),
                None => !accepts_run(old(self)@, RunMode::Prove),
            },
    {
        self.start_run(RunMode::Prove)
    }

    /// The events to export, once the samples are there: the sample
    /// sequence repeated up to the number of exits asked for, exactly as
    /// many.
    pub fn bridge_exits(&self) -> (events: Option<Vec<(TokenInfo, U256)>>)
        ensures
            events is Some ==> events->Some_0@.len() == self@.config.n_exits,
            match events {
                Some(events) => self@.samples is Some && events@ == cycle_take(
                    self@.samples->Some_0,
                    self@.config.n_exits as nat,
                ),
                None => self@.samples is None,
            },
    {
        proof {
            use_type_invariant(self);
        }
        match &self.samples {
            Some(samples) => cycle_events(samples, self.config.n_exits).ok(),
            None => None,
        }
    }

    /// The events to import, once the samples are there: the sample
    /// sequence repeated up to the number of imported exits asked for,
    /// exactly as many.
    pub fn imported_bridge_exits(&self) -> (events: Option<Vec<(TokenInfo, U256)>>)
        ensures
            events is Some ==> events->Some_0@.len() == self@.config.n_imported_exits,
            match events {
                Some(events) => self@.samples is Some && events@ == cycle_take(
                    self@.samples->Some_0,
                    self@.config.n_imported_exits as nat,
                ),
                None => self@.samples is None,
            },
    {
        proof {
            use_type_invariant(self);
        }
        match &self.samples {
            Some(samples) => cycle_events(samples, self.config.n_imported_exits).ok(),
            None => None,
        }
    }

    /// The record of the run, once it has succeeded: its output is decoded
    /// and, where it proves, the proof is verified. A run that has not come
    /// so far, or has failed, has no record.
    pub fn record(&self) -> (record: Option<RunRecord>)
        ensures
            match record {
                Some(record) => {
                    &&& succeeded(self@) || self@.phase == Phase::Done
                    &&& self@.certificate_id == Some(record.header_id@)
                    &&& record.backend == self@.config.backend
                    &&& self@.latency_nanos == Some(record.latency_nanos)
                    &&& self@.output == Some(record.output@)
                },
                None => !succeeded(self@) && self@.phase != Phase::Done,
            },
    {
        proof {
            use_type_invariant(self);
        }
        let proving = match self.mode {
            RunMode::Prove => true,
            RunMode::ExecuteOnly => false,
        };
        let done = self.phase == Phase::Done || self.phase == Phase::Verified || (self.phase
            == Phase::Decoded && !proving);
        match (done, self.certificate_id, self.latency_nanos, self.output) {
            (true, Some(header_id), Some(latency_nanos), Some(output)) => Some(
                RunRecord { header_id, backend: self.config.backend, latency_nanos, output },
            ),
            _ => None,
        }
    }

    pub fn config(&self) -> (config: RunConfig)
        ensures
            config == self@.config,
    {
        self.config
    }

    pub fn phase(&self) -> (phase: Phase)
        ensures
            phase == self@.phase,
    {
        self.phase
    }

    /// Why the run failed, once it has.
    pub fn failure(&self) -> (failure: Option<BenchError>)
        ensures
            failure == self@.failure,
    {
        self.failure
    }

    /// The phase in which the run failed, once it has.
    pub fn failed_in(&self) -> (phase: Option<Phase>)
        ensures
            phase == self@.failed_in,
    {
        self.failed_in
    }

    /// The error with which the state transition rejected the fixture, word
    /// for word.
    pub fn rejection(&self) -> (error: Option<&String>)
        ensures
            match error {
                Some(error) => self@.rejection == Some(error@),
                None => self@.rejection is None,
            },
    {
        self.rejection.as_ref()
    }

    /// The L1 info root that the header is to be derived with.
    pub fn l1_info_root(&self) -> (root: Option<Digest>)
        ensures
            match root {
                Some(root) => self@.l1_info_root == Some(root@),
                None => self@.l1_info_root is None,
            },
    {
        self.l1_info_root
    }

    /// The state and the header, once the header is derived.
    pub fn input(&self) -> (input: Option<&BenchmarkInput>)
        ensures
            match input {
                Some(input) => self@.input == Some(
                    (input.initial_state@, input.multi_batch_header@),
                ),
                None => self@.input is None,
            },
    {
        self.input.as_ref()
    }

    /// What the state transition gave when it was run locally.
    pub fn local_output(&self) -> (output: Option<ProofOutput>)
        ensures
            match output {
                Some(output) => self@.expected == Some(output@),
                None => self@.expected is None,
            },
    {
        self.expected
    }

    /// The decoded output of the backend run.
    pub fn output(&self) -> (output: Option<ProofOutput>)
        ensures
            match output {
                Some(output) => self@.output == Some(output@),
                None => self@.output is None,
            },
    {
        self.output
    }

    /// How long the backend ran, in nanoseconds.
    pub fn latency_nanos(&self) -> (nanos: Option<u64>)
        ensures
            nanos == self@.latency_nanos,
    {
        self.latency_nanos
    }
}

/// Every step keeps what holds of every state.
pub proof fn lemma_step_keeps_inv(s: RunState, event: EventView)
    requires
        inv(s),
    ensures
        inv(step_spec(s, event)),
{
    match event {
        EventView::SamplesLoaded(samples) => {
            assert(inv(samples_loaded(s, samples)));
        },
        EventView::CertificateApplied(id, lookup) => {
            assert(inv(certificate_applied(s, id, lookup)));
        },
        EventView::HeaderDerived(state, derived) => {
            assert(inv(header_derived(s, state, derived)));
        },
        EventView::LocallyValidated(outcome) => {
            assert(inv(locally_validated(s, outcome)));
        },
        EventView::RunRequested(mode) => {
            assert(inv(run_requested(s, mode)));
        },
        EventView::RunFinished(outcome, nanos) => {
            assert(inv(run_finished(s, outcome, nanos)));
        },
        EventView::DecodeRequested => {
            assert(inv(decode_requested(s)));
        },
        EventView::Verified(accepted) => {
            assert(inv(verified(s, accepted)));
        },
        EventView::Reported => {
            assert(inv(reported(s)));
        },
    }
}

/// What holds of every state holds after every sequence of events.
pub proof fn lemma_run_keeps_inv(config: RunConfig, events: Seq<EventView>)
    ensures
        inv(run_spec(initial(config), events)),
    decreases events.len(),
{
    if events.len() > 0 {
        lemma_run_keeps_inv(config, events.drop_last());
        lemma_step_keeps_inv(run_spec(initial(config), events.drop_last()), events.last());
    }
}

/// A run that has failed stays failed, for the same reason, whatever
/// happens after; no step of the pipeline is asked for again.
pub proof fn lemma_failure_is_final(s: RunState, events: Seq<EventView>)
    requires
        s.phase == Phase::Failed,
    ensures
        run_spec(s, events).phase == Phase::Failed,
        run_spec(s, events).failure == s.failure,
        run_spec(s, events).failed_in == s.failed_in,
        run_spec(s, events).rejection == s.rejection,
        next_action(run_spec(s, events)) is Stop || next_action(run_spec(s, events))
            is ReportFailure,
    decreases events.len(),
{
    if events.len() > 0 {
        lemma_failure_is_final(s, events.drop_last());
    }
}

/// Whether event `i` is the fixture passing local validation, at a moment
/// when the run waits for just that.
pub open spec fn passes_validation_at(config: RunConfig, events: Seq<EventView>, i: int) -> bool {
    &&& 0 <= i < events.len()
    &&& run_spec(initial(config), events.take(i)).phase == Phase::AwaitingValidation
    &&& events[i] matches EventView::LocallyValidated(Ok(_))
}

/// Local validation comes first: a run that is idle, or is asked to run
/// the backend, or is anywhere after that, has seen the fixture pass local
/// validation.
pub proof fn lemma_validation_precedes_run(config: RunConfig, events: Seq<EventView>)
    ensures
        is_validated(run_spec(initial(config), events).phase) ==> exists|i: int|
            passes_validation_at(config, events, i),
        next_action(run_spec(initial(config), events)) is Run ==> exists|i: int|
            passes_validation_at(config, events, i),
    decreases events.len(),
{
    if events.len() > 0 {
        let before = events.drop_last();
        let previous = run_spec(initial(config), before);
        lemma_validation_precedes_run(config, before);
        if is_validated(run_spec(initial(config), events).phase) {
            if is_validated(previous.phase) {
                let i = choose|i: int| passes_validation_at(config, before, i);
                assert(before.take(i) =~= events.take(i));
                assert(passes_validation_at(config, events, i));
            } else {
                let i = events.len() - 1;
                assert(events.take(i) =~= before);
                assert(passes_validation_at(config, events, i));
            }
        }
    }
}

/// A fixture that fails local validation never reaches a backend: from the
/// moment it is rejected the run is failed with a validation error, and
/// stays so. The error that came with the rejection is kept word for word.
pub proof fn lemma_rejected_fixture_never_runs(
    config: RunConfig,
    events: Seq<EventView>,
    i: int,
    j: int,
)
    requires
        0 <= i < j <= events.len(),
        run_spec(initial(config), events.take(i)).phase == Phase::AwaitingValidation,
        events[i] matches EventView::LocallyValidated(Err(_)),
    ensures
        run_spec(initial(config), events.take(j)).phase == Phase::Failed,
        run_spec(initial(config), events.take(j)).failure == Some(BenchError::ValidationError),
        run_spec(initial(config), events.take(j)).failed_in == Some(Phase::AwaitingValidation),
        run_spec(initial(config), events.take(j)).rejection == Some(
            events[i]->LocallyValidated_0->Err_0,
        ),
        !is_validated(run_spec(initial(config), events.take(j)).phase),
        !(next_action(run_spec(initial(config), events.take(j))) is Run),
    decreases j - i,
{
    assert(events.take(j).drop_last() =~= events.take(j - 1));
    assert(events.take(j).last() == events[j - 1]);
    if j > i + 1 {
        lemma_rejected_fixture_never_runs(config, events, i, j - 1);
    }
}

/// Success alone is reported as success, and so nothing else is written
/// out: when the caller is told to report, the output is decoded from what
/// the backend handed back and, where the run proves, the verifier has
/// accepted the proof.
pub proof fn lemma_report_only_after_success(config: RunConfig, events: Seq<EventView>)
    ensures
        ({
            let s = run_spec(initial(config), events);
            next_action(s) is Report ==> {
                &&& succeeded(s)
                &&& s.phase != Phase::Failed
                &&& s.raw is Some
                &&& s.output is Some
                &&& s.output == decode_spec(s.config.backend.conventions_spec().output, s.raw->Some_0)
                &&& next_action(s) == Action::Report { persist: config.persist }
            }
        }),
{
    lemma_run_keeps_inv(config, events);
    lemma_config_is_kept(config, events);
}

/// No event changes what the run was asked to do.
pub proof fn lemma_config_is_kept(config: RunConfig, events: Seq<EventView>)
    ensures
        run_spec(initial(config), events).config == config,
    decreases events.len(),
{
    if events.len() > 0 {
        lemma_config_is_kept(config, events.drop_last());
    }
}

/// The place of a phase in the order of a run. A failed run is past every
/// step.
pub open spec fn phase_rank(phase: Phase) -> nat {
    match phase {
        Phase::AwaitingSamples => 0,
        Phase::AwaitingCertificate => 1,
        Phase::AwaitingHeader => 2,
        Phase::AwaitingValidation => 3,
        Phase::Idle => 4,
        Phase::Encoded => 5,
        Phase::Executed => 6,
        Phase::Proved => 6,
        Phase::Decoded => 7,
        Phase::Verified => 8,
        Phase::Done => 9,
        Phase::Failed => 10,
    }
}

/// A run only goes forward: no event takes it back to an earlier phase,
/// and one step moves it on by one phase, skips the verifier where nothing
/// was proved, or fails it.
pub proof fn lemma_phases_go_forward(s: RunState, event: EventView)
    ensures
        ({
            let before = phase_rank(s.phase);
            let after = phase_rank(step_spec(s, event).phase);
            ||| after == before
            ||| after == before + 1
            ||| s.phase == Phase::Decoded && step_spec(s, event).phase == Phase::Done
            ||| step_spec(s, event).phase == Phase::Failed
        }),
{
}

/// Once the header is derived, the bytes of the state and of the header
/// stay what they are: the local run of the state transition and the
/// backend are given the same input.
pub proof fn lemma_input_is_kept(s: RunState, event: EventView)
    requires
        s.phase != Phase::AwaitingHeader,
    ensures
        step_spec(s, event).input == s.input,
{
}

/// The latency is that of the backend run alone: it is the time handed in
/// when the run ended, and no later event changes it.
pub proof fn lemma_latency_is_the_runs(s: RunState, event: EventView)
    ensures
        step_spec(s, event).latency_nanos != s.latency_nanos ==> ({
            &&& s.phase == Phase::Encoded
            &&& event matches EventView::RunFinished(Some(_), nanos)
            &&& step_spec(s, event).latency_nanos == Some(nanos)
        }),
{
}

} // verus!
