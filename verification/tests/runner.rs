use pp_bench::backend::{Backend, RunMode};
use pp_bench::codec::{commit_output, RawOutput};
use pp_bench::error::BenchError;
use pp_bench::fixture::{BridgeExitEvent, L1InfoRootLookup, SampleSource, TokenInfo};
use pp_bench::input::{BenchmarkInput, MultiBatchHeader, NetworkState};
use pp_bench::output::ProofOutput;
use pp_bench::runner::{Action, Event, Phase, RunConfig, RunRecord, Runner};

const BACKENDS: [Backend; 6] = [
    Backend::OpenVm,
    Backend::Pico,
    Backend::Risc0,
    Backend::Sp1,
    Backend::Valida,
    Backend::Nexus,
];

fn config(backend: Backend, n: usize, persist: bool) -> RunConfig {
    RunConfig { backend, n_exits: n, n_imported_exits: n, persist }
}

fn sample(tag: u8) -> BridgeExitEvent {
    BridgeExitEvent {
        token_info: TokenInfo { origin_network: tag as u32, origin_token_address: [tag; 20] },
        amount: [tag; 32],
        dest_network: 1,
    }
}

fn canonical() -> SampleSource {
    SampleSource::Canonical(vec![sample(1), sample(2), sample(3), sample(4)])
}

fn state() -> NetworkState {
    NetworkState { bytes: vec![10, 11, 12] }
}

fn header() -> MultiBatchHeader {
    MultiBatchHeader { bytes: vec![20, 21] }
}

/// Stands for the state transition: the new local exit root moves only
/// when exits were applied.
fn local_output(n_exits: usize, l1_info_root: [u8; 32]) -> ProofOutput {
    ProofOutput {
        prev_local_exit_root: [1; 32],
        prev_pessimistic_root: [2; 32],
        l1_info_root,
        origin_network: 1,
        new_local_exit_root: if n_exits == 0 { [1; 32] } else { [3; 32] },
        new_pessimistic_root: [4; 32],
    }
}

/// Takes a run up to the point where a backend run can be asked for.
fn validated(backend: Backend, n: usize, persist: bool) -> (Runner, ProofOutput) {
    let mut runner = Runner::new(config(backend, n, persist));
    assert_eq!(runner.next_action(), Action::LoadSamples);
    assert_eq!(runner.step(Event::SamplesLoaded(canonical())), Action::ApplyEvents);
    assert_eq!(runner.bridge_exits().unwrap().len(), n);
    assert_eq!(runner.imported_bridge_exits().unwrap().len(), n);
    let lookup = if n == 0 { L1InfoRootLookup::Absent } else { L1InfoRootLookup::Found([9; 32]) };
    assert_eq!(runner.step(Event::CertificateApplied([0xc1; 32], lookup)), Action::DeriveHeader);
    let root = runner.l1_info_root().unwrap();
    assert_eq!(
        runner.step(Event::HeaderDerived(state(), Some(header()))),
        Action::ValidateLocally
    );
    let local = local_output(n, root);
    assert_eq!(runner.step(Event::LocallyValidated(Ok(local))), Action::RequestRun);
    assert_eq!(runner.phase(), Phase::Idle);
    (runner, local)
}

#[test]
fn a_new_run_waits_for_the_samples() {
    let runner = Runner::new(config(Backend::Pico, 10, false));
    assert_eq!(runner.phase(), Phase::AwaitingSamples);
    assert_eq!(runner.next_action(), Action::LoadSamples);
    assert_eq!(runner.failure(), None);
    assert_eq!(runner.failed_in(), None);
    assert_eq!(runner.rejection(), None);
    assert_eq!(runner.output(), None);
    assert_eq!(runner.local_output(), None);
    assert_eq!(runner.latency_nanos(), None);
    assert_eq!(runner.l1_info_root(), None);
    assert_eq!(runner.input(), None);
    assert_eq!(runner.bridge_exits(), None);
    assert_eq!(runner.imported_bridge_exits(), None);
}

#[test]
fn the_default_run_is_ten_exits_on_openvm() {
    let runner = Runner::default();
    let config = runner.config();
    assert_eq!(config.backend, Backend::OpenVm);
    assert_eq!(config.n_exits, 10);
    assert_eq!(config.n_imported_exits, 10);
    assert!(!config.persist);
    assert_eq!(runner.phase(), Phase::AwaitingSamples);
}

#[test]
fn prepare_stdin_writes_state_then_header() {
    let stdin = Runner::prepare_stdin(&state(), &header());
    assert_eq!(stdin.into_records(), vec![vec![10, 11, 12], vec![20, 21]]);
}

#[test]
fn the_fixture_repeats_the_samples_up_to_each_count() {
    let mut runner = Runner::new(RunConfig {
        backend: Backend::Sp1,
        n_exits: 6,
        n_imported_exits: 1,
        persist: false,
    });
    runner.step(Event::SamplesLoaded(canonical()));
    let exits: Vec<u32> =
        runner.bridge_exits().unwrap().iter().map(|(t, _)| t.origin_network).collect();
    assert_eq!(exits, vec![1, 2, 3, 4, 1, 2]);
    let imported: Vec<u32> =
        runner.imported_bridge_exits().unwrap().iter().map(|(t, _)| t.origin_network).collect();
    assert_eq!(imported, vec![1]);
}

#[test]
fn ten_exits_validate_and_every_backend_reports_the_local_output() {
    for backend in BACKENDS {
        let (mut runner, local) = validated(backend, 10, false);
        assert_eq!(runner.l1_info_root(), Some([9; 32]));
        let stdin = runner.execute();
        assert!(stdin.is_some());
        assert_eq!(runner.phase(), Phase::Encoded);
        assert_eq!(runner.next_action(), Action::Run(RunMode::ExecuteOnly));
        let raw = commit_output(backend.conventions().output, &local);
        assert_eq!(runner.step(Event::RunFinished(Some(raw), 1_500)), Action::Decode);
        assert_eq!(runner.phase(), Phase::Executed);
        assert_eq!(runner.decode(), Action::Report { persist: false });
        assert_eq!(runner.phase(), Phase::Decoded);
        let decoded = runner.output().unwrap();
        assert_eq!(Some(decoded), runner.local_output());
        assert_ne!(decoded.prev_local_exit_root, decoded.new_local_exit_root);
        assert_eq!(decoded.l1_info_root, [9; 32]);
        assert_eq!(runner.latency_nanos(), Some(1_500));
        assert_eq!(runner.step(Event::Reported), Action::Stop);
        assert_eq!(runner.phase(), Phase::Done);
        assert_eq!(runner.failure(), None);
    }
}

#[test]
fn an_empty_batch_validates_and_leaves_the_exit_root_alone() {
    for backend in BACKENDS {
        let (mut runner, local) = validated(backend, 0, false);
        assert_eq!(runner.bridge_exits(), Some(Vec::new()));
        assert_eq!(runner.imported_bridge_exits(), Some(Vec::new()));
        assert_eq!(runner.l1_info_root(), Some([0; 32]));
        assert!(runner.execute().is_some());
        let raw = commit_output(backend.conventions().output, &local);
        runner.step(Event::RunFinished(Some(raw), 7));
        runner.decode();
        let decoded = runner.output().unwrap();
        assert_eq!(decoded.prev_local_exit_root, decoded.new_local_exit_root);
        assert_eq!(decoded.l1_info_root, [0; 32]);
        assert_eq!(runner.failure(), None);
    }
}

#[test]
fn an_unreadable_sample_file_fails_before_any_header_is_derived() {
    let mut runner = Runner::new(config(Backend::OpenVm, 10, true));
    let action = runner.step(Event::SamplesLoaded(SampleSource::Custom(None)));
    assert_eq!(action, Action::ReportFailure(BenchError::DataUnavailable));
    assert_eq!(runner.phase(), Phase::Failed);
    assert_eq!(runner.failure(), Some(BenchError::DataUnavailable));
    assert_eq!(runner.failed_in(), Some(Phase::AwaitingSamples));
    assert_eq!(runner.rejection(), None);
    assert_eq!(runner.bridge_exits(), None);
    let later = [
        runner.step(Event::CertificateApplied([0xc1; 32], L1InfoRootLookup::Absent)),
        runner.step(Event::HeaderDerived(state(), Some(header()))),
        runner.step(Event::LocallyValidated(Ok(local_output(10, [0; 32])))),
        runner.step(Event::RunFinished(None, 0)),
    ];
    for action in later {
        assert_eq!(action, Action::ReportFailure(BenchError::DataUnavailable));
    }
    assert_eq!(runner.l1_info_root(), None);
    assert_eq!(runner.input(), None);
    assert!(runner.execute().is_none());
    assert_eq!(runner.step(Event::Reported), Action::Stop);
    assert_eq!(runner.phase(), Phase::Failed);
}

#[test]
fn samples_that_cannot_give_the_fixture_fail_the_run() {
    for (n_exits, n_imported_exits) in [(10, 10), (1, 0), (0, 1)] {
        let mut runner = Runner::new(RunConfig {
            backend: Backend::Pico,
            n_exits,
            n_imported_exits,
            persist: false,
        });
        assert_eq!(
            runner.step(Event::SamplesLoaded(SampleSource::Custom(Some(Vec::new())))),
            Action::ReportFailure(BenchError::DataUnavailable)
        );
        assert_eq!(runner.phase(), Phase::Failed);
        assert_eq!(runner.failed_in(), Some(Phase::AwaitingSamples));
        assert_eq!(runner.bridge_exits(), None);
        assert_eq!(runner.imported_bridge_exits(), None);
    }
    let mut runner = Runner::new(config(Backend::Pico, 3, false));
    assert_eq!(
        runner.step(Event::SamplesLoaded(SampleSource::Canonical(Vec::new()))),
        Action::ReportFailure(BenchError::DataUnavailable)
    );
}

#[test]
fn an_empty_fixture_needs_no_sample() {
    let mut runner = Runner::new(config(Backend::Pico, 0, false));
    assert_eq!(
        runner.step(Event::SamplesLoaded(SampleSource::Custom(Some(Vec::new())))),
        Action::ApplyEvents
    );
    assert_eq!(runner.bridge_exits(), Some(Vec::new()));
    assert_eq!(runner.imported_bridge_exits(), Some(Vec::new()));
}

#[test]
fn a_malformed_certificate_fails_the_run() {
    let mut runner = Runner::new(config(Backend::Risc0, 10, false));
    runner.step(Event::SamplesLoaded(canonical()));
    assert_eq!(
        runner.step(Event::CertificateApplied([0xc1; 32], L1InfoRootLookup::Malformed)),
        Action::ReportFailure(BenchError::HeaderDerivationError)
    );
    assert_eq!(runner.failure(), Some(BenchError::HeaderDerivationError));
}

#[test]
fn a_header_that_cannot_be_derived_fails_the_run() {
    let mut runner = Runner::new(config(Backend::Risc0, 10, false));
    runner.step(Event::SamplesLoaded(canonical()));
    runner.step(Event::CertificateApplied([0xc1; 32], L1InfoRootLookup::Absent));
    assert_eq!(
        runner.step(Event::HeaderDerived(state(), None)),
        Action::ReportFailure(BenchError::HeaderDerivationError)
    );
    assert_eq!(runner.input(), None);
}

#[test]
fn a_rejected_fixture_never_reaches_a_backend() {
    for backend in BACKENDS {
        let mut runner = Runner::new(config(backend, 10, true));
        runner.step(Event::SamplesLoaded(canonical()));
        runner.step(Event::CertificateApplied([0xc1; 32], L1InfoRootLookup::Absent));
        runner.step(Event::HeaderDerived(state(), Some(header())));
        assert_eq!(
            runner.step(Event::LocallyValidated(Err("unbalanced exits".to_string()))),
            Action::ReportFailure(BenchError::ValidationError)
        );
        assert_eq!(runner.rejection(), Some(&"unbalanced exits".to_string()));
        assert_eq!(runner.failed_in(), Some(Phase::AwaitingValidation));
        assert!(runner.execute().is_none());
        assert!(runner.generate_proof().is_none());
        assert_eq!(
            runner.step(Event::RunFinished(Some(RawOutput::Bytes(vec![0; 164])), 1)),
            Action::ReportFailure(BenchError::ValidationError)
        );
        assert_eq!(runner.decode(), Action::ReportFailure(BenchError::ValidationError));
        assert_eq!(runner.output(), None);
        assert_eq!(runner.phase(), Phase::Failed);
        assert_eq!(runner.failure(), Some(BenchError::ValidationError));
        assert_eq!(runner.step(Event::Reported), Action::Stop);
    }
}

#[test]
fn no_run_can_be_asked_for_before_validation() {
    let mut runner = Runner::new(config(Backend::Pico, 10, false));
    assert!(runner.execute().is_none());
    runner.step(Event::SamplesLoaded(canonical()));
    assert!(runner.generate_proof().is_none());
    runner.step(Event::CertificateApplied([0xc1; 32], L1InfoRootLookup::Absent));
    assert!(runner.execute().is_none());
    runner.step(Event::HeaderDerived(state(), Some(header())));
    assert!(runner.execute().is_none());
    assert_eq!(runner.phase(), Phase::AwaitingValidation);
    assert_eq!(runner.next_action(), Action::ValidateLocally);
}

#[test]
fn the_input_that_is_encoded_is_the_one_that_was_validated() {
    let (mut runner, _) = validated(Backend::OpenVm, 10, false);
    assert_eq!(
        runner.input(),
        Some(&BenchmarkInput { initial_state: state(), multi_batch_header: header() })
    );
    let stdin = runner.generate_proof().unwrap();
    assert_eq!(stdin.into_records(), vec![vec![10, 11, 12, 20, 21]]);
    let (mut runner, _) = validated(Backend::Pico, 10, false);
    let stdin = runner.execute().unwrap();
    assert_eq!(stdin.into_records(), vec![vec![10, 11, 12], vec![20, 21]]);
}

#[test]
fn a_proving_run_is_verified_before_it_is_reported() {
    let (mut runner, local) = validated(Backend::OpenVm, 10, true);
    assert!(runner.generate_proof().is_some());
    assert_eq!(runner.next_action(), Action::Run(RunMode::Prove));
    let raw = commit_output(Backend::OpenVm.conventions().output, &local);
    assert_eq!(runner.step(Event::RunFinished(Some(raw), 42)), Action::Decode);
    assert_eq!(runner.phase(), Phase::Proved);
    assert_eq!(runner.record(), None);
    assert_eq!(runner.decode(), Action::Verify);
    assert_eq!(runner.record(), None);
    assert_eq!(runner.step(Event::Reported), Action::Verify);
    assert_eq!(runner.phase(), Phase::Decoded);
    assert_eq!(runner.step(Event::Verified(true)), Action::Report { persist: true });
    assert_eq!(runner.phase(), Phase::Verified);
    assert_eq!(
        runner.record(),
        Some(RunRecord {
            header_id: [0xc1; 32],
            backend: Backend::OpenVm,
            latency_nanos: 42,
            output: local,
        })
    );
    assert_eq!(runner.step(Event::Reported), Action::Stop);
    assert_eq!(runner.phase(), Phase::Done);
    assert_eq!(runner.output(), Some(local));
    assert_eq!(runner.record().map(|r| r.latency_nanos), Some(42));
}

#[test]
fn a_rejected_proof_fails_the_run_and_nothing_is_written() {
    let (mut runner, local) = validated(Backend::Risc0, 10, true);
    runner.generate_proof();
    runner.step(Event::RunFinished(Some(RawOutput::Typed(local)), 42));
    assert_eq!(runner.decode(), Action::Verify);
    assert_eq!(
        runner.step(Event::Verified(false)),
        Action::ReportFailure(BenchError::VerificationFailed)
    );
    assert_eq!(runner.failure(), Some(BenchError::VerificationFailed));
    assert_eq!(runner.record(), None);
    assert_eq!(runner.failed_in(), Some(Phase::Decoded));
    assert_eq!(runner.step(Event::Reported), Action::Stop);
    assert_eq!(runner.phase(), Phase::Failed);
}

#[test]
fn a_backend_that_fails_is_an_execution_error() {
    let (mut runner, _) = validated(Backend::Sp1, 10, true);
    runner.execute();
    assert_eq!(
        runner.step(Event::RunFinished(None, 3)),
        Action::ReportFailure(BenchError::ExecutionError)
    );
    assert_eq!(runner.latency_nanos(), None);
    assert_eq!(runner.failed_in(), Some(Phase::Encoded));
    assert_eq!(runner.decode(), Action::ReportFailure(BenchError::ExecutionError));
    assert_eq!(runner.output(), None);
}

#[test]
fn an_output_that_cannot_be_decoded_is_an_encoding_error() {
    let (mut runner, local) = validated(Backend::OpenVm, 10, true);
    runner.execute();
    runner.step(Event::RunFinished(Some(RawOutput::Typed(local)), 3));
    assert_eq!(runner.decode(), Action::ReportFailure(BenchError::EncodingError));
    assert_eq!(runner.failure(), Some(BenchError::EncodingError));
    assert_eq!(runner.failed_in(), Some(Phase::Executed));
    assert_eq!(runner.output(), None);
    let (mut runner, _) = validated(Backend::Pico, 10, true);
    runner.execute();
    runner.step(Event::RunFinished(Some(RawOutput::Bytes(vec![0; 100])), 3));
    assert_eq!(runner.decode(), Action::ReportFailure(BenchError::EncodingError));
}

#[test]
fn valida_cannot_be_asked_for_a_proof() {
    let (mut runner, _) = validated(Backend::Valida, 10, false);
    assert!(runner.generate_proof().is_none());
    assert_eq!(runner.phase(), Phase::Idle);
    assert_eq!(runner.next_action(), Action::RequestRun);
    assert!(runner.execute().is_some());
    assert_eq!(runner.phase(), Phase::Encoded);
}

#[test]
fn a_second_run_cannot_be_asked_for() {
    let (mut runner, _) = validated(Backend::Nexus, 10, false);
    assert!(runner.execute().is_some());
    assert!(runner.execute().is_none());
    assert!(runner.generate_proof().is_none());
    assert_eq!(runner.next_action(), Action::Run(RunMode::ExecuteOnly));
}

#[test]
fn an_event_out_of_turn_changes_nothing() {
    let mut runner = Runner::new(config(Backend::Pico, 10, false));
    assert_eq!(
        runner.step(Event::LocallyValidated(Ok(local_output(10, [0; 32])))),
        Action::LoadSamples
    );
    assert_eq!(runner.step(Event::RunFinished(None, 1)), Action::LoadSamples);
    assert_eq!(runner.step(Event::Verified(false)), Action::LoadSamples);
    assert_eq!(runner.step(Event::Reported), Action::LoadSamples);
    assert_eq!(runner.decode(), Action::LoadSamples);
    assert_eq!(runner.phase(), Phase::AwaitingSamples);
    assert_eq!(runner.failure(), None);
    let (mut runner, local) = validated(Backend::Pico, 10, false);
    assert_eq!(
        runner.step(Event::RunFinished(Some(RawOutput::Typed(local)), 1)),
        Action::RequestRun
    );
    assert_eq!(runner.step(Event::SamplesLoaded(SampleSource::Custom(None))), Action::RequestRun);
    assert_eq!(runner.latency_nanos(), None);
}

#[test]
fn the_latency_is_the_one_handed_in_with_the_run() {
    let (mut runner, local) = validated(Backend::Pico, 10, false);
    runner.execute();
    let raw = commit_output(Backend::Pico.conventions().output, &local);
    runner.step(Event::RunFinished(Some(raw), u64::MAX));
    assert_eq!(runner.latency_nanos(), Some(u64::MAX));
    runner.decode();
    runner.step(Event::Reported);
    assert_eq!(runner.latency_nanos(), Some(u64::MAX));
}

#[test]
fn an_execute_only_run_is_not_verified() {
    let (mut runner, local) = validated(Backend::OpenVm, 10, true);
    runner.execute();
    let raw = commit_output(Backend::OpenVm.conventions().output, &local);
    runner.step(Event::RunFinished(Some(raw), 5));
    assert_eq!(runner.decode(), Action::Report { persist: true });
    assert_eq!(runner.step(Event::Verified(false)), Action::Report { persist: true });
    assert_eq!(runner.phase(), Phase::Decoded);
    assert_eq!(runner.failure(), None);
}
