use delta_funnel::errors::DeltaFunnelError;
use delta_funnel::execution::{
    DeltaFileProgressSampler, DeltaProviderReadStatsSnapshot, DeltaProviderScanOutcome,
    PartitionExecutionState, PartitionTrackingSetup, ProfileRegistration, ProfileRoot,
    ProgressEvent, ProgressPhase, QueryExecutionTerminal, StreamEvent,
    batch_stream_for_physical_plan, file_progress_from_provider_stats,
    finalize_tracked_query_execution, samples_file_progress, strongest_provider_scan_outcome,
    terminal_outcome_of, track_partitioned_query_execution_completion,
    wrap_stream_with_query_execution_tracking,
};
use delta_funnel::report::{QueryExecutionOutcome, QueryExecutionScope};

fn snapshot(source_name: &str, handled: u64, total: u64) -> DeltaProviderReadStatsSnapshot {
    DeltaProviderReadStatsSnapshot {
        source_name: source_name.to_owned(),
        snapshot_version: 1,
        files_planned: total,
        files_handled: handled,
        files_started: handled,
        files_completed: handled,
        batches_produced: 0,
        rows_produced: 0,
        scan_metadata_exhausted: None,
    }
}

#[test]
fn partitions_end_the_execution_once() {
    let mut first: QueryExecutionTerminal<(), ()> = QueryExecutionTerminal::new(Vec::new(), None);
    let mut shared = PartitionExecutionState::new(Vec::<u8>::new(), Some("consumer"), 2);

    assert!(first.observe(StreamEvent::Batch).is_none());
    let ended = first.observe(StreamEvent::End);
    assert!(ended.is_some_and(|end| end.outcome == DeltaProviderScanOutcome::Success));
    assert!(first.observe(StreamEvent::End).is_none());
    assert!(first.observe(StreamEvent::Dropped).is_none());

    assert!(
        shared
            .record_stream_terminal(DeltaProviderScanOutcome::Success)
            .is_none()
    );
    assert_eq!(shared.remaining_streams(), 1);
    assert_eq!(shared.outcome(), DeltaProviderScanOutcome::Success);
    let last = shared.record_stream_terminal(DeltaProviderScanOutcome::Success);
    assert!(last.is_some_and(|end| end.profile_consumer == Some("consumer")
        && end.outcome == DeltaProviderScanOutcome::Success));
    assert_eq!(shared.remaining_streams(), 0);
    assert!(
        shared
            .record_stream_terminal(DeltaProviderScanOutcome::Error)
            .is_none()
    );
    assert_eq!(shared.outcome(), DeltaProviderScanOutcome::Success);
}

#[test]
fn failed_partition_makes_the_whole_execution_fail() {
    let mut shared = PartitionExecutionState::new(vec!["orders"], Some(1), 2);

    assert!(
        shared
            .record_stream_terminal(DeltaProviderScanOutcome::Error)
            .is_none()
    );
    assert_eq!(shared.remaining_streams(), 1);
    assert_eq!(shared.outcome(), DeltaProviderScanOutcome::Error);
    let last = shared.record_stream_terminal(DeltaProviderScanOutcome::Cancelled);
    assert!(last.is_some_and(|end| end.outcome == DeltaProviderScanOutcome::Error
        && end.read_stats_handles == vec!["orders"]
        && end.profile_consumer == Some(1)));
    assert_eq!(shared.remaining_streams(), 0);
}

#[test]
fn unread_partition_cancels_the_execution() {
    let mut shared: PartitionExecutionState<&str, ()> =
        PartitionExecutionState::new(vec!["orders"], None, 2);

    assert!(
        shared
            .record_stream_terminal(DeltaProviderScanOutcome::Success)
            .is_none()
    );
    let last = shared.record_stream_terminal(DeltaProviderScanOutcome::Cancelled);
    assert!(last.is_some_and(|end| end.outcome == DeltaProviderScanOutcome::Cancelled));
}

#[test]
fn profile_consumer_is_told_each_outcome_once() {
    for (event, outcome) in [
        (StreamEvent::End, DeltaProviderScanOutcome::Success),
        (StreamEvent::Failed, DeltaProviderScanOutcome::Error),
        (StreamEvent::Dropped, DeltaProviderScanOutcome::Cancelled),
    ] {
        let mut terminal: QueryExecutionTerminal<(), &str> =
            QueryExecutionTerminal::new(Vec::new(), Some("profile"));
        assert_eq!(terminal_outcome_of(event), Some(outcome));
        assert!(terminal.observe(StreamEvent::Pending).is_none());
        let end = terminal.observe(event);
        assert!(end.is_some_and(|end| end.outcome == outcome
            && end.profile_consumer == Some("profile")));
        assert!(terminal.observe(event).is_none());
        assert!(terminal.observe(StreamEvent::Failed).is_none());
        assert!(terminal.observe(StreamEvent::Dropped).is_none());
    }
}

#[test]
fn execution_without_partitions_succeeds_at_once() {
    let setup = track_partitioned_query_execution_completion(0, vec!["orders"], None::<()>);
    assert!(matches!(
        setup,
        PartitionTrackingSetup::Finalized(end)
            if end.outcome == DeltaProviderScanOutcome::Success
                && end.read_stats_handles == vec!["orders"]
    ));
    assert!(matches!(
        track_partitioned_query_execution_completion(3, Vec::<u8>::new(), None::<()>),
        PartitionTrackingSetup::Untracked
    ));
    assert!(matches!(
        track_partitioned_query_execution_completion(3, Vec::<u8>::new(), Some(())),
        PartitionTrackingSetup::Coordinated(state) if state.remaining_streams() == 3
    ));
}

#[test]
fn failed_setup_ends_the_execution_at_once() {
    let mut retained = vec![snapshot("earlier", 1, 1)];

    let failed = batch_stream_for_physical_plan(
        vec![snapshot("orders", 0, 4)],
        &mut retained,
        true,
        Some(QueryExecutionScope::Preview),
        Err("no stream".to_owned()),
    );

    assert_eq!(retained.len(), 2);
    assert_eq!(retained[1].source_name, "orders");
    let Err(failure) = failed else {
        panic!("expected a failure");
    };
    assert!(matches!(
        failure.source,
        DeltaFunnelError::BatchPipeline { option: "query_output_stream", ref message, .. }
            if message == "no stream"
    ));
    let Some(report) = failure.terminal else {
        panic!("expected a report");
    };
    assert_eq!(report.outcome, DeltaProviderScanOutcome::Error);
    assert_eq!(report.summaries.len(), 1);
    assert_eq!(
        report.profile,
        Some((
            ProfileRegistration {
                scope: QueryExecutionScope::Preview,
                root: ProfileRoot::PhysicalPlan
            },
            QueryExecutionOutcome::Error
        ))
    );
}

#[test]
fn started_streams_are_tracked_and_profiled_at_their_effective_root() {
    let mut retained = Vec::new();

    let started = batch_stream_for_physical_plan(
        vec![snapshot("orders", 0, 4)],
        &mut retained,
        false,
        Some(QueryExecutionScope::MssqlOutput),
        Ok(()),
    );

    assert!(retained.is_empty());
    let Ok(setup) = started else {
        panic!("expected a stream");
    };
    assert!(!setup.tracking.file_progress);
    assert!(setup.tracking.completion);
    assert_eq!(
        setup.profile.map(|profile| profile.root),
        Some(ProfileRoot::EffectiveRoot)
    );
    let plain = batch_stream_for_physical_plan(Vec::new(), &mut retained, true, None, Ok(()));
    assert!(plain.is_ok_and(|setup| !setup.tracking.completion
        && !setup.tracking.file_progress
        && setup.profile.is_none()));
}

#[test]
fn execution_without_scans_leaves_nothing_behind() {
    let mut retained = Vec::new();
    let failed =
        batch_stream_for_physical_plan(Vec::new(), &mut retained, true, None, Err("x".to_owned()));
    assert!(failed.is_err_and(|failure| failure.terminal.is_none()));
    assert!(retained.is_empty());
}

#[test]
fn every_scan_gets_one_summary() {
    let mut retained = Vec::new();
    let report = finalize_tracked_query_execution(
        vec![snapshot("orders", 1, 1), snapshot("customers", 2, 2)],
        &mut retained,
        None::<()>,
        DeltaProviderScanOutcome::Success,
    );
    assert_eq!(retained.len(), 2);
    assert!(report.is_some_and(|report| report.summaries.len() == 2 && report.profile.is_none()));
    assert!(
        finalize_tracked_query_execution(
            Vec::new(),
            &mut retained,
            None::<()>,
            DeltaProviderScanOutcome::Success
        )
        .is_none()
    );
    assert_eq!(retained.len(), 2);
}

#[test]
fn file_progress_is_reported_when_it_changes() {
    let mut sampler =
        DeltaFileProgressSampler::new(ProgressPhase::Writing, Some("orders output".to_owned()));

    assert_eq!(sampler.emit_if_changed(&Vec::new()), None);
    assert_eq!(
        sampler.emit_if_changed(&vec![snapshot("orders", 0, 2)]),
        Some(ProgressEvent::FileProgress {
            phase: ProgressPhase::Writing,
            output_name: Some("orders output".to_owned()),
            files_handled: 0,
            files_total: 2,
        })
    );
    assert_eq!(
        sampler.emit_if_changed(&vec![snapshot("orders", 0, 2)]),
        None
    );
    assert!(
        sampler
            .emit_if_changed(&vec![snapshot("orders", 1, 2)])
            .is_some()
    );
}

#[test]
fn file_progress_is_summed_over_scans() {
    assert_eq!(file_progress_from_provider_stats(&Vec::new()), None);
    assert_eq!(
        file_progress_from_provider_stats(&vec![
            snapshot("orders", 1, 2),
            snapshot("customers", 3, 4),
        ]),
        Some((4, 6))
    );
    assert_eq!(
        file_progress_from_provider_stats(&vec![
            snapshot("orders", u64::MAX, u64::MAX),
            snapshot("customers", 1, 1),
        ]),
        Some((u64::MAX, u64::MAX))
    );
}

#[test]
fn errors_are_stronger_than_drops_and_drops_than_success() {
    let outcomes = [
        DeltaProviderScanOutcome::Success,
        DeltaProviderScanOutcome::Cancelled,
        DeltaProviderScanOutcome::Error,
    ];
    for (i, a) in outcomes.into_iter().enumerate() {
        for (j, b) in outcomes.into_iter().enumerate() {
            assert_eq!(
                strongest_provider_scan_outcome(a, b),
                outcomes[if i > j { i } else { j }]
            );
        }
    }
}

#[test]
fn tracking_needs_something_to_report() {
    let tracking = wrap_stream_with_query_execution_tracking(0, true, true);
    assert!(!tracking.file_progress && tracking.completion);
    let tracking = wrap_stream_with_query_execution_tracking(2, true, false);
    assert!(tracking.file_progress && tracking.completion);
    let tracking = wrap_stream_with_query_execution_tracking(0, true, false);
    assert!(!tracking.file_progress && !tracking.completion);
}

#[test]
fn file_counts_are_sampled_when_a_stream_yields() {
    assert!(samples_file_progress(StreamEvent::Batch));
    assert!(samples_file_progress(StreamEvent::End));
    assert!(samples_file_progress(StreamEvent::Failed));
    assert!(!samples_file_progress(StreamEvent::Pending));
    assert!(!samples_file_progress(StreamEvent::Dropped));
}
