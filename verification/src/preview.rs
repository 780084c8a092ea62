//! The phases of a bounded preview and what is retained of them.

use datafusion::prelude::DataFrame;
use vstd::prelude::*;

use crate::errors::{DeltaFunnelError, ErrorView, PreviewFailureContext, PreviewFailureContextView};
use crate::handles::{
    PREVIEW_DATAFRAME_PLANNING_PHASE, PREVIEW_EXECUTE_COLLECT_PHASE, PREVIEW_FORMAT_HTML_PHASE,
    PREVIEW_FORMAT_TEXT_PHASE, PREVIEW_PHASE_COUNT, PREVIEW_PHYSICAL_PLANNING_PHASE,
    PREVIEW_STREAM_SETUP_PHASE, PREVIEW_TOTAL_PHASE, preview_phase_name, preview_phase_names,
};
use crate::report::{
    PhaseStatus, PhaseTimingReport, PhaseTimingView, QueryExecutionProfile,
    QueryExecutionProfileView, ReportReasonCode, completed_timing, failed_timing, opt_view, untimed,
    views, views_push,
};
use crate::text::texts_equal;
use crate::timeline::{
    OpenSpanView, OperationTimeline, OperationTimelineRecorder, OperationTimelineSpanRecorder,
    OperationTimelineView, TimelineSpanStatus, TimelineSpanView, elapsed, finished_span,
    json_string_of, operator_spans,
};

verus! {

/// The name under which a phase is shown.
pub open spec fn phase_display_name(phase_name: Seq<char>) -> Seq<char> {
    if phase_name == PREVIEW_DATAFRAME_PLANNING_PHASE@ {
        "DataFrame planning"@
    } else if phase_name == PREVIEW_PHYSICAL_PLANNING_PHASE@ {
        "Physical planning"@
    } else if phase_name == PREVIEW_STREAM_SETUP_PHASE@ {
        "Stream setup"@
    } else if phase_name == PREVIEW_EXECUTE_COLLECT_PHASE@ {
        "Execute and collect"@
    } else if phase_name == PREVIEW_FORMAT_TEXT_PHASE@ {
        "Format text"@
    } else if phase_name == PREVIEW_FORMAT_HTML_PHASE@ {
        "Format HTML"@
    } else {
        phase_name
    }
}

/// Returns the name under which a phase is shown.
pub fn preview_phase_display_name(phase_name: &str) -> (r: &str)
    ensures
        r@ == phase_display_name(phase_name@),
{
    if texts_equal(phase_name, PREVIEW_DATAFRAME_PLANNING_PHASE) {
        "DataFrame planning"
    } else if texts_equal(phase_name, PREVIEW_PHYSICAL_PLANNING_PHASE) {
        "Physical planning"
    } else if texts_equal(phase_name, PREVIEW_STREAM_SETUP_PHASE) {
        "Stream setup"
    } else if texts_equal(phase_name, PREVIEW_EXECUTE_COLLECT_PHASE) {
        "Execute and collect"
    } else if texts_equal(phase_name, PREVIEW_FORMAT_TEXT_PHASE) {
        "Format text"
    } else if texts_equal(phase_name, PREVIEW_FORMAT_HTML_PHASE) {
        "Format HTML"
    } else {
        phase_name
    }
}

/// Category of the spans that stand for preview phases.
pub const PREVIEW_PHASE_CATEGORY: &'static str = "delta_funnel.preview.phase";

/// What a phase timer says.
pub struct PhaseTimerView {
    pub phase_name: Seq<char>,
    pub span: OpenSpanView,
}

/// The timer of a phase that starts at a clock reading.
pub open spec fn started_phase(phase_name: Seq<char>, now: u64) -> PhaseTimerView {
    PhaseTimerView {
        phase_name,
        span: OpenSpanView {
            name: phase_display_name(phase_name),
            category: PREVIEW_PHASE_CATEGORY@,
            start_offset_micros: now,
            phase_name: Some(json_string_of(phase_name)),
        },
    }
}

/// Timer of one preview phase.
pub struct PreviewPhaseTimer {
    phase_name: &'static str,
    timeline_span: OperationTimelineSpanRecorder,
}

impl View for PreviewPhaseTimer {
    type V = PhaseTimerView;

    closed spec fn view(&self) -> PhaseTimerView {
        PhaseTimerView { phase_name: self.phase_name@, span: self.timeline_span@ }
    }
}

/// What a tracker has recorded.
pub struct TrackerView {
    pub timings: Seq<PhaseTimingView>,
    pub spans: Seq<TimelineSpanView>,
}

/// The record once a phase has completed.
pub open spec fn phase_completed(tracker: TrackerView, timer: PhaseTimerView, now: u64) -> TrackerView {
    TrackerView {
        timings: tracker.timings.push(
            completed_timing(timer.phase_name, elapsed(timer.span.start_offset_micros, now)),
        ),
        spans: tracker.spans.push(
            finished_span(timer.span, TimelineSpanStatus::Completed, now),
        ),
    }
}

/// The spans of the operators of an optional profile.
pub open spec fn profile_spans(profile: Option<QueryExecutionProfileView>) -> Seq<TimelineSpanView> {
    match profile {
        Some(profile) => operator_spans(profile.operators),
        None => seq![],
    }
}

/// The timeline of a whole preview.
pub open spec fn preview_timeline(
    spans: Seq<TimelineSpanView>,
    profile: Option<QueryExecutionProfileView>,
    status: TimelineSpanStatus,
    now: u64,
) -> OperationTimelineView {
    OperationTimelineView {
        label: "Preview total"@,
        status,
        total_duration_micros: now,
        spans: spans + profile_spans(profile),
    }
}

/// Entries for the phases that come after the first `n`, without the whole preview.
pub open spec fn phases_not_started(n: nat) -> Seq<PhaseTimingView> {
    if n <= 6 {
        Seq::new(
            (6 - n) as nat,
            |i: int|
                untimed(
                    preview_phase_names()[n + i],
                    PhaseStatus::NotStarted(ReportReasonCode::PriorFailure),
                ),
        )
    } else {
        seq![]
    }
}

/// The timings of a preview that failed in a phase: what completed, the failure, what never
/// started, and the whole.
pub open spec fn failure_timings(
    tracker: TrackerView,
    timer: PhaseTimerView,
    now: u64,
) -> Seq<PhaseTimingView> {
    let failed = tracker.timings.push(
        failed_timing(timer.phase_name, elapsed(timer.span.start_offset_micros, now)),
    );
    (failed + phases_not_started(failed.len())).push(failed_timing(PREVIEW_TOTAL_PHASE@, now))
}

/// The error of a preview that failed in a phase.
pub open spec fn preview_failure(
    tracker: TrackerView,
    timer: PhaseTimerView,
    profile: Option<QueryExecutionProfileView>,
    source: ErrorView,
    now: u64,
) -> ErrorView {
    ErrorView::PreviewFailed {
        context: PreviewFailureContextView {
            failed_phase: timer.phase_name,
            phase_timings: failure_timings(tracker, timer, now),
            execution_profile: profile,
            operation_timeline: preview_timeline(
                tracker.spans.push(finished_span(timer.span, TimelineSpanStatus::Failed, now)),
                profile,
                TimelineSpanStatus::Failed,
                now,
            ),
        },
        source: Box::new(source),
    }
}

/// The timings of a preview that succeeded.
pub open spec fn success_timings(tracker: TrackerView, now: u64) -> Seq<PhaseTimingView> {
    tracker.timings.push(completed_timing(PREVIEW_TOTAL_PHASE@, now))
}

/// Records the phases of one preview.
pub struct PreviewTimingTracker {
    phase_timings: Vec<PhaseTimingReport>,
    timeline: OperationTimelineRecorder,
}

impl View for PreviewTimingTracker {
    type V = TrackerView;

    closed spec fn view(&self) -> TrackerView {
        TrackerView { timings: views(self.phase_timings@), spans: self.timeline@ }
    }
}

impl PreviewTimingTracker {
    /// Starts with nothing recorded.
    pub fn start() -> (r: Self)
        ensures
            r@ == (TrackerView { timings: seq![], spans: seq![] }),
    {
        let r = PreviewTimingTracker {
            phase_timings: Vec::new(),
            timeline: OperationTimelineRecorder::start(),
        };
        assert(r@.timings =~= seq![]);
        assert(r@.spans =~= seq![]);
        r
    }

    /// Starts a phase at a clock reading.
    pub fn start_phase(&self, phase_name: &'static str, now_micros: u64) -> (r: PreviewPhaseTimer)
        ensures
            r@ == started_phase(phase_name@, now_micros),
    {
        let display_name = preview_phase_display_name(phase_name);
        let span = OperationTimelineSpanRecorder::start(
            display_name,
            PREVIEW_PHASE_CATEGORY,
            now_micros,
        );
        PreviewPhaseTimer { phase_name, timeline_span: span.with_phase_name(phase_name) }
    }

    /// Records that a phase has completed.
    pub fn record_completed(&mut self, timer: PreviewPhaseTimer, now_micros: u64)
        ensures
            final(self)@ == phase_completed(old(self)@, timer@, now_micros),
    {
        let timing = self.record_timing(timer, TimelineSpanStatus::Completed, now_micros);
        proof {
            views_push(self.phase_timings@, timing);
        }
        self.phase_timings.push(timing);
    }

    /// Ends the span of a phase and makes the timing for it.
    pub fn record_timing(
        &mut self,
        timer: PreviewPhaseTimer,
        status: TimelineSpanStatus,
        now_micros: u64,
    ) -> (r: PhaseTimingReport)
        ensures
            final(self)@ == (TrackerView {
                timings: old(self)@.timings,
                spans: old(self)@.spans.push(finished_span(timer@.span, status, now_micros)),
            }),
            r@ == (if status == TimelineSpanStatus::Completed {
                completed_timing(
                    timer@.phase_name,
                    elapsed(timer@.span.start_offset_micros, now_micros),
                )
            } else {
                failed_timing(
                    timer@.phase_name,
                    elapsed(timer@.span.start_offset_micros, now_micros),
                )
            }),
    {
        let phase_name = timer.phase_name;
        let micros: u64 = self.timeline.finish_span(timer.timeline_span, status, now_micros);
        match status {
            TimelineSpanStatus::Completed => PhaseTimingReport::completed(phase_name, micros),
            TimelineSpanStatus::Failed | TimelineSpanStatus::Cancelled => {
                PhaseTimingReport::failed(phase_name, micros)
            },
        }
    }

    /// Ends a preview that succeeded.
    pub fn completed(self, execution_profile: Option<&QueryExecutionProfile>, now_micros: u64) -> (r:
        (Vec<PhaseTimingReport>, OperationTimeline))
        ensures
            views(r.0@) == success_timings(self@, now_micros),
            r.1@ == preview_timeline(
                self@.spans,
                match execution_profile {
                    Some(profile) => Some(profile@),
                    None => None,
                },
                TimelineSpanStatus::Completed,
                now_micros,
            ),
    {
        let mut timeline = self.timeline;
        let mut phase_timings = self.phase_timings;
        assert(timeline@ + Seq::<TimelineSpanView>::empty() =~= timeline@);
        match execution_profile {
            Some(profile) => timeline.append_operator_lifecycles(profile),
            None => {},
        }
        let finished = timeline.finish(
            "Preview total",
            TimelineSpanStatus::Completed,
            now_micros,
        );
        let total = PhaseTimingReport::completed(PREVIEW_TOTAL_PHASE, now_micros);
        proof {
            views_push(phase_timings@, total);
        }
        phase_timings.push(total);
        (phase_timings, finished)
    }

    /// Ends a preview that failed in a phase, and keeps what is known of it in the error.
    pub fn failed(
        self,
        timer: PreviewPhaseTimer,
        execution_profile: Option<QueryExecutionProfile>,
        source: DeltaFunnelError,
        now_micros: u64,
    ) -> (r: DeltaFunnelError)
        ensures
            r@ == preview_failure(self@, timer@, opt_view(execution_profile), source@, now_micros),
    {
        let mut tracker = self;
        let failed_phase = timer.phase_name.to_owned();
        let ghost timer_view = timer@;
        let failed_timing_report = tracker.record_timing(
            timer,
            TimelineSpanStatus::Failed,
            now_micros,
        );
        let mut phase_timings = tracker.phase_timings;
        let mut timeline = tracker.timeline;
        proof {
            views_push(phase_timings@, failed_timing_report);
        }
        phase_timings.push(failed_timing_report);
        let ghost failed = views(phase_timings@);
        let start: usize = phase_timings.len();
        let mut next: usize = start;
        assert(views(phase_timings@) =~= failed + phases_not_started(start as nat).take(0));
        while next < PREVIEW_PHASE_COUNT - 1
            invariant
                start <= next,
                next <= 6 || next == start,
                start <= 6 ==> next <= 6,
                failed.len() == start,
                views(phase_timings@) == failed + phases_not_started(start as nat).take(
                    next - start,
                ),
            decreases 6 - next,
        {
            let entry = PhaseTimingReport::not_started(
                preview_phase_name(next),
                ReportReasonCode::PriorFailure,
            );
            proof {
                views_push(phase_timings@, entry);
                let rest = phases_not_started(start as nat);
                assert(rest.take(next + 1 - start) =~= rest.take(next - start).push(entry@));
                assert(failed + rest.take(next + 1 - start) =~= (failed + rest.take(
                    next - start,
                )).push(entry@));
            }
            phase_timings.push(entry);
            next += 1;
        }
        assert(phases_not_started(start as nat).take(next - start) =~= phases_not_started(
            start as nat,
        ));
        assert(timeline@ + Seq::<TimelineSpanView>::empty() =~= timeline@);
        match &execution_profile {
            Some(profile) => timeline.append_operator_lifecycles(profile),
            None => {},
        }
        let finished = timeline.finish("Preview total", TimelineSpanStatus::Failed, now_micros);
        let total = PhaseTimingReport::failed(PREVIEW_TOTAL_PHASE, now_micros);
        proof {
            views_push(phase_timings@, total);
        }
        phase_timings.push(total);
        DeltaFunnelError::PreviewFailed {
            context: Box::new(
                PreviewFailureContext::new(
                    failed_phase,
                    phase_timings,
                    execution_profile,
                    finished,
                ),
            ),
            source: Box::new(source),
        }
    }
}

} // verus!
