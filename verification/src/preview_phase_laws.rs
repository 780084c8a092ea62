//! How the phases of a preview are timed and shown.

use datafusion::arrow::datatypes::Schema;
use datafusion::prelude::DataFrame;
use vstd::prelude::*;

use crate::engine::{dataframe_schema, limited_dataframe};
use crate::errors::{BatchPipelinePhase, ErrorView};
use crate::execution::ProgressPhase;
use crate::handles::{PreviewOptions, preview_phase_names, unexecuted_preview_timings};
use crate::preview::{
    PhaseTimerView, TrackerView, failure_timings, phase_completed, phase_display_name,
    preview_failure, preview_timeline, started_phase, success_timings,
};
use crate::preview_run::{
    PreviewRunView, PreviewStage, announcement, bounded_query, closing_event, finished_preview,
    formatted_preview, preview_profile, preview_stages, run_advanced, run_started,
    wanted_preview_profile,
};
use crate::report::{
    ExecutionProfileMode, PhaseStatus, QueryExecutionOutcome, QueryExecutionProfileView,
    QueryExecutionScope, QueryOperatorView, ReportReasonCode, completed_timing, failed_timing,
    untimed,
};
use crate::timeline::{
    OpenSpanView, TimelineSpanStatus, TimelineSpanTimeSemantics, elapsed, finished_span,
    json_string_of, operator_spans,
};

verus! {

/// What elapsed is the later reading less the earlier, and nothing where the clock went back.
pub proof fn elapsed_time_is_the_difference(start: u64, now: u64)
    ensures
        start <= now ==> start + elapsed(start, now) == now,
        start > now ==> elapsed(start, now) == 0,
{
}

/// Timings say what they are of, how it ended, and the time only of what ran.
pub proof fn timings_keep_what_they_are_given(name: Seq<char>, micros: u64, status: PhaseStatus)
    ensures
        completed_timing(name, micros).phase_name == name,
        completed_timing(name, micros).status == PhaseStatus::Completed,
        completed_timing(name, micros).elapsed_micros == Some(micros),
        failed_timing(name, micros).phase_name == name,
        failed_timing(name, micros).status == PhaseStatus::Failed,
        failed_timing(name, micros).elapsed_micros == Some(micros),
        untimed(name, status).phase_name == name,
        untimed(name, status).status == status,
        untimed(name, status).elapsed_micros is None,
{
}

/// The phases of a preview, in order.
pub proof fn preview_phases_are_these()
    ensures
        preview_phase_names().len() == 7,
        preview_phase_names()[0] == "preview_dataframe_planning"@,
        preview_phase_names()[1] == "preview_physical_planning"@,
        preview_phase_names()[2] == "preview_stream_setup"@,
        preview_phase_names()[3] == "preview_execute_collect"@,
        preview_phase_names()[4] == "preview_format_text"@,
        preview_phase_names()[5] == "preview_format_html"@,
        preview_phase_names()[6] == "preview_total"@,
{
}

/// A preview that was not run has all phases, none of them timed.
pub proof fn unexecuted_preview_times_nothing(i: int)
    requires
        0 <= i < 7,
    ensures
        unexecuted_preview_timings().len() == 7,
        unexecuted_preview_timings()[i].phase_name == preview_phase_names()[i],
        unexecuted_preview_timings()[i].status == PhaseStatus::Unavailable(
            ReportReasonCode::NotExecuted,
        ),
        unexecuted_preview_timings()[i].elapsed_micros is None,
{
}

/// A started phase keeps its name and the reading it started at.
pub proof fn started_phase_keeps_its_start(name: Seq<char>, now: u64)
    ensures
        started_phase(name, now).phase_name == name,
        started_phase(name, now).span.start_offset_micros == now,
        started_phase(name, now).span.name == phase_display_name(name),
        started_phase(name, now).span.category == "delta_funnel.preview.phase"@,
        started_phase(name, now).span.phase_name == Some(json_string_of(name)),
{
}

/// A finished span keeps its name, its category, its start and its phase; it lasted from its
/// start to the reading, by the clock on the wall.
pub proof fn finished_span_lasts_from_its_start(
    span: OpenSpanView,
    status: TimelineSpanStatus,
    now: u64,
)
    ensures
        ({
            let finished = finished_span(span, status, now);
            &&& finished.name == span.name
            &&& finished.category == span.category
            &&& finished.status == status
            &&& finished.start_offset_micros == span.start_offset_micros
            &&& span.start_offset_micros <= now ==> span.start_offset_micros
                + finished.duration_micros == now
            &&& span.start_offset_micros > now ==> finished.duration_micros == 0
            &&& finished.time_semantics == TimelineSpanTimeSemantics::WallClock
            &&& finished.phase_name == span.phase_name
        }),
{
}

/// Every operator of a profile is shown, in order, from its start for its duration.
pub proof fn operators_are_shown_in_order(operators: Seq<QueryOperatorView>, i: int)
    requires
        0 <= i < operators.len(),
    ensures
        operator_spans(operators).len() == operators.len(),
        ({
            let span = operator_spans(operators)[i];
            &&& span.name == operators[i].name
            &&& span.category == "datafusion.operator.lifecycle"@
            &&& span.status == TimelineSpanStatus::Completed
            &&& span.start_offset_micros == operators[i].start_offset_micros
            &&& span.duration_micros == operators[i].duration_micros
            &&& span.time_semantics == TimelineSpanTimeSemantics::Lifecycle
            &&& span.phase_name is None
        }),
{
}

/// A completed phase is timed and shown behind those before it, for as long as it took.
pub proof fn completed_phase_is_kept_behind_the_others(
    tracker: TrackerView,
    timer: PhaseTimerView,
    now: u64,
)
    ensures
        ({
            let after = phase_completed(tracker, timer, now);
            &&& after.timings.drop_last() == tracker.timings
            &&& after.spans.drop_last() == tracker.spans
            &&& after.timings.last().phase_name == timer.phase_name
            &&& after.timings.last().status == PhaseStatus::Completed
            &&& after.timings.last().elapsed_micros == Some(after.spans.last().duration_micros)
            &&& after.spans.last().name == timer.span.name
            &&& after.spans.last().start_offset_micros == timer.span.start_offset_micros
            &&& after.spans.last().status == TimelineSpanStatus::Completed
            &&& timer.span.start_offset_micros <= now ==> timer.span.start_offset_micros
                + after.spans.last().duration_micros == now
        }),
{
    let after = phase_completed(tracker, timer, now);
    assert(after.timings.drop_last() =~= tracker.timings);
    assert(after.spans.drop_last() =~= tracker.spans);
}

/// The timeline of a preview holds the spans of its phases and behind them those of the profile's
/// operators; it lasts until the reading.
pub proof fn timeline_holds_phases_and_operators(
    tracker: TrackerView,
    profile: Option<QueryExecutionProfileView>,
    status: TimelineSpanStatus,
    now: u64,
)
    ensures
        ({
            let timeline = preview_timeline(tracker.spans, profile, status, now);
            &&& timeline.label == "Preview total"@
            &&& timeline.status == status
            &&& timeline.total_duration_micros == now
            &&& profile is None ==> timeline.spans == tracker.spans
            &&& profile matches Some(p) ==> timeline.spans == tracker.spans + operator_spans(
                p.operators,
            )
        }),
{
    assert(tracker.spans + seq![] =~= tracker.spans);
}

/// A successful preview ends with the time of the whole.
pub proof fn success_is_timed_as_a_whole(tracker: TrackerView, now: u64)
    ensures
        success_timings(tracker, now).drop_last() == tracker.timings,
        success_timings(tracker, now).last().phase_name == "preview_total"@,
        success_timings(tracker, now).last().status == PhaseStatus::Completed,
        success_timings(tracker, now).last().elapsed_micros == Some(now),
{
    assert(success_timings(tracker, now).drop_last() =~= tracker.timings);
}

/// A failed preview times the phases before, the failed phase for as long as it took, says of
/// every phase behind that it was not started, and ends with the time of the whole as failed.
pub proof fn failure_is_timed_phase_by_phase(
    tracker: TrackerView,
    timer: PhaseTimerView,
    now: u64,
    i: int,
)
    ensures
        ({
            let timings = failure_timings(tracker, timer, now);
            let k = tracker.timings.len() as int;
            let last = timings.len() - 1;
            &&& last == if k < 6 {
                6
            } else {
                k + 1
            }
            &&& 0 <= i < k ==> timings[i] == tracker.timings[i]
            &&& timings[k].phase_name == timer.phase_name
            &&& timings[k].status == PhaseStatus::Failed
            &&& timer.span.start_offset_micros <= now ==> (timings[k].elapsed_micros matches Some(
                micros,
            ) && timer.span.start_offset_micros + micros == now)
            &&& timer.span.start_offset_micros > now ==> timings[k].elapsed_micros == Some(0u64)
            &&& k < i < 6 ==> timings[i].phase_name == preview_phase_names()[i]
                && timings[i].status == PhaseStatus::NotStarted(ReportReasonCode::PriorFailure)
                && timings[i].elapsed_micros is None
            &&& timings[last].phase_name == "preview_total"@
            &&& timings[last].status == PhaseStatus::Failed
            &&& timings[last].elapsed_micros == Some(now)
        }),
{
}

/// A failed preview tells its phase, its source, its profile and a failed timeline whose last
/// phase is the failed one.
pub proof fn failure_tells_its_phase_and_source(
    tracker: TrackerView,
    timer: PhaseTimerView,
    profile: Option<QueryExecutionProfileView>,
    source: ErrorView,
    now: u64,
)
    ensures
        preview_failure(tracker, timer, profile, source, now) matches ErrorView::PreviewFailed {
            context,
            source: told,
        } && {
            &&& *told == source
            &&& context.failed_phase == timer.phase_name
            &&& context.phase_timings == failure_timings(tracker, timer, now)
            &&& context.execution_profile == profile
            &&& context.operation_timeline.label == "Preview total"@
            &&& context.operation_timeline.status == TimelineSpanStatus::Failed
            &&& context.operation_timeline.total_duration_micros == now
            &&& context.operation_timeline.spans.len() > tracker.spans.len()
            &&& forall|i: int|
                0 <= i < tracker.spans.len() ==> #[trigger] context.operation_timeline.spans[i]
                    == tracker.spans[i]
            &&& context.operation_timeline.spans[tracker.spans.len() as int].name
                == timer.span.name
            &&& context.operation_timeline.spans[tracker.spans.len() as int].status
                == TimelineSpanStatus::Failed
            &&& context.operation_timeline.spans[tracker.spans.len() as int].start_offset_micros
                == timer.span.start_offset_micros
        },
{
}

/// Phases are shown under readable names; what is no phase of a preview is shown as it is.
pub proof fn phases_are_shown_under_readable_names(name: Seq<char>)
    ensures
        phase_display_name("preview_dataframe_planning"@) == "DataFrame planning"@,
        phase_display_name("preview_physical_planning"@) == "Physical planning"@,
        phase_display_name("preview_stream_setup"@) == "Stream setup"@,
        phase_display_name("preview_execute_collect"@) == "Execute and collect"@,
        phase_display_name("preview_format_text"@) == "Format text"@,
        phase_display_name("preview_format_html"@) == "Format HTML"@,
        (forall|i: int| 0 <= i < 6 ==> name != #[trigger] preview_phase_names()[i])
            ==> phase_display_name(name) == name,
{
    reveal_strlit("preview_dataframe_planning");
    reveal_strlit("preview_physical_planning");
    reveal_strlit("preview_stream_setup");
    reveal_strlit("preview_execute_collect");
    reveal_strlit("preview_format_text");
    reveal_strlit("preview_format_html");
    assert("preview_physical_planning"@.len() == 25);
    assert("preview_dataframe_planning"@.len() == 26);
    assert("preview_stream_setup"@.len() == 20);
    assert("preview_execute_collect"@.len() == 23);
    assert("preview_format_text"@.len() == 19);
    assert("preview_format_html"@.len() == 19);
    assert("preview_format_text"@[15] == 't');
    assert("preview_format_html"@[15] == 'h');
    if forall|i: int| 0 <= i < 6 ==> name != #[trigger] preview_phase_names()[i] {
        assert(name != preview_phase_names()[0] && name != preview_phase_names()[1] && name
            != preview_phase_names()[2] && name != preview_phase_names()[3] && name
            != preview_phase_names()[4] && name != preview_phase_names()[5]);
    }
}

/// A preview starts in its first phase with nothing timed; going on completes the phase it is in
/// and starts the next at the same reading; the options stay.
pub proof fn preview_goes_on_phase_by_phase(
    options: PreviewOptions,
    run: PreviewRunView,
    next_phase: Seq<char>,
    now: u64,
)
    ensures
        run_started(options, now).options == options,
        run_started(options, now).tracker.timings.len() == 0,
        run_started(options, now).tracker.spans.len() == 0,
        run_started(options, now).timer == started_phase("preview_dataframe_planning"@, now),
        run_advanced(run, next_phase, now).options == run.options,
        run_advanced(run, next_phase, now).tracker == phase_completed(run.tracker, run.timer, now),
        run_advanced(run, next_phase, now).timer == started_phase(next_phase, now),
{
}

/// A profile is kept exactly where a detailed one is asked for: of a preview, with its row limit,
/// its outcome and its operators.
pub proof fn detailed_previews_keep_a_profile(
    options: PreviewOptions,
    outcome: QueryExecutionOutcome,
    operators: Seq<QueryOperatorView>,
)
    ensures
        wanted_preview_profile(options) is Some <==> options.profile_mode()
            == ExecutionProfileMode::Detailed,
        wanted_preview_profile(options) matches Some(wanted) ==> wanted == (
            QueryExecutionScope::Preview,
            options.row_limit() as u64,
        ),
        preview_profile(options, outcome, operators) is Some <==> options.profile_mode()
            == ExecutionProfileMode::Detailed,
        preview_profile(options, outcome, operators) matches Some(profile) ==> {
            &&& profile.scope == QueryExecutionScope::Preview
            &&& profile.outcome == outcome
            &&& profile.row_limit == Some(options.row_limit() as u64)
            &&& profile.operators == operators
        },
{
}

/// A preview reads the query's rows from the first, no more than its limit, under the query's own
/// schema; a query that was not planned is not read.
pub proof fn preview_reads_no_more_than_its_limit(
    planned: DataFrame,
    source: ErrorView,
    limit: usize,
)
    ensures
        bounded_query(Err(source), limit) == Err::<(Schema, DataFrame), ErrorView>(source),
        bounded_query(Ok(planned), limit) is Ok <==> limited_dataframe(planned, 0, Some(limit))
            is Ok,
        bounded_query(Ok(planned), limit) matches Ok(bounded) ==> {
            &&& bounded.0 == dataframe_schema(planned)
            &&& limited_dataframe(planned, 0, Some(limit)) == Ok::<DataFrame, Seq<char>>(bounded.1)
        },
        limited_dataframe(planned, 0, Some(limit)) matches Err(message) ==> bounded_query(
            Ok(planned),
            limit,
        ) == Err::<(Schema, DataFrame), ErrorView>(
            ErrorView::BatchPipeline {
                phase: BatchPipelinePhase::HandoffSetup,
                option: "preview_limit"@,
                message,
            },
        ),
{
}

/// Formatting shows the text before the page: a text that cannot be made fails the preview in the
/// phase of the text, a page in that of the page, and else both are shown.
pub proof fn text_is_formatted_before_the_page(
    run: PreviewRunView,
    profile: Option<QueryExecutionProfileView>,
    text: Seq<char>,
    html: Seq<char>,
    message: Seq<char>,
    text_done: u64,
    html_done: u64,
)
    ensures
        formatted_preview(run, profile, Ok(text), Ok(html), text_done, html_done) matches Ok(
            preview,
        ) && {
            &&& preview.text == text
            &&& preview.html == html
            &&& preview.execution_profile == profile
            &&& preview.phase_timings.len() == run.tracker.timings.len() + 3
        },
        forall|page: Result<Seq<char>, Seq<char>>|
            (#[trigger] formatted_preview(run, profile, Err(message), page, text_done, html_done))
                matches Err(ErrorView::PreviewFailed { context, source }) && context.failed_phase
                == run.timer.phase_name && (*source matches ErrorView::BatchPipeline {
                option,
                message: told,
                ..
            } && option == "preview_text"@ && told == message),
        formatted_preview(run, profile, Ok(text), Err(message), text_done, html_done) matches Err(
            ErrorView::PreviewFailed { context, source },
        ) && context.failed_phase == "preview_format_html"@ && (
        *source matches ErrorView::BatchPipeline { option, message: told, .. } && option
            == "preview_html"@ && told == message),
{
}

/// A finished preview shows what it was given and its last reading is the time of the whole.
pub proof fn finished_preview_shows_what_it_was_given(
    run: PreviewRunView,
    profile: Option<QueryExecutionProfileView>,
    text: Seq<char>,
    html: Seq<char>,
    now: u64,
)
    ensures
        ({
            let preview = finished_preview(run, profile, text, html, now);
            &&& preview.text == text
            &&& preview.html == html
            &&& preview.execution_profile == profile
            &&& preview.phase_timings.drop_last() == phase_completed(
                run.tracker,
                run.timer,
                now,
            ).timings
            &&& preview.phase_timings.last().elapsed_micros == Some(now)
            &&& preview.operation_timeline matches Some(timeline) && timeline.status
                == TimelineSpanStatus::Completed && timeline.total_duration_micros == now
                && forall|i: int|
                0 <= i <= run.tracker.spans.len() ==> #[trigger] timeline.spans[i]
                    == phase_completed(run.tracker, run.timer, now).spans[i]
        }),
{
    let preview = finished_preview(run, profile, text, html, now);
    assert(preview.phase_timings.drop_last() =~= phase_completed(
        run.tracker,
        run.timer,
        now,
    ).timings);
}

/// A preview announces that it prepares, that it collects and that it formats, each at the first
/// phase of it, and at no other phase.
pub proof fn three_phases_are_announced(stage: PreviewStage)
    ensures
        announcement(stage) == Some(ProgressPhase::PreparingPreview) <==> stage
            == PreviewStage::DataFramePlanning,
        announcement(stage) == Some(ProgressPhase::CollectingPreview) <==> stage
            == PreviewStage::StreamSetup,
        announcement(stage) == Some(ProgressPhase::FormattingPreview) <==> stage
            == PreviewStage::FormatText,
        announcement(stage) is None <==> stage == PreviewStage::PhysicalPlanning || stage
            == PreviewStage::ExecuteCollect || stage == PreviewStage::FormatHtml,
        preview_stages() == seq![
            PreviewStage::DataFramePlanning,
            PreviewStage::PhysicalPlanning,
            PreviewStage::StreamSetup,
            PreviewStage::ExecuteCollect,
            PreviewStage::FormatText,
            PreviewStage::FormatHtml,
        ],
        closing_event(true) is Completed,
        closing_event(false) is Failed,
{
}

} // verus!
