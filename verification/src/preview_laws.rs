//! The whole course of a preview, from what the query engine answers to its phases.

use datafusion::arrow::datatypes::Schema;
use datafusion::prelude::DataFrame;
use vstd::prelude::*;

use crate::engine::{PreviewBatch, batches_table, schema_fields};
use crate::errors::{ErrorView, handoff_setup};
use crate::execution::{ProgressEvent, ProgressOperation, ProgressPhase};
use crate::handles::{
    PREVIEW_EXECUTE_COLLECT_PHASE, PREVIEW_FORMAT_HTML_PHASE, PREVIEW_FORMAT_TEXT_PHASE,
    PREVIEW_PHYSICAL_PLANNING_PHASE, PREVIEW_STREAM_SETUP_PHASE, PreviewOptions, TablePreviewView,
};
use crate::html::batches_html;
use crate::preview_run::{
    PreviewRunView, announced, announcement, announcements_follow_the_phases, bounded_query,
    closing_event, formatted_preview, has_wanted_profile, preview_profile, preview_stages,
    run_advanced, run_failed, run_started,
};
use crate::report::{QueryExecutionOutcome, QueryOperatorView};

verus! {

/// What the query engine and the clock answer in the course of a preview.
pub struct PreviewAnswers {
    pub started: u64,
    pub planned: Result<DataFrame, ErrorView>,
    pub planned_at: u64,
    pub created: Result<(), Seq<char>>,
    pub created_at: u64,
    pub ready: Result<(), Seq<char>>,
    pub planned_operators: Seq<QueryOperatorView>,
    pub ready_at: u64,
    pub collected: Result<Seq<PreviewBatch>, ErrorView>,
    pub executed_operators: Seq<QueryOperatorView>,
    pub collected_at: u64,
    pub text_at: u64,
    pub html_at: u64,
}

/// The last phase that a preview was in, and what it came to.
pub struct PreviewCourse {
    pub last: PreviewRunView,
    pub result: Result<TablePreviewView, ErrorView>,
}

/// The rest of the course once rows are being rendered.
pub open spec fn course_from_formatting(
    run: PreviewRunView,
    schema: Schema,
    rows: Seq<PreviewBatch>,
    answers: PreviewAnswers,
) -> PreviewCourse {
    let profile = preview_profile(
        run.options,
        QueryExecutionOutcome::Success,
        answers.executed_operators,
    );
    PreviewCourse {
        last: if batches_table(rows) is Ok {
            run_advanced(run, PREVIEW_FORMAT_HTML_PHASE@, answers.text_at)
        } else {
            run
        },
        result: formatted_preview(
            run,
            profile,
            batches_table(rows),
            batches_html(schema_fields(schema), rows),
            answers.text_at,
            answers.html_at,
        ),
    }
}

/// The rest of the course once rows are being collected.
pub open spec fn course_from_collecting(
    run: PreviewRunView,
    schema: Schema,
    answers: PreviewAnswers,
) -> PreviewCourse {
    match answers.collected {
        Ok(rows) => course_from_formatting(
            run_advanced(run, PREVIEW_FORMAT_TEXT_PHASE@, answers.collected_at),
            schema,
            rows,
            answers,
        ),
        Err(source) => PreviewCourse {
            last: run,
            result: Err(
                run_failed(
                    run,
                    preview_profile(
                        run.options,
                        QueryExecutionOutcome::Error,
                        answers.executed_operators,
                    ),
                    source,
                    answers.collected_at,
                ),
            ),
        },
    }
}

/// The rest of the course once the row stream is being set up.
pub open spec fn course_from_setup(
    run: PreviewRunView,
    schema: Schema,
    answers: PreviewAnswers,
) -> PreviewCourse {
    match answers.ready {
        Ok(_) => course_from_collecting(
            run_advanced(run, PREVIEW_EXECUTE_COLLECT_PHASE@, answers.ready_at),
            schema,
            answers,
        ),
        Err(message) => PreviewCourse {
            last: run,
            result: Err(
                run_failed(
                    run,
                    preview_profile(
                        run.options,
                        QueryExecutionOutcome::Error,
                        answers.planned_operators,
                    ),
                    handoff_setup("preview_collect"@, message),
                    answers.ready_at,
                ),
            ),
        },
    }
}

/// The rest of the course once the execution is being planned.
pub open spec fn course_from_physical_planning(
    run: PreviewRunView,
    schema: Schema,
    answers: PreviewAnswers,
) -> PreviewCourse {
    match answers.created {
        Ok(_) => course_from_setup(
            run_advanced(run, PREVIEW_STREAM_SETUP_PHASE@, answers.created_at),
            schema,
            answers,
        ),
        Err(message) => PreviewCourse {
            last: run,
            result: Err(
                run_failed(
                    run,
                    None,
                    handoff_setup("preview_collect"@, message),
                    answers.created_at,
                ),
            ),
        },
    }
}

/// The course of a preview.
pub open spec fn preview_course(options: PreviewOptions, answers: PreviewAnswers) -> PreviewCourse {
    let run = run_started(options, answers.started);
    match bounded_query(answers.planned, options.row_limit()) {
        Ok((schema, _)) => course_from_physical_planning(
            run_advanced(run, PREVIEW_PHYSICAL_PLANNING_PHASE@, answers.planned_at),
            schema,
            answers,
        ),
        Err(source) => PreviewCourse {
            last: run,
            result: Err(run_failed(run, None, source, answers.planned_at)),
        },
    }
}

/// The live events for some announced phases.
pub open spec fn phase_changes(phases: Seq<ProgressPhase>) -> Seq<ProgressEvent> {
    Seq::new(phases.len(), |i: int| ProgressEvent::PhaseChanged { phase: phases[i] })
}

/// The live events of a preview up to the phase that it is in, apart from file counts: that it
/// started, and the announcement of every phase that has one.
pub open spec fn live_events(run: PreviewRunView) -> Seq<ProgressEvent> {
    seq![ProgressEvent::Started { operation: ProgressOperation::PreviewTable }] + phase_changes(
        announced(run.tracker.timings.len() + 1),
    )
}

/// The live events of a whole preview, apart from file counts.
pub open spec fn reported_events(course: PreviewCourse) -> Seq<ProgressEvent> {
    live_events(course.last).push(closing_event(course.result is Ok))
}

/// The phases that a preview can announce, in order.
pub open spec fn announced_phases() -> Seq<ProgressPhase> {
    seq![
        ProgressPhase::PreparingPreview,
        ProgressPhase::CollectingPreview,
        ProgressPhase::FormattingPreview,
    ]
}

/// A preview that starts has announced that it started and that it is being prepared.
pub proof fn started_preview_has_announced_itself(options: PreviewOptions, now: u64)
    ensures
        live_events(run_started(options, now)) == seq![
            ProgressEvent::Started { operation: ProgressOperation::PreviewTable },
            ProgressEvent::PhaseChanged { phase: ProgressPhase::PreparingPreview },
        ],
{
    announcements_follow_the_phases();
    assert(live_events(run_started(options, now)) =~= seq![
        ProgressEvent::Started { operation: ProgressOperation::PreviewTable },
        ProgressEvent::PhaseChanged { phase: ProgressPhase::PreparingPreview },
    ]);
}

/// Entering a phase adds the announcement of that phase, if it has one, and nothing else.
pub proof fn entered_phase_adds_its_announcement(run: PreviewRunView, next_phase: Seq<char>, now: u64)
    requires
        run.tracker.timings.len() + 1 < 6,
    ensures
        live_events(run_advanced(run, next_phase, now)) == (match announcement(
            preview_stages()[(run.tracker.timings.len() + 1) as int],
        ) {
            Some(phase) => live_events(run).push(ProgressEvent::PhaseChanged { phase }),
            None => live_events(run),
        }),
{
    let n = run.tracker.timings.len() + 1;
    let next = run_advanced(run, next_phase, now);
    assert(next.tracker.timings.len() == n);
    match announcement(preview_stages()[n as int]) {
        Some(phase) => {
            assert(announced(n + 1) == announced(n).push(phase));
            assert(live_events(next) =~= live_events(run).push(
                ProgressEvent::PhaseChanged { phase },
            ));
        },
        None => {},
    }
}

proof fn announcements_are_a_prefix(n: nat)
    requires
        1 <= n <= 6,
    ensures
        1 <= announced(n).len() <= 3,
        announced(n) == announced_phases().take(announced(n).len() as int),
        n >= 5 ==> announced(n).len() == 3,
{
    announcements_follow_the_phases();
    reveal_with_fuel(announced, 7);
    let all = announced_phases();
    assert(all.take(1) =~= seq![ProgressPhase::PreparingPreview]);
    assert(all.take(2) =~= seq![ProgressPhase::PreparingPreview, ProgressPhase::CollectingPreview]);
    assert(all.take(3) =~= all);
    assert(announced(5) =~= all);
    assert(announced(6) =~= all);
}

proof fn course_stays_within_the_phases(options: PreviewOptions, answers: PreviewAnswers)
    ensures
        ({
            let course = preview_course(options, answers);
            &&& course.last.tracker.timings.len() < 6
            &&& course.result is Ok ==> course.last.tracker.timings.len() == 5
            &&& course.last.options == options
        }),
{
}

/// A reported preview first says that it started. It announces preparing, collecting and
/// formatting, in this order and each once, as far as it gets, and all three where it succeeds.
/// The last event says how it ended: it completed exactly where there is a preview. No other
/// event says so.
pub proof fn preview_reports_its_course(options: PreviewOptions, answers: PreviewAnswers)
    ensures
        ({
            let course = preview_course(options, answers);
            let events = reported_events(course);
            let n = events.len() as int;
            &&& 3 <= n <= 5
            &&& events[0] == (ProgressEvent::Started { operation: ProgressOperation::PreviewTable })
            &&& forall|i: int|
                0 < i < n - 1 ==> #[trigger] events[i] == (ProgressEvent::PhaseChanged {
                    phase: announced_phases()[i - 1],
                })
            &&& events[n - 1] == (if course.result is Ok {
                ProgressEvent::Completed
            } else {
                ProgressEvent::Failed
            })
            &&& forall|i: int|
                0 <= i < n ==> ((#[trigger] events[i] is Completed || events[i] is Failed) <==> i
                    == n - 1)
            &&& course.result is Ok ==> n == 5
        }),
{
    course_stays_within_the_phases(options, answers);
    let course = preview_course(options, answers);
    let entered = course.last.tracker.timings.len() + 1;
    announcements_are_a_prefix(entered);
    let events = reported_events(course);
    let n = events.len() as int;
    assert(n == announced(entered).len() + 2);
    assert forall|i: int| 0 < i < n - 1 implies #[trigger] events[i] == (
    ProgressEvent::PhaseChanged { phase: announced_phases()[i - 1] }) by {
        assert(events[i] == phase_changes(announced(entered))[i - 1]);
        assert(announced(entered)[i - 1] == announced_phases()[i - 1]);
    }
}

/// A preview that succeeds has a profile exactly in detailed mode. It tells of a successful,
/// complete execution and has the limit of the preview, zero as well.
pub proof fn preview_has_the_wanted_profile(options: PreviewOptions, answers: PreviewAnswers)
    ensures
        preview_course(options, answers).result matches Ok(preview) ==> has_wanted_profile(
            options,
            preview.execution_profile,
        ),
{
}

/// What a preview shows follows from the query, its limit and the collected rows: neither the
/// clock nor the wanted profile changes it.
pub proof fn same_rows_are_shown_the_same(
    options: PreviewOptions,
    answers: PreviewAnswers,
    other_options: PreviewOptions,
    other_answers: PreviewAnswers,
)
    requires
        options.row_limit() == other_options.row_limit(),
        answers.planned == other_answers.planned,
        answers.collected == other_answers.collected,
    ensures
        match (
            preview_course(options, answers).result,
            preview_course(other_options, other_answers).result,
        ) {
            (Ok(preview), Ok(other)) => preview.text == other.text && preview.html == other.html,
            _ => true,
        },
{
}

} // verus!
