//! Operation timelines: named spans on one clock that starts at zero.

use vstd::prelude::*;

use crate::report::{QueryExecutionProfile, QueryOperatorView, views, views_push};

verus! {

/// Declares `serde_json::Value`, a JSON value whose inside stays unseen here.
#[verifier::external_type_specification]
#[verifier::external_body]
pub struct ExJsonValue(serde_json::Value);

/// The JSON string that holds a text.
pub uninterp spec fn json_string_of(text: Seq<char>) -> serde_json::Value;

/// `serde_json::Value::String` builds the JSON string that holds the given text; the same
/// text gives the same value.
#[verifier::external_body]
fn json_string(text: &str) -> (r: serde_json::Value)
    ensures
        r == json_string_of(text@),
{
    serde_json::Value::String(text.to_owned())
}

/// Status of one span, and of a whole timeline.
#[derive(Debug, Clone, Copy, PartialEq, Eq, Structural)]
pub enum TimelineSpanStatus {
    /// The work ran to its end.
    Completed,
    /// The work failed.
    Failed,
    /// The work was abandoned.
    Cancelled,
}

/// What the times of a span measure.
#[derive(Debug, Clone, Copy, PartialEq, Eq, Structural)]
pub enum TimelineSpanTimeSemantics {
    /// The time in which the span was at work, on the operation's clock.
    WallClock,
    /// The time from an operator's first to its last activity.
    Lifecycle,
}

/// What one span says.
pub struct TimelineSpanView {
    pub name: Seq<char>,
    pub category: Seq<char>,
    pub status: TimelineSpanStatus,
    pub start_offset_micros: u64,
    pub duration_micros: u64,
    pub time_semantics: TimelineSpanTimeSemantics,
    pub phase_name: Option<serde_json::Value>,
}

/// One finished span of an operation.
#[derive(Debug, PartialEq, Eq)]
pub struct TimelineSpan {
    name: String,
    category: String,
    status: TimelineSpanStatus,
    start_offset_micros: u64,
    duration_micros: u64,
    time_semantics: TimelineSpanTimeSemantics,
    phase_name: Option<serde_json::Value>,
}

impl View for TimelineSpan {
    type V = TimelineSpanView;

    closed spec fn view(&self) -> TimelineSpanView {
        TimelineSpanView {
            name: self.name@,
            category: self.category@,
            status: self.status,
            start_offset_micros: self.start_offset_micros,
            duration_micros: self.duration_micros,
            time_semantics: self.time_semantics,
            phase_name: self.phase_name,
        }
    }
}

impl TimelineSpan {
    /// Returns the span name.
    pub fn name(&self) -> (r: &str)
        ensures
            r@ == self@.name,
    {
        self.name.as_str()
    }

    /// Returns the span category.
    pub fn category(&self) -> (r: &str)
        ensures
            r@ == self@.category,
    {
        self.category.as_str()
    }

    /// Returns the span status.
    pub fn status(&self) -> (r: TimelineSpanStatus)
        ensures
            r == self@.status,
    {
        self.status
    }

    /// Returns when the span started, counted from the operation's start.
    pub fn start_offset_micros(&self) -> (r: u64)
        ensures
            r == self@.start_offset_micros,
    {
        self.start_offset_micros
    }

    /// Returns how long the span lasted.
    pub fn duration_micros(&self) -> (r: u64)
        ensures
            r == self@.duration_micros,
    {
        self.duration_micros
    }

    /// Returns what the times of the span measure.
    pub fn time_semantics(&self) -> (r: TimelineSpanTimeSemantics)
        ensures
            r == self@.time_semantics,
    {
        self.time_semantics
    }

    /// Returns the `phase_name` attribute, where the span carries one.
    pub fn phase_name(&self) -> (r: &Option<serde_json::Value>)
        ensures
            *r == self@.phase_name,
    {
        &self.phase_name
    }
}

/// What a timeline says.
pub struct OperationTimelineView {
    pub label: Seq<char>,
    pub status: TimelineSpanStatus,
    pub total_duration_micros: u64,
    pub spans: Seq<TimelineSpanView>,
}

/// Finished timeline of one operation.
#[derive(Debug, PartialEq, Eq)]
pub struct OperationTimeline {
    label: String,
    status: TimelineSpanStatus,
    total_duration_micros: u64,
    spans: Vec<TimelineSpan>,
}

impl View for OperationTimeline {
    type V = OperationTimelineView;

    closed spec fn view(&self) -> OperationTimelineView {
        OperationTimelineView {
            label: self.label@,
            status: self.status,
            total_duration_micros: self.total_duration_micros,
            spans: views(self.spans@),
        }
    }
}

impl OperationTimeline {
    /// Returns the label of the whole operation.
    pub fn label(&self) -> (r: &str)
        ensures
            r@ == self@.label,
    {
        self.label.as_str()
    }

    /// Returns how the operation ended.
    pub fn status(&self) -> (r: TimelineSpanStatus)
        ensures
            r == self@.status,
    {
        self.status
    }

    /// Returns how long the operation lasted.
    pub fn total_duration_micros(&self) -> (r: u64)
        ensures
            r == self@.total_duration_micros,
    {
        self.total_duration_micros
    }

    /// Returns the spans in the order in which they finished.
    pub fn spans(&self) -> (r: &Vec<TimelineSpan>)
        ensures
            views(r@) == self@.spans,
    {
        &self.spans
    }
}

/// A span that has started and not finished.
pub struct OpenSpanView {
    pub name: Seq<char>,
    pub category: Seq<char>,
    pub start_offset_micros: u64,
    pub phase_name: Option<serde_json::Value>,
}

/// Handle of a started span.
pub struct OperationTimelineSpanRecorder {
    name: String,
    category: String,
    start_offset_micros: u64,
    phase_name: Option<serde_json::Value>,
}

impl View for OperationTimelineSpanRecorder {
    type V = OpenSpanView;

    closed spec fn view(&self) -> OpenSpanView {
        OpenSpanView {
            name: self.name@,
            category: self.category@,
            start_offset_micros: self.start_offset_micros,
            phase_name: self.phase_name,
        }
    }
}

impl OperationTimelineSpanRecorder {
    /// Starts a span at the given clock reading.
    pub fn start(name: &str, category: &str, now_micros: u64) -> (r: Self)
        ensures
            r@ == (OpenSpanView {
                name: name@,
                category: category@,
                start_offset_micros: now_micros,
                phase_name: None,
            }),
    {
        OperationTimelineSpanRecorder {
            name: name.to_owned(),
            category: category.to_owned(),
            start_offset_micros: now_micros,
            phase_name: None,
        }
    }

    /// Attaches the `phase_name` attribute.
    pub fn with_phase_name(self, phase_name: &str) -> (r: Self)
        ensures
            r@ == (OpenSpanView { phase_name: Some(json_string_of(phase_name@)), ..self@ }),
    {
        OperationTimelineSpanRecorder {
            name: self.name,
            category: self.category,
            start_offset_micros: self.start_offset_micros,
            phase_name: Some(json_string(phase_name)),
        }
    }
}

/// Time between two clock readings; a reading that went backwards counts as no time.
pub open spec fn elapsed(start: u64, now: u64) -> u64 {
    if now >= start {
        (now - start) as u64
    } else {
        0
    }
}

/// The finished form of a started span.
pub open spec fn finished_span(
    span: OpenSpanView,
    status: TimelineSpanStatus,
    now: u64,
) -> TimelineSpanView {
    TimelineSpanView {
        name: span.name,
        category: span.category,
        status,
        start_offset_micros: span.start_offset_micros,
        duration_micros: elapsed(span.start_offset_micros, now),
        time_semantics: TimelineSpanTimeSemantics::WallClock,
        phase_name: span.phase_name,
    }
}

/// Category of the spans that stand for executed operators.
pub const OPERATOR_LIFECYCLE_CATEGORY: &'static str = "datafusion.operator.lifecycle";

/// The span of one executed operator.
pub open spec fn operator_span(operator: QueryOperatorView) -> TimelineSpanView {
    TimelineSpanView {
        name: operator.name,
        category: OPERATOR_LIFECYCLE_CATEGORY@,
        status: TimelineSpanStatus::Completed,
        start_offset_micros: operator.start_offset_micros,
        duration_micros: operator.duration_micros,
        time_semantics: TimelineSpanTimeSemantics::Lifecycle,
        phase_name: None,
    }
}

/// The spans of the operators of a profile.
pub open spec fn operator_spans(operators: Seq<QueryOperatorView>) -> Seq<TimelineSpanView> {
    Seq::new(operators.len(), |i: int| operator_span(operators[i]))
}

/// Collects the spans of one running operation.
pub struct OperationTimelineRecorder {
    spans: Vec<TimelineSpan>,
}

impl View for OperationTimelineRecorder {
    type V = Seq<TimelineSpanView>;

    closed spec fn view(&self) -> Seq<TimelineSpanView> {
        views(self.spans@)
    }
}

impl OperationTimelineRecorder {
    /// Starts an empty timeline.
    pub fn start() -> (r: Self)
        ensures
            r@ == Seq::<TimelineSpanView>::empty(),
    {
        let r = OperationTimelineRecorder { spans: Vec::new() };
        assert(r@ =~= Seq::<TimelineSpanView>::empty());
        r
    }

    /// Finishes a span at the given clock reading and returns its duration.
    pub fn finish_span(
        &mut self,
        span: OperationTimelineSpanRecorder,
        status: TimelineSpanStatus,
        now_micros: u64,
    ) -> (r: u64)
        ensures
            r == elapsed(span@.start_offset_micros, now_micros),
            final(self)@ == old(self)@.push(finished_span(span@, status, now_micros)),
    {
        let duration: u64 = if now_micros >= span.start_offset_micros {
            now_micros - span.start_offset_micros
        } else {
            0
        };
        let finished = TimelineSpan {
            name: span.name,
            category: span.category,
            status,
            start_offset_micros: span.start_offset_micros,
            duration_micros: duration,
            time_semantics: TimelineSpanTimeSemantics::WallClock,
            phase_name: span.phase_name,
        };
        proof {
            views_push(self.spans@, finished);
        }
        self.spans.push(finished);
        duration
    }

    /// Appends one span for each operator of a profile.
    pub fn append_operator_lifecycles(&mut self, profile: &QueryExecutionProfile)
        ensures
            final(self)@ == old(self)@ + operator_spans(profile@.operators),
    {
        let operators = profile.operators();
        let mut i: usize = 0;
        assert(old(self)@ + operator_spans(profile@.operators).take(0) =~= old(self)@);
        while i < operators.len()
            invariant
                i <= operators.len(),
                views(operators@) == profile@.operators,
                self@ == old(self)@ + operator_spans(profile@.operators).take(i as int),
            decreases operators.len() - i,
        {
            let operator = &operators[i];
            let span = TimelineSpan {
                name: operator.operator_name().to_owned(),
                category: OPERATOR_LIFECYCLE_CATEGORY.to_owned(),
                status: TimelineSpanStatus::Completed,
                start_offset_micros: operator.start_offset_micros(),
                duration_micros: operator.duration_micros(),
                time_semantics: TimelineSpanTimeSemantics::Lifecycle,
                phase_name: None,
            };
            proof {
                assert(operator@ == views(operators@)[i as int]);
                views_push(self.spans@, span);
                assert(operator_spans(profile@.operators).take(i + 1) =~= operator_spans(
                    profile@.operators,
                ).take(i as int).push(span@));
                assert(old(self)@ + operator_spans(profile@.operators).take(i + 1) =~= (old(self)@
                    + operator_spans(profile@.operators).take(i as int)).push(span@));
            }
            self.spans.push(span);
            i += 1;
        }
        assert(operator_spans(profile@.operators).take(operators.len() as int) =~= operator_spans(
            profile@.operators,
        ));
    }

    /// Closes the timeline at the given clock reading.
    pub fn finish(self, label: &str, status: TimelineSpanStatus, now_micros: u64) -> (r:
        OperationTimeline)
        ensures
            r@ == (OperationTimelineView {
                label: label@,
                status,
                total_duration_micros: now_micros,
                spans: self@,
            }),
    {
        OperationTimeline {
            label: label.to_owned(),
            status,
            total_duration_micros: now_micros,
            spans: self.spans,
        }
    }
}

} // verus!
