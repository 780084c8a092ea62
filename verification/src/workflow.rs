//! Writing several outputs one after the other, with scoped cache aliases around them.

use vstd::prelude::*;

use crate::errors::{
    DeltaFunnelError, ErrorView, cache_error_with_restore, cache_error_with_restore_error,
    error_text,
};
use crate::report::{views, views_push};

verus! {

/// What the report of one write says.
pub struct WriteReportView {
    pub output_name: Seq<char>,
    pub rows_written: u64,
    pub batches_written: u64,
}

/// Report of one write.
#[derive(Debug, PartialEq, Eq)]
pub struct MssqlWriteReport {
    /// Name of the output.
    pub output_name: String,
    /// Rows that reached the target.
    pub rows_written: u64,
    /// Batches that reached the target.
    pub batches_written: u64,
}

impl View for MssqlWriteReport {
    type V = WriteReportView;

    open spec fn view(&self) -> WriteReportView {
        WriteReportView {
            output_name: self.output_name@,
            rows_written: self.rows_written,
            batches_written: self.batches_written,
        }
    }
}

/// What the status of one output says.
#[allow(inconsistent_fields)]
pub enum WriteStatusView {
    Succeeded(WriteReportView),
    Failed { output_name: Seq<char>, error: Seq<char> },
    Skipped { output_name: Seq<char> },
}

/// Status of one output of a workflow.
#[allow(inconsistent_fields)]
#[derive(Debug, PartialEq, Eq)]
pub enum MssqlOutputWriteStatus {
    /// The output was written.
    Succeeded(MssqlWriteReport),
    /// The output was attempted and failed.
    Failed { output_name: String, error: String },
    /// The output was not attempted because an earlier one failed.
    Skipped { output_name: String },
}

impl View for MssqlOutputWriteStatus {
    type V = WriteStatusView;

    open spec fn view(&self) -> WriteStatusView {
        match *self {
            MssqlOutputWriteStatus::Succeeded(report) => WriteStatusView::Succeeded(report@),
            MssqlOutputWriteStatus::Failed { output_name, error } => WriteStatusView::Failed {
                output_name: output_name@,
                error: error@,
            },
            MssqlOutputWriteStatus::Skipped { output_name } => WriteStatusView::Skipped {
                output_name: output_name@,
            },
        }
    }
}

/// The output that a status is about.
pub open spec fn status_name(status: WriteStatusView) -> Seq<char> {
    match status {
        WriteStatusView::Succeeded(report) => report.output_name,
        WriteStatusView::Failed { output_name, .. } => output_name,
        WriteStatusView::Skipped { output_name } => output_name,
    }
}

impl MssqlOutputWriteStatus {
    /// Returns the name of the output.
    pub fn output_name(&self) -> (r: &str)
        ensures
            r@ == status_name(self@),
    {
        match self {
            MssqlOutputWriteStatus::Succeeded(report) => report.output_name.as_str(),
            MssqlOutputWriteStatus::Failed { output_name, .. } => output_name.as_str(),
            MssqlOutputWriteStatus::Skipped { output_name } => output_name.as_str(),
        }
    }

    /// Tells whether the output was written.
    pub fn is_succeeded(&self) -> (r: bool)
        ensures
            r == (self@ is Succeeded),
    {
        matches!(self, MssqlOutputWriteStatus::Succeeded(_))
    }

    /// Tells whether the output was attempted and failed.
    pub fn is_failed(&self) -> (r: bool)
        ensures
            r == (self@ is Failed),
    {
        matches!(self, MssqlOutputWriteStatus::Failed { .. })
    }

    /// Tells whether the output was not attempted.
    pub fn is_skipped(&self) -> (r: bool)
        ensures
            r == (self@ is Skipped),
    {
        matches!(self, MssqlOutputWriteStatus::Skipped { .. })
    }
}

/// Number of statuses among the first `n` with the given outcome.
pub open spec fn count_statuses(
    statuses: Seq<WriteStatusView>,
    wanted: spec_fn(WriteStatusView) -> bool,
    n: nat,
) -> nat
    decreases n,
{
    if n == 0 {
        0
    } else {
        count_statuses(statuses, wanted, (n - 1) as nat) + if wanted(statuses[n - 1]) {
            1nat
        } else {
            0nat
        }
    }
}

/// Status of an output that was written.
pub open spec fn succeeded() -> spec_fn(WriteStatusView) -> bool {
    |status: WriteStatusView| status is Succeeded
}

/// Status of an output that failed.
pub open spec fn failed() -> spec_fn(WriteStatusView) -> bool {
    |status: WriteStatusView| status is Failed
}

/// Status of an output that was not attempted.
pub open spec fn skipped() -> spec_fn(WriteStatusView) -> bool {
    |status: WriteStatusView| status is Skipped
}

/// Report of a workflow: one status for each output, in order.
#[derive(Debug, PartialEq, Eq)]
pub struct MssqlWorkflowWriteReport {
    outputs: Vec<MssqlOutputWriteStatus>,
}

impl View for MssqlWorkflowWriteReport {
    type V = Seq<WriteStatusView>;

    closed spec fn view(&self) -> Seq<WriteStatusView> {
        views(self.outputs@)
    }
}

impl MssqlWorkflowWriteReport {
    /// Returns the status of each output, in order.
    pub fn outputs(&self) -> (r: &Vec<MssqlOutputWriteStatus>)
        ensures
            views(r@) == self@,
    {
        &self.outputs
    }

    /// Returns the number of outputs.
    pub fn len(&self) -> (r: usize)
        ensures
            r == self@.len(),
    {
        self.outputs.len()
    }

    /// Counts the outputs that were written.
    pub fn succeeded_count(&self) -> (r: usize)
        ensures
            r == count_statuses(self@, succeeded(), self@.len()),
    {
        let mut count: usize = 0;
        let mut i: usize = 0;
        while i < self.outputs.len()
            invariant
                i <= self.outputs.len(),
                count <= i,
                count == count_statuses(self@, succeeded(), i as nat),
            decreases self.outputs.len() - i,
        {
            assert(self@[i as int] == self.outputs@[i as int]@);
            if self.outputs[i].is_succeeded() {
                count += 1;
            }
            i += 1;
        }
        assert(self@.len() == self.outputs.len());
        count
    }

    /// Counts the outputs that failed.
    pub fn failed_count(&self) -> (r: usize)
        ensures
            r == count_statuses(self@, failed(), self@.len()),
    {
        let mut count: usize = 0;
        let mut i: usize = 0;
        while i < self.outputs.len()
            invariant
                i <= self.outputs.len(),
                count <= i,
                count == count_statuses(self@, failed(), i as nat),
            decreases self.outputs.len() - i,
        {
            assert(self@[i as int] == self.outputs@[i as int]@);
            if self.outputs[i].is_failed() {
                count += 1;
            }
            i += 1;
        }
        assert(self@.len() == self.outputs.len());
        count
    }

    /// Counts the outputs that were not attempted.
    pub fn skipped_count(&self) -> (r: usize)
        ensures
            r == count_statuses(self@, skipped(), self@.len()),
    {
        let mut count: usize = 0;
        let mut i: usize = 0;
        while i < self.outputs.len()
            invariant
                i <= self.outputs.len(),
                count <= i,
                count == count_statuses(self@, skipped(), i as nat),
            decreases self.outputs.len() - i,
        {
            assert(self@[i as int] == self.outputs@[i as int]@);
            if self.outputs[i].is_skipped() {
                count += 1;
            }
            i += 1;
        }
        assert(self@.len() == self.outputs.len());
        count
    }

    /// Tells whether every output was written.
    pub fn all_succeeded(&self) -> (r: bool)
        ensures
            r == (forall|i: int| 0 <= i < self@.len() ==> (#[trigger] self@[i]) is Succeeded),
    {
        let mut i: usize = 0;
        while i < self.outputs.len()
            invariant
                i <= self.outputs.len(),
                forall|k: int| 0 <= k < i ==> (#[trigger] self@[k]) is Succeeded,
            decreases self.outputs.len() - i,
        {
            assert(self@[i as int] == self.outputs@[i as int]@);
            if !self.outputs[i].is_succeeded() {
                return false;
            }
            i += 1;
        }
        true
    }
}

/// What a running workflow says.
pub struct WorkflowRunView {
    pub names: Seq<Seq<char>>,
    pub statuses: Seq<WriteStatusView>,
    pub failed: bool,
}

/// Workflow that writes its outputs in order and stops at the first failure.
pub struct WorkflowRun {
    names: Vec<String>,
    statuses: Vec<MssqlOutputWriteStatus>,
    failed: bool,
}

impl View for WorkflowRun {
    type V = WorkflowRunView;

    closed spec fn view(&self) -> WorkflowRunView {
        WorkflowRunView {
            names: views(self.names@),
            statuses: views(self.statuses@),
            failed: self.failed,
        }
    }
}

/// A workflow before its first output.
pub open spec fn workflow_started(names: Seq<Seq<char>>) -> WorkflowRunView {
    WorkflowRunView { names, statuses: seq![], failed: false }
}

/// The output that a workflow attempts next, if there is one.
pub open spec fn next_output(run: WorkflowRunView) -> Option<int> {
    if run.failed || run.statuses.len() >= run.names.len() {
        None
    } else {
        Some(run.statuses.len() as int)
    }
}

/// The outcome of one write.
pub open spec fn outcome_view(outcome: Result<MssqlWriteReport, DeltaFunnelError>) -> Result<
    WriteReportView,
    ErrorView,
> {
    match outcome {
        Ok(report) => Ok(report@),
        Err(error) => Err(error@),
    }
}

/// The status for the outcome of an attempted output.
pub open spec fn attempted(name: Seq<char>, outcome: Result<WriteReportView, ErrorView>) -> WriteStatusView {
    match outcome {
        Ok(report) => WriteStatusView::Succeeded(report),
        Err(error) => WriteStatusView::Failed { output_name: name, error: error_text(error) },
    }
}

/// A workflow after the outcome of its next output.
pub open spec fn workflow_recorded(
    run: WorkflowRunView,
    outcome: Result<WriteReportView, ErrorView>,
) -> WorkflowRunView {
    WorkflowRunView {
        names: run.names,
        statuses: run.statuses.push(attempted(run.names[run.statuses.len() as int], outcome)),
        failed: outcome is Err,
    }
}

/// The statuses of all outputs once nothing more is attempted.
pub open spec fn workflow_finished(run: WorkflowRunView) -> Seq<WriteStatusView> {
    Seq::new(
        run.names.len(),
        |i: int|
            if i < run.statuses.len() {
                run.statuses[i]
            } else {
                WriteStatusView::Skipped { output_name: run.names[i] }
            },
    )
}

/// A workflow that came about by attempting its outputs in order.
pub open spec fn workflow_in_order(run: WorkflowRunView) -> bool {
    &&& run.statuses.len() <= run.names.len()
    &&& run.failed ==> run.statuses.len() > 0 && run.statuses.last() is Failed
    &&& forall|i: int|
        0 <= i < run.statuses.len() && !(run.failed && i == run.statuses.len() - 1) ==> (
        #[trigger] run.statuses[i]) is Succeeded
}

impl WorkflowRun {
    /// Starts a workflow over the outputs with some names.
    pub fn new(names: Vec<String>) -> (r: Self)
        ensures
            r@ == workflow_started(views(names@)),
            workflow_in_order(r@),
    {
        let r = WorkflowRun { names, statuses: Vec::new(), failed: false };
        assert(r@.statuses =~= seq![]);
        r
    }

    /// Returns the position of the output that is attempted next.
    pub fn next_output(&self) -> (r: Option<usize>)
        ensures
            match r {
                Some(i) => next_output(self@) == Some(i as int) && i < self@.names.len(),
                None => next_output(self@) is None,
            },
    {
        assert(self@.statuses.len() == self.statuses.len());
        assert(self@.names.len() == self.names.len());
        if self.failed || self.statuses.len() >= self.names.len() {
            None
        } else {
            Some(self.statuses.len())
        }
    }

    /// Records the outcome of the next output.
    pub fn record(&mut self, outcome: Result<MssqlWriteReport, DeltaFunnelError>)
        requires
            next_output(old(self)@) is Some,
        ensures
            final(self)@ == workflow_recorded(old(self)@, outcome_view(outcome)),
            workflow_in_order(old(self)@) ==> workflow_in_order(final(self)@),
    {
        let ghost before = self@;
        assert(before.statuses.len() == self.statuses.len());
        assert(before.names.len() == self.names.len());
        let status = match outcome {
            Ok(report) => MssqlOutputWriteStatus::Succeeded(report),
            Err(error) => {
                self.failed = true;
                let i: usize = self.statuses.len();
                assert(before.names[i as int] == self.names@[i as int]@);
                MssqlOutputWriteStatus::Failed {
                    output_name: self.names[i].clone(),
                    error: error.display_text(),
                }
            },
        };
        proof {
            views_push(self.statuses@, status);
        }
        self.statuses.push(status);
    }

    /// Ends the workflow: what was not attempted is reported as skipped.
    pub fn finish(self) -> (r: MssqlWorkflowWriteReport)
        requires
            workflow_in_order(self@),
        ensures
            r@ == workflow_finished(self@),
    {
        let ghost run = self@;
        let ghost wanted = workflow_finished(run);
        let names = self.names;
        let mut outputs = self.statuses;
        let mut i: usize = outputs.len();
        assert(run.statuses.len() == outputs.len());
        assert(run.names.len() == names.len());
        assert(views(outputs@) =~= wanted.take(i as int));
        while i < names.len()
            invariant
                run.statuses.len() <= i <= names.len(),
                run.names == views(names@),
                wanted == workflow_finished(run),
                views(outputs@) == wanted.take(i as int),
            decreases names.len() - i,
        {
            assert(run.names[i as int] == names@[i as int]@);
            let status = MssqlOutputWriteStatus::Skipped { output_name: names[i].clone() };
            proof {
                views_push(outputs@, status);
                assert(wanted.take(i + 1) =~= wanted.take(i as int).push(status@));
            }
            outputs.push(status);
            i += 1;
        }
        assert(wanted.take(names.len() as int) =~= wanted);
        MssqlWorkflowWriteReport { outputs }
    }
}

/// A finished workflow has one status for each output. Up to the first failure all outputs
/// succeeded, and after it none was attempted.
pub proof fn outputs_after_a_failure_are_skipped(run: WorkflowRunView, i: int, j: int)
    requires
        workflow_in_order(run),
        next_output(run) is None,
        0 <= i < j < run.names.len(),
    ensures
        workflow_finished(run).len() == run.names.len(),
        workflow_finished(run)[i] is Failed ==> workflow_finished(run)[j] == (
        WriteStatusView::Skipped { output_name: run.names[j] }),
        workflow_finished(run)[j] is Failed ==> workflow_finished(run)[i] is Succeeded,
        workflow_finished(run)[j] is Skipped ==> run.failed,
{
}

/// A workflow without a failure has written every output.
pub proof fn workflow_without_failure_writes_everything(run: WorkflowRunView, i: int)
    requires
        workflow_in_order(run),
        next_output(run) is None,
        !run.failed,
        0 <= i < run.names.len(),
    ensures
        workflow_finished(run)[i] is Succeeded,
{
    assert(workflow_finished(run)[i] == run.statuses[i]);
}

/// Every output is counted once: as written, as failed or as not attempted.
pub proof fn every_output_is_counted_once(statuses: Seq<WriteStatusView>, n: nat)
    requires
        n <= statuses.len(),
    ensures
        count_statuses(statuses, succeeded(), n) + count_statuses(statuses, failed(), n)
            + count_statuses(statuses, skipped(), n) == n,
    decreases n,
{
    if n > 0 {
        every_output_is_counted_once(statuses, (n - 1) as nat);
    }
}

/// What comes next in a write with scoped caches.
#[derive(Debug, Clone, Copy, PartialEq, Eq, Structural)]
pub enum CachedWriteStep {
    /// The alias at a position is replaced by its cache.
    ReplaceAlias(usize),
    /// The outputs are written.
    WriteOutputs,
    /// The alias at a position gets its original table back.
    RestoreAlias(usize),
    /// The write is over.
    Finished,
}

/// What a write with scoped caches says.
pub struct CachedWriteView {
    pub alias_count: nat,
    pub active: nat,
    pub restoring: bool,
    pub written: Option<Result<Seq<WriteStatusView>, ErrorView>>,
    pub restore_failure: Option<ErrorView>,
}

/// Write with scoped caches: all aliases are replaced, the outputs are written, and whatever
/// happened each replaced alias is restored, the last replaced one first.
pub struct CachedWriteRun {
    alias_count: usize,
    active: usize,
    restoring: bool,
    written: Option<Result<MssqlWorkflowWriteReport, DeltaFunnelError>>,
    restore_failure: Option<DeltaFunnelError>,
}

/// The outcome of a workflow.
pub open spec fn written_view(
    written: Option<Result<MssqlWorkflowWriteReport, DeltaFunnelError>>,
) -> Option<Result<Seq<WriteStatusView>, ErrorView>> {
    match written {
        Some(Ok(report)) => Some(Ok(report@)),
        Some(Err(error)) => Some(Err(error@)),
        None => None,
    }
}

/// The failure of a step, if it failed.
pub open spec fn failure_of(outcome: Result<(), DeltaFunnelError>) -> Option<ErrorView> {
    match outcome {
        Ok(_) => None,
        Err(error) => Some(error@),
    }
}

impl View for CachedWriteRun {
    type V = CachedWriteView;

    closed spec fn view(&self) -> CachedWriteView {
        CachedWriteView {
            alias_count: self.alias_count as nat,
            active: self.active as nat,
            restoring: self.restoring,
            written: written_view(self.written),
            restore_failure: match self.restore_failure {
                Some(error) => Some(error@),
                None => None,
            },
        }
    }
}

/// A write before its first step.
pub open spec fn cached_write_started(alias_count: nat) -> CachedWriteView {
    CachedWriteView {
        alias_count,
        active: 0,
        restoring: false,
        written: None,
        restore_failure: None,
    }
}

/// What comes next.
pub open spec fn next_cached_step(run: CachedWriteView) -> CachedWriteStep {
    if !run.restoring {
        if run.active < run.alias_count {
            CachedWriteStep::ReplaceAlias(run.active as usize)
        } else {
            CachedWriteStep::WriteOutputs
        }
    } else if run.active > 0 {
        CachedWriteStep::RestoreAlias((run.active - 1) as usize)
    } else {
        CachedWriteStep::Finished
    }
}

/// The write after an alias was replaced, or could not be: a failure ends the replacing and
/// is the outcome of the write.
pub open spec fn after_replacing(run: CachedWriteView, failure: Option<ErrorView>) -> CachedWriteView {
    match failure {
        None => CachedWriteView { active: run.active + 1, ..run },
        Some(error) => CachedWriteView { restoring: true, written: Some(Err(error)), ..run },
    }
}

/// The write after the outputs were written, or could not be.
pub open spec fn after_writing(
    run: CachedWriteView,
    outcome: Result<Seq<WriteStatusView>, ErrorView>,
) -> CachedWriteView {
    CachedWriteView { restoring: true, written: Some(outcome), ..run }
}

/// The write after an alias was restored, or could not be: the first failure is kept, and the
/// other aliases are still restored.
pub open spec fn after_restoring(run: CachedWriteView, failure: Option<ErrorView>) -> CachedWriteView {
    CachedWriteView {
        active: (run.active - 1) as nat,
        restore_failure: match run.restore_failure {
            Some(first) => Some(first),
            None => failure,
        },
        ..run
    }
}

/// What a write with scoped caches comes to.
pub open spec fn cached_write_outcome(
    written: Result<Seq<WriteStatusView>, ErrorView>,
    restore_failure: Option<ErrorView>,
) -> Result<Seq<WriteStatusView>, ErrorView> {
    match (written, restore_failure) {
        (Ok(report), None) => Ok(report),
        (Ok(_), Some(restore)) => Err(restore),
        (Err(write), None) => Err(write),
        (Err(write), Some(restore)) => Err(cache_error_with_restore(write, restore)),
    }
}

/// A write that came about step by step.
pub open spec fn cached_write_in_order(run: CachedWriteView) -> bool {
    &&& run.active <= run.alias_count <= usize::MAX
    &&& run.restoring <==> run.written is Some
    &&& !run.restoring ==> run.restore_failure is None
}

/// Combines the outcome of a write with that of restoring the aliases.
pub fn combine_write_and_restore(
    written: Result<MssqlWorkflowWriteReport, DeltaFunnelError>,
    restore_failure: Option<DeltaFunnelError>,
) -> (r: Result<MssqlWorkflowWriteReport, DeltaFunnelError>)
    ensures
        written_view(Some(r)) == Some(
            cached_write_outcome(
                written_view(Some(written))->0,
                match restore_failure {
                    Some(error) => Some(error@),
                    None => None,
                },
            ),
        ),
{
    match written {
        Ok(report) => match restore_failure {
            None => Ok(report),
            Some(restore) => Err(restore),
        },
        Err(write) => match restore_failure {
            None => Err(write),
            Some(restore) => Err(cache_error_with_restore_error(write, restore)),
        },
    }
}

impl CachedWriteRun {
    /// Starts a write with some aliases to cache.
    pub fn new(alias_count: usize) -> (r: Self)
        ensures
            r@ == cached_write_started(alias_count as nat),
            cached_write_in_order(r@),
    {
        CachedWriteRun {
            alias_count,
            active: 0,
            restoring: false,
            written: None,
            restore_failure: None,
        }
    }

    /// Returns what comes next.
    pub fn next_step(&self) -> (r: CachedWriteStep)
        requires
            cached_write_in_order(self@),
        ensures
            r == next_cached_step(self@),
    {
        if !self.restoring {
            if self.active < self.alias_count {
                CachedWriteStep::ReplaceAlias(self.active)
            } else {
                CachedWriteStep::WriteOutputs
            }
        } else if self.active > 0 {
            CachedWriteStep::RestoreAlias(self.active - 1)
        } else {
            CachedWriteStep::Finished
        }
    }

    /// Takes the outcome of replacing the next alias.
    pub fn alias_replaced(&mut self, outcome: Result<(), DeltaFunnelError>)
        requires
            cached_write_in_order(old(self)@),
            next_cached_step(old(self)@) is ReplaceAlias,
        ensures
            final(self)@ == after_replacing(old(self)@, failure_of(outcome)),
            cached_write_in_order(final(self)@),
    {
        match outcome {
            Ok(_) => {
                self.active = self.active + 1;
            },
            Err(error) => {
                self.restoring = true;
                self.written = Some(Err(error));
            },
        }
    }

    /// Takes the outcome of writing the outputs.
    pub fn outputs_written(&mut self, outcome: Result<MssqlWorkflowWriteReport, DeltaFunnelError>)
        requires
            cached_write_in_order(old(self)@),
            next_cached_step(old(self)@) is WriteOutputs,
        ensures
            final(self)@ == after_writing(old(self)@, written_view(Some(outcome))->0),
            cached_write_in_order(final(self)@),
    {
        self.restoring = true;
        self.written = Some(outcome);
    }

    /// Takes the outcome of restoring the next alias.
    pub fn alias_restored(&mut self, outcome: Result<(), DeltaFunnelError>)
        requires
            cached_write_in_order(old(self)@),
            next_cached_step(old(self)@) is RestoreAlias,
        ensures
            final(self)@ == after_restoring(old(self)@, failure_of(outcome)),
            cached_write_in_order(final(self)@),
    {
        self.active = self.active - 1;
        match outcome {
            Ok(_) => {},
            Err(error) => {
                if self.restore_failure.is_none() {
                    self.restore_failure = Some(error);
                }
            },
        }
    }

    /// Ends the write.
    pub fn finish(self) -> (r: Result<MssqlWorkflowWriteReport, DeltaFunnelError>)
        requires
            cached_write_in_order(self@),
            next_cached_step(self@) is Finished,
        ensures
            written_view(Some(r)) == Some(
                cached_write_outcome(self@.written->0, self@.restore_failure),
            ),
    {
        combine_write_and_restore(self.written.unwrap(), self.restore_failure)
    }
}

/// Outputs are written only while every planned cache is active and no step has failed.
pub proof fn outputs_are_written_on_all_caches(run: CachedWriteView)
    requires
        cached_write_in_order(run),
        next_cached_step(run) is WriteOutputs,
    ensures
        run.active == run.alias_count,
        run.written is None,
        run.restore_failure is None,
{
}

/// A write ends with no cache active, and only after there is an outcome.
pub proof fn no_cache_outlives_the_write(run: CachedWriteView)
    requires
        cached_write_in_order(run),
        next_cached_step(run) is Finished,
    ensures
        run.active == 0,
        run.written is Some,
{
}

/// After a failed replacement nothing is written, and exactly the aliases replaced so far are
/// restored.
pub proof fn failed_replacement_writes_nothing(run: CachedWriteView, error: ErrorView)
    requires
        cached_write_in_order(run),
        next_cached_step(run) is ReplaceAlias,
    ensures
        ({
            let next = after_replacing(run, Some(error));
            &&& next.active == run.active
            &&& next.written == Some(Err::<Seq<WriteStatusView>, ErrorView>(error))
            &&& next_cached_step(next) == (if run.active > 0 {
                CachedWriteStep::RestoreAlias((run.active - 1) as usize)
            } else {
                CachedWriteStep::Finished
            })
        }),
{
}

/// Steps that are left at most.
pub open spec fn cached_steps_left(run: CachedWriteView) -> nat {
    if run.restoring {
        run.active
    } else {
        (2 * run.alias_count + 1 - run.active) as nat
    }
}

/// Every step brings the write nearer to its end, whatever its outcome.
pub proof fn cached_write_ends(
    run: CachedWriteView,
    failure: Option<ErrorView>,
    outcome: Result<Seq<WriteStatusView>, ErrorView>,
)
    requires
        cached_write_in_order(run),
    ensures
        match next_cached_step(run) {
            CachedWriteStep::ReplaceAlias(_) => cached_steps_left(after_replacing(run, failure))
                < cached_steps_left(run),
            CachedWriteStep::WriteOutputs => cached_steps_left(after_writing(run, outcome))
                < cached_steps_left(run),
            CachedWriteStep::RestoreAlias(_) => cached_steps_left(after_restoring(run, failure))
                < cached_steps_left(run),
            CachedWriteStep::Finished => cached_steps_left(run) == 0,
        },
{
}

} // verus!
