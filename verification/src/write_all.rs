//! `write_all`: its options, the plan of one call and the report of it.

use vstd::prelude::*;

use crate::cache_plan::{
    AliasPlanView, CachePlanView, DecisionView, MssqlCacheCandidateSkip,
    MssqlCacheCandidateSkipReason, MssqlDerivedCacheAliasPlan, MssqlNoCacheReason,
    MssqlOutputCacheDecision, MssqlOutputCachePlan, SkipView, output_cache_plan,
};
use crate::errors::DeltaFunnelError;
use crate::execution::DeltaProviderReadStatsSnapshot;
use crate::handles::{OutputWritePlan, OutputWritePlanView, PlannedMssqlOutput};
use crate::output_plan::{is_planned_output, write_all_planning_problem};
use crate::report::{views, views_push};
use crate::routes::known_tables;
use crate::session::{DeltaFunnelSession, SessionView};
use crate::source_usage::{DeltaSourceReport, SourceReportView, source_reports};
use crate::workflow::{
    MssqlOutputWriteStatus, MssqlWorkflowWriteReport, WriteStatusView, count_statuses, failed,
    skipped, succeeded,
};

verus! {

/// Cache policy for one multi-output `write_all` call.
#[derive(Debug, Clone, Copy, PartialEq, Eq, Structural)]
pub enum WriteAllCacheMode {
    /// Select and materialize conservative shared derived aliases when safe.
    Auto,
    /// Use the baseline sequential workflow without cache planning or materialization.
    Disabled,
}

impl Default for WriteAllCacheMode {
    fn default() -> (r: Self)
        ensures
            r == WriteAllCacheMode::Auto,
    {
        WriteAllCacheMode::Auto
    }
}

/// Execution options for one multi-output `write_all` call.
#[derive(Debug, Clone, Copy, PartialEq, Eq, Structural)]
pub struct WriteAllOptions {
    cache_mode: WriteAllCacheMode,
}

impl Default for WriteAllOptions {
    fn default() -> (r: Self)
        ensures
            r.mode() == WriteAllCacheMode::Auto,
    {
        WriteAllOptions::new()
    }
}

impl WriteAllOptions {
    /// The cache policy.
    pub closed spec fn mode(self) -> WriteAllCacheMode {
        self.cache_mode
    }

    /// Creates default `write_all` options.
    pub fn new() -> (r: Self)
        ensures
            r.mode() == WriteAllCacheMode::Auto,
    {
        WriteAllOptions { cache_mode: WriteAllCacheMode::Auto }
    }

    /// Sets the cache policy for this `write_all` call.
    pub fn with_cache_mode(self, cache_mode: WriteAllCacheMode) -> (r: Self)
        ensures
            r.mode() == cache_mode,
    {
        WriteAllOptions { cache_mode }
    }

    /// Returns the cache policy for this `write_all` call.
    pub fn cache_mode(&self) -> (r: WriteAllCacheMode)
        ensures
            r == self.mode(),
    {
        self.cache_mode
    }
}

/// Reported reason that nothing was cached.
#[derive(Debug, Clone, Copy, PartialEq, Eq, Structural)]
pub enum WriteAllNoCacheReason {
    /// There were fewer than two outputs.
    FewerThanTwoOutputs,
    /// No registered derived alias is shared by at least two outputs.
    NoSharedRegisteredDerivedAlias,
    /// The shared aliases could not be ordered.
    AmbiguousSharedDerivedAlias,
}

/// The reported form of a reason.
pub open spec fn reported_reason(reason: MssqlNoCacheReason) -> WriteAllNoCacheReason {
    match reason {
        MssqlNoCacheReason::FewerThanTwoOutputs => WriteAllNoCacheReason::FewerThanTwoOutputs,
        MssqlNoCacheReason::NoSharedRegisteredDerivedAlias => {
            WriteAllNoCacheReason::NoSharedRegisteredDerivedAlias
        },
        MssqlNoCacheReason::AmbiguousSharedDerivedAlias => {
            WriteAllNoCacheReason::AmbiguousSharedDerivedAlias
        },
    }
}

/// Reported status of a cached alias.
#[derive(Debug, Clone, Copy, PartialEq, Eq, Structural)]
pub enum WriteAllCacheAliasStatus {
    /// The cache was filled, used and taken away again.
    MaterializedAndRestored,
}

/// What the report of a cached alias says.
pub struct AliasReportView {
    pub alias: AliasPlanView,
    pub status: WriteAllCacheAliasStatus,
}

/// Report of one cached alias.
#[derive(PartialEq, Eq)]
pub struct WriteAllCacheAliasReport {
    alias: MssqlDerivedCacheAliasPlan,
    status: WriteAllCacheAliasStatus,
}

impl View for WriteAllCacheAliasReport {
    type V = AliasReportView;

    closed spec fn view(&self) -> AliasReportView {
        AliasReportView { alias: self.alias@, status: self.status }
    }
}

impl WriteAllCacheAliasReport {
    /// Returns the table id of the alias.
    pub fn table_id(&self) -> (r: u64)
        ensures
            r == self@.alias.table_id,
    {
        self.alias.table_id()
    }

    /// Returns the alias.
    pub fn alias(&self) -> (r: &str)
        ensures
            r@ == self@.alias.alias,
    {
        self.alias.alias()
    }

    /// Returns the positions of the outputs that the alias was cached for.
    pub fn output_indexes(&self) -> (r: &Vec<usize>)
        ensures
            r@ == self@.alias.output_indexes,
    {
        self.alias.output_indexes()
    }

    /// Returns what became of the cache.
    pub fn status(&self) -> (r: WriteAllCacheAliasStatus)
        ensures
            r == self@.status,
    {
        self.status
    }
}

/// Reported reason that a candidate was not cached.
#[derive(Debug, Clone, Copy, PartialEq, Eq, Structural)]
pub enum WriteAllCacheCandidateSkipReason {
    /// Fewer than two outputs use the candidate.
    NotShared { output_count: usize },
    /// The SQL text of the candidate was not retained.
    MissingSqlText,
    /// The lineage of the candidate is incomplete.
    IncompleteLineage,
    /// A deeper shared alias is cached instead.
    CoveredByDeeperSharedAlias { selected_table_id: u64 },
    /// The candidate could not be ordered among the others.
    AmbiguousDepth,
}

/// The reported form of a reason for skipping.
pub open spec fn reported_skip_reason(reason: MssqlCacheCandidateSkipReason) -> WriteAllCacheCandidateSkipReason {
    match reason {
        MssqlCacheCandidateSkipReason::NotShared { output_count } => {
            WriteAllCacheCandidateSkipReason::NotShared { output_count }
        },
        MssqlCacheCandidateSkipReason::MissingSqlText => {
            WriteAllCacheCandidateSkipReason::MissingSqlText
        },
        MssqlCacheCandidateSkipReason::IncompleteLineage => {
            WriteAllCacheCandidateSkipReason::IncompleteLineage
        },
        MssqlCacheCandidateSkipReason::CoveredByDeeperSharedAlias { selected_table_id } => {
            WriteAllCacheCandidateSkipReason::CoveredByDeeperSharedAlias { selected_table_id }
        },
        MssqlCacheCandidateSkipReason::AmbiguousDepth => {
            WriteAllCacheCandidateSkipReason::AmbiguousDepth
        },
    }
}

/// What the report of a skipped candidate says.
pub struct SkipReportView {
    pub table_id: u64,
    pub alias: Seq<char>,
    pub reason: WriteAllCacheCandidateSkipReason,
}

/// Report of a candidate that was not cached.
#[derive(Debug, PartialEq, Eq)]
pub struct WriteAllCacheCandidateSkip {
    table_id: u64,
    alias: String,
    reason: WriteAllCacheCandidateSkipReason,
}

impl View for WriteAllCacheCandidateSkip {
    type V = SkipReportView;

    closed spec fn view(&self) -> SkipReportView {
        SkipReportView { table_id: self.table_id, alias: self.alias@, reason: self.reason }
    }
}

/// The report of a skipped candidate.
pub open spec fn reported_skip(skip: SkipView) -> SkipReportView {
    SkipReportView {
        table_id: skip.table_id,
        alias: skip.alias,
        reason: reported_skip_reason(skip.reason),
    }
}

impl WriteAllCacheCandidateSkip {
    /// Reports a skipped candidate.
    pub fn from_skip(skip: &MssqlCacheCandidateSkip) -> (r: Self)
        ensures
            r@ == reported_skip(skip@),
    {
        let reason = match *skip.reason() {
            MssqlCacheCandidateSkipReason::NotShared { output_count } => {
                WriteAllCacheCandidateSkipReason::NotShared { output_count }
            },
            MssqlCacheCandidateSkipReason::MissingSqlText => {
                WriteAllCacheCandidateSkipReason::MissingSqlText
            },
            MssqlCacheCandidateSkipReason::IncompleteLineage => {
                WriteAllCacheCandidateSkipReason::IncompleteLineage
            },
            MssqlCacheCandidateSkipReason::CoveredByDeeperSharedAlias { selected_table_id } => {
                WriteAllCacheCandidateSkipReason::CoveredByDeeperSharedAlias { selected_table_id }
            },
            MssqlCacheCandidateSkipReason::AmbiguousDepth => {
                WriteAllCacheCandidateSkipReason::AmbiguousDepth
            },
        };
        WriteAllCacheCandidateSkip {
            table_id: skip.table_id(),
            alias: skip.alias().to_owned(),
            reason,
        }
    }

    /// Returns the table id of the candidate.
    pub fn table_id(&self) -> (r: u64)
        ensures
            r == self@.table_id,
    {
        self.table_id
    }

    /// Returns the alias of the candidate.
    pub fn alias(&self) -> (r: &str)
        ensures
            r@ == self@.alias,
    {
        self.alias.as_str()
    }

    /// Returns why the candidate was skipped.
    pub fn reason(&self) -> (r: WriteAllCacheCandidateSkipReason)
        ensures
            r == self@.reason,
    {
        self.reason
    }
}

/// What the cache report of a call says.
#[allow(inconsistent_fields)]
pub enum CacheReportView {
    Disabled,
    NoCache { reason: WriteAllNoCacheReason, skipped_candidates: Seq<SkipReportView> },
    CacheAliases { aliases: Seq<AliasReportView>, skipped_candidates: Seq<SkipReportView> },
}

/// Cache report of one `write_all` call.
#[allow(inconsistent_fields)]
#[derive(PartialEq, Eq)]
pub enum WriteAllCacheReport {
    /// Cache planning was switched off.
    Disabled,
    /// Nothing was cached.
    NoCache { reason: WriteAllNoCacheReason, skipped_candidates: Vec<WriteAllCacheCandidateSkip> },
    /// Some aliases were cached.
    CacheAliases {
        aliases: Vec<WriteAllCacheAliasReport>,
        skipped_candidates: Vec<WriteAllCacheCandidateSkip>,
    },
}

impl View for WriteAllCacheReport {
    type V = CacheReportView;

    open spec fn view(&self) -> CacheReportView {
        match *self {
            WriteAllCacheReport::Disabled => CacheReportView::Disabled,
            WriteAllCacheReport::NoCache { reason, skipped_candidates } => CacheReportView::NoCache {
                reason,
                skipped_candidates: views(skipped_candidates@),
            },
            WriteAllCacheReport::CacheAliases { aliases, skipped_candidates } => {
                CacheReportView::CacheAliases {
                    aliases: views(aliases@),
                    skipped_candidates: views(skipped_candidates@),
                }
            },
        }
    }
}

/// The reports of skipped candidates.
pub open spec fn reported_skips(skips: Seq<SkipView>) -> Seq<SkipReportView> {
    Seq::new(skips.len(), |i: int| reported_skip(skips[i]))
}

/// The reports of aliases that were cached and restored.
pub open spec fn reported_aliases(aliases: Seq<AliasPlanView>) -> Seq<AliasReportView> {
    Seq::new(
        aliases.len(),
        |i: int|
            AliasReportView {
                alias: aliases[i],
                status: WriteAllCacheAliasStatus::MaterializedAndRestored,
            },
    )
}

/// The cache report of a call that carried out a cache plan.
pub open spec fn executed_plan_report(plan: CachePlanView) -> CacheReportView {
    match plan.decision {
        DecisionView::NoCache { reason } => CacheReportView::NoCache {
            reason: reported_reason(reason),
            skipped_candidates: reported_skips(plan.skipped_candidates),
        },
        DecisionView::CacheAliases(aliases) => CacheReportView::CacheAliases {
            aliases: reported_aliases(aliases),
            skipped_candidates: reported_skips(plan.skipped_candidates),
        },
    }
}

fn report_skips(skips: &Vec<MssqlCacheCandidateSkip>) -> (r: Vec<WriteAllCacheCandidateSkip>)
    ensures
        views(r@) == reported_skips(views(skips@)),
{
    let ghost wanted = reported_skips(views(skips@));
    let mut r: Vec<WriteAllCacheCandidateSkip> = Vec::new();
    let mut i: usize = 0;
    assert(views(r@) =~= wanted.take(0));
    while i < skips.len()
        invariant
            i <= skips.len(),
            wanted == reported_skips(views(skips@)),
            views(r@) == wanted.take(i as int),
        decreases skips.len() - i,
    {
        let skip = WriteAllCacheCandidateSkip::from_skip(&skips[i]);
        proof {
            views_push(r@, skip);
            assert(wanted.take(i + 1) =~= wanted.take(i as int).push(skip@));
        }
        r.push(skip);
        i += 1;
    }
    assert(wanted.take(skips.len() as int) =~= wanted);
    r
}

fn report_aliases(aliases: &Vec<MssqlDerivedCacheAliasPlan>) -> (r: Vec<WriteAllCacheAliasReport>)
    ensures
        views(r@) == reported_aliases(views(aliases@)),
{
    let ghost wanted = reported_aliases(views(aliases@));
    let mut r: Vec<WriteAllCacheAliasReport> = Vec::new();
    let mut i: usize = 0;
    assert(views(r@) =~= wanted.take(0));
    while i < aliases.len()
        invariant
            i <= aliases.len(),
            wanted == reported_aliases(views(aliases@)),
            views(r@) == wanted.take(i as int),
        decreases aliases.len() - i,
    {
        let report = WriteAllCacheAliasReport {
            alias: aliases[i].clone(),
            status: WriteAllCacheAliasStatus::MaterializedAndRestored,
        };
        proof {
            views_push(r@, report);
            assert(wanted.take(i + 1) =~= wanted.take(i as int).push(report@));
        }
        r.push(report);
        i += 1;
    }
    assert(wanted.take(aliases.len() as int) =~= wanted);
    r
}

impl WriteAllCacheReport {
    /// Report of a call with cache planning switched off.
    pub fn disabled() -> (r: Self)
        ensures
            r@ == CacheReportView::Disabled,
    {
        WriteAllCacheReport::Disabled
    }

    /// Report of a call that carried out a cache plan.
    pub fn from_executed_plan(plan: &MssqlOutputCachePlan) -> (r: Self)
        ensures
            r@ == executed_plan_report(plan@),
    {
        let skipped_candidates = report_skips(plan.skipped_candidates());
        match plan.decision() {
            MssqlOutputCacheDecision::NoCache { reason } => {
                let reason = match reason {
                    MssqlNoCacheReason::FewerThanTwoOutputs => {
                        WriteAllNoCacheReason::FewerThanTwoOutputs
                    },
                    MssqlNoCacheReason::NoSharedRegisteredDerivedAlias => {
                        WriteAllNoCacheReason::NoSharedRegisteredDerivedAlias
                    },
                    MssqlNoCacheReason::AmbiguousSharedDerivedAlias => {
                        WriteAllNoCacheReason::AmbiguousSharedDerivedAlias
                    },
                };
                WriteAllCacheReport::NoCache { reason, skipped_candidates }
            },
            MssqlOutputCacheDecision::CacheAliases(aliases) => WriteAllCacheReport::CacheAliases {
                aliases: report_aliases(aliases),
                skipped_candidates,
            },
        }
    }
}

/// What the plan of a call says, the planned outputs apart.
pub open spec fn write_all_cache_plan(
    session: SessionView,
    requests: Seq<OutputWritePlanView>,
    mode: WriteAllCacheMode,
) -> Option<CachePlanView> {
    match mode {
        WriteAllCacheMode::Auto => Some(output_cache_plan(known_tables(session), requests)),
        WriteAllCacheMode::Disabled => None,
    }
}

/// Plan of one `write_all` call.
pub struct WriteAllPlan {
    planned: Vec<PlannedMssqlOutput>,
    cache: Option<MssqlOutputCachePlan>,
}

/// The aliases that are cached while a plan is carried out.
pub open spec fn planned_aliases(cache: Option<CachePlanView>) -> Seq<AliasPlanView> {
    match cache {
        Some(plan) => match plan.decision {
            DecisionView::CacheAliases(aliases) => aliases,
            DecisionView::NoCache { .. } => seq![],
        },
        None => seq![],
    }
}

impl WriteAllPlan {
    /// The planned outputs, in order.
    pub closed spec fn outputs(self) -> Seq<PlannedMssqlOutput> {
        self.planned@
    }

    /// The cache plan, where one was made.
    pub closed spec fn cache_plan(self) -> Option<CachePlanView> {
        match self.cache {
            Some(plan) => Some(plan@),
            None => None,
        }
    }

    /// Returns the planned outputs, in order.
    pub fn planned_outputs(&self) -> (r: &Vec<PlannedMssqlOutput>)
        ensures
            r@ == self.outputs(),
    {
        &self.planned
    }

    /// Returns the aliases that are cached while the plan is carried out.
    pub fn cache_aliases(&self) -> (r: Vec<MssqlDerivedCacheAliasPlan>)
        ensures
            views(r@) == planned_aliases(self.cache_plan()),
    {
        let mut r: Vec<MssqlDerivedCacheAliasPlan> = Vec::new();
        match &self.cache {
            Some(plan) => match plan.decision() {
                MssqlOutputCacheDecision::CacheAliases(aliases) => {
                    let ghost wanted = views(aliases@);
                    let mut i: usize = 0;
                    assert(views(r@) =~= wanted.take(0));
                    while i < aliases.len()
                        invariant
                            i <= aliases.len(),
                            wanted == views(aliases@),
                            views(r@) == wanted.take(i as int),
                        decreases aliases.len() - i,
                    {
                        let alias = aliases[i].clone();
                        proof {
                            views_push(r@, alias);
                            assert(wanted.take(i + 1) =~= wanted.take(i as int).push(alias@));
                        }
                        r.push(alias);
                        i += 1;
                    }
                    assert(wanted.take(aliases.len() as int) =~= wanted);
                },
                MssqlOutputCacheDecision::NoCache { .. } => {
                    assert(views(r@) =~= seq![]);
                },
            },
            None => {
                assert(views(r@) =~= seq![]);
            },
        }
        r
    }
}

/// What the report of a call says.
pub struct WriteAllReportView {
    pub workflow: Seq<WriteStatusView>,
    pub cache: CacheReportView,
    pub sources: Seq<SourceReportView>,
}

/// Report of one `write_all` call.
pub struct WriteAllReport {
    workflow: MssqlWorkflowWriteReport,
    cache: WriteAllCacheReport,
    sources: Vec<DeltaSourceReport>,
}

impl View for WriteAllReport {
    type V = WriteAllReportView;

    closed spec fn view(&self) -> WriteAllReportView {
        WriteAllReportView {
            workflow: self.workflow@,
            cache: self.cache@,
            sources: views(self.sources@),
        }
    }
}

impl WriteAllReport {
    /// Returns the report of the workflow.
    pub fn workflow(&self) -> (r: &MssqlWorkflowWriteReport)
        ensures
            r@ == self@.workflow,
    {
        &self.workflow
    }

    /// Returns the cache report.
    pub fn cache(&self) -> (r: &WriteAllCacheReport)
        ensures
            r@ == self@.cache,
    {
        &self.cache
    }

    /// Returns the reports of the registered sources.
    pub fn sources(&self) -> (r: &Vec<DeltaSourceReport>)
        ensures
            views(r@) == self@.sources,
    {
        &self.sources
    }

    /// Returns the status of each output, in order.
    pub fn outputs(&self) -> (r: &Vec<MssqlOutputWriteStatus>)
        ensures
            views(r@) == self@.workflow,
    {
        self.workflow.outputs()
    }

    /// Returns the number of outputs.
    pub fn len(&self) -> (r: usize)
        ensures
            r == self@.workflow.len(),
    {
        self.workflow.len()
    }

    /// Counts the outputs that were written.
    pub fn succeeded_count(&self) -> (r: usize)
        ensures
            r == count_statuses(self@.workflow, succeeded(), self@.workflow.len()),
    {
        self.workflow.succeeded_count()
    }

    /// Counts the outputs that failed.
    pub fn failed_count(&self) -> (r: usize)
        ensures
            r == count_statuses(self@.workflow, failed(), self@.workflow.len()),
    {
        self.workflow.failed_count()
    }

    /// Counts the outputs that were not attempted.
    pub fn skipped_count(&self) -> (r: usize)
        ensures
            r == count_statuses(self@.workflow, skipped(), self@.workflow.len()),
    {
        self.workflow.skipped_count()
    }

    /// Tells whether every output was written.
    pub fn all_succeeded(&self) -> (r: bool)
        ensures
            r == (forall|i: int|
                0 <= i < self@.workflow.len() ==> (#[trigger] self@.workflow[i]) is Succeeded),
    {
        self.workflow.all_succeeded()
    }
}

impl DeltaFunnelSession {
    /// Checks and plans a `write_all` call. The outputs are planned first; caches are planned
    /// unless they are switched off.
    pub fn plan_write_all(&self, requests: &Vec<OutputWritePlan>, options: WriteAllOptions) -> (r:
        Result<WriteAllPlan, DeltaFunnelError>)
        ensures
            match write_all_planning_problem(self@, views(requests@)) {
                Some(problem) => r matches Err(e) && e@ == problem,
                None => r matches Ok(plan) && plan.outputs().len() == requests@.len() && (forall|
                    i: int,
                |
                    0 <= i < requests@.len() ==> is_planned_output(
                        self@,
                        requests@[i]@,
                        (#[trigger] plan.outputs()[i])@,
                    )) && plan.cache_plan() == write_all_cache_plan(
                    self@,
                    views(requests@),
                    options.mode(),
                ),
            },
    {
        let planned = match self.plan_write_all_outputs(requests) {
            Ok(planned) => planned,
            Err(e) => {
                return Err(e);
            },
        };
        let cache = match options.cache_mode() {
            WriteAllCacheMode::Auto => Some(self.plan_mssql_output_cache(requests)),
            WriteAllCacheMode::Disabled => None,
        };
        Ok(WriteAllPlan { planned, cache })
    }

    /// Reports a `write_all` call whose workflow has run, with the counters that its scans left
    /// behind.
    pub fn report_write_all(
        &self,
        requests: &Vec<OutputWritePlan>,
        plan: &WriteAllPlan,
        workflow: MssqlWorkflowWriteReport,
        stats: &Vec<DeltaProviderReadStatsSnapshot>,
    ) -> (r: WriteAllReport)
        ensures
            r@ == (WriteAllReportView {
                workflow: workflow@,
                cache: match plan.cache_plan() {
                    Some(cache) => executed_plan_report(cache),
                    None => CacheReportView::Disabled,
                },
                sources: source_reports(self@, views(requests@), views(stats@)),
            }),
    {
        let cache = match &plan.cache {
            Some(cache) => WriteAllCacheReport::from_executed_plan(cache),
            None => WriteAllCacheReport::disabled(),
        };
        let sources = self.source_reports_for_outputs_with_provider_stats(requests, stats);
        WriteAllReport { workflow, cache, sources }
    }
}

/// With caches switched off nothing is cached and the report says so, whatever the session
/// and the requests are.
pub proof fn disabled_mode_caches_nothing(
    session: SessionView,
    requests: Seq<OutputWritePlanView>,
)
    ensures
        planned_aliases(
            write_all_cache_plan(session, requests, WriteAllCacheMode::Disabled),
        ).len() == 0,
        write_all_cache_plan(session, requests, WriteAllCacheMode::Disabled) is None,
{
}

/// The cache report tells of every planned alias and of every skipped candidate, in order.
pub proof fn cache_report_is_complete(plan: CachePlanView)
    ensures
        match executed_plan_report(plan) {
            CacheReportView::NoCache { skipped_candidates, .. } => plan.decision is NoCache
                && skipped_candidates.len() == plan.skipped_candidates.len(),
            CacheReportView::CacheAliases { aliases, skipped_candidates } => aliases.len()
                == planned_aliases(Some(plan)).len() && skipped_candidates.len()
                == plan.skipped_candidates.len() && (forall|i: int|
                0 <= i < aliases.len() ==> (#[trigger] aliases[i]).alias == planned_aliases(
                    Some(plan),
                )[i]),
            CacheReportView::Disabled => false,
        },
{
}

} // verus!
