//! Planning MSSQL outputs: one request, or several for `write_all`.

use std::sync::Arc;

use datafusion::arrow::datatypes::Schema;
use vstd::prelude::*;

use crate::cache_plan::{AliasPlanView, MssqlDerivedCacheAliasPlan};
use crate::clock::PhaseTimer;
use crate::engine::schema_fields;
use crate::errors::{
    DeltaFunnelError, ErrorView, named_message, unknown_lazy_table, workflow_planning_error,
};
use crate::handles::{
    LazyTable, LazyTableView, OutputWritePlan, OutputWritePlanView, PlannedMssqlOutput,
    PlannedOutputView,
    RunMode,
};
use crate::options::{MssqlSchemaPlanOptions, MssqlWriteBackend, reports};
use crate::report::{PhaseStatus, PhaseTimingReport, PhaseTimingView, views};
use crate::routes::{MssqlCachedOutputStreamRoute, RouteView, cached_route};
use crate::session::{DeltaFunnelSession, SessionView, known_schema};
use crate::target::{ResolvedMssqlTarget, ResolvedTargetView, resolved_target};
use crate::target_plan::{
    TargetOutputPlanView, plan_mssql_target_for_resolved_output, target_output_plan,
};
use crate::text::{display_text, texts_equal};

verus! {

/// Name of the phase in which an output is planned.
pub const SQL_TARGET_PLANNING_PHASE: &'static str = "sql_target_planning";

/// What planning one output comes to, timings apart: the resolved target and its plan. The
/// table must be known, a connection must be there, the columns must not be refused by the
/// mapping to SQL Server, and the load mode must be supported.
pub open spec fn output_planning(session: SessionView, request: OutputWritePlanView) -> Result<
    (ResolvedTargetView, TargetOutputPlanView),
    ErrorView,
> {
    match known_schema(session, request.table) {
        None => Err(unknown_lazy_table(request.table.name)),
        Some(schema) => match resolved_target(
            request.target.target,
            request.target.output_name,
            session.options.default_mssql_connection,
        ) {
            None => Err(
                ErrorView::MissingMssqlConnection { output_name: request.target.output_name },
            ),
            Some(target) => match target_output_plan(
                schema_fields(schema),
                request.schema_refusal,
                target,
                session.options.mssql_schema_options,
            ) {
                Err(problem) => Err(problem),
                Ok(plan) => Ok((target, plan)),
            },
        },
    }
}

/// The timings of a planned output: planning completed, whatever time it took.
pub open spec fn planning_timings(timings: Seq<PhaseTimingView>) -> bool {
    &&& timings.len() == 1
    &&& timings[0].phase_name == SQL_TARGET_PLANNING_PHASE@
    &&& timings[0].status == PhaseStatus::Completed
    &&& timings[0].elapsed_micros is Some
}

/// A planned output is the one for its request.
pub open spec fn is_planned_output(
    session: SessionView,
    request: OutputWritePlanView,
    planned: PlannedOutputView,
) -> bool {
    &&& planned.request == request
    &&& output_planning(session, request) == Ok::<
        (ResolvedTargetView, TargetOutputPlanView),
        ErrorView,
    >((planned.resolved_target, planned.output_plan))
    &&& planning_timings(planned.phase_timings)
}

/// What is wrong with planning an output.
pub open spec fn planning_problem(session: SessionView, request: OutputWritePlanView) -> Option<
    ErrorView,
> {
    match output_planning(session, request) {
        Ok(_) => None,
        Err(problem) => Some(problem),
    }
}

/// The error for a request in the wrong mode.
pub open spec fn wrong_mode(run_mode: RunMode, wanted: RunMode, message: Seq<char>) -> Option<
    ErrorView,
> {
    if run_mode == wanted {
        None
    } else {
        Some(ErrorView::MssqlWorkflowPlanning { message })
    }
}

/// What one write says about a request in the wrong mode.
pub open spec fn write_mode_problem(run_mode: RunMode) -> Option<ErrorView> {
    wrong_mode(
        run_mode,
        RunMode::Execute,
        "write_to_mssql requires RunMode::Execute; use dry_run_to_mssql for dry-run planning"@,
    )
}

/// What a write of several outputs says about a request in the wrong mode.
pub open spec fn write_all_mode_problem(run_mode: RunMode) -> Option<ErrorView> {
    wrong_mode(
        run_mode,
        RunMode::Execute,
        "write_all requires RunMode::Execute; use dry_run_all_to_mssql for dry-run planning"@,
    )
}

/// Rejects a dry-run request for one write.
pub fn ensure_execute_run_mode(run_mode: RunMode) -> (r: Result<(), DeltaFunnelError>)
    ensures
        reports(r, write_mode_problem(run_mode)),
{
    match run_mode {
        RunMode::Execute => Ok(()),
        RunMode::DryRun => Err(
            workflow_planning_error(
                "write_to_mssql requires RunMode::Execute; use dry_run_to_mssql for dry-run planning",
            ),
        ),
    }
}

/// Rejects a dry-run request for a write of several outputs.
pub fn ensure_write_all_execute_run_mode(run_mode: RunMode) -> (r: Result<(), DeltaFunnelError>)
    ensures
        reports(r, write_all_mode_problem(run_mode)),
{
    match run_mode {
        RunMode::Execute => Ok(()),
        RunMode::DryRun => Err(
            workflow_planning_error(
                "write_all requires RunMode::Execute; use dry_run_all_to_mssql for dry-run planning",
            ),
        ),
    }
}

/// The request at a position has the output name of an earlier one.
pub open spec fn repeats_a_name(requests: Seq<OutputWritePlanView>, i: int) -> bool {
    exists|j: int|
        0 <= j < i && (#[trigger] requests[j]).target.output_name == requests[i].target.output_name
}

/// The first position, among the first `n`, at which an output name comes again.
pub open spec fn first_repeat(requests: Seq<OutputWritePlanView>, n: nat) -> Option<int>
    decreases n,
{
    if n == 0 {
        None
    } else {
        match first_repeat(requests, (n - 1) as nat) {
            Some(i) => Some(i),
            None => if repeats_a_name(requests, n - 1) {
                Some(n - 1)
            } else {
                None
            },
        }
    }
}

/// The error for output names that are not unique: it names the first that comes again.
pub open spec fn duplicate_name_problem(requests: Seq<OutputWritePlanView>) -> Option<ErrorView> {
    match first_repeat(requests, requests.len()) {
        Some(i) => Some(
            ErrorView::MssqlWorkflowPlanning {
                message: "write_all output names must be unique; duplicate output name `"@
                    + display_text(requests[i].target.output_name) + "`"@,
            },
        ),
        None => None,
    }
}

/// Rejects requests whose output names are not unique.
pub fn ensure_unique_write_all_output_names(requests: &Vec<OutputWritePlan>) -> (r: Result<
    (),
    DeltaFunnelError,
>)
    ensures
        reports(r, duplicate_name_problem(views(requests@))),
{
    let ghost all = views(requests@);
    let mut i: usize = 0;
    while i < requests.len()
        invariant
            i <= requests.len(),
            all == views(requests@),
            first_repeat(all, i as nat) is None,
        decreases requests.len() - i,
    {
        assert(all[i as int] == requests@[i as int]@);
        let name = requests[i].target().output_name();
        let mut j: usize = 0;
        while j < i
            invariant
                j <= i < requests.len(),
                all == views(requests@),
                name@ == all[i as int].target.output_name,
                first_repeat(all, i as nat) is None,
                forall|k: int| 0 <= k < j ==> (#[trigger] all[k]).target.output_name != name@,
            decreases i - j,
        {
            assert(all[j as int] == requests@[j as int]@);
            if texts_equal(requests[j].target().output_name(), name) {
                proof {
                    assert(repeats_a_name(all, i as int));
                    assert(first_repeat(all, (i + 1) as nat) == Some(i as int));
                    first_repeat_stays(all, (i + 1) as nat, all.len());
                }
                return Err(
                    DeltaFunnelError::MssqlWorkflowPlanning {
                        message: named_message(
                            "write_all output names must be unique; duplicate output name `",
                            name,
                            "`",
                        ),
                    },
                );
            }
            j += 1;
        }
        i += 1;
    }
    Ok(())
}

proof fn first_repeat_stays(requests: Seq<OutputWritePlanView>, n: nat, m: nat)
    requires
        first_repeat(requests, n) is Some,
        n <= m,
    ensures
        first_repeat(requests, m) == first_repeat(requests, n),
    decreases m,
{
    if n < m {
        first_repeat_stays(requests, n, (m - 1) as nat);
    }
}

proof fn first_repeat_facts(requests: Seq<OutputWritePlanView>, n: nat)
    ensures
        match first_repeat(requests, n) {
            Some(i) => 0 <= i < n && repeats_a_name(requests, i) && (forall|k: int|
                0 <= k < i ==> !#[trigger] repeats_a_name(requests, k)),
            None => forall|k: int| 0 <= k < n ==> !#[trigger] repeats_a_name(requests, k),
        },
    decreases n,
{
    if n > 0 {
        first_repeat_facts(requests, (n - 1) as nat);
    }
}

/// Names are accepted exactly when no two requests share one.
pub proof fn names_are_accepted_iff_distinct(requests: Seq<OutputWritePlanView>)
    ensures
        duplicate_name_problem(requests) is None <==> (forall|i: int, j: int|
            0 <= i < j < requests.len() ==> (#[trigger] requests[i]).target.output_name != (
            #[trigger] requests[j]).target.output_name),
{
    first_repeat_facts(requests, requests.len());
    if duplicate_name_problem(requests) is None {
        assert forall|i: int, j: int| 0 <= i < j < requests.len() implies (
        #[trigger] requests[i]).target.output_name != (#[trigger] requests[j]).target.output_name by {
            assert(!repeats_a_name(requests, j));
        }
    } else {
        let i = first_repeat(requests, requests.len())->0;
        assert(repeats_a_name(requests, i));
        let j = choose|j: int|
            0 <= j < i && (#[trigger] requests[j]).target.output_name
                == requests[i].target.output_name;
        assert(requests[j].target.output_name == requests[i].target.output_name);
    }
}

/// What `write_all` says about one request: its mode is looked at before it is planned.
pub open spec fn write_all_problem(session: SessionView, request: OutputWritePlanView) -> Option<
    ErrorView,
> {
    match write_all_mode_problem(request.target.run_mode) {
        Some(problem) => Some(problem),
        None => planning_problem(session, request),
    }
}

/// What `write_all` says about the first of the first `n` requests that it rejects.
pub open spec fn first_write_all_problem(
    session: SessionView,
    requests: Seq<OutputWritePlanView>,
    n: nat,
) -> Option<ErrorView>
    decreases n,
{
    if n == 0 {
        None
    } else {
        match first_write_all_problem(session, requests, (n - 1) as nat) {
            Some(problem) => Some(problem),
            None => write_all_problem(session, requests[n - 1]),
        }
    }
}

proof fn first_write_all_problem_stays(
    session: SessionView,
    requests: Seq<OutputWritePlanView>,
    n: nat,
    m: nat,
)
    requires
        first_write_all_problem(session, requests, n) is Some,
        n <= m,
    ensures
        first_write_all_problem(session, requests, m) == first_write_all_problem(
            session,
            requests,
            n,
        ),
    decreases m,
{
    if n < m {
        first_write_all_problem_stays(session, requests, n, (m - 1) as nat);
    }
}

/// Why `write_all` rejects some requests: names that are not unique are looked at first.
pub open spec fn write_all_planning_problem(
    session: SessionView,
    requests: Seq<OutputWritePlanView>,
) -> Option<ErrorView> {
    match duplicate_name_problem(requests) {
        Some(problem) => Some(problem),
        None => first_write_all_problem(session, requests, requests.len()),
    }
}

/// What a job says.
pub struct WriteJobView {
    pub output_schema: Schema,
    pub table: LazyTableView,
    pub resolved_target: ResolvedTargetView,
    pub schema_options: MssqlSchemaPlanOptions,
    pub write_backend: MssqlWriteBackend,
    pub route: RouteView,
}

/// One output that is ready to be written.
pub struct MssqlOutputWriteJob {
    output_schema: Arc<Schema>,
    table: LazyTable,
    resolved_target: ResolvedMssqlTarget,
    schema_options: MssqlSchemaPlanOptions,
    write_backend: MssqlWriteBackend,
    route: MssqlCachedOutputStreamRoute,
}

impl View for MssqlOutputWriteJob {
    type V = WriteJobView;

    closed spec fn view(&self) -> WriteJobView {
        WriteJobView {
            output_schema: *self.output_schema,
            table: self.table@,
            resolved_target: self.resolved_target@,
            schema_options: self.schema_options,
            write_backend: self.write_backend,
            route: self.route@,
        }
    }
}

impl MssqlOutputWriteJob {
    /// Returns the columns of the output.
    pub fn output_schema(&self) -> (r: &Arc<Schema>)
        ensures
            **r == self@.output_schema,
    {
        &self.output_schema
    }

    /// Returns the table whose rows are written.
    pub fn table(&self) -> (r: &LazyTable)
        ensures
            r@ == self@.table,
    {
        &self.table
    }

    /// Returns the resolved target.
    pub fn resolved_target(&self) -> (r: &ResolvedMssqlTarget)
        ensures
            r@ == self@.resolved_target,
    {
        &self.resolved_target
    }

    /// Returns the schema planning options.
    pub fn schema_options(&self) -> (r: MssqlSchemaPlanOptions)
        ensures
            r == self@.schema_options,
    {
        self.schema_options
    }

    /// Returns how rows reach SQL Server.
    pub fn write_backend(&self) -> (r: MssqlWriteBackend)
        ensures
            r == self@.write_backend,
    {
        self.write_backend
    }

    /// Returns where the rows come from.
    pub fn route(&self) -> (r: &MssqlCachedOutputStreamRoute)
        ensures
            r@ == self@.route,
    {
        &self.route
    }
}

/// The job for a planned output on a route.
pub open spec fn write_job(
    session: SessionView,
    planned: PlannedOutputView,
    schema: Schema,
    route: RouteView,
) -> WriteJobView {
    WriteJobView {
        output_schema: schema,
        table: planned.request.table,
        resolved_target: planned.resolved_target,
        schema_options: planned.output_plan.schema_options,
        write_backend: session.options.mssql_write_backend,
        route,
    }
}

/// The job for a planned output while cache aliases are active.
pub open spec fn cached_job(
    session: SessionView,
    planned: PlannedOutputView,
    aliases: Seq<AliasPlanView>,
) -> Result<WriteJobView, ErrorView> {
    match known_schema(session, planned.request.table) {
        None => Err(unknown_lazy_table(planned.request.table.name)),
        Some(schema) => match cached_route(session, planned.request, aliases) {
            Err(problem) => Err(problem),
            Ok(route) => Ok(write_job(session, planned, schema, route)),
        },
    }
}

/// What is wrong with the first of the first `n` planned outputs that has no job.
pub open spec fn first_job_problem(
    session: SessionView,
    planned: Seq<PlannedOutputView>,
    aliases: Seq<AliasPlanView>,
    n: nat,
) -> Option<ErrorView>
    decreases n,
{
    if n == 0 {
        None
    } else {
        match first_job_problem(session, planned, aliases, (n - 1) as nat) {
            Some(problem) => Some(problem),
            None => match cached_job(session, planned[n - 1], aliases) {
                Err(problem) => Some(problem),
                Ok(_) => None,
            },
        }
    }
}

proof fn first_job_problem_stays(
    session: SessionView,
    planned: Seq<PlannedOutputView>,
    aliases: Seq<AliasPlanView>,
    n: nat,
    m: nat,
)
    requires
        first_job_problem(session, planned, aliases, n) is Some,
        n <= m,
    ensures
        first_job_problem(session, planned, aliases, m) == first_job_problem(
            session,
            planned,
            aliases,
            n,
        ),
    decreases m,
{
    if n < m {
        first_job_problem_stays(session, planned, aliases, n, (m - 1) as nat);
    }
}

impl DeltaFunnelSession {
    /// Plans one lazy table as an MSSQL output without executing the table.
    ///
    /// The selected table must be owned by this session. The connection is that of the target,
    /// or else the session default. Columns that the mapping to SQL Server refuses are an error.
    /// Nothing is read or written.
    pub fn plan_mssql_output(&self, request: &OutputWritePlan) -> (r: Result<
        PlannedMssqlOutput,
        DeltaFunnelError,
    >)
        ensures
            match planning_problem(self@, request@) {
                None => r matches Ok(planned) && is_planned_output(self@, request@, planned@),
                Some(problem) => r matches Err(e) && e@ == problem,
            },
    {
        let timer = PhaseTimer::start(SQL_TARGET_PLANNING_PHASE);
        let schema = match self.schema_for_lazy_table(request.table()) {
            Ok(schema) => schema,
            Err(e) => {
                return Err(e);
            },
        };
        let target = match request.target().target().resolve(
            request.target().output_name(),
            self.options().default_mssql_connection(),
        ) {
            Ok(target) => target,
            Err(e) => {
                return Err(e);
            },
        };
        let plan = match plan_mssql_target_for_resolved_output(
            schema,
            request.schema_refusal(),
            &target,
            self.options().mssql_schema_options(),
        ) {
            Ok(plan) => plan,
            Err(e) => {
                return Err(e);
            },
        };
        let mut phase_timings: Vec<PhaseTimingReport> = Vec::new();
        phase_timings.push(timer.completed());
        assert(views(phase_timings@)[0] == phase_timings@[0]@);
        Ok(PlannedMssqlOutput::new(request.clone(), target, plan, phase_timings))
    }

    /// Checks and plans one write.
    pub fn plan_write_to_mssql(&self, request: &OutputWritePlan) -> (r: Result<
        PlannedMssqlOutput,
        DeltaFunnelError,
    >)
        ensures
            match write_mode_problem(request@.target.run_mode) {
                Some(problem) => r matches Err(e) && e@ == problem,
                None => match planning_problem(self@, request@) {
                    None => r matches Ok(planned) && is_planned_output(self@, request@, planned@),
                    Some(problem) => r matches Err(e) && e@ == problem,
                },
            },
    {
        match ensure_execute_run_mode(request.target().run_mode()) {
            Ok(_) => self.plan_mssql_output(request),
            Err(e) => Err(e),
        }
    }

    /// Checks and plans several writes, in order. The first rejection is the outcome.
    pub fn plan_write_all_outputs(&self, requests: &Vec<OutputWritePlan>) -> (r: Result<
        Vec<PlannedMssqlOutput>,
        DeltaFunnelError,
    >)
        ensures
            match write_all_planning_problem(self@, views(requests@)) {
                Some(problem) => r matches Err(e) && e@ == problem,
                None => r matches Ok(planned) && planned@.len() == requests@.len() && (forall|i: int|
                    0 <= i < requests@.len() ==> is_planned_output(
                        self@,
                        requests@[i]@,
                        (#[trigger] planned@[i])@,
                    )),
            },
    {
        let ghost all = views(requests@);
        match ensure_unique_write_all_output_names(requests) {
            Ok(_) => {},
            Err(e) => {
                return Err(e);
            },
        }
        let mut planned: Vec<PlannedMssqlOutput> = Vec::new();
        let mut i: usize = 0;
        while i < requests.len()
            invariant
                i <= requests.len(),
                all == views(requests@),
                duplicate_name_problem(all) is None,
                first_write_all_problem(self@, all, i as nat) is None,
                planned@.len() == i,
                forall|k: int|
                    0 <= k < i ==> is_planned_output(
                        self@,
                        requests@[k]@,
                        (#[trigger] planned@[k])@,
                    ),
            decreases requests.len() - i,
        {
            let request = &requests[i];
            assert(all[i as int] == request@);
            match ensure_write_all_execute_run_mode(request.target().run_mode()) {
                Ok(_) => {},
                Err(e) => {
                    proof {
                        first_write_all_problem_stays(self@, all, (i + 1) as nat, all.len());
                    }
                    return Err(e);
                },
            }
            match self.plan_mssql_output(request) {
                Ok(output) => {
                    planned.push(output);
                },
                Err(e) => {
                    proof {
                        first_write_all_problem_stays(self@, all, (i + 1) as nat, all.len());
                    }
                    return Err(e);
                },
            }
            i += 1;
        }
        Ok(planned)
    }

    /// Builds the jobs for planned outputs while cache aliases are active.
    pub fn build_write_all_cached_jobs(
        &self,
        planned: &Vec<PlannedMssqlOutput>,
        aliases: &Vec<MssqlDerivedCacheAliasPlan>,
    ) -> (r: Result<Vec<MssqlOutputWriteJob>, DeltaFunnelError>)
        ensures
            match first_job_problem(
                self@,
                views(planned@),
                views(aliases@),
                planned@.len(),
            ) {
                Some(problem) => r matches Err(e) && e@ == problem,
                None => r matches Ok(jobs) && jobs@.len() == planned@.len() && (forall|i: int|
                    0 <= i < planned@.len() ==> cached_job(
                        self@,
                        planned@[i]@,
                        views(aliases@),
                    ) == Ok::<WriteJobView, ErrorView>((#[trigger] jobs@[i])@)),
            },
    {
        let ghost all = views(planned@);
        let ghost active = views(aliases@);
        let mut jobs: Vec<MssqlOutputWriteJob> = Vec::new();
        let mut i: usize = 0;
        while i < planned.len()
            invariant
                i <= planned.len(),
                all == views(planned@),
                active == views(aliases@),
                first_job_problem(self@, all, active, i as nat) is None,
                jobs@.len() == i,
                forall|k: int|
                    0 <= k < i ==> cached_job(self@, planned@[k]@, active) == Ok::<
                        WriteJobView,
                        ErrorView,
                    >((#[trigger] jobs@[k])@),
            decreases planned.len() - i,
        {
            let output = &planned[i];
            assert(all[i as int] == output@);
            let schema = match self.schema_for_lazy_table(output.table()) {
                Ok(schema) => Arc::clone(schema),
                Err(e) => {
                    proof {
                        first_job_problem_stays(self@, all, active, (i + 1) as nat, all.len());
                    }
                    return Err(e);
                },
            };
            let route = match self.cached_output_stream_route(output.request(), aliases) {
                Ok(route) => route,
                Err(e) => {
                    proof {
                        first_job_problem_stays(self@, all, active, (i + 1) as nat, all.len());
                    }
                    return Err(e);
                },
            };
            jobs.push(
                MssqlOutputWriteJob {
                    output_schema: schema,
                    table: output.table().clone(),
                    resolved_target: output.resolved_target().clone(),
                    schema_options: output.output_plan().schema_plan_options(),
                    write_backend: self.options().mssql_write_backend(),
                    route,
                },
            );
            i += 1;
        }
        Ok(jobs)
    }

    /// Builds the jobs for planned outputs without any cache.
    pub fn build_write_all_baseline_jobs(&self, planned: &Vec<PlannedMssqlOutput>) -> (r: Result<
        Vec<MssqlOutputWriteJob>,
        DeltaFunnelError,
    >)
        ensures
            match first_job_problem(self@, views(planned@), seq![], planned@.len()) {
                Some(problem) => r matches Err(e) && e@ == problem,
                None => r matches Ok(jobs) && jobs@.len() == planned@.len() && (forall|i: int|
                    0 <= i < planned@.len() ==> cached_job(self@, planned@[i]@, seq![]) == Ok::<
                        WriteJobView,
                        ErrorView,
                    >((#[trigger] jobs@[i])@)),
            },
    {
        let none: Vec<MssqlDerivedCacheAliasPlan> = Vec::new();
        assert(views(none@) =~= seq![]);
        self.build_write_all_cached_jobs(planned, &none)
    }
}

/// Without cache aliases every job reads the ordinary rows of its table, and the only way to
/// fail is a table that the session does not know.
pub proof fn baseline_jobs_read_ordinary_rows(session: SessionView, planned: PlannedOutputView)
    ensures
        match known_schema(session, planned.request.table) {
            None => cached_job(session, planned, seq![]) == Err::<WriteJobView, ErrorView>(
                unknown_lazy_table(planned.request.table.name),
            ),
            Some(schema) => cached_job(session, planned, seq![]) == Ok::<WriteJobView, ErrorView>(
                write_job(session, planned, schema, RouteView::UncachedLazyTable),
            ),
        },
{
}

/// A planned output always has a job when nothing is cached.
pub proof fn planned_outputs_have_baseline_jobs(
    session: SessionView,
    request: OutputWritePlanView,
    planned: PlannedOutputView,
)
    requires
        is_planned_output(session, request, planned),
    ensures
        cached_job(session, planned, seq![]) is Ok,
{
    baseline_jobs_read_ordinary_rows(session, planned);
}

} // verus!
