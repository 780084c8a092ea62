//! What planning an output settles, said of the request and the session.

use datafusion::arrow::datatypes::Schema;
use vstd::prelude::*;

use crate::cache_plan::{AliasPlanView, KnownTables, uses};
use crate::dry_run::{
    dry_run_all_mode_problem, dry_run_all_planning_problem, dry_run_all_problem,
    dry_run_mode_problem, first_dry_run_problem,
};
use crate::engine::schema_fields;
use crate::errors::{ErrorView, unknown_cached_alias, unknown_lazy_table};
use crate::handles::{LazyTableView, OutputWritePlanView, PlannedOutputView, RunMode};
use crate::output_plan::{
    WriteJobView, cached_job, duplicate_name_problem, first_job_problem, first_repeat,
    first_write_all_problem, is_planned_output, output_planning, planning_problem, repeats_a_name,
    write_all_mode_problem, write_all_planning_problem, write_all_problem, write_mode_problem,
};
use crate::registry::derived_has_id;
use crate::report::PhaseStatus;
use crate::routes::{
    RouteView, alias_has_table, alias_is_unknown, cached_route, known_tables, used_aliases,
};
use crate::search::{first_match, first_position, first_position_facts, first_position_is};
use crate::session::{SessionView, known_schema};
use crate::target::{
    ConnectionView, LoadMode, MssqlConnectionSource, ResolvedTargetView, TargetConfigView,
    resolved_target,
};
use crate::target_plan::TargetOutputPlanView;
use crate::text::display_text;

verus! {

/// A target that names its own connection is written through that one; another through the
/// session's default, if there is one. The table, the load mode and the name of the output are
/// those asked for.
pub proof fn own_connection_goes_before_the_default(
    config: TargetConfigView,
    output_name: Seq<char>,
    default_connection: Option<ConnectionView>,
)
    ensures
        resolved_target(config, output_name, default_connection) is None <==> config.connection
            is None && default_connection is None,
        resolved_target(config, output_name, default_connection) matches Some(target) ==> {
            &&& target.output_name == output_name
            &&& target.table == config.table
            &&& target.load_mode == config.load_mode
            &&& config.connection matches Some(own) ==> target.connection == own
                && target.connection_source == MssqlConnectionSource::TargetOverride
            &&& config.connection is None ==> Some(target.connection) == default_connection
                && target.connection_source == MssqlConnectionSource::ContextDefault
        },
{
}

/// A plan has the columns of the schema.
pub open spec fn has_the_columns(plan: TargetOutputPlanView, schema: Schema) -> bool {
    &&& plan.fields.len() == schema_fields(schema).len()
    &&& forall|i: int|
        0 <= i < schema_fields(schema).len() <= usize::MAX ==> {
            let field = #[trigger] plan.fields[i];
            &&& field.index == i
            &&& field.name == schema_fields(schema)[i].name
            &&& field.arrow_type == schema_fields(schema)[i].type_text
            &&& field.nullable == schema_fields(schema)[i].nullable
        }
}

/// Planning an output whose table is known: it fails for want of a connection, where the schema
/// is refused, or for the reserved load mode, in this order; otherwise the plan is the asked-for
/// target with every column of the table's schema.
pub proof fn output_is_planned_as_requested(
    s: SessionView,
    request: OutputWritePlanView,
    schema: Schema,
)
    requires
        known_schema(s, request.table) == Some(schema),
    ensures
        ({
            let output_name = request.target.output_name;
            let config = request.target.target;
            let fallback = s.options.default_mssql_connection;
            let outcome = output_planning(s, request);
            if config.connection is None && fallback is None {
                outcome == Err::<(ResolvedTargetView, TargetOutputPlanView), ErrorView>(
                    ErrorView::MissingMssqlConnection { output_name },
                )
            } else if request.schema_refusal is Some {
                outcome == Err::<(ResolvedTargetView, TargetOutputPlanView), ErrorView>(
                    ErrorView::MssqlSchemaPlanning {
                        output_name,
                        message: request.schema_refusal->0,
                    },
                )
            } else if config.load_mode == LoadMode::Replace {
                outcome == Err::<(ResolvedTargetView, TargetOutputPlanView), ErrorView>(
                    ErrorView::MssqlLifecyclePlanning {
                        output_name,
                        message: "replace load mode is reserved"@,
                    },
                )
            } else {
                outcome is Ok && {
                    let target = outcome->Ok_0.0;
                    let plan = outcome->Ok_0.1;
                    &&& target.output_name == output_name
                    &&& target.table == config.table
                    &&& target.load_mode == config.load_mode
                    &&& plan.output_name == output_name
                    &&& plan.target_table == config.table
                    &&& plan.load_mode == config.load_mode
                    &&& plan.schema_options == s.options.mssql_schema_options
                    &&& has_the_columns(plan, schema)
                    &&& if config.connection is Some {
                        target.connection == config.connection->0
                    } else {
                        target.connection == fallback->0
                    }
                }
            }
        }),
{
}

/// Planning an output whose table the session does not hold fails for that reason, whatever else
/// may be wrong with the request.
pub proof fn unknown_table_is_not_planned(s: SessionView, request: OutputWritePlanView)
    requires
        known_schema(s, request.table) is None,
    ensures
        planning_problem(s, request) == Some(unknown_lazy_table(request.table.name)),
{
}

/// Either planning gives an output or it gives a problem.
pub proof fn planning_succeeds_or_has_a_problem(s: SessionView, request: OutputWritePlanView)
    ensures
        planning_problem(s, request) is None <==> output_planning(s, request) is Ok,
        planning_problem(s, request) matches Some(problem) ==> output_planning(s, request) == Err::<
            (ResolvedTargetView, TargetOutputPlanView),
            ErrorView,
        >(problem),
{
}

/// A planned output keeps its request, has the columns of the requested table, and was timed
/// once, as a completed phase of planning the target.
pub proof fn planned_output_keeps_the_request(
    s: SessionView,
    request: OutputWritePlanView,
    planned: PlannedOutputView,
)
    requires
        is_planned_output(s, request, planned),
    ensures
        planned.request == request,
        known_schema(s, request.table) is Some,
        has_the_columns(planned.output_plan, known_schema(s, request.table)->0),
        planned.resolved_target.output_name == request.target.output_name,
        planned.output_plan.output_name == request.target.output_name,
        planned.resolved_target.table == request.target.target.table,
        planned.output_plan.target_table == request.target.target.table,
        planned.resolved_target.load_mode == request.target.target.load_mode,
        planned.output_plan.load_mode == request.target.target.load_mode,
        planned.output_plan.load_mode != LoadMode::Replace,
        planned.output_plan.schema_options == s.options.mssql_schema_options,
        request.target.target.connection matches Some(own) ==> planned.resolved_target.connection
            == own && planned.resolved_target.connection_source
            == MssqlConnectionSource::TargetOverride,
        request.target.target.connection is None ==> s.options.default_mssql_connection == Some(
            planned.resolved_target.connection,
        ) && planned.resolved_target.connection_source == MssqlConnectionSource::ContextDefault,
        request.schema_refusal is None,
        planned.phase_timings.len() == 1,
        planned.phase_timings[0].phase_name == "sql_target_planning"@,
        planned.phase_timings[0].status == PhaseStatus::Completed,
        planned.phase_timings[0].elapsed_micros is Some,
{
}

/// Writing takes requests to execute and dry runs take requests to dry-run; the other kind is
/// refused as a planning problem.
pub proof fn run_modes_are_told_apart()
    ensures
        write_mode_problem(RunMode::Execute) is None,
        write_all_mode_problem(RunMode::Execute) is None,
        dry_run_mode_problem(RunMode::DryRun) is None,
        dry_run_all_mode_problem(RunMode::DryRun) is None,
        write_mode_problem(RunMode::DryRun) == Some(
            ErrorView::MssqlWorkflowPlanning {
                message: "write_to_mssql requires RunMode::Execute; use dry_run_to_mssql for dry-run planning"@,
            },
        ),
        write_all_mode_problem(RunMode::DryRun) == Some(
            ErrorView::MssqlWorkflowPlanning {
                message: "write_all requires RunMode::Execute; use dry_run_all_to_mssql for dry-run planning"@,
            },
        ),
        dry_run_mode_problem(RunMode::Execute) == Some(
            ErrorView::MssqlWorkflowPlanning {
                message: "dry_run_to_mssql requires RunMode::DryRun; use write_to_mssql for execution"@,
            },
        ),
        dry_run_all_mode_problem(RunMode::Execute) == Some(
            ErrorView::MssqlWorkflowPlanning {
                message: "dry_run_all_to_mssql requires RunMode::DryRun; use write_all for execution"@,
            },
        ),
{
}

/// A request has the name of an earlier one, and no request before it has that of an earlier one.
pub open spec fn is_first_repeat(requests: Seq<OutputWritePlanView>, i: int) -> bool {
    &&& 0 <= i < requests.len()
    &&& exists|j: int|
        0 <= j < i && (#[trigger] requests[j]).target.output_name == requests[i].target.output_name
    &&& forall|a: int, b: int|
        0 <= a < b < i ==> (#[trigger] requests[a]).target.output_name != (
        #[trigger] requests[b]).target.output_name
}

/// Names are compared letter for letter.
pub open spec fn names_are_distinct(requests: Seq<OutputWritePlanView>) -> bool {
    forall|a: int, b: int|
        0 <= a < b < requests.len() ==> (#[trigger] requests[a]).target.output_name != (
        #[trigger] requests[b]).target.output_name
}

proof fn first_repeat_is(requests: Seq<OutputWritePlanView>, n: nat)
    requires
        n <= requests.len(),
    ensures
        match first_repeat(requests, n) {
            Some(i) => is_first_repeat(requests, i) && i < n,
            None => forall|a: int, b: int|
                0 <= a < b < n ==> (#[trigger] requests[a]).target.output_name != (
                #[trigger] requests[b]).target.output_name,
        },
    decreases n,
{
    if n > 0 {
        first_repeat_is(requests, (n - 1) as nat);
        if first_repeat(requests, (n - 1) as nat) is None {
            if repeats_a_name(requests, n - 1) {
                assert(is_first_repeat(requests, n - 1));
            } else {
                assert forall|a: int, b: int| 0 <= a < b < n implies (
                #[trigger] requests[a]).target.output_name != (
                #[trigger] requests[b]).target.output_name by {}
            }
        }
    }
}

/// Output names must differ; where they do not, the first name that comes a second time is the
/// one complained of.
pub proof fn first_repeated_name_is_refused(requests: Seq<OutputWritePlanView>)
    ensures
        duplicate_name_problem(requests) is None <==> names_are_distinct(requests),
        duplicate_name_problem(requests) matches Some(problem) ==> exists|i: int| #[trigger]
            is_first_repeat(requests, i) && problem == (ErrorView::MssqlWorkflowPlanning {
                message: "write_all output names must be unique; duplicate output name `"@
                    + display_text(requests[i].target.output_name) + "`"@,
            }),
{
    first_repeat_is(requests, requests.len());
    match first_repeat(requests, requests.len()) {
        Some(i) => {
            assert(is_first_repeat(requests, i));
            let j = choose|j: int|
                0 <= j < i && (#[trigger] requests[j]).target.output_name
                    == requests[i].target.output_name;
            assert(!names_are_distinct(requests));
        },
        None => {},
    }
}

/// What is wrong with one request among several: the run mode before anything else.
pub proof fn run_mode_is_checked_before_the_plan(s: SessionView, request: OutputWritePlanView)
    ensures
        request.target.run_mode == RunMode::Execute ==> write_all_problem(s, request)
            == planning_problem(s, request),
        request.target.run_mode != RunMode::Execute ==> write_all_problem(s, request)
            == write_all_mode_problem(RunMode::DryRun),
        request.target.run_mode == RunMode::DryRun ==> dry_run_all_problem(s, request)
            == planning_problem(s, request),
        request.target.run_mode != RunMode::DryRun ==> dry_run_all_problem(s, request)
            == dry_run_all_mode_problem(RunMode::Execute),
{
}

/// A request among several has a problem and none before it has one.
pub open spec fn is_first_problem(
    s: SessionView,
    requests: Seq<OutputWritePlanView>,
    i: int,
    problem: ErrorView,
) -> bool {
    &&& 0 <= i < requests.len()
    &&& write_all_problem(s, requests[i]) == Some(problem)
    &&& forall|j: int| 0 <= j < i ==> write_all_problem(s, #[trigger] requests[j]) is None
}

proof fn first_problem_is(s: SessionView, requests: Seq<OutputWritePlanView>, n: nat)
    requires
        n <= requests.len(),
    ensures
        match first_write_all_problem(s, requests, n) {
            Some(problem) => exists|i: int| #[trigger]
                is_first_problem(s, requests, i, problem) && i < n,
            None => forall|j: int|
                0 <= j < n ==> write_all_problem(s, #[trigger] requests[j]) is None,
        },
    decreases n,
{
    if n > 0 {
        first_problem_is(s, requests, (n - 1) as nat);
        if first_write_all_problem(s, requests, (n - 1) as nat) is None {
            match write_all_problem(s, requests[n - 1]) {
                Some(problem) => {
                    assert(is_first_problem(s, requests, n - 1, problem));
                },
                None => {},
            }
        }
    }
}

/// Several writes are planned exactly where their names differ and each can be planned; else a
/// repeated name is refused, and without one the first request that has a problem.
pub proof fn writes_are_planned_all_or_none(s: SessionView, requests: Seq<OutputWritePlanView>)
    ensures
        write_all_planning_problem(s, requests) is None <==> names_are_distinct(requests) && forall|
            i: int,
        |
            0 <= i < requests.len() ==> write_all_problem(s, #[trigger] requests[i]) is None,
        !names_are_distinct(requests) ==> write_all_planning_problem(s, requests)
            == duplicate_name_problem(requests),
        names_are_distinct(requests) ==> (write_all_planning_problem(s, requests) matches Some(
            problem,
        ) ==> exists|i: int| #[trigger] is_first_problem(s, requests, i, problem)),
{
    first_repeated_name_is_refused(requests);
    first_problem_is(s, requests, requests.len());
    match first_write_all_problem(s, requests, requests.len()) {
        Some(problem) => {
            let i = choose|i: int| #[trigger] is_first_problem(s, requests, i, problem);
            assert(write_all_problem(s, requests[i]) is Some);
        },
        None => {},
    }
}

/// A request to dry-run among several has a problem and none before it has one.
pub open spec fn is_first_dry_run_problem(
    s: SessionView,
    requests: Seq<OutputWritePlanView>,
    i: int,
    problem: ErrorView,
) -> bool {
    &&& 0 <= i < requests.len()
    &&& dry_run_all_problem(s, requests[i]) == Some(problem)
    &&& forall|j: int| 0 <= j < i ==> dry_run_all_problem(s, #[trigger] requests[j]) is None
}

proof fn first_dry_run_problem_is(s: SessionView, requests: Seq<OutputWritePlanView>, n: nat)
    requires
        n <= requests.len(),
    ensures
        match first_dry_run_problem(s, requests, n) {
            Some(problem) => exists|i: int| #[trigger]
                is_first_dry_run_problem(s, requests, i, problem) && i < n,
            None => forall|j: int|
                0 <= j < n ==> dry_run_all_problem(s, #[trigger] requests[j]) is None,
        },
    decreases n,
{
    if n > 0 {
        first_dry_run_problem_is(s, requests, (n - 1) as nat);
        if first_dry_run_problem(s, requests, (n - 1) as nat) is None {
            match dry_run_all_problem(s, requests[n - 1]) {
                Some(problem) => {
                    assert(is_first_dry_run_problem(s, requests, n - 1, problem));
                },
                None => {},
            }
        }
    }
}

/// Several outputs are dry-run exactly where their names differ and each can be planned; else a
/// repeated name is refused, and without one the first request that has a problem.
pub proof fn dry_runs_are_planned_all_or_none(s: SessionView, requests: Seq<OutputWritePlanView>)
    ensures
        dry_run_all_planning_problem(s, requests) is None <==> names_are_distinct(requests)
            && forall|i: int|
            0 <= i < requests.len() ==> dry_run_all_problem(s, #[trigger] requests[i]) is None,
        !names_are_distinct(requests) ==> dry_run_all_planning_problem(s, requests)
            == duplicate_name_problem(requests),
        names_are_distinct(requests) ==> (dry_run_all_planning_problem(s, requests) matches Some(
            problem,
        ) ==> exists|i: int| #[trigger] is_first_dry_run_problem(s, requests, i, problem)),
{
    first_repeated_name_is_refused(requests);
    first_dry_run_problem_is(s, requests, requests.len());
    match first_dry_run_problem(s, requests, requests.len()) {
        Some(problem) => {
            let i = choose|i: int| #[trigger] is_first_dry_run_problem(s, requests, i, problem);
            assert(dry_run_all_problem(s, requests[i]) is Some);
        },
        None => {},
    }
}

/// An alias is registered in the session.
pub open spec fn is_registered(s: SessionView, alias: AliasPlanView) -> bool {
    exists|k: int|
        0 <= k < s.derived.len() && (#[trigger] s.derived[k]).table.id == alias.table_id
}

/// All of some aliases are registered in the session.
pub open spec fn all_registered(s: SessionView, aliases: Seq<AliasPlanView>) -> bool {
    forall|i: int| 0 <= i < aliases.len() ==> is_registered(s, #[trigger] aliases[i])
}

proof fn unknown_is_not_registered(s: SessionView, alias: AliasPlanView)
    ensures
        alias_is_unknown(s.derived)(alias) <==> !is_registered(s, alias),
{
    let p = derived_has_id(alias.table_id);
    first_position_facts(s.derived, p);
    if is_registered(s, alias) {
        let k = choose|k: int|
            0 <= k < s.derived.len() && (#[trigger] s.derived[k]).table.id == alias.table_id;
        assert(p(s.derived[k]));
    }
}

/// An output that is itself a cached alias reads that cache: the first alias of its table.
pub proof fn cached_output_reads_its_own_cache(
    s: SessionView,
    output: OutputWritePlanView,
    aliases: Seq<AliasPlanView>,
    i: int,
)
    requires
        all_registered(s, aliases),
        0 <= i < aliases.len(),
        aliases[i].table_id == output.table.id,
        forall|j: int| 0 <= j < i ==> (#[trigger] aliases[j]).table_id != output.table.id,
    ensures
        cached_route(s, output, aliases) == Ok::<RouteView, ErrorView>(
            RouteView::DirectCachedAlias(aliases[i]),
        ),
{
    no_unknown_alias(s, aliases);
    let p = alias_has_table(output.table.id);
    assert forall|j: int| 0 <= j < i implies !p(#[trigger] aliases[j]) by {}
    first_position_is(aliases, p, i);
}

proof fn no_unknown_alias(s: SessionView, aliases: Seq<AliasPlanView>)
    requires
        all_registered(s, aliases),
    ensures
        first_match(aliases, alias_is_unknown(s.derived)) is None,
{
    let p = alias_is_unknown(s.derived);
    first_position_facts(aliases, p);
    if first_position(aliases, p) is Some {
        let i = first_position(aliases, p)->0;
        unknown_is_not_registered(s, aliases[i]);
    }
}

/// An output that is no cached alias is replanned over exactly the caches that it reads, in
/// their order, or read as it is where it reads none.
pub proof fn other_outputs_read_the_caches_they_use(
    s: SessionView,
    output: OutputWritePlanView,
    aliases: Seq<AliasPlanView>,
)
    requires
        all_registered(s, aliases),
        forall|j: int| 0 <= j < aliases.len() ==> (#[trigger] aliases[j]).table_id
            != output.table.id,
    ensures
        ({
            let used = aliases.filter(
                |alias: AliasPlanView| uses(known_tables(s), output.table, alias.table_id),
            );
            cached_route(s, output, aliases) == if used.len() == 0 {
                Ok::<RouteView, ErrorView>(RouteView::UncachedLazyTable)
            } else {
                Ok::<RouteView, ErrorView>(RouteView::ReplannedCachedDependency(used))
            }
        }),
{
    no_unknown_alias(s, aliases);
    let p = alias_has_table(output.table.id);
    first_position_facts(aliases, p);
    used_aliases_are_filtered(known_tables(s), output.table, aliases, aliases.len());
    assert(aliases.take(aliases.len() as int) =~= aliases);
}

proof fn used_aliases_are_filtered(
    known: KnownTables,
    table: LazyTableView,
    aliases: Seq<AliasPlanView>,
    n: nat,
)
    requires
        n <= aliases.len(),
    ensures
        used_aliases(known, table, aliases, n) == aliases.take(n as int).filter(
            |alias: AliasPlanView| uses(known, table, alias.table_id),
        ),
    decreases n,
{
    reveal(Seq::filter);
    let p = |alias: AliasPlanView| uses(known, table, alias.table_id);
    if n > 0 {
        used_aliases_are_filtered(known, table, aliases, (n - 1) as nat);
        assert(aliases.take(n as int).drop_last() =~= aliases.take(n - 1));
        assert(aliases.take(n as int).last() == aliases[n - 1]);
    }
}

/// Where a cached alias is not registered, the first such alias is complained of.
pub proof fn unregistered_cache_is_refused(
    s: SessionView,
    output: OutputWritePlanView,
    aliases: Seq<AliasPlanView>,
    i: int,
)
    requires
        0 <= i < aliases.len(),
        !is_registered(s, aliases[i]),
        forall|j: int| 0 <= j < i ==> is_registered(s, #[trigger] aliases[j]),
    ensures
        cached_route(s, output, aliases) == Err::<RouteView, ErrorView>(
            unknown_cached_alias(aliases[i].alias),
        ),
{
    let p = alias_is_unknown(s.derived);
    unknown_is_not_registered(s, aliases[i]);
    assert forall|j: int| 0 <= j < i implies !p(#[trigger] aliases[j]) by {
        unknown_is_not_registered(s, aliases[j]);
    }
    first_position_is(aliases, p, i);
}

/// A job carries what was planned: the rows of the planned table with that table's schema, to the
/// resolved target, by the session's backend, along the route that the caches give.
pub proof fn job_carries_the_plan(
    s: SessionView,
    planned: PlannedOutputView,
    aliases: Seq<AliasPlanView>,
)
    ensures
        cached_job(s, planned, aliases) matches Ok(job) ==> {
            &&& known_schema(s, planned.request.table) == Some(job.output_schema)
            &&& job.table == planned.request.table
            &&& job.resolved_target == planned.resolved_target
            &&& job.schema_options == planned.output_plan.schema_options
            &&& job.write_backend == s.options.mssql_write_backend
            &&& cached_route(s, planned.request, aliases) == Ok::<RouteView, ErrorView>(job.route)
        },
        cached_job(s, planned, aliases) is Ok <==> known_schema(s, planned.request.table) is Some
            && cached_route(s, planned.request, aliases) is Ok,
        cached_job(s, planned, aliases) matches Err(problem) ==> if known_schema(
            s,
            planned.request.table,
        ) is None {
            problem == unknown_lazy_table(planned.request.table.name)
        } else {
            cached_route(s, planned.request, aliases) == Err::<RouteView, ErrorView>(problem)
        },
{
}

/// Jobs are built for all planned outputs or for none: what is wrong is what is wrong with the
/// first output that has no job.
pub proof fn jobs_are_built_all_or_none(
    s: SessionView,
    planned: Seq<PlannedOutputView>,
    aliases: Seq<AliasPlanView>,
    n: nat,
)
    requires
        n <= planned.len(),
    ensures
        match first_job_problem(s, planned, aliases, n) {
            None => forall|i: int|
                0 <= i < n ==> cached_job(s, #[trigger] planned[i], aliases) is Ok,
            Some(problem) => exists|i: int|
                0 <= i < n && cached_job(s, #[trigger] planned[i], aliases) == Err::<
                    WriteJobView,
                    ErrorView,
                >(problem) && forall|j: int|
                    0 <= j < i ==> cached_job(s, #[trigger] planned[j], aliases) is Ok,
        },
    decreases n,
{
    if n > 0 {
        jobs_are_built_all_or_none(s, planned, aliases, (n - 1) as nat);
        if first_job_problem(s, planned, aliases, (n - 1) as nat) is None {
            assert(cached_job(s, planned[n - 1], aliases) is Ok || cached_job(
                s,
                planned[n - 1],
                aliases,
            ) is Err);
        }
    }
}

} // verus!
