//! Explicit runtime boundary for blocking hosts.

use tokio::runtime::{Builder, Handle, Runtime};
use vstd::prelude::*;
use vstd::string::StringExecFns;

use crate::dry_run::{
    MssqlDryRunOutputReport, MssqlDryRunWorkflowReport, dry_run_all_planning_problem,
    dry_run_mode_problem, is_dry_run_report, is_dry_run_workflow_report,
};
use crate::errors::{DeltaFunnelError, ErrorView};
use crate::handles::{OutputWritePlan, OutputWritePlanView};
use crate::options::reports;
use crate::output_plan::planning_problem;
use crate::report::views;
use crate::session::{DeltaFunnelSession, SessionView};

verus! {

/// Declares `Runtime`, which runs asynchronous work.
#[verifier::external_type_specification]
#[verifier::external_body]
pub struct ExRuntime(Runtime);

/// `Handle::try_current` succeeds on a thread that a runtime drives. The answer rests on the
/// calling thread, so nothing is stated.
#[verifier::external_body]
fn inside_runtime() -> (r: bool)
{
    Handle::try_current().is_ok()
}

/// `Builder::new_multi_thread` and `Builder::build` start a runtime whose worker threads are
/// named `delta-funnel-runtime`. Whether that succeeds rests on the machine, so nothing is
/// stated.
#[verifier::external_body]
fn start_runtime() -> (r: Result<Runtime, String>)
{
    let named = Builder::new_multi_thread().enable_all().thread_name("delta-funnel-runtime").build();
    named.map_err(|error| error.to_string())
}

/// The error for a blocking call on a thread that a runtime drives.
pub open spec fn nested_runtime() -> ErrorView {
    ErrorView::Config {
        message: "DeltaFunnelRuntime blocking methods cannot be called from inside an active Tokio runtime; use DeltaFunnelSession async APIs directly"@,
    }
}

/// Rejects a blocking call on a thread that a runtime drives.
pub fn check_blocking_call(inside_runtime: bool) -> (r: Result<(), DeltaFunnelError>)
    ensures
        reports(
            r,
            if inside_runtime {
                Some(nested_runtime())
            } else {
                None
            },
        ),
{
    if inside_runtime {
        return Err(
            DeltaFunnelError::Config {
                message: "DeltaFunnelRuntime blocking methods cannot be called from inside an active Tokio runtime; use DeltaFunnelSession async APIs directly".to_owned(),
            },
        );
    }
    Ok(())
}

/// Rejects a blocking call where the current thread is driven by a runtime.
pub fn reject_nested_runtime() -> (r: Result<(), DeltaFunnelError>)
    ensures
        match r {
            Ok(_) => true,
            Err(e) => e@ == nested_runtime(),
        },
{
    check_blocking_call(inside_runtime())
}

/// The error for a runtime that could not be started.
pub open spec fn runtime_not_created(message: Seq<char>) -> ErrorView {
    ErrorView::Config { message: "failed to create DeltaFunnel runtime: "@ + message }
}

/// Blocking runtime boundary for high-level session actions.
///
/// Constructing it only creates a runtime; it registers, plans and executes nothing.
pub struct DeltaFunnelRuntime {
    runtime: Runtime,
}

/// What a single dry run comes to.
pub open spec fn dry_run_comes_to(
    session: SessionView,
    request: OutputWritePlanView,
    r: Result<MssqlDryRunOutputReport, DeltaFunnelError>,
) -> bool {
    match dry_run_mode_problem(request.target.run_mode) {
        Some(problem) => r matches Err(e) && e@ == problem,
        None => match planning_problem(session, request) {
            None => r matches Ok(report) && is_dry_run_report(session, request, report@),
            Some(problem) => r matches Err(e) && e@ == problem,
        },
    }
}

/// What a dry run of several outputs comes to.
pub open spec fn dry_run_all_comes_to(
    session: SessionView,
    requests: Seq<OutputWritePlanView>,
    r: Result<MssqlDryRunWorkflowReport, DeltaFunnelError>,
) -> bool {
    match dry_run_all_planning_problem(session, requests) {
        Some(problem) => r matches Err(e) && e@ == problem,
        None => r matches Ok(report) && is_dry_run_workflow_report(
            session,
            requests,
            seq![],
            report,
        ),
    }
}

impl DeltaFunnelRuntime {
    /// The runtime that blocking calls run on.
    pub closed spec fn inner(self) -> Runtime {
        self.runtime
    }

    /// Takes up a started runtime, or why there is none.
    pub fn from_start(started: Result<Runtime, String>) -> (r: Result<Self, DeltaFunnelError>)
        ensures
            match started {
                Ok(runtime) => r matches Ok(made) && made.inner() == runtime,
                Err(message) => r matches Err(e) && e@ == runtime_not_created(message@),
            },
    {
        match started {
            Ok(runtime) => Ok(DeltaFunnelRuntime { runtime }),
            Err(message) => {
                let mut text = "failed to create DeltaFunnel runtime: ".to_owned();
                text.append(message.as_str());
                Err(DeltaFunnelError::Config { message: text })
            },
        }
    }

    /// Creates a multi-threaded runtime for blocking hosts.
    pub fn new() -> (r: Result<Self, DeltaFunnelError>)
        ensures
            match r {
                Ok(_) => true,
                Err(e) => exists|message: Seq<char>| e@ == #[trigger] runtime_not_created(message),
            },
    {
        Self::from_start(start_runtime())
    }

    /// Returns the runtime that blocking calls run on.
    pub fn runtime(&self) -> (r: &Runtime)
        ensures
            *r == self.inner(),
    {
        &self.runtime
    }

    /// Runs a single-output dry run, given whether a runtime drives the current thread.
    pub fn dry_run_to_mssql_from(
        &self,
        inside_runtime: bool,
        session: &DeltaFunnelSession,
        request: &OutputWritePlan,
    ) -> (r: Result<MssqlDryRunOutputReport, DeltaFunnelError>)
        ensures
            if inside_runtime {
                r matches Err(e) && e@ == nested_runtime()
            } else {
                dry_run_comes_to(session@, request@, r)
            },
    {
        match check_blocking_call(inside_runtime) {
            Ok(_) => session.dry_run_to_mssql(request),
            Err(e) => Err(e),
        }
    }

    /// Runs a single-output dry run. A call from inside a runtime is rejected.
    pub fn dry_run_to_mssql(&self, session: &DeltaFunnelSession, request: &OutputWritePlan) -> (r:
        Result<MssqlDryRunOutputReport, DeltaFunnelError>)
        ensures
            (r matches Err(e) && e@ == nested_runtime()) || dry_run_comes_to(session@, request@, r),
    {
        self.dry_run_to_mssql_from(inside_runtime(), session, request)
    }

    /// Runs a multi-output dry run, given whether a runtime drives the current thread.
    pub fn dry_run_all_to_mssql_from(
        &self,
        inside_runtime: bool,
        session: &DeltaFunnelSession,
        requests: &Vec<OutputWritePlan>,
    ) -> (r: Result<MssqlDryRunWorkflowReport, DeltaFunnelError>)
        ensures
            if inside_runtime {
                r matches Err(e) && e@ == nested_runtime()
            } else {
                dry_run_all_comes_to(session@, views(requests@), r)
            },
    {
        match check_blocking_call(inside_runtime) {
            Ok(_) => session.dry_run_all_to_mssql(requests),
            Err(e) => Err(e),
        }
    }

    /// Runs a multi-output dry run. A call from inside a runtime is rejected.
    pub fn dry_run_all_to_mssql(
        &self,
        session: &DeltaFunnelSession,
        requests: &Vec<OutputWritePlan>,
    ) -> (r: Result<MssqlDryRunWorkflowReport, DeltaFunnelError>)
        ensures
            (r matches Err(e) && e@ == nested_runtime()) || dry_run_all_comes_to(
                session@,
                views(requests@),
                r,
            ),
    {
        self.dry_run_all_to_mssql_from(inside_runtime(), session, requests)
    }
}

} // verus!
