//! Session-wide options and their local validation.

use datafusion::prelude::{SessionConfig, SessionContext};
use vstd::prelude::*;
use vstd::string::StringExecFns;

use crate::debug::{
    braced, braced_text, named, named_text, optional, optional_number, optional_number_text,
    some_text, truth, truth_text,
};
use crate::engine::{config_batch_size, config_target_partitions, context_config};
use crate::errors::{BatchPipelinePhase, DeltaFunnelError, ErrorView};
use crate::report::views;
use crate::scan_options::{
    DeltaScanExecutionOptions, IntraFileRepartitioning, ScanOptionsView, default_scan_options,
    repartitioning_debug, scan_options_debug,
};
use crate::target::{ConnectionView, MssqlConnectionConfig, connection_summary, quoted, quoted_text};
use crate::text::{decimal, decimal_text};

verus! {

/// Query execution options; what is not set follows the engine's defaults.
#[derive(Debug, Clone, Copy, PartialEq, Eq, Structural)]
pub struct QueryOptions {
    /// Number of partitions for query execution.
    pub target_partitions: Option<usize>,
    /// Number of rows in an output batch.
    pub output_batch_size: Option<usize>,
}

impl Default for QueryOptions {
    fn default() -> (r: Self)
        ensures
            r == (QueryOptions { target_partitions: None, output_batch_size: None }),
    {
        QueryOptions { target_partitions: None, output_batch_size: None }
    }
}

/// Message for an option that must be positive.
pub open spec fn must_be_positive(option: Seq<char>) -> Seq<char> {
    option + " must be greater than zero"@
}

/// What is wrong with some query options: the first option that is zero.
pub open spec fn query_options_problem(options: QueryOptions) -> Option<ErrorView> {
    if options.target_partitions == Some(0usize) {
        Some(
            ErrorView::BatchPipeline {
                phase: BatchPipelinePhase::Configuration,
                option: "target_partitions"@,
                message: must_be_positive("target_partitions"@),
            },
        )
    } else if options.output_batch_size == Some(0usize) {
        Some(
            ErrorView::BatchPipeline {
                phase: BatchPipelinePhase::Configuration,
                option: "output_batch_size"@,
                message: must_be_positive("output_batch_size"@),
            },
        )
    } else {
        None
    }
}

/// The result of a check reports exactly the given problem.
pub open spec fn reports(r: Result<(), DeltaFunnelError>, problem: Option<ErrorView>) -> bool {
    match problem {
        None => r is Ok,
        Some(view) => r matches Err(e) && e@ == view,
    }
}

/// Error for an option that must be positive and is not.
pub(crate) fn not_positive(option: &'static str) -> (r: DeltaFunnelError)
    ensures
        r@ == (ErrorView::BatchPipeline {
            phase: BatchPipelinePhase::Configuration,
            option: option@,
            message: must_be_positive(option@),
        }),
{
    let mut message = option.to_owned();
    message.append(" must be greater than zero");
    DeltaFunnelError::BatchPipeline { phase: BatchPipelinePhase::Configuration, option, message }
}

impl QueryOptions {
    /// Rejects options that are zero.
    pub fn validate(&self) -> (r: Result<(), DeltaFunnelError>)
        ensures
            reports(r, query_options_problem(*self)),
    {
        match self.target_partitions {
            Some(n) => {
                if n == 0 {
                    return Err(not_positive("target_partitions"));
                }
            },
            None => {},
        }
        match self.output_batch_size {
            Some(n) => {
                if n == 0 {
                    return Err(not_positive("output_batch_size"));
                }
            },
            None => {},
        }
        Ok(())
    }
}

/// Options for planning SQL Server schemas. The session hands them on unread.
#[derive(Debug, Clone, Copy, PartialEq, Eq, Structural)]
pub struct MssqlSchemaPlanOptions;

/// How rows reach SQL Server.
#[derive(Debug, Clone, Copy, PartialEq, Eq, Structural)]
pub enum MssqlWriteBackend {
    /// Native TDS bulk load.
    BulkLoad,
}

/// Options for writing several outputs.
#[derive(Debug, Clone, Copy, PartialEq, Eq, Structural)]
pub struct MssqlWorkflowWriteOptions {
    max_parallel_outputs: usize,
}

/// What is wrong with a number of parallel outputs: writers run one after the other.
pub open spec fn workflow_options_problem(max_parallel_outputs: usize) -> Option<ErrorView> {
    if max_parallel_outputs == 0 {
        Some(
            ErrorView::MssqlWorkflowPlanning {
                message: "max_parallel_outputs must be at least 1"@,
            },
        )
    } else if max_parallel_outputs > 1 {
        Some(
            ErrorView::MssqlWorkflowPlanning {
                message: "parallel MSSQL output writers are not supported"@,
            },
        )
    } else {
        None
    }
}

impl MssqlWorkflowWriteOptions {
    /// The number of outputs that may be written at a time.
    pub closed spec fn parallel_outputs(self) -> usize {
        self.max_parallel_outputs
    }

    /// One output at a time.
    pub fn new() -> (r: Self)
        ensures
            r.parallel_outputs() == 1,
    {
        MssqlWorkflowWriteOptions { max_parallel_outputs: 1 }
    }

    /// Sets how many outputs may be written at a time.
    pub fn with_max_parallel_outputs(self, max_parallel_outputs: usize) -> (r: Self)
        ensures
            r.parallel_outputs() == max_parallel_outputs,
    {
        MssqlWorkflowWriteOptions { max_parallel_outputs }
    }

    /// Returns how many outputs may be written at a time.
    pub fn max_parallel_outputs(&self) -> (r: usize)
        ensures
            r == self.parallel_outputs(),
    {
        self.max_parallel_outputs
    }

    /// Accepts exactly one output at a time.
    pub fn validate(&self) -> (r: Result<(), DeltaFunnelError>)
        ensures
            reports(r, workflow_options_problem(self.parallel_outputs())),
    {
        if self.max_parallel_outputs == 0 {
            return Err(
                DeltaFunnelError::MssqlWorkflowPlanning {
                    message: "max_parallel_outputs must be at least 1".to_owned(),
                },
            );
        }
        if self.max_parallel_outputs > 1 {
            return Err(
                DeltaFunnelError::MssqlWorkflowPlanning {
                    message: "parallel MSSQL output writers are not supported".to_owned(),
                },
            );
        }
        Ok(())
    }
}

/// How much a dry run learns about source scans.
#[derive(Debug, Clone, Copy, PartialEq, Eq, Structural)]
pub enum DryRunScanSummaryMode {
    /// Only what is known without planning a scan.
    MetadataOnly,
    /// Plan the scans, and exhaust their metadata.
    ExhaustScanMetadata,
}

/// What is validated before and after a load.
#[derive(Debug, Clone, Copy, PartialEq, Eq, Structural)]
pub struct ValidationOptions {
    require_successful_planning: bool,
    dry_run_scan_summary_mode: DryRunScanSummaryMode,
}

impl ValidationOptions {
    /// Whether planning has to succeed.
    pub closed spec fn requires_planning(self) -> bool {
        self.require_successful_planning
    }

    /// How much a dry run learns about source scans.
    pub closed spec fn scan_summary(self) -> DryRunScanSummaryMode {
        self.dry_run_scan_summary_mode
    }

    /// Planning has to succeed, and dry runs plan no scan.
    pub fn new() -> (r: Self)
        ensures
            r.requires_planning(),
            r.scan_summary() == DryRunScanSummaryMode::MetadataOnly,
    {
        ValidationOptions {
            require_successful_planning: true,
            dry_run_scan_summary_mode: DryRunScanSummaryMode::MetadataOnly,
        }
    }

    /// Sets how much a dry run learns about source scans.
    pub fn with_dry_run_scan_summary_mode(self, mode: DryRunScanSummaryMode) -> (r: Self)
        ensures
            r.requires_planning() == self.requires_planning(),
            r.scan_summary() == mode,
    {
        ValidationOptions {
            require_successful_planning: self.require_successful_planning,
            dry_run_scan_summary_mode: mode,
        }
    }

    /// Tells whether planning has to succeed.
    pub fn require_successful_planning(&self) -> (r: bool)
        ensures
            r == self.requires_planning(),
    {
        self.require_successful_planning
    }

    /// Returns how much a dry run learns about source scans.
    pub fn dry_run_scan_summary_mode(&self) -> (r: DryRunScanSummaryMode)
        ensures
            r == self.scan_summary(),
    {
        self.dry_run_scan_summary_mode
    }

    /// Accepts every combination that can be built.
    pub fn validate(&self) -> (r: Result<(), DeltaFunnelError>)
        ensures
            r is Ok,
    {
        Ok(())
    }
}

/// What session options say.
pub struct SessionOptionsView {
    pub query_options: QueryOptions,
    pub provider_scan_options: ScanOptionsView,
    pub provider_file_repartitioning: IntraFileRepartitioning,
    pub provider_use_view_types: bool,
    pub mssql_schema_options: MssqlSchemaPlanOptions,
    pub mssql_write_backend: MssqlWriteBackend,
    pub mssql_workflow_options: MssqlWorkflowWriteOptions,
    pub validation_options: ValidationOptions,
    pub default_mssql_connection: Option<ConnectionView>,
}

/// Session-wide options for lazy query-load orchestration.
pub struct SessionOptions {
    query_options: QueryOptions,
    provider_scan_options: DeltaScanExecutionOptions,
    provider_file_repartitioning: IntraFileRepartitioning,
    provider_use_view_types: bool,
    mssql_schema_options: MssqlSchemaPlanOptions,
    mssql_write_backend: MssqlWriteBackend,
    mssql_workflow_options: MssqlWorkflowWriteOptions,
    validation_options: ValidationOptions,
    default_mssql_connection: Option<MssqlConnectionConfig>,
}

impl View for SessionOptions {
    type V = SessionOptionsView;

    closed spec fn view(&self) -> SessionOptionsView {
        SessionOptionsView {
            query_options: self.query_options,
            provider_scan_options: self.provider_scan_options@,
            provider_file_repartitioning: self.provider_file_repartitioning,
            provider_use_view_types: self.provider_use_view_types,
            mssql_schema_options: self.mssql_schema_options,
            mssql_write_backend: self.mssql_write_backend,
            mssql_workflow_options: self.mssql_workflow_options,
            validation_options: self.validation_options,
            default_mssql_connection: match self.default_mssql_connection {
                Some(connection) => Some(connection@),
                None => None,
            },
        }
    }
}

/// The options that a session starts from.
pub open spec fn is_default_session_options(options: SessionOptionsView) -> bool {
    &&& options.query_options == (QueryOptions { target_partitions: None, output_batch_size: None })
    &&& options.provider_scan_options == default_scan_options()
    &&& options.provider_file_repartitioning == IntraFileRepartitioning::WhenBelowTarget
    &&& !options.provider_use_view_types
    &&& options.mssql_schema_options == MssqlSchemaPlanOptions
    &&& options.mssql_write_backend == MssqlWriteBackend::BulkLoad
    &&& options.mssql_workflow_options.parallel_outputs() == 1
    &&& options.validation_options.requires_planning()
    &&& options.validation_options.scan_summary() == DryRunScanSummaryMode::MetadataOnly
    &&& options.default_mssql_connection is None
}

/// What is wrong with session options: query options are looked at first, then the workflow.
pub open spec fn session_options_problem(options: SessionOptionsView) -> Option<ErrorView> {
    match query_options_problem(options.query_options) {
        Some(problem) => Some(problem),
        None => workflow_options_problem(options.mssql_workflow_options.parallel_outputs()),
    }
}

/// The debug form of query options.
pub open spec fn query_options_debug(options: QueryOptions) -> Seq<char> {
    braced(
        "QueryOptions"@,
        seq![
            named("target_partitions"@, optional_number(options.target_partitions)),
            named("output_batch_size"@, optional_number(options.output_batch_size)),
        ],
    )
}

fn query_options_debug_text(options: QueryOptions) -> (r: String)
    ensures
        r@ == query_options_debug(options),
{
    let partitions = optional_number_text(options.target_partitions);
    let batch_size = optional_number_text(options.output_batch_size);
    let mut fields: Vec<String> = Vec::new();
    fields.push(named_text("target_partitions", partitions.as_str()));
    fields.push(named_text("output_batch_size", batch_size.as_str()));
    assert(views(fields@) =~= seq![fields@[0]@, fields@[1]@]);
    braced_text("QueryOptions", &fields)
}

/// The debug form of options for writing several outputs.
pub open spec fn workflow_options_debug(options: MssqlWorkflowWriteOptions) -> Seq<char> {
    braced(
        "MssqlWorkflowWriteOptions"@,
        seq![named("max_parallel_outputs"@, decimal(options.parallel_outputs() as nat))],
    )
}

fn workflow_options_debug_text(options: MssqlWorkflowWriteOptions) -> (r: String)
    ensures
        r@ == workflow_options_debug(options),
{
    let outputs = decimal_text(options.max_parallel_outputs() as u64);
    let mut fields: Vec<String> = Vec::new();
    fields.push(named_text("max_parallel_outputs", outputs.as_str()));
    assert(views(fields@) =~= seq![fields@[0]@]);
    braced_text("MssqlWorkflowWriteOptions", &fields)
}

/// The debug form of how much a dry run learns.
pub open spec fn scan_summary_debug(mode: DryRunScanSummaryMode) -> Seq<char> {
    match mode {
        DryRunScanSummaryMode::MetadataOnly => "MetadataOnly"@,
        DryRunScanSummaryMode::ExhaustScanMetadata => "ExhaustScanMetadata"@,
    }
}

/// The debug form of validation options.
pub open spec fn validation_options_debug(options: ValidationOptions) -> Seq<char> {
    braced(
        "ValidationOptions"@,
        seq![
            named("require_successful_planning"@, truth(options.requires_planning())),
            named("dry_run_scan_summary_mode"@, scan_summary_debug(options.scan_summary())),
        ],
    )
}

fn validation_options_debug_text(options: ValidationOptions) -> (r: String)
    ensures
        r@ == validation_options_debug(options),
{
    let mode = match options.dry_run_scan_summary_mode() {
        DryRunScanSummaryMode::MetadataOnly => "MetadataOnly",
        DryRunScanSummaryMode::ExhaustScanMetadata => "ExhaustScanMetadata",
    };
    let planning = truth_text(options.require_successful_planning());
    let mut fields: Vec<String> = Vec::new();
    fields.push(named_text("require_successful_planning", planning));
    fields.push(named_text("dry_run_scan_summary_mode", mode));
    assert(views(fields@) =~= seq![fields@[0]@, fields@[1]@]);
    braced_text("ValidationOptions", &fields)
}

/// The debug form of how rows reach SQL Server.
pub open spec fn backend_debug(backend: MssqlWriteBackend) -> Seq<char> {
    match backend {
        MssqlWriteBackend::BulkLoad => "BulkLoad"@,
    }
}

/// The debug form of a default connection: its summary alone.
pub open spec fn default_connection_debug(connection: Option<ConnectionView>) -> Seq<char> {
    match connection {
        Some(connection) => optional(
            Some(quoted_text(connection_summary(connection.display_label))),
        ),
        None => optional(None),
    }
}

/// The debug form of session options. Of the default connection it shows the summary alone.
pub open spec fn session_options_debug(options: SessionOptionsView) -> Seq<char> {
    braced(
        "SessionOptions"@,
        seq![
            named("query_options"@, query_options_debug(options.query_options)),
            named("provider_scan_options"@, scan_options_debug(options.provider_scan_options)),
            named(
                "provider_file_repartitioning"@,
                repartitioning_debug(options.provider_file_repartitioning),
            ),
            named("provider_use_view_types"@, truth(options.provider_use_view_types)),
            named("mssql_schema_options"@, "MssqlSchemaPlanOptions"@),
            named("mssql_write_backend"@, backend_debug(options.mssql_write_backend)),
            named("mssql_workflow_options"@, workflow_options_debug(options.mssql_workflow_options)),
            named("validation_options"@, validation_options_debug(options.validation_options)),
            named(
                "default_mssql_connection"@,
                default_connection_debug(options.default_mssql_connection),
            ),
        ],
    )
}

impl Default for SessionOptions {
    fn default() -> (r: Self)
        ensures
            is_default_session_options(r@),
    {
        SessionOptions {
            query_options: QueryOptions { target_partitions: None, output_batch_size: None },
            provider_scan_options: DeltaScanExecutionOptions::new(),
            provider_file_repartitioning: IntraFileRepartitioning::WhenBelowTarget,
            provider_use_view_types: false,
            mssql_schema_options: MssqlSchemaPlanOptions,
            mssql_write_backend: MssqlWriteBackend::BulkLoad,
            mssql_workflow_options: MssqlWorkflowWriteOptions::new(),
            validation_options: ValidationOptions::new(),
            default_mssql_connection: None,
        }
    }
}

impl SessionOptions {
    /// Creates default session options.
    pub fn new() -> (r: Self)
        ensures
            is_default_session_options(r@),
    {
        Self::default()
    }

    /// Sets query execution options.
    pub fn with_query_options(self, query_options: QueryOptions) -> (r: Self)
        ensures
            r@ == (SessionOptionsView { query_options, ..self@ }),
    {
        let mut r = self;
        r.query_options = query_options;
        r
    }

    /// Sets Delta provider scan execution options.
    pub fn with_provider_scan_options(
        self,
        provider_scan_options: DeltaScanExecutionOptions,
    ) -> (r: Self)
        ensures
            r@ == (SessionOptionsView { provider_scan_options: provider_scan_options@, ..self@ }),
    {
        let mut r = self;
        r.provider_scan_options = provider_scan_options;
        r
    }

    /// Sets when Delta providers may split files into ranged scan tasks.
    pub fn with_provider_file_repartitioning(
        self,
        file_repartitioning: IntraFileRepartitioning,
    ) -> (r: Self)
        ensures
            r@ == (SessionOptionsView {
                provider_file_repartitioning: file_repartitioning,
                ..self@
            }),
    {
        let mut r = self;
        r.provider_file_repartitioning = file_repartitioning;
        r
    }

    /// Selects view arrays for Delta provider string and binary columns.
    pub fn with_provider_use_view_types(self, use_view_types: bool) -> (r: Self)
        ensures
            r@ == (SessionOptionsView { provider_use_view_types: use_view_types, ..self@ }),
    {
        let mut r = self;
        r.provider_use_view_types = use_view_types;
        r
    }

    /// Sets SQL Server schema planning options.
    pub fn with_mssql_schema_options(self, mssql_schema_options: MssqlSchemaPlanOptions) -> (r: Self)
        ensures
            r@ == (SessionOptionsView { mssql_schema_options, ..self@ }),
    {
        let mut r = self;
        r.mssql_schema_options = mssql_schema_options;
        r
    }

    /// Sets the SQL Server write backend.
    pub fn with_mssql_write_backend(self, mssql_write_backend: MssqlWriteBackend) -> (r: Self)
        ensures
            r@ == (SessionOptionsView { mssql_write_backend, ..self@ }),
    {
        let mut r = self;
        r.mssql_write_backend = mssql_write_backend;
        r
    }

    /// Sets multi-output workflow options.
    pub fn with_mssql_workflow_options(
        self,
        mssql_workflow_options: MssqlWorkflowWriteOptions,
    ) -> (r: Self)
        ensures
            r@ == (SessionOptionsView { mssql_workflow_options, ..self@ }),
    {
        let mut r = self;
        r.mssql_workflow_options = mssql_workflow_options;
        r
    }

    /// Sets locally checkable validation options.
    pub fn with_validation_options(self, validation_options: ValidationOptions) -> (r: Self)
        ensures
            r@ == (SessionOptionsView { validation_options, ..self@ }),
    {
        let mut r = self;
        r.validation_options = validation_options;
        r
    }

    /// Sets the session-level default SQL Server connection.
    pub fn with_default_mssql_connection(
        self,
        default_mssql_connection: MssqlConnectionConfig,
    ) -> (r: Self)
        ensures
            r@ == (SessionOptionsView {
                default_mssql_connection: Some(default_mssql_connection@),
                ..self@
            }),
    {
        let mut r = self;
        r.default_mssql_connection = Some(default_mssql_connection);
        r
    }

    /// Returns query execution options.
    pub fn query_options(&self) -> (r: QueryOptions)
        ensures
            r == self@.query_options,
    {
        self.query_options
    }

    /// Returns Delta provider scan execution options.
    pub fn provider_scan_options(&self) -> (r: DeltaScanExecutionOptions)
        ensures
            r@ == self@.provider_scan_options,
    {
        self.provider_scan_options
    }

    /// Returns when Delta providers may split files into ranged scan tasks.
    pub fn provider_file_repartitioning(&self) -> (r: IntraFileRepartitioning)
        ensures
            r == self@.provider_file_repartitioning,
    {
        self.provider_file_repartitioning
    }

    /// Returns whether Delta providers use view arrays for string and binary columns.
    pub fn provider_use_view_types(&self) -> (r: bool)
        ensures
            r == self@.provider_use_view_types,
    {
        self.provider_use_view_types
    }

    /// Returns SQL Server schema planning options.
    pub fn mssql_schema_options(&self) -> (r: MssqlSchemaPlanOptions)
        ensures
            r == self@.mssql_schema_options,
    {
        self.mssql_schema_options
    }

    /// Returns the SQL Server write backend.
    pub fn mssql_write_backend(&self) -> (r: MssqlWriteBackend)
        ensures
            r == self@.mssql_write_backend,
    {
        self.mssql_write_backend
    }

    /// Returns multi-output workflow options.
    pub fn mssql_workflow_options(&self) -> (r: MssqlWorkflowWriteOptions)
        ensures
            r == self@.mssql_workflow_options,
    {
        self.mssql_workflow_options
    }

    /// Returns locally checkable validation options.
    pub fn validation_options(&self) -> (r: ValidationOptions)
        ensures
            r == self@.validation_options,
    {
        self.validation_options
    }

    /// Returns the optional session-level default SQL Server connection.
    pub fn default_mssql_connection(&self) -> (r: Option<&MssqlConnectionConfig>)
        ensures
            match r {
                Some(connection) => self@.default_mssql_connection == Some(connection@),
                None => self@.default_mssql_connection is None,
            },
    {
        match &self.default_mssql_connection {
            Some(connection) => Some(connection),
            None => None,
        }
    }

    /// Validates local options before workflow side effects.
    pub fn validate(&self) -> (r: Result<(), DeltaFunnelError>)
        ensures
            reports(r, session_options_problem(self@)),
    {
        match self.query_options.validate() {
            Ok(_) => {},
            Err(e) => {
                return Err(e);
            },
        }
        match self.mssql_workflow_options.validate() {
            Ok(_) => {},
            Err(e) => {
                return Err(e);
            },
        }
        self.validation_options.validate()
    }

    /// Returns the debug form; it shows no connection string.
    pub fn debug_text(&self) -> (r: String)
        ensures
            r@ == session_options_debug(self@),
    {
        let query = query_options_debug_text(self.query_options);
        let scan = self.provider_scan_options.debug_text();
        let workflow = workflow_options_debug_text(self.mssql_workflow_options);
        let validation = validation_options_debug_text(self.validation_options);
        let backend = match self.mssql_write_backend {
            MssqlWriteBackend::BulkLoad => "BulkLoad",
        };
        let connection = match &self.default_mssql_connection {
            Some(connection) => some_text(quoted(connection.summary()).as_str()),
            None => "None".to_owned(),
        };
        let mut fields: Vec<String> = Vec::new();
        fields.push(named_text("query_options", query.as_str()));
        fields.push(named_text("provider_scan_options", scan.as_str()));
        fields.push(
            named_text(
                "provider_file_repartitioning",
                self.provider_file_repartitioning.debug_text(),
            ),
        );
        fields.push(
            named_text("provider_use_view_types", truth_text(self.provider_use_view_types)),
        );
        fields.push(named_text("mssql_schema_options", "MssqlSchemaPlanOptions"));
        fields.push(named_text("mssql_write_backend", backend));
        fields.push(named_text("mssql_workflow_options", workflow.as_str()));
        fields.push(named_text("validation_options", validation.as_str()));
        fields.push(named_text("default_mssql_connection", connection.as_str()));
        assert(views(fields@) =~= seq![
            fields@[0]@,
            fields@[1]@,
            fields@[2]@,
            fields@[3]@,
            fields@[4]@,
            fields@[5]@,
            fields@[6]@,
            fields@[7]@,
            fields@[8]@,
        ]);
        braced_text("SessionOptions", &fields)
    }
}

/// A configuration follows the query options that are set, and the engine's batch size where
/// none is set.
pub open spec fn config_follows(config: SessionConfig, options: QueryOptions) -> bool {
    &&& options.target_partitions matches Some(n) ==> config_target_partitions(config) == n
    &&& config_batch_size(config) == (match options.output_batch_size {
        Some(n) => n,
        None => 8192,
    })
}

/// Makes the query context for valid query options.
pub fn datafusion_session_context(options: QueryOptions) -> (r: Result<
    SessionContext,
    DeltaFunnelError,
>)
    ensures
        match query_options_problem(options) {
            None => r matches Ok(context) && config_follows(context_config(context), options),
            Some(problem) => r matches Err(e) && e@ == problem,
        },
{
    match options.validate() {
        Ok(_) => {},
        Err(e) => {
            return Err(e);
        },
    }
    let mut config = SessionConfig::new();
    match options.target_partitions {
        Some(n) => {
            config = config.with_target_partitions(n);
        },
        None => {},
    }
    match options.output_batch_size {
        Some(n) => {
            config = config.with_batch_size(n);
        },
        None => {},
    }
    Ok(SessionContext::new_with_config(config))
}

/// Every pair of positive query options passes validation.
pub proof fn positive_query_options_are_valid(options: QueryOptions)
    requires
        options.target_partitions matches Some(n) ==> n > 0,
        options.output_batch_size matches Some(n) ==> n > 0,
    ensures
        query_options_problem(options) is None,
{
}

/// The debug form of session options is the same for every connection string.
pub proof fn session_options_debug_hides_connection_string(
    options: SessionOptionsView,
    connection: ConnectionView,
    other: ConnectionView,
)
    requires
        connection.display_label == other.display_label,
    ensures
        session_options_debug(
            SessionOptionsView { default_mssql_connection: Some(connection), ..options },
        ) == session_options_debug(
            SessionOptionsView { default_mssql_connection: Some(other), ..options },
        ),
{
}

} // verus!
