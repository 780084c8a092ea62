//! Which Delta sources the selected outputs read.

use vstd::prelude::*;

use crate::cache_plan::table_lineage;
use crate::dependencies::{depends_on, lineage_with_id, reached_derived_ids};
use crate::errors::{DeltaFunnelError, unknown_lazy_table};
use crate::execution::{DeltaProviderReadStatsSnapshot, ProviderSnapshotView};
use crate::handles::{
    LazyTable, LazyTableKind, LazyTableView, OutputWritePlan, OutputWritePlanView,
};
use crate::lineage::{DerivedTableLineage, LineageView, names_source};
use crate::registry::{
    DeltaProtocolReport, DerivedView, ProtocolView, RegisteredDerivedTable, SourceView,
    find_derived_by_id, find_pending_by_id,
};
use crate::report::{FileCount, ReportReasonCode, opt_view, views, views_push};
use crate::routes::known_tables;
use crate::session::{DeltaFunnelSession, SessionView, known_schema};
use crate::text::texts_equal;

verus! {

/// Whether a source is read.
#[derive(Debug, Clone, Copy, PartialEq, Eq, Structural)]
pub enum SourceUsageStatus {
    /// At least one read of the source is known.
    Used,
    /// It is known that nothing reads the source.
    NotUsed,
    /// Lineage is missing, so nothing can be said.
    Unknown,
}

/// A registered alias has complete lineage.
pub open spec fn has_complete_lineage(derived: Seq<DerivedView>, id: u64) -> bool {
    lineage_with_id(derived, id) matches Some(lineage) && lineage is Complete
}

/// All that a lineage leads to is known: the lineage itself and that of every alias that it
/// reaches are complete.
pub open spec fn reads_are_known(derived: Seq<DerivedView>, start: LineageView) -> bool {
    &&& start is Complete
    &&& forall|id: u64| #[trigger]
        depends_on(derived, start, id) ==> has_complete_lineage(derived, id)
}

/// A registered alias names a source.
pub open spec fn alias_names_source(derived: Seq<DerivedView>, id: u64, source_id: u64) -> bool {
    lineage_with_id(derived, id) matches Some(lineage) && names_source(lineage, source_id)
}

/// A lineage reads a source: it names the source, or reaches an alias that does.
pub open spec fn reads_source(derived: Seq<DerivedView>, start: LineageView, source_id: u64) -> bool {
    ||| names_source(start, source_id)
    ||| exists|id: u64| #[trigger]
        depends_on(derived, start, id) && alias_names_source(derived, id, source_id)
}

/// The sources that a table reads are known.
pub open spec fn usage_is_known(session: SessionView, table: LazyTableView) -> bool {
    match table.kind {
        LazyTableKind::DeltaSource => true,
        LazyTableKind::DerivedSql => table_lineage(known_tables(session), table.id) matches Some(
            lineage,
        ) && reads_are_known(session.derived, lineage),
    }
}

/// A table reads a source.
pub open spec fn table_reads(session: SessionView, table: LazyTableView, source_id: u64) -> bool {
    match table.kind {
        LazyTableKind::DeltaSource => table.id == source_id,
        LazyTableKind::DerivedSql => table_lineage(known_tables(session), table.id) matches Some(
            lineage,
        ) && reads_source(session.derived, lineage, source_id),
    }
}

/// The names, among the first `n` sources, of those that a table reads.
pub open spec fn read_source_names(session: SessionView, table: LazyTableView, n: nat) -> Seq<
    Seq<char>,
>
    decreases n,
{
    if n == 0 {
        seq![]
    } else {
        let before = read_source_names(session, table, (n - 1) as nat);
        if table_reads(session, table, session.sources[n - 1].table.id) {
            before.push(session.sources[n - 1].table.name)
        } else {
            before
        }
    }
}

/// What can be said about the sources of a table: their names in registration order, where
/// lineage tells.
pub open spec fn source_usage(session: SessionView, table: LazyTableView) -> (
    SourceUsageStatus,
    Seq<Seq<char>>,
) {
    let names = read_source_names(session, table, session.sources.len());
    if !usage_is_known(session, table) {
        (SourceUsageStatus::Unknown, seq![])
    } else if names.len() == 0 {
        (SourceUsageStatus::NotUsed, names)
    } else {
        (SourceUsageStatus::Used, names)
    }
}

/// A lineage with all the aliases that it reaches.
struct ReachedLineage<'a> {
    start: &'a DerivedTableLineage,
    reached: Vec<u64>,
}

impl<'a> ReachedLineage<'a> {
    spec fn belongs(self, derived: Seq<DerivedView>) -> bool {
        forall|id: u64| self.reached@.contains(id) <==> depends_on(derived, self.start@, id)
    }

    fn is_known(&self, derived: &Vec<RegisteredDerivedTable>) -> (r: bool)
        requires
            self.belongs(views(derived@)),
        ensures
            r == reads_are_known(views(derived@), self.start@),
    {
        let ghost all = views(derived@);
        if !self.start.is_complete() {
            return false;
        }
        let mut i: usize = 0;
        while i < self.reached.len()
            invariant
                i <= self.reached.len(),
                all == views(derived@),
                self.belongs(all),
                forall|k: int| 0 <= k < i ==> has_complete_lineage(all, #[trigger] self.reached@[k]),
            decreases self.reached.len() - i,
        {
            let id: u64 = self.reached[i];
            assert(self.reached@.contains(id));
            match find_derived_by_id(derived, id) {
                Some(d) => {
                    assert(all[d as int] == derived@[d as int]@);
                    if !derived[d].lineage().is_complete() {
                        assert(depends_on(all, self.start@, id));
                        return false;
                    }
                },
                None => {
                    assert(depends_on(all, self.start@, id));
                    return false;
                },
            }
            i += 1;
        }
        assert forall|id: u64| #[trigger] depends_on(all, self.start@, id) implies has_complete_lineage(
            all,
            id,
        ) by {
            assert(self.reached@.contains(id));
        }
        true
    }

    fn reads(&self, derived: &Vec<RegisteredDerivedTable>, source_id: u64) -> (r: bool)
        requires
            self.belongs(views(derived@)),
        ensures
            r == reads_source(views(derived@), self.start@, source_id),
    {
        let ghost all = views(derived@);
        if self.start.names_source_id(source_id) {
            return true;
        }
        let mut i: usize = 0;
        while i < self.reached.len()
            invariant
                i <= self.reached.len(),
                all == views(derived@),
                self.belongs(all),
                !names_source(self.start@, source_id),
                forall|k: int|
                    0 <= k < i ==> !alias_names_source(all, #[trigger] self.reached@[k], source_id),
            decreases self.reached.len() - i,
        {
            let id: u64 = self.reached[i];
            assert(self.reached@.contains(id));
            match find_derived_by_id(derived, id) {
                Some(d) => {
                    assert(all[d as int] == derived@[d as int]@);
                    if derived[d].lineage().names_source_id(source_id) {
                        assert(depends_on(all, self.start@, id) && alias_names_source(
                            all,
                            id,
                            source_id,
                        ));
                        return true;
                    }
                },
                None => {},
            }
            i += 1;
        }
        assert forall|id: u64| #[trigger]
            depends_on(all, self.start@, id) implies !alias_names_source(all, id, source_id) by {
            assert(self.reached@.contains(id));
        }
        false
    }
}

/// The first counters that were taken for a source.
pub open spec fn stats_of_source(stats: Seq<ProviderSnapshotView>, name: Seq<char>) -> Option<
    ProviderSnapshotView,
>
    decreases stats.len(),
{
    if stats.len() == 0 {
        None
    } else {
        match stats_of_source(stats.drop_last(), name) {
            Some(found) => Some(found),
            None => if stats.last().source_name == name {
                Some(stats.last())
            } else {
                None
            },
        }
    }
}

proof fn stats_of_source_stay(stats: Seq<ProviderSnapshotView>, name: Seq<char>, n: int)
    requires
        0 <= n <= stats.len(),
        stats_of_source(stats.take(n), name) is Some,
    ensures
        stats_of_source(stats, name) == stats_of_source(stats.take(n), name),
    decreases stats.len() - n,
{
    if n < stats.len() {
        assert(stats.take(n + 1).drop_last() =~= stats.take(n));
        stats_of_source_stay(stats, name, n + 1);
    } else {
        assert(stats.take(n) =~= stats);
    }
}

/// Finds the first counters that were taken for a source.
fn find_stats_of_source(stats: &Vec<DeltaProviderReadStatsSnapshot>, name: &str) -> (r: Option<
    DeltaProviderReadStatsSnapshot,
>)
    ensures
        opt_view(r) == stats_of_source(views(stats@), name@),
{
    let ghost all = views(stats@);
    let mut i: usize = 0;
    assert(stats_of_source(all.take(0), name@) is None);
    while i < stats.len()
        invariant
            i <= stats.len(),
            all == views(stats@),
            stats_of_source(all.take(i as int), name@) is None,
        decreases stats.len() - i,
    {
        proof {
            assert(all.take(i + 1).drop_last() =~= all.take(i as int));
            assert(all.take(i + 1).last() == stats@[i as int]@);
        }
        if texts_equal(stats[i].source_name.as_str(), name) {
            proof {
                stats_of_source_stay(all, name@, i + 1);
            }
            return Some(stats[i].clone());
        }
        i += 1;
    }
    assert(all.take(all.len() as int) =~= all);
    None
}

/// How many files a source has, by the counters that were taken for it: all of them, where the
/// scan has planned every file.
pub open spec fn counted_files(stats: Option<ProviderSnapshotView>) -> FileCount {
    match stats {
        Some(stats) => match stats.scan_metadata_exhausted {
            Some(true) => FileCount::Exact(stats.files_planned),
            Some(false) => FileCount::Estimated(stats.files_planned),
            None => FileCount::Unavailable,
        },
        None => FileCount::Unavailable,
    }
}

/// Why the files of a source were not counted, where they were not.
pub open spec fn uncounted_reason(stats: Option<ProviderSnapshotView>) -> Option<ReportReasonCode> {
    match stats {
        Some(stats) => if stats.scan_metadata_exhausted is None {
            Some(ReportReasonCode::CapabilityUnavailable)
        } else {
            None
        },
        None => Some(ReportReasonCode::CostAvoidance),
    }
}

/// A scan has planned all files of a source.
pub open spec fn all_files_planned(stats: Option<ProviderSnapshotView>) -> bool {
    stats matches Some(stats) && stats.scan_metadata_exhausted == Some(true)
}

/// What a source report says.
pub struct SourceReportView {
    pub source_name: Seq<char>,
    pub source_uri: Seq<char>,
    pub snapshot_version: u64,
    pub protocol: ProtocolView,
    pub scheduling: SourceSchedulingReport,
    pub usage_status: SourceUsageStatus,
    pub used_by_output_names: Seq<Seq<char>>,
    pub provider_read_stats: Option<ProviderSnapshotView>,
}

/// How the scans of a source are scheduled.
#[derive(Debug, Clone, Copy, PartialEq, Eq, Structural)]
pub struct SourceSchedulingReport {
    query_target_partitions: Option<usize>,
}

impl SourceSchedulingReport {
    /// The number of partitions that was set for query execution.
    pub closed spec fn target_partitions(self) -> Option<usize> {
        self.query_target_partitions
    }

    /// Scheduling with a number of partitions, or with the engine's default.
    pub closed spec fn with_partitions(query_target_partitions: Option<usize>) -> Self {
        SourceSchedulingReport { query_target_partitions }
    }

    /// Returns the number of partitions that was set for query execution.
    pub fn query_target_partitions(&self) -> (r: Option<usize>)
        ensures
            r == self.target_partitions(),
    {
        self.query_target_partitions
    }
}

/// Scheduling keeps the number of partitions that it was made with.
pub proof fn scheduling_keeps_the_partitions(query_target_partitions: Option<usize>)
    ensures
        SourceSchedulingReport::with_partitions(query_target_partitions).target_partitions()
            == query_target_partitions,
{
}

/// Report of one registered source in a workflow.
pub struct DeltaSourceReport {
    source_name: String,
    source_uri: String,
    snapshot_version: u64,
    protocol: DeltaProtocolReport,
    scheduling: SourceSchedulingReport,
    usage_status: SourceUsageStatus,
    used_by_output_names: Vec<String>,
    provider_read_stats: Option<DeltaProviderReadStatsSnapshot>,
}

impl View for DeltaSourceReport {
    type V = SourceReportView;

    closed spec fn view(&self) -> SourceReportView {
        SourceReportView {
            source_name: self.source_name@,
            source_uri: self.source_uri@,
            snapshot_version: self.snapshot_version,
            protocol: self.protocol@,
            scheduling: self.scheduling,
            usage_status: self.usage_status,
            used_by_output_names: views(self.used_by_output_names@),
            provider_read_stats: opt_view(self.provider_read_stats),
        }
    }
}

impl DeltaSourceReport {
    /// Returns the source alias.
    pub fn source_name(&self) -> (r: &str)
        ensures
            r@ == self@.source_name,
    {
        self.source_name.as_str()
    }

    /// Returns the sanitized source URI.
    pub fn source_uri(&self) -> (r: &str)
        ensures
            r@ == self@.source_uri,
    {
        self.source_uri.as_str()
    }

    /// Returns the resolved snapshot version.
    pub fn snapshot_version(&self) -> (r: u64)
        ensures
            r == self@.snapshot_version,
    {
        self.snapshot_version
    }

    /// Returns the protocol report.
    pub fn protocol(&self) -> (r: &DeltaProtocolReport)
        ensures
            r@ == self@.protocol,
    {
        &self.protocol
    }

    /// Returns whether the source is read.
    pub fn usage_status(&self) -> (r: SourceUsageStatus)
        ensures
            r == self@.usage_status,
    {
        self.usage_status
    }

    /// Returns the names of the outputs that read the source.
    pub fn used_by_output_names(&self) -> (r: &Vec<String>)
        ensures
            views(r@) == self@.used_by_output_names,
    {
        &self.used_by_output_names
    }

    /// Returns how the scans of the source are scheduled.
    pub fn scheduling(&self) -> (r: SourceSchedulingReport)
        ensures
            r == self@.scheduling,
    {
        self.scheduling
    }

    /// Returns the counters of a scan of the source, where there was one.
    pub fn provider_read_stats(&self) -> (r: Option<&DeltaProviderReadStatsSnapshot>)
        ensures
            match r {
                Some(stats) => self@.provider_read_stats == Some(stats@),
                None => self@.provider_read_stats is None,
            },
    {
        match &self.provider_read_stats {
            Some(stats) => Some(stats),
            None => None,
        }
    }

    /// Returns why there are no counters, where there are none.
    pub fn provider_stats_reason(&self) -> (r: Option<ReportReasonCode>)
        ensures
            r == (match self@.provider_read_stats {
                Some(_) => None,
                None => Some(ReportReasonCode::NotExecuted),
            }),
    {
        match &self.provider_read_stats {
            Some(_) => None,
            None => Some(ReportReasonCode::NotExecuted),
        }
    }

    /// Returns how many files the source has.
    pub fn file_count(&self) -> (r: FileCount)
        ensures
            r == counted_files(self@.provider_read_stats),
    {
        match &self.provider_read_stats {
            Some(stats) => match stats.scan_metadata_exhausted {
                Some(true) => FileCount::exact(stats.files_planned),
                Some(false) => FileCount::estimated(stats.files_planned),
                None => FileCount::unavailable(),
            },
            None => FileCount::unavailable(),
        }
    }

    /// Returns why the files were not counted, where they were not.
    pub fn file_count_reason(&self) -> (r: Option<ReportReasonCode>)
        ensures
            r == uncounted_reason(self@.provider_read_stats),
    {
        match &self.provider_read_stats {
            Some(stats) => match stats.scan_metadata_exhausted {
                Some(_) => None,
                None => Some(ReportReasonCode::CapabilityUnavailable),
            },
            None => Some(ReportReasonCode::CostAvoidance),
        }
    }

    /// Tells whether a scan has planned all files of the source.
    pub fn scan_metadata_exhausted(&self) -> (r: bool)
        ensures
            r == all_files_planned(self@.provider_read_stats),
    {
        match &self.provider_read_stats {
            Some(stats) => match stats.scan_metadata_exhausted {
                Some(exhausted) => exhausted,
                None => false,
            },
            None => false,
        }
    }
}

/// The names, among the first `n` outputs, of those that are known to read a source.
pub open spec fn reading_outputs(
    session: SessionView,
    outputs: Seq<OutputWritePlanView>,
    source_id: u64,
    n: nat,
) -> Seq<Seq<char>>
    decreases n,
{
    if n == 0 {
        seq![]
    } else {
        let before = reading_outputs(session, outputs, source_id, (n - 1) as nat);
        let output = outputs[n - 1];
        if usage_is_known(session, output.table) && table_reads(session, output.table, source_id) {
            before.push(output.target.output_name)
        } else {
            before
        }
    }
}

/// The reads of the first `n` outputs are all known.
pub open spec fn all_usage_is_known(
    session: SessionView,
    outputs: Seq<OutputWritePlanView>,
    n: nat,
) -> bool {
    forall|i: int| 0 <= i < n ==> usage_is_known(session, (#[trigger] outputs[i]).table)
}

/// The report of a source: it is used where an output is known to read it, and unknown where
/// none is but the reads of some output are not known.
pub open spec fn source_report(
    session: SessionView,
    source: SourceView,
    outputs: Seq<OutputWritePlanView>,
    stats: Seq<ProviderSnapshotView>,
) -> SourceReportView {
    let readers = reading_outputs(session, outputs, source.table.id, outputs.len());
    SourceReportView {
        source_name: source.table.name,
        source_uri: source.source_uri,
        snapshot_version: source.snapshot_version,
        protocol: source.protocol,
        scheduling: SourceSchedulingReport::with_partitions(
            session.options.query_options.target_partitions,
        ),
        usage_status: if readers.len() > 0 {
            SourceUsageStatus::Used
        } else if all_usage_is_known(session, outputs, outputs.len()) {
            SourceUsageStatus::NotUsed
        } else {
            SourceUsageStatus::Unknown
        },
        used_by_output_names: readers,
        provider_read_stats: stats_of_source(stats, source.table.name),
    }
}

/// The reports of all sources, in registration order.
pub open spec fn source_reports(
    session: SessionView,
    outputs: Seq<OutputWritePlanView>,
    stats: Seq<ProviderSnapshotView>,
) -> Seq<SourceReportView> {
    Seq::new(
        session.sources.len(),
        |i: int| source_report(session, session.sources[i], outputs, stats),
    )
}

/// The reports of all sources while no output is selected: nothing is known of their use.
pub open spec fn unselected_source_reports(session: SessionView) -> Seq<SourceReportView> {
    Seq::new(
        session.sources.len(),
        |i: int|
            SourceReportView {
                usage_status: SourceUsageStatus::Unknown,
                ..source_report(session, session.sources[i], seq![], seq![])
            },
    )
}

impl DeltaFunnelSession {
    /// Reports every registered source while no output is selected.
    pub fn source_reports(&self) -> (r: Vec<DeltaSourceReport>)
        ensures
            views(r@) == unselected_source_reports(self@),
    {
        let ghost wanted = unselected_source_reports(self@);
        let sources = self.sources();
        let mut r: Vec<DeltaSourceReport> = Vec::new();
        let mut i: usize = 0;
        assert(views(r@) =~= wanted.take(0));
        while i < sources.len()
            invariant
                i <= sources.len(),
                wanted == unselected_source_reports(self@),
                views(sources@) == self@.sources,
                views(r@) == wanted.take(i as int),
            decreases sources.len() - i,
        {
            let source = &sources[i];
            assert(self@.sources[i as int] == source@);
            let readers: Vec<String> = Vec::new();
            assert(views(readers@) =~= seq![]);
            let report = DeltaSourceReport {
                source_name: source.name().to_owned(),
                source_uri: source.source_uri().to_owned(),
                snapshot_version: source.snapshot_version(),
                protocol: source.protocol().clone(),
                scheduling: self.source_scheduling(),
                usage_status: SourceUsageStatus::Unknown,
                used_by_output_names: readers,
                provider_read_stats: None,
            };
            proof {
                views_push(r@, report);
                assert(wanted.take(i + 1) =~= wanted.take(i as int).push(report@));
            }
            r.push(report);
            i += 1;
        }
        assert(wanted.take(wanted.len() as int) =~= wanted);
        r
    }

    /// Finds the lineage of a derived table, with all that it reaches.
    fn reached_lineage<'a>(&'a self, id: u64) -> (r: Option<ReachedLineage<'a>>)
        ensures
            match r {
                Some(found) => table_lineage(known_tables(self@), id) == Some(found.start@)
                    && found.belongs(self@.derived),
                None => table_lineage(known_tables(self@), id) is None,
            },
    {
        let start = match self.registered_derived_table_by_id(id) {
            Some(derived) => derived.lineage(),
            None => {
                let pending = self.pending_derived_tables();
                match find_pending_by_id(pending, id) {
                    Some(i) => {
                        assert(self@.pending[i as int] == pending@[i as int]@);
                        pending[i].lineage()
                    },
                    None => {
                        return None;
                    },
                }
            },
        };
        let reached = reached_derived_ids(self.derived_tables(), start);
        Some(ReachedLineage { start, reached })
    }

    /// Tells whether the sources that a table reads are known.
    pub fn source_usage_is_known(&self, table: &LazyTable) -> (r: bool)
        ensures
            r == usage_is_known(self@, table@),
    {
        match table.kind() {
            LazyTableKind::DeltaSource => true,
            LazyTableKind::DerivedSql => match self.reached_lineage(table.id()) {
                Some(lineage) => lineage.is_known(self.derived_tables()),
                None => false,
            },
        }
    }

    /// Tells whether a table reads the source with an id.
    pub fn table_reads_source(&self, table: &LazyTable, source_id: u64) -> (r: bool)
        ensures
            r == table_reads(self@, table@, source_id),
    {
        match table.kind() {
            LazyTableKind::DeltaSource => table.id() == source_id,
            LazyTableKind::DerivedSql => match self.reached_lineage(table.id()) {
                Some(lineage) => lineage.reads(self.derived_tables(), source_id),
                None => false,
            },
        }
    }

    /// Finds out which sources a table reads.
    pub fn source_usage_for_lazy_table(&self, table: &LazyTable) -> (r: Result<
        (SourceUsageStatus, Vec<String>),
        DeltaFunnelError,
    >)
        ensures
            if known_schema(self@, table@) is None {
                r matches Err(e) && e@ == unknown_lazy_table(table@.name)
            } else {
                r matches Ok(usage) && usage.0 == source_usage(self@, table@).0 && views(usage.1@)
                    == source_usage(self@, table@).1
            },
    {
        match self.schema_for_lazy_table(table) {
            Ok(_) => {},
            Err(e) => {
                return Err(e);
            },
        }
        let mut names: Vec<String> = Vec::new();
        if !self.source_usage_is_known(table) {
            assert(views(names@) =~= seq![]);
            return Ok((SourceUsageStatus::Unknown, names));
        }
        let sources = self.sources();
        let mut i: usize = 0;
        assert(views(names@) =~= read_source_names(self@, table@, 0));
        while i < sources.len()
            invariant
                i <= sources.len(),
                views(sources@) == self@.sources,
                views(names@) == read_source_names(self@, table@, i as nat),
            decreases sources.len() - i,
        {
            assert(self@.sources[i as int] == sources@[i as int]@);
            if self.table_reads_source(table, sources[i].table().id()) {
                let name = sources[i].name().to_owned();
                proof {
                    views_push(names@, name);
                }
                names.push(name);
            }
            i += 1;
        }
        assert(views(names@).len() == names.len());
        assert(self@.sources.len() == sources.len());
        if names.len() == 0 {
            Ok((SourceUsageStatus::NotUsed, names))
        } else {
            Ok((SourceUsageStatus::Used, names))
        }
    }

    /// How the scans of every source are scheduled.
    fn source_scheduling(&self) -> (r: SourceSchedulingReport)
        ensures
            r == SourceSchedulingReport::with_partitions(
                self@.options.query_options.target_partitions,
            ),
    {
        SourceSchedulingReport {
            query_target_partitions: self.options().query_options().target_partitions,
        }
    }

    /// Reports every registered source, with the selected outputs that read it.
    pub fn source_reports_for_outputs(&self, outputs: &Vec<OutputWritePlan>) -> (r: Vec<
        DeltaSourceReport,
    >)
        ensures
            views(r@) == source_reports(self@, views(outputs@), seq![]),
    {
        let stats: Vec<DeltaProviderReadStatsSnapshot> = Vec::new();
        assert(views(stats@) =~= seq![]);
        self.source_reports_for_outputs_with_provider_stats(outputs, &stats)
    }

    /// Reports every registered source, with the selected outputs that read it and with the
    /// counters that were taken for it.
    pub fn source_reports_for_outputs_with_provider_stats(
        &self,
        outputs: &Vec<OutputWritePlan>,
        stats: &Vec<DeltaProviderReadStatsSnapshot>,
    ) -> (r: Vec<DeltaSourceReport>)
        ensures
            views(r@) == source_reports(self@, views(outputs@), views(stats@)),
    {
        let ghost all = views(outputs@);
        let ghost wanted = source_reports(self@, all, views(stats@));
        let mut known = true;
        let mut k: usize = 0;
        while k < outputs.len()
            invariant
                k <= outputs.len(),
                all == views(outputs@),
                known == all_usage_is_known(self@, all, k as nat),
            decreases outputs.len() - k,
        {
            assert(all[k as int] == outputs@[k as int]@);
            known = self.source_usage_is_known(outputs[k].table()) && known;
            k += 1;
        }
        let sources = self.sources();
        let mut r: Vec<DeltaSourceReport> = Vec::new();
        let mut i: usize = 0;
        assert(views(r@) =~= wanted.take(0));
        while i < sources.len()
            invariant
                i <= sources.len(),
                all == views(outputs@),
                wanted == source_reports(self@, all, views(stats@)),
                known == all_usage_is_known(self@, all, all.len()),
                views(sources@) == self@.sources,
                views(r@) == wanted.take(i as int),
            decreases sources.len() - i,
        {
            let source = &sources[i];
            assert(self@.sources[i as int] == source@);
            let readers = self.outputs_reading(outputs, source.table().id());
            assert(views(readers@).len() == readers.len());
            let usage_status = if readers.len() > 0 {
                SourceUsageStatus::Used
            } else if known {
                SourceUsageStatus::NotUsed
            } else {
                SourceUsageStatus::Unknown
            };
            let report = DeltaSourceReport {
                source_name: source.name().to_owned(),
                source_uri: source.source_uri().to_owned(),
                snapshot_version: source.snapshot_version(),
                protocol: source.protocol().clone(),
                scheduling: self.source_scheduling(),
                usage_status,
                used_by_output_names: readers,
                provider_read_stats: find_stats_of_source(stats, source.name()),
            };
            proof {
                views_push(r@, report);
                assert(wanted.take(i + 1) =~= wanted.take(i as int).push(report@));
            }
            r.push(report);
            i += 1;
        }
        assert(wanted.take(wanted.len() as int) =~= wanted);
        r
    }

    /// Lists the names of the outputs that are known to read a source.
    fn outputs_reading(&self, outputs: &Vec<OutputWritePlan>, source_id: u64) -> (r: Vec<String>)
        ensures
            views(r@) == reading_outputs(self@, views(outputs@), source_id, outputs@.len()),
    {
        let ghost all = views(outputs@);
        let mut r: Vec<String> = Vec::new();
        let mut i: usize = 0;
        assert(views(r@) =~= reading_outputs(self@, all, source_id, 0));
        while i < outputs.len()
            invariant
                i <= outputs.len(),
                all == views(outputs@),
                views(r@) == reading_outputs(self@, all, source_id, i as nat),
            decreases outputs.len() - i,
        {
            let output = &outputs[i];
            assert(all[i as int] == output@);
            if self.source_usage_is_known(output.table()) && self.table_reads_source(
                output.table(),
                source_id,
            ) {
                let name = output.target().output_name().to_owned();
                proof {
                    views_push(r@, name);
                }
                r.push(name);
            }
            i += 1;
        }
        r
    }
}

proof fn read_source_names_facts(session: SessionView, table: LazyTableView, n: nat)
    requires
        n <= session.sources.len(),
    ensures
        forall|name: Seq<char>| #[trigger]
            read_source_names(session, table, n).contains(name) <==> exists|i: int|
                0 <= i < n && (#[trigger] session.sources[i]).table.name == name && table_reads(
                    session,
                    table,
                    session.sources[i].table.id,
                ),
    decreases n,
{
    let names = read_source_names(session, table, n);
    if n > 0 {
        let m = (n - 1) as nat;
        read_source_names_facts(session, table, m);
        let before = read_source_names(session, table, m);
        let last = session.sources[n - 1];
        assert forall|name: Seq<char>| #[trigger] names.contains(name) implies exists|i: int|
            0 <= i < n && (#[trigger] session.sources[i]).table.name == name && table_reads(
                session,
                table,
                session.sources[i].table.id,
            ) by {
            let at = choose|at: int| 0 <= at < names.len() && names[at] == name;
            if at < before.len() {
                assert(before[at] == name);
                assert(before.contains(name));
            } else {
                assert(session.sources[n - 1].table.name == name);
            }
        }
        assert forall|name: Seq<char>|
            (exists|i: int|
                0 <= i < n && (#[trigger] session.sources[i]).table.name == name && table_reads(
                    session,
                    table,
                    session.sources[i].table.id,
                )) implies #[trigger] names.contains(name) by {
            let i = choose|i: int|
                0 <= i < n && (#[trigger] session.sources[i]).table.name == name && table_reads(
                    session,
                    table,
                    session.sources[i].table.id,
                );
            if i < m {
                assert(before.contains(name));
                let at = choose|at: int| 0 <= at < before.len() && before[at] == name;
                assert(names[at] == name);
            } else {
                assert(names[names.len() - 1] == name);
            }
        }
    } else {
        assert forall|name: Seq<char>| !(#[trigger] names.contains(name)) by {}
    }
}

/// Where lineage tells, the named sources are exactly the registered ones that the table
/// reads, and a table counts as using none exactly when none is named.
pub proof fn usage_names_exactly_the_read_sources(
    session: SessionView,
    table: LazyTableView,
    name: Seq<char>,
)
    requires
        usage_is_known(session, table),
    ensures
        source_usage(session, table).1.contains(name) <==> (exists|i: int|
            0 <= i < session.sources.len() && (#[trigger] session.sources[i]).table.name == name
                && table_reads(session, table, session.sources[i].table.id)),
        source_usage(session, table).0 == SourceUsageStatus::NotUsed <==> source_usage(
            session,
            table,
        ).1.len() == 0,
{
    read_source_names_facts(session, table, session.sources.len());
}

/// Counters add to the report of a source and change nothing else in it.
pub proof fn counters_change_nothing_else(
    session: SessionView,
    source: SourceView,
    outputs: Seq<OutputWritePlanView>,
    stats: Seq<ProviderSnapshotView>,
)
    ensures
        source_report(session, source, outputs, stats) == (SourceReportView {
            provider_read_stats: stats_of_source(stats, source.table.name),
            ..source_report(session, source, outputs, seq![])
        }),
        source_report(session, source, outputs, seq![]).provider_read_stats is None,
{
}

/// Counters in a report were taken for the reported source.
pub proof fn counters_belong_to_their_source(stats: Seq<ProviderSnapshotView>, name: Seq<char>)
    ensures
        match stats_of_source(stats, name) {
            Some(found) => found.source_name == name && stats.contains(found),
            None => forall|i: int| 0 <= i < stats.len() ==> (#[trigger] stats[i]).source_name != name,
        },
    decreases stats.len(),
{
    if stats.len() > 0 {
        let before = stats.drop_last();
        counters_belong_to_their_source(before, name);
        match stats_of_source(before, name) {
            Some(found) => {
                let at = choose|at: int| 0 <= at < before.len() && before[at] == found;
                assert(stats[at] == found);
            },
            None => {
                assert forall|i: int|
                    0 <= i < stats.len() && stats.last().source_name != name implies (
                #[trigger] stats[i]).source_name != name by {
                    if i < before.len() {
                        assert(before[i] == stats[i]);
                    }
                }
                assert(stats[stats.len() - 1] == stats.last());
            },
        }
    }
}

/// The files of a source are counted, or there is a reason why not; they are all counted
/// exactly when a scan has planned them all.
pub proof fn files_are_counted_or_excused(stats: Option<ProviderSnapshotView>)
    ensures
        counted_files(stats) == FileCount::Unavailable <==> uncounted_reason(stats) is Some,
        counted_files(stats) is Exact <==> all_files_planned(stats),
{
}

/// A registered source reads itself alone.
pub proof fn source_uses_itself(session: SessionView, i: int)
    requires
        0 <= i < session.sources.len(),
        session.sources[i].table.kind == LazyTableKind::DeltaSource,
    ensures
        source_usage(session, session.sources[i].table).0 == SourceUsageStatus::Used,
        source_usage(session, session.sources[i].table).1.contains(session.sources[i].table.name),
{
    let table = session.sources[i].table;
    read_source_names_facts(session, table, session.sources.len());
    assert(table_reads(session, table, session.sources[i].table.id));
    assert(read_source_names(session, table, session.sources.len()).contains(table.name));
}

} // verus!
