//! Read limits of Delta scans, as a host sets them.
//!
//! The session carries these settings to the Delta reader. What a host leaves unset follows the
//! reader's own default.

use vstd::prelude::*;
use vstd::string::StringExecFns;

use crate::debug::{
    braced, braced_text, named, named_text, optional, optional_number, optional_number_text,
    some_text, truth, truth_text,
};
use crate::errors::{BatchPipelinePhase, DeltaFunnelError, ErrorView};
use crate::options::{must_be_positive, not_positive, reports};
use crate::report::views;

verus! {

/// When the files of a Delta table may be split between scan tasks.
#[derive(Debug, Clone, Copy, PartialEq, Eq, Structural)]
pub enum IntraFileRepartitioning {
    /// Only below the target partition count.
    WhenBelowTarget,
    /// At any partition count.
    Always,
}

impl Default for IntraFileRepartitioning {
    fn default() -> (r: Self)
        ensures
            r == IntraFileRepartitioning::WhenBelowTarget,
    {
        IntraFileRepartitioning::WhenBelowTarget
    }
}

/// The debug form of when files may be split.
pub open spec fn repartitioning_debug(repartitioning: IntraFileRepartitioning) -> Seq<char> {
    match repartitioning {
        IntraFileRepartitioning::WhenBelowTarget => "WhenBelowTarget"@,
        IntraFileRepartitioning::Always => "Always"@,
    }
}

impl IntraFileRepartitioning {
    /// Returns the debug form.
    pub fn debug_text(&self) -> (r: &'static str)
        ensures
            r@ == repartitioning_debug(*self),
    {
        match self {
            IntraFileRepartitioning::WhenBelowTarget => "WhenBelowTarget",
            IntraFileRepartitioning::Always => "Always",
        }
    }
}

/// Which reader decodes Parquet files.
#[derive(Debug, Clone, Copy, PartialEq, Eq, Structural)]
pub enum ParquetReaderBackend {
    /// The Delta kernel's Parquet handler.
    DeltaKernel,
    /// The direct asynchronous reader.
    Direct,
}

impl Default for ParquetReaderBackend {
    fn default() -> (r: Self)
        ensures
            r == ParquetReaderBackend::Direct,
    {
        ParquetReaderBackend::Direct
    }
}

/// What scan options say; `None` leaves a setting to the reader.
pub struct ScanOptionsView {
    pub parquet_backend: ParquetReaderBackend,
    pub max_concurrent_file_reads_per_scan: Option<usize>,
    pub max_concurrent_file_reads_per_partition: Option<usize>,
    pub output_buffer_batches_per_partition: Option<usize>,
    pub prefetch_files_per_partition: Option<usize>,
    pub parquet_metadata_size_hint_bytes: Option<Option<usize>>,
    pub parquet_full_file_read_threshold_bytes: Option<usize>,
    pub experimental_intra_page_reads: Option<bool>,
}

/// The options that a scan starts from: nothing is set.
pub open spec fn default_scan_options() -> ScanOptionsView {
    ScanOptionsView {
        parquet_backend: ParquetReaderBackend::Direct,
        max_concurrent_file_reads_per_scan: None,
        max_concurrent_file_reads_per_partition: None,
        output_buffer_batches_per_partition: None,
        prefetch_files_per_partition: None,
        parquet_metadata_size_hint_bytes: None,
        parquet_full_file_read_threshold_bytes: None,
        experimental_intra_page_reads: None,
    }
}

/// The debug form of which reader decodes Parquet files.
pub open spec fn parquet_backend_debug(backend: ParquetReaderBackend) -> Seq<char> {
    match backend {
        ParquetReaderBackend::DeltaKernel => "DeltaKernel"@,
        ParquetReaderBackend::Direct => "Direct"@,
    }
}

/// The debug form of a size hint: the inner one may be missing too.
pub open spec fn size_hint_debug(hint: Option<Option<usize>>) -> Seq<char> {
    match hint {
        Some(hint) => optional(Some(optional_number(hint))),
        None => optional(None),
    }
}

/// The debug form of a truth value that may be missing.
pub open spec fn optional_truth(b: Option<bool>) -> Seq<char> {
    match b {
        Some(b) => optional(Some(truth(b))),
        None => optional(None),
    }
}

/// The debug form of scan options.
pub open spec fn scan_options_debug(options: ScanOptionsView) -> Seq<char> {
    braced(
        "DeltaScanExecutionOptions"@,
        seq![
            named("parquet_backend"@, parquet_backend_debug(options.parquet_backend)),
            named(
                "max_concurrent_file_reads_per_scan"@,
                optional_number(options.max_concurrent_file_reads_per_scan),
            ),
            named(
                "max_concurrent_file_reads_per_partition"@,
                optional_number(options.max_concurrent_file_reads_per_partition),
            ),
            named(
                "output_buffer_batches_per_partition"@,
                optional_number(options.output_buffer_batches_per_partition),
            ),
            named(
                "prefetch_files_per_partition"@,
                optional_number(options.prefetch_files_per_partition),
            ),
            named(
                "parquet_metadata_size_hint_bytes"@,
                size_hint_debug(options.parquet_metadata_size_hint_bytes),
            ),
            named(
                "parquet_full_file_read_threshold_bytes"@,
                optional_number(options.parquet_full_file_read_threshold_bytes),
            ),
            named(
                "experimental_intra_page_reads"@,
                optional_truth(options.experimental_intra_page_reads),
            ),
        ],
    )
}

/// A capacity that a semaphore of the runtime can hold.
pub open spec fn is_capacity(n: usize) -> bool {
    0 < n <= usize::MAX / 8
}

/// Message for a capacity above what a semaphore of the runtime can hold.
pub open spec fn capacity_too_large(option: Seq<char>) -> Seq<char> {
    option + " exceeds the largest number of permits"@
}

/// What is wrong with a capacity.
pub open spec fn capacity_problem(option: Seq<char>, n: usize) -> Option<ErrorView> {
    if n == 0 {
        Some(
            ErrorView::BatchPipeline {
                phase: BatchPipelinePhase::Configuration,
                option,
                message: must_be_positive(option),
            },
        )
    } else if !is_capacity(n) {
        Some(
            ErrorView::BatchPipeline {
                phase: BatchPipelinePhase::Configuration,
                option,
                message: capacity_too_large(option),
            },
        )
    } else {
        None
    }
}

/// What is wrong with a capacity that may be left open.
pub open spec fn optional_capacity_problem(option: Seq<char>, n: Option<usize>) -> Option<
    ErrorView,
> {
    match n {
        Some(n) => capacity_problem(option, n),
        None => None,
    }
}

/// What is wrong with a number of bytes that may be left open.
pub open spec fn optional_bytes_problem(option: Seq<char>, n: Option<usize>) -> Option<ErrorView> {
    if n == Some(0usize) {
        Some(
            ErrorView::BatchPipeline {
                phase: BatchPipelinePhase::Configuration,
                option,
                message: must_be_positive(option),
            },
        )
    } else {
        None
    }
}

/// A setter either reports the given problem or gives the options that follow.
pub open spec fn sets(
    r: Result<DeltaScanExecutionOptions, DeltaFunnelError>,
    problem: Option<ErrorView>,
    options: ScanOptionsView,
) -> bool {
    match problem {
        None => r matches Ok(set) && set@ == options,
        Some(view) => r matches Err(e) && e@ == view,
    }
}

/// Checks a capacity.
fn check_capacity(option: &'static str, n: usize) -> (r: Result<(), DeltaFunnelError>)
    ensures
        reports(r, capacity_problem(option@, n)),
{
    if n == 0 {
        return Err(not_positive(option));
    }
    if n > usize::MAX / 8 {
        let mut message = option.to_owned();
        message.append(" exceeds the largest number of permits");
        return Err(
            DeltaFunnelError::BatchPipeline {
                phase: BatchPipelinePhase::Configuration,
                option,
                message,
            },
        );
    }
    Ok(())
}

/// Checks a number of bytes that may be left open.
fn check_optional_bytes(option: &'static str, n: Option<usize>) -> (r: Result<
    (),
    DeltaFunnelError,
>)
    ensures
        reports(r, optional_bytes_problem(option@, n)),
{
    match n {
        Some(n) => {
            if n == 0 {
                return Err(not_positive(option));
            }
        },
        None => {},
    }
    Ok(())
}

/// Read limits of Delta scans. Every limit that is set is one that the reader accepts.
#[derive(Debug, Clone, Copy, PartialEq, Eq, Structural)]
pub struct DeltaScanExecutionOptions {
    parquet_backend: ParquetReaderBackend,
    max_concurrent_file_reads_per_scan: Option<usize>,
    max_concurrent_file_reads_per_partition: Option<usize>,
    output_buffer_batches_per_partition: Option<usize>,
    prefetch_files_per_partition: Option<usize>,
    parquet_metadata_size_hint_bytes: Option<Option<usize>>,
    parquet_full_file_read_threshold_bytes: Option<usize>,
    experimental_intra_page_reads: Option<bool>,
}

impl View for DeltaScanExecutionOptions {
    type V = ScanOptionsView;

    closed spec fn view(&self) -> ScanOptionsView {
        ScanOptionsView {
            parquet_backend: self.parquet_backend,
            max_concurrent_file_reads_per_scan: self.max_concurrent_file_reads_per_scan,
            max_concurrent_file_reads_per_partition: self.max_concurrent_file_reads_per_partition,
            output_buffer_batches_per_partition: self.output_buffer_batches_per_partition,
            prefetch_files_per_partition: self.prefetch_files_per_partition,
            parquet_metadata_size_hint_bytes: self.parquet_metadata_size_hint_bytes,
            parquet_full_file_read_threshold_bytes: self.parquet_full_file_read_threshold_bytes,
            experimental_intra_page_reads: self.experimental_intra_page_reads,
        }
    }
}

impl Default for DeltaScanExecutionOptions {
    fn default() -> (r: Self)
        ensures
            r@ == default_scan_options(),
    {
        DeltaScanExecutionOptions {
            parquet_backend: ParquetReaderBackend::Direct,
            max_concurrent_file_reads_per_scan: None,
            max_concurrent_file_reads_per_partition: None,
            output_buffer_batches_per_partition: None,
            prefetch_files_per_partition: None,
            parquet_metadata_size_hint_bytes: None,
            parquet_full_file_read_threshold_bytes: None,
            experimental_intra_page_reads: None,
        }
    }
}

impl DeltaScanExecutionOptions {
    #[verifier::type_invariant]
    spec fn within_bounds(self) -> bool {
        &&& self.max_concurrent_file_reads_per_scan matches Some(n) ==> is_capacity(n)
        &&& self.max_concurrent_file_reads_per_partition matches Some(n) ==> is_capacity(n)
        &&& self.output_buffer_batches_per_partition matches Some(n) ==> is_capacity(n)
        &&& self.parquet_metadata_size_hint_bytes matches Some(Some(n)) ==> n > 0
        &&& self.parquet_full_file_read_threshold_bytes matches Some(n) ==> n > 0
    }

    /// Creates options that set nothing.
    pub fn new() -> (r: Self)
        ensures
            r@ == default_scan_options(),
    {
        Self::default()
    }

    /// Sets which reader decodes Parquet files.
    pub fn with_parquet_backend(self, parquet_backend: ParquetReaderBackend) -> (r: Self)
        ensures
            r@ == (ScanOptionsView { parquet_backend, ..self@ }),
    {
        proof {
            use_type_invariant(&self);
        }
        let mut r = self;
        r.parquet_backend = parquet_backend;
        r
    }

    /// Sets the limit of concurrent file reads of a scan, or leaves it to the reader.
    pub fn with_max_concurrent_file_reads_per_scan(self, limit: Option<usize>) -> (r: Result<
        Self,
        DeltaFunnelError,
    >)
        ensures
            sets(
                r,
                optional_capacity_problem("max_concurrent_file_reads_per_scan"@, limit),
                (ScanOptionsView { max_concurrent_file_reads_per_scan: limit, ..self@ }),
            ),
    {
        proof {
            use_type_invariant(&self);
        }
        match limit {
            Some(n) => match check_capacity("max_concurrent_file_reads_per_scan", n) {
                Ok(_) => {},
                Err(e) => {
                    return Err(e);
                },
            },
            None => {},
        }
        let mut r = self;
        r.max_concurrent_file_reads_per_scan = limit;
        Ok(r)
    }

    /// Sets the limit of concurrent file reads of a partition.
    pub fn with_max_concurrent_file_reads_per_partition(self, limit: usize) -> (r: Result<
        Self,
        DeltaFunnelError,
    >)
        ensures
            sets(
                r,
                capacity_problem("max_concurrent_file_reads_per_partition"@, limit),
                (ScanOptionsView {
                    max_concurrent_file_reads_per_partition: Some(limit),
                    ..self@
                }),
            ),
    {
        proof {
            use_type_invariant(&self);
        }
        match check_capacity("max_concurrent_file_reads_per_partition", limit) {
            Ok(_) => {},
            Err(e) => {
                return Err(e);
            },
        }
        let mut r = self;
        r.max_concurrent_file_reads_per_partition = Some(limit);
        Ok(r)
    }

    /// Sets how many output batches a partition buffers.
    pub fn with_output_buffer_batches_per_partition(self, batches: usize) -> (r: Result<
        Self,
        DeltaFunnelError,
    >)
        ensures
            sets(
                r,
                capacity_problem("output_buffer_batches_per_partition"@, batches),
                (ScanOptionsView {
                    output_buffer_batches_per_partition: Some(batches),
                    ..self@
                }),
            ),
    {
        proof {
            use_type_invariant(&self);
        }
        match check_capacity("output_buffer_batches_per_partition", batches) {
            Ok(_) => {},
            Err(e) => {
                return Err(e);
            },
        }
        let mut r = self;
        r.output_buffer_batches_per_partition = Some(batches);
        Ok(r)
    }

    /// Sets how many files a partition prepares ahead; zero prepares none.
    pub fn with_prefetch_files_per_partition(self, files: usize) -> (r: Self)
        ensures
            r@ == (ScanOptionsView { prefetch_files_per_partition: Some(files), ..self@ }),
    {
        proof {
            use_type_invariant(&self);
        }
        let mut r = self;
        r.prefetch_files_per_partition = Some(files);
        r
    }

    /// Sets or clears the size hint for Parquet metadata, in bytes.
    pub fn with_parquet_metadata_size_hint_bytes(self, hint: Option<usize>) -> (r: Result<
        Self,
        DeltaFunnelError,
    >)
        ensures
            sets(
                r,
                optional_bytes_problem("parquet_metadata_size_hint_bytes"@, hint),
                (ScanOptionsView { parquet_metadata_size_hint_bytes: Some(hint), ..self@ }),
            ),
    {
        proof {
            use_type_invariant(&self);
        }
        match check_optional_bytes("parquet_metadata_size_hint_bytes", hint) {
            Ok(_) => {},
            Err(e) => {
                return Err(e);
            },
        }
        let mut r = self;
        r.parquet_metadata_size_hint_bytes = Some(hint);
        Ok(r)
    }

    /// Sets or clears the size in bytes up to which a Parquet file is read as a whole.
    pub fn with_parquet_full_file_read_threshold_bytes(self, threshold: Option<usize>) -> (r:
        Result<Self, DeltaFunnelError>)
        ensures
            sets(
                r,
                optional_bytes_problem("parquet_full_file_read_threshold_bytes"@, threshold),
                (ScanOptionsView {
                    parquet_full_file_read_threshold_bytes: threshold,
                    ..self@
                }),
            ),
    {
        proof {
            use_type_invariant(&self);
        }
        match check_optional_bytes("parquet_full_file_read_threshold_bytes", threshold) {
            Ok(_) => {},
            Err(e) => {
                return Err(e);
            },
        }
        let mut r = self;
        r.parquet_full_file_read_threshold_bytes = threshold;
        Ok(r)
    }

    /// Sets whether part of a Parquet page may be read.
    pub fn with_experimental_intra_page_reads(self, enabled: bool) -> (r: Self)
        ensures
            r@ == (ScanOptionsView { experimental_intra_page_reads: Some(enabled), ..self@ }),
    {
        proof {
            use_type_invariant(&self);
        }
        let mut r = self;
        r.experimental_intra_page_reads = Some(enabled);
        r
    }

    /// Returns which reader decodes Parquet files.
    pub fn parquet_backend(&self) -> (r: ParquetReaderBackend)
        ensures
            r == self@.parquet_backend,
    {
        self.parquet_backend
    }

    /// Returns the limit of concurrent file reads of a scan.
    pub fn max_concurrent_file_reads_per_scan(&self) -> (r: Option<usize>)
        ensures
            r == self@.max_concurrent_file_reads_per_scan,
            r matches Some(n) ==> is_capacity(n),
    {
        proof {
            use_type_invariant(self);
        }
        self.max_concurrent_file_reads_per_scan
    }

    /// Returns the limit of concurrent file reads of a partition.
    pub fn max_concurrent_file_reads_per_partition(&self) -> (r: Option<usize>)
        ensures
            r == self@.max_concurrent_file_reads_per_partition,
            r matches Some(n) ==> is_capacity(n),
    {
        proof {
            use_type_invariant(self);
        }
        self.max_concurrent_file_reads_per_partition
    }

    /// Returns how many output batches a partition buffers.
    pub fn output_buffer_batches_per_partition(&self) -> (r: Option<usize>)
        ensures
            r == self@.output_buffer_batches_per_partition,
            r matches Some(n) ==> is_capacity(n),
    {
        proof {
            use_type_invariant(self);
        }
        self.output_buffer_batches_per_partition
    }

    /// Returns how many files a partition prepares ahead.
    pub fn prefetch_files_per_partition(&self) -> (r: Option<usize>)
        ensures
            r == self@.prefetch_files_per_partition,
    {
        self.prefetch_files_per_partition
    }

    /// Returns the size hint for Parquet metadata; the inner `None` says that it was cleared.
    pub fn parquet_metadata_size_hint_bytes(&self) -> (r: Option<Option<usize>>)
        ensures
            r == self@.parquet_metadata_size_hint_bytes,
            r matches Some(Some(n)) ==> n > 0,
    {
        proof {
            use_type_invariant(self);
        }
        self.parquet_metadata_size_hint_bytes
    }

    /// Returns the size in bytes up to which a Parquet file is read as a whole.
    pub fn parquet_full_file_read_threshold_bytes(&self) -> (r: Option<usize>)
        ensures
            r == self@.parquet_full_file_read_threshold_bytes,
            r matches Some(n) ==> n > 0,
    {
        proof {
            use_type_invariant(self);
        }
        self.parquet_full_file_read_threshold_bytes
    }

    /// Returns whether part of a Parquet page may be read.
    pub fn experimental_intra_page_reads(&self) -> (r: Option<bool>)
        ensures
            r == self@.experimental_intra_page_reads,
    {
        self.experimental_intra_page_reads
    }

    /// Returns the debug form.
    pub fn debug_text(&self) -> (r: String)
        ensures
            r@ == scan_options_debug(self@),
    {
        let backend = match self.parquet_backend {
            ParquetReaderBackend::DeltaKernel => "DeltaKernel",
            ParquetReaderBackend::Direct => "Direct",
        };
        let scan = optional_number_text(self.max_concurrent_file_reads_per_scan);
        let partition = optional_number_text(self.max_concurrent_file_reads_per_partition);
        let buffer = optional_number_text(self.output_buffer_batches_per_partition);
        let prefetch = optional_number_text(self.prefetch_files_per_partition);
        let hint = match self.parquet_metadata_size_hint_bytes {
            Some(hint) => some_text(optional_number_text(hint).as_str()),
            None => "None".to_owned(),
        };
        let threshold = optional_number_text(self.parquet_full_file_read_threshold_bytes);
        let pages = match self.experimental_intra_page_reads {
            Some(enabled) => some_text(truth_text(enabled)),
            None => "None".to_owned(),
        };
        let mut fields: Vec<String> = Vec::new();
        fields.push(named_text("parquet_backend", backend));
        fields.push(named_text("max_concurrent_file_reads_per_scan", scan.as_str()));
        fields.push(named_text("max_concurrent_file_reads_per_partition", partition.as_str()));
        fields.push(named_text("output_buffer_batches_per_partition", buffer.as_str()));
        fields.push(named_text("prefetch_files_per_partition", prefetch.as_str()));
        fields.push(named_text("parquet_metadata_size_hint_bytes", hint.as_str()));
        fields.push(named_text("parquet_full_file_read_threshold_bytes", threshold.as_str()));
        fields.push(named_text("experimental_intra_page_reads", pages.as_str()));
        assert(views(fields@) =~= seq![
            fields@[0]@,
            fields@[1]@,
            fields@[2]@,
            fields@[3]@,
            fields@[4]@,
            fields@[5]@,
            fields@[6]@,
            fields@[7]@,
        ]);
        braced_text("DeltaScanExecutionOptions", &fields)
    }
}

} // verus!
