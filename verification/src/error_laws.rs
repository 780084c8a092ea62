//! What errors say.

use vstd::prelude::*;

use crate::debug_laws::stands_between;
use crate::errors::{
    BatchPipelinePhase, DeltaFunnelError, ErrorView, cache_error_with_restore,
    cached_output_stream_setup, error_text, error_view, handoff_setup, scoped_cache_alias,
    unknown_cached_alias, unknown_lazy_table,
};
use crate::target::{LoadMode, connection_summary};
use crate::text::{display_text, has_text};

verus! {

/// The kind of an error and its parts are kept as they are.
pub proof fn errors_keep_their_parts(e: DeltaFunnelError)
    ensures
        match (e, error_view(e)) {
            (DeltaFunnelError::Config { message }, ErrorView::Config { message: told }) => told
                == message@,
            (
                DeltaFunnelError::BatchPipeline { phase, option, message },
                ErrorView::BatchPipeline { phase: p, option: o, message: m },
            ) => p == phase && o == option@ && m == message@,
            (
                DeltaFunnelError::SqlTable { phase, message },
                ErrorView::SqlTable { phase: p, message: m },
            ) => p == phase && m == message@,
            (
                DeltaFunnelError::InvalidSourceName { name, message },
                ErrorView::InvalidSourceName { name: n, message: m },
            ) => n == name@ && m == message@,
            (
                DeltaFunnelError::DuplicateSourceName { name },
                ErrorView::DuplicateSourceName { name: n },
            ) => n == name@,
            (
                DeltaFunnelError::DeltaSourceLoad { name, message },
                ErrorView::DeltaSourceLoad { name: n, message: m },
            ) => n == name@ && m == message@,
            (
                DeltaFunnelError::DeltaProtocolCompatibility { name, message },
                ErrorView::DeltaProtocolCompatibility { name: n, message: m },
            ) => n == name@ && m == message@,
            (
                DeltaFunnelError::MssqlWorkflowPlanning { message },
                ErrorView::MssqlWorkflowPlanning { message: m },
            ) => m == message@,
            (
                DeltaFunnelError::MissingMssqlConnection { output_name },
                ErrorView::MissingMssqlConnection { output_name: n },
            ) => n == output_name@,
            (
                DeltaFunnelError::MssqlSchemaPlanning { output_name, message },
                ErrorView::MssqlSchemaPlanning { output_name: n, message: m },
            ) => n == output_name@ && m == message@,
            (
                DeltaFunnelError::MssqlLifecyclePlanning { output_name, message },
                ErrorView::MssqlLifecyclePlanning { output_name: n, message: m },
            ) => n == output_name@ && m == message@,
            (
                DeltaFunnelError::PreviewFailed { context, source },
                ErrorView::PreviewFailed { context: c, source: s },
            ) => c == context@ && *s == error_view(*source),
            _ => false,
        },
{
}

/// An error about something named tells the name, without control characters, and the message.
pub proof fn errors_tell_name_and_message(name: Seq<char>, message: Seq<char>)
    ensures
        error_text(ErrorView::Config { message }) == message,
        error_text(ErrorView::MssqlWorkflowPlanning { message }) == message,
        error_text(ErrorView::InvalidSourceName { name, message }) == "invalid source name `"@
            + display_text(name) + "`: "@ + message,
        error_text(ErrorView::DuplicateSourceName { name }) == "duplicate source name `"@
            + display_text(name) + "`"@,
        error_text(ErrorView::DeltaSourceLoad { name, message }) == "Delta source `"@
            + display_text(name) + "` failed: "@ + message,
        error_text(ErrorView::DeltaProtocolCompatibility { name, message }) == "Delta source `"@
            + display_text(name) + "` is not supported: "@ + message,
        error_text(ErrorView::MissingMssqlConnection { output_name: name })
            == "no MSSQL connection for output `"@ + display_text(name) + "`"@,
        error_text(ErrorView::MssqlSchemaPlanning { output_name: name, message }) == "output `"@
            + display_text(name) + "`: "@ + message,
        error_text(ErrorView::MssqlLifecyclePlanning { output_name: name, message }) == "output `"@
            + display_text(name) + "`: "@ + message,
        forall|phase: BatchPipelinePhase| #[trigger]
            error_text(ErrorView::BatchPipeline { phase, option: name, message }) == name + ": "@
                + message,
{
}

/// An error of the SQL text or its planning is told by its message.
pub proof fn sql_errors_are_told_by_their_message(e: ErrorView)
    requires
        e is SqlTable,
    ensures
        error_text(e) == e->SqlTable_message,
{
}

/// A failed preview tells the phase that failed and, behind it, what went wrong.
pub proof fn failed_preview_tells_its_source(e: ErrorView)
    requires
        e is PreviewFailed,
    ensures
        error_text(e) == e->context.failed_phase + " failed: "@ + error_text(*e->source),
        has_text(error_text(e), error_text(*e->source)),
        has_text(error_text(e), e->context.failed_phase),
{
    let source = error_text(*e->source);
    let phase = e->context.failed_phase;
    stands_between(phase + " failed: "@, source, Seq::empty());
    assert(phase + " failed: "@ + source + Seq::<char>::empty() =~= phase + " failed: "@ + source);
    stands_between(Seq::empty(), phase, " failed: "@ + source);
    assert(Seq::<char>::empty() + phase + (" failed: "@ + source) =~= phase + " failed: "@
        + source);
}

/// Errors about tables, aliases and streams name them.
pub proof fn planning_errors_name_their_subject(
    name: Seq<char>,
    phase: Seq<char>,
    message: Seq<char>,
)
    ensures
        unknown_lazy_table(name) == (ErrorView::MssqlWorkflowPlanning {
            message: "lazy table `"@ + display_text(name) + "` is not registered in this session"@,
        }),
        unknown_cached_alias(name) == (ErrorView::MssqlWorkflowPlanning {
            message: "cached alias `"@ + display_text(name)
                + "` is not registered in this session"@,
        }),
        cached_output_stream_setup(name, message) == (ErrorView::MssqlWorkflowPlanning {
            message: "cached output stream setup failed for `"@ + display_text(name) + "`: "@
                + display_text(message),
        }),
        scoped_cache_alias(phase, name, message) == (ErrorView::MssqlWorkflowPlanning {
            message: "scoped MSSQL cache alias "@ + phase + " failed for `"@ + display_text(name)
                + "`: "@ + display_text(message),
        }),
        handoff_setup(name, message) == (ErrorView::BatchPipeline {
            phase: BatchPipelinePhase::HandoffSetup,
            option: name,
            message,
        }),
{
}

/// A failed write whose caches could not be taken back tells of both failures.
pub proof fn both_failures_are_told(primary: ErrorView, restore: ErrorView)
    ensures
        has_text(error_text(cache_error_with_restore(primary, restore)), error_text(primary)),
        has_text(error_text(cache_error_with_restore(primary, restore)), error_text(restore)),
        cache_error_with_restore(primary, restore) is MssqlWorkflowPlanning,
{
    let head = "write_all auto cache failed: "@;
    let middle = "; also failed to restore cache aliases: "@;
    let a = error_text(primary);
    let b = error_text(restore);
    stands_between(head, a, middle + b);
    assert(head + a + (middle + b) =~= head + a + middle + b);
    stands_between(head + a + middle, b, Seq::empty());
    assert(head + a + middle + b + Seq::<char>::empty() =~= head + a + middle + b);
}

/// A connection is shown under its label, and one without a label is not shown.
pub proof fn connections_are_shown_by_label(label: Seq<char>)
    ensures
        connection_summary(Some(label)) == label,
        connection_summary(None) == "<redacted>"@,
{
}

/// Load modes have names of their own.
pub proof fn load_modes_are_named()
    ensures
        LoadMode::AppendExisting.name_of() == "AppendExisting"@,
        LoadMode::CreateAndLoad.name_of() == "CreateAndLoad"@,
        LoadMode::Replace.name_of() == "Replace"@,
{
}

} // verus!
