//! Session layer for lazy query-load workflows: sources and SQL-derived tables are registered,
//! previewed, dry-run and written to SQL Server, with shared derived tables cached in between.

pub mod cache_choice_laws;
pub mod cache_frontier_laws;
pub mod cache_laws;
pub mod cache_plan;
pub mod clock;
pub mod debug;
pub mod debug_laws;
pub mod dependencies;
pub mod dry_run;
pub mod dry_run_laws;
pub mod engine;
pub mod error_laws;
pub mod errors;
pub mod execution;
pub mod execution_laws;
pub mod handles;
pub mod html;
pub mod html_laws;
pub mod html_table_laws;
pub mod lineage;
pub mod lineage_laws;
pub mod names;
pub mod option_laws;
pub mod options;
pub mod output_plan;
pub mod planning_laws;
pub mod preview;
pub mod preview_laws;
pub mod preview_phase_laws;
pub mod preview_run;
pub mod reading_laws;
pub mod registry;
pub mod report;
pub mod routes;
pub mod runtime;
pub mod scan_options;
pub mod search;
pub mod session;
pub mod session_change_laws;
pub mod session_laws;
pub mod source_usage;
pub mod target;
pub mod target_plan;
pub mod text;
pub mod text_laws;
pub mod timeline;
pub mod view_laws;
pub mod workflow;
pub mod workflow_laws;
pub mod write_all;
