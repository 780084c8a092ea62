use std::future::Future;
use std::sync::Arc;

use datafusion::arrow::array::{Int64Array, RecordBatch, StringArray};
use datafusion::arrow::datatypes::{DataType, Field, Schema};
use datafusion::datasource::MemTable;
use delta_funnel::cache_plan::{
    MssqlCacheCandidateSkipReason, MssqlDerivedCacheAliasPlan, MssqlNoCacheReason,
    MssqlOutputCacheDecision, plan_mssql_output_cache,
};
use delta_funnel::errors::DeltaFunnelError;
use delta_funnel::handles::{
    LazyTable, LazyTableKind, MssqlOutputTarget, OutputWritePlan, RunMode,
};
use delta_funnel::lineage::{DerivedTableDependency, DerivedTableLineage};
use delta_funnel::options::SessionOptions;
use delta_funnel::registry::{
    DeltaProtocolReport, RegisteredDeltaSource, RegisteredDerivedTable,
};
use delta_funnel::routes::{MssqlCachedOutputStreamRoute, replanned_output};
use delta_funnel::session::{DeltaFunnelSession, read_only_sql_options};
use delta_funnel::target::{
    LoadMode, MssqlConnectionConfig, MssqlTargetConfig, MssqlTargetTable,
};

type TestResult = Result<(), Box<dyn std::error::Error>>;

fn block_on<F: Future>(future: F) -> F::Output {
    match tokio::runtime::Builder::new_current_thread().build() {
        Ok(runtime) => runtime.block_on(future),
        Err(error) => panic!("no runtime: {error}"),
    }
}

fn failure(error: DeltaFunnelError) -> String {
    error.display_text()
}

fn orders_schema() -> Arc<Schema> {
    Arc::new(Schema::new(vec![
        Field::new("id", DataType::Int64, true),
        Field::new("customer_name", DataType::Utf8, true),
    ]))
}

fn add_source(
    session: &mut DeltaFunnelSession,
    name: &str,
) -> Result<LazyTable, Box<dyn std::error::Error>> {
    let batch = RecordBatch::try_new(
        orders_schema(),
        vec![
            Arc::new(Int64Array::from(vec![1, 2])),
            Arc::new(StringArray::from(vec!["alice", "bob"])),
        ],
    )?;
    let provider = MemTable::try_new(orders_schema(), vec![vec![batch]])?;
    session.context().register_table(name, Arc::new(provider))?;
    let loaded = RegisteredDeltaSource {
        name: name.to_owned(),
        table_uri: format!("file:///tables/{name}"),
        snapshot_version: 1,
        schema: orders_schema(),
        protocol: DeltaProtocolReport {
            source_name: name.to_owned(),
            min_reader_version: 1,
            min_writer_version: 2,
        },
    };
    Ok(session.delta_lake(name, Ok(vec![loaded])).map_err(failure)?)
}

fn table_from_sql(
    session: &mut DeltaFunnelSession,
    sql: &str,
) -> Result<LazyTable, Box<dyn std::error::Error>> {
    let text = session.prepare_table_sql(sql).map_err(failure)?;
    let planned = block_on(
        session
            .context()
            .sql_with_options(&text, read_only_sql_options()),
    )
    .map_err(|error| error.to_string());
    Ok(session.table_from_sql(sql, planned).map_err(failure)?)
}

fn request(
    table: LazyTable,
    output_name: &str,
    target_table: &str,
    load_mode: LoadMode,
    run_mode: RunMode,
) -> Result<OutputWritePlan, DeltaFunnelError> {
    let target = MssqlTargetConfig::new(MssqlTargetTable::new("dbo", target_table)?)
        .with_load_mode(load_mode);
    Ok(OutputWritePlan::new(
        table,
        MssqlOutputTarget::new(output_name, target, run_mode),
    ))
}

fn output_request(
    table: LazyTable,
    output_name: &str,
    target_table: &str,
    load_mode: LoadMode,
) -> Result<OutputWritePlan, Box<dyn std::error::Error>> {
    Ok(request(table, output_name, target_table, load_mode, RunMode::DryRun).map_err(failure)?)
}

fn secret_connection() -> Result<MssqlConnectionConfig, DeltaFunnelError> {
    Ok(MssqlConnectionConfig::new(
        "server=tcp:sql.example.com;database=warehouse;user=admin;password=secret-token",
    )?
    .with_display_label("warehouse-primary"))
}

fn orders_session() -> Result<DeltaFunnelSession, Box<dyn std::error::Error>> {
    let mut session = DeltaFunnelSession::new(SessionOptions::default()).map_err(failure)?;
    add_source(&mut session, "orders")?;
    Ok(session)
}

fn alias(
    session: &mut DeltaFunnelSession,
    name: &str,
    sql: &str,
) -> Result<LazyTable, Box<dyn std::error::Error>> {
    let pending = table_from_sql(session, sql)?;
    Ok(session.register_alias(name, &pending).map_err(failure)?)
}

fn is_no_cache(decision: &MssqlOutputCacheDecision, wanted: MssqlNoCacheReason) -> bool {
    decision == &MssqlOutputCacheDecision::NoCache { reason: wanted }
}

fn derived(id: u64, name: &str, sql: &str, lineage: DerivedTableLineage) -> RegisteredDerivedTable {
    RegisteredDerivedTable::new(
        LazyTable::derived_sql(id).with_name(name.to_owned()),
        orders_schema(),
        sql.to_owned(),
        lineage,
    )
}

fn on_aliases(aliases: &[(u64, &str)]) -> DerivedTableLineage {
    let mut dependencies = Vec::new();
    for (table_id, name) in aliases {
        dependencies.push(DerivedTableDependency::RegisteredDerived {
            table_id: *table_id,
            name: (*name).to_owned(),
        });
    }
    DerivedTableLineage::complete(dependencies, Vec::new(), Vec::new())
}

fn placeholder_outputs() -> Result<Vec<OutputWritePlan>, Box<dyn std::error::Error>> {
    Ok(vec![
        output_request(
            LazyTable::placeholder(7, LazyTableKind::DerivedSql),
            "west_output",
            "west_orders",
            LoadMode::AppendExisting,
        )?,
        output_request(
            LazyTable::placeholder(8, LazyTableKind::DerivedSql),
            "east_output",
            "east_orders",
            LoadMode::AppendExisting,
        )?,
    ])
}

#[test]
fn session_cache_plan_shell_preserves_selected_output_order() -> TestResult {
    let session = DeltaFunnelSession::new(SessionOptions::default()).map_err(failure)?;

    let plan = session.plan_mssql_output_cache(&placeholder_outputs()?);

    assert!(is_no_cache(
        plan.decision(),
        MssqlNoCacheReason::NoSharedRegisteredDerivedAlias
    ));
    assert!(plan.skipped_candidates().is_empty());
    assert_eq!(plan.selected_outputs().len(), 2);
    assert_eq!(plan.selected_outputs()[0].index(), 0);
    assert_eq!(plan.selected_outputs()[0].table_id(), 7);
    assert_eq!(plan.selected_outputs()[0].table_name(), "table_7");
    assert_eq!(plan.selected_outputs()[0].output_name(), "west_output");
    assert_eq!(plan.selected_outputs()[1].index(), 1);
    assert_eq!(plan.selected_outputs()[1].table_id(), 8);
    assert_eq!(plan.selected_outputs()[1].table_name(), "table_8");
    assert_eq!(plan.selected_outputs()[1].output_name(), "east_output");
    Ok(())
}

#[test]
fn write_all_cache_plan_shell_preserves_selected_output_order() -> TestResult {
    let requests = placeholder_outputs()?;

    let plan = plan_mssql_output_cache(&Vec::new(), &Vec::new(), &requests);

    assert!(is_no_cache(
        plan.decision(),
        MssqlNoCacheReason::NoSharedRegisteredDerivedAlias
    ));
    assert!(plan.skipped_candidates().is_empty());
    assert_eq!(plan.selected_outputs().len(), 2);
    assert_eq!(plan.selected_outputs()[0].index(), 0);
    assert_eq!(plan.selected_outputs()[0].table_id(), 7);
    assert_eq!(plan.selected_outputs()[0].table_name(), "table_7");
    assert_eq!(plan.selected_outputs()[0].output_name(), "west_output");
    assert_eq!(plan.selected_outputs()[1].index(), 1);
    assert_eq!(plan.selected_outputs()[1].table_id(), 8);
    assert_eq!(plan.selected_outputs()[1].table_name(), "table_8");
    assert_eq!(plan.selected_outputs()[1].output_name(), "east_output");
    Ok(())
}

#[test]
fn session_cache_plan_shell_reports_single_output_as_not_shared() -> TestResult {
    let session = DeltaFunnelSession::new(SessionOptions::default()).map_err(failure)?;
    let output = output_request(
        LazyTable::placeholder(7, LazyTableKind::DerivedSql),
        "big_output",
        "big_orders",
        LoadMode::AppendExisting,
    )?;

    let plan = session.plan_mssql_output_cache(&vec![output]);

    assert!(is_no_cache(
        plan.decision(),
        MssqlNoCacheReason::FewerThanTwoOutputs
    ));
    assert_eq!(plan.selected_outputs().len(), 1);
    Ok(())
}

#[test]
fn write_all_cache_plan_shell_reports_single_output_as_not_shared() -> TestResult {
    let output = output_request(
        LazyTable::placeholder(7, LazyTableKind::DerivedSql),
        "big_output",
        "big_orders",
        LoadMode::AppendExisting,
    )?;

    let plan = plan_mssql_output_cache(&Vec::new(), &Vec::new(), &vec![output]);

    assert!(is_no_cache(
        plan.decision(),
        MssqlNoCacheReason::FewerThanTwoOutputs
    ));
    assert_eq!(plan.selected_outputs().len(), 1);
    Ok(())
}

fn secret_output() -> Result<OutputWritePlan, DeltaFunnelError> {
    let target_config = MssqlTargetConfig::new(MssqlTargetTable::new("dbo", "orders")?)
        .with_connection(secret_connection()?);
    Ok(OutputWritePlan::new(
        LazyTable::placeholder(7, LazyTableKind::DerivedSql),
        MssqlOutputTarget::new("orders\noutput", target_config, RunMode::DryRun),
    ))
}

#[test]
fn session_cache_plan_debug_omits_target_connection_material() -> TestResult {
    let session = DeltaFunnelSession::new(SessionOptions::default()).map_err(failure)?;

    let debug = session
        .plan_mssql_output_cache(&vec![secret_output().map_err(failure)?])
        .debug_text();

    assert!(debug.contains("orders"));
    assert!(debug.contains("output"));
    assert!(!debug.contains('\n'));
    assert!(!debug.contains("secret-token"));
    assert!(!debug.contains("password"));
    assert!(!debug.contains("server=tcp"));
    Ok(())
}

#[test]
fn write_all_cache_plan_debug_omits_target_connection_material() -> TestResult {
    let outputs = vec![secret_output().map_err(failure)?];

    let debug = plan_mssql_output_cache(&Vec::new(), &Vec::new(), &outputs).debug_text();

    assert!(debug.contains("orders"));
    assert!(debug.contains("output"));
    assert!(!debug.contains('\n'));
    assert!(!debug.contains("secret-token"));
    assert!(!debug.contains("password"));
    assert!(!debug.contains("server=tcp"));
    Ok(())
}

#[test]
fn cache_plan_selects_shared_registered_derived_dependency() -> TestResult {
    let mut session = orders_session()?;
    let big = alias(&mut session, "big", "select id, customer_name from orders")?;
    let west = table_from_sql(
        &mut session,
        "select id from big where customer_name = 'alice'",
    )?;
    let east = table_from_sql(&mut session, "select id from big where customer_name = 'bob'")?;
    let west = output_request(west, "west_output", "west_orders", LoadMode::AppendExisting)?;
    let east = output_request(east, "east_output", "east_orders", LoadMode::AppendExisting)?;

    let plan = session.plan_mssql_output_cache(&vec![west, east]);

    assert!(plan.skipped_candidates().is_empty());
    let MssqlOutputCacheDecision::CacheAliases(caches) = plan.decision() else {
        return Err("expected cache aliases decision".into());
    };
    assert_eq!(caches.len(), 1);
    let cache = &caches[0];
    assert_eq!(cache.table_id(), big.id());
    assert_eq!(cache.alias(), "big");
    assert_eq!(cache.output_indexes(), &[0, 1]);
    Ok(())
}

#[test]
fn cache_plan_counts_direct_selected_alias_use() -> TestResult {
    let mut session = orders_session()?;
    let big = alias(&mut session, "big", "select id, customer_name from orders")?;
    let west = table_from_sql(
        &mut session,
        "select id from big where customer_name = 'alice'",
    )?;
    let big_output = output_request(
        big.clone(),
        "big_output",
        "big_orders",
        LoadMode::AppendExisting,
    )?;
    let west_output = output_request(west, "west_output", "west_orders", LoadMode::AppendExisting)?;

    let plan = session.plan_mssql_output_cache(&vec![big_output, west_output]);

    let MssqlOutputCacheDecision::CacheAliases(caches) = plan.decision() else {
        return Err("expected cache aliases decision".into());
    };
    assert_eq!(caches.len(), 1);
    let cache = &caches[0];
    assert_eq!(cache.table_id(), big.id());
    assert_eq!(cache.alias(), "big");
    assert_eq!(cache.output_indexes(), &[0, 1]);
    Ok(())
}

#[test]
fn cache_plan_skips_unshared_registered_derived_alias() -> TestResult {
    let mut session = orders_session()?;
    let big = alias(&mut session, "big", "select id, customer_name from orders")?;
    let unrelated = table_from_sql(&mut session, "select customer_name from orders")?;
    let big_output = output_request(
        big.clone(),
        "big_output",
        "big_orders",
        LoadMode::AppendExisting,
    )?;
    let unrelated_output = output_request(
        unrelated,
        "unrelated_output",
        "unrelated_orders",
        LoadMode::AppendExisting,
    )?;

    let plan = session.plan_mssql_output_cache(&vec![big_output, unrelated_output]);

    assert!(is_no_cache(
        plan.decision(),
        MssqlNoCacheReason::NoSharedRegisteredDerivedAlias
    ));
    assert_eq!(plan.skipped_candidates().len(), 1);
    let skipped = &plan.skipped_candidates()[0];
    assert_eq!(skipped.table_id(), big.id());
    assert_eq!(skipped.alias(), "big");
    assert_eq!(
        skipped.reason(),
        &MssqlCacheCandidateSkipReason::NotShared { output_count: 1 }
    );
    assert!(plan.debug_text().contains("NotShared { output_count: 1 }"));
    Ok(())
}

#[test]
fn cache_plan_prefers_deepest_shared_registered_derived_alias() -> TestResult {
    let mut session = orders_session()?;
    let big = alias(&mut session, "big", "select id, customer_name from orders")?;
    let filtered_big = alias(
        &mut session,
        "filtered_big",
        "select id, customer_name from big where id > 0",
    )?;
    let west = table_from_sql(
        &mut session,
        "select id from filtered_big where customer_name = 'alice'",
    )?;
    let east = table_from_sql(
        &mut session,
        "select id from filtered_big where customer_name = 'bob'",
    )?;
    let west = output_request(west, "west_output", "west_orders", LoadMode::AppendExisting)?;
    let east = output_request(east, "east_output", "east_orders", LoadMode::AppendExisting)?;

    let plan = session.plan_mssql_output_cache(&vec![west, east]);

    let MssqlOutputCacheDecision::CacheAliases(caches) = plan.decision() else {
        return Err("expected cache aliases decision".into());
    };
    assert_eq!(caches.len(), 1);
    let cache = &caches[0];
    assert_eq!(cache.table_id(), filtered_big.id());
    assert_eq!(cache.alias(), "filtered_big");
    assert_eq!(cache.output_indexes(), &[0, 1]);
    assert_eq!(plan.skipped_candidates().len(), 1);
    let skipped = &plan.skipped_candidates()[0];
    assert_eq!(skipped.table_id(), big.id());
    assert_eq!(skipped.alias(), "big");
    assert_eq!(
        skipped.reason(),
        &MssqlCacheCandidateSkipReason::CoveredByDeeperSharedAlias {
            selected_table_id: filtered_big.id(),
        }
    );
    Ok(())
}

#[test]
fn cache_plan_selects_independent_shared_aliases_with_same_output_indexes() -> TestResult {
    let mut session = orders_session()?;
    let big = alias(&mut session, "big", "select id, customer_name from orders")?;
    let names = alias(&mut session, "names", "select customer_name from orders")?;
    let sql = "select big.id from big join names on big.customer_name = names.customer_name";
    let west = table_from_sql(&mut session, sql)?;
    let east = table_from_sql(&mut session, sql)?;
    let west = output_request(west, "west_output", "west_orders", LoadMode::AppendExisting)?;
    let east = output_request(east, "east_output", "east_orders", LoadMode::AppendExisting)?;

    let plan = session.plan_mssql_output_cache(&vec![west, east]);

    let MssqlOutputCacheDecision::CacheAliases(caches) = plan.decision() else {
        return Err("expected cache aliases decision".into());
    };
    assert!(plan.skipped_candidates().is_empty());
    assert_eq!(caches.len(), 2);
    assert_eq!(caches[0].table_id(), big.id());
    assert_eq!(caches[0].alias(), "big");
    assert_eq!(caches[0].output_indexes(), &[0, 1]);
    assert_eq!(caches[1].table_id(), names.id());
    assert_eq!(caches[1].alias(), "names");
    assert_eq!(caches[1].output_indexes(), &[0, 1]);
    Ok(())
}

#[test]
fn cache_plan_does_not_consider_shared_raw_source_as_candidate() -> TestResult {
    let mut session = DeltaFunnelSession::new(SessionOptions::default()).map_err(failure)?;
    let orders = add_source(&mut session, "orders")?;
    let west = output_request(
        orders.clone(),
        "west_output",
        "west_orders",
        LoadMode::AppendExisting,
    )?;
    let east = output_request(
        orders,
        "east_output",
        "east_orders",
        LoadMode::AppendExisting,
    )?;

    let plan = session.plan_mssql_output_cache(&vec![west, east]);

    assert!(is_no_cache(
        plan.decision(),
        MssqlNoCacheReason::NoSharedRegisteredDerivedAlias
    ));
    assert!(plan.skipped_candidates().is_empty());
    Ok(())
}

#[test]
fn cache_plan_skips_independent_unshared_registered_derived_aliases() -> TestResult {
    let mut session = orders_session()?;
    let big = alias(&mut session, "big", "select id, customer_name from orders")?;
    let names = alias(&mut session, "names", "select customer_name from orders")?;
    let west = table_from_sql(
        &mut session,
        "select id from big where customer_name = 'alice'",
    )?;
    let name_output = table_from_sql(&mut session, "select customer_name from names")?;
    let west = output_request(west, "west_output", "west_orders", LoadMode::AppendExisting)?;
    let name_output = output_request(
        name_output,
        "name_output",
        "name_orders",
        LoadMode::AppendExisting,
    )?;

    let plan = session.plan_mssql_output_cache(&vec![west, name_output]);

    assert!(is_no_cache(
        plan.decision(),
        MssqlNoCacheReason::NoSharedRegisteredDerivedAlias
    ));
    assert_eq!(plan.skipped_candidates().len(), 2);
    assert_eq!(plan.skipped_candidates()[0].table_id(), big.id());
    assert_eq!(plan.skipped_candidates()[0].alias(), "big");
    assert_eq!(
        plan.skipped_candidates()[0].reason(),
        &MssqlCacheCandidateSkipReason::NotShared { output_count: 1 }
    );
    assert_eq!(plan.skipped_candidates()[1].table_id(), names.id());
    assert_eq!(plan.skipped_candidates()[1].alias(), "names");
    assert_eq!(
        plan.skipped_candidates()[1].reason(),
        &MssqlCacheCandidateSkipReason::NotShared { output_count: 1 }
    );
    Ok(())
}

#[test]
fn cached_output_stream_route_classifies_direct_dependent_and_unrelated_outputs() -> TestResult {
    let mut session = orders_session()?;
    let big = alias(&mut session, "big", "select id, customer_name from orders")?;
    let west = table_from_sql(
        &mut session,
        "select id from big where customer_name = 'alice'",
    )?;
    let unrelated = table_from_sql(&mut session, "select customer_name from orders")?;
    let big_output = output_request(big, "big_output", "big_orders", LoadMode::AppendExisting)?;
    let west_output = output_request(west, "west_output", "west_orders", LoadMode::AppendExisting)?;
    let unrelated_output = output_request(
        unrelated,
        "unrelated_output",
        "unrelated_orders",
        LoadMode::AppendExisting,
    )?;
    let plan = session.plan_mssql_output_cache(&vec![big_output.clone(), west_output.clone()]);
    let MssqlOutputCacheDecision::CacheAliases(caches) = plan.decision() else {
        return Err("expected cache aliases decision".into());
    };

    assert!(
        session
            .cached_output_stream_route(&big_output, caches)
            .map_err(failure)?
            == MssqlCachedOutputStreamRoute::DirectCachedAlias(caches[0].clone())
    );
    assert!(
        session
            .cached_output_stream_route(&west_output, caches)
            .map_err(failure)?
            == MssqlCachedOutputStreamRoute::ReplannedCachedDependency(vec![caches[0].clone()])
    );
    assert!(
        session
            .cached_output_stream_route(&unrelated_output, caches)
            .map_err(failure)?
            == MssqlCachedOutputStreamRoute::UncachedLazyTable
    );
    Ok(())
}

#[test]
fn cached_output_stream_route_keeps_multiple_active_dependency_aliases() -> TestResult {
    let mut session = orders_session()?;
    let big = alias(&mut session, "big", "select id, customer_name from orders")?;
    let names = alias(&mut session, "names", "select customer_name from orders")?;
    let sql = "select big.id from big join names on big.customer_name = names.customer_name";
    let west = table_from_sql(&mut session, sql)?;
    let east = table_from_sql(&mut session, sql)?;
    let west_output = output_request(west, "west_output", "west_orders", LoadMode::AppendExisting)?;
    let east_output = output_request(east, "east_output", "east_orders", LoadMode::AppendExisting)?;
    let plan = session.plan_mssql_output_cache(&vec![west_output.clone(), east_output]);
    let MssqlOutputCacheDecision::CacheAliases(caches) = plan.decision() else {
        return Err("expected cache aliases decision".into());
    };

    assert_eq!(caches.len(), 2);
    assert_eq!(caches[0].table_id(), big.id());
    assert_eq!(caches[1].table_id(), names.id());
    assert!(
        session
            .cached_output_stream_route(&west_output, caches)
            .map_err(failure)?
            == MssqlCachedOutputStreamRoute::ReplannedCachedDependency(caches.clone())
    );
    Ok(())
}

fn check_unknown_alias_is_rejected() -> Result<String, Box<dyn std::error::Error>> {
    let session = DeltaFunnelSession::new(SessionOptions::default()).map_err(failure)?;
    let output = output_request(
        LazyTable::placeholder(7, LazyTableKind::DerivedSql),
        "west_output",
        "west_orders",
        LoadMode::AppendExisting,
    )?;
    let aliases = vec![MssqlDerivedCacheAliasPlan::new(
        252,
        "missing_cache".to_owned(),
        vec![0],
    )];

    match session.cached_output_stream_route(&output, &aliases) {
        Err(DeltaFunnelError::MssqlWorkflowPlanning { message }) => Ok(message),
        _ => Err("expected a planning error".into()),
    }
}

#[test]
fn session_cached_output_stream_route_rejects_unknown_active_alias() -> TestResult {
    let message = check_unknown_alias_is_rejected()?;
    assert!(message.contains("missing_cache"));
    assert!(message.contains("not registered in this session"));
    Ok(())
}

#[test]
fn write_all_cached_output_stream_route_rejects_unknown_active_alias() -> TestResult {
    let message = check_unknown_alias_is_rejected()?;
    assert!(message.contains("missing_cache") && message.contains("not registered in this session"));
    Ok(())
}

#[test]
fn replanned_outputs_keep_their_columns() -> TestResult {
    let session = orders_session()?;
    let plan = || {
        block_on(session.context().sql("select id from orders")).map_err(|error| error.to_string())
    };
    let same = Schema::new(vec![Field::new("id", DataType::Int64, true)]);
    let different = Schema::new(vec![Field::new("different_marker", DataType::Utf8, false)]);

    assert!(replanned_output("west_output", &same, plan()).is_ok());
    assert_eq!(
        replanned_output("west_output", &different, plan())
            .err()
            .map(failure),
        Some(
            "cached output stream setup failed for `west_output`: \
             replanned output schema does not match"
                .to_owned()
        )
    );
    assert_eq!(
        replanned_output("west_output", &same, Err("no statement".to_owned()))
            .err()
            .map(failure),
        Some("cached output stream setup failed for `west_output`: no statement".to_owned())
    );
    Ok(())
}

#[test]
fn every_output_that_a_cache_lists_is_read_through_it() -> TestResult {
    let mut session = orders_session()?;
    alias(&mut session, "big", "select id, customer_name from orders")?;
    alias(&mut session, "deep", "select id from big")?;
    let mut requests = Vec::new();
    for name in ["a", "b", "c"] {
        let table = table_from_sql(&mut session, "select id from deep")?;
        requests.push(output_request(table, name, name, LoadMode::AppendExisting)?);
    }

    let plan = session.plan_mssql_output_cache(&requests);
    let MssqlOutputCacheDecision::CacheAliases(caches) = plan.decision() else {
        return Err("expected cache aliases decision".into());
    };

    for cache in caches {
        for index in cache.output_indexes() {
            let route = session
                .cached_output_stream_route(&requests[*index], caches)
                .map_err(failure)?;
            assert!(route != MssqlCachedOutputStreamRoute::UncachedLazyTable);
        }
    }
    assert_eq!(caches[0].output_indexes(), &[0, 1, 2]);
    assert_eq!(
        caches[0].debug_text(),
        "MssqlDerivedCacheAliasPlan { table_id: 2, alias: \"deep\", output_indexes: [0, 1, 2] }"
    );
    Ok(())
}

fn registered_with(
    session: &DeltaFunnelSession,
    change: impl Fn(&RegisteredDerivedTable) -> (String, DerivedTableLineage),
) -> Vec<RegisteredDerivedTable> {
    session
        .derived_tables()
        .iter()
        .map(|registered| {
            let (sql_text, lineage) = change(registered);
            RegisteredDerivedTable::new(
                registered.table().clone(),
                Arc::clone(registered.schema()),
                sql_text,
                lineage,
            )
        })
        .collect()
}

#[test]
fn cache_plan_rejects_cyclic_shared_candidate_relationships() -> TestResult {
    let mut session = orders_session()?;
    let big = alias(&mut session, "big", "select id, customer_name from orders")?;
    let names = alias(&mut session, "names", "select customer_name from orders")?;
    let derived_tables = registered_with(&session, |registered| {
        let lineage = if registered.table().id() == big.id() {
            on_aliases(&[(names.id(), "names")])
        } else {
            on_aliases(&[(big.id(), "big")])
        };
        (registered.sql_text().to_owned(), lineage)
    });
    let sql = "select big.id from big join names on big.customer_name = names.customer_name";
    let west = table_from_sql(&mut session, sql)?;
    let east = table_from_sql(&mut session, sql)?;
    let west = output_request(west, "west_output", "west_orders", LoadMode::AppendExisting)?;
    let east = output_request(east, "east_output", "east_orders", LoadMode::AppendExisting)?;

    let plan = plan_mssql_output_cache(
        &derived_tables,
        session.pending_derived_tables(),
        &vec![west, east],
    );

    assert!(is_no_cache(
        plan.decision(),
        MssqlNoCacheReason::AmbiguousSharedDerivedAlias
    ));
    assert_eq!(plan.skipped_candidates().len(), 2);
    assert_eq!(plan.skipped_candidates()[0].table_id(), big.id());
    assert_eq!(
        plan.skipped_candidates()[0].reason(),
        &MssqlCacheCandidateSkipReason::AmbiguousDepth
    );
    assert_eq!(plan.skipped_candidates()[1].table_id(), names.id());
    assert_eq!(
        plan.skipped_candidates()[1].reason(),
        &MssqlCacheCandidateSkipReason::AmbiguousDepth
    );
    Ok(())
}

#[test]
fn cache_plan_rejects_partially_ambiguous_shared_candidate_graph() -> TestResult {
    let mut session = orders_session()?;
    let big = alias(&mut session, "big", "select id, customer_name from orders")?;
    let names = alias(&mut session, "names", "select customer_name from orders")?;
    let regions = alias(
        &mut session,
        "regions",
        "select id, customer_name from orders",
    )?;
    let derived_tables = registered_with(&session, |registered| {
        let lineage = if registered.table().id() == big.id() {
            on_aliases(&[(names.id(), "names")])
        } else if registered.table().id() == names.id() {
            on_aliases(&[(big.id(), "big")])
        } else {
            session.derive_table_lineage_from_sql(registered.sql_text())
        };
        (registered.sql_text().to_owned(), lineage)
    });
    let sql = "select big.id from big \
               join names on big.customer_name = names.customer_name \
               join regions on big.id = regions.id";
    let west = table_from_sql(&mut session, sql)?;
    let east = table_from_sql(&mut session, sql)?;
    let west = output_request(west, "west_output", "west_orders", LoadMode::AppendExisting)?;
    let east = output_request(east, "east_output", "east_orders", LoadMode::AppendExisting)?;

    let plan = plan_mssql_output_cache(
        &derived_tables,
        session.pending_derived_tables(),
        &vec![west, east],
    );

    assert!(is_no_cache(
        plan.decision(),
        MssqlNoCacheReason::AmbiguousSharedDerivedAlias
    ));
    assert_eq!(plan.skipped_candidates().len(), 3);
    assert_eq!(plan.skipped_candidates()[0].table_id(), big.id());
    assert_eq!(
        plan.skipped_candidates()[0].reason(),
        &MssqlCacheCandidateSkipReason::AmbiguousDepth
    );
    assert_eq!(plan.skipped_candidates()[1].table_id(), names.id());
    assert_eq!(
        plan.skipped_candidates()[1].reason(),
        &MssqlCacheCandidateSkipReason::AmbiguousDepth
    );
    assert_eq!(plan.skipped_candidates()[2].table_id(), regions.id());
    assert_eq!(
        plan.skipped_candidates()[2].reason(),
        &MssqlCacheCandidateSkipReason::AmbiguousDepth
    );
    Ok(())
}

#[test]
fn cache_plan_skips_registered_derived_alias_with_incomplete_lineage() -> TestResult {
    let mut session = orders_session()?;
    let big = alias(&mut session, "big", "select id, customer_name from orders")?;
    let derived_tables = registered_with(&session, |registered| {
        (
            registered.sql_text().to_owned(),
            DerivedTableLineage::incomplete("forced incomplete lineage"),
        )
    });
    let west = table_from_sql(
        &mut session,
        "select id from big where customer_name = 'alice'",
    )?;
    let east = table_from_sql(&mut session, "select id from big where customer_name = 'bob'")?;
    let west = output_request(west, "west_output", "west_orders", LoadMode::AppendExisting)?;
    let east = output_request(east, "east_output", "east_orders", LoadMode::AppendExisting)?;

    let plan = plan_mssql_output_cache(
        &derived_tables,
        session.pending_derived_tables(),
        &vec![west, east],
    );

    assert!(is_no_cache(
        plan.decision(),
        MssqlNoCacheReason::NoSharedRegisteredDerivedAlias
    ));
    assert_eq!(plan.skipped_candidates().len(), 1);
    let skipped = &plan.skipped_candidates()[0];
    assert_eq!(skipped.table_id(), big.id());
    assert_eq!(skipped.alias(), "big");
    assert_eq!(
        skipped.reason(),
        &MssqlCacheCandidateSkipReason::IncompleteLineage
    );
    Ok(())
}

#[test]
fn cache_plan_skips_registered_derived_alias_with_missing_sql_text() -> TestResult {
    let mut session = orders_session()?;
    let big = alias(&mut session, "big", "select id, customer_name from orders")?;
    let derived_tables = registered_with(&session, |registered| {
        (
            String::new(),
            session.derive_table_lineage_from_sql(registered.sql_text()),
        )
    });
    let west = table_from_sql(
        &mut session,
        "select id from big where customer_name = 'alice'",
    )?;
    let east = table_from_sql(&mut session, "select id from big where customer_name = 'bob'")?;
    let west = output_request(west, "west_output", "west_orders", LoadMode::AppendExisting)?;
    let east = output_request(east, "east_output", "east_orders", LoadMode::AppendExisting)?;

    let plan = plan_mssql_output_cache(
        &derived_tables,
        session.pending_derived_tables(),
        &vec![west, east],
    );

    assert!(is_no_cache(
        plan.decision(),
        MssqlNoCacheReason::NoSharedRegisteredDerivedAlias
    ));
    assert_eq!(plan.skipped_candidates().len(), 1);
    let skipped = &plan.skipped_candidates()[0];
    assert_eq!(skipped.table_id(), big.id());
    assert_eq!(skipped.alias(), "big");
    assert_eq!(
        skipped.reason(),
        &MssqlCacheCandidateSkipReason::MissingSqlText
    );
    Ok(())
}

#[test]
fn blank_sql_text_counts_as_missing() -> TestResult {
    let tables = vec![
        derived(1, "big", " \t", on_aliases(&[])),
        derived(2, "west", "select id from big", on_aliases(&[(1, "big")])),
        derived(3, "east", "select id from big", on_aliases(&[(1, "big")])),
    ];
    let west = output_request(
        tables[1].table().clone(),
        "west_output",
        "west_orders",
        LoadMode::AppendExisting,
    )?;
    let east = output_request(
        tables[2].table().clone(),
        "east_output",
        "east_orders",
        LoadMode::AppendExisting,
    )?;

    let plan = plan_mssql_output_cache(&tables, &Vec::new(), &vec![west, east]);

    assert_eq!(
        plan.skipped_candidates()[0].reason(),
        &MssqlCacheCandidateSkipReason::MissingSqlText
    );
    Ok(())
}
