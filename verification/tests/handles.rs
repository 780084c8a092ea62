use delta_funnel::errors::DeltaFunnelError;
use delta_funnel::handles::{
    LazyTable, LazyTableKind, MssqlOutputTarget, OutputWritePlan, PREVIEW_PHASE_COUNT,
    PreviewOptions, RunMode, TablePreview, preview_phase_name,
};
use delta_funnel::report::{ExecutionProfileMode, PhaseStatus, ReportReasonCode};
use delta_funnel::target::{
    LoadMode, MssqlConnectionConfig, MssqlTargetConfig, MssqlTargetTable,
};

#[test]
fn preview_options_default_to_disabled_profiling() {
    let default = PreviewOptions::new(20);
    let detailed = default.with_execution_profile_mode(ExecutionProfileMode::Detailed);

    assert_eq!(default.limit(), 20);
    assert_eq!(
        default.execution_profile_mode(),
        ExecutionProfileMode::Disabled
    );
    assert_eq!(detailed.limit(), 20);
    assert_eq!(
        detailed.execution_profile_mode(),
        ExecutionProfileMode::Detailed
    );
}

#[test]
fn legacy_table_preview_has_unavailable_timings_and_no_profile() {
    let preview = TablePreview::new("text".to_owned(), "html".to_owned());

    assert_eq!(preview.text(), "text");
    assert_eq!(preview.html(), "html");
    assert_eq!(preview.phase_timings().len(), PREVIEW_PHASE_COUNT);
    for (index, timing) in preview.phase_timings().iter().enumerate() {
        assert_eq!(timing.phase_name(), preview_phase_name(index));
        assert_eq!(
            timing.status(),
            PhaseStatus::unavailable(ReportReasonCode::NotExecuted)
        );
        assert_eq!(timing.elapsed_micros(), None);
    }
    assert_eq!(preview.execution_profile(), None);
}

#[test]
fn output_request_shapes_preserve_table_target_and_run_mode() -> Result<(), DeltaFunnelError> {
    let table = LazyTable::placeholder(7, LazyTableKind::DerivedSql);
    let target_config = MssqlTargetConfig::new(MssqlTargetTable::new("dbo", "orders")?)
        .with_load_mode(LoadMode::CreateAndLoad)
        .with_connection(
            MssqlConnectionConfig::new(
                "server=tcp:sql.example.com;database=warehouse;user=admin;password=secret-token",
            )?
            .with_display_label("warehouse-primary"),
        );
    let target = MssqlOutputTarget::new("orders_output", target_config, RunMode::DryRun);
    let plan = OutputWritePlan::new(table.clone(), target.clone());

    assert_eq!(table.id(), 7);
    assert_eq!(table.kind(), LazyTableKind::DerivedSql);
    assert_eq!(target.output_name(), "orders_output");
    assert_eq!(target.run_mode(), RunMode::DryRun);
    assert_eq!(target.target().load_mode(), LoadMode::CreateAndLoad);
    assert_eq!(plan.table(), &table);
    assert!(plan.target() == &target);

    let debug = target.debug_text();
    assert!(debug.contains("orders_output"));
    assert!(!debug.contains("secret-token"));
    assert!(!debug.contains("password"));
    assert!(!debug.contains("server=tcp"));
    Ok(())
}

#[test]
fn preview_phases_are_named_in_order() {
    let names: Vec<&str> = (0..PREVIEW_PHASE_COUNT).map(preview_phase_name).collect();
    assert_eq!(
        names,
        vec![
            "preview_dataframe_planning",
            "preview_physical_planning",
            "preview_stream_setup",
            "preview_execute_collect",
            "preview_format_text",
            "preview_format_html",
            "preview_total",
        ]
    );
}

#[test]
fn run_modes_have_names_and_execute_is_the_default() {
    assert_eq!(RunMode::default(), RunMode::Execute);
    assert_eq!(RunMode::Execute.as_str(), "Execute");
    assert_eq!(RunMode::DryRun.as_str(), "DryRun");
}

#[test]
fn naming_a_table_keeps_its_identity() {
    let table = LazyTable::derived_sql(3);
    let named = table.with_name("orders".to_owned());

    assert_eq!(named.id(), table.id());
    assert_eq!(named.kind(), table.kind());
    assert_eq!(named.name(), "orders");
    assert_ne!(table.name(), "orders");
}

#[test]
fn blank_target_parts_are_rejected() {
    assert!(matches!(
        MssqlTargetTable::new(" ", "orders"),
        Err(DeltaFunnelError::Config { message })
            if message == "MSSQL target schema and table must not be empty"
    ));
    assert!(MssqlTargetTable::new("dbo", "").is_err());
}
