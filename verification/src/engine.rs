//! What the session takes from the query engine and its column format.

use std::sync::Arc;

use datafusion::arrow::array::RecordBatch;
use datafusion::arrow::datatypes::Schema;
use datafusion::arrow::util::display::{ArrayFormatter, FormatOptions};
use datafusion::arrow::util::pretty::pretty_format_batches;
use datafusion::logical_expr::LogicalPlan;
use datafusion::prelude::{DataFrame, SQLOptions, SessionConfig, SessionContext};
use datafusion::sql::parser::{DFParser, Statement};
use datafusion::sql::resolve::resolve_table_references;
use vstd::prelude::*;

use crate::report::views;

verus! {

/// Declares `SessionContext`, the catalog and planner of one session.
#[verifier::external_type_specification]
#[verifier::external_body]
pub struct ExSessionContext(SessionContext);

/// Declares `SessionConfig`, the settings that a context is made with.
#[verifier::external_type_specification]
#[verifier::external_body]
pub struct ExSessionConfig(SessionConfig);

/// Declares `DataFrame`, a planned query that has not run.
#[verifier::external_type_specification]
#[verifier::external_body]
pub struct ExDataFrame(DataFrame);

/// Declares `LogicalPlan`, what a query does.
#[verifier::external_type_specification]
#[verifier::external_body]
pub struct ExLogicalPlan(LogicalPlan);

/// Declares `SQLOptions`, the kinds of statements that planning admits.
#[verifier::external_type_specification]
#[verifier::external_body]
pub struct ExSqlOptions(SQLOptions);

/// Declares `Statement`, one parsed SQL statement.
#[verifier::external_type_specification]
#[verifier::external_body]
pub struct ExStatement(Statement);

/// Declares `Schema`, the ordered columns of a table.
#[verifier::external_type_specification]
#[verifier::external_body]
pub struct ExSchema(Schema);

/// The groups of types that the type of a column belongs to.
#[derive(Debug, Clone, Copy, PartialEq, Eq, Structural)]
pub struct ColumnType {
    /// A signed or unsigned integer type.
    pub integer: bool,
    /// A floating-point type.
    pub floating: bool,
    /// A decimal type.
    pub decimal: bool,
}

/// What a schema says about one column.
pub struct SchemaFieldView {
    pub name: Seq<char>,
    pub type_text: Seq<char>,
    pub column_type: ColumnType,
    pub nullable: bool,
}

/// The columns that a schema holds, in order.
pub uninterp spec fn schema_fields(schema: Schema) -> Seq<SchemaFieldView>;

/// `Schema::fields` gives the list of columns; its length is the number of columns.
#[verifier::external_body]
pub(crate) fn schema_len(schema: &Schema) -> (r: usize)
    ensures
        r == schema_fields(*schema).len(),
{
    schema.fields().len()
}

/// `Field::name` gives the name of the column at a position.
#[verifier::external_body]
pub(crate) fn schema_field_name(schema: &Schema, index: usize) -> (r: String)
    requires
        index < schema_fields(*schema).len(),
    ensures
        r@ == schema_fields(*schema)[index as int].name,
{
    schema.field(index).name().clone()
}

/// `DataType`'s text form gives the type of the column at a position as it is shown.
#[verifier::external_body]
pub(crate) fn schema_field_type_text(schema: &Schema, index: usize) -> (r: String)
    requires
        index < schema_fields(*schema).len(),
    ensures
        r@ == schema_fields(*schema)[index as int].type_text,
{
    schema.field(index).data_type().to_string()
}

/// `Field::is_nullable` tells whether the column at a position may hold nulls.
#[verifier::external_body]
pub(crate) fn schema_field_nullable(schema: &Schema, index: usize) -> (r: bool)
    requires
        index < schema_fields(*schema).len(),
    ensures
        r == schema_fields(*schema)[index as int].nullable,
{
    schema.field(index).is_nullable()
}

/// `DataType::is_integer` tells whether the column at a position has an integer type.
#[verifier::external_body]
pub(crate) fn schema_field_integer(schema: &Schema, index: usize) -> (r: bool)
    requires
        index < schema_fields(*schema).len(),
    ensures
        r == schema_fields(*schema)[index as int].column_type.integer,
{
    schema.field(index).data_type().is_integer()
}

/// `DataType::is_floating` tells whether the column at a position has a floating-point type.
#[verifier::external_body]
pub(crate) fn schema_field_floating(schema: &Schema, index: usize) -> (r: bool)
    requires
        index < schema_fields(*schema).len(),
    ensures
        r == schema_fields(*schema)[index as int].column_type.floating,
{
    schema.field(index).data_type().is_floating()
}

/// `DataType::is_decimal` tells whether the column at a position has a decimal type.
#[verifier::external_body]
pub(crate) fn schema_field_decimal(schema: &Schema, index: usize) -> (r: bool)
    requires
        index < schema_fields(*schema).len(),
    ensures
        r == schema_fields(*schema)[index as int].column_type.decimal,
{
    schema.field(index).data_type().is_decimal()
}

/// A result whose failure is a text, by the content of that text.
pub open spec fn text_result<T>(r: Result<T, String>) -> Result<T, Seq<char>> {
    match r {
        Ok(t) => Ok(t),
        Err(message) => Err(message@),
    }
}

/// Rows of a query result, held as columns.
#[verifier::external_body]
pub struct PreviewBatch(pub RecordBatch);

/// Number of rows that a batch holds.
pub uninterp spec fn batch_rows(batch: PreviewBatch) -> nat;

/// Number of columns that a batch holds.
pub uninterp spec fn batch_columns(batch: PreviewBatch) -> nat;

/// Why the values of a column cannot be shown, if they cannot.
pub uninterp spec fn batch_column_failure(batch: PreviewBatch, column: int) -> Option<Seq<char>>;

/// The value at a place of a batch as it is shown, nulls as the given text.
pub uninterp spec fn batch_cell(
    batch: PreviewBatch,
    column: int,
    row: int,
    null_text: Seq<char>,
) -> Seq<char>;

/// The table that shows some batches as plain text, or why it cannot be drawn.
pub uninterp spec fn batches_table(batches: Seq<PreviewBatch>) -> Result<Seq<char>, Seq<char>>;

/// `RecordBatch::num_rows` gives the number of rows.
#[verifier::external_body]
pub(crate) fn batch_row_count(batch: &PreviewBatch) -> (r: usize)
    ensures
        r == batch_rows(*batch),
{
    batch.0.num_rows()
}

/// `RecordBatch::num_columns` gives the number of columns.
#[verifier::external_body]
pub(crate) fn batch_column_count(batch: &PreviewBatch) -> (r: usize)
    ensures
        r == batch_columns(*batch),
{
    batch.0.num_columns()
}

/// `ArrayFormatter::try_new` fails exactly for columns of a type that it cannot show.
#[verifier::external_body]
pub(crate) fn check_batch_column(batch: &PreviewBatch, column: usize) -> (r: Result<(), String>)
    requires
        column < batch_columns(*batch),
    ensures
        match r {
            Ok(_) => batch_column_failure(*batch, column as int) is None,
            Err(message) => batch_column_failure(*batch, column as int) == Some(message@),
        },
{
    let options = FormatOptions::default();
    let formatter = ArrayFormatter::try_new(batch.0.column(column).as_ref(), &options);
    formatter.map(|_| ()).map_err(|error| error.to_string())
}

/// `ArrayFormatter::value` shows one value of a column that can be shown.
#[verifier::external_body]
pub(crate) fn batch_cell_text(batch: &PreviewBatch, column: usize, row: usize, null_text: &str) -> (r:
    String)
    requires
        column < batch_columns(*batch),
        row < batch_rows(*batch),
        batch_column_failure(*batch, column as int) is None,
    ensures
        r@ == batch_cell(*batch, column as int, row as int, null_text@),
{
    let options = FormatOptions::default().with_null(null_text);
    let formatter = ArrayFormatter::try_new(batch.0.column(column).as_ref(), &options);
    formatter.map(|shown| shown.value(row).to_string()).unwrap_or_default()
}

/// `pretty_format_batches` draws the batches as one plain text table.
#[verifier::external_body]
pub(crate) fn batches_to_text(batches: &Vec<PreviewBatch>) -> (r: Result<String, String>)
    ensures
        match r {
            Ok(text) => batches_table(batches@) == Ok::<Seq<char>, Seq<char>>(text@),
            Err(message) => batches_table(batches@) == Err::<Seq<char>, Seq<char>>(message@),
        },
{
    let inner: Vec<RecordBatch> = batches.iter().map(|batch| batch.0.clone()).collect();
    let table = pretty_format_batches(&inner);
    table.map(|text| text.to_string()).map_err(|error| error.to_string())
}

/// The statements that a SQL text consists of, or why it cannot be parsed.
pub uninterp spec fn parsed_sql(sql: Seq<char>) -> Result<Seq<Statement>, Seq<char>>;

/// `DFParser::parse_sql` splits a SQL text into its statements.
#[verifier::external_body]
pub(crate) fn parse_sql(sql: &str) -> (r: Result<Vec<Statement>, String>)
    ensures
        match r {
            Ok(statements) => parsed_sql(sql@) == Ok::<Seq<Statement>, Seq<char>>(statements@),
            Err(message) => parsed_sql(sql@) == Err::<Seq<Statement>, Seq<char>>(message@),
        },
{
    let parsed = DFParser::parse_sql(sql);
    parsed.map(|list| list.into_iter().collect()).map_err(|error| error.to_string())
}

/// The relations and the common table expressions that a statement names.
pub struct TableReferencesView {
    pub relations: Seq<Seq<char>>,
    pub ctes: Seq<Seq<char>>,
}

/// The names that a statement refers to, or why they cannot be resolved.
pub uninterp spec fn statement_references(
    statement: Statement,
    normalize: bool,
) -> Result<TableReferencesView, Seq<char>>;

/// `resolve_table_references` lists the tables that a statement reads and, apart from them,
/// the common table expressions that it defines.
#[verifier::external_body]
pub(crate) fn table_references(statement: &Statement, normalize: bool) -> (r: Result<
    (Vec<String>, Vec<String>),
    String,
>)
    ensures
        match r {
            Ok(names) => statement_references(*statement, normalize) == Ok::<_, Seq<char>>(
                TableReferencesView { relations: views(names.0@), ctes: views(names.1@) },
            ),
            Err(message) => statement_references(*statement, normalize) == Err::<
                TableReferencesView,
                _,
            >(message@),
        },
{
    let resolved = resolve_table_references(statement, normalize);
    let names = resolved.map(|(relations, ctes)| (
        relations.iter().map(|name| name.to_string()).collect(),
        ctes.iter().map(|name| name.to_string()).collect(),
    ));
    names.map_err(|error| error.to_string())
}

/// The kinds of statements that planning admits.
pub struct SqlPermissions {
    pub ddl: bool,
    pub dml: bool,
    pub statements: bool,
}

/// What some SQL options admit.
pub uninterp spec fn sql_permissions(options: SQLOptions) -> SqlPermissions;

/// `SQLOptions::new` admits every kind of statement.
pub assume_specification[ SQLOptions::new ]() -> (r: SQLOptions)
    ensures
        sql_permissions(r) == (SqlPermissions { ddl: true, dml: true, statements: true }),
;

/// `SQLOptions::with_allow_ddl` sets whether data definition is admitted.
pub assume_specification[ SQLOptions::with_allow_ddl ](options: SQLOptions, allow: bool) -> (r:
    SQLOptions)
    ensures
        sql_permissions(r) == (SqlPermissions { ddl: allow, ..sql_permissions(options) }),
;

/// `SQLOptions::with_allow_dml` sets whether data modification is admitted.
pub assume_specification[ SQLOptions::with_allow_dml ](options: SQLOptions, allow: bool) -> (r:
    SQLOptions)
    ensures
        sql_permissions(r) == (SqlPermissions { dml: allow, ..sql_permissions(options) }),
;

/// `SQLOptions::with_allow_statements` sets whether session statements are admitted.
pub assume_specification[ SQLOptions::with_allow_statements ](
    options: SQLOptions,
    allow: bool,
) -> (r: SQLOptions)
    ensures
        sql_permissions(r) == (SqlPermissions { statements: allow, ..sql_permissions(options) }),
;

/// Number of partitions that a configuration asks for.
pub uninterp spec fn config_target_partitions(config: SessionConfig) -> usize;

/// Number of rows in a batch that a configuration asks for.
pub uninterp spec fn config_batch_size(config: SessionConfig) -> usize;

/// `SessionConfig::new` starts from the defaults: batches of 8192 rows. The number of
/// partitions follows the machine and is not stated.
pub assume_specification[ SessionConfig::new ]() -> (r: SessionConfig)
    ensures
        config_batch_size(r) == 8192,
;

/// `SessionConfig::with_target_partitions` sets a positive number of partitions and nothing
/// else that is named here.
pub assume_specification[ SessionConfig::with_target_partitions ](
    config: SessionConfig,
    n: usize,
) -> (r: SessionConfig)
    requires
        n > 0,
    ensures
        config_target_partitions(r) == n,
        config_batch_size(r) == config_batch_size(config),
;

/// `SessionConfig::with_batch_size` sets a positive batch size and nothing else that is named
/// here.
pub assume_specification[ SessionConfig::with_batch_size ](
    config: SessionConfig,
    n: usize,
) -> (r: SessionConfig)
    requires
        n > 0,
    ensures
        config_batch_size(r) == n,
        config_target_partitions(r) == config_target_partitions(config),
;

/// The configuration that a context was made with.
pub uninterp spec fn context_config(context: SessionContext) -> SessionConfig;

/// `SessionContext::new_with_config` makes a context with the given configuration.
pub assume_specification[ SessionContext::new_with_config ](config: SessionConfig) -> (r:
    SessionContext)
    ensures
        context_config(r) == config,
;

/// The columns that a planned query produces.
pub uninterp spec fn dataframe_schema(dataframe: DataFrame) -> Schema;

/// `DataFrame::schema` gives the columns that the query produces.
#[verifier::external_body]
pub(crate) fn schema_of(dataframe: &DataFrame) -> (r: Arc<Schema>)
    ensures
        *r == dataframe_schema(*dataframe),
{
    Arc::new(dataframe.schema().as_arrow().clone())
}

/// Two schemas agree in their columns and in the metadata of the schemas and of the columns.
pub uninterp spec fn schemas_agree(left: Schema, right: Schema) -> bool;

/// `Schema::eq` compares the metadata of two schemas and, column by column, the names, types,
/// nullability and metadata. Of a column's dictionary it compares neither the number nor whether
/// it is ordered, so schemas that agree need not be the same value.
#[verifier::external_body]
pub(crate) fn same_schema(left: &Schema, right: &Schema) -> (r: bool)
    ensures
        r == schemas_agree(*left, *right),
        *left == *right ==> r,
        r ==> schema_fields(*left) == schema_fields(*right),
{
    left == right
}

/// The query that skips and then keeps some of the rows of another, or why there is none.
pub uninterp spec fn limited_dataframe(
    dataframe: DataFrame,
    skip: usize,
    fetch: Option<usize>,
) -> Result<DataFrame, Seq<char>>;

/// `DataFrame::limit` bounds the rows of a planned query.
#[verifier::external_body]
pub(crate) fn limit_dataframe(dataframe: DataFrame, skip: usize, fetch: Option<usize>) -> (r: Result<
    DataFrame,
    String,
>)
    ensures
        text_result(r) == limited_dataframe(dataframe, skip, fetch),
{
    dataframe.limit(skip, fetch).map_err(|error| error.to_string())
}

/// What a planned query does.
pub uninterp spec fn dataframe_plan(dataframe: DataFrame) -> LogicalPlan;

/// What a catalog entry says: the name it stands under and the plan of its query.
pub struct CatalogEntryView {
    pub name: Seq<char>,
    pub plan: LogicalPlan,
}

/// Query that the catalog has taken up under a name. Only registering a query makes one.
#[derive(PartialEq, Eq)]
pub struct CatalogEntry {
    name: String,
    plan: LogicalPlan,
}

impl View for CatalogEntry {
    type V = CatalogEntryView;

    closed spec fn view(&self) -> CatalogEntryView {
        CatalogEntryView { name: self.name@, plan: self.plan }
    }
}

impl CatalogEntry {
    /// Returns the name that the entry stands under.
    pub fn name(&self) -> (r: &str)
        ensures
            r@ == self@.name,
    {
        self.name.as_str()
    }

    /// Returns the plan of the entry's query.
    pub fn plan(&self) -> (r: &LogicalPlan)
        ensures
            *r == self@.plan,
    {
        &self.plan
    }
}

/// `SessionContext::register_table` puts a query into the catalog as a view under a name. An
/// entry comes back where the catalog took it up, and carries that name and the query's plan.
/// Whether it does depends on what the catalog holds at that moment, so that is not stated.
#[verifier::external_body]
pub(crate) fn register_view(context: &SessionContext, name: &str, dataframe: &DataFrame) -> (r:
    Result<CatalogEntry, String>)
    ensures
        match r {
            Ok(entry) => entry@ == (CatalogEntryView {
                name: name@,
                plan: dataframe_plan(*dataframe),
            }),
            Err(_) => true,
        },
{
    let plan = dataframe.logical_plan().clone();
    let registered = context.register_table(name, dataframe.clone().into_view());
    let entry = registered.map(|_| CatalogEntry { name: name.to_owned(), plan });
    entry.map_err(|error| error.to_string())
}

/// The plan that scans what another plan produces, or why there is none.
pub uninterp spec fn view_scan(plan: LogicalPlan) -> Result<LogicalPlan, Seq<char>>;

/// `SessionContext::read_table` plans a scan of a query as a view. The plan, and whether there
/// is one, follow from the query alone; the columns are those of the query. The scan also takes
/// up the state of the context at that moment, of which nothing is stated.
#[verifier::external_body]
pub(crate) fn read_view(context: &SessionContext, dataframe: &DataFrame) -> (r: Result<
    DataFrame,
    String,
>)
    ensures
        match r {
            Ok(scan) => view_scan(dataframe_plan(*dataframe)) == Ok::<LogicalPlan, Seq<char>>(
                dataframe_plan(scan),
            ) && dataframe_schema(scan) == dataframe_schema(*dataframe),
            Err(message) => view_scan(dataframe_plan(*dataframe)) == Err::<LogicalPlan, Seq<char>>(
                message@,
            ),
        },
{
    context.read_table(dataframe.clone().into_view()).map_err(|error| error.to_string())
}

} // verus!
