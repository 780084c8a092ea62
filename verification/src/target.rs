//! SQL Server targets: tables, connections and how an output finds its connection.

use vstd::prelude::*;
use vstd::string::StringExecFns;

use crate::errors::{DeltaFunnelError, ErrorView};
use crate::text::{blank, is_blank};

verus! {

/// The text of a string as it stands in debug output, quoted and escaped.
pub uninterp spec fn quoted_text(text: Seq<char>) -> Seq<char>;

/// `str`'s debug form quotes a text and escapes what needs escaping; the same text gives the
/// same form.
#[verifier::external_body]
pub(crate) fn quoted(text: &str) -> (r: String)
    ensures
        r@ == quoted_text(text@),
{
    format!("{text:?}")
}

/// What an output does with its target table.
#[derive(Debug, Clone, Copy, PartialEq, Eq, Structural)]
pub enum LoadMode {
    /// Append rows to an existing table.
    AppendExisting,
    /// Create the table, and load it.
    CreateAndLoad,
    /// Rebuild the table. Reserved.
    Replace,
}

impl LoadMode {
    /// The name of the mode.
    pub open spec fn name_of(self) -> Seq<char> {
        match self {
            LoadMode::AppendExisting => "AppendExisting"@,
            LoadMode::CreateAndLoad => "CreateAndLoad"@,
            LoadMode::Replace => "Replace"@,
        }
    }

    /// Returns the name of the mode.
    pub fn as_str(&self) -> (r: &'static str)
        ensures
            r@ == self.name_of(),
    {
        match self {
            LoadMode::AppendExisting => "AppendExisting",
            LoadMode::CreateAndLoad => "CreateAndLoad",
            LoadMode::Replace => "Replace",
        }
    }
}

/// What a target table says.
pub struct TargetTableView {
    pub schema: Seq<char>,
    pub table: Seq<char>,
}

/// Schema-qualified SQL Server table.
#[derive(Debug, PartialEq, Eq)]
pub struct MssqlTargetTable {
    schema: String,
    table: String,
}

impl View for MssqlTargetTable {
    type V = TargetTableView;

    closed spec fn view(&self) -> TargetTableView {
        TargetTableView { schema: self.schema@, table: self.table@ }
    }
}

impl Clone for MssqlTargetTable {
    fn clone(&self) -> (r: Self)
        ensures
            r == *self,
    {
        MssqlTargetTable { schema: self.schema.clone(), table: self.table.clone() }
    }
}

impl MssqlTargetTable {
    /// Names a target table; neither part may be blank.
    pub fn new(schema: &str, table: &str) -> (r: Result<Self, DeltaFunnelError>)
        ensures
            match r {
                Ok(t) => !is_blank(schema@) && !is_blank(table@) && t@ == (TargetTableView {
                    schema: schema@,
                    table: table@,
                }),
                Err(e) => (is_blank(schema@) || is_blank(table@)) && e@ == (ErrorView::Config {
                    message: "MSSQL target schema and table must not be empty"@,
                }),
            },
    {
        if blank(schema) || blank(table) {
            return Err(
                DeltaFunnelError::Config {
                    message: "MSSQL target schema and table must not be empty".to_owned(),
                },
            );
        }
        Ok(MssqlTargetTable { schema: schema.to_owned(), table: table.to_owned() })
    }

    /// Returns the schema name.
    pub fn schema(&self) -> (r: Option<&str>)
        ensures
            r matches Some(schema) && schema@ == self@.schema,
    {
        Some(self.schema.as_str())
    }

    /// Returns the table name.
    pub fn table(&self) -> (r: &str)
        ensures
            r@ == self@.table,
    {
        self.table.as_str()
    }
}

/// What a connection says. The connection string is secret.
pub struct ConnectionView {
    pub connection_string: Seq<char>,
    pub display_label: Option<Seq<char>>,
}

/// SQL Server connection. It has no debug form, so that the connection string cannot leak
/// through one; `summary` is what may be shown.
#[derive(PartialEq, Eq)]
pub struct MssqlConnectionConfig {
    connection_string: String,
    display_label: Option<String>,
}

impl View for MssqlConnectionConfig {
    type V = ConnectionView;

    closed spec fn view(&self) -> ConnectionView {
        ConnectionView {
            connection_string: self.connection_string@,
            display_label: match self.display_label {
                Some(label) => Some(label@),
                None => None,
            },
        }
    }
}

impl Clone for MssqlConnectionConfig {
    fn clone(&self) -> (r: Self)
        ensures
            r == *self,
    {
        MssqlConnectionConfig {
            connection_string: self.connection_string.clone(),
            display_label: match &self.display_label {
                Some(label) => Some(label.clone()),
                None => None,
            },
        }
    }
}

/// What may be shown of a connection: its label, or that it is hidden.
pub open spec fn connection_summary(label: Option<Seq<char>>) -> Seq<char> {
    match label {
        Some(text) => text,
        None => "<redacted>"@,
    }
}

impl MssqlConnectionConfig {
    /// Takes a connection string that is not blank.
    pub fn new(connection_string: &str) -> (r: Result<Self, DeltaFunnelError>)
        ensures
            match r {
                Ok(c) => !is_blank(connection_string@) && c@ == (ConnectionView {
                    connection_string: connection_string@,
                    display_label: None,
                }),
                Err(e) => is_blank(connection_string@) && e@ == (ErrorView::Config {
                    message: "MSSQL connection string must not be empty"@,
                }),
            },
    {
        if blank(connection_string) {
            return Err(
                DeltaFunnelError::Config {
                    message: "MSSQL connection string must not be empty".to_owned(),
                },
            );
        }
        Ok(
            MssqlConnectionConfig {
                connection_string: connection_string.to_owned(),
                display_label: None,
            },
        )
    }

    /// Sets the label under which the connection is shown.
    pub fn with_display_label(self, label: &str) -> (r: Self)
        ensures
            r@ == (ConnectionView { display_label: Some(label@), ..self@ }),
    {
        MssqlConnectionConfig {
            connection_string: self.connection_string,
            display_label: Some(label.to_owned()),
        }
    }

    /// Returns the secret connection string.
    pub fn connection_string(&self) -> (r: &str)
        ensures
            r@ == self@.connection_string,
    {
        self.connection_string.as_str()
    }

    /// Returns what may be shown of the connection.
    pub fn summary(&self) -> (r: &str)
        ensures
            r@ == connection_summary(self@.display_label),
    {
        match &self.display_label {
            Some(label) => label.as_str(),
            None => "<redacted>",
        }
    }
}

/// What a target says.
pub struct TargetConfigView {
    pub table: TargetTableView,
    pub load_mode: LoadMode,
    pub connection: Option<ConnectionView>,
}

/// SQL Server target of one output.
#[derive(PartialEq, Eq)]
pub struct MssqlTargetConfig {
    table: MssqlTargetTable,
    load_mode: LoadMode,
    connection: Option<MssqlConnectionConfig>,
}

impl View for MssqlTargetConfig {
    type V = TargetConfigView;

    closed spec fn view(&self) -> TargetConfigView {
        TargetConfigView {
            table: self.table@,
            load_mode: self.load_mode,
            connection: match self.connection {
                Some(connection) => Some(connection@),
                None => None,
            },
        }
    }
}

impl Clone for MssqlTargetConfig {
    fn clone(&self) -> (r: Self)
        ensures
            r == *self,
    {
        MssqlTargetConfig {
            table: self.table.clone(),
            load_mode: self.load_mode,
            connection: match &self.connection {
                Some(connection) => Some(connection.clone()),
                None => None,
            },
        }
    }
}

/// Where a resolved connection comes from.
#[derive(Debug, Clone, Copy, PartialEq, Eq, Structural)]
pub enum MssqlConnectionSource {
    /// The target's own connection.
    TargetOverride,
    /// The session default.
    ContextDefault,
}

/// What a resolved target says.
pub struct ResolvedTargetView {
    pub output_name: Seq<char>,
    pub table: TargetTableView,
    pub load_mode: LoadMode,
    pub connection: ConnectionView,
    pub connection_source: MssqlConnectionSource,
}

/// Target with the connection that it will use.
#[derive(PartialEq, Eq)]
pub struct ResolvedMssqlTarget {
    output_name: String,
    table: MssqlTargetTable,
    load_mode: LoadMode,
    connection: MssqlConnectionConfig,
    connection_source: MssqlConnectionSource,
}

impl View for ResolvedMssqlTarget {
    type V = ResolvedTargetView;

    closed spec fn view(&self) -> ResolvedTargetView {
        ResolvedTargetView {
            output_name: self.output_name@,
            table: self.table@,
            load_mode: self.load_mode,
            connection: self.connection@,
            connection_source: self.connection_source,
        }
    }
}

impl Clone for ResolvedMssqlTarget {
    fn clone(&self) -> (r: Self)
        ensures
            r == *self,
    {
        ResolvedMssqlTarget {
            output_name: self.output_name.clone(),
            table: self.table.clone(),
            load_mode: self.load_mode,
            connection: self.connection.clone(),
            connection_source: self.connection_source,
        }
    }
}

impl ResolvedMssqlTarget {
    /// Returns the output name.
    pub fn output_name(&self) -> (r: &str)
        ensures
            r@ == self@.output_name,
    {
        self.output_name.as_str()
    }

    /// Returns the target table.
    pub fn table(&self) -> (r: &MssqlTargetTable)
        ensures
            r@ == self@.table,
    {
        &self.table
    }

    /// Returns the load mode.
    pub fn load_mode(&self) -> (r: LoadMode)
        ensures
            r == self@.load_mode,
    {
        self.load_mode
    }

    /// Returns the connection that will be used.
    pub fn connection(&self) -> (r: &MssqlConnectionConfig)
        ensures
            r@ == self@.connection,
    {
        &self.connection
    }

    /// Returns where the connection comes from.
    pub fn connection_source(&self) -> (r: MssqlConnectionSource)
        ensures
            r == self@.connection_source,
    {
        self.connection_source
    }
}

/// The target that a configuration resolves to: its own connection goes before the default,
/// and without either there is none.
pub open spec fn resolved_target(
    config: TargetConfigView,
    output_name: Seq<char>,
    default_connection: Option<ConnectionView>,
) -> Option<ResolvedTargetView> {
    match config.connection {
        Some(connection) => Some(
            ResolvedTargetView {
                output_name,
                table: config.table,
                load_mode: config.load_mode,
                connection,
                connection_source: MssqlConnectionSource::TargetOverride,
            },
        ),
        None => match default_connection {
            Some(connection) => Some(
                ResolvedTargetView {
                    output_name,
                    table: config.table,
                    load_mode: config.load_mode,
                    connection,
                    connection_source: MssqlConnectionSource::ContextDefault,
                },
            ),
            None => None,
        },
    }
}

/// The debug form of a target: its table, load mode and connection summary.
pub open spec fn target_debug(config: TargetConfigView) -> Seq<char> {
    "MssqlTargetConfig { schema: "@ + quoted_text(config.table.schema) + ", table: "@
        + quoted_text(config.table.table) + ", load_mode: "@ + config.load_mode.name_of()
        + ", connection: "@ + (match config.connection {
        Some(connection) => quoted_text(connection_summary(connection.display_label)),
        None => "None"@,
    }) + " }"@
}

impl MssqlTargetConfig {
    /// Targets a table that exists already, without a connection of its own.
    pub fn new(table: MssqlTargetTable) -> (r: Self)
        ensures
            r@ == (TargetConfigView {
                table: table@,
                load_mode: LoadMode::AppendExisting,
                connection: None,
            }),
    {
        MssqlTargetConfig { table, load_mode: LoadMode::AppendExisting, connection: None }
    }

    /// Sets the load mode.
    pub fn with_load_mode(self, load_mode: LoadMode) -> (r: Self)
        ensures
            r@ == (TargetConfigView { load_mode, ..self@ }),
    {
        MssqlTargetConfig { table: self.table, load_mode, connection: self.connection }
    }

    /// Sets a connection for this target alone.
    pub fn with_connection(self, connection: MssqlConnectionConfig) -> (r: Self)
        ensures
            r@ == (TargetConfigView { connection: Some(connection@), ..self@ }),
    {
        MssqlTargetConfig {
            table: self.table,
            load_mode: self.load_mode,
            connection: Some(connection),
        }
    }

    /// Returns the target table.
    pub fn table(&self) -> (r: &MssqlTargetTable)
        ensures
            r@ == self@.table,
    {
        &self.table
    }

    /// Returns the load mode.
    pub fn load_mode(&self) -> (r: LoadMode)
        ensures
            r == self@.load_mode,
    {
        self.load_mode
    }

    /// Picks the connection for an output: the target's own, else the default.
    pub fn resolve(
        &self,
        output_name: &str,
        default_connection: Option<&MssqlConnectionConfig>,
    ) -> (r: Result<ResolvedMssqlTarget, DeltaFunnelError>)
        ensures
            ({
                let default_view = match default_connection {
                    Some(connection) => Some(connection@),
                    None => None,
                };
                match resolved_target(self@, output_name@, default_view) {
                    Some(target) => r matches Ok(t) && t@ == target,
                    None => r matches Err(e) && e@ == (ErrorView::MissingMssqlConnection {
                        output_name: output_name@,
                    }),
                }
            }),
    {
        let (connection, connection_source) = match &self.connection {
            Some(connection) => (connection.clone(), MssqlConnectionSource::TargetOverride),
            None => match default_connection {
                Some(connection) => (connection.clone(), MssqlConnectionSource::ContextDefault),
                None => {
                    return Err(
                        DeltaFunnelError::MissingMssqlConnection {
                            output_name: output_name.to_owned(),
                        },
                    );
                },
            },
        };
        Ok(
            ResolvedMssqlTarget {
                output_name: output_name.to_owned(),
                table: self.table.clone(),
                load_mode: self.load_mode,
                connection,
                connection_source,
            },
        )
    }

    /// Returns the debug form; it shows no connection string.
    pub fn debug_text(&self) -> (r: String)
        ensures
            r@ == target_debug(self@),
    {
        let mut r = "MssqlTargetConfig { schema: ".to_owned();
        r.append(quoted(self.table.schema.as_str()).as_str());
        r.append(", table: ");
        r.append(quoted(self.table.table()).as_str());
        r.append(", load_mode: ");
        r.append(self.load_mode.as_str());
        r.append(", connection: ");
        match &self.connection {
            Some(connection) => {
                r.append(quoted(connection.summary()).as_str());
            },
            None => {
                r.append("None");
            },
        }
        r.append(" }");
        r
    }
}

/// The debug form of a target is the same for every connection string.
pub proof fn target_debug_hides_connection_string(
    config: TargetConfigView,
    connection: ConnectionView,
    other: ConnectionView,
)
    requires
        connection.display_label == other.display_label,
    ensures
        target_debug(TargetConfigView { connection: Some(connection), ..config }) == target_debug(
            TargetConfigView { connection: Some(other), ..config },
        ),
{
}

} // verus!
