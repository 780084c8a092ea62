//! What is planned for one SQL Server output from its schema and target.

use datafusion::arrow::datatypes::Schema;
use vstd::prelude::*;

use crate::engine::{
    SchemaFieldView, schema_field_name, schema_field_nullable, schema_field_type_text,
    schema_fields, schema_len,
};
use crate::errors::{DeltaFunnelError, ErrorView};
use crate::options::MssqlSchemaPlanOptions;
use crate::report::{views, views_push};
use crate::target::{
    LoadMode, MssqlTargetTable, ResolvedMssqlTarget, ResolvedTargetView, TargetTableView,
};

verus! {

/// What one planned output column says.
pub struct OutputFieldView {
    pub index: usize,
    pub name: Seq<char>,
    pub arrow_type: Seq<char>,
    pub nullable: bool,
}

/// One planned output column.
#[derive(Debug, PartialEq, Eq)]
pub struct MssqlDryRunOutputFieldReport {
    index: usize,
    name: String,
    arrow_type: String,
    nullable: bool,
}

impl View for MssqlDryRunOutputFieldReport {
    type V = OutputFieldView;

    closed spec fn view(&self) -> OutputFieldView {
        OutputFieldView {
            index: self.index,
            name: self.name@,
            arrow_type: self.arrow_type@,
            nullable: self.nullable,
        }
    }
}

impl MssqlDryRunOutputFieldReport {
    /// Returns the column position.
    pub fn index(&self) -> (r: usize)
        ensures
            r == self@.index,
    {
        self.index
    }

    /// Returns the column name.
    pub fn name(&self) -> (r: &str)
        ensures
            r@ == self@.name,
    {
        self.name.as_str()
    }

    /// Returns the column type as it is shown.
    pub fn arrow_type(&self) -> (r: &str)
        ensures
            r@ == self@.arrow_type,
    {
        self.arrow_type.as_str()
    }

    /// Tells whether the column may hold nulls.
    pub fn nullable(&self) -> (r: bool)
        ensures
            r == self@.nullable,
    {
        self.nullable
    }
}

/// State that a target table has to be in before a load.
#[derive(Debug, Clone, Copy, PartialEq, Eq, Structural)]
pub enum MssqlTargetTableState {
    /// The table must not exist.
    Absent,
    /// The table must exist.
    Exists,
}

/// What an output plan says.
pub struct TargetOutputPlanView {
    pub output_name: Seq<char>,
    pub target_table: TargetTableView,
    pub load_mode: LoadMode,
    pub schema_options: MssqlSchemaPlanOptions,
    pub fields: Seq<OutputFieldView>,
}

/// Plan of one SQL Server output.
#[derive(PartialEq, Eq)]
pub struct MssqlTargetOutputPlan {
    output_name: String,
    target_table: MssqlTargetTable,
    load_mode: LoadMode,
    schema_options: MssqlSchemaPlanOptions,
    fields: Vec<MssqlDryRunOutputFieldReport>,
}

impl View for MssqlTargetOutputPlan {
    type V = TargetOutputPlanView;

    closed spec fn view(&self) -> TargetOutputPlanView {
        TargetOutputPlanView {
            output_name: self.output_name@,
            target_table: self.target_table@,
            load_mode: self.load_mode,
            schema_options: self.schema_options,
            fields: views(self.fields@),
        }
    }
}

impl MssqlTargetOutputPlan {
    /// Returns the output name.
    pub fn output_name(&self) -> (r: &str)
        ensures
            r@ == self@.output_name,
    {
        self.output_name.as_str()
    }

    /// Returns the target table.
    pub fn target_table(&self) -> (r: &MssqlTargetTable)
        ensures
            r@ == self@.target_table,
    {
        &self.target_table
    }

    /// Returns the load mode.
    pub fn load_mode(&self) -> (r: LoadMode)
        ensures
            r == self@.load_mode,
    {
        self.load_mode
    }

    /// Returns the schema planning options that the plan was made with.
    pub fn schema_plan_options(&self) -> (r: MssqlSchemaPlanOptions)
        ensures
            r == self@.schema_options,
    {
        self.schema_options
    }

    /// Returns the planned columns in order.
    pub fn output_schema(&self) -> (r: &Vec<MssqlDryRunOutputFieldReport>)
        ensures
            views(r@) == self@.fields,
    {
        &self.fields
    }

    /// Returns the state that the target table has to be in before the load.
    pub fn expected_target_state(&self) -> (r: MssqlTargetTableState)
        ensures
            r == (if self@.load_mode == LoadMode::CreateAndLoad {
                MssqlTargetTableState::Absent
            } else {
                MssqlTargetTableState::Exists
            }),
    {
        if self.load_mode == LoadMode::CreateAndLoad {
            MssqlTargetTableState::Absent
        } else {
            MssqlTargetTableState::Exists
        }
    }
}

/// The planned column for a schema column at a position.
pub open spec fn planned_field(field: SchemaFieldView, index: int) -> OutputFieldView {
    OutputFieldView {
        index: index as usize,
        name: field.name,
        arrow_type: field.type_text,
        nullable: field.nullable,
    }
}

/// The planned columns for the columns of a schema.
pub open spec fn planned_fields(fields: Seq<SchemaFieldView>) -> Seq<OutputFieldView> {
    Seq::new(fields.len(), |i: int| planned_field(fields[i], i))
}

/// What is planned for a resolved target: the columns must not be refused by the mapping to SQL
/// Server, and every load mode but `Replace` is supported.
pub open spec fn target_output_plan(
    fields: Seq<SchemaFieldView>,
    refusal: Option<Seq<char>>,
    target: ResolvedTargetView,
    options: MssqlSchemaPlanOptions,
) -> Result<TargetOutputPlanView, ErrorView> {
    if refusal is Some {
        Err(
            ErrorView::MssqlSchemaPlanning {
                output_name: target.output_name,
                message: refusal->0,
            },
        )
    } else if target.load_mode == LoadMode::Replace {
        Err(
            ErrorView::MssqlLifecyclePlanning {
                output_name: target.output_name,
                message: "replace load mode is reserved"@,
            },
        )
    } else {
        Ok(
            TargetOutputPlanView {
                output_name: target.output_name,
                target_table: target.table,
                load_mode: target.load_mode,
                schema_options: options,
                fields: planned_fields(fields),
            },
        )
    }
}

/// Plans one output from its schema, from why the mapping to SQL Server refuses its columns, if
/// it does, and from its resolved target.
pub fn plan_mssql_target_for_resolved_output(
    schema: &Schema,
    refusal: Option<&str>,
    target: &ResolvedMssqlTarget,
    options: MssqlSchemaPlanOptions,
) -> (r: Result<MssqlTargetOutputPlan, DeltaFunnelError>)
    ensures
        match target_output_plan(
            schema_fields(*schema),
            match refusal {
                Some(message) => Some(message@),
                None => None,
            },
            target@,
            options,
        ) {
            Ok(plan) => r matches Ok(p) && p@ == plan,
            Err(problem) => r matches Err(e) && e@ == problem,
        },
        r is Ok <==> refusal is None && target@.load_mode != LoadMode::Replace,
        r matches Ok(p) ==> {
            &&& p@.output_name == target@.output_name
            &&& p@.target_table == target@.table
            &&& p@.load_mode == target@.load_mode
            &&& p@.schema_options == options
            &&& p@.fields.len() == schema_fields(*schema).len()
            &&& forall|i: int|
                0 <= i < schema_fields(*schema).len() ==> {
                    let field = #[trigger] p@.fields[i];
                    &&& field.index == i
                    &&& field.name == schema_fields(*schema)[i].name
                    &&& field.arrow_type == schema_fields(*schema)[i].type_text
                    &&& field.nullable == schema_fields(*schema)[i].nullable
                }
        },
{
    match refusal {
        Some(message) => {
            return Err(
                DeltaFunnelError::MssqlSchemaPlanning {
                    output_name: target.output_name().to_owned(),
                    message: message.to_owned(),
                },
            );
        },
        None => {},
    }
    if target.load_mode() == LoadMode::Replace {
        return Err(
            DeltaFunnelError::MssqlLifecyclePlanning {
                output_name: target.output_name().to_owned(),
                message: "replace load mode is reserved".to_owned(),
            },
        );
    }
    let ghost wanted = planned_fields(schema_fields(*schema));
    let count: usize = schema_len(schema);
    let mut fields: Vec<MssqlDryRunOutputFieldReport> = Vec::new();
    let mut i: usize = 0;
    assert(views(fields@) =~= wanted.take(0));
    while i < count
        invariant
            i <= count,
            count == schema_fields(*schema).len(),
            wanted == planned_fields(schema_fields(*schema)),
            views(fields@) == wanted.take(i as int),
        decreases count - i,
    {
        let field = MssqlDryRunOutputFieldReport {
            index: i,
            name: schema_field_name(schema, i),
            arrow_type: schema_field_type_text(schema, i),
            nullable: schema_field_nullable(schema, i),
        };
        proof {
            views_push(fields@, field);
            assert(wanted.take(i + 1) =~= wanted.take(i as int).push(field@));
        }
        fields.push(field);
        i += 1;
    }
    assert(wanted.take(count as int) =~= wanted);
    Ok(
        MssqlTargetOutputPlan {
            output_name: target.output_name().to_owned(),
            target_table: target.table().clone(),
            load_mode: target.load_mode(),
            schema_options: options,
            fields,
        },
    )
}

} // verus!
