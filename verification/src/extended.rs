//! Prepared statements, portals and the plans behind them, as far as a
//! connection reads them.
//!
//! The planner's own data stays opaque: a statement carries its parsed form
//! as `S` and a plan carries what the executor needs as `P`. What the
//! connection decides on is held beside them as plain values.

use crate::codec::{text_type_oid, TEXT_OID};
use crate::error::CubeError;
use crate::protocol::{
    field_views, FieldView, Format, PortalCompletion, RowDescription, RowDescriptionField,
    ParameterDescription,
};
use vstd::prelude::*;

verus! {

/// One column of a streaming plan's schema: its name, and what mapping its
/// data type to a PostgreSQL type gave, the OID or the mapping's error.
#[derive(Debug, PartialEq, Eq)]
pub struct SchemaField {
    pub name: String,
    pub type_oid: Result<u32, String>,
}

pub struct SchemaFieldView {
    pub name: Seq<char>,
    pub type_oid: Result<u32, Seq<char>>,
}

impl View for SchemaField {
    type V = SchemaFieldView;

    open spec fn view(&self) -> SchemaFieldView {
        SchemaFieldView {
            name: self.name@,
            type_oid: match self.type_oid {
                Ok(oid) => Ok(oid),
                Err(message) => Err(message@),
            },
        }
    }
}

/// What the planner makes of a statement.
pub enum QueryPlan<P> {
    /// No rows, only a command tag.
    MetaOk(P),
    /// A small table held in memory, all of its columns text; the names of
    /// the columns come first.
    MetaTabular(Vec<String>, P),
    /// A plan that streams rows of a typed schema; the columns of the
    /// schema come first.
    DataFusionSelect(Vec<SchemaField>, P),
}

pub enum PlanView<P> {
    MetaOk(P),
    MetaTabular(Seq<Seq<char>>, P),
    DataFusionSelect(Seq<SchemaFieldView>, P),
}

impl<P> View for QueryPlan<P> {
    type V = PlanView<P>;

    open spec fn view(&self) -> PlanView<P> {
        match self {
            QueryPlan::MetaOk(handle) => PlanView::MetaOk(*handle),
            QueryPlan::MetaTabular(columns, handle) => PlanView::MetaTabular(
                columns@.map_values(|name: String| name@),
                *handle,
            ),
            QueryPlan::DataFusionSelect(columns, handle) => PlanView::DataFusionSelect(
                columns@.map_values(|column: SchemaField| column@),
                *handle,
            ),
        }
    }
}

/// The fields of a table whose columns are all text.
pub open spec fn text_fields(columns: Seq<Seq<char>>) -> Seq<FieldView> {
    columns.map_values(|name: Seq<char>| FieldView { name, type_oid: TEXT_OID })
}

/// The fields of a typed schema: one per column, in order, unless the type
/// of some column has no OID; then the error of the first such column.
pub open spec fn typed_fields(columns: Seq<SchemaFieldView>) -> Result<Seq<FieldView>, Seq<char>>
    decreases columns.len(),
{
    if columns.len() == 0 {
        Ok(Seq::empty())
    } else {
        match typed_fields(columns.drop_last()) {
            Err(message) => Err(message),
            Ok(fields) => match columns.last().type_oid {
                Ok(oid) => Ok(fields.push(FieldView { name: columns.last().name, type_oid: oid })),
                Err(message) => Err(message),
            },
        }
    }
}

/// The fields of the rows that a plan returns.
pub open spec fn row_description_fields<P>(plan: PlanView<P>) -> Result<
    Seq<FieldView>,
    Seq<char>,
> {
    match plan {
        PlanView::MetaOk(_) => Ok(Seq::empty()),
        PlanView::MetaTabular(columns, _) => Ok(text_fields(columns)),
        PlanView::DataFusionSelect(columns, _) => typed_fields(columns),
    }
}

/// The description that is kept for a run of fields: none where there is no
/// field.
pub open spec fn description_of(fields: Seq<FieldView>) -> Option<Seq<FieldView>> {
    if fields.len() > 0 {
        Some(fields)
    } else {
        None
    }
}

/// Once a column fails, so does every longer run of columns, with the same
/// error.
proof fn lemma_typed_fields_error_stays(columns: Seq<SchemaFieldView>, n: int)
    requires
        0 <= n <= columns.len(),
        typed_fields(columns.take(n)) is Err,
    ensures
        typed_fields(columns) == typed_fields(columns.take(n)),
    decreases columns.len() - n,
{
    if n < columns.len() {
        assert(columns.take(n + 1).drop_last() =~= columns.take(n));
        lemma_typed_fields_error_stays(columns, n + 1);
    } else {
        assert(columns.take(n) =~= columns);
    }
}

/// Derives the row description fields of `plan`.
pub fn query_plan_to_row_description<P>(plan: &QueryPlan<P>) -> (result: Result<
    Vec<RowDescriptionField>,
    CubeError,
>)
    ensures
        match row_description_fields(plan@) {
            Ok(fields) => result is Ok && field_views(result->Ok_0@) == fields,
            Err(message) => result is Err && result->Err_0@ == message,
        },
{
    match plan {
        QueryPlan::MetaOk(_) => {
            let fields: Vec<RowDescriptionField> = Vec::new();
            assert(field_views(fields@) =~= Seq::<FieldView>::empty());
            Ok(fields)
        },
        QueryPlan::MetaTabular(columns, _) => {
            let ghost names = columns@.map_values(|name: String| name@);
            let mut fields: Vec<RowDescriptionField> = Vec::new();
            let mut i: usize = 0;
            while i < columns.len()
                invariant
                    i <= columns.len(),
                    names == columns@.map_values(|name: String| name@),
                    field_views(fields@) == text_fields(names).take(i as int),
                decreases columns.len() - i,
            {
                let ghost before = fields@;
                let field = RowDescriptionField::new(columns[i].clone(), text_type_oid());
                fields.push(field);
                assert(field_views(fields@) =~= field_views(before).push(field@));
                assert(text_fields(names).take(i + 1) =~= text_fields(names).take(i as int).push(
                    field@,
                ));
                i += 1;
            }
            assert(text_fields(names).take(i as int) =~= text_fields(names));
            Ok(fields)
        },
        QueryPlan::DataFusionSelect(columns, _) => {
            let ghost schema = columns@.map_values(|column: SchemaField| column@);
            let mut fields: Vec<RowDescriptionField> = Vec::new();
            let mut i: usize = 0;
            assert(schema.take(0) =~= Seq::<SchemaFieldView>::empty());
            assert(field_views(fields@) =~= Seq::<FieldView>::empty());
            while i < columns.len()
                invariant
                    i <= columns.len(),
                    schema == columns@.map_values(|column: SchemaField| column@),
                    row_description_fields(plan@) == typed_fields(schema),
                    typed_fields(schema.take(i as int)) == Ok::<Seq<FieldView>, Seq<char>>(
                        field_views(fields@),
                    ),
                decreases columns.len() - i,
            {
                let ghost before = fields@;
                assert(schema.take(i + 1).drop_last() =~= schema.take(i as int));
                assert(schema.take(i + 1).last() == columns@[i as int]@);
                match &columns[i].type_oid {
                    Ok(oid) => {
                        let field = RowDescriptionField::new(columns[i].name.clone(), *oid);
                        fields.push(field);
                        assert(field_views(fields@) =~= field_views(before).push(field@));
                    },
                    Err(message) => {
                        proof {
                            assert(schema.take(i + 1).last().type_oid == Err::<u32, Seq<char>>(
                                message@,
                            ));
                            assert(typed_fields(schema.take(i + 1)) == Err::<
                                Seq<FieldView>,
                                Seq<char>,
                            >(message@));
                            lemma_typed_fields_error_stays(schema, i + 1);
                        }
                        return Err(CubeError::internal(message.clone()));
                    },
                }
                i += 1;
            }
            assert(schema.take(i as int) =~= schema);
            Ok(fields)
        },
    }
}

/// A parsed statement, the types of its parameters, and the shape of its
/// rows where that could be told without binding.
pub struct PreparedStatement<S> {
    pub query: S,
    pub parameters: ParameterDescription,
    pub description: Option<RowDescription>,
}

pub struct StatementView<S> {
    pub query: S,
    pub parameters: Seq<u32>,
    pub description: Option<Seq<FieldView>>,
}

impl<S> View for PreparedStatement<S> {
    type V = StatementView<S>;

    open spec fn view(&self) -> StatementView<S> {
        StatementView {
            query: self.query,
            parameters: self.parameters@,
            description: match self.description {
                Some(description) => Some(description@),
                None => None,
            },
        }
    }
}

/// A bound statement, ready to run: its plan, the format of its results,
/// and the shape of its rows.
pub struct Portal<P> {
    plan: QueryPlan<P>,
    format: Format,
    description: Option<RowDescription>,
}

pub struct PortalView<P> {
    pub plan: PlanView<P>,
    pub format: Format,
    pub description: Option<Seq<FieldView>>,
}

impl<P> View for Portal<P> {
    type V = PortalView<P>;

    closed spec fn view(&self) -> PortalView<P> {
        PortalView {
            plan: self.plan@,
            format: self.format,
            description: match self.description {
                Some(description) => Some(description@),
                None => None,
            },
        }
    }
}

impl<P> Portal<P> {
    pub fn new(plan: QueryPlan<P>, format: Format, description: Option<RowDescription>) -> (portal:
        Self)
        ensures
            portal@ == (PortalView {
                plan: plan@,
                format,
                description: match description {
                    Some(fields) => Some(fields@),
                    None => None,
                },
            }),
    {
        Portal { plan, format, description }
    }

    pub fn get_format(&self) -> (format: Format)
        ensures
            format == self@.format,
    {
        self.format
    }

    pub fn get_description(&self) -> (description: &Option<RowDescription>)
        ensures
            match description {
                Some(fields) => self@.description == Some(fields@),
                None => self@.description is None,
            },
    {
        &self.description
    }

    pub fn get_plan(&self) -> (plan: &QueryPlan<P>)
        ensures
            plan@ == self@.plan,
    {
        &self.plan
    }
}

/// What preparing a statement text gave: the parsed statement, the number
/// of placeholders found in it, and the plan of the statement with each
/// placeholder replaced by a value.
pub struct Prepared<S, P> {
    pub query: S,
    pub placeholders: usize,
    pub plan: QueryPlan<P>,
}

/// What one run of a portal gave: the rows, framed by the row writer, and
/// how the run ended.
#[derive(Clone, Debug, PartialEq, Eq)]
pub struct Execution {
    pub rows: Vec<u8>,
    pub completion: PortalCompletion,
}

} // verus!
