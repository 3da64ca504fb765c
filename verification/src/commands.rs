//! The pure decision logic of the command skins: reducing an UPDATE's
//! assignments to textual pairs for the storage frontend, and translating
//! what the frontend returns into the events and errors a SQL client sees.

use vstd::prelude::*;

verus! {

use crate::ast::{coerce_assignments, coerce_spec, Assignment};

/// Success of a command, as reported to the client.
#[derive(PartialEq, Eq, Debug)]
pub enum QueryEvent {
    SchemaCreated,
    SchemaDropped,
    RecordsUpdated(usize),
}

/// A user-visible SQL failure.
#[derive(PartialEq, Eq, Debug)]
pub enum QueryError {
    SchemaAlreadyExists(String),
    SchemaDoesNotExist(String),
    TableDoesNotExist(String),
    ColumnDoesNotExist(Vec<String>),
    NotSupportedOperation(String),
}

impl QueryError {
    pub fn schema_already_exists(name: String) -> (r: Self)
        ensures
            r == QueryError::SchemaAlreadyExists(name),
    {
        QueryError::SchemaAlreadyExists(name)
    }

    pub fn schema_does_not_exist(name: String) -> (r: Self)
        ensures
            r == QueryError::SchemaDoesNotExist(name),
    {
        QueryError::SchemaDoesNotExist(name)
    }

    pub fn table_does_not_exist(name: String) -> (r: Self)
        ensures
            r == QueryError::TableDoesNotExist(name),
    {
        QueryError::TableDoesNotExist(name)
    }

    pub fn column_does_not_exist(names: Vec<String>) -> (r: Self)
        ensures
            r == QueryError::ColumnDoesNotExist(names),
    {
        QueryError::ColumnDoesNotExist(names)
    }

    pub fn not_supported_operation(raw_sql: String) -> (r: Self)
        ensures
            r == QueryError::NotSupportedOperation(raw_sql),
    {
        QueryError::NotSupportedOperation(raw_sql)
    }
}

/// The two-level outcome of a command: the inner result is what the SQL
/// client sees.
pub type QueryResult = Result<QueryEvent, QueryError>;

/// Storage frontend signal: the schema to create already exists.
#[derive(PartialEq, Eq, Structural, Debug, Copy, Clone)]
pub struct SchemaAlreadyExists;

/// Storage frontend signal: the schema to drop does not exist.
#[derive(PartialEq, Eq, Structural, Debug, Copy, Clone)]
pub struct SchemaDoesNotExist;

/// What the storage frontend reports of a failed operation on a table.
/// `Other` stands for every failure the commands do not translate
/// specially.
#[derive(PartialEq, Eq, Debug)]
pub enum OperationOnTableError {
    SchemaDoesNotExist,
    TableDoesNotExist,
    ColumnDoesNotExist(Vec<String>),
    Other,
}

/// CREATE SCHEMA: success is `SchemaCreated`; an existing schema becomes
/// `schema_already_exists` with the schema's name.
pub fn create_schema_response(schema_name: String, result: Result<(), SchemaAlreadyExists>) -> (r:
    QueryResult)
    ensures
        result is Ok ==> r == Ok::<QueryEvent, QueryError>(QueryEvent::SchemaCreated),
        result is Err ==> r == Err::<QueryEvent, QueryError>(
            QueryError::SchemaAlreadyExists(schema_name),
        ),
{
    match result {
        Ok(_) => Ok(QueryEvent::SchemaCreated),
        Err(_) => Err(QueryError::schema_already_exists(schema_name)),
    }
}

/// DROP SCHEMA: success is `SchemaDropped`; a missing schema becomes
/// `schema_does_not_exist` with the schema's name.
pub fn drop_schema_response(schema_name: String, result: Result<(), SchemaDoesNotExist>) -> (r:
    QueryResult)
    ensures
        result is Ok ==> r == Ok::<QueryEvent, QueryError>(QueryEvent::SchemaDropped),
        result is Err ==> r == Err::<QueryEvent, QueryError>(
            QueryError::SchemaDoesNotExist(schema_name),
        ),
{
    match result {
        Ok(_) => Ok(QueryEvent::SchemaDropped),
        Err(_) => Err(QueryError::schema_does_not_exist(schema_name)),
    }
}

/// UPDATE, first half: the textual `(column, value)` pairs handed to the
/// storage frontend's `update_all`, or `not_supported_operation` carrying
/// the raw SQL when an assignment falls outside the accepted shapes.
pub fn update_plan(raw_sql: &str, assignments: &Vec<Assignment>) -> (r: Result<
    Vec<(String, String)>,
    QueryError,
>)
    ensures
        match r {
            Ok(pairs) => {
                &&& pairs@.len() == assignments@.len()
                &&& forall|i: int|
                    0 <= i < pairs@.len() ==> {
                        &&& coerce_spec(assignments@[i].value) == Some(pairs@[i].1@)
                        &&& pairs@[i].0@ == assignments@[i].id@
                    }
            },
            Err(e) => {
                &&& e matches QueryError::NotSupportedOperation(q) && q@ == raw_sql@
                &&& exists|i: int|
                    0 <= i < assignments@.len() && coerce_spec(assignments@[i].value) is None
            },
        },
{
    match coerce_assignments(assignments) {
        Some(pairs) => Ok(pairs),
        None => Err(QueryError::not_supported_operation(String::from_str(raw_sql))),
    }
}

/// UPDATE, second half: the error translation table. A success becomes
/// `RecordsUpdated` with the row count; a missing schema or table and an
/// unknown column become their paired errors; everything else becomes
/// `not_supported_operation` carrying the raw SQL.
pub fn update_response(
    schema_name: String,
    table_name: String,
    raw_sql: String,
    result: Result<usize, OperationOnTableError>,
) -> (r: QueryResult)
    ensures
        result matches Ok(n) ==> r == Ok::<QueryEvent, QueryError>(QueryEvent::RecordsUpdated(n)),
        result matches Err(e) ==> match e {
            OperationOnTableError::SchemaDoesNotExist => r == Err::<QueryEvent, QueryError>(
                QueryError::SchemaDoesNotExist(schema_name),
            ),
            OperationOnTableError::TableDoesNotExist => r matches Err(
                QueryError::TableDoesNotExist(full),
            ) && full@ == schema_name@ + seq!['.'] + table_name@,
            OperationOnTableError::ColumnDoesNotExist(cols) => r == Err::<QueryEvent, QueryError>(
                QueryError::ColumnDoesNotExist(cols),
            ),
            OperationOnTableError::Other => r == Err::<QueryEvent, QueryError>(
                QueryError::NotSupportedOperation(raw_sql),
            ),
        },
{
    match result {
        Ok(n) => Ok(QueryEvent::RecordsUpdated(n)),
        Err(OperationOnTableError::SchemaDoesNotExist) => Err(
            QueryError::schema_does_not_exist(schema_name),
        ),
        Err(OperationOnTableError::TableDoesNotExist) => {
            let mut full = schema_name;
            proof {
                reveal_strlit(".");
            }
            full.append(".");
            full.append(table_name.as_str());
            Err(QueryError::table_does_not_exist(full))
        },
        Err(OperationOnTableError::ColumnDoesNotExist(cols)) => Err(
            QueryError::column_does_not_exist(cols),
        ),
        Err(OperationOnTableError::Other) => Err(QueryError::not_supported_operation(raw_sql)),
    }
}

} // verus!
