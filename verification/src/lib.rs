//! A small builder for relational query plans.
//!
//! A plan is an algebra tree of typed operators — a read over a named
//! source, projections above it — assembled through a fluent API: [`table`]
//! declares a source with its schema, [`Table::select`] projects columns by
//! name, and [`Table::to_substrait`] wraps the finished tree into the
//! top-level plan container an external engine consumes. Every step is
//! verified to keep the schema/column-position invariants: position `i` of
//! a table's output names and output types always describes column `i` of
//! the rows its tree produces.

pub mod rel;
pub mod table;
pub mod value;

pub use table::Table;
pub use table::TableError;
pub use value::Value;

use vstd::prelude::*;

use crate::rel::{clone_strings, clone_vec_copy, rel_view, ReadRel, Rel, RelModel, RelRoot};
use crate::value::LogicalType;

verus! {

/// The logical type a schema type token resolves to.
///
/// The four primitive integer tokens are recognized; every other token
/// resolves to the explicit `Unspecified` placeholder.
pub open spec fn type_of_token(token: Seq<char>) -> LogicalType {
    if token == "i8"@ {
        LogicalType::I8
    } else if token == "i16"@ {
        LogicalType::I16
    } else if token == "i32"@ {
        LogicalType::I32
    } else if token == "i64"@ {
        LogicalType::I64
    } else {
        LogicalType::Unspecified
    }
}

/// Resolves one schema type token to its logical type.
fn logical_type_from_token(token: &String) -> (t: LogicalType)
    ensures
        t == type_of_token(token@),
{
    if *token == String::from_str("i8") {
        LogicalType::I8
    } else if *token == String::from_str("i16") {
        LogicalType::I16
    } else if *token == String::from_str("i32") {
        LogicalType::I32
    } else if *token == String::from_str("i64") {
        LogicalType::I64
    } else {
        LogicalType::Unspecified
    }
}

/// The names of a declared schema, in order.
pub open spec fn schema_names(schema: Seq<(String, String)>) -> Seq<Seq<char>> {
    schema.map(|_i: int, entry: (String, String)| entry.0@)
}

/// The resolved types of a declared schema, in order.
pub open spec fn schema_types(schema: Seq<(String, String)>) -> Seq<LogicalType> {
    schema.map(|_i: int, entry: (String, String)| type_of_token(entry.1@))
}

/// Declares a table over the named external source.
///
/// `schema` gives the source's columns as (name, type token) pairs, in
/// order. The result wraps a read node that declares exactly this schema
/// for the source called `name`; its output names are the given names and
/// its output types the resolved types, position by position. Whether the
/// source really has this schema is the executing engine's concern, not
/// this builder's.
pub fn table(schema: Vec<(String, String)>, name: String) -> (t: Table)
    ensures
        t.wf(),
        t.output_names() == schema_names(schema@),
        t.output_schema() == schema_types(schema@),
        t.rel_root.input@ == (RelModel::Read {
            source_name: name@,
            names: schema_names(schema@),
            types: schema_types(schema@),
        }),
{
    let mut names: Vec<String> = Vec::new();
    let mut types: Vec<LogicalType> = Vec::new();
    let mut i: usize = 0;
    while i < schema.len()
        invariant
            i <= schema@.len(),
            names@.len() == i,
            types@.len() == i,
            forall|j: int| 0 <= j < i ==> #[trigger] names@[j] == schema@[j].0,
            forall|j: int| 0 <= j < i ==> #[trigger] types@[j] == type_of_token(schema@[j].1@),
        decreases schema@.len() - i,
    {
        let entry = &schema[i];
        names.push(entry.0.clone());
        types.push(logical_type_from_token(&entry.1));
        i += 1;
    }
    let root_names = clone_strings(&names);
    let table_schema = clone_vec_copy(&types);
    let read = ReadRel { source_name: name, names, types };
    let rel_root = RelRoot { input: Rel::Read(read), names: root_names };
    let t = Table { rel_root, schema: table_schema };
    proof {
        assert(t.output_names() =~= schema_names(schema@));
        assert(t.output_schema() =~= schema_types(schema@));
        assert(rel_view(t.rel_root.input)->Read_names =~= schema_names(schema@));
        assert(rel_view(t.rel_root.input)->Read_types =~= schema_types(schema@));
    }
    t
}

} // verus!
