//! Scalar expressions and logical column types: the leaves every operator
//! node is built from.

use vstd::prelude::*;

verus! {

/// A resolved logical column type.
///
/// Only the four primitive integer tokens are recognized by the schema
/// language; any other token is kept as an explicit `Unspecified`
/// placeholder rather than being rejected, so that the decision of how to
/// treat an unknown type is left to the consumer of the plan.
#[derive(Clone, Copy, Debug, PartialEq, Eq, Structural)]
pub enum LogicalType {
    I8,
    I16,
    I32,
    I64,
    Unspecified,
}

/// A scalar expression evaluated against one row of the input relation.
///
/// Only direct positional column references exist today; further expression
/// kinds are additive variants.
#[derive(Clone, Copy, Debug, PartialEq, Eq, Structural)]
pub enum Expr {
    /// A direct reference to the column at `field` of the whole input row.
    ColumnRef { field: usize },
}

/// The logical type an expression resolves to against a row whose column
/// types are `input_types`.
pub open spec fn expr_type(e: Expr, input_types: Seq<LogicalType>) -> LogicalType {
    match e {
        Expr::ColumnRef { field } => input_types[field as int],
    }
}

/// Does the expression only reference columns that exist in a row of
/// `width` columns?
pub open spec fn expr_wf(e: Expr, width: nat) -> bool {
    match e {
        Expr::ColumnRef { field } => field < width,
    }
}

/// A scalar expression paired with the logical type it resolved to at
/// construction time.
///
/// Values are created transiently while a projection is being built: the
/// type is copied from the schema entry the expression references, at the
/// moment the reference is resolved, and the pair is consumed immediately
/// to form one output column of the new operator node.
#[derive(Clone, Copy, Debug)]
pub struct Value {
    pub expression: Expr,
    pub dtype: LogicalType,
}

} // verus!
