//! The fluent surface of the builder: a [`Table`] couples an algebra tree
//! with the names and resolved types of its output columns, and every
//! transformation returns a new table whose invariant is re-established.

use vstd::prelude::*;

use crate::rel::{
    clone_rel, clone_strings, model_output_types, model_wf, rel_view, Plan, ProjectRel, Rel,
    RelRoot,
};
use crate::value::{Expr, LogicalType, Value};

verus! {

/// The error a projection signals when a requested column name is absent
/// from the current output schema. It carries the missing name.
#[derive(Debug, PartialEq, Eq)]
pub enum TableError {
    ColumnNotFound(String),
}

/// The position of the first occurrence of `name` in `names`, or a
/// negative value when `name` occurs nowhere.
pub open spec fn position_of(names: Seq<Seq<char>>, name: Seq<char>) -> int
    decreases names.len(),
{
    if names.len() == 0 {
        -1
    } else if names[0] == name {
        0
    } else {
        let rest = position_of(names.drop_first(), name);
        if rest < 0 {
            -1
        } else {
            rest + 1
        }
    }
}

/// Does `name` occur in `names`?
pub open spec fn has_column(names: Seq<Seq<char>>, name: Seq<char>) -> bool {
    position_of(names, name) >= 0
}

/// `position_of` returns the first index holding `name`, or a negative
/// value exactly when no index holds it.
pub proof fn lemma_position_of(names: Seq<Seq<char>>, name: Seq<char>)
    ensures
        position_of(names, name) >= 0 ==> {
            let p = position_of(names, name);
            &&& 0 <= p < names.len()
            &&& names[p] == name
            &&& forall|j: int| 0 <= j < p ==> names[j] != name
        },
        position_of(names, name) < 0 ==> forall|j: int|
            0 <= j < names.len() ==> names[j] != name,
    decreases names.len(),
{
    if names.len() == 0 {
    } else if names[0] == name {
    } else {
        lemma_position_of(names.drop_first(), name);
        let rest = position_of(names.drop_first(), name);
        if rest >= 0 {
            assert(names[rest + 1] == names.drop_first()[rest]);
            assert forall|j: int| 0 <= j < rest + 1 implies names[j] != name by {
                if j > 0 {
                    assert(names.drop_first()[j - 1] == names[j]);
                }
            }
        } else {
            assert forall|j: int| 0 <= j < names.len() implies names[j] != name by {
                if j > 0 {
                    assert(names.drop_first()[j - 1] == names[j]);
                }
            }
        }
    }
}

/// A relational result set: an algebra tree producing its rows, the
/// ordered output column names the root exposes, and the resolved logical
/// type of each output column, position by position.
#[derive(Debug)]
pub struct Table {
    pub rel_root: RelRoot,
    pub schema: Vec<LogicalType>,
}

impl Table {
    /// The ordered output column names, as character sequences.
    pub open spec fn output_names(&self) -> Seq<Seq<char>> {
        self.rel_root.names.deep_view()
    }

    /// The ordered resolved types, one per output column.
    pub open spec fn output_schema(&self) -> Seq<LogicalType> {
        self.schema@
    }

    /// The table invariant: the tree is well formed, its visible output
    /// types are exactly `schema`, and there is one output name per output
    /// column.
    pub open spec fn wf(&self) -> bool {
        &&& model_wf(rel_view(self.rel_root.input))
        &&& model_output_types(rel_view(self.rel_root.input)) == self.schema@
        &&& self.rel_root.names@.len() == self.schema@.len()
    }

    /// Does every name of `cols` occur in this table's output names?
    pub open spec fn columns_found(&self, cols: Seq<Seq<char>>) -> bool {
        forall|i: int| 0 <= i < cols.len() ==> has_column(self.output_names(), #[trigger] cols[i])
    }

    /// What a successful projection returns: a well-formed table whose
    /// output names are exactly the requested ones, whose types are copied
    /// from the referenced entries of the current schema, and whose root is
    /// a project node over the current tree that references each requested
    /// column by position and remaps the appended expression slots — the
    /// contiguous range starting at the current (child) row width — as its
    /// visible output.
    pub open spec fn select_ok(&self, cols: Seq<Seq<char>>, t: Table) -> bool {
        &&& self.columns_found(cols)
        &&& t.wf()
        &&& t.output_names() == cols
        &&& t.output_schema().len() == cols.len()
        &&& forall|i: int|
            0 <= i < cols.len() ==> #[trigger] t.output_schema()[i]
                == self.output_schema()[position_of(self.output_names(), cols[i])]
        &&& match t.rel_root.input {
            Rel::Project(project) => {
                &&& project.input@ == self.rel_root.input@
                &&& project.expressions@.len() == cols.len()
                &&& forall|i: int|
                    0 <= i < cols.len() ==> #[trigger] project.expressions@[i] == (Expr::ColumnRef {
                        field: position_of(self.output_names(), cols[i]) as usize,
                    })
                &&& project.output_mapping@.len() == cols.len()
                &&& forall|i: int|
                    0 <= i < cols.len() ==> (#[trigger] project.output_mapping@[i]) as int
                        == self.output_schema().len() + i
            },
            _ => false,
        }
    }

    /// What a failed projection signals: the error names the first
    /// requested column that is absent from the current output names.
    pub open spec fn select_err(&self, cols: Seq<Seq<char>>, e: TableError) -> bool {
        exists|i: int|
            {
                &&& 0 <= i < cols.len()
                &&& !has_column(self.output_names(), #[trigger] cols[i])
                &&& forall|j: int| 0 <= j < i ==> has_column(self.output_names(), #[trigger] cols[j])
                &&& e matches TableError::ColumnNotFound(missing) && missing@ == cols[i]
            }
    }

    /// Resolves one column name against the current output schema: the
    /// value references the column's first position and copies its resolved
    /// type; an absent name is signalled as `ColumnNotFound`.
    fn col(&self, field: &String) -> (res: Result<Value, TableError>)
        requires
            self.wf(),
        ensures
            match res {
                Ok(v) => {
                    &&& has_column(self.output_names(), field@)
                    &&& v.expression == (Expr::ColumnRef {
                        field: position_of(self.output_names(), field@) as usize,
                    })
                    &&& v.dtype == self.output_schema()[position_of(self.output_names(), field@)]
                },
                Err(e) => {
                    &&& !has_column(self.output_names(), field@)
                    &&& e matches TableError::ColumnNotFound(missing) && missing@ == field@
                },
            },
    {
        let ghost names = self.output_names();
        let mut i: usize = 0;
        while i < self.rel_root.names.len()
            invariant
                self.wf(),
                names == self.output_names(),
                i <= names.len(),
                forall|j: int| 0 <= j < i ==> names[j] != field@,
            decreases names.len() - i,
        {
            if self.rel_root.names[i] == *field {
                proof {
                    lemma_position_of(names, field@);
                    assert(names[i as int] == field@);
                    assert(position_of(names, field@) == i);
                }
                return Ok(
                    Value {
                        expression: Expr::ColumnRef { field: i },
                        dtype: self.schema[i],
                    },
                );
            }
            i += 1;
        }
        proof {
            lemma_position_of(names, field@);
        }
        Err(TableError::ColumnNotFound(field.clone()))
    }

    /// Projects the table to the requested columns, in request order.
    ///
    /// Every name of `columns` is resolved independently against the
    /// current output names (so the same column may be requested more than
    /// once), and position `i` of the result corresponds to `columns[i]`.
    /// The new root is a project node whose child is the current tree,
    /// whose expression list holds the resolved column references in
    /// request order, and whose output mapping is the contiguous slot range
    /// beginning at the child's full row width. A name that is absent from
    /// the current output names fails the whole call with
    /// `ColumnNotFound`, and no table is produced.
    pub fn select(&self, columns: Vec<String>) -> (res: Result<Table, TableError>)
        requires
            self.wf(),
            self.output_schema().len() + columns@.len() <= usize::MAX,
        ensures
            match res {
                Ok(t) => self.select_ok(columns.deep_view(), t),
                Err(e) => self.select_err(columns.deep_view(), e),
            },
    {
        let ghost cols = columns.deep_view();
        let mut values: Vec<Value> = Vec::new();
        let mut i: usize = 0;
        while i < columns.len()
            invariant
                self.wf(),
                cols == columns.deep_view(),
                i <= cols.len(),
                values@.len() == i,
                forall|j: int| 0 <= j < i ==> has_column(self.output_names(), #[trigger] cols[j]),
                forall|j: int|
                    0 <= j < i ==> (#[trigger] values@[j]).expression == (Expr::ColumnRef {
                        field: position_of(self.output_names(), cols[j]) as usize,
                    }),
                forall|j: int|
                    0 <= j < i ==> (#[trigger] values@[j]).dtype
                        == self.output_schema()[position_of(self.output_names(), cols[j])],
            decreases cols.len() - i,
        {
            proof {
                assert(cols[i as int] == columns@[i as int]@);
            }
            match self.col(&columns[i]) {
                Ok(v) => values.push(v),
                Err(e) => {
                    proof {
                        assert(self.select_err(cols, e)) by {
                            assert({
                                &&& 0 <= i < cols.len()
                                &&& !has_column(self.output_names(), cols[i as int])
                                &&& forall|j: int|
                                    0 <= j < i ==> has_column(
                                        self.output_names(),
                                        #[trigger] cols[j],
                                    )
                                &&& e matches TableError::ColumnNotFound(missing) && missing@
                                    == cols[i as int]
                            });
                        }
                    }
                    return Err(e);
                },
            }
            i += 1;
        }
        let start: usize = self.schema.len();
        let count: usize = values.len();
        let mut expressions: Vec<Expr> = Vec::new();
        let mut output_mapping: Vec<usize> = Vec::new();
        let mut types: Vec<LogicalType> = Vec::new();
        let mut j: usize = 0;
        while j < count
            invariant
                start == self.output_schema().len(),
                count == values@.len(),
                start + count <= usize::MAX,
                j <= count,
                expressions@.len() == j,
                output_mapping@.len() == j,
                types@.len() == j,
                forall|k: int| 0 <= k < j ==> #[trigger] expressions@[k] == values@[k].expression,
                forall|k: int| 0 <= k < j ==> #[trigger] types@[k] == values@[k].dtype,
                forall|k: int| 0 <= k < j ==> (#[trigger] output_mapping@[k]) as int == start + k,
            decreases count - j,
        {
            expressions.push(values[j].expression);
            types.push(values[j].dtype);
            output_mapping.push(start + j);
            j += 1;
        }
        let child = clone_rel(&self.rel_root.input);
        let project = ProjectRel {
            input: Box::new(child),
            expressions,
            output_mapping,
        };
        let rel_root = RelRoot { input: Rel::Project(project), names: columns };
        let result = Table { rel_root, schema: types };
        proof {
            self.lemma_select_builds_ok(cols, result);
        }
        Ok(result)
    }

    /// The constructed project node satisfies `select_ok`: its appended
    /// expression slots evaluate to the referenced columns' types, and the
    /// contiguous output mapping exposes exactly those slots.
    proof fn lemma_select_builds_ok(&self, cols: Seq<Seq<char>>, t: Table)
        requires
            self.wf(),
            self.output_schema().len() + cols.len() <= usize::MAX,
            t.output_names() == cols,
            t.rel_root.names@.len() == cols.len(),
            t.schema@.len() == cols.len(),
            forall|i: int| 0 <= i < cols.len() ==> has_column(self.output_names(), #[trigger] cols[i]),
            forall|i: int|
                0 <= i < cols.len() ==> #[trigger] t.schema@[i]
                    == self.output_schema()[position_of(self.output_names(), cols[i])],
            t.rel_root.input matches Rel::Project(project) && {
                &&& project.input@ == self.rel_root.input@
                &&& project.expressions@.len() == cols.len()
                &&& forall|i: int|
                    0 <= i < cols.len() ==> #[trigger] project.expressions@[i] == (Expr::ColumnRef {
                        field: position_of(self.output_names(), cols[i]) as usize,
                    })
                &&& project.output_mapping@.len() == cols.len()
                &&& forall|i: int|
                    0 <= i < cols.len() ==> (#[trigger] project.output_mapping@[i]) as int
                        == self.output_schema().len() + i
            },
        ensures
            self.select_ok(cols, t),
    {
        let project = t.rel_root.input->Project_0;
        let m = rel_view(t.rel_root.input);
        let input_types = model_output_types(rel_view(*project.input));
        assert(input_types == self.schema@);
        assert(input_types.len() == self.output_names().len());
        assert forall|i: int| 0 <= i < cols.len() implies {
            &&& 0 <= position_of(self.output_names(), cols[i]) < input_types.len()
            &&& self.output_names()[position_of(self.output_names(), cols[i])] == cols[i]
        } by {
            lemma_position_of(self.output_names(), cols[i]);
        }
        let full_row = input_types + project.expressions@.map(
            |_i: int, e: Expr| crate::value::expr_type(e, input_types),
        );
        assert(model_wf(m));
        assert(model_output_types(m) =~= t.schema@);
    }

    /// Wraps the finished table's algebra tree into the top-level plan
    /// container an external consumer expects: a single rooted relation
    /// carrying the tree and its output column names. Pure, stateless and
    /// total: it repackages already-valid data and validates nothing.
    pub fn to_substrait(&self) -> (p: Plan)
        ensures
            p.relations@.len() == 1,
            p.relations@[0].input@ == self.rel_root.input@,
            p.relations@[0].names@ == self.rel_root.names@,
    {
        let root = RelRoot {
            input: clone_rel(&self.rel_root.input),
            names: clone_strings(&self.rel_root.names),
        };
        let mut relations: Vec<RelRoot> = Vec::new();
        relations.push(root);
        Plan { relations }
    }
}

/// Every one of a table's own output names resolves against the table:
/// selecting them can never signal `ColumnNotFound`.
pub proof fn lemma_own_columns_found(t: Table)
    ensures
        t.columns_found(t.output_names()),
{
    assert forall|i: int| 0 <= i < t.output_names().len() implies has_column(
        t.output_names(),
        #[trigger] t.output_names()[i],
    ) by {
        lemma_position_of(t.output_names(), t.output_names()[i]);
    }
}

/// Identity projection: selecting every output column of a table, in
/// order, reproduces its output names and its output schema.
///
/// Each requested name resolves to its first position, so the schema half
/// holds exactly when equal output names carry equal output types; a table
/// whose duplicate names resolve to different types instead receives, at
/// each duplicate, the type of the name's first occurrence.
pub proof fn lemma_identity_projection(t: Table, s: Table, cols: Seq<Seq<char>>)
    requires
        t.wf(),
        cols == t.output_names(),
        forall|i: int, j: int|
            #![trigger t.output_names()[i], t.output_names()[j]]
            0 <= i < t.output_names().len() && 0 <= j < t.output_names().len()
                && t.output_names()[i] == t.output_names()[j] ==> t.output_schema()[i]
                == t.output_schema()[j],
        t.select_ok(cols, s),
    ensures
        s.output_names() == t.output_names(),
        s.output_schema() == t.output_schema(),
{
    assert forall|i: int| 0 <= i < cols.len() implies s.output_schema()[i]
        == t.output_schema()[i] by {
        lemma_position_of(t.output_names(), cols[i]);
        let p = position_of(t.output_names(), cols[i]);
        assert(t.output_names()[p] == t.output_names()[i]);
    }
    assert(s.output_schema() =~= t.output_schema());
}

/// Duplicate-safe projection: requesting the same column twice produces
/// two output columns carrying that name, both with the same resolved type
/// — the type at the name's first position in the source table.
pub proof fn lemma_duplicate_projection(t: Table, s: Table, x: Seq<char>)
    requires
        t.wf(),
        t.select_ok(seq![x, x], s),
    ensures
        s.output_names() == seq![x, x],
        s.output_schema()[0] == t.output_schema()[position_of(t.output_names(), x)],
        s.output_schema()[1] == s.output_schema()[0],
{
    assert(seq![x, x][0] == x);
    assert(seq![x, x][1] == x);
}

} // verus!
