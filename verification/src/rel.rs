//! The algebra tree: its node kinds, their mathematical model, and the
//! well-formedness and output-type rules the builder maintains.

use vstd::prelude::*;

use crate::value::{expr_type, expr_wf, Expr, LogicalType};

verus! {

/// A read operator: the leaf of an algebra tree. It declares the full
/// output schema (`names` and `types`, position by position) of the named
/// external source it stands for.
#[derive(Debug)]
pub struct ReadRel {
    pub source_name: String,
    pub names: Vec<String>,
    pub types: Vec<LogicalType>,
}

/// A project operator. Its evaluation appends the results of
/// `expressions`, in order, after the input's own columns, and then exposes
/// as visible output exactly the row slots listed in `output_mapping`, in
/// that order.
#[derive(Debug)]
pub struct ProjectRel {
    pub input: Box<Rel>,
    pub expressions: Vec<Expr>,
    pub output_mapping: Vec<usize>,
}

/// One node of the algebra tree. Further operator kinds (filter,
/// aggregate, join) are additive variants.
#[derive(Debug)]
pub enum Rel {
    Read(ReadRel),
    Project(ProjectRel),
}

/// A finished algebra tree together with the column names its root
/// exposes, one per visible output column.
#[derive(Debug)]
pub struct RelRoot {
    pub input: Rel,
    pub names: Vec<String>,
}

/// The top-level container handed to an external consumer: a sequence of
/// rooted relations. This builder always produces exactly one.
#[derive(Debug)]
pub struct Plan {
    pub relations: Vec<RelRoot>,
}

/// The mathematical shape of an algebra-tree node: every string as a
/// sequence of characters, every vector as a sequence.
pub enum RelModel {
    Read { source_name: Seq<char>, names: Seq<Seq<char>>, types: Seq<LogicalType> },
    Project { input: Box<RelModel>, expressions: Seq<Expr>, output_mapping: Seq<usize> },
}

/// The model of an algebra-tree node.
pub open spec fn rel_view(r: Rel) -> RelModel
    decreases r,
{
    match r {
        Rel::Read(read) => RelModel::Read {
            source_name: read.source_name@,
            names: read.names.deep_view(),
            types: read.types@,
        },
        Rel::Project(project) => RelModel::Project {
            input: Box::new(rel_view(*project.input)),
            expressions: project.expressions@,
            output_mapping: project.output_mapping@,
        },
    }
}

impl View for Rel {
    type V = RelModel;

    open spec fn view(&self) -> RelModel {
        rel_view(*self)
    }
}

/// The visible output column types of a node: a read exposes its declared
/// schema; a project appends its expressions' result types after its
/// input's columns and then reads off the row slots of its output mapping.
pub open spec fn model_output_types(m: RelModel) -> Seq<LogicalType>
    decreases m,
{
    match m {
        RelModel::Read { types, .. } => types,
        RelModel::Project { input, expressions, output_mapping } => {
            let input_types = model_output_types(*input);
            let full_row = input_types + expressions.map(
                |_i: int, e: Expr| expr_type(e, input_types),
            );
            output_mapping.map(|_i: int, slot: usize| full_row[slot as int])
        },
    }
}

/// Well-formedness of an algebra-tree node: a read declares one type per
/// name; a project references only columns its input exposes, and its
/// output mapping stays inside the appended row (input columns followed by
/// one slot per expression).
pub open spec fn model_wf(m: RelModel) -> bool
    decreases m,
{
    match m {
        RelModel::Read { names, types, .. } => names.len() == types.len(),
        RelModel::Project { input, expressions, output_mapping } => {
            let input_width = model_output_types(*input).len();
            &&& model_wf(*input)
            &&& forall|i: int|
                0 <= i < expressions.len() ==> expr_wf(#[trigger] expressions[i], input_width)
            &&& forall|i: int|
                0 <= i < output_mapping.len() ==> (#[trigger] output_mapping[i]) < input_width
                    + expressions.len()
        },
    }
}

/// Copies a vector of copyable elements.
pub(crate) fn clone_vec_copy<T: Copy>(v: &Vec<T>) -> (r: Vec<T>)
    ensures
        r@ == v@,
{
    let mut r: Vec<T> = Vec::new();
    let mut i: usize = 0;
    while i < v.len()
        invariant
            i <= v@.len(),
            r@ == v@.subrange(0, i as int),
        decreases v@.len() - i,
    {
        r.push(v[i]);
        proof {
            assert(r@ =~= v@.subrange(0, i + 1 as int));
        }
        i += 1;
    }
    proof {
        assert(r@ =~= v@);
    }
    r
}

/// Copies a vector of strings; the copy holds equal strings in the same
/// order.
pub(crate) fn clone_strings(v: &Vec<String>) -> (r: Vec<String>)
    ensures
        r@ == v@,
        r.deep_view() == v.deep_view(),
{
    let mut r: Vec<String> = Vec::new();
    let mut i: usize = 0;
    while i < v.len()
        invariant
            i <= v@.len(),
            r@ == v@.subrange(0, i as int),
        decreases v@.len() - i,
    {
        r.push(v[i].clone());
        proof {
            assert(r@ =~= v@.subrange(0, i + 1 as int));
        }
        i += 1;
    }
    proof {
        assert(r@ =~= v@);
    }
    r
}

/// Copies an algebra tree; the copy has the same model as the original.
pub(crate) fn clone_rel(r: &Rel) -> (res: Rel)
    ensures
        res@ == r@,
    decreases *r,
{
    match r {
        Rel::Read(read) => Rel::Read(
            ReadRel {
                source_name: read.source_name.clone(),
                names: clone_strings(&read.names),
                types: clone_vec_copy(&read.types),
            },
        ),
        Rel::Project(project) => Rel::Project(
            ProjectRel {
                input: Box::new(clone_rel(&project.input)),
                expressions: clone_vec_copy(&project.expressions),
                output_mapping: clone_vec_copy(&project.output_mapping),
            },
        ),
    }
}

} // verus!
