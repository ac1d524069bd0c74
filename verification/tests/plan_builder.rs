use subframe_rs::rel::Rel;
use subframe_rs::value::{Expr, LogicalType};
use subframe_rs::{table, Table, TableError};

fn s(text: &str) -> String {
    text.to_string()
}

fn abc_i64() -> Table {
    table(
        vec![(s("a"), s("i64")), (s("b"), s("i64")), (s("c"), s("i64"))],
        s("example"),
    )
}

#[test]
fn entry_preserves_names_and_types() {
    let t = table(
        vec![
            (s("a"), s("i8")),
            (s("b"), s("i16")),
            (s("c"), s("i32")),
            (s("d"), s("i64")),
        ],
        s("src"),
    );
    assert_eq!(t.rel_root.names, vec![s("a"), s("b"), s("c"), s("d")]);
    assert_eq!(
        t.schema,
        vec![
            LogicalType::I8,
            LogicalType::I16,
            LogicalType::I32,
            LogicalType::I64,
        ]
    );
}

#[test]
fn entry_keeps_unknown_token_as_unspecified() {
    let t = table(vec![(s("a"), s("text")), (s("b"), s("i64"))], s("src"));
    assert_eq!(t.schema, vec![LogicalType::Unspecified, LogicalType::I64]);
}

#[test]
fn entry_type_tokens_are_exact_matches() {
    let t = table(
        vec![(s("a"), s("I64")), (s("b"), s("i6")), (s("c"), s("i64 "))],
        s("src"),
    );
    assert_eq!(
        t.schema,
        vec![
            LogicalType::Unspecified,
            LogicalType::Unspecified,
            LogicalType::Unspecified,
        ]
    );
}

#[test]
fn entry_declares_read_over_source() {
    let t = table(vec![(s("a"), s("i64"))], s("people"));
    match &t.rel_root.input {
        Rel::Read(read) => {
            assert_eq!(read.source_name, s("people"));
            assert_eq!(read.names, vec![s("a")]);
            assert_eq!(read.types, vec![LogicalType::I64]);
        }
        _ => panic!("entry must build a read node"),
    }
}

#[test]
fn entry_accepts_empty_schema() {
    let t = table(vec![], s("empty"));
    assert_eq!(t.rel_root.names, Vec::<String>::new());
    assert_eq!(t.schema, Vec::<LogicalType>::new());
}

#[test]
fn select_projects_names_and_types_in_request_order() {
    let t = table(
        vec![(s("a"), s("i8")), (s("b"), s("i16")), (s("c"), s("i64"))],
        s("src"),
    );
    let p = t.select(vec![s("c"), s("a")]).unwrap();
    assert_eq!(p.rel_root.names, vec![s("c"), s("a")]);
    assert_eq!(p.schema, vec![LogicalType::I64, LogicalType::I8]);
}

#[test]
fn select_duplicate_name_resolves_each_occurrence() {
    let t = table(vec![(s("a"), s("i8")), (s("b"), s("i16"))], s("src"));
    let p = t.select(vec![s("b"), s("b")]).unwrap();
    assert_eq!(p.rel_root.names, vec![s("b"), s("b")]);
    assert_eq!(p.schema, vec![LogicalType::I16, LogicalType::I16]);
}

#[test]
fn select_all_columns_reproduces_schema() {
    let t = table(
        vec![(s("a"), s("i8")), (s("b"), s("i16")), (s("c"), s("i64"))],
        s("src"),
    );
    let p = t.select(vec![s("a"), s("b"), s("c")]).unwrap();
    assert_eq!(p.rel_root.names, t.rel_root.names);
    assert_eq!(p.schema, t.schema);
}

#[test]
fn chained_projection_narrows() {
    let p = abc_i64()
        .select(vec![s("a"), s("c")])
        .unwrap()
        .select(vec![s("c")])
        .unwrap();
    assert_eq!(p.rel_root.names, vec![s("c")]);
    assert_eq!(p.schema, vec![LogicalType::I64]);
}

#[test]
fn select_missing_column_fails_with_column_not_found() {
    let t = table(vec![(s("a"), s("i64"))], s("t"));
    let err = t.select(vec![s("z")]).unwrap_err();
    assert_eq!(err, TableError::ColumnNotFound(s("z")));
}

#[test]
fn select_reports_first_missing_column() {
    let t = table(vec![(s("a"), s("i64")), (s("b"), s("i64"))], s("t"));
    let err = t.select(vec![s("a"), s("x"), s("y")]).unwrap_err();
    assert_eq!(err, TableError::ColumnNotFound(s("x")));
}

#[test]
fn select_builds_column_references_by_position() {
    let t = table(
        vec![(s("a"), s("i8")), (s("b"), s("i16")), (s("c"), s("i64"))],
        s("src"),
    );
    let p = t.select(vec![s("c"), s("a"), s("c")]).unwrap();
    match &p.rel_root.input {
        Rel::Project(project) => {
            assert!(matches!(project.expressions[0], Expr::ColumnRef { field: 2 }));
            assert!(matches!(project.expressions[1], Expr::ColumnRef { field: 0 }));
            assert!(matches!(project.expressions[2], Expr::ColumnRef { field: 2 }));
        }
        _ => panic!("select must build a project node"),
    }
}

#[test]
fn project_remap_starts_at_child_row_width() {
    let first = abc_i64().select(vec![s("a"), s("c")]).unwrap();
    match &first.rel_root.input {
        Rel::Project(project) => {
            assert_eq!(project.output_mapping, vec![3, 4]);
        }
        _ => panic!("select must build a project node"),
    }
    let second = first.select(vec![s("c")]).unwrap();
    match &second.rel_root.input {
        Rel::Project(project) => {
            assert_eq!(project.output_mapping, vec![2]);
            match project.input.as_ref() {
                Rel::Project(inner) => assert_eq!(inner.output_mapping, vec![3, 4]),
                _ => panic!("the child must be the first projection"),
            }
        }
        _ => panic!("select must build a project node"),
    }
}

#[test]
fn to_substrait_wraps_one_rooted_relation() {
    let t = abc_i64().select(vec![s("b")]).unwrap();
    let plan = t.to_substrait();
    assert_eq!(plan.relations.len(), 1);
    assert_eq!(plan.relations[0].names, vec![s("b")]);
    match &plan.relations[0].input {
        Rel::Project(project) => assert_eq!(project.output_mapping, vec![3]),
        _ => panic!("the rooted relation must carry the projection"),
    }
}
