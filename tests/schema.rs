use type_gen::ast::{Cmd, ColumnDefinition, CreateTableBody, Stmt};
use type_gen::ddl::get_relation_shapes;
use type_gen::error::{Error, UnsupportedConstruct};
use type_gen::types::{BuiltinType, Constraint, TypeKind};

fn definition(name: &str, col_type: Option<&str>, constraints: Vec<Constraint>) -> ColumnDefinition {
    ColumnDefinition { col_name: name.to_string(), col_type: col_type.map(|t| t.to_string()), constraints }
}

fn create(name: &str, columns: Vec<ColumnDefinition>) -> Cmd {
    Cmd::Stmt(Stmt::CreateTable {
        tbl_name: name.to_string(),
        body: CreateTableBody::ColumnsAndConstraints { columns },
    })
}

#[test]
fn nullability_follows_not_null() {
    let shapes = get_relation_shapes(&vec![create(
        "t",
        vec![
            definition("a", Some("INTEGER"), vec![]),
            definition("b", Some("INTEGER"), vec![Constraint::NotNull]),
            definition("c", Some("TEXT"), vec![Constraint::Unique, Constraint::PrimaryKey]),
            definition("d", None, vec![Constraint::ForeignKey, Constraint::NotNull]),
        ],
    )])
    .unwrap();
    let null = (TypeKind::Builtin, Some(BuiltinType::Null), None);
    let cols = &shapes[0].1;
    assert!(cols[0].1.contains(&null));
    assert!(!cols[1].1.contains(&null));
    assert!(cols[2].1.contains(&null));
    assert_eq!(cols[3].1, vec![(TypeKind::Builtin, Some(BuiltinType::Unspecified), None)]);
}

#[test]
fn table_and_column_names_are_unquoted() {
    let shapes = get_relation_shapes(&vec![create(
        "\"my table\"",
        vec![definition("[col]", Some("json"), vec![Constraint::NotNull]), definition("`x`", Some("Money"), vec![])],
    )])
    .unwrap();
    assert_eq!(
        shapes,
        vec![(
            "main.my table".to_string(),
            vec![
                ("col".to_string(), vec![(TypeKind::Builtin, Some(BuiltinType::Json), None)]),
                (
                    "x".to_string(),
                    vec![
                        (TypeKind::Custom, None, Some("Money".to_string())),
                        (TypeKind::Builtin, Some(BuiltinType::Null), None)
                    ]
                ),
            ]
        )]
    );
}

#[test]
fn other_statements_are_ignored() {
    let cmds = vec![
        Cmd::Explain,
        Cmd::Stmt(Stmt::Other),
        create("a", vec![]),
        create("b", vec![definition("x", Some("real"), vec![Constraint::NotNull])]),
    ];
    let shapes = get_relation_shapes(&cmds).unwrap();
    assert_eq!(
        shapes,
        vec![
            ("main.a".to_string(), vec![]),
            ("main.b".to_string(), vec![("x".to_string(), vec![(TypeKind::Builtin, Some(BuiltinType::Float), None)])]),
        ]
    );
}

#[test]
fn create_table_as_select_is_unsupported() {
    let cmds = vec![
        create("a", vec![]),
        Cmd::Stmt(Stmt::CreateTable { tbl_name: "b".to_string(), body: CreateTableBody::AsSelect }),
    ];
    assert_eq!(
        get_relation_shapes(&cmds),
        Err(Error::Unsupported(UnsupportedConstruct::CreateTableAsSelect))
    );
}
