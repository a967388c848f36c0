use type_gen::ast::{
    Cmd, ColumnDefinition, CreateTableBody, Expr, FromClause, JoinOperator, JoinType,
    JoinedSelectTable, Literal, OneSelect, Operator, QualifiedName, ResultColumn, Select,
    SelectTable, Stmt,
};
use type_gen::ddl;
use type_gen::error::{ArityError, Error};
use type_gen::queries::{get_result_shapes, TokenCollector};
use type_gen::types::{BuiltinType, ColType, Constraint, NamedRelation, TypeKind};

fn column(name: &str, col_type: Option<&str>, not_null: bool) -> ColumnDefinition {
    ColumnDefinition {
        col_name: name.to_string(),
        col_type: col_type.map(|t| t.to_string()),
        constraints: if not_null { vec![Constraint::NotNull] } else { vec![] },
    }
}

fn create_table(name: &str, columns: Vec<ColumnDefinition>) -> Cmd {
    Cmd::Stmt(Stmt::CreateTable {
        tbl_name: name.to_string(),
        body: CreateTableBody::ColumnsAndConstraints { columns },
    })
}

fn schema_of(cmds: Vec<Cmd>) -> Vec<NamedRelation> {
    ddl::get_relation_shapes(&cmds).unwrap()
}

fn table(name: &str, alias: Option<&str>) -> SelectTable {
    SelectTable::Table(
        QualifiedName { db_name: None, name: name.to_string() },
        alias.map(|a| a.to_string()),
    )
}

fn join(operator: JoinOperator, table: SelectTable) -> JoinedSelectTable {
    JoinedSelectTable { operator, table }
}

fn expr(e: Expr, tokens: &[&str]) -> ResultColumn {
    ResultColumn::Expr {
        expr: e,
        alias: None,
        text: TokenCollector { parts: tokens.iter().map(|t| t.to_string()).collect() },
    }
}

fn aliased(e: Expr, alias: &str) -> ResultColumn {
    ResultColumn::Expr {
        expr: e,
        alias: Some(alias.to_string()),
        text: TokenCollector { parts: vec![] },
    }
}

fn id(name: &str) -> ResultColumn {
    expr(Expr::Id(name.to_string()), &[name])
}

fn select(columns: Vec<ResultColumn>, first: SelectTable, joins: Vec<JoinedSelectTable>) -> Select {
    Select {
        body: OneSelect::Select {
            columns,
            from: Some(FromClause { select: Box::new(first), joins }),
        },
    }
}

fn select_without_from(columns: Vec<ResultColumn>) -> Select {
    Select { body: OneSelect::Select { columns, from: None } }
}

fn query(s: Select) -> Vec<Cmd> {
    vec![Cmd::Stmt(Stmt::Select(s))]
}

fn builtin(b: BuiltinType) -> ColType {
    vec![(TypeKind::Builtin, Some(b), None)]
}

fn nullable(b: BuiltinType) -> ColType {
    vec![(TypeKind::Builtin, Some(b), None), (TypeKind::Builtin, Some(BuiltinType::Null), None)]
}

fn foo_bar_not_null() -> Vec<NamedRelation> {
    schema_of(vec![
        create_table("foo", vec![column("a", Some("INTEGER"), true), column("b", Some("TEXT"), true)]),
        create_table("bar", vec![column("c", Some("ANY"), true)]),
    ])
}

fn single_expression(e: Expr, tokens: &[&str], schema: &Vec<NamedRelation>) -> Result<ColType, Error> {
    let shapes = get_result_shapes(&query(select(vec![expr(e, tokens)], table("foo", None), vec![])), schema)?;
    assert_eq!(shapes.len(), 1);
    assert_eq!(shapes[0].1.len(), 1);
    Ok(shapes[0].1[0].1.clone())
}

#[test]
fn select_count() {
    let schema = schema_of(vec![create_table("foo", vec![column("a", None, false)])]);
    let query_shapes = get_result_shapes(
        &query(select(
            vec![expr(Expr::FunctionCallStar { name: "count".to_string() }, &["count"])],
            table("foo", None),
            vec![],
        )),
        &schema,
    )
    .unwrap();
    assert_eq!(
        query_shapes,
        vec![(
            None,
            vec![(
                "count".to_string(),
                vec![(TypeKind::Builtin, Some(BuiltinType::Int), None)]
            )]
        )]
    )
}

#[test]
fn select_star_single_table_nullable() {
    let schema = schema_of(vec![create_table(
        "foo",
        vec![column("a", Some("INTEGER"), false), column("b", Some("TEXT"), false)],
    )]);
    let query_shapes =
        get_result_shapes(&query(select(vec![ResultColumn::Star], table("foo", None), vec![])), &schema)
            .unwrap();
    assert_eq!(
        query_shapes,
        vec![(
            None,
            vec![
                (
                    "a".to_string(),
                    vec![
                        (TypeKind::Builtin, Some(BuiltinType::Int), None),
                        (TypeKind::Builtin, Some(BuiltinType::Null), None)
                    ]
                ),
                (
                    "b".to_string(),
                    vec![
                        (TypeKind::Builtin, Some(BuiltinType::String), None),
                        (TypeKind::Builtin, Some(BuiltinType::Null), None)
                    ]
                )
            ]
        )]
    )
}

#[test]
fn select_start_single_table_not_null() {
    let schema = schema_of(vec![create_table(
        "foo",
        vec![column("a", Some("INTEGER"), true), column("b", Some("TEXT"), true)],
    )]);
    let query_shapes =
        get_result_shapes(&query(select(vec![ResultColumn::Star], table("foo", None), vec![])), &schema)
            .unwrap();
    assert_eq!(
        query_shapes,
        vec![(
            None,
            vec![
                ("a".to_string(), vec![(TypeKind::Builtin, Some(BuiltinType::Int), None),]),
                ("b".to_string(), vec![(TypeKind::Builtin, Some(BuiltinType::String), None),])
            ]
        )]
    )
}

#[test]
fn select_named_single_table() {
    let schema = schema_of(vec![create_table(
        "foo",
        vec![column("a", Some("INTEGER"), true), column("b", Some("TEXT"), true)],
    )]);
    let query_shapes =
        get_result_shapes(&query(select(vec![id("a"), id("b")], table("foo", None), vec![])), &schema)
            .unwrap();
    assert_eq!(
        query_shapes,
        vec![(
            None,
            vec![
                ("a".to_string(), vec![(TypeKind::Builtin, Some(BuiltinType::Int), None),]),
                ("b".to_string(), vec![(TypeKind::Builtin, Some(BuiltinType::String), None),])
            ]
        )]
    )
}

#[test]
fn select_named_reverse_order_single_tabe() {
    let schema = schema_of(vec![create_table(
        "foo",
        vec![column("a", Some("INTEGER"), true), column("b", Some("TEXT"), true)],
    )]);
    let query_shapes =
        get_result_shapes(&query(select(vec![id("b"), id("a")], table("foo", None), vec![])), &schema)
            .unwrap();
    assert_eq!(
        query_shapes,
        vec![(
            None,
            vec![
                ("b".to_string(), vec![(TypeKind::Builtin, Some(BuiltinType::String), None),]),
                ("a".to_string(), vec![(TypeKind::Builtin, Some(BuiltinType::Int), None),]),
            ]
        )]
    )
}

#[test]
fn select_star_inner_joins() {
    let schema = schema_of(vec![
        create_table("foo", vec![column("a", Some("INTEGER"), true), column("b", Some("TEXT"), true)]),
        create_table("bar", vec![column("c", Some("ANY"), true), column("d", Some("ANY"), true)]),
        create_table("baz", vec![column("e", None, true), column("f", None, true)]),
    ]);
    let plain = JoinOperator::TypedJoin(None);
    let query_shapes = get_result_shapes(
        &query(select(
            vec![ResultColumn::Star],
            table("foo", None),
            vec![join(plain, table("bar", None)), join(plain, table("baz", None))],
        )),
        &schema,
    )
    .unwrap();
    assert_eq!(
        query_shapes,
        vec![(
            None,
            vec![
                ("a".to_string(), vec![(TypeKind::Builtin, Some(BuiltinType::Int), None)]),
                ("b".to_string(), vec![(TypeKind::Builtin, Some(BuiltinType::String), None)]),
                ("c".to_string(), vec![(TypeKind::Builtin, Some(BuiltinType::Any), None)]),
                ("d".to_string(), vec![(TypeKind::Builtin, Some(BuiltinType::Any), None)]),
                ("e".to_string(), vec![(TypeKind::Builtin, Some(BuiltinType::Unspecified), None)]),
                ("f".to_string(), vec![(TypeKind::Builtin, Some(BuiltinType::Unspecified), None)])
            ]
        )]
    )
}

#[test]
fn inner_join_keeps_both_sides_not_null() {
    let schema = foo_bar_not_null();
    let shapes = get_result_shapes(
        &query(select(
            vec![ResultColumn::Star],
            table("foo", None),
            vec![join(JoinOperator::TypedJoin(None), table("bar", None))],
        )),
        &schema,
    )
    .unwrap();
    assert_eq!(
        shapes,
        vec![(
            None,
            vec![
                ("a".to_string(), builtin(BuiltinType::Int)),
                ("b".to_string(), builtin(BuiltinType::String)),
                ("c".to_string(), builtin(BuiltinType::Any)),
            ]
        )]
    );
}

#[test]
fn left_join_makes_right_side_nullable() {
    let schema = foo_bar_not_null();
    for jt in [JoinType::Left, JoinType::LeftOuter] {
        let shapes = get_result_shapes(
            &query(select(
                vec![ResultColumn::Star],
                table("foo", None),
                vec![join(JoinOperator::TypedJoin(Some(jt)), table("bar", None))],
            )),
            &schema,
        )
        .unwrap();
        assert_eq!(
            shapes[0].1,
            vec![
                ("a".to_string(), builtin(BuiltinType::Int)),
                ("b".to_string(), builtin(BuiltinType::String)),
                ("c".to_string(), nullable(BuiltinType::Any)),
            ]
        );
    }
}

#[test]
fn right_join_makes_left_side_nullable() {
    let schema = foo_bar_not_null();
    for jt in [JoinType::Right, JoinType::RightOuter] {
        let shapes = get_result_shapes(
            &query(select(
                vec![ResultColumn::Star],
                table("foo", None),
                vec![join(JoinOperator::TypedJoin(Some(jt)), table("bar", None))],
            )),
            &schema,
        )
        .unwrap();
        assert_eq!(
            shapes[0].1,
            vec![
                ("a".to_string(), nullable(BuiltinType::Int)),
                ("b".to_string(), nullable(BuiltinType::String)),
                ("c".to_string(), builtin(BuiltinType::Any)),
            ]
        );
    }
}

#[test]
fn full_join_makes_both_sides_nullable() {
    let schema = foo_bar_not_null();
    for jt in [JoinType::Full, JoinType::FullOuter] {
        let shapes = get_result_shapes(
            &query(select(
                vec![ResultColumn::Star],
                table("foo", None),
                vec![join(JoinOperator::TypedJoin(Some(jt)), table("bar", None))],
            )),
            &schema,
        )
        .unwrap();
        assert_eq!(
            shapes[0].1,
            vec![
                ("a".to_string(), nullable(BuiltinType::Int)),
                ("b".to_string(), nullable(BuiltinType::String)),
                ("c".to_string(), nullable(BuiltinType::Any)),
            ]
        );
    }
}

#[test]
fn cross_and_comma_joins_keep_nullability() {
    let schema = foo_bar_not_null();
    for op in [
        JoinOperator::Comma,
        JoinOperator::TypedJoin(Some(JoinType::Cross)),
        JoinOperator::TypedJoin(Some(JoinType::Inner)),
    ] {
        let shapes = get_result_shapes(
            &query(select(vec![ResultColumn::Star], table("foo", None), vec![join(op, table("bar", None))])),
            &schema,
        )
        .unwrap();
        assert_eq!(shapes[0].1[2], ("c".to_string(), builtin(BuiltinType::Any)));
        assert_eq!(shapes[0].1[0], ("a".to_string(), builtin(BuiltinType::Int)));
    }
}

#[test]
fn right_join_touches_only_the_adjacent_relation() {
    let schema = schema_of(vec![
        create_table("foo", vec![column("a", Some("INTEGER"), true)]),
        create_table("bar", vec![column("c", Some("ANY"), true)]),
        create_table("baz", vec![column("e", Some("BLOB"), true)]),
    ]);
    let shapes = get_result_shapes(
        &query(select(
            vec![ResultColumn::Star],
            table("foo", None),
            vec![
                join(JoinOperator::TypedJoin(None), table("bar", None)),
                join(JoinOperator::TypedJoin(Some(JoinType::Right)), table("baz", None)),
            ],
        )),
        &schema,
    )
    .unwrap();
    assert_eq!(
        shapes[0].1,
        vec![
            ("a".to_string(), builtin(BuiltinType::Int)),
            ("c".to_string(), nullable(BuiltinType::Any)),
            ("e".to_string(), builtin(BuiltinType::Blob)),
        ]
    );
}

#[test]
fn already_nullable_column_gains_no_second_null() {
    let schema = schema_of(vec![
        create_table("foo", vec![column("a", Some("INTEGER"), true)]),
        create_table("bar", vec![column("c", Some("TEXT"), false)]),
    ]);
    let shapes = get_result_shapes(
        &query(select(
            vec![ResultColumn::Star],
            table("foo", None),
            vec![join(JoinOperator::TypedJoin(Some(JoinType::Left)), table("bar", None))],
        )),
        &schema,
    )
    .unwrap();
    assert_eq!(shapes[0].1[1], ("c".to_string(), nullable(BuiltinType::String)));
}

#[test]
fn table_star_under_alias() {
    let schema = foo_bar_not_null();
    let shapes = get_result_shapes(
        &query(select(
            vec![ResultColumn::TableStar("f".to_string())],
            table("foo", Some("f")),
            vec![join(JoinOperator::TypedJoin(None), table("bar", None))],
        )),
        &schema,
    )
    .unwrap();
    assert_eq!(
        shapes,
        vec![(
            None,
            vec![
                ("a".to_string(), builtin(BuiltinType::Int)),
                ("b".to_string(), builtin(BuiltinType::String)),
            ]
        )]
    );
}

#[test]
fn table_star_by_table_name() {
    let schema = foo_bar_not_null();
    let shapes = get_result_shapes(
        &query(select(
            vec![ResultColumn::TableStar("bar".to_string())],
            table("foo", None),
            vec![join(JoinOperator::Comma, table("bar", None))],
        )),
        &schema,
    )
    .unwrap();
    assert_eq!(shapes[0].1, vec![("c".to_string(), builtin(BuiltinType::Any))]);
}

#[test]
fn table_star_of_unknown_relation_fails() {
    let schema = foo_bar_not_null();
    let r = get_result_shapes(
        &query(select(vec![ResultColumn::TableStar("nope".to_string())], table("foo", None), vec![])),
        &schema,
    );
    assert_eq!(r, Err(Error::UnresolvedRelation("nope".to_string())));
}

#[test]
fn bare_column_in_one_relation_resolves() {
    let schema = foo_bar_not_null();
    let shapes = get_result_shapes(
        &query(select(
            vec![id("c")],
            table("foo", None),
            vec![join(JoinOperator::TypedJoin(Some(JoinType::Left)), table("bar", None))],
        )),
        &schema,
    )
    .unwrap();
    assert_eq!(shapes[0].1, vec![("c".to_string(), nullable(BuiltinType::Any))]);
}

#[test]
fn absent_bare_column_fails() {
    let schema = foo_bar_not_null();
    let r = get_result_shapes(&query(select(vec![id("zz")], table("foo", None), vec![])), &schema);
    assert_eq!(r, Err(Error::UnresolvedColumn("zz".to_string())));
}

#[test]
fn qualified_columns_resolve_by_relation_name() {
    let schema = foo_bar_not_null();
    let shapes = get_result_shapes(
        &query(select(
            vec![
                expr(Expr::Qualified("f".to_string(), "b".to_string()), &["f", "b"]),
                expr(
                    Expr::DoublyQualified("main".to_string(), "bar".to_string(), "c".to_string()),
                    &["main", "bar", "c"],
                ),
            ],
            table("foo", Some("f")),
            vec![join(JoinOperator::Comma, table("bar", None))],
        )),
        &schema,
    )
    .unwrap();
    assert_eq!(
        shapes[0].1,
        vec![
            ("f b".to_string(), builtin(BuiltinType::String)),
            ("main bar c".to_string(), builtin(BuiltinType::Any)),
        ]
    );
    let r = get_result_shapes(
        &query(select(
            vec![expr(Expr::Qualified("foo".to_string(), "c".to_string()), &["foo", "c"])],
            table("foo", None),
            vec![join(JoinOperator::Comma, table("bar", None))],
        )),
        &schema,
    );
    assert_eq!(r, Err(Error::UnresolvedColumn("foo.c".to_string())));
}

#[test]
fn aliased_expression_takes_its_alias() {
    let schema = foo_bar_not_null();
    let shapes = get_result_shapes(
        &query(select(vec![aliased(Expr::Id("a".to_string()), "x")], table("foo", None), vec![])),
        &schema,
    )
    .unwrap();
    assert_eq!(shapes[0].1, vec![("x".to_string(), builtin(BuiltinType::Int))]);
}

#[test]
fn scalar_subquery_has_its_column_type() {
    let schema = foo_bar_not_null();
    let inner = select(vec![id("b")], table("foo", None), vec![]);
    let shapes = get_result_shapes(
        &query(select_without_from(vec![aliased(Expr::Subquery(Box::new(inner)), "s")])),
        &schema,
    )
    .unwrap();
    assert_eq!(shapes[0].1, vec![("s".to_string(), builtin(BuiltinType::String))]);
}

#[test]
fn subquery_without_columns_fails() {
    let schema = schema_of(vec![create_table("empty", vec![])]);
    let inner = select(vec![ResultColumn::Star], table("empty", None), vec![]);
    let r = get_result_shapes(
        &query(select_without_from(vec![aliased(Expr::Subquery(Box::new(inner)), "s")])),
        &schema,
    );
    assert_eq!(r, Err(Error::Arity(ArityError::SubqueryWithoutColumn)));
}

#[test]
fn correlated_subquery_sees_outer_relations() {
    let schema = foo_bar_not_null();
    let inner = select(vec![id("a")], table("bar", None), vec![]);
    let shapes = get_result_shapes(
        &query(select(vec![aliased(Expr::Subquery(Box::new(inner)), "s")], table("foo", None), vec![])),
        &schema,
    )
    .unwrap();
    assert_eq!(shapes[0].1, vec![("s".to_string(), builtin(BuiltinType::Int))]);
}

#[test]
fn subquery_in_from_under_alias() {
    let schema = foo_bar_not_null();
    let inner = select(vec![aliased(Expr::Id("a".to_string()), "x")], table("foo", None), vec![]);
    let shapes = get_result_shapes(
        &query(select(
            vec![expr(Expr::Qualified("q".to_string(), "x".to_string()), &["q", "x"])],
            SelectTable::Select(inner, Some("q".to_string())),
            vec![],
        )),
        &schema,
    )
    .unwrap();
    assert_eq!(shapes[0].1, vec![("q x".to_string(), builtin(BuiltinType::Int))]);
}

#[test]
fn parenthesized_join_yields_its_first_relation() {
    let schema = foo_bar_not_null();
    let group = FromClause {
        select: Box::new(table("bar", None)),
        joins: vec![join(JoinOperator::Comma, table("foo", None))],
    };
    let shapes = get_result_shapes(
        &query(select(vec![ResultColumn::Star], SelectTable::Sub(group, Some("g".to_string())), vec![])),
        &schema,
    )
    .unwrap();
    assert_eq!(shapes[0].1, vec![("c".to_string(), builtin(BuiltinType::Any))]);
}

#[test]
fn missing_table_has_no_columns() {
    let schema = foo_bar_not_null();
    let shapes =
        get_result_shapes(&query(select(vec![ResultColumn::Star], table("nope", None), vec![])), &schema)
            .unwrap();
    assert_eq!(shapes, vec![(None, vec![])]);
}

#[test]
fn later_declaration_of_a_table_wins() {
    let schema = schema_of(vec![
        create_table("foo", vec![column("a", Some("INTEGER"), true)]),
        create_table("foo", vec![column("z", Some("TEXT"), true)]),
    ]);
    let shapes =
        get_result_shapes(&query(select(vec![ResultColumn::Star], table("foo", None), vec![])), &schema)
            .unwrap();
    assert_eq!(shapes[0].1, vec![("z".to_string(), builtin(BuiltinType::String))]);
}

#[test]
fn values_columns_are_numbered() {
    let schema = foo_bar_not_null();
    let rows = vec![vec![
        Expr::Literal(Literal::Numeric("1".to_string())),
        Expr::Literal(Literal::String("'x'".to_string())),
        Expr::Literal(Literal::Null),
    ]];
    let shapes =
        get_result_shapes(&query(Select { body: OneSelect::Values(rows) }), &schema).unwrap();
    assert_eq!(
        shapes,
        vec![(
            None,
            vec![
                (
                    "column0".to_string(),
                    vec![(TypeKind::Literal, Some(BuiltinType::Number), Some("1".to_string()))]
                ),
                (
                    "column1".to_string(),
                    vec![(TypeKind::Literal, Some(BuiltinType::String), Some("'x'".to_string()))]
                ),
                ("column2".to_string(), builtin(BuiltinType::Null)),
            ]
        )]
    );
}

#[test]
fn values_column_names_past_ten() {
    let schema = foo_bar_not_null();
    let row: Vec<Expr> = (0..12).map(|_| Expr::Literal(Literal::Null)).collect();
    let shapes =
        get_result_shapes(&query(Select { body: OneSelect::Values(vec![row]) }), &schema).unwrap();
    assert_eq!(shapes[0].1[10].0, "column10");
    assert_eq!(shapes[0].1[11].0, "column11");
}

#[test]
fn empty_values_fails() {
    let schema = foo_bar_not_null();
    let r = get_result_shapes(&query(Select { body: OneSelect::Values(vec![]) }), &schema);
    assert_eq!(r, Err(Error::Arity(ArityError::EmptyValues)));
}

#[test]
fn case_takes_its_first_branch_type() {
    let schema = foo_bar_not_null();
    let e = Expr::Case {
        when_then_pairs: vec![
            (Expr::Binary(Operator::Equals), Expr::Literal(Literal::Numeric("2".to_string()))),
            (Expr::Binary(Operator::Less), Expr::Literal(Literal::Null)),
        ],
    };
    assert_eq!(
        single_expression(e, &["CASE"], &schema),
        Ok(vec![(TypeKind::Literal, Some(BuiltinType::Number), Some("2".to_string()))])
    );
    let empty = Expr::Case { when_then_pairs: vec![] };
    assert_eq!(single_expression(empty, &["CASE"], &schema), Err(Error::Arity(ArityError::CaseWithoutBranch)));
}

#[test]
fn parenthesized_expression_needs_one_expression() {
    let schema = foo_bar_not_null();
    let one = Expr::Parenthesized(vec![Expr::Binary(Operator::Concat)]);
    assert_eq!(single_expression(one, &["a"], &schema), Ok(builtin(BuiltinType::String)));
    let two = Expr::Parenthesized(vec![Expr::Binary(Operator::Concat), Expr::Binary(Operator::Add)]);
    assert_eq!(single_expression(two, &["a"], &schema), Err(Error::Arity(ArityError::ParenthesizedCount)));
    let none = Expr::Parenthesized(vec![]);
    assert_eq!(single_expression(none, &["a"], &schema), Err(Error::Arity(ArityError::ParenthesizedCount)));
}

#[test]
fn cast_takes_the_declared_type() {
    let schema = foo_bar_not_null();
    let e = Expr::Cast { cast_type: "Text".to_string() };
    assert_eq!(single_expression(e, &["CAST"], &schema), Ok(builtin(BuiltinType::String)));
    let custom = Expr::Cast { cast_type: "Money".to_string() };
    assert_eq!(
        single_expression(custom, &["CAST"], &schema),
        Ok(vec![(TypeKind::Custom, None, Some("Money".to_string()))])
    );
}

#[test]
fn function_calls_are_typed_by_name() {
    let schema = foo_bar_not_null();
    let call = |n: &str| Expr::FunctionCall { name: n.to_string() };
    assert_eq!(single_expression(call("COUNT"), &["COUNT"], &schema), Ok(builtin(BuiltinType::Int)));
    assert_eq!(single_expression(call("upper"), &["upper"], &schema), Ok(builtin(BuiltinType::String)));
    assert_eq!(single_expression(call("Random"), &["Random"], &schema), Ok(builtin(BuiltinType::BigInt)));
    assert_eq!(single_expression(call("zeroblob"), &["zeroblob"], &schema), Ok(builtin(BuiltinType::Blob)));
    assert_eq!(single_expression(call("quote"), &["quote"], &schema), Ok(builtin(BuiltinType::Quoted)));
    assert_eq!(single_expression(call("round"), &["round"], &schema), Ok(builtin(BuiltinType::Float)));
    assert_eq!(single_expression(call("abs"), &["abs"], &schema), Ok(builtin(BuiltinType::Number)));
    assert_eq!(
        single_expression(call("sqlite_compileoption_used"), &["f"], &schema),
        Ok(builtin(BuiltinType::Boolean))
    );
    assert_eq!(single_expression(call("coalesce"), &["coalesce"], &schema), Ok(vec![]));
    assert_eq!(single_expression(call("no_such_fn"), &["no_such_fn"], &schema), Ok(vec![]));
}

#[test]
fn operators_have_fixed_types() {
    let schema = foo_bar_not_null();
    assert_eq!(single_expression(Expr::Binary(Operator::Add), &["a"], &schema), Ok(builtin(BuiltinType::Number)));
    assert_eq!(single_expression(Expr::Binary(Operator::Equals), &["a"], &schema), Ok(builtin(BuiltinType::Boolean)));
    assert_eq!(single_expression(Expr::Binary(Operator::Concat), &["a"], &schema), Ok(builtin(BuiltinType::String)));
    assert_eq!(single_expression(Expr::Binary(Operator::ArrowRight), &["a"], &schema), Ok(builtin(BuiltinType::Json)));
    assert_eq!(single_expression(Expr::Binary(Operator::ArrowRightShift), &["a"], &schema), Ok(builtin(BuiltinType::Any)));
    assert_eq!(single_expression(Expr::Exists, &["a"], &schema), Ok(builtin(BuiltinType::Boolean)));
    assert_eq!(
        single_expression(Expr::Unary(type_gen::ast::UnaryOperator::Not), &["a"], &schema),
        Ok(builtin(BuiltinType::Boolean))
    );
    assert_eq!(
        single_expression(Expr::Unary(type_gen::ast::UnaryOperator::Negative), &["a"], &schema),
        Ok(builtin(BuiltinType::Number))
    );
}

#[test]
fn literals_keep_their_text() {
    let schema = foo_bar_not_null();
    assert_eq!(
        single_expression(Expr::Literal(Literal::Keyword("TRUE".to_string())), &["TRUE"], &schema),
        Ok(vec![(TypeKind::Literal, None, Some("TRUE".to_string()))])
    );
    assert_eq!(
        single_expression(Expr::Literal(Literal::Blob("ff".to_string())), &["X'ff'"], &schema),
        Ok(vec![(TypeKind::Literal, Some(BuiltinType::Blob), Some("ff".to_string()))])
    );
    assert_eq!(
        single_expression(Expr::Literal(Literal::CurrentTimestamp), &["CURRENT_TIMESTAMP"], &schema),
        Ok(vec![(TypeKind::Literal, Some(BuiltinType::CurrentTimestamp), None)])
    );
}

#[test]
fn unrecognized_expression_is_unresolved() {
    let schema = foo_bar_not_null();
    assert_eq!(
        single_expression(Expr::Between, &["a", "BETWEEN"], &schema),
        Ok(vec![(TypeKind::Unresolved, None, None)])
    );
    let nested = Expr::Parenthesized(vec![Expr::Id("a".to_string())]);
    assert_eq!(single_expression(nested, &["a"], &schema), Ok(vec![(TypeKind::Unresolved, None, None)]));
}

#[test]
fn unaliased_expression_is_named_by_its_tokens() {
    let schema = foo_bar_not_null();
    let shapes = get_result_shapes(
        &query(select(vec![expr(Expr::Binary(Operator::Add), &["a", "b"])], table("foo", None), vec![])),
        &schema,
    )
    .unwrap();
    assert_eq!(shapes[0].1[0].0, "a b");
}

#[test]
fn explain_shapes_are_fixed() {
    let schema = foo_bar_not_null();
    let shapes = get_result_shapes(&vec![Cmd::Explain, Cmd::ExplainQueryPlan], &schema).unwrap();
    let names: Vec<&str> = shapes[0].1.iter().map(|c| c.0.as_str()).collect();
    assert_eq!(names, vec!["addr", "opcode", "p1", "p2", "p3", "p4", "p5", "comment"]);
    assert_eq!(shapes[0].1[1].1, builtin(BuiltinType::String));
    assert_eq!(shapes[0].1[6].1, builtin(BuiltinType::Int));
    assert_eq!(shapes[1], (None, vec![("QUERY PLAN".to_string(), builtin(BuiltinType::String))]));
}

#[test]
fn statements_without_rows_are_skipped() {
    let schema = foo_bar_not_null();
    let cmds = vec![
        Cmd::Stmt(Stmt::Other),
        Cmd::Stmt(Stmt::Select(select(vec![id("a")], table("foo", None), vec![]))),
        create_table("t", vec![]),
    ];
    let shapes = get_result_shapes(&cmds, &schema).unwrap();
    assert_eq!(shapes, vec![(None, vec![("a".to_string(), builtin(BuiltinType::Int))])]);
}

#[test]
fn failing_statement_fails_the_batch() {
    let schema = foo_bar_not_null();
    let cmds = vec![
        Cmd::Stmt(Stmt::Select(select(vec![id("a")], table("foo", None), vec![]))),
        Cmd::Stmt(Stmt::Select(select(vec![id("missing")], table("foo", None), vec![]))),
        Cmd::Explain,
    ];
    assert_eq!(get_result_shapes(&cmds, &schema), Err(Error::UnresolvedColumn("missing".to_string())));
}
