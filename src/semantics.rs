//! What a query's shape is: the model that the resolver in `queries` is
//! proved against.
use vstd::prelude::*;
use crate::ast::{
    Cmd, Expr, Stmt, FromClause, JoinOperator, JoinType, JoinedSelectTable, Literal, OneSelect, Operator,
    QualifiedName, ResultColumn, Select, SelectTable, UnaryOperator,
};
use crate::error::{ArityError, ErrorView};
use crate::queries::joined;
use crate::types::{
    builtin_view, lower_of, may_be_null, type_of_lowered_name, BuiltinType, ColTypeView, ColView,
    NamedRelationView, RelationView, TypeKind,
};
use crate::util::{decimal, in_main};

verus! {

/// The union made of a single `Unresolved` atom.
pub open spec fn unresolved_view() -> ColTypeView {
    seq![(TypeKind::Unresolved, None, None)]
}

/// The columns that the schema declares under `name`; of several
/// declarations under one name, the last one counts.
pub open spec fn schema_lookup(schema: Seq<NamedRelationView>, name: Seq<char>) -> Option<
    Seq<ColView>,
>
    decreases schema.len(),
{
    if schema.len() == 0 {
        None
    } else if schema.last().0 == name {
        Some(schema.last().1)
    } else {
        schema_lookup(schema.drop_last(), name)
    }
}

/// `<db>.<table>`, with `main` as the default database.
pub open spec fn canonical_name(q: QualifiedName) -> Seq<char> {
    match q.db_name {
        Some(d) => d@ + "."@ + q.name@,
        None => in_main(q.name@),
    }
}

/// The name under which an alias makes a relation visible.
pub open spec fn alias_name(alias: Seq<char>) -> Seq<char> {
    in_main(alias)
}

/// A relation under its alias, if it has one.
pub open spec fn renamed(r: RelationView, alias: Option<String>) -> RelationView {
    match alias {
        Some(a) => (Some(alias_name(a@)), r.1),
        None => r,
    }
}

/// A table reference: the schema's columns for its canonical name (none
/// when the schema does not declare it), under its alias or its canonical
/// name.
pub open spec fn table_relation(
    q: QualifiedName,
    alias: Option<String>,
    schema: Seq<NamedRelationView>,
) -> RelationView {
    let cols = match schema_lookup(schema, canonical_name(q)) {
        Some(c) => c,
        None => seq![],
    };
    renamed((Some(canonical_name(q)), cols), alias)
}

/// The union with `Null` added, unless it already holds it.
pub open spec fn nullable_type(t: ColTypeView) -> ColTypeView {
    if may_be_null(t) {
        t
    } else {
        t + builtin_view(BuiltinType::Null)
    }
}

/// The relation with every column made nullable.
pub open spec fn nullable_relation(r: RelationView) -> RelationView {
    (r.0, r.1.map_values(|c: ColView| (c.0, nullable_type(c.1))))
}

/// Whether the join makes the relation on its right nullable.
pub open spec fn nullifies_right(op: JoinOperator) -> bool {
    match op {
        JoinOperator::TypedJoin(Some(j)) => j == JoinType::Left || j == JoinType::LeftOuter
            || j == JoinType::Full || j == JoinType::FullOuter,
        _ => false,
    }
}

/// Whether the join makes the relation just before it nullable.
pub open spec fn nullifies_left(op: JoinOperator) -> bool {
    match op {
        JoinOperator::TypedJoin(Some(j)) => j == JoinType::Right || j == JoinType::RightOuter
            || j == JoinType::Full || j == JoinType::FullOuter,
        _ => false,
    }
}

/// The relations with the last one made nullable.
pub open spec fn nullify_last(acc: Seq<RelationView>) -> Seq<RelationView> {
    if acc.len() == 0 {
        acc
    } else {
        acc.drop_last().push(nullable_relation(acc.last()))
    }
}

/// The FROM relations after joining `r` to `acc` with `op`.
pub open spec fn apply_join(acc: Seq<RelationView>, op: JoinOperator, r: RelationView) -> Seq<
    RelationView,
> {
    let left = if nullifies_left(op) {
        nullify_last(acc)
    } else {
        acc
    };
    left.push(
        if nullifies_right(op) {
            nullable_relation(r)
        } else {
            r
        },
    )
}

/// The type of the first column named `n`.
pub open spec fn column_in(cols: Seq<ColView>, n: Seq<char>) -> Option<ColTypeView>
    decreases cols.len(),
{
    if cols.len() == 0 {
        None
    } else if cols[0].0 == n {
        Some(cols[0].1)
    } else {
        column_in(cols.drop_first(), n)
    }
}

/// The type of the column named `n` in the first relation that has one.
pub open spec fn find_column(rels: Seq<RelationView>, n: Seq<char>) -> Option<ColTypeView>
    decreases rels.len(),
{
    if rels.len() == 0 {
        None
    } else {
        match column_in(rels[0].1, n) {
            Some(t) => Some(t),
            None => find_column(rels.drop_first(), n),
        }
    }
}

/// The type of the column named `n` in the first relation named `rel` that
/// has one.
pub open spec fn find_qualified(rels: Seq<RelationView>, rel: Seq<char>, n: Seq<char>) -> Option<
    ColTypeView,
>
    decreases rels.len(),
{
    if rels.len() == 0 {
        None
    } else if rels[0].0 == Some(rel) && column_in(rels[0].1, n) is Some {
        column_in(rels[0].1, n)
    } else {
        find_qualified(rels.drop_first(), rel, n)
    }
}

/// The first relation named `name`.
pub open spec fn first_named(rels: Seq<RelationView>, name: Seq<char>) -> Option<RelationView>
    decreases rels.len(),
{
    if rels.len() == 0 {
        None
    } else if rels[0].0 == Some(name) {
        Some(rels[0])
    } else {
        first_named(rels.drop_first(), name)
    }
}

/// Every column of every relation, in order.
pub open spec fn all_columns(rels: Seq<RelationView>) -> Seq<ColView>
    decreases rels.len(),
{
    if rels.len() == 0 {
        seq![]
    } else {
        all_columns(rels.drop_last()) + rels.last().1
    }
}

/// The builtin type that a binary operator yields.
pub open spec fn operator_builtin(op: Operator) -> BuiltinType {
    match op {
        Operator::Add | Operator::BitwiseAnd | Operator::BitwiseOr | Operator::Divide
        | Operator::LeftShift | Operator::Modulus | Operator::Multiply | Operator::RightShift
        | Operator::Substract => BuiltinType::Number,
        Operator::And | Operator::Equals | Operator::Greater | Operator::GreaterEquals
        | Operator::Is | Operator::IsNot | Operator::Less | Operator::LessEquals
        | Operator::NotEquals | Operator::Or => BuiltinType::Boolean,
        Operator::ArrowRight => BuiltinType::Json,
        Operator::ArrowRightShift => BuiltinType::Any,
        Operator::Concat => BuiltinType::String,
    }
}

/// The builtin type that a unary operator yields.
pub open spec fn unary_builtin(op: UnaryOperator) -> BuiltinType {
    match op {
        UnaryOperator::Not => BuiltinType::Boolean,
        _ => BuiltinType::Number,
    }
}

/// The type of a literal.
pub open spec fn literal_view(l: Literal) -> ColTypeView {
    match l {
        Literal::Numeric(x) => seq![(TypeKind::Literal, Some(BuiltinType::Number), Some(x@))],
        Literal::String(x) => seq![(TypeKind::Literal, Some(BuiltinType::String), Some(x@))],
        Literal::Blob(x) => seq![(TypeKind::Literal, Some(BuiltinType::Blob), Some(x@))],
        Literal::Keyword(x) => seq![(TypeKind::Literal, None, Some(x@))],
        Literal::Null => builtin_view(BuiltinType::Null),
        Literal::CurrentDate => seq![(TypeKind::Literal, Some(BuiltinType::CurrentDate), None)],
        Literal::CurrentTime => seq![(TypeKind::Literal, Some(BuiltinType::CurrentTime), None)],
        Literal::CurrentTimestamp => seq![
            (TypeKind::Literal, Some(BuiltinType::CurrentTimestamp), None),
        ],
    }
}

/// The type a call of the function named `lowered` (in lowercase) yields.
/// Functions whose type is the union of their arguments' types, and unknown
/// functions, yield the empty union.
pub open spec fn function_view(lowered: Seq<char>) -> ColTypeView {
    if lowered == "abs"@ {
        builtin_view(BuiltinType::Number)
    } else if lowered == "char"@ || lowered == "format"@ || lowered == "glob"@ || lowered
        == "hex"@ || lowered == "lower"@ || lowered == "ltrim"@ || lowered == "printf"@
        || lowered == "rtrim"@ || lowered == "soundex"@ || lowered
        == "sqlite_compileoption_get"@ || lowered == "sqlite_source_id"@ || lowered
        == "sqlite_version"@ || lowered == "substr"@ || lowered == "substring"@ || lowered
        == "trim"@ || lowered == "typeof"@ || lowered == "upper"@ {
        builtin_view(BuiltinType::String)
    } else if lowered == "quote"@ {
        builtin_view(BuiltinType::Quoted)
    } else if lowered == "random"@ || lowered == "last_insert_rowid"@ || lowered
        == "sqlite_offset"@ || lowered == "total_changes"@ {
        builtin_view(BuiltinType::BigInt)
    } else if lowered == "randomblob"@ || lowered == "unhex"@ || lowered == "zeroblob"@ {
        builtin_view(BuiltinType::Blob)
    } else if lowered == "length"@ || lowered == "changes"@ || lowered == "sign"@ || lowered
        == "unicode"@ || lowered == "count"@ {
        builtin_view(BuiltinType::Int)
    } else if lowered == "round"@ {
        builtin_view(BuiltinType::Float)
    } else if lowered == "sqlite_compileoption_used"@ {
        builtin_view(BuiltinType::Boolean)
    } else {
        seq![]
    }
}

/// `column<i>`: the name of a `VALUES` column.
pub open spec fn values_column_name(i: nat) -> Seq<char> {
    "column"@ + decimal(i)
}

/// The relation that a select yields, with `outer` visible to it.
///
/// A `WITH` clause is not taken into account: the relations it would name
/// are not visible, and its tables are looked up in the schema alone.
pub open spec fn select_relation(
    s: Select,
    outer: Seq<RelationView>,
    schema: Seq<NamedRelationView>,
) -> Result<RelationView, ErrorView>
    decreases s, 0int,
{
    match s.body {
        OneSelect::Values(rows) => {
            if rows@.len() == 0 {
                Err(ErrorView::Arity(ArityError::EmptyValues))
            } else {
                match values_columns(rows@[0]@, 0, outer, schema) {
                    Ok(cols) => Ok((None, cols)),
                    Err(e) => Err(e),
                }
            }
        },
        OneSelect::Select { columns, from } => {
            let local = match from {
                Some(f) => from_relations(f, outer, schema),
                None => Ok(seq![]),
            };
            match local {
                Err(e) => Err(e),
                Ok(local) => match project(columns@, 0, local, local + outer, schema) {
                    Ok(cols) => Ok((None, cols)),
                    Err(e) => Err(e),
                },
            }
        },
    }
}

/// The columns `column<i>`, ... of a `VALUES` row from its `i`-th value on.
pub open spec fn values_columns(
    row: Seq<Expr>,
    i: int,
    scope: Seq<RelationView>,
    schema: Seq<NamedRelationView>,
) -> Result<Seq<ColView>, ErrorView>
    decreases row, row.len() - i,
{
    if i < 0 || i >= row.len() {
        Ok(seq![])
    } else {
        match selected_type(row[i], scope, schema) {
            Err(e) => Err(e),
            Ok(t) => match values_columns(row, i + 1, scope, schema) {
                Err(e) => Err(e),
                Ok(rest) => Ok(seq![(values_column_name(i as nat), t)] + rest),
            },
        }
    }
}

/// The relations of a FROM clause, left to right, with join nullability
/// applied.
pub open spec fn from_relations(
    f: FromClause,
    outer: Seq<RelationView>,
    schema: Seq<NamedRelationView>,
) -> Result<Seq<RelationView>, ErrorView>
    decreases f, 0int,
{
    match table_relation_of(*f.select, outer, schema) {
        Err(e) => Err(e),
        Ok(first) => joins_relations(f.joins@, 0, seq![first], outer, schema),
    }
}

/// The FROM relations after the joins from the `i`-th on, given the
/// relations `acc` before them.  A subquery in a join sees the relations
/// before it, then `outer`.
pub open spec fn joins_relations(
    joins: Seq<JoinedSelectTable>,
    i: int,
    acc: Seq<RelationView>,
    outer: Seq<RelationView>,
    schema: Seq<NamedRelationView>,
) -> Result<Seq<RelationView>, ErrorView>
    decreases joins, joins.len() - i,
{
    if i < 0 || i >= joins.len() {
        Ok(acc)
    } else {
        match table_relation_of(joins[i].table, acc + outer, schema) {
            Err(e) => Err(e),
            Ok(r) => joins_relations(
                joins,
                i + 1,
                apply_join(acc, joins[i].operator, r),
                outer,
                schema,
            ),
        }
    }
}

/// The relation that a table, table-valued function, subquery or
/// parenthesized join in FROM position yields; of a parenthesized join, its
/// first relation.
pub open spec fn table_relation_of(
    t: SelectTable,
    outer: Seq<RelationView>,
    schema: Seq<NamedRelationView>,
) -> Result<RelationView, ErrorView>
    decreases t, 0int,
{
    match t {
        SelectTable::Table(q, alias) => Ok(table_relation(q, alias, schema)),
        SelectTable::TableCall(q, alias) => Ok(table_relation(q, alias, schema)),
        SelectTable::Select(s, alias) => match select_relation(s, outer, schema) {
            Err(e) => Err(e),
            Ok(r) => Ok(renamed(r, alias)),
        },
        SelectTable::Sub(f, alias) => match from_relations(f, outer, schema) {
            Err(e) => Err(e),
            Ok(rels) => Ok(renamed(rels[0], alias)),
        },
    }
}

/// The output columns of the result columns from the `i`-th on; `local` are
/// the FROM relations and `scope` all relations visible to the select.
pub open spec fn project(
    cols: Seq<ResultColumn>,
    i: int,
    local: Seq<RelationView>,
    scope: Seq<RelationView>,
    schema: Seq<NamedRelationView>,
) -> Result<Seq<ColView>, ErrorView>
    decreases cols, cols.len() - i,
{
    if i < 0 || i >= cols.len() {
        Ok(seq![])
    } else {
        match project_one(cols[i], local, scope, schema) {
            Err(e) => Err(e),
            Ok(c) => match project(cols, i + 1, local, scope, schema) {
                Err(e) => Err(e),
                Ok(rest) => Ok(c + rest),
            },
        }
    }
}

/// The output columns of one result column.
pub open spec fn project_one(
    rc: ResultColumn,
    local: Seq<RelationView>,
    scope: Seq<RelationView>,
    schema: Seq<NamedRelationView>,
) -> Result<Seq<ColView>, ErrorView>
    decreases rc, 0int,
{
    match rc {
        ResultColumn::Expr { expr, alias, text } => match selected_type(expr, scope, schema) {
            Err(e) => Err(e),
            Ok(t) => Ok(
                seq![
                    (
                        match alias {
                            Some(a) => a@,
                            None => joined(text.parts.deep_view()),
                        },
                        t,
                    ),
                ],
            ),
        },
        ResultColumn::Star => Ok(all_columns(local)),
        ResultColumn::TableStar(n) => match first_named(local, alias_name(n@)) {
            Some(r) => Ok(r.1),
            None => Err(ErrorView::UnresolvedRelation(n@)),
        },
    }
}

/// The type of a selected expression: a column reference is looked up in
/// `scope`, any other expression is typed by `expr_type`.
pub open spec fn selected_type(
    e: Expr,
    scope: Seq<RelationView>,
    schema: Seq<NamedRelationView>,
) -> Result<ColTypeView, ErrorView>
    decreases e, 1int,
{
    match e {
        Expr::Id(n) => match find_column(scope, n@) {
            Some(t) => Ok(t),
            None => Err(ErrorView::UnresolvedColumn(n@)),
        },
        Expr::Name(n) => match find_column(scope, n@) {
            Some(t) => Ok(t),
            None => Err(ErrorView::UnresolvedColumn(n@)),
        },
        Expr::Qualified(t, c) => match find_qualified(scope, alias_name(t@), c@) {
            Some(ty) => Ok(ty),
            None => Err(ErrorView::UnresolvedColumn(t@ + "."@ + c@)),
        },
        Expr::DoublyQualified(d, t, c) => match find_qualified(scope, d@ + "."@ + t@, c@) {
            Some(ty) => Ok(ty),
            None => Err(ErrorView::UnresolvedColumn(d@ + "."@ + t@ + "."@ + c@)),
        },
        _ => expr_type(e, scope, schema),
    }
}

/// The type of an expression with `scope` visible to its subqueries.
pub open spec fn expr_type(
    e: Expr,
    scope: Seq<RelationView>,
    schema: Seq<NamedRelationView>,
) -> Result<ColTypeView, ErrorView>
    decreases e, 0int,
{
    match e {
        Expr::Binary(op) => Ok(builtin_view(operator_builtin(op))),
        Expr::Case { when_then_pairs } => {
            if when_then_pairs@.len() == 0 {
                Err(ErrorView::Arity(ArityError::CaseWithoutBranch))
            } else {
                expr_type(when_then_pairs@[0].1, scope, schema)
            }
        },
        Expr::Cast { cast_type } => Ok(type_of_lowered_name(lower_of(cast_type@), cast_type@)),
        Expr::Exists | Expr::InList | Expr::InSelect | Expr::InTable | Expr::IsNull | Expr::Like
        | Expr::NotNull => Ok(builtin_view(BuiltinType::Boolean)),
        Expr::FunctionCall { name } => Ok(function_view(lower_of(name@))),
        Expr::FunctionCallStar { name } => Ok(function_view(lower_of(name@))),
        Expr::Literal(l) => Ok(literal_view(l)),
        Expr::Parenthesized(v) => {
            if v@.len() != 1 {
                Err(ErrorView::Arity(ArityError::ParenthesizedCount))
            } else {
                expr_type(v@[0], scope, schema)
            }
        },
        Expr::Subquery(s) => match select_relation(*s, scope, schema) {
            Err(e) => Err(e),
            Ok(r) => if r.1.len() == 0 {
                Err(ErrorView::Arity(ArityError::SubqueryWithoutColumn))
            } else {
                Ok(r.1[0].1)
            },
        },
        Expr::Unary(op) => Ok(builtin_view(unary_builtin(op))),
        _ => Ok(unresolved_view()),
    }
}

/// The fixed shape of `EXPLAIN`.
pub open spec fn explain_shape() -> RelationView {
    (
        None,
        seq![
            ("addr"@, builtin_view(BuiltinType::Int)),
            ("opcode"@, builtin_view(BuiltinType::String)),
            ("p1"@, builtin_view(BuiltinType::Int)),
            ("p2"@, builtin_view(BuiltinType::Int)),
            ("p3"@, builtin_view(BuiltinType::Int)),
            ("p4"@, builtin_view(BuiltinType::Int)),
            ("p5"@, builtin_view(BuiltinType::Int)),
            ("comment"@, builtin_view(BuiltinType::String)),
        ],
    )
}

/// The fixed shape of `EXPLAIN QUERY PLAN`.
pub open spec fn query_plan_shape() -> RelationView {
    (None, seq![("QUERY PLAN"@, builtin_view(BuiltinType::String))])
}

/// The shape of a top-level command, if it yields rows.
pub open spec fn result_shape(cmd: Cmd, schema: Seq<NamedRelationView>) -> Result<
    Option<RelationView>,
    ErrorView,
> {
    match cmd {
        Cmd::Explain => Ok(Some(explain_shape())),
        Cmd::ExplainQueryPlan => Ok(Some(query_plan_shape())),
        Cmd::Stmt(Stmt::Select(s)) => match select_relation(s, seq![], schema) {
            Ok(r) => Ok(Some(r)),
            Err(e) => Err(e),
        },
        Cmd::Stmt(_) => Ok(None),
    }
}

/// The shapes of a batch of commands, in order, leaving out those that
/// yield no rows; the first failing command fails the batch.
pub open spec fn result_shapes(cmds: Seq<Cmd>, schema: Seq<NamedRelationView>) -> Result<
    Seq<RelationView>,
    ErrorView,
>
    decreases cmds.len(),
{
    if cmds.len() == 0 {
        Ok(seq![])
    } else {
        match result_shapes(cmds.drop_last(), schema) {
            Err(e) => Err(e),
            Ok(prev) => match result_shape(cmds.last(), schema) {
                Err(e) => Err(e),
                Ok(Some(r)) => Ok(prev.push(r)),
                Ok(None) => Ok(prev),
            },
        }
    }
}

} // verus!
