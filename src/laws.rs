//! Properties of query shapes, stated over the model in `semantics` and
//! proved.
use vstd::prelude::*;
use crate::ast::{
    Expr, JoinOperator, JoinType, OneSelect, QualifiedName, ResultColumn, Select, SelectTable,
};
use crate::error::{ArityError, ErrorView};
use crate::semantics::{
    all_columns, apply_join, column_in, expr_type, find_column, nullable_relation,
    nullable_type, project, project_one, schema_lookup, canonical_name, select_relation,
    selected_type, table_relation,
};
use crate::types::{
    builtin_view, may_be_null, BuiltinType, ColTypeView, ColView, NamedRelationView, RelationView,
};

verus! {

/// The columns that the schema declares for `t`; none when it declares no
/// such table.
pub open spec fn declared_columns(t: QualifiedName, schema: Seq<NamedRelationView>) -> Seq<
    ColView,
> {
    match schema_lookup(schema, canonical_name(t)) {
        Some(c) => c,
        None => seq![],
    }
}

/// `SELECT * FROM t` yields exactly the columns that the schema declares for
/// `t`: the same names and types, in declaration order.
pub proof fn lemma_select_star_keeps_columns(
    sel: Select,
    t: QualifiedName,
    schema: Seq<NamedRelationView>,
)
    requires
        sel.body matches OneSelect::Select { columns, from: Some(f) } && columns@ == seq![
            ResultColumn::Star,
        ] && *f.select == SelectTable::Table(t, None) && f.joins@.len() == 0,
    ensures
        select_relation(sel, seq![], schema) == Ok::<_, ErrorView>(
            (None::<Seq<char>>, declared_columns(t, schema)),
        ),
{
    let r = table_relation(t, None, schema);
    lemma_single_relation_projection(sel, r, schema);
    assert(all_columns(seq![r]) =~= all_columns(seq![r].drop_last()) + r.1);
    assert(all_columns(seq![r].drop_last()) =~= Seq::<ColView>::empty());
    assert(all_columns(seq![r]) =~= r.1);
}

/// `SELECT n.* FROM t AS n`, and `SELECT t.* FROM t` for a table `t` of the
/// default database, yield exactly the columns that the schema declares for
/// `t`, in declaration order.
pub proof fn lemma_table_star_keeps_columns(
    sel: Select,
    t: QualifiedName,
    alias: Option<String>,
    n: String,
    schema: Seq<NamedRelationView>,
)
    requires
        sel.body matches OneSelect::Select { columns, from: Some(f) } && columns@ == seq![
            ResultColumn::TableStar(n),
        ] && *f.select == SelectTable::Table(t, alias) && f.joins@.len() == 0,
        match alias {
            Some(a) => a@ == n@,
            None => t.db_name is None && t.name@ == n@,
        },
    ensures
        select_relation(sel, seq![], schema) == Ok::<_, ErrorView>(
            (None::<Seq<char>>, declared_columns(t, schema)),
        ),
{
    let r = table_relation(t, alias, schema);
    lemma_single_relation_projection(sel, r, schema);
    assert(seq![r].drop_first() =~= Seq::<RelationView>::empty());
}

/// A select over a single FROM relation `r` and a single result column
/// projects that column over `r`.
proof fn lemma_single_relation_projection(sel: Select, r: RelationView, schema: Seq<NamedRelationView>)
    requires
        sel.body matches OneSelect::Select { columns, from: Some(f) } && columns@.len() == 1
            && f.joins@.len() == 0 && (*f.select matches SelectTable::Table(t, alias) && r
            == table_relation(t, alias, schema)),
    ensures
        sel.body matches OneSelect::Select { columns, from: Some(f) } && select_relation(
            sel,
            seq![],
            schema,
        ) == match project_one(columns@[0], seq![r], seq![r], schema) {
            Ok(c) => Ok::<_, ErrorView>((None::<Seq<char>>, c)),
            Err(e) => Err(e),
        },
{
    if let OneSelect::Select { columns, from: Some(f) } = sel.body {
        assert(seq![r] + Seq::<RelationView>::empty() =~= seq![r]);
        let p = project(columns@, 1, seq![r], seq![r], schema);
        assert(p == Ok::<_, ErrorView>(Seq::<ColView>::empty()));
        if let Ok(c) = project_one(columns@[0], seq![r], seq![r], schema) {
            assert(c + Seq::<ColView>::empty() =~= c);
        }
    }
}

/// A `LEFT` join makes only the relation on its right nullable, a `RIGHT`
/// join only the relation just before it, a `FULL` join both, and an inner,
/// cross or comma join neither; every other FROM relation is left as it
/// was.
pub proof fn lemma_join_nullability(acc: Seq<RelationView>, op: JoinOperator, r: RelationView)
    requires
        acc.len() > 0,
    ensures
        ({
            let joined = apply_join(acc, op, r);
            let left = op == JoinOperator::TypedJoin(Some(JoinType::Left))
                || op == JoinOperator::TypedJoin(Some(JoinType::LeftOuter));
            let right = op == JoinOperator::TypedJoin(Some(JoinType::Right))
                || op == JoinOperator::TypedJoin(Some(JoinType::RightOuter));
            let full = op == JoinOperator::TypedJoin(Some(JoinType::Full))
                || op == JoinOperator::TypedJoin(Some(JoinType::FullOuter));
            &&& joined.len() == acc.len() + 1
            &&& forall|k: int| 0 <= k < acc.len() - 1 ==> joined[k] == acc[k]
            &&& joined[acc.len() - 1] == if right || full {
                nullable_relation(acc.last())
            } else {
                acc.last()
            }
            &&& joined.last() == if left || full {
                nullable_relation(r)
            } else {
                r
            }
        }),
{
}

/// Making a relation nullable keeps its name and its columns' names and
/// order; every column may then be null, a column that already could keeps
/// its type, and any other gains a single `Null` atom at the end.
pub proof fn lemma_nullable_relation(r: RelationView)
    ensures
        nullable_relation(r).0 == r.0,
        nullable_relation(r).1.len() == r.1.len(),
        forall|i: int|
            #![trigger nullable_relation(r).1[i]]
            0 <= i < r.1.len() ==> {
                let c = nullable_relation(r).1[i];
                &&& c.0 == r.1[i].0
                &&& may_be_null(c.1)
                &&& may_be_null(r.1[i].1) ==> c.1 == r.1[i].1
                &&& !may_be_null(r.1[i].1) ==> c.1 == r.1[i].1 + builtin_view(
                    BuiltinType::Null,
                )
            },
{
    assert forall|i: int| 0 <= i < r.1.len() implies may_be_null(nullable_type(r.1[i].1)) by {
        let t = r.1[i].1;
        if !may_be_null(t) {
            let u = t + builtin_view(BuiltinType::Null);
            assert(u[t.len() as int].1 == Some(BuiltinType::Null));
        }
    }
}

proof fn lemma_column_in_first(cols: Seq<ColView>, n: Seq<char>, i: int)
    requires
        0 <= i < cols.len(),
        cols[i].0 == n,
        forall|j: int| 0 <= j < i ==> cols[j].0 != n,
    ensures
        column_in(cols, n) == Some(cols[i].1),
    decreases i,
{
    if i > 0 {
        lemma_column_in_first(cols.drop_first(), n, i - 1);
    }
}

proof fn lemma_column_in_absent(cols: Seq<ColView>, n: Seq<char>)
    requires
        forall|j: int| 0 <= j < cols.len() ==> cols[j].0 != n,
    ensures
        column_in(cols, n) is None,
    decreases cols.len(),
{
    if cols.len() > 0 {
        lemma_column_in_absent(cols.drop_first(), n);
    }
}

/// Whether a relation has a column named `n`.
pub open spec fn has_column(r: RelationView, n: Seq<char>) -> bool {
    exists|j: int| 0 <= j < r.1.len() && r.1[j].0 == n
}

proof fn lemma_find_column_unique(scope: Seq<RelationView>, n: Seq<char>, k: int, i: int)
    requires
        0 <= k < scope.len(),
        0 <= i < scope[k].1.len(),
        scope[k].1[i].0 == n,
        forall|j: int| 0 <= j < i ==> scope[k].1[j].0 != n,
        forall|m: int| 0 <= m < scope.len() && m != k ==> !has_column(scope[m], n),
    ensures
        find_column(scope, n) == Some(scope[k].1[i].1),
    decreases k,
{
    if k == 0 {
        lemma_column_in_first(scope[0].1, n, i);
    } else {
        assert(!has_column(scope[0], n));
        lemma_column_in_absent(scope[0].1, n);
        let rest = scope.drop_first();
        assert forall|m: int| 0 <= m < rest.len() && m != k - 1 implies !has_column(rest[m], n) by {
            assert(rest[m] == scope[m + 1]);
        }
        lemma_find_column_unique(rest, n, k - 1, i);
    }
}

proof fn lemma_find_column_absent(scope: Seq<RelationView>, n: Seq<char>)
    requires
        forall|m: int| 0 <= m < scope.len() ==> !has_column(scope[m], n),
    ensures
        find_column(scope, n) is None,
    decreases scope.len(),
{
    if scope.len() > 0 {
        assert(!has_column(scope[0], n));
        lemma_column_in_absent(scope[0].1, n);
        let rest = scope.drop_first();
        assert forall|m: int| 0 <= m < rest.len() implies !has_column(rest[m], n) by {
            assert(rest[m] == scope[m + 1]);
        }
        lemma_find_column_absent(rest, n);
    }
}

/// A bare column name that exactly one visible relation holds resolves to
/// that relation's column type, unchanged (of several columns of that name
/// in it, the first).
pub proof fn lemma_bare_column_resolves(
    n: String,
    scope: Seq<RelationView>,
    schema: Seq<NamedRelationView>,
    k: int,
    i: int,
)
    requires
        0 <= k < scope.len(),
        0 <= i < scope[k].1.len(),
        scope[k].1[i].0 == n@,
        forall|j: int| 0 <= j < i ==> scope[k].1[j].0 != n@,
        forall|m: int| 0 <= m < scope.len() && m != k ==> !has_column(scope[m], n@),
    ensures
        selected_type(Expr::Id(n), scope, schema) == Ok::<_, ErrorView>(scope[k].1[i].1),
        selected_type(Expr::Name(n), scope, schema) == Ok::<_, ErrorView>(scope[k].1[i].1),
{
    lemma_find_column_unique(scope, n@, k, i);
}

/// A bare column name that no visible relation holds fails as an
/// unresolved column.
pub proof fn lemma_bare_column_absent(
    n: String,
    scope: Seq<RelationView>,
    schema: Seq<NamedRelationView>,
)
    requires
        forall|m: int| 0 <= m < scope.len() ==> !has_column(scope[m], n@),
    ensures
        selected_type(Expr::Id(n), scope, schema) == Err::<ColTypeView, _>(
            ErrorView::UnresolvedColumn(n@),
        ),
        selected_type(Expr::Name(n), scope, schema) == Err::<ColTypeView, _>(
            ErrorView::UnresolvedColumn(n@),
        ),
{
    lemma_find_column_absent(scope, n@);
}

/// A scalar subquery has the type of its select's single column; a select
/// that yields no column fails it with an arity error.
pub proof fn lemma_scalar_subquery_type(
    s: Box<Select>,
    scope: Seq<RelationView>,
    schema: Seq<NamedRelationView>,
)
    ensures
        select_relation(*s, scope, schema) matches Ok(r) ==> r.1.len() == 1 ==> {
            &&& expr_type(Expr::Subquery(s), scope, schema) == Ok::<_, ErrorView>(r.1[0].1)
            &&& selected_type(Expr::Subquery(s), scope, schema) == Ok::<_, ErrorView>(r.1[0].1)
        },
        select_relation(*s, scope, schema) matches Ok(r) ==> r.1.len() == 0 ==> {
            &&& expr_type(Expr::Subquery(s), scope, schema) == Err::<ColTypeView, _>(
                ErrorView::Arity(ArityError::SubqueryWithoutColumn),
            )
            &&& selected_type(Expr::Subquery(s), scope, schema) == Err::<ColTypeView, _>(
                ErrorView::Arity(ArityError::SubqueryWithoutColumn),
            )
        },
{
}

} // verus!
