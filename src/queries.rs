//! Resolution of query shapes: FROM-clause assembly, join nullability,
//! column references, projection and expression types.
use vstd::prelude::*;
use crate::ast::{
    Cmd, Expr, FromClause, JoinOperator, JoinType, Literal, OneSelect, Operator, QualifiedName,
    ResultColumn, Select, SelectTable, Stmt, UnaryOperator,
};
use crate::error::{result_view, ArityError, Error, ErrorView};
use crate::semantics::{
    all_columns, canonical_name, column_in, explain_shape, expr_type, find_column, find_qualified,
    first_named, from_relations, function_view, joins_relations, literal_view, nullable_relation,
    nullable_type, nullify_last, operator_builtin, project, project_one, query_plan_shape,
    renamed, result_shape, result_shapes, schema_lookup, select_relation, selected_type,
    table_relation, table_relation_of, unary_builtin, unresolved_view, values_columns,
};
use crate::types::{
    builtin_type, builtin_view, clone_col_type, clone_cols, clone_relation, extend_relations,
    lower_of, may_be_null, to_lower, type_from_type_name, BuiltinType, Col, ColType, ColView,
    NamedRelation, NamedRelationView, Relation, RelationView, TypeKind,
};
use crate::util::{concat, decimal_text, main_qualified, same_text};

verus! {

/// The texts of an expression's tokens, in order, as the parser renders
/// them; punctuation carries no text and is left out.
#[derive(Clone, Debug, PartialEq, Eq)]
pub struct TokenCollector {
    pub parts: Vec<String>,
}

/// The texts of `parts` with a single space between each two of them.
pub open spec fn joined(parts: Seq<Seq<char>>) -> Seq<char>
    decreases parts.len(),
{
    if parts.len() == 0 {
        seq![]
    } else if parts.len() == 1 {
        parts[0]
    } else {
        joined(parts.drop_last()) + " "@ + parts.last()
    }
}

impl TokenCollector {
    /// The tokens' texts joined by single spaces: the name that an
    /// unaliased result column takes.
    pub fn to_string(&self) -> (r: String)
        ensures
            r@ == joined(self.parts.deep_view()),
    {
        let ghost parts = self.parts.deep_view();
        let mut r = String::new();
        let mut i: usize = 0;
        while i < self.parts.len()
            invariant
                i <= self.parts.len(),
                parts == self.parts.deep_view(),
                r@ == joined(parts.take(i as int)),
            decreases self.parts.len() - i,
        {
            if i > 0 {
                r.append(" ");
            }
            r.append(self.parts[i].as_str());
            proof {
                assert(parts.take(i + 1).drop_last() =~= parts.take(i as int));
                if i == 0 {
                    assert(r@ =~= parts.take(1)[0]);
                }
            }
            i = i + 1;
        }
        assert(parts.take(i as int) =~= parts);
        r
    }

    /// Records the text of one token, if it has any.
    pub fn append(&mut self, value: Option<&str>)
        ensures
            final(self).parts.deep_view() == match value {
                Some(s) => old(self).parts.deep_view().push(s@),
                None => old(self).parts.deep_view(),
            },
    {
        if let Some(s) = value {
            self.parts.push(String::from_str(s));
            assert(self.parts.deep_view() =~= old(self).parts.deep_view().push(s@));
        }
    }
}

fn op_to_type(op: Operator) -> (r: ColType)
    ensures
        r.deep_view() == builtin_view(operator_builtin(op)),
{
    let b = match op {
        Operator::Add | Operator::BitwiseAnd | Operator::BitwiseOr | Operator::Divide
        | Operator::LeftShift | Operator::Modulus | Operator::Multiply | Operator::RightShift
        | Operator::Substract => BuiltinType::Number,
        Operator::And | Operator::Equals | Operator::Greater | Operator::GreaterEquals
        | Operator::Is | Operator::IsNot | Operator::Less | Operator::LessEquals
        | Operator::NotEquals | Operator::Or => BuiltinType::Boolean,
        Operator::ArrowRight => BuiltinType::Json,
        Operator::ArrowRightShift => BuiltinType::Any,
        Operator::Concat => BuiltinType::String,
    };
    builtin_type(b)
}

fn unary_op_to_type(op: UnaryOperator) -> (r: ColType)
    ensures
        r.deep_view() == builtin_view(unary_builtin(op)),
{
    match op {
        UnaryOperator::Not => builtin_type(BuiltinType::Boolean),
        UnaryOperator::BitwiseNot | UnaryOperator::Negative | UnaryOperator::Positive => {
            builtin_type(BuiltinType::Number)
        },
    }
}

fn literal_atom(kind: TypeKind, builtin: Option<BuiltinType>, text: Option<&String>) -> (r: ColType)
    ensures
        r.deep_view() == seq![
            (
                kind,
                builtin,
                match text {
                    Some(t) => Some(t@),
                    None => None,
                },
            ),
        ],
{
    let text = match text {
        Some(t) => Some(t.clone()),
        None => None,
    };
    let r: ColType = vec![(kind, builtin, text)];
    assert(r.deep_view() =~= seq![(kind, builtin, text.deep_view())]);
    r
}

fn literal_to_type(lit: &Literal) -> (r: ColType)
    ensures
        r.deep_view() == literal_view(*lit),
{
    match lit {
        Literal::Numeric(l) => literal_atom(TypeKind::Literal, Some(BuiltinType::Number), Some(l)),
        Literal::String(l) => literal_atom(TypeKind::Literal, Some(BuiltinType::String), Some(l)),
        Literal::Blob(l) => literal_atom(TypeKind::Literal, Some(BuiltinType::Blob), Some(l)),
        Literal::Keyword(l) => literal_atom(TypeKind::Literal, None, Some(l)),
        Literal::Null => builtin_type(BuiltinType::Null),
        Literal::CurrentDate => literal_atom(TypeKind::Literal, Some(BuiltinType::CurrentDate), None),
        Literal::CurrentTime => literal_atom(TypeKind::Literal, Some(BuiltinType::CurrentTime), None),
        Literal::CurrentTimestamp => literal_atom(
            TypeKind::Literal,
            Some(BuiltinType::CurrentTimestamp),
            None,
        ),
    }
}

/// The type that a call of the function named `lowered`, in lowercase,
/// yields.
pub fn function_type_of_lowered(lowered: &str) -> (r: ColType)
    ensures
        r.deep_view() == function_view(lowered@),
{
    let l = lowered;
    if same_text(l, "abs") {
        builtin_type(BuiltinType::Number)
    } else if same_text(l, "char") || same_text(l, "format") || same_text(l, "glob") || same_text(
        l,
        "hex",
    ) || same_text(l, "lower") || same_text(l, "ltrim") || same_text(l, "printf") || same_text(
        l,
        "rtrim",
    ) || same_text(l, "soundex") || same_text(l, "sqlite_compileoption_get") || same_text(
        l,
        "sqlite_source_id",
    ) || same_text(l, "sqlite_version") || same_text(l, "substr") || same_text(l, "substring")
        || same_text(l, "trim") || same_text(l, "typeof") || same_text(l, "upper") {
        builtin_type(BuiltinType::String)
    } else if same_text(l, "quote") {
        builtin_type(BuiltinType::Quoted)
    } else if same_text(l, "random") || same_text(l, "last_insert_rowid") || same_text(
        l,
        "sqlite_offset",
    ) || same_text(l, "total_changes") {
        builtin_type(BuiltinType::BigInt)
    } else if same_text(l, "randomblob") || same_text(l, "unhex") || same_text(l, "zeroblob") {
        builtin_type(BuiltinType::Blob)
    } else if same_text(l, "length") || same_text(l, "changes") || same_text(l, "sign")
        || same_text(l, "unicode") || same_text(l, "count") {
        builtin_type(BuiltinType::Int)
    } else if same_text(l, "round") {
        builtin_type(BuiltinType::Float)
    } else if same_text(l, "sqlite_compileoption_used") {
        builtin_type(BuiltinType::Boolean)
    } else {
        let r: ColType = Vec::new();
        assert(r.deep_view() =~= seq![]);
        r
    }
}

/// The type that a call of the function named `name` yields; the name is
/// matched without regard to case.
fn fn_call_to_type(name: &String) -> (r: ColType)
    ensures
        r.deep_view() == function_view(lower_of(name@)),
{
    let lowered = to_lower(name.as_str());
    function_type_of_lowered(lowered.as_str())
}

/// The union with `Null` added at the end, unless it already holds it.
pub fn make_type_nullable(t: ColType) -> (r: ColType)
    ensures
        r.deep_view() == nullable_type(t.deep_view()),
{
    let ghost given = t.deep_view();
    let mut u = t;
    let mut i: usize = 0;
    while i < u.len()
        invariant
            i <= u.len(),
            u.deep_view() == given,
            given == t.deep_view(),
            forall|j: int| 0 <= j < i ==> given[j].1 != Some(BuiltinType::Null),
        decreases u.len() - i,
    {
        if u[i].1 == Some(BuiltinType::Null) {
            assert(given[i as int].1 == Some(BuiltinType::Null));
            assert(may_be_null(given));
            return u;
        }
        i = i + 1;
    }
    assert(!may_be_null(given));
    u.push((TypeKind::Builtin, Some(BuiltinType::Null), None));
    assert(u.deep_view() =~= given + builtin_view(BuiltinType::Null));
    u
}

/// The relation with every column made nullable.
pub fn make_all_cols_nullable(relation: Relation) -> (r: Relation)
    ensures
        r.deep_view() == nullable_relation(relation.deep_view()),
{
    let ghost target = nullable_relation(relation.deep_view());
    let mut cols: Vec<Col> = Vec::new();
    let mut i: usize = 0;
    while i < relation.1.len()
        invariant
            i <= relation.1.len(),
            target == nullable_relation(relation.deep_view()),
            cols.deep_view() == target.1.take(i as int),
        decreases relation.1.len() - i,
    {
        let c: Col = (relation.1[i].0.clone(), make_type_nullable(clone_col_type(&relation.1[i].1)));
        let ghost before = cols.deep_view();
        cols.push(c);
        assert(cols.deep_view() =~= before.push(c.deep_view()));
        assert(cols.deep_view() =~= target.1.take(i + 1));
        i = i + 1;
    }
    assert(cols.deep_view() =~= target.1);
    (relation.0, cols)
}

/// The columns that the schema declares under `name`, the last declaration
/// winning.
fn lookup_schema(schema: &Vec<NamedRelation>, name: &String) -> (r: Option<Vec<Col>>)
    ensures
        r.deep_view() == schema_lookup(schema.deep_view(), name@),
{
    let ghost sv = schema.deep_view();
    let mut i: usize = schema.len();
    assert(sv.take(i as int) =~= sv);
    while i > 0
        invariant
            i <= schema.len(),
            sv == schema.deep_view(),
            schema_lookup(sv, name@) == schema_lookup(sv.take(i as int), name@),
        decreases i,
    {
        assert(sv.take(i as int).drop_last() =~= sv.take(i - 1));
        assert(sv.take(i as int).last() == sv[i - 1]);
        i = i - 1;
        if schema[i].0 == *name {
            return Some(clone_cols(&schema[i].1));
        }
    }
    assert(sv.take(0) =~= Seq::<NamedRelationView>::empty());
    None
}

fn normalize_qualified_name(name: &QualifiedName) -> (r: String)
    ensures
        r@ == canonical_name(*name),
{
    match &name.db_name {
        Some(d) => {
            let with_dot = concat(d.as_str(), ".");
            concat(with_dot.as_str(), name.name.as_str())
        },
        None => main_qualified(name.name.as_str()),
    }
}

fn maybe_aliased_table_to_relation(
    qualified_name: &QualifiedName,
    maybe_as: &Option<String>,
    schema: &Vec<NamedRelation>,
) -> (r: Relation)
    ensures
        r.deep_view() == table_relation(*qualified_name, *maybe_as, schema.deep_view()),
{
    let canonical = normalize_qualified_name(qualified_name);
    let cols = match lookup_schema(schema, &canonical) {
        Some(c) => c,
        None => Vec::new(),
    };
    assert(cols.deep_view() =~= match schema_lookup(schema.deep_view(), canonical@) {
        Some(c) => c,
        None => seq![],
    });
    match maybe_as {
        Some(alias) => (Some(main_qualified(alias.as_str())), cols),
        None => (Some(canonical), cols),
    }
}

/// The type of the first column named `n`.
fn column_type_in(cols: &Vec<Col>, n: &String) -> (r: Option<ColType>)
    ensures
        r.deep_view() == column_in(cols.deep_view(), n@),
{
    let ghost cv = cols.deep_view();
    let mut i: usize = 0;
    assert(cv.subrange(0, cv.len() as int) =~= cv);
    while i < cols.len()
        invariant
            i <= cols.len(),
            cv == cols.deep_view(),
            column_in(cv, n@) == column_in(cv.subrange(i as int, cv.len() as int), n@),
        decreases cols.len() - i,
    {
        assert(cv.subrange(i as int, cv.len() as int).drop_first() =~= cv.subrange(
            i + 1,
            cv.len() as int,
        ));
        assert(cv.subrange(i as int, cv.len() as int)[0] == cv[i as int]);
        if cols[i].0 == *n {
            return Some(clone_col_type(&cols[i].1));
        }
        i = i + 1;
    }
    assert(cv.subrange(i as int, cv.len() as int) =~= Seq::<ColView>::empty());
    None
}

/// The type of the column named `n` in the first relation that has one.
fn find_column_type(rels: &Vec<Relation>, n: &String) -> (r: Option<ColType>)
    ensures
        r.deep_view() == find_column(rels.deep_view(), n@),
{
    let ghost rv = rels.deep_view();
    let mut i: usize = 0;
    assert(rv.subrange(0, rv.len() as int) =~= rv);
    while i < rels.len()
        invariant
            i <= rels.len(),
            rv == rels.deep_view(),
            find_column(rv, n@) == find_column(rv.subrange(i as int, rv.len() as int), n@),
        decreases rels.len() - i,
    {
        assert(rv.subrange(i as int, rv.len() as int).drop_first() =~= rv.subrange(
            i + 1,
            rv.len() as int,
        ));
        assert(rv.subrange(i as int, rv.len() as int)[0] == rv[i as int]);
        let found = column_type_in(&rels[i].1, n);
        if found.is_some() {
            return found;
        }
        i = i + 1;
    }
    assert(rv.subrange(i as int, rv.len() as int) =~= Seq::<RelationView>::empty());
    None
}

/// The type of the column named `n` in the first relation named `rel` that
/// has one.
fn find_qualified_type(rels: &Vec<Relation>, rel: &String, n: &String) -> (r: Option<ColType>)
    ensures
        r.deep_view() == find_qualified(rels.deep_view(), rel@, n@),
{
    let ghost rv = rels.deep_view();
    let mut i: usize = 0;
    assert(rv.subrange(0, rv.len() as int) =~= rv);
    while i < rels.len()
        invariant
            i <= rels.len(),
            rv == rels.deep_view(),
            find_qualified(rv, rel@, n@) == find_qualified(
                rv.subrange(i as int, rv.len() as int),
                rel@,
                n@,
            ),
        decreases rels.len() - i,
    {
        assert(rv.subrange(i as int, rv.len() as int).drop_first() =~= rv.subrange(
            i + 1,
            rv.len() as int,
        ));
        assert(rv.subrange(i as int, rv.len() as int)[0] == rv[i as int]);
        let named = match &rels[i].0 {
            Some(m) => *m == *rel,
            None => false,
        };
        if named {
            let found = column_type_in(&rels[i].1, n);
            if found.is_some() {
                return found;
            }
        }
        i = i + 1;
    }
    assert(rv.subrange(i as int, rv.len() as int) =~= Seq::<RelationView>::empty());
    None
}

/// The first relation named `name`.
fn first_relation_named<'a>(rels: &'a Vec<Relation>, name: &String) -> (r: Option<&'a Relation>)
    ensures
        r.deep_view() == first_named(rels.deep_view(), name@),
{
    let ghost rv = rels.deep_view();
    let mut i: usize = 0;
    assert(rv.subrange(0, rv.len() as int) =~= rv);
    while i < rels.len()
        invariant
            i <= rels.len(),
            rv == rels.deep_view(),
            first_named(rv, name@) == first_named(rv.subrange(i as int, rv.len() as int), name@),
        decreases rels.len() - i,
    {
        assert(rv.subrange(i as int, rv.len() as int).drop_first() =~= rv.subrange(
            i + 1,
            rv.len() as int,
        ));
        assert(rv.subrange(i as int, rv.len() as int)[0] == rv[i as int]);
        let named = match &rels[i].0 {
            Some(m) => *m == *name,
            None => false,
        };
        if named {
            return Some(&rels[i]);
        }
        i = i + 1;
    }
    assert(rv.subrange(i as int, rv.len() as int) =~= Seq::<RelationView>::empty());
    None
}

/// Every column of every relation, in order.
fn collect_all_columns(rels: &Vec<Relation>) -> (r: Vec<Col>)
    ensures
        r.deep_view() == all_columns(rels.deep_view()),
{
    let ghost rv = rels.deep_view();
    let mut r: Vec<Col> = Vec::new();
    let mut i: usize = 0;
    assert(rv.take(0) =~= Seq::<RelationView>::empty());
    assert(r.deep_view() =~= Seq::<ColView>::empty());
    while i < rels.len()
        invariant
            i <= rels.len(),
            rv == rels.deep_view(),
            r.deep_view() == all_columns(rv.take(i as int)),
        decreases rels.len() - i,
    {
        assert(rv.take(i + 1).drop_last() =~= rv.take(i as int));
        assert(rv.take(i + 1).last() == rv[i as int]);
        extend_cols(&mut r, clone_cols(&rels[i].1));
        i = i + 1;
    }
    assert(rv.take(i as int) =~= rv);
    r
}

/// `acc` followed by the columns of `r`, or the failure of `r`.
spec fn prefixed(acc: Seq<ColView>, r: Result<Seq<ColView>, ErrorView>) -> Result<
    Seq<ColView>,
    ErrorView,
> {
    match r {
        Ok(rest) => Ok(acc + rest),
        Err(e) => Err(e),
    }
}

proof fn lemma_prefixed_step(acc: Seq<ColView>, c: Seq<ColView>, r: Result<Seq<ColView>, ErrorView>)
    ensures
        prefixed(
            acc,
            match r {
                Ok(rest) => Ok(c + rest),
                Err(e) => Err(e),
            },
        ) == prefixed(acc + c, r),
{
    if let Ok(rest) = r {
        assert(acc + (c + rest) =~= (acc + c) + rest);
    }
}

/// Appends the columns of `src` to `dst`.
fn extend_cols(dst: &mut Vec<Col>, src: Vec<Col>)
    ensures
        final(dst).deep_view() == old(dst).deep_view() + src.deep_view(),
{
    let ghost start = dst.deep_view();
    let ghost sv = src.deep_view();
    let mut src = src;
    dst.append(&mut src);
    assert(dst.deep_view() =~= start + sv);
}

fn rename(relation: Relation, maybe_as: &Option<String>) -> (r: Relation)
    ensures
        r.deep_view() == renamed(relation.deep_view(), *maybe_as),
{
    match maybe_as {
        Some(alias) => (Some(main_qualified(alias.as_str())), relation.1),
        None => relation,
    }
}

fn unresolved_type() -> (r: ColType)
    ensures
        r.deep_view() == unresolved_view(),
{
    let r: ColType = vec![(TypeKind::Unresolved, None, None)];
    assert(r.deep_view() =~= unresolved_view());
    r
}

/// The relation that a select yields, with `outer_from_relations` visible
/// to it.  A `WITH` clause is not taken into account.
pub fn select_to_relation(
    select: &Select,
    outer_from_relations: &Vec<Relation>,
    schema: &Vec<NamedRelation>,
) -> (r: Result<Relation, Error>)
    ensures
        result_view(r) == select_relation(
            *select,
            outer_from_relations.deep_view(),
            schema.deep_view(),
        ),
    decreases select, 0int,
{
    match &select.body {
        OneSelect::Values(rows) => {
            if rows.len() == 0 {
                return Err(Error::Arity(ArityError::EmptyValues));
            }
            match expressions_to_columns(&rows[0], outer_from_relations, schema) {
                Ok(cols) => Ok((None, cols)),
                Err(e) => Err(e),
            }
        },
        OneSelect::Select { columns, from } => {
            let local = match from {
                Some(f) => match relations_from_from_clause(f, outer_from_relations, schema) {
                    Ok(l) => l,
                    Err(e) => {
                        return Err(e);
                    },
                },
                None => {
                    let l: Vec<Relation> = Vec::new();
                    assert(l.deep_view() =~= seq![]);
                    l
                },
            };
            let mut scope: Vec<Relation> = Vec::new();
            assert(scope.deep_view() =~= seq![]);
            extend_relations(&mut scope, &local);
            extend_relations(&mut scope, outer_from_relations);
            assert(scope.deep_view() =~= local.deep_view() + outer_from_relations.deep_view());
            match selection_set(columns, &local, &scope, schema) {
                Ok(cols) => Ok((None, cols)),
                Err(e) => Err(e),
            }
        },
    }
}

/// The output columns of the result columns of a select.
fn selection_set(
    columns: &Vec<ResultColumn>,
    local: &Vec<Relation>,
    scope: &Vec<Relation>,
    schema: &Vec<NamedRelation>,
) -> (r: Result<Vec<Col>, Error>)
    ensures
        result_view(r) == project(
            columns@,
            0,
            local.deep_view(),
            scope.deep_view(),
            schema.deep_view(),
        ),
    decreases columns, 0int,
{
    let ghost lv = local.deep_view();
    let ghost sv = scope.deep_view();
    let ghost dv = schema.deep_view();
    let mut ret: Vec<Col> = Vec::new();
    assert(ret.deep_view() + project(columns@, 0, lv, sv, dv)->Ok_0 =~= project(
        columns@,
        0,
        lv,
        sv,
        dv,
    )->Ok_0);
    let mut i: usize = 0;
    while i < columns.len()
        invariant
            i <= columns.len(),
            lv == local.deep_view(),
            sv == scope.deep_view(),
            dv == schema.deep_view(),
            project(columns@, 0, lv, sv, dv) == prefixed(
                ret.deep_view(),
                project(columns@, i as int, lv, sv, dv),
            ),
        decreases columns.len() - i,
    {
        let ghost before = ret.deep_view();
        let ghost rest = project(columns@, i + 1, lv, sv, dv);
        let cols: Vec<Col> = match &columns[i] {
            ResultColumn::Expr { expr, alias, text } => {
                let t = match resolve_selection_set_expr_type(expr, scope, schema) {
                    Ok(t) => t,
                    Err(e) => {
                        return Err(e);
                    },
                };
                let name = match alias {
                    Some(a) => a.clone(),
                    None => text.to_string(),
                };
                let c: Vec<Col> = vec![(name, t)];
                assert(c.deep_view() =~= project_one(columns@[i as int], lv, sv, dv)->Ok_0);
                c
            },
            ResultColumn::Star => collect_all_columns(local),
            ResultColumn::TableStar(n) => {
                let full = main_qualified(n.as_str());
                match first_relation_named(local, &full) {
                    Some(rel) => clone_cols(&rel.1),
                    None => {
                        return Err(Error::UnresolvedRelation(n.clone()));
                    },
                }
            },
        };
        assert(project_one(columns@[i as int], lv, sv, dv) == Ok::<_, ErrorView>(cols.deep_view()));
        proof {
            lemma_prefixed_step(before, cols.deep_view(), rest);
        }
        extend_cols(&mut ret, cols);
        i = i + 1;
    }
    assert(ret.deep_view() + seq![] =~= ret.deep_view());
    Ok(ret)
}

/// The columns `column0`, `column1`, ... of a `VALUES` row.
fn expressions_to_columns(
    expressions: &Vec<Expr>,
    from_relations: &Vec<Relation>,
    schema: &Vec<NamedRelation>,
) -> (r: Result<Vec<Col>, Error>)
    ensures
        result_view(r) == values_columns(
            expressions@,
            0,
            from_relations.deep_view(),
            schema.deep_view(),
        ),
    decreases expressions, 0int,
{
    let ghost sv = from_relations.deep_view();
    let ghost dv = schema.deep_view();
    let mut ret: Vec<Col> = Vec::new();
    assert(ret.deep_view() + values_columns(expressions@, 0, sv, dv)->Ok_0 =~= values_columns(
        expressions@,
        0,
        sv,
        dv,
    )->Ok_0);
    let mut i: usize = 0;
    while i < expressions.len()
        invariant
            i <= expressions.len(),
            sv == from_relations.deep_view(),
            dv == schema.deep_view(),
            values_columns(expressions@, 0, sv, dv) == prefixed(
                ret.deep_view(),
                values_columns(expressions@, i as int, sv, dv),
            ),
        decreases expressions.len() - i,
    {
        let ghost before = ret.deep_view();
        let t = match resolve_selection_set_expr_type(&expressions[i], from_relations, schema) {
            Ok(t) => t,
            Err(e) => {
                return Err(e);
            },
        };
        let name = concat("column", decimal_text(i).as_str());
        let c: Col = (name, t);
        proof {
            lemma_prefixed_step(
                before,
                seq![c.deep_view()],
                values_columns(expressions@, i + 1, sv, dv),
            );
        }
        ret.push(c);
        assert(ret.deep_view() =~= before + seq![c.deep_view()]);
        i = i + 1;
    }
    assert(ret.deep_view() + seq![] =~= ret.deep_view());
    Ok(ret)
}

/// The type of a selected expression: a column reference is looked up in
/// the visible relations, any other expression is typed by
/// `expression_to_type`.
fn resolve_selection_set_expr_type(
    e: &Expr,
    from_relations: &Vec<Relation>,
    schema: &Vec<NamedRelation>,
) -> (r: Result<ColType, Error>)
    ensures
        result_view(r) == selected_type(*e, from_relations.deep_view(), schema.deep_view()),
    decreases e, 1int,
{
    match e {
        Expr::Id(name) | Expr::Name(name) => match find_column_type(from_relations, name) {
            Some(t) => Ok(t),
            None => Err(Error::UnresolvedColumn(name.clone())),
        },
        Expr::Qualified(table_name, col_name) => {
            let prefixed_name = main_qualified(table_name.as_str());
            match find_qualified_type(from_relations, &prefixed_name, col_name) {
                Some(t) => Ok(t),
                None => {
                    let with_dot = concat(table_name.as_str(), ".");
                    Err(Error::UnresolvedColumn(concat(with_dot.as_str(), col_name.as_str())))
                },
            }
        },
        Expr::DoublyQualified(db_name, table_name, col_name) => {
            let db_dot = concat(db_name.as_str(), ".");
            let prefixed_name = concat(db_dot.as_str(), table_name.as_str());
            match find_qualified_type(from_relations, &prefixed_name, col_name) {
                Some(t) => Ok(t),
                None => {
                    let with_dot = concat(prefixed_name.as_str(), ".");
                    Err(Error::UnresolvedColumn(concat(with_dot.as_str(), col_name.as_str())))
                },
            }
        },
        _ => expression_to_type(e, from_relations, schema),
    }
}

/// The type of an expression, with `from_relations` visible to its
/// subqueries.
fn expression_to_type(
    expression: &Expr,
    from_relations: &Vec<Relation>,
    schema: &Vec<NamedRelation>,
) -> (r: Result<ColType, Error>)
    ensures
        result_view(r) == expr_type(*expression, from_relations.deep_view(), schema.deep_view()),
    decreases expression, 0int,
{
    match expression {
        Expr::Binary(op) => Ok(op_to_type(*op)),
        Expr::Case { when_then_pairs } => when_then_to_type(when_then_pairs, from_relations, schema),
        Expr::Cast { cast_type } => Ok(type_from_type_name(cast_type.clone())),
        Expr::Exists | Expr::InList | Expr::InSelect | Expr::InTable | Expr::IsNull | Expr::Like
        | Expr::NotNull => Ok(builtin_type(BuiltinType::Boolean)),
        Expr::FunctionCall { name } => Ok(fn_call_to_type(name)),
        Expr::FunctionCallStar { name } => Ok(fn_call_to_type(name)),
        Expr::Literal(lit) => Ok(literal_to_type(lit)),
        Expr::Parenthesized(exprs) => subexpression_to_type(exprs, from_relations, schema),
        Expr::Subquery(select) => subquery_to_type(select, from_relations, schema),
        Expr::Unary(op) => Ok(unary_op_to_type(*op)),
        _ => Ok(unresolved_type()),
    }
}

/// The type of a `CASE` expression: that of its first `THEN` branch.
fn when_then_to_type(
    when_then_pairs: &Vec<(Expr, Expr)>,
    from_relations: &Vec<Relation>,
    schema: &Vec<NamedRelation>,
) -> (r: Result<ColType, Error>)
    ensures
        result_view(r) == if when_then_pairs@.len() == 0 {
            Err(ErrorView::Arity(ArityError::CaseWithoutBranch))
        } else {
            expr_type(when_then_pairs@[0].1, from_relations.deep_view(), schema.deep_view())
        },
    decreases when_then_pairs, 0int,
{
    if when_then_pairs.len() == 0 {
        Err(Error::Arity(ArityError::CaseWithoutBranch))
    } else {
        expression_to_type(&when_then_pairs[0].1, from_relations, schema)
    }
}

/// The type of a parenthesized expression, which must hold exactly one
/// expression.
fn subexpression_to_type(
    expressions: &Vec<Expr>,
    from_relations: &Vec<Relation>,
    schema: &Vec<NamedRelation>,
) -> (r: Result<ColType, Error>)
    ensures
        result_view(r) == if expressions@.len() != 1 {
            Err(ErrorView::Arity(ArityError::ParenthesizedCount))
        } else {
            expr_type(expressions@[0], from_relations.deep_view(), schema.deep_view())
        },
    decreases expressions, 0int,
{
    if expressions.len() != 1 {
        Err(Error::Arity(ArityError::ParenthesizedCount))
    } else {
        expression_to_type(&expressions[0], from_relations, schema)
    }
}

/// The type of a scalar subquery: that of its select's first column.
fn subquery_to_type(
    query: &Select,
    outer_from_relations: &Vec<Relation>,
    schema: &Vec<NamedRelation>,
) -> (r: Result<ColType, Error>)
    ensures
        result_view(r) == match select_relation(
            *query,
            outer_from_relations.deep_view(),
            schema.deep_view(),
        ) {
            Err(e) => Err(e),
            Ok(rel) => if rel.1.len() == 0 {
                Err(ErrorView::Arity(ArityError::SubqueryWithoutColumn))
            } else {
                Ok(rel.1[0].1)
            },
        },
    decreases query, 1int,
{
    match select_to_relation(query, outer_from_relations, schema) {
        Err(e) => Err(e),
        Ok(rel) => {
            if rel.1.len() == 0 {
                Err(Error::Arity(ArityError::SubqueryWithoutColumn))
            } else {
                Ok(clone_col_type(&rel.1[0].1))
            }
        },
    }
}

/// The relations of a FROM clause, left to right, with join nullability
/// applied.
fn relations_from_from_clause(
    from: &FromClause,
    outer_from_relations: &Vec<Relation>,
    schema: &Vec<NamedRelation>,
) -> (r: Result<Vec<Relation>, Error>)
    ensures
        result_view(r) == from_relations(*from, outer_from_relations.deep_view(), schema.deep_view()),
        r is Ok ==> r->Ok_0.len() >= 1,
    decreases from, 0int,
{
    let ghost ov = outer_from_relations.deep_view();
    let ghost dv = schema.deep_view();
    let first = match relation_from_selecttable(&from.select, outer_from_relations, schema) {
        Ok(rel) => rel,
        Err(e) => {
            return Err(e);
        },
    };
    let mut ret: Vec<Relation> = vec![first];
    assert(ret.deep_view() =~= seq![first.deep_view()]);
    let mut i: usize = 0;
    while i < from.joins.len()
        invariant
            i <= from.joins.len(),
            ov == outer_from_relations.deep_view(),
            dv == schema.deep_view(),
            ret.len() >= 1,
            from_relations(*from, ov, dv) == joins_relations(
                from.joins@,
                i as int,
                ret.deep_view(),
                ov,
                dv,
            ),
        decreases from.joins.len() - i,
    {
        let joined_table = &from.joins[i];
        let result = match joined_table.operator {
            JoinOperator::TypedJoin(Some(JoinType::Left))
            | JoinOperator::TypedJoin(Some(JoinType::LeftOuter)) => handle_left_join(
                &mut ret,
                &joined_table.table,
                outer_from_relations,
                schema,
            ),
            JoinOperator::TypedJoin(Some(JoinType::Right))
            | JoinOperator::TypedJoin(Some(JoinType::RightOuter)) => handle_right_join(
                &mut ret,
                &joined_table.table,
                outer_from_relations,
                schema,
            ),
            JoinOperator::TypedJoin(Some(JoinType::Full))
            | JoinOperator::TypedJoin(Some(JoinType::FullOuter)) => handle_full_join(
                &mut ret,
                &joined_table.table,
                outer_from_relations,
                schema,
            ),
            _ => handle_plain_join(&mut ret, &joined_table.table, outer_from_relations, schema),
        };
        if let Err(e) = result {
            return Err(e);
        }
        i = i + 1;
    }
    Ok(ret)
}

/// The relations before a join, then the outer ones: what a subquery in
/// the join sees.
fn join_context(ret: &Vec<Relation>, outer_from_relations: &Vec<Relation>) -> (r: Vec<Relation>)
    ensures
        r.deep_view() == ret.deep_view() + outer_from_relations.deep_view(),
{
    let mut ctx: Vec<Relation> = Vec::new();
    assert(ctx.deep_view() =~= seq![]);
    extend_relations(&mut ctx, ret);
    extend_relations(&mut ctx, outer_from_relations);
    assert(ctx.deep_view() =~= ret.deep_view() + outer_from_relations.deep_view());
    ctx
}

/// Makes the last relation of `ret` nullable.
fn nullify_last_relation(ret: &mut Vec<Relation>)
    ensures
        final(ret).deep_view() == nullify_last(old(ret).deep_view()),
{
    let ghost start = ret.deep_view();
    if let Some(last_relation) = ret.pop() {
        assert(start.drop_last() =~= ret.deep_view());
        let n = make_all_cols_nullable(last_relation);
        ret.push(n);
        assert(ret.deep_view() =~= nullify_last(start));
    } else {
        assert(start =~= ret.deep_view());
    }
}

/// An inner, cross or comma join: the relation on the right is added as it
/// is.
fn handle_plain_join(
    ret: &mut Vec<Relation>,
    selectable: &SelectTable,
    outer_from_relations: &Vec<Relation>,
    schema: &Vec<NamedRelation>,
) -> (r: Result<(), Error>)
    ensures
        match table_relation_of(
            *selectable,
            old(ret).deep_view() + outer_from_relations.deep_view(),
            schema.deep_view(),
        ) {
            Ok(rel) => r is Ok && final(ret).deep_view() == old(ret).deep_view().push(rel),
            Err(e) => r is Err && r->Err_0.deep_view() == e,
        },
    decreases selectable, 1int,
{
    let ctx = join_context(ret, outer_from_relations);
    match relation_from_selecttable(selectable, &ctx, schema) {
        Ok(rel) => {
            ret.push(rel);
            Ok(())
        },
        Err(e) => Err(e),
    }
}

fn handle_left_join(
    ret: &mut Vec<Relation>,
    selectable: &SelectTable,
    outer_from_relations: &Vec<Relation>,
    schema: &Vec<NamedRelation>,
) -> (r: Result<(), Error>)
    ensures
        match table_relation_of(
            *selectable,
            old(ret).deep_view() + outer_from_relations.deep_view(),
            schema.deep_view(),
        ) {
            Ok(rel) => r is Ok && final(ret).deep_view() == old(ret).deep_view().push(
                nullable_relation(rel),
            ),
            Err(e) => r is Err && r->Err_0.deep_view() == e,
        },
    decreases selectable, 1int,
{
    let ctx = join_context(ret, outer_from_relations);
    match relation_from_selecttable(selectable, &ctx, schema) {
        Ok(rel) => {
            ret.push(make_all_cols_nullable(rel));
            Ok(())
        },
        Err(e) => Err(e),
    }
}

fn handle_right_join(
    ret: &mut Vec<Relation>,
    selectable: &SelectTable,
    outer_from_relations: &Vec<Relation>,
    schema: &Vec<NamedRelation>,
) -> (r: Result<(), Error>)
    ensures
        match table_relation_of(
            *selectable,
            old(ret).deep_view() + outer_from_relations.deep_view(),
            schema.deep_view(),
        ) {
            Ok(rel) => r is Ok && final(ret).deep_view() == nullify_last(old(ret).deep_view()).push(
                rel,
            ),
            Err(e) => r is Err && r->Err_0.deep_view() == e,
        },
    decreases selectable, 1int,
{
    let ctx = join_context(ret, outer_from_relations);
    match relation_from_selecttable(selectable, &ctx, schema) {
        Ok(rel) => {
            nullify_last_relation(ret);
            ret.push(rel);
            Ok(())
        },
        Err(e) => Err(e),
    }
}

fn handle_full_join(
    ret: &mut Vec<Relation>,
    selectable: &SelectTable,
    outer_from_relations: &Vec<Relation>,
    schema: &Vec<NamedRelation>,
) -> (r: Result<(), Error>)
    ensures
        match table_relation_of(
            *selectable,
            old(ret).deep_view() + outer_from_relations.deep_view(),
            schema.deep_view(),
        ) {
            Ok(rel) => r is Ok && final(ret).deep_view() == nullify_last(old(ret).deep_view()).push(
                nullable_relation(rel),
            ),
            Err(e) => r is Err && r->Err_0.deep_view() == e,
        },
    decreases selectable, 1int,
{
    let ctx = join_context(ret, outer_from_relations);
    match relation_from_selecttable(selectable, &ctx, schema) {
        Ok(rel) => {
            nullify_last_relation(ret);
            ret.push(make_all_cols_nullable(rel));
            Ok(())
        },
        Err(e) => Err(e),
    }
}

/// The relation that a table, table-valued function, subquery or
/// parenthesized join in FROM position yields.
fn relation_from_selecttable(
    selectable: &SelectTable,
    from_relations: &Vec<Relation>,
    schema: &Vec<NamedRelation>,
) -> (r: Result<Relation, Error>)
    ensures
        result_view(r) == table_relation_of(
            *selectable,
            from_relations.deep_view(),
            schema.deep_view(),
        ),
    decreases selectable, 0int,
{
    match selectable {
        SelectTable::Table(qualified_name, maybe_as) => Ok(
            maybe_aliased_table_to_relation(qualified_name, maybe_as, schema),
        ),
        SelectTable::TableCall(qualified_name, maybe_as) => Ok(
            maybe_aliased_table_to_relation(qualified_name, maybe_as, schema),
        ),
        SelectTable::Select(select, maybe_as) => match select_to_relation(
            select,
            from_relations,
            schema,
        ) {
            Ok(relation) => Ok(rename(relation, maybe_as)),
            Err(e) => Err(e),
        },
        SelectTable::Sub(from, maybe_as) => match relations_from_from_clause(
            from,
            from_relations,
            schema,
        ) {
            Ok(relations) => {
                let first = clone_relation(&relations[0]);
                Ok(rename(first, maybe_as))
            },
            Err(e) => Err(e),
        },
    }
}

fn named_col(name: &str, b: BuiltinType) -> (r: Col)
    ensures
        r.deep_view() == (name@, builtin_view(b)),
{
    (String::from_str(name), builtin_type(b))
}

/// The shape of one top-level command, if it yields rows: the fixed shapes
/// of `EXPLAIN` and `EXPLAIN QUERY PLAN`, or the relation of a select.
pub fn get_result_shape(node: &Cmd, schema: &Vec<NamedRelation>) -> (r: Result<
    Option<Relation>,
    Error,
>)
    ensures
        result_view(r) == result_shape(*node, schema.deep_view()),
{
    match node {
        Cmd::Explain => {
            let cols: Vec<Col> = vec![
                named_col("addr", BuiltinType::Int),
                named_col("opcode", BuiltinType::String),
                named_col("p1", BuiltinType::Int),
                named_col("p2", BuiltinType::Int),
                named_col("p3", BuiltinType::Int),
                named_col("p4", BuiltinType::Int),
                named_col("p5", BuiltinType::Int),
                named_col("comment", BuiltinType::String),
            ];
            assert(cols.deep_view() =~= explain_shape().1);
            Ok(Some((None, cols)))
        },
        Cmd::ExplainQueryPlan => {
            let cols: Vec<Col> = vec![named_col("QUERY PLAN", BuiltinType::String)];
            assert(cols.deep_view() =~= query_plan_shape().1);
            Ok(Some((None, cols)))
        },
        Cmd::Stmt(Stmt::Select(select)) => {
            let outer: Vec<Relation> = Vec::new();
            assert(outer.deep_view() =~= seq![]);
            match select_to_relation(select, &outer, schema) {
                Ok(relation) => Ok(Some(relation)),
                Err(e) => Err(e),
            }
        },
        Cmd::Stmt(_) => Ok(None),
    }
}

/// A failure within the first `k` commands is the failure of the whole
/// batch.
proof fn lemma_result_shapes_fail_fast(cmds: Seq<Cmd>, schema: Seq<NamedRelationView>, k: int)
    requires
        0 <= k <= cmds.len(),
        result_shapes(cmds.take(k), schema) is Err,
    ensures
        result_shapes(cmds, schema) == result_shapes(cmds.take(k), schema),
    decreases cmds.len(),
{
    if k < cmds.len() {
        assert(cmds.drop_last().take(k) =~= cmds.take(k));
        lemma_result_shapes_fail_fast(cmds.drop_last(), schema, k);
    } else {
        assert(cmds.take(k) =~= cmds);
    }
}

/// The shapes of a batch of commands against a schema, in order, leaving
/// out the commands that yield no rows.  The first failing command fails
/// the whole batch.
pub fn get_result_shapes(cmds: &Vec<Cmd>, schema: &Vec<NamedRelation>) -> (r: Result<
    Vec<Relation>,
    Error,
>)
    ensures
        result_view(r) == result_shapes(cmds@, schema.deep_view()),
{
    let ghost dv = schema.deep_view();
    let mut ret: Vec<Relation> = Vec::new();
    let mut i: usize = 0;
    assert(cmds@.take(0) =~= Seq::<Cmd>::empty());
    assert(ret.deep_view() =~= Seq::<RelationView>::empty());
    while i < cmds.len()
        invariant
            i <= cmds.len(),
            dv == schema.deep_view(),
            result_shapes(cmds@.take(i as int), dv) == Ok::<_, ErrorView>(ret.deep_view()),
        decreases cmds.len() - i,
    {
        assert(cmds@.take(i + 1).drop_last() =~= cmds@.take(i as int));
        assert(cmds@.take(i + 1).last() == cmds@[i as int]);
        match get_result_shape(&cmds[i], schema) {
            Err(e) => {
                proof {
                    lemma_result_shapes_fail_fast(cmds@, dv, i + 1);
                }
                return Err(e);
            },
            Ok(Some(relation)) => {
                let ghost before = ret.deep_view();
                ret.push(relation);
                assert(ret.deep_view() =~= before.push(relation.deep_view()));
            },
            Ok(None) => {},
        }
        i = i + 1;
    }
    assert(cmds@.take(i as int) =~= cmds@);
    Ok(ret)
}

} // verus!
