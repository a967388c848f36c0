//! The type model: type atoms, type unions, columns and relations.
use vstd::prelude::*;
use crate::util::same_text;

verus! {

/// A fixed primitive type.
#[derive(Clone, Copy, Debug, PartialEq, Eq, Structural)]
pub enum BuiltinType {
    Number,
    Boolean,
    String,
    Blob,
    Json,
    Int,
    Float,
    Any,
    Null,
    Quoted,
    BigInt,
    Unspecified,
    Date,
    Time,
    CurrentDate,
    CurrentTime,
    CurrentTimestamp,
}

/// What a type atom stands for.
#[derive(Clone, Copy, Debug, PartialEq, Eq, Structural)]
pub enum TypeKind {
    Literal,
    Builtin,
    Custom,
    Unresolved,
}

/// A column constraint that a `CREATE TABLE` statement may declare.
#[derive(Clone, Copy, Debug, PartialEq, Eq, Structural)]
pub enum Constraint {
    NotNull,
    Unique,
    PrimaryKey,
    ForeignKey,
}

impl DeepView for BuiltinType {
    type V = BuiltinType;

    open spec fn deep_view(&self) -> BuiltinType {
        *self
    }
}

impl DeepView for TypeKind {
    type V = TypeKind;

    open spec fn deep_view(&self) -> TypeKind {
        *self
    }
}

pub type RelationName = String;

pub type ColName = String;

/// One alternative of a type union: its kind, an optional builtin tag and an
/// optional literal text.
pub type TypeAtom = (TypeKind, Option<BuiltinType>, Option<String>);

/// A type union, in insertion order.  A `Null` builtin atom anywhere in it
/// means that the column may be null.
pub type ColType = Vec<TypeAtom>;

pub type Col = (ColName, ColType);

/// A relation: an optional canonical name and its ordered columns.
pub type Relation = (Option<RelationName>, Vec<Col>);

pub type NamedRelation = (RelationName, Vec<Col>);

pub type AtomView = (TypeKind, Option<BuiltinType>, Option<Seq<char>>);

pub type ColTypeView = Seq<AtomView>;

pub type ColView = (Seq<char>, ColTypeView);

pub type RelationView = (Option<Seq<char>>, Seq<ColView>);

pub type NamedRelationView = (Seq<char>, Seq<ColView>);

/// The union made of the single builtin atom `b`.
pub open spec fn builtin_view(b: BuiltinType) -> ColTypeView {
    seq![(TypeKind::Builtin, Some(b), None)]
}

/// Whether the union holds a `Null` builtin atom, which means that the
/// column may be null.
pub open spec fn may_be_null(t: ColTypeView) -> bool {
    exists|i: int| 0 <= i < t.len() && t[i].1 == Some(BuiltinType::Null)
}

pub fn builtin_type(c: BuiltinType) -> (r: ColType)
    ensures
        r.deep_view() == builtin_view(c),
{
    let r: ColType = vec![(TypeKind::Builtin, Some(c), None)];
    assert(r.deep_view() =~= builtin_view(c));
    r
}

} // verus!

verus! {

/// The lowercase form of a text, as `str::to_lowercase` computes it.
pub uninterp spec fn lower_of(s: Seq<char>) -> Seq<char>;

/// Relies on `str::to_lowercase`: its result is the lowercase mapping of the
/// characters of `s`, and depends on them alone.
#[verifier::external_body]
pub(crate) fn to_lower(s: &str) -> (r: String)
    ensures
        r@ == lower_of(s@),
{
    s.to_lowercase()
}

/// The type union that a declared or cast type name stands for, given the
/// name as written and its lowercase form.
pub open spec fn type_of_lowered_name(lowered: Seq<char>, name: Seq<char>) -> ColTypeView {
    if lowered == "integer"@ || lowered == "int"@ {
        builtin_view(BuiltinType::Int)
    } else if lowered == "biginteger"@ || lowered == "bigint"@ {
        builtin_view(BuiltinType::BigInt)
    } else if lowered == "text"@ || lowered == "string"@ {
        builtin_view(BuiltinType::String)
    } else if lowered == "number"@ {
        builtin_view(BuiltinType::Number)
    } else if lowered == "boolean"@ {
        builtin_view(BuiltinType::Boolean)
    } else if lowered == "blob"@ {
        builtin_view(BuiltinType::Blob)
    } else if lowered == "json"@ {
        builtin_view(BuiltinType::Json)
    } else if lowered == "float"@ || lowered == "double"@ || lowered == "real"@ {
        builtin_view(BuiltinType::Float)
    } else if lowered == "date"@ {
        builtin_view(BuiltinType::Date)
    } else if lowered == "time"@ || lowered == "timestamp"@ {
        builtin_view(BuiltinType::Time)
    } else if lowered == "any"@ {
        builtin_view(BuiltinType::Any)
    } else {
        seq![(TypeKind::Custom, None, Some(name))]
    }
}

/// The type union for the type name `declared`, whose lowercase form is
/// `lowered`.
pub fn type_from_lowered_name(lowered: &str, declared: String) -> (r: ColType)
    ensures
        r.deep_view() == type_of_lowered_name(lowered@, declared@),
{
    if same_text(lowered, "integer") || same_text(lowered, "int") {
        builtin_type(BuiltinType::Int)
    } else if same_text(lowered, "biginteger") || same_text(lowered, "bigint") {
        builtin_type(BuiltinType::BigInt)
    } else if same_text(lowered, "text") || same_text(lowered, "string") {
        builtin_type(BuiltinType::String)
    } else if same_text(lowered, "number") {
        builtin_type(BuiltinType::Number)
    } else if same_text(lowered, "boolean") {
        builtin_type(BuiltinType::Boolean)
    } else if same_text(lowered, "blob") {
        builtin_type(BuiltinType::Blob)
    } else if same_text(lowered, "json") {
        builtin_type(BuiltinType::Json)
    } else if same_text(lowered, "float") || same_text(lowered, "double") || same_text(
        lowered,
        "real",
    ) {
        builtin_type(BuiltinType::Float)
    } else if same_text(lowered, "date") {
        builtin_type(BuiltinType::Date)
    } else if same_text(lowered, "time") || same_text(lowered, "timestamp") {
        builtin_type(BuiltinType::Time)
    } else if same_text(lowered, "any") {
        builtin_type(BuiltinType::Any)
    } else {
        let r: ColType = vec![(TypeKind::Custom, None, Some(declared))];
        assert(r.deep_view() =~= seq![(TypeKind::Custom, None, Some(declared@))]);
        r
    }
}

/// The type union for a declared or cast type name, matched without regard
/// to case; a name that is not a known type stands for itself as a custom
/// type.
pub fn type_from_type_name(declared: String) -> (r: ColType)
    ensures
        r.deep_view() == type_of_lowered_name(lower_of(declared@), declared@),
{
    let lowered = to_lower(declared.as_str());
    type_from_lowered_name(lowered.as_str(), declared)
}

} // verus!

verus! {

pub fn clone_atom(a: &TypeAtom) -> (r: TypeAtom)
    ensures
        r.deep_view() == a.deep_view(),
{
    let text = match &a.2 {
        Some(s) => Some(s.clone()),
        None => None,
    };
    (a.0, a.1, text)
}

pub fn clone_col_type(t: &ColType) -> (r: ColType)
    ensures
        r.deep_view() == t.deep_view(),
{
    let mut r: ColType = Vec::new();
    let mut i: usize = 0;
    while i < t.len()
        invariant
            i <= t.len(),
            r.deep_view() == t.deep_view().take(i as int),
        decreases t.len() - i,
    {
        let a = clone_atom(&t[i]);
        let ghost before = r.deep_view();
        r.push(a);
        assert(r.deep_view() =~= before.push(a.deep_view()));
        assert(r.deep_view() =~= t.deep_view().take(i + 1));
        i = i + 1;
    }
    assert(r.deep_view() =~= t.deep_view());
    r
}

pub fn clone_cols(cols: &Vec<Col>) -> (r: Vec<Col>)
    ensures
        r.deep_view() == cols.deep_view(),
{
    let mut r: Vec<Col> = Vec::new();
    let mut i: usize = 0;
    while i < cols.len()
        invariant
            i <= cols.len(),
            r.deep_view() == cols.deep_view().take(i as int),
        decreases cols.len() - i,
    {
        let c = (cols[i].0.clone(), clone_col_type(&cols[i].1));
        let ghost before = r.deep_view();
        r.push(c);
        assert(r.deep_view() =~= before.push(c.deep_view()));
        assert(r.deep_view() =~= cols.deep_view().take(i + 1));
        i = i + 1;
    }
    assert(r.deep_view() =~= cols.deep_view());
    r
}

pub fn clone_relation(rel: &Relation) -> (r: Relation)
    ensures
        r.deep_view() == rel.deep_view(),
{
    let name = match &rel.0 {
        Some(n) => Some(n.clone()),
        None => None,
    };
    (name, clone_cols(&rel.1))
}

/// Appends copies of `src` to `dst`.
pub fn extend_relations(dst: &mut Vec<Relation>, src: &Vec<Relation>)
    ensures
        final(dst).deep_view() == old(dst).deep_view() + src.deep_view(),
{
    let ghost start = dst.deep_view();
    let mut i: usize = 0;
    while i < src.len()
        invariant
            i <= src.len(),
            dst.deep_view() == start + src.deep_view().take(i as int),
        decreases src.len() - i,
    {
        let r = clone_relation(&src[i]);
        let ghost before = dst.deep_view();
        dst.push(r);
        assert(dst.deep_view() =~= before.push(r.deep_view()));
        assert(dst.deep_view() =~= start + src.deep_view().take(i + 1));
        i = i + 1;
    }
    assert(src.deep_view().take(i as int) =~= src.deep_view());
}

} // verus!
