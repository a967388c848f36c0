//! The ways in which shape inference fails.
use vstd::prelude::*;

verus! {

/// A construct whose shape this library does not compute.
#[derive(Clone, Copy, Debug, PartialEq, Eq, Structural)]
pub enum UnsupportedConstruct {
    /// `CREATE TABLE ... AS SELECT`: its shape would need the query resolver
    /// on a table that does not exist yet.
    CreateTableAsSelect,
}

/// A node with the wrong number of parts.
#[derive(Clone, Copy, Debug, PartialEq, Eq, Structural)]
pub enum ArityError {
    /// A `VALUES` body without any row.
    EmptyValues,
    /// A parenthesized expression that does not hold exactly one expression.
    ParenthesizedCount,
    /// A `CASE` expression without any `WHEN ... THEN` branch.
    CaseWithoutBranch,
    /// A scalar subquery whose select yields no column.
    SubqueryWithoutColumn,
}

#[derive(Clone, Debug, PartialEq, Eq)]
pub enum Error {
    /// Malformed SQL, with the parser's message.
    Parse(String),
    Unsupported(UnsupportedConstruct),
    /// A `table.*` whose table is not among the FROM relations.
    UnresolvedRelation(String),
    /// A selected column reference, as written, that no visible relation
    /// holds.
    UnresolvedColumn(String),
    Arity(ArityError),
}

/// An error with its texts seen as character sequences.
pub enum ErrorView {
    Parse(Seq<char>),
    Unsupported(UnsupportedConstruct),
    UnresolvedRelation(Seq<char>),
    UnresolvedColumn(Seq<char>),
    Arity(ArityError),
}

impl DeepView for Error {
    type V = ErrorView;

    open spec fn deep_view(&self) -> ErrorView {
        match self {
            Error::Parse(m) => ErrorView::Parse(m@),
            Error::Unsupported(c) => ErrorView::Unsupported(*c),
            Error::UnresolvedRelation(n) => ErrorView::UnresolvedRelation(n@),
            Error::UnresolvedColumn(n) => ErrorView::UnresolvedColumn(n@),
            Error::Arity(a) => ErrorView::Arity(*a),
        }
    }
}

/// A result with both of its sides seen through their deep views.
pub open spec fn result_view<T: DeepView>(r: Result<T, Error>) -> Result<T::V, ErrorView> {
    match r {
        Ok(t) => Ok(t.deep_view()),
        Err(e) => Err(e.deep_view()),
    }
}

} // verus!
