//! The parsed statements that shape inference reads: for each node, the parts
//! that decide a shape.  Names are kept as the parser gives them, quotes
//! included.
use vstd::prelude::*;
use crate::queries::TokenCollector;
use crate::types::Constraint;

verus! {

/// A top-level command.
#[derive(Debug, PartialEq, Eq)]
pub enum Cmd {
    Explain,
    ExplainQueryPlan,
    Stmt(Stmt),
}

#[derive(Debug, PartialEq, Eq)]
pub enum Stmt {
    CreateTable { tbl_name: String, body: CreateTableBody },
    Select(Select),
    /// Any other statement.
    Other,
}

#[derive(Debug, PartialEq, Eq)]
pub enum CreateTableBody {
    ColumnsAndConstraints { columns: Vec<ColumnDefinition> },
    AsSelect,
}

#[derive(Clone, Debug, PartialEq, Eq)]
pub struct ColumnDefinition {
    pub col_name: String,
    /// The declared type name, if any.
    pub col_type: Option<String>,
    pub constraints: Vec<Constraint>,
}

/// A select statement; of a compound select, its first arm.  Its `WITH`
/// clause, if any, is not kept: common table expressions are not resolved,
/// so a select cannot refer to the relations they name.
#[derive(Debug, PartialEq, Eq)]
pub struct Select {
    pub body: OneSelect,
}

#[derive(Debug, PartialEq, Eq)]
pub enum OneSelect {
    Select { columns: Vec<ResultColumn>, from: Option<FromClause> },
    /// The rows of a `VALUES` body.
    Values(Vec<Vec<Expr>>),
}

#[derive(Debug, PartialEq, Eq)]
pub struct FromClause {
    pub select: Box<SelectTable>,
    pub joins: Vec<JoinedSelectTable>,
}

#[derive(Debug, PartialEq, Eq)]
pub struct JoinedSelectTable {
    pub operator: JoinOperator,
    pub table: SelectTable,
}

#[derive(Clone, Copy, Debug, PartialEq, Eq, Structural)]
pub enum JoinOperator {
    Comma,
    TypedJoin(Option<JoinType>),
}

#[derive(Clone, Copy, Debug, PartialEq, Eq, Structural)]
pub enum JoinType {
    Left,
    LeftOuter,
    Inner,
    Cross,
    Right,
    RightOuter,
    Full,
    FullOuter,
}

#[derive(Clone, Debug, PartialEq, Eq)]
pub struct QualifiedName {
    pub db_name: Option<String>,
    pub name: String,
}

/// A table, table-valued function, subquery or parenthesized join in FROM
/// position, with its alias if any.
#[derive(Debug, PartialEq, Eq)]
pub enum SelectTable {
    Table(QualifiedName, Option<String>),
    TableCall(QualifiedName, Option<String>),
    Select(Select, Option<String>),
    Sub(FromClause, Option<String>),
}

#[derive(Debug, PartialEq, Eq)]
pub enum ResultColumn {
    /// A selected expression with its alias, if any, and its tokens.
    Expr { expr: Expr, alias: Option<String>, text: TokenCollector },
    Star,
    /// `table.*`
    TableStar(String),
}

#[derive(Debug, PartialEq, Eq)]
pub enum Expr {
    Between,
    Binary(Operator),
    Case { when_then_pairs: Vec<(Expr, Expr)> },
    Cast { cast_type: String },
    Collate,
    /// `db.table.column`
    DoublyQualified(String, String, String),
    Exists,
    FunctionCall { name: String },
    /// A function called with `*` as its argument.
    FunctionCallStar { name: String },
    Id(String),
    InList,
    InSelect,
    InTable,
    IsNull,
    Like,
    Literal(Literal),
    Name(String),
    NotNull,
    Parenthesized(Vec<Expr>),
    /// `table.column`
    Qualified(String, String),
    Raise,
    Subquery(Box<Select>),
    Unary(UnaryOperator),
    Variable,
}

#[derive(Clone, Debug, PartialEq, Eq)]
pub enum Literal {
    Numeric(String),
    String(String),
    Blob(String),
    Keyword(String),
    Null,
    CurrentDate,
    CurrentTime,
    CurrentTimestamp,
}

#[derive(Clone, Copy, Debug, PartialEq, Eq, Structural)]
pub enum Operator {
    Add,
    And,
    ArrowRight,
    ArrowRightShift,
    BitwiseAnd,
    BitwiseOr,
    Concat,
    Equals,
    Divide,
    Greater,
    GreaterEquals,
    Is,
    IsNot,
    LeftShift,
    Less,
    LessEquals,
    Modulus,
    Multiply,
    NotEquals,
    Or,
    RightShift,
    Substract,
}

#[derive(Clone, Copy, Debug, PartialEq, Eq, Structural)]
pub enum UnaryOperator {
    BitwiseNot,
    Negative,
    Not,
    Positive,
}

} // verus!
