//! Shape inference for SQL statements: given the tables that `CREATE TABLE`
//! statements declare, compute the ordered output columns of a query and, for
//! each, the union of types its values may take.
pub mod types;
pub mod util;
pub mod ast;
pub mod laws;
pub mod ddl;
pub mod error;
pub mod queries;
pub mod semantics;
