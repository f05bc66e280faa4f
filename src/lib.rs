//! PostgreSQL `ltree`, `lquery` and `ltxtquery` support for a typed SQL
//! expression builder: type tokens, the ltree SQL functions and the ltree
//! infix operators, with a renderer to SQL text and bound values.

pub mod types;
pub mod expr;
pub mod render;
pub mod functions;
pub mod dsl;
pub mod lemmas;

pub use types::{Ltree, Lquery, Ltxtquery, SqlType};
pub use expr::{Expr, Func, Operator, TypeError, Value};
pub use functions::{subltree, subpath, nlevel, index, text2ltree, ltree2text, lquery, ltxtquery};
pub use dsl::{ExprNode, LtreeExtensions, LqueryExtensions, LtxtqueryExtensions};
