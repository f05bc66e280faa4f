use vstd::prelude::*;
use crate::expr::{Expr, Operator, TypeError, infix};
use crate::types::SqlType;

verus! {

/// An expression that the operator methods can take as their left operand.
pub trait ExprNode: Sized {
    /// The expression tree this value stands for.
    spec fn node(&self) -> Expr;
}

impl ExprNode for Expr {
    open spec fn node(&self) -> Expr {
        *self
    }
}

/// The operators whose left operand is an `ltree`.
pub trait LtreeExtensions: ExprNode {
    /// `self @> other`: `self` is an ancestor of `other` (or equal to it).
    fn contains(self, other: Expr) -> (r: Result<Expr, TypeError>)
        ensures
            r == infix(Operator::Contains, SqlType::Ltree, SqlType::Ltree, self.node(), other),
    ;

    /// `self <@ other`: `self` is a descendant of `other` (or equal to it).
    fn contained_by(self, other: Expr) -> (r: Result<Expr, TypeError>)
        ensures
            r == infix(Operator::ContainedBy, SqlType::Ltree, SqlType::Ltree, self.node(), other),
    ;

    /// `self ~ other`: the path matches the `lquery` pattern.
    fn matches(self, other: Expr) -> (r: Result<Expr, TypeError>)
        ensures
            r == infix(Operator::Matches, SqlType::Ltree, SqlType::Lquery, self.node(), other),
    ;

    /// `self @ other`: the path matches the `ltxtquery` query.
    fn tmatches(self, other: Expr) -> (r: Result<Expr, TypeError>)
        ensures
            r == infix(Operator::TMatches, SqlType::Ltree, SqlType::Ltxtquery, self.node(), other),
    ;

    /// `self || other`: the two paths joined into one.
    fn concat(self, other: Expr) -> (r: Result<Expr, TypeError>)
        ensures
            r == infix(Operator::Concat, SqlType::Ltree, SqlType::Ltree, self.node(), other),
    ;
}

/// The operators whose left operand is an `lquery`.
pub trait LqueryExtensions: ExprNode {
    /// `self ~ other`: the `ltree` matches the pattern.
    fn matches(self, other: Expr) -> (r: Result<Expr, TypeError>)
        ensures
            r == infix(Operator::Matches, SqlType::Lquery, SqlType::Ltree, self.node(), other),
    ;
}

/// The operators whose left operand is an `ltxtquery`.
pub trait LtxtqueryExtensions: ExprNode {
    /// `self @ other`: the `ltree` matches the query.
    fn tmatches(self, other: Expr) -> (r: Result<Expr, TypeError>)
        ensures
            r == infix(Operator::TMatches, SqlType::Ltxtquery, SqlType::Ltree, self.node(), other),
    ;
}

impl LtreeExtensions for Expr {
    fn contains(self, other: Expr) -> (r: Result<Expr, TypeError>) {
        Expr::infix(Operator::Contains, SqlType::Ltree, SqlType::Ltree, self, other)
    }

    fn contained_by(self, other: Expr) -> (r: Result<Expr, TypeError>) {
        Expr::infix(Operator::ContainedBy, SqlType::Ltree, SqlType::Ltree, self, other)
    }

    fn matches(self, other: Expr) -> (r: Result<Expr, TypeError>) {
        Expr::infix(Operator::Matches, SqlType::Ltree, SqlType::Lquery, self, other)
    }

    fn tmatches(self, other: Expr) -> (r: Result<Expr, TypeError>) {
        Expr::infix(Operator::TMatches, SqlType::Ltree, SqlType::Ltxtquery, self, other)
    }

    fn concat(self, other: Expr) -> (r: Result<Expr, TypeError>) {
        Expr::infix(Operator::Concat, SqlType::Ltree, SqlType::Ltree, self, other)
    }
}

impl LqueryExtensions for Expr {
    fn matches(self, other: Expr) -> (r: Result<Expr, TypeError>) {
        Expr::infix(Operator::Matches, SqlType::Lquery, SqlType::Ltree, self, other)
    }
}

impl LtxtqueryExtensions for Expr {
    fn tmatches(self, other: Expr) -> (r: Result<Expr, TypeError>) {
        Expr::infix(Operator::TMatches, SqlType::Ltxtquery, SqlType::Ltree, self, other)
    }
}

} // verus!
