use vstd::prelude::*;
use crate::expr::{Expr, Func, TypeError, call1, call2, call3};

verus! {

/// `subltree(ltree, start, end)`: the labels of `ltree` from `start` up to `end`.
pub fn subltree(ltree: Expr, start: Expr, end: Expr) -> (r: Result<Expr, TypeError>)
    ensures
        r == call3(Func::Subltree, ltree, start, end),
{
    Expr::call3(Func::Subltree, ltree, start, end)
}

/// `subpath(ltree, offset, len)`: `len` labels of `ltree` from `offset` on.
pub fn subpath(ltree: Expr, offset: Expr, len: Expr) -> (r: Result<Expr, TypeError>)
    ensures
        r == call3(Func::Subpath, ltree, offset, len),
{
    Expr::call3(Func::Subpath, ltree, offset, len)
}

/// `nlevel(ltree)`: the number of labels in the path.
pub fn nlevel(ltree: Expr) -> (r: Result<Expr, TypeError>)
    ensures
        r == call1(Func::Nlevel, ltree),
{
    Expr::call1(Func::Nlevel, ltree)
}

/// `index(a, b)`: the position of the first occurrence of `b` in `a`.
pub fn index(a: Expr, b: Expr) -> (r: Result<Expr, TypeError>)
    ensures
        r == call2(Func::Index, a, b),
{
    Expr::call2(Func::Index, a, b)
}

/// `text2ltree(text)`: a text cast to `ltree`.
pub fn text2ltree(text: Expr) -> (r: Result<Expr, TypeError>)
    ensures
        r == call1(Func::Text2ltree, text),
{
    Expr::call1(Func::Text2ltree, text)
}

/// `ltree2text(ltree)`: an `ltree` cast to text.
pub fn ltree2text(ltree: Expr) -> (r: Result<Expr, TypeError>)
    ensures
        r == call1(Func::Ltree2text, ltree),
{
    Expr::call1(Func::Ltree2text, ltree)
}

/// `lquery(x)`: a text cast to `lquery`.
pub fn lquery(x: Expr) -> (r: Result<Expr, TypeError>)
    ensures
        r == call1(Func::Lquery, x),
{
    Expr::call1(Func::Lquery, x)
}

/// `ltxtquery(x)`: a text cast to `ltxtquery`.
pub fn ltxtquery(x: Expr) -> (r: Result<Expr, TypeError>)
    ensures
        r == call1(Func::Ltxtquery, x),
{
    Expr::call1(Func::Ltxtquery, x)
}

} // verus!
