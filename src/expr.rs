use vstd::prelude::*;
use crate::types::SqlType;

verus! {

/// A value bound to a placeholder of the rendered SQL.
#[derive(Debug, PartialEq, Eq)]
pub enum Value {
    Text(String),
    Int4(i32),
}

impl Value {
    /// A copy of the value.
    pub fn duplicate(&self) -> (r: Value)
        ensures
            r == *self,
    {
        match self {
            Value::Text(s) => Value::Text(s.clone()),
            Value::Int4(v) => Value::Int4(*v),
        }
    }
}

/// The SQL functions of the ltree extension.
#[derive(Clone, Copy, Debug, PartialEq, Eq, Structural)]
pub enum Func {
    Subltree,
    Subpath,
    Nlevel,
    Index,
    Text2ltree,
    Ltree2text,
    Lquery,
    Ltxtquery,
}

/// The SQL name of a function.
pub open spec fn func_name(f: Func) -> Seq<char> {
    match f {
        Func::Subltree => seq!['s', 'u', 'b', 'l', 't', 'r', 'e', 'e'],
        Func::Subpath => seq!['s', 'u', 'b', 'p', 'a', 't', 'h'],
        Func::Nlevel => seq!['n', 'l', 'e', 'v', 'e', 'l'],
        Func::Index => seq!['i', 'n', 'd', 'e', 'x'],
        Func::Text2ltree => seq!['t', 'e', 'x', 't', '2', 'l', 't', 'r', 'e', 'e'],
        Func::Ltree2text => seq!['l', 't', 'r', 'e', 'e', '2', 't', 'e', 'x', 't'],
        Func::Lquery => seq!['l', 'q', 'u', 'e', 'r', 'y'],
        Func::Ltxtquery => seq!['l', 't', 'x', 't', 'q', 'u', 'e', 'r', 'y'],
    }
}

/// The declared parameter types of a function, in order.
pub open spec fn func_params(f: Func) -> Seq<SqlType> {
    match f {
        Func::Subltree => seq![SqlType::Ltree, SqlType::Int4, SqlType::Int4],
        Func::Subpath => seq![SqlType::Ltree, SqlType::Int4, SqlType::Int4],
        Func::Nlevel => seq![SqlType::Ltree],
        Func::Index => seq![SqlType::Ltree, SqlType::Ltree],
        Func::Text2ltree => seq![SqlType::Text],
        Func::Ltree2text => seq![SqlType::Ltree],
        Func::Lquery => seq![SqlType::Text],
        Func::Ltxtquery => seq![SqlType::Text],
    }
}

/// The declared return type of a function.
pub open spec fn func_return(f: Func) -> SqlType {
    match f {
        Func::Subltree | Func::Subpath | Func::Text2ltree => SqlType::Ltree,
        Func::Nlevel | Func::Index => SqlType::Int4,
        Func::Ltree2text => SqlType::Text,
        Func::Lquery => SqlType::Lquery,
        Func::Ltxtquery => SqlType::Ltxtquery,
    }
}

impl Func {
    pub fn name(&self) -> (r: &'static str)
        ensures
            r@ == func_name(*self),
    {
        match self {
            Func::Subltree => {
                proof { reveal_strlit("subltree"); }
                "subltree"
            },
            Func::Subpath => {
                proof { reveal_strlit("subpath"); }
                "subpath"
            },
            Func::Nlevel => {
                proof { reveal_strlit("nlevel"); }
                "nlevel"
            },
            Func::Index => {
                proof { reveal_strlit("index"); }
                "index"
            },
            Func::Text2ltree => {
                proof { reveal_strlit("text2ltree"); }
                "text2ltree"
            },
            Func::Ltree2text => {
                proof { reveal_strlit("ltree2text"); }
                "ltree2text"
            },
            Func::Lquery => {
                proof { reveal_strlit("lquery"); }
                "lquery"
            },
            Func::Ltxtquery => {
                proof { reveal_strlit("ltxtquery"); }
                "ltxtquery"
            },
        }
    }

    pub fn return_type(&self) -> (r: SqlType)
        ensures
            r == func_return(*self),
    {
        match self {
            Func::Subltree | Func::Subpath | Func::Text2ltree => SqlType::Ltree,
            Func::Nlevel | Func::Index => SqlType::Int4,
            Func::Ltree2text => SqlType::Text,
            Func::Lquery => SqlType::Lquery,
            Func::Ltxtquery => SqlType::Ltxtquery,
        }
    }
}

/// The infix operators of the ltree extension.
#[derive(Clone, Copy, Debug, PartialEq, Eq, Structural)]
pub enum Operator {
    Contains,
    ContainedBy,
    Matches,
    TMatches,
    Concat,
}

/// The SQL text of an operator.
pub open spec fn op_text(op: Operator) -> Seq<char> {
    match op {
        Operator::Contains => seq!['@', '>'],
        Operator::ContainedBy => seq!['<', '@'],
        Operator::Matches => seq!['~'],
        Operator::TMatches => seq!['@'],
        Operator::Concat => seq!['|', '|'],
    }
}

/// The type of an operator's result: a predicate, but for concatenation.
pub open spec fn op_result(op: Operator) -> SqlType {
    match op {
        Operator::Concat => SqlType::Ltree,
        _ => SqlType::Bool,
    }
}

/// The operand types an operator accepts, left and right.
pub open spec fn op_accepts(op: Operator, l: SqlType, r: SqlType) -> bool {
    match op {
        Operator::Contains | Operator::ContainedBy | Operator::Concat =>
            l == SqlType::Ltree && r == SqlType::Ltree,
        Operator::Matches =>
            (l == SqlType::Ltree && r == SqlType::Lquery)
            || (l == SqlType::Lquery && r == SqlType::Ltree),
        Operator::TMatches =>
            (l == SqlType::Ltree && r == SqlType::Ltxtquery)
            || (l == SqlType::Ltxtquery && r == SqlType::Ltree),
    }
}

impl Operator {
    pub fn text(&self) -> (r: &'static str)
        ensures
            r@ == op_text(*self),
    {
        match self {
            Operator::Contains => {
                proof { reveal_strlit("@>"); }
                "@>"
            },
            Operator::ContainedBy => {
                proof { reveal_strlit("<@"); }
                "<@"
            },
            Operator::Matches => {
                proof { reveal_strlit("~"); }
                "~"
            },
            Operator::TMatches => {
                proof { reveal_strlit("@"); }
                "@"
            },
            Operator::Concat => {
                proof { reveal_strlit("||"); }
                "||"
            },
        }
    }

    pub fn result_type(&self) -> (r: SqlType)
        ensures
            r == op_result(*self),
    {
        match self {
            Operator::Concat => SqlType::Ltree,
            _ => SqlType::Bool,
        }
    }
}

/// A node of a query expression tree.
#[derive(Debug, PartialEq, Eq)]
pub enum Expr {
    /// A column of a table, by name, with its declared type.
    Column { name: String, ty: SqlType },
    /// A value sent as a bind parameter, typed as `ty`.
    Bound { value: Value, ty: SqlType },
    /// A call of a one-argument function.
    Call1 { func: Func, a: Box<Expr> },
    /// A call of a two-argument function.
    Call2 { func: Func, a: Box<Expr>, b: Box<Expr> },
    /// A call of a three-argument function.
    Call3 { func: Func, a: Box<Expr>, b: Box<Expr>, c: Box<Expr> },
    /// An infix operator applied to two operands.
    Infix { op: Operator, left: Box<Expr>, right: Box<Expr> },
}

/// The static type of an expression.
pub open spec fn ty_of(e: Expr) -> SqlType {
    match e {
        Expr::Column { ty, .. } => ty,
        Expr::Bound { ty, .. } => ty,
        Expr::Call1 { func, .. } => func_return(func),
        Expr::Call2 { func, .. } => func_return(func),
        Expr::Call3 { func, .. } => func_return(func),
        Expr::Infix { op, .. } => op_result(op),
    }
}

/// The types a text value may be cast to.
pub open spec fn text_castable(t: SqlType) -> bool {
    t == SqlType::Text || t == SqlType::Ltree || t == SqlType::Lquery || t == SqlType::Ltxtquery
}

/// The types a bound value may be cast to.
pub open spec fn value_fits(v: Value, t: SqlType) -> bool {
    match v {
        Value::Text(_) => text_castable(t),
        Value::Int4(_) => t == SqlType::Int4,
    }
}

/// Every node of the tree is applied to operands of the types it declares.
pub open spec fn well_typed(e: Expr) -> bool
    decreases e,
{
    match e {
        Expr::Column { .. } => true,
        Expr::Bound { value, ty } => value_fits(value, ty),
        Expr::Call1 { func, a } => func_params(func) == seq![ty_of(*a)] && well_typed(*a),
        Expr::Call2 { func, a, b } => func_params(func) == seq![ty_of(*a), ty_of(*b)]
            && well_typed(*a) && well_typed(*b),
        Expr::Call3 { func, a, b, c } => func_params(func) == seq![ty_of(*a), ty_of(*b), ty_of(*c)]
            && well_typed(*a) && well_typed(*b) && well_typed(*c),
        Expr::Infix { op, left, right } => op_accepts(op, ty_of(*left), ty_of(*right))
            && well_typed(*left) && well_typed(*right),
    }
}

impl Expr {
    /// The static type of the expression.
    pub fn sql_type(&self) -> (r: SqlType)
        ensures
            r == ty_of(*self),
    {
        match self {
            Expr::Column { ty, .. } => *ty,
            Expr::Bound { ty, .. } => *ty,
            Expr::Call1 { func, .. } => func.return_type(),
            Expr::Call2 { func, .. } => func.return_type(),
            Expr::Call3 { func, .. } => func.return_type(),
            Expr::Infix { op, .. } => op.result_type(),
        }
    }
}


/// Why a builder refused to build a node.
#[derive(Clone, Copy, Debug, PartialEq, Eq, Structural)]
pub enum TypeError {
    /// The argument at `position` of a call has the type `found`, where the
    /// function declares `expected`.
    Argument { func: Func, position: usize, expected: SqlType, found: SqlType },
    /// An operator was applied to operands of types it is not defined on.
    Operand { op: Operator, left: SqlType, right: SqlType },
    /// A text value cannot be cast to the type `ty`.
    Literal { ty: SqlType },
}

/// The error for the argument at position `i` of a call of `f`, of type `found`.
pub open spec fn arg_error(f: Func, i: int, found: SqlType) -> TypeError {
    TypeError::Argument { func: f, position: i as usize, expected: func_params(f)[i], found }
}

/// The result of calling a one-argument function on `a`.
pub open spec fn call1(f: Func, a: Expr) -> Result<Expr, TypeError> {
    if ty_of(a) != func_params(f)[0] {
        Err(arg_error(f, 0, ty_of(a)))
    } else {
        Ok(Expr::Call1 { func: f, a: Box::new(a) })
    }
}

/// The result of calling a two-argument function on `a` and `b`; the first
/// argument of a wrong type is reported.
pub open spec fn call2(f: Func, a: Expr, b: Expr) -> Result<Expr, TypeError> {
    if ty_of(a) != func_params(f)[0] {
        Err(arg_error(f, 0, ty_of(a)))
    } else if ty_of(b) != func_params(f)[1] {
        Err(arg_error(f, 1, ty_of(b)))
    } else {
        Ok(Expr::Call2 { func: f, a: Box::new(a), b: Box::new(b) })
    }
}

/// The result of calling a three-argument function on `a`, `b` and `c`; the
/// first argument of a wrong type is reported.
pub open spec fn call3(f: Func, a: Expr, b: Expr, c: Expr) -> Result<Expr, TypeError> {
    if ty_of(a) != func_params(f)[0] {
        Err(arg_error(f, 0, ty_of(a)))
    } else if ty_of(b) != func_params(f)[1] {
        Err(arg_error(f, 1, ty_of(b)))
    } else if ty_of(c) != func_params(f)[2] {
        Err(arg_error(f, 2, ty_of(c)))
    } else {
        Ok(Expr::Call3 { func: f, a: Box::new(a), b: Box::new(b), c: Box::new(c) })
    }
}

/// The result of applying `op` to `l` and `r`, where the left operand must
/// have the type `lt` and the right one the type `rt`.
pub open spec fn infix(op: Operator, lt: SqlType, rt: SqlType, l: Expr, r: Expr) -> Result<Expr, TypeError> {
    if ty_of(l) == lt && ty_of(r) == rt {
        Ok(Expr::Infix { op, left: Box::new(l), right: Box::new(r) })
    } else {
        Err(TypeError::Operand { op, left: ty_of(l), right: ty_of(r) })
    }
}

fn check_arg(func: Func, position: usize, e: &Expr) -> (r: Result<(), TypeError>)
    requires
        position < func_params(func).len(),
    ensures
        r is Ok <==> ty_of(*e) == func_params(func)[position as int],
        r is Err ==> r->Err_0 == arg_error(func, position as int, ty_of(*e)),
{
    let found = e.sql_type();
    let expected = match (func, position) {
        (Func::Subltree, 0) | (Func::Subpath, 0) | (Func::Nlevel, 0) | (Func::Index, _)
        | (Func::Ltree2text, 0) => SqlType::Ltree,
        (Func::Subltree, _) | (Func::Subpath, _) => SqlType::Int4,
        _ => SqlType::Text,
    };
    if found == expected {
        Ok(())
    } else {
        Err(TypeError::Argument { func, position, expected, found })
    }
}

impl Expr {
    /// A column of the given name and type.
    pub fn column(name: &str, ty: SqlType) -> (r: Expr)
        ensures
            r matches Expr::Column { name: n, ty: t } && n@ == name@ && t == ty,
    {
        Expr::Column { name: name.to_owned(), ty }
    }

    /// A text value sent as a bind parameter and cast to `ty`, which must be
    /// text or one of the ltree types.
    pub fn text(s: &str, ty: SqlType) -> (r: Result<Expr, TypeError>)
        ensures
            r is Ok <==> text_castable(ty),
            r is Ok ==> (r->Ok_0 matches Expr::Bound { value: Value::Text(v), ty: t } && v@ == s@
                && t == ty),
            r is Err ==> r->Err_0 == (TypeError::Literal { ty }),
    {
        match ty {
            SqlType::Text | SqlType::Ltree | SqlType::Lquery | SqlType::Ltxtquery =>
                Ok(Expr::Bound { value: Value::Text(s.to_owned()), ty }),
            _ => Err(TypeError::Literal { ty }),
        }
    }

    /// An integer sent as a bind parameter.
    pub fn int4(v: i32) -> (r: Expr)
        ensures
            r == (Expr::Bound { value: Value::Int4(v), ty: SqlType::Int4 }),
    {
        Expr::Bound { value: Value::Int4(v), ty: SqlType::Int4 }
    }

    /// Calls the one-argument function `func` on `a`.
    pub fn call1(func: Func, a: Expr) -> (r: Result<Expr, TypeError>)
        requires
            func_params(func).len() == 1,
        ensures
            r == call1(func, a),
    {
        match check_arg(func, 0, &a) {
            Err(e) => Err(e),
            Ok(()) => Ok(Expr::Call1 { func, a: Box::new(a) }),
        }
    }

    /// Calls the two-argument function `func` on `a` and `b`.
    pub fn call2(func: Func, a: Expr, b: Expr) -> (r: Result<Expr, TypeError>)
        requires
            func_params(func).len() == 2,
        ensures
            r == call2(func, a, b),
    {
        match check_arg(func, 0, &a) {
            Err(e) => Err(e),
            Ok(()) => match check_arg(func, 1, &b) {
                Err(e) => Err(e),
                Ok(()) => Ok(Expr::Call2 { func, a: Box::new(a), b: Box::new(b) }),
            },
        }
    }

    /// Calls the three-argument function `func` on `a`, `b` and `c`.
    pub fn call3(func: Func, a: Expr, b: Expr, c: Expr) -> (r: Result<Expr, TypeError>)
        requires
            func_params(func).len() == 3,
        ensures
            r == call3(func, a, b, c),
    {
        match check_arg(func, 0, &a) {
            Err(e) => Err(e),
            Ok(()) => match check_arg(func, 1, &b) {
                Err(e) => Err(e),
                Ok(()) => match check_arg(func, 2, &c) {
                    Err(e) => Err(e),
                    Ok(()) => Ok(Expr::Call3 { func, a: Box::new(a), b: Box::new(b), c: Box::new(c) }),
                },
            },
        }
    }

    /// Applies `op` to `left` and `right`, which must have the types `lt` and `rt`.
    pub fn infix(op: Operator, lt: SqlType, rt: SqlType, left: Expr, right: Expr) -> (r: Result<Expr, TypeError>)
        ensures
            r == infix(op, lt, rt, left, right),
    {
        let l = left.sql_type();
        let r = right.sql_type();
        if l == lt && r == rt {
            Ok(Expr::Infix { op, left: Box::new(left), right: Box::new(right) })
        } else {
            Err(TypeError::Operand { op, left: l, right: r })
        }
    }
}

} // verus!
