use vstd::prelude::*;
use crate::expr::{Expr, Value, func_name, op_text};

verus! {

/// The decimal digit for `d < 10`.
pub open spec fn digit(d: nat) -> char {
    seq!['0', '1', '2', '3', '4', '5', '6', '7', '8', '9'][d as int]
}

/// The decimal numeral of `n`, without leading zeros.
pub open spec fn decimal(n: nat) -> Seq<char>
    decreases n,
{
    if n < 10 {
        seq![digit(n)]
    } else {
        decimal(n / 10) + seq![digit(n % 10)]
    }
}

/// The values that rendering `e` binds, in the order of their placeholders.
pub open spec fn binds(e: Expr) -> Seq<Value>
    decreases e,
{
    match e {
        Expr::Column { .. } => Seq::empty(),
        Expr::Bound { value, .. } => seq![value],
        Expr::Call1 { a, .. } => binds(*a),
        Expr::Call2 { a, b, .. } => binds(*a) + binds(*b),
        Expr::Call3 { a, b, c, .. } => binds(*a) + binds(*b) + binds(*c),
        Expr::Infix { left, right, .. } => binds(*left) + binds(*right),
    }
}

/// The SQL text of `e` when `k` values have been bound before it: each bound
/// value becomes the placeholder `$n`, numbered from one.
pub open spec fn sql(e: Expr, k: nat) -> Seq<char>
    decreases e,
{
    match e {
        Expr::Column { name, .. } => name@,
        Expr::Bound { .. } => seq!['$'] + decimal(k + 1),
        Expr::Call1 { func, a } => func_name(func) + seq!['('] + sql(*a, k) + seq![')'],
        Expr::Call2 { func, a, b } => func_name(func) + seq!['('] + sql(*a, k) + seq![',', ' ']
            + sql(*b, k + binds(*a).len()) + seq![')'],
        Expr::Call3 { func, a, b, c } => func_name(func) + seq!['('] + sql(*a, k) + seq![',', ' ']
            + sql(*b, k + binds(*a).len()) + seq![',', ' ']
            + sql(*c, k + binds(*a).len() + binds(*b).len()) + seq![')'],
        Expr::Infix { op, left, right } => sql(*left, k) + seq![' '] + op_text(op) + seq![' ']
            + sql(*right, k + binds(*left).len()),
    }
}

fn digit_str(d: usize) -> (r: &'static str)
    requires
        d < 10,
    ensures
        r@ == seq![digit(d as nat)],
{
    if d == 0 {
        proof { reveal_strlit("0"); }
        "0"
    } else if d == 1 {
        proof { reveal_strlit("1"); }
        "1"
    } else if d == 2 {
        proof { reveal_strlit("2"); }
        "2"
    } else if d == 3 {
        proof { reveal_strlit("3"); }
        "3"
    } else if d == 4 {
        proof { reveal_strlit("4"); }
        "4"
    } else if d == 5 {
        proof { reveal_strlit("5"); }
        "5"
    } else if d == 6 {
        proof { reveal_strlit("6"); }
        "6"
    } else if d == 7 {
        proof { reveal_strlit("7"); }
        "7"
    } else if d == 8 {
        proof { reveal_strlit("8"); }
        "8"
    } else {
        proof { reveal_strlit("9"); }
        "9"
    }
}

/// Appends the decimal numeral of `n` to `out`.
pub fn push_decimal(out: &mut String, n: usize)
    ensures
        final(out)@ == old(out)@ + decimal(n as nat),
    decreases n,
{
    if n >= 10 {
        push_decimal(out, n / 10);
    }
    out.append(digit_str(n % 10));
    assert(out@ =~= old(out)@ + decimal(n as nat));
}

impl Expr {
    /// Appends the SQL text of the expression to `out` and its bound values
    /// to `params`, numbering its placeholders after those already in `params`.
    #[verifier::spinoff_prover]
    #[verifier::rlimit(100)]
    pub fn write_sql(&self, out: &mut String, params: &mut Vec<Value>)
        requires
            old(params)@.len() + binds(*self).len() < usize::MAX,
        ensures
            final(out)@ == old(out)@ + sql(*self, old(params)@.len()),
            final(params)@ == old(params)@ + binds(*self),
        decreases self,
    {
        match self {
            Expr::Column { name, .. } => {
                out.append(name.as_str());
                assert(params@ =~= old(params)@ + binds(*self));
            },
            Expr::Bound { value, .. } => {
                out.append("$");
                proof { reveal_strlit("$"); }
                push_decimal(out, params.len() + 1);
                params.push(value.duplicate());
                assert(out@ =~= old(out)@ + sql(*self, old(params)@.len()));
            },
            Expr::Call1 { func, a } => {
                out.append(func.name());
                out.append("(");
                a.write_sql(out, params);
                out.append(")");
                proof { reveal_strlit("("); reveal_strlit(")"); }
                assert(out@ =~= old(out)@ + sql(*self, old(params)@.len()));
                assert(params@ =~= old(params)@ + binds(*self));
            },
            Expr::Call2 { func, a, b } => {
                out.append(func.name());
                out.append("(");
                a.write_sql(out, params);
                out.append(", ");
                b.write_sql(out, params);
                out.append(")");
                proof { reveal_strlit("("); reveal_strlit(")"); reveal_strlit(", "); }
                assert(out@ =~= old(out)@ + sql(*self, old(params)@.len()));
                assert(params@ =~= old(params)@ + binds(*self));
            },
            Expr::Call3 { func, a, b, c } => {
                out.append(func.name());
                out.append("(");
                a.write_sql(out, params);
                out.append(", ");
                b.write_sql(out, params);
                out.append(", ");
                c.write_sql(out, params);
                out.append(")");
                proof { reveal_strlit("("); reveal_strlit(")"); reveal_strlit(", "); }
                assert(out@ =~= old(out)@ + sql(*self, old(params)@.len()));
                assert(params@ =~= old(params)@ + binds(*self));
            },
            Expr::Infix { op, left, right } => {
                left.write_sql(out, params);
                out.append(" ");
                out.append(op.text());
                out.append(" ");
                right.write_sql(out, params);
                proof { reveal_strlit(" "); }
                assert(out@ =~= old(out)@ + sql(*self, old(params)@.len()));
                assert(params@ =~= old(params)@ + binds(*self));
            },
        }
    }

    /// The SQL text of the expression, with placeholders `$1`, `$2`, ..., and
    /// the values bound to them, in order.
    pub fn to_sql(&self) -> (r: (String, Vec<Value>))
        requires
            binds(*self).len() < usize::MAX,
        ensures
            r.0@ == sql(*self, 0),
            r.1@ == binds(*self),
    {
        let mut out = String::new();
        let mut params: Vec<Value> = Vec::new();
        self.write_sql(&mut out, &mut params);
        assert(out@ =~= sql(*self, 0));
        assert(params@ =~= binds(*self));
        (out, params)
    }
}

} // verus!
