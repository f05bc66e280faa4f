use vstd::prelude::*;
use crate::expr::{
    Expr, Func, Operator, call1, call2, call3, func_name, func_params, func_return, infix,
    op_accepts, op_result, op_text, ty_of, well_typed,
};
use crate::render::{binds, sql};
use crate::types::SqlType;

verus! {

/// Parts joined with `", "` between neighbours.
pub open spec fn join_args(parts: Seq<Seq<char>>) -> Seq<char>
    decreases parts.len(),
{
    if parts.len() == 0 {
        Seq::empty()
    } else if parts.len() == 1 {
        parts[0]
    } else {
        join_args(parts.drop_last()) + seq![',', ' '] + parts.last()
    }
}

/// How many values the first `n` of `args` bind.
pub open spec fn binds_before(args: Seq<Expr>, n: int) -> nat
    decreases n,
{
    if n <= 0 {
        0
    } else {
        binds_before(args, n - 1) + binds(args[n - 1]).len()
    }
}

/// The SQL text of each argument, numbered on from `k` in argument order.
pub open spec fn rendered_args(args: Seq<Expr>, k: nat) -> Seq<Seq<char>> {
    Seq::new(args.len(), |i: int| sql(args[i], k + binds_before(args, i)))
}

/// A call of `f` on `args`, by the arity of `f`.
pub open spec fn call(f: Func, args: Seq<Expr>) -> Result<Expr, crate::expr::TypeError> {
    if args.len() == 1 {
        call1(f, args[0])
    } else if args.len() == 2 {
        call2(f, args[0], args[1])
    } else {
        call3(f, args[0], args[1], args[2])
    }
}

/// A call of any function on arguments of its declared types builds, has the
/// function's return type, and renders as the function's name followed by the
/// arguments in declared order, comma-separated, in parentheses.
pub proof fn lemma_call_renders(f: Func, args: Seq<Expr>, k: nat)
    requires
        args.len() == func_params(f).len(),
        forall|i: int| 0 <= i < args.len() ==> ty_of(#[trigger] args[i]) == func_params(f)[i],
    ensures
        call(f, args) is Ok,
        ty_of(call(f, args)->Ok_0) == func_return(f),
        sql(call(f, args)->Ok_0, k) == func_name(f) + seq!['('] + join_args(rendered_args(args, k))
            + seq![')'],
{
    let parts = rendered_args(args, k);
    assert(binds_before(args, 0) == 0);
    if args.len() == 1 {
        assert(ty_of(args[0]) == func_params(f)[0]);
        assert(join_args(parts) == parts[0]);
    } else if args.len() == 2 {
        assert(ty_of(args[0]) == func_params(f)[0]);
        assert(ty_of(args[1]) == func_params(f)[1]);
        assert(parts.drop_last().len() == 1);
        assert(join_args(parts.drop_last()) == parts[0]);
        assert(binds_before(args, 1) == binds(args[0]).len());
        assert(join_args(parts) == parts[0] + seq![',', ' '] + parts[1]);
    } else {
        assert(ty_of(args[0]) == func_params(f)[0]);
        assert(ty_of(args[1]) == func_params(f)[1]);
        assert(ty_of(args[2]) == func_params(f)[2]);
        assert(binds_before(args, 1) == binds(args[0]).len());
        assert(binds_before(args, 2) == binds(args[0]).len() + binds(args[1]).len());
        let front = parts.drop_last();
        assert(front.len() == 2);
        assert(front.drop_last().len() == 1);
        assert(join_args(front.drop_last()) == parts[0]);
        assert(join_args(front) == front[0] + seq![',', ' '] + front[1]);
        assert(join_args(parts) == parts[0] + seq![',', ' '] + parts[1] + seq![',', ' '] + parts[2]);
    }
    let e = call(f, args)->Ok_0;
    assert(sql(e, k) =~= func_name(f) + seq!['('] + join_args(parts) + seq![')']);
}

/// An operator applied to operands of the types it asks for builds, has the
/// operator's result type, and renders as the left operand, one space, the
/// operator's text, one space, and the right operand.
pub proof fn lemma_infix_renders(op: Operator, lt: SqlType, rt: SqlType, l: Expr, r: Expr, k: nat)
    requires
        ty_of(l) == lt,
        ty_of(r) == rt,
    ensures
        infix(op, lt, rt, l, r) is Ok,
        ty_of(infix(op, lt, rt, l, r)->Ok_0) == op_result(op),
        sql(infix(op, lt, rt, l, r)->Ok_0, k) == sql(l, k) + seq![' '] + op_text(op) + seq![' ']
            + sql(r, k + binds(l).len()),
{
}

/// An operator builds only on operands of the types it asks for, and what it
/// builds from well-typed operands is well-typed.
pub proof fn lemma_infix_typed(op: Operator, lt: SqlType, rt: SqlType, l: Expr, r: Expr)
    requires
        op_accepts(op, lt, rt),
    ensures
        infix(op, lt, rt, l, r) is Ok <==> (ty_of(l) == lt && ty_of(r) == rt),
        infix(op, lt, rt, l, r) is Ok && well_typed(l) && well_typed(r)
            ==> well_typed(infix(op, lt, rt, l, r)->Ok_0),
{
}

/// A function call builds only on arguments of the declared types, and what
/// it builds from well-typed arguments is well-typed.
pub proof fn lemma_call_typed(f: Func, args: Seq<Expr>)
    requires
        args.len() == func_params(f).len(),
    ensures
        call(f, args) is Ok <==> forall|i: int| 0 <= i < args.len()
            ==> ty_of(#[trigger] args[i]) == func_params(f)[i],
        call(f, args) is Ok && (forall|i: int| 0 <= i < args.len() ==> well_typed(#[trigger] args[i]))
            ==> well_typed(call(f, args)->Ok_0),
{
    if call(f, args) is Ok {
        if args.len() == 1 {
            assert(seq![ty_of(args[0])] =~= func_params(f));
        } else if args.len() == 2 {
            assert(seq![ty_of(args[0]), ty_of(args[1])] =~= func_params(f));
        } else {
            assert(seq![ty_of(args[0]), ty_of(args[1]), ty_of(args[2])] =~= func_params(f));
        }
    }
}

/// The containment predicates are boolean, so no ltree operator can take one
/// as its left operand: `a.contains(b).matches(c)` does not build. Nor does
/// an ltree match against an ltree where a text query is expected.
pub proof fn lemma_ill_typed_chains(a: Expr, b: Expr, c: Expr)
    ensures
        infix(Operator::Contains, SqlType::Ltree, SqlType::Ltree, a, b) is Ok ==> {
            let p = infix(Operator::Contains, SqlType::Ltree, SqlType::Ltree, a, b)->Ok_0;
            &&& ty_of(p) == SqlType::Bool
            &&& infix(Operator::Matches, SqlType::Ltree, SqlType::Lquery, p, c) is Err
            &&& infix(Operator::Matches, SqlType::Lquery, SqlType::Ltree, p, c) is Err
        },
        ty_of(a) == SqlType::Ltree && ty_of(b) == SqlType::Ltree ==> {
            &&& infix(Operator::TMatches, SqlType::Ltree, SqlType::Ltxtquery, a, b) is Err
            &&& infix(Operator::TMatches, SqlType::Ltxtquery, SqlType::Ltree, a, b) is Err
        },
{
}

/// `text2ltree(ltree2text(x))` builds for every `ltree` expression `x`, has
/// the type `ltree`, and is well-typed when `x` is.
pub proof fn lemma_text_round_trip(x: Expr)
    requires
        ty_of(x) == SqlType::Ltree,
    ensures
        call1(Func::Ltree2text, x) is Ok,
        call1(Func::Text2ltree, call1(Func::Ltree2text, x)->Ok_0) is Ok,
        ty_of(call1(Func::Text2ltree, call1(Func::Ltree2text, x)->Ok_0)->Ok_0) == ty_of(x),
        well_typed(x) ==> well_typed(call1(Func::Text2ltree, call1(Func::Ltree2text, x)->Ok_0)->Ok_0),
{
    let t = call1(Func::Ltree2text, x)->Ok_0;
    assert(seq![ty_of(x)] =~= func_params(Func::Ltree2text));
    assert(seq![ty_of(t)] =~= func_params(Func::Text2ltree));
    if well_typed(x) {
        assert(well_typed(t));
    }
}

} // verus!
