//! Synthesizers for the boolean builtins.

use vstd::prelude::*;
use crate::types::Def;
use crate::types::Expr;
use crate::types::LowLevel;
use crate::types::Symbol;
use crate::types::VarStore;
use crate::types::var_at;
use crate::builders::FRESH_BUDGET;
use crate::builders::binop_other_shape;
use crate::builders::binop_shape;
use crate::builders::defn;
use crate::builders::defn_shape;
use crate::builders::ll2;
use crate::builders::unary_same_shape;

verus! {

/// Generic equality: one variable types both operands, so comparing two
/// values forces the solver to unify their types.
pub(crate) fn bool_eq(symbol: Symbol, var_store: &mut VarStore) -> (d: Def)
    requires
        old(var_store)@ + FRESH_BUDGET as int <= u32::MAX as int,
    ensures
        binop_other_shape(d, symbol, LowLevel::ValueEq, old(var_store)@),
        final(var_store)@ == old(var_store)@ + 6,
{
    let ghost c = var_store@;
    let arg_var = var_store.fresh();
    let bool_var = var_store.fresh();
    let body = Expr::RunLowLevel {
        op: LowLevel::ValueEq,
        args: vec![(arg_var, Expr::Var(Symbol::Arg1)), (arg_var, Expr::Var(Symbol::Arg2))],
        ret_var: bool_var,
    };
    let args = vec![(arg_var, Symbol::Arg1), (arg_var, Symbol::Arg2)];
    proof {
        assert(args@ =~= seq![(var_at(c), Symbol::Arg1), (var_at(c), Symbol::Arg2)]);
    }
    defn(symbol, args, var_store, body, bool_var)
}

/// Generic inequality, with the same deliberate operand-variable aliasing as
/// equality.
pub(crate) fn bool_neq(symbol: Symbol, var_store: &mut VarStore) -> (d: Def)
    requires
        old(var_store)@ + FRESH_BUDGET as int <= u32::MAX as int,
    ensures
        binop_other_shape(d, symbol, LowLevel::ValueNotEq, old(var_store)@),
        final(var_store)@ == old(var_store)@ + 6,
{
    let ghost c = var_store@;
    let arg_var = var_store.fresh();
    let bool_var = var_store.fresh();
    let body = Expr::RunLowLevel {
        op: LowLevel::ValueNotEq,
        args: vec![(arg_var, Expr::Var(Symbol::Arg1)), (arg_var, Expr::Var(Symbol::Arg2))],
        ret_var: bool_var,
    };
    let args = vec![(arg_var, Symbol::Arg1), (arg_var, Symbol::Arg2)];
    proof {
        assert(args@ =~= seq![(var_at(c), Symbol::Arg1), (var_at(c), Symbol::Arg2)]);
    }
    defn(symbol, args, var_store, body, bool_var)
}

/// Boolean disjunction: one variable throughout.
pub(crate) fn bool_or(symbol: Symbol, var_store: &mut VarStore) -> (d: Def)
    requires
        old(var_store)@ + FRESH_BUDGET as int <= u32::MAX as int,
    ensures
        binop_shape(d, symbol, LowLevel::BoolOr, old(var_store)@),
        final(var_store)@ == old(var_store)@ + 5,
{
    let ghost c = var_store@;
    let bool_var = var_store.fresh();
    let body = Expr::RunLowLevel {
        op: LowLevel::BoolOr,
        args: vec![(bool_var, Expr::Var(Symbol::Arg1)), (bool_var, Expr::Var(Symbol::Arg2))],
        ret_var: bool_var,
    };
    let args = vec![(bool_var, Symbol::Arg1), (bool_var, Symbol::Arg2)];
    proof {
        assert(args@ =~= seq![(var_at(c), Symbol::Arg1), (var_at(c), Symbol::Arg2)]);
    }
    defn(symbol, args, var_store, body, bool_var)
}

/// Boolean negation: argument and result share the one variable.
pub(crate) fn bool_not(symbol: Symbol, var_store: &mut VarStore) -> (d: Def)
    requires
        old(var_store)@ + FRESH_BUDGET as int <= u32::MAX as int,
    ensures
        unary_same_shape(d, symbol, LowLevel::BoolNot, old(var_store)@),
        final(var_store)@ == old(var_store)@ + 5,
{
    let ghost c = var_store@;
    let bool_var = var_store.fresh();
    let body = Expr::RunLowLevel {
        op: LowLevel::BoolNot,
        args: vec![(bool_var, Expr::Var(Symbol::Arg1))],
        ret_var: bool_var,
    };
    let args = vec![(bool_var, Symbol::Arg1)];
    proof {
        assert(args@ =~= seq![(var_at(c), Symbol::Arg1)]);
    }
    defn(symbol, args, var_store, body, bool_var)
}

/// Boolean conjunction. One variable types both operands and the
/// definition's result, while the opcode call's own result slot gets a fresh
/// variable of its own.
pub open spec fn bool_and_shape(d: Def, sym: Symbol, c: int) -> bool {
    defn_shape(
        d,
        sym,
        seq![(var_at(c), Symbol::Arg1), (var_at(c), Symbol::Arg2)],
        var_at(c),
        c + 2,
        |e: Expr| ll2(
            e,
            LowLevel::BoolAnd,
            var_at(c),
            Expr::Var(Symbol::Arg1),
            var_at(c),
            Expr::Var(Symbol::Arg2),
            var_at(c + 1),
        ),
    )
}

/// Boolean conjunction.
pub(crate) fn bool_and(symbol: Symbol, var_store: &mut VarStore) -> (d: Def)
    requires
        old(var_store)@ + FRESH_BUDGET as int <= u32::MAX as int,
    ensures
        bool_and_shape(d, symbol, old(var_store)@),
        final(var_store)@ == old(var_store)@ + 6,
{
    let ghost c = var_store@;
    let bool_var = var_store.fresh();
    let ll_ret_var = var_store.fresh();
    let body = Expr::RunLowLevel {
        op: LowLevel::BoolAnd,
        args: vec![(bool_var, Expr::Var(Symbol::Arg1)), (bool_var, Expr::Var(Symbol::Arg2))],
        ret_var: ll_ret_var,
    };
    let args = vec![(bool_var, Symbol::Arg1), (bool_var, Symbol::Arg2)];
    proof {
        assert(args@ =~= seq![(var_at(c), Symbol::Arg1), (var_at(c), Symbol::Arg2)]);
    }
    defn(symbol, args, var_store, body, bool_var)
}

} // verus!
