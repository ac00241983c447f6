//! Synthesizers for the list builtins: passthroughs, bounds-checked access,
//! and the fold-based reductions built around internal helper closures.

use vstd::prelude::*;
use crate::types::ClosureData;
use crate::types::Def;
use crate::types::Expr;
use crate::types::LowLevel;
use crate::types::Pattern;
use crate::types::Recursive;
use crate::types::Symbol;
use crate::types::TagName;
use crate::types::VAR_NAT;
use crate::types::VAR_NATURAL;
use crate::types::VarStore;
use crate::types::Variable;
use crate::types::var_at;
use crate::builders::FRESH_BUDGET;
use crate::builders::binop_shape;
use crate::builders::closure_shape;
use crate::builders::defn;
use crate::builders::defn_help;
use crate::builders::defn_shape;
use crate::builders::err_tag;
use crate::builders::ll1;
use crate::builders::ll2;
use crate::builders::ll3;
use crate::builders::lowlevel_1;
use crate::builders::lowlevel_2;
use crate::builders::lowlevel_3;
use crate::builders::lowlevel_4;
use crate::builders::lowlevel_5;
use crate::builders::op1_ret_first;
use crate::builders::op1_ret_first_shape;
use crate::builders::op2_ret_first;
use crate::builders::op2_ret_first_shape;
use crate::builders::passthrough_shape;
use crate::builders::tag;
use crate::builders::tag_shape;
use crate::builders::unary_same_shape;
use crate::builders::wrapped_err_shape;

verus! {

/// The reserved collection-size variable.
pub open spec fn nat_var() -> Variable {
    Variable { id: VAR_NAT }
}

/// The reserved collection-size precision variable.
pub open spec fn natural_var() -> Variable {
    Variable { id: VAR_NATURAL }
}

/// Emptiness test: `0 == length(Arg1)`, both sides typed by the reserved
/// size variable.
pub open spec fn list_is_empty_shape(d: Def, sym: Symbol, c: int) -> bool {
    defn_shape(
        d,
        sym,
        seq![(var_at(c), Symbol::Arg1)],
        var_at(c + 1),
        c + 2,
        |e: Expr| e matches Expr::RunLowLevel { op, args, ret_var }
            && op == LowLevel::ValueEq
            && ret_var == var_at(c + 1)
            && args@.len() == 2
            && args@[0] == (nat_var(), Expr::Num(natural_var(), 0))
            && args@[1].0 == nat_var()
            && ll1(args@[1].1, LowLevel::ListLen, var_at(c), Expr::Var(Symbol::Arg1), nat_var()),
    )
}

pub(crate) fn list_is_empty(symbol: Symbol, var_store: &mut VarStore) -> (d: Def)
    requires
        old(var_store)@ + FRESH_BUDGET as int <= u32::MAX as int,
    ensures
        list_is_empty_shape(d, symbol, old(var_store)@),
        final(var_store)@ == old(var_store)@ + 6,
{
    let ghost c = var_store@;
    let list_var = var_store.fresh();
    let bool_var = var_store.fresh();
    let len_var = Variable { id: VAR_NAT };
    let unbound_zero_var = Variable { id: VAR_NATURAL };
    let len_call = Expr::RunLowLevel {
        op: LowLevel::ListLen,
        args: vec![(list_var, Expr::Var(Symbol::Arg1))],
        ret_var: len_var,
    };
    let body = Expr::RunLowLevel {
        op: LowLevel::ValueEq,
        args: vec![(len_var, Expr::Num(unbound_zero_var, 0)), (len_var, len_call)],
        ret_var: bool_var,
    };
    let args = vec![(list_var, Symbol::Arg1)];
    proof {
        assert(args@ =~= seq![(var_at(c), Symbol::Arg1)]);
    }
    defn(symbol, args, var_store, body, bool_var)
}

pub(crate) fn list_reverse(symbol: Symbol, var_store: &mut VarStore) -> (d: Def)
    requires
        old(var_store)@ + FRESH_BUDGET as int <= u32::MAX as int,
    ensures
        unary_same_shape(d, symbol, LowLevel::ListReverse, old(var_store)@),
        final(var_store)@ == old(var_store)@ + 5,
{
    let ghost c = var_store@;
    let list_var = var_store.fresh();
    let body = Expr::RunLowLevel {
        op: LowLevel::ListReverse,
        args: vec![(list_var, Expr::Var(Symbol::Arg1))],
        ret_var: list_var,
    };
    let args = vec![(list_var, Symbol::Arg1)];
    proof {
        assert(args@ =~= seq![(var_at(c), Symbol::Arg1)]);
    }
    defn(symbol, args, var_store, body, list_var)
}

pub(crate) fn list_concat(symbol: Symbol, var_store: &mut VarStore) -> (d: Def)
    requires
        old(var_store)@ + FRESH_BUDGET as int <= u32::MAX as int,
    ensures
        binop_shape(d, symbol, LowLevel::ListConcat, old(var_store)@),
        final(var_store)@ == old(var_store)@ + 5,
{
    let ghost c = var_store@;
    let list_var = var_store.fresh();
    let body = Expr::RunLowLevel {
        op: LowLevel::ListConcat,
        args: vec![(list_var, Expr::Var(Symbol::Arg1)), (list_var, Expr::Var(Symbol::Arg2))],
        ret_var: list_var,
    };
    let args = vec![(list_var, Symbol::Arg1), (list_var, Symbol::Arg2)];
    proof {
        assert(args@ =~= seq![(var_at(c), Symbol::Arg1), (var_at(c), Symbol::Arg2)]);
    }
    defn(symbol, args, var_store, body, list_var)
}

pub(crate) fn list_repeat(symbol: Symbol, var_store: &mut VarStore) -> (d: Def)
    requires
        old(var_store)@ + FRESH_BUDGET as int <= u32::MAX as int,
    ensures
        passthrough_shape(d, symbol, LowLevel::ListRepeat, 2, old(var_store)@),
        final(var_store)@ == old(var_store)@ + 7,
{
    lowlevel_2(symbol, LowLevel::ListRepeat, var_store)
}

pub(crate) fn list_single(symbol: Symbol, var_store: &mut VarStore) -> (d: Def)
    requires
        old(var_store)@ + FRESH_BUDGET as int <= u32::MAX as int,
    ensures
        passthrough_shape(d, symbol, LowLevel::ListSingle, 1, old(var_store)@),
        final(var_store)@ == old(var_store)@ + 6,
{
    lowlevel_1(symbol, LowLevel::ListSingle, var_store)
}

pub(crate) fn list_len(symbol: Symbol, var_store: &mut VarStore) -> (d: Def)
    requires
        old(var_store)@ + FRESH_BUDGET as int <= u32::MAX as int,
    ensures
        op1_ret_first_shape(d, symbol, LowLevel::ListLen, old(var_store)@),
        final(var_store)@ == old(var_store)@ + 6,
{
    op1_ret_first(symbol, LowLevel::ListLen, var_store)
}

/// Bounds-checked indexing (§4.3 idiom): guard `Arg2 < length(Arg1)`, then
/// `Ok(unchecked get)` else `Err(OutOfBounds)`.
pub open spec fn list_get_body_shape(c: int, e: Expr) -> bool {
    e matches Expr::If { cond_var, branch_var, branches, final_else }
        && cond_var == var_at(c)
        && branch_var == var_at(c + 5)
        && branches@.len() == 1
        && (branches@[0].0 matches Expr::RunLowLevel { op, args, ret_var }
            && op == LowLevel::NumLt
            && ret_var == var_at(c)
            && args@.len() == 2
            && args@[0] == (var_at(c + 1), Expr::Var(Symbol::Arg2))
            && args@[1].0 == var_at(c + 1)
            && ll1(args@[1].1, LowLevel::ListLen, var_at(c + 2), Expr::Var(Symbol::Arg1), var_at(c + 1)))
        && tag_shape(
            branches@[0].1,
            TagName::OkTag,
            1,
            c + 6,
            |i: int, a: Expr| ll2(
                a,
                LowLevel::ListGetUnsafe,
                var_at(c + 2),
                Expr::Var(Symbol::Arg1),
                var_at(c + 1),
                Expr::Var(Symbol::Arg2),
                var_at(c + 3),
            ),
        )
        && wrapped_err_shape(*final_else, TagName::OutOfBounds, c + 9)
}

pub open spec fn list_get_shape(d: Def, sym: Symbol, c: int) -> bool {
    defn_shape(
        d,
        sym,
        seq![(var_at(c + 2), Symbol::Arg1), (var_at(c + 1), Symbol::Arg2)],
        var_at(c + 4),
        c + 14,
        |e: Expr| list_get_body_shape(c, e),
    )
}

pub(crate) fn list_get(symbol: Symbol, var_store: &mut VarStore) -> (d: Def)
    requires
        old(var_store)@ + FRESH_BUDGET as int <= u32::MAX as int,
    ensures
        list_get_shape(d, symbol, old(var_store)@),
        final(var_store)@ == old(var_store)@ + 18,
{
    let ghost c = var_store@;
    let bool_var = var_store.fresh();
    let len_var = var_store.fresh();
    let list_var = var_store.fresh();
    let elem_var = var_store.fresh();
    let ret_var = var_store.fresh();
    let branch_var = var_store.fresh();
    let len_call = Expr::RunLowLevel {
        op: LowLevel::ListLen,
        args: vec![(list_var, Expr::Var(Symbol::Arg1))],
        ret_var: len_var,
    };
    let guard = Expr::RunLowLevel {
        op: LowLevel::NumLt,
        args: vec![(len_var, Expr::Var(Symbol::Arg2)), (len_var, len_call)],
        ret_var: bool_var,
    };
    let get_call = Expr::RunLowLevel {
        op: LowLevel::ListGetUnsafe,
        args: vec![(list_var, Expr::Var(Symbol::Arg1)), (len_var, Expr::Var(Symbol::Arg2))],
        ret_var: elem_var,
    };
    let ok_branch = tag(TagName::OkTag, vec![get_call], var_store);
    let else_branch = err_tag(TagName::OutOfBounds, var_store);
    let body = Expr::If {
        cond_var: bool_var,
        branch_var,
        branches: vec![(guard, ok_branch)],
        final_else: Box::new(else_branch),
    };
    let args = vec![(list_var, Symbol::Arg1), (len_var, Symbol::Arg2)];
    proof {
        assert(args@ =~= seq![(var_at(c + 2), Symbol::Arg1), (var_at(c + 1), Symbol::Arg2)]);
    }
    defn(symbol, args, var_store, body, ret_var)
}

/// Bounds-checked update: guard `Arg2 < length(Arg1)`, then the in-place set
/// opcode, else the list unchanged.
pub open spec fn list_set_body_shape(c: int, e: Expr) -> bool {
    e matches Expr::If { cond_var, branch_var, branches, final_else }
        && cond_var == var_at(c)
        && branch_var == var_at(c + 4)
        && branches@.len() == 1
        && (branches@[0].0 matches Expr::RunLowLevel { op, args, ret_var }
            && op == LowLevel::NumLt
            && ret_var == var_at(c)
            && args@.len() == 2
            && args@[0] == (var_at(c + 1), Expr::Var(Symbol::Arg2))
            && args@[1].0 == var_at(c + 1)
            && ll1(args@[1].1, LowLevel::ListLen, var_at(c + 3), Expr::Var(Symbol::Arg1), var_at(c + 1)))
        && ll3(
            branches@[0].1,
            LowLevel::ListSet,
            var_at(c + 3),
            Expr::Var(Symbol::Arg1),
            var_at(c + 1),
            Expr::Var(Symbol::Arg2),
            var_at(c + 2),
            Expr::Var(Symbol::Arg3),
            var_at(c + 4),
        )
        && *final_else == Expr::Var(Symbol::Arg1)
}

pub open spec fn list_set_shape(d: Def, sym: Symbol, c: int) -> bool {
    defn_shape(
        d,
        sym,
        seq![
            (var_at(c + 3), Symbol::Arg1),
            (var_at(c + 1), Symbol::Arg2),
            (var_at(c + 2), Symbol::Arg3),
        ],
        var_at(c + 4),
        c + 5,
        |e: Expr| list_set_body_shape(c, e),
    )
}

pub(crate) fn list_set(symbol: Symbol, var_store: &mut VarStore) -> (d: Def)
    requires
        old(var_store)@ + FRESH_BUDGET as int <= u32::MAX as int,
    ensures
        list_set_shape(d, symbol, old(var_store)@),
        final(var_store)@ == old(var_store)@ + 9,
{
    let ghost c = var_store@;
    let bool_var = var_store.fresh();
    let len_var = var_store.fresh();
    let elem_var = var_store.fresh();
    let list_arg_var = var_store.fresh();
    let list_ret_var = var_store.fresh();
    let len_call = Expr::RunLowLevel {
        op: LowLevel::ListLen,
        args: vec![(list_arg_var, Expr::Var(Symbol::Arg1))],
        ret_var: len_var,
    };
    let guard = Expr::RunLowLevel {
        op: LowLevel::NumLt,
        args: vec![(len_var, Expr::Var(Symbol::Arg2)), (len_var, len_call)],
        ret_var: bool_var,
    };
    let set_call = Expr::RunLowLevel {
        op: LowLevel::ListSet,
        args: vec![
            (list_arg_var, Expr::Var(Symbol::Arg1)),
            (len_var, Expr::Var(Symbol::Arg2)),
            (elem_var, Expr::Var(Symbol::Arg3)),
        ],
        ret_var: list_ret_var,
    };
    let body = Expr::If {
        cond_var: bool_var,
        branch_var: list_ret_var,
        branches: vec![(guard, set_call)],
        final_else: Box::new(Expr::Var(Symbol::Arg1)),
    };
    let args = vec![
        (list_arg_var, Symbol::Arg1),
        (len_var, Symbol::Arg2),
        (elem_var, Symbol::Arg3),
    ];
    proof {
        assert(args@ =~= seq![
            (var_at(c + 3), Symbol::Arg1),
            (var_at(c + 1), Symbol::Arg2),
            (var_at(c + 2), Symbol::Arg3),
        ]);
    }
    defn(symbol, args, var_store, body, list_ret_var)
}

/// Element swap: three argument variables, result typed by the list's.
pub open spec fn list_swap_shape(d: Def, sym: Symbol, c: int) -> bool {
    defn_shape(
        d,
        sym,
        seq![
            (var_at(c), Symbol::Arg1),
            (var_at(c + 1), Symbol::Arg2),
            (var_at(c + 2), Symbol::Arg3),
        ],
        var_at(c),
        c + 3,
        |e: Expr| ll3(
            e,
            LowLevel::ListSwap,
            var_at(c),
            Expr::Var(Symbol::Arg1),
            var_at(c + 1),
            Expr::Var(Symbol::Arg2),
            var_at(c + 2),
            Expr::Var(Symbol::Arg3),
            var_at(c),
        ),
    )
}

pub(crate) fn list_swap(symbol: Symbol, var_store: &mut VarStore) -> (d: Def)
    requires
        old(var_store)@ + FRESH_BUDGET as int <= u32::MAX as int,
    ensures
        list_swap_shape(d, symbol, old(var_store)@),
        final(var_store)@ == old(var_store)@ + 7,
{
    let ghost c = var_store@;
    let list_var = var_store.fresh();
    let index1_var = var_store.fresh();
    let index2_var = var_store.fresh();
    let body = Expr::RunLowLevel {
        op: LowLevel::ListSwap,
        args: vec![
            (list_var, Expr::Var(Symbol::Arg1)),
            (index1_var, Expr::Var(Symbol::Arg2)),
            (index2_var, Expr::Var(Symbol::Arg3)),
        ],
        ret_var: list_var,
    };
    let args = vec![
        (list_var, Symbol::Arg1),
        (index1_var, Symbol::Arg2),
        (index2_var, Symbol::Arg3),
    ];
    proof {
        assert(args@ =~= seq![
            (var_at(c), Symbol::Arg1),
            (var_at(c + 1), Symbol::Arg2),
            (var_at(c + 2), Symbol::Arg3),
        ]);
    }
    defn(symbol, args, var_store, body, list_var)
}

pub(crate) fn list_take_first(symbol: Symbol, var_store: &mut VarStore) -> (d: Def)
    requires
        old(var_store)@ + FRESH_BUDGET as int <= u32::MAX as int,
    ensures
        op2_ret_first_shape(d, symbol, LowLevel::ListTakeFirst, old(var_store)@),
        final(var_store)@ == old(var_store)@ + 6,
{
    op2_ret_first(symbol, LowLevel::ListTakeFirst, var_store)
}

pub(crate) fn list_take_last(symbol: Symbol, var_store: &mut VarStore) -> (d: Def)
    requires
        old(var_store)@ + FRESH_BUDGET as int <= u32::MAX as int,
    ensures
        op2_ret_first_shape(d, symbol, LowLevel::ListTakeLast, old(var_store)@),
        final(var_store)@ == old(var_store)@ + 6,
{
    op2_ret_first(symbol, LowLevel::ListTakeLast, var_store)
}

pub(crate) fn list_drop(symbol: Symbol, var_store: &mut VarStore) -> (d: Def)
    requires
        old(var_store)@ + FRESH_BUDGET as int <= u32::MAX as int,
    ensures
        op2_ret_first_shape(d, symbol, LowLevel::ListDrop, old(var_store)@),
        final(var_store)@ == old(var_store)@ + 6,
{
    op2_ret_first(symbol, LowLevel::ListDrop, var_store)
}

pub(crate) fn list_drop_at(symbol: Symbol, var_store: &mut VarStore) -> (d: Def)
    requires
        old(var_store)@ + FRESH_BUDGET as int <= u32::MAX as int,
    ensures
        op2_ret_first_shape(d, symbol, LowLevel::ListDropAt, old(var_store)@),
        final(var_store)@ == old(var_store)@ + 6,
{
    op2_ret_first(symbol, LowLevel::ListDropAt, var_store)
}

/// Dropping the first element: drop-at with a literal zero index typed by
/// the reserved size variables.
pub open spec fn list_drop_first_shape(d: Def, sym: Symbol, c: int) -> bool {
    defn_shape(
        d,
        sym,
        seq![(var_at(c), Symbol::Arg1)],
        var_at(c),
        c + 2,
        |e: Expr| ll2(
            e,
            LowLevel::ListDropAt,
            var_at(c),
            Expr::Var(Symbol::Arg1),
            var_at(c + 1),
            Expr::Int(nat_var(), natural_var(), 0),
            var_at(c),
        ),
    )
}

pub(crate) fn list_drop_first(symbol: Symbol, var_store: &mut VarStore) -> (d: Def)
    requires
        old(var_store)@ + FRESH_BUDGET as int <= u32::MAX as int,
    ensures
        list_drop_first_shape(d, symbol, old(var_store)@),
        final(var_store)@ == old(var_store)@ + 6,
{
    let ghost c = var_store@;
    let list_var = var_store.fresh();
    let index_var = var_store.fresh();
    let num_var = Variable { id: VAR_NAT };
    let num_precision_var = Variable { id: VAR_NATURAL };
    let body = Expr::RunLowLevel {
        op: LowLevel::ListDropAt,
        args: vec![
            (list_var, Expr::Var(Symbol::Arg1)),
            (index_var, Expr::Int(num_var, num_precision_var, 0)),
        ],
        ret_var: list_var,
    };
    let args = vec![(list_var, Symbol::Arg1)];
    proof {
        assert(args@ =~= seq![(var_at(c), Symbol::Arg1)]);
    }
    defn(symbol, args, var_store, body, list_var)
}

/// Dropping the last element: drop-at `length(Arg1) - 1`, the subtraction
/// wrapping and typed by the reserved size variable.
pub open spec fn list_drop_last_shape(d: Def, sym: Symbol, c: int) -> bool {
    defn_shape(
        d,
        sym,
        seq![(var_at(c), Symbol::Arg1)],
        var_at(c),
        c + 3,
        |e: Expr| e matches Expr::RunLowLevel { op, args, ret_var }
            && op == LowLevel::ListDropAt
            && ret_var == var_at(c)
            && args@.len() == 2
            && args@[0] == (var_at(c), Expr::Var(Symbol::Arg1))
            && args@[1].0 == var_at(c + 1)
            && (args@[1].1 matches Expr::RunLowLevel { op: sop, args: sargs, ret_var: sret }
                && sop == LowLevel::NumSubWrap
                && sret == nat_var()
                && sargs@.len() == 2
                && sargs@[0].0 == var_at(c + 2)
                && ll1(sargs@[0].1, LowLevel::ListLen, var_at(c), Expr::Var(Symbol::Arg1), nat_var())
                && sargs@[1] == (var_at(c + 2), Expr::Int(nat_var(), natural_var(), 1))),
    )
}

pub(crate) fn list_drop_last(symbol: Symbol, var_store: &mut VarStore) -> (d: Def)
    requires
        old(var_store)@ + FRESH_BUDGET as int <= u32::MAX as int,
    ensures
        list_drop_last_shape(d, symbol, old(var_store)@),
        final(var_store)@ == old(var_store)@ + 7,
{
    let ghost c = var_store@;
    let list_var = var_store.fresh();
    let index_var = var_store.fresh();
    let arg_var = var_store.fresh();
    let len_var = Variable { id: VAR_NAT };
    let num_precision_var = Variable { id: VAR_NATURAL };
    let len_call = Expr::RunLowLevel {
        op: LowLevel::ListLen,
        args: vec![(list_var, Expr::Var(Symbol::Arg1))],
        ret_var: len_var,
    };
    let sub_call = Expr::RunLowLevel {
        op: LowLevel::NumSubWrap,
        args: vec![(arg_var, len_call), (arg_var, Expr::Int(len_var, num_precision_var, 1))],
        ret_var: len_var,
    };
    let body = Expr::RunLowLevel {
        op: LowLevel::ListDropAt,
        args: vec![(list_var, Expr::Var(Symbol::Arg1)), (index_var, sub_call)],
        ret_var: list_var,
    };
    let args = vec![(list_var, Symbol::Arg1)];
    proof {
        assert(args@ =~= seq![(var_at(c), Symbol::Arg1)]);
    }
    defn(symbol, args, var_store, body, list_var)
}

pub(crate) fn list_append(symbol: Symbol, var_store: &mut VarStore) -> (d: Def)
    requires
        old(var_store)@ + FRESH_BUDGET as int <= u32::MAX as int,
    ensures
        op2_ret_first_shape(d, symbol, LowLevel::ListAppend, old(var_store)@),
        final(var_store)@ == old(var_store)@ + 6,
{
    op2_ret_first(symbol, LowLevel::ListAppend, var_store)
}

pub(crate) fn list_prepend(symbol: Symbol, var_store: &mut VarStore) -> (d: Def)
    requires
        old(var_store)@ + FRESH_BUDGET as int <= u32::MAX as int,
    ensures
        op2_ret_first_shape(d, symbol, LowLevel::ListPrepend, old(var_store)@),
        final(var_store)@ == old(var_store)@ + 6,
{
    op2_ret_first(symbol, LowLevel::ListPrepend, var_store)
}

pub(crate) fn list_join(symbol: Symbol, var_store: &mut VarStore) -> (d: Def)
    requires
        old(var_store)@ + FRESH_BUDGET as int <= u32::MAX as int,
    ensures
        op1_ret_first_shape(d, symbol, LowLevel::ListJoin, old(var_store)@),
        final(var_store)@ == old(var_store)@ + 6,
{
    op1_ret_first(symbol, LowLevel::ListJoin, var_store)
}

pub(crate) fn list_walk(symbol: Symbol, var_store: &mut VarStore) -> (d: Def)
    requires
        old(var_store)@ + FRESH_BUDGET as int <= u32::MAX as int,
    ensures
        passthrough_shape(d, symbol, LowLevel::ListWalk, 3, old(var_store)@),
        final(var_store)@ == old(var_store)@ + 8,
{
    lowlevel_3(symbol, LowLevel::ListWalk, var_store)
}

pub(crate) fn list_walk_backwards(symbol: Symbol, var_store: &mut VarStore) -> (d: Def)
    requires
        old(var_store)@ + FRESH_BUDGET as int <= u32::MAX as int,
    ensures
        passthrough_shape(d, symbol, LowLevel::ListWalkBackwards, 3, old(var_store)@),
        final(var_store)@ == old(var_store)@ + 8,
{
    lowlevel_3(symbol, LowLevel::ListWalkBackwards, var_store)
}

pub(crate) fn list_walk_until(symbol: Symbol, var_store: &mut VarStore) -> (d: Def)
    requires
        old(var_store)@ + FRESH_BUDGET as int <= u32::MAX as int,
    ensures
        passthrough_shape(d, symbol, LowLevel::ListWalkUntil, 3, old(var_store)@),
        final(var_store)@ == old(var_store)@ + 8,
{
    lowlevel_3(symbol, LowLevel::ListWalkUntil, var_store)
}

/// The step closure of join-map: concatenate the accumulator with the
/// captured user mapper applied to the element (§4.5 idiom).
pub open spec fn join_map_step_shape(e: Expr, c: int) -> bool {
    e matches Expr::Closure(cd)
        && cd.function_type == var_at(c + 5)
        && cd.closure_type == var_at(c + 7)
        && cd.closure_ext_var == var_at(c + 8)
        && cd.return_type == var_at(c + 3)
        && cd.name == Symbol::ListJoinMapConcat
        && cd.recursive == Recursive::NotRecursive
        && cd.captured_symbols@.len() == 1
        && cd.captured_symbols@[0] == (Symbol::Arg2, var_at(c + 4))
        && cd.arguments@.len() == 2
        && cd.arguments@[0] == (var_at(c + 3), Pattern::Identifier(Symbol::Arg3))
        && cd.arguments@[1] == (var_at(c), Pattern::Identifier(Symbol::Arg4))
        && (*cd.body matches Expr::RunLowLevel { op, args, ret_var }
            && op == LowLevel::ListConcat
            && ret_var == var_at(c + 3)
            && args@.len() == 2
            && args@[0] == (var_at(c + 3), Expr::Var(Symbol::Arg3))
            && args@[1].0 == var_at(c + 3)
            && (args@[1].1 matches Expr::Call { fn_var, fn_expr, closure_var, ret_var: rv, args: cargs }
                && fn_var == var_at(c + 4)
                && *fn_expr == Expr::Var(Symbol::Arg2)
                && closure_var == var_at(c + 6)
                && rv == var_at(c + 3)
                && cargs@.len() == 1
                && cargs@[0] == (var_at(c), Expr::Var(Symbol::Arg4))))
}

/// Join-map: fold the input with an empty list literal as seed and the
/// concatenating step closure.
pub open spec fn list_join_map_shape(d: Def, sym: Symbol, c: int) -> bool {
    defn_shape(
        d,
        sym,
        seq![(var_at(c + 1), Symbol::Arg1), (var_at(c + 4), Symbol::Arg2)],
        var_at(c + 3),
        c + 9,
        |e: Expr| e matches Expr::RunLowLevel { op, args, ret_var }
            && op == LowLevel::ListWalk
            && ret_var == var_at(c + 3)
            && args@.len() == 3
            && args@[0] == (var_at(c + 1), Expr::Var(Symbol::Arg1))
            && args@[1].0 == var_at(c + 3)
            && (args@[1].1 matches Expr::List { elem_var, elems }
                && elem_var == var_at(c + 2)
                && elems@.len() == 0)
            && args@[2].0 == var_at(c + 5)
            && join_map_step_shape(args@[2].1, c),
    )
}

pub(crate) fn list_join_map(symbol: Symbol, var_store: &mut VarStore) -> (d: Def)
    requires
        old(var_store)@ + FRESH_BUDGET as int <= u32::MAX as int,
    ensures
        list_join_map_shape(d, symbol, old(var_store)@),
        final(var_store)@ == old(var_store)@ + 13,
{
    let ghost c = var_store@;
    let before = var_store.fresh();
    let list_before = var_store.fresh();
    let after = var_store.fresh();
    let list_after = var_store.fresh();
    let before2list_after = var_store.fresh();
    let t_concat_clos = var_store.fresh();
    let mapper_lambda_set = var_store.fresh();
    let closure_type = var_store.fresh();
    let closure_ext_var = var_store.fresh();
    let mapper_elem = Expr::Call {
        fn_var: before2list_after,
        fn_expr: Box::new(Expr::Var(Symbol::Arg2)),
        closure_var: mapper_lambda_set,
        ret_var: list_after,
        args: vec![(before, Expr::Var(Symbol::Arg4))],
    };
    let step_body = Expr::RunLowLevel {
        op: LowLevel::ListConcat,
        args: vec![(list_after, Expr::Var(Symbol::Arg3)), (list_after, mapper_elem)],
        ret_var: list_after,
    };
    let concat_clos = Expr::Closure(ClosureData {
        function_type: t_concat_clos,
        closure_type,
        closure_ext_var,
        return_type: list_after,
        name: Symbol::ListJoinMapConcat,
        recursive: Recursive::NotRecursive,
        captured_symbols: vec![(Symbol::Arg2, before2list_after)],
        arguments: vec![
            (list_after, Pattern::Identifier(Symbol::Arg3)),
            (before, Pattern::Identifier(Symbol::Arg4)),
        ],
        body: Box::new(step_body),
    });
    let body = Expr::RunLowLevel {
        op: LowLevel::ListWalk,
        args: vec![
            (list_before, Expr::Var(Symbol::Arg1)),
            (list_after, Expr::List { elem_var: after, elems: Vec::new() }),
            (t_concat_clos, concat_clos),
        ],
        ret_var: list_after,
    };
    let args = vec![(list_before, Symbol::Arg1), (before2list_after, Symbol::Arg2)];
    proof {
        assert(args@ =~= seq![(var_at(c + 1), Symbol::Arg1), (var_at(c + 4), Symbol::Arg2)]);
    }
    defn(symbol, args, var_store, body, list_after)
}

/// The step closure of minimum/maximum: keep the element when it compares
/// favorably against the accumulator, else keep the accumulator.
pub open spec fn fold_pick_step_shape(
    e: Expr,
    name: Symbol,
    cmp_op: LowLevel,
    elem: Variable,
    c: int,
) -> bool {
    closure_shape(
        e,
        name,
        seq![(elem, Symbol::Arg3), (elem, Symbol::Arg4)],
        elem,
        c + 1,
        |b: Expr| b matches Expr::If { cond_var, branch_var, branches, final_else }
            && cond_var == var_at(c)
            && branch_var == elem
            && branches@.len() == 1
            && ll2(
                branches@[0].0,
                cmp_op,
                elem,
                Expr::Var(Symbol::Arg4),
                elem,
                Expr::Var(Symbol::Arg3),
                var_at(c),
            )
            && branches@[0].1 == Expr::Var(Symbol::Arg4)
            && *final_else == Expr::Var(Symbol::Arg3),
    )
}

/// Build the comparison step closure used by the minimum builtin.
pub(crate) fn list_min_lt(list_elem_var: Variable, var_store: &mut VarStore) -> (e: Expr)
    requires
        old(var_store)@ + 4 <= u32::MAX as int,
    ensures
        fold_pick_step_shape(e, Symbol::ListMinLt, LowLevel::NumLt, list_elem_var, old(var_store)@),
        final(var_store)@ == old(var_store)@ + 4,
{
    let ghost c = var_store@;
    let bool_var = var_store.fresh();
    let guard = Expr::RunLowLevel {
        op: LowLevel::NumLt,
        args: vec![
            (list_elem_var, Expr::Var(Symbol::Arg4)),
            (list_elem_var, Expr::Var(Symbol::Arg3)),
        ],
        ret_var: bool_var,
    };
    let body = Expr::If {
        cond_var: bool_var,
        branch_var: list_elem_var,
        branches: vec![(guard, Expr::Var(Symbol::Arg4))],
        final_else: Box::new(Expr::Var(Symbol::Arg3)),
    };
    let args = vec![(list_elem_var, Symbol::Arg3), (list_elem_var, Symbol::Arg4)];
    proof {
        assert(args@ =~= seq![(list_elem_var, Symbol::Arg3), (list_elem_var, Symbol::Arg4)]);
    }
    defn_help(Symbol::ListMinLt, args, var_store, body, list_elem_var)
}

/// Build the comparison step closure used by the maximum builtin.
pub(crate) fn list_max_gt(list_elem_var: Variable, var_store: &mut VarStore) -> (e: Expr)
    requires
        old(var_store)@ + 4 <= u32::MAX as int,
    ensures
        fold_pick_step_shape(e, Symbol::ListMaxGt, LowLevel::NumGt, list_elem_var, old(var_store)@),
        final(var_store)@ == old(var_store)@ + 4,
{
    let ghost c = var_store@;
    let bool_var = var_store.fresh();
    let guard = Expr::RunLowLevel {
        op: LowLevel::NumGt,
        args: vec![
            (list_elem_var, Expr::Var(Symbol::Arg4)),
            (list_elem_var, Expr::Var(Symbol::Arg3)),
        ],
        ret_var: bool_var,
    };
    let body = Expr::If {
        cond_var: bool_var,
        branch_var: list_elem_var,
        branches: vec![(guard, Expr::Var(Symbol::Arg4))],
        final_else: Box::new(Expr::Var(Symbol::Arg3)),
    };
    let args = vec![(list_elem_var, Symbol::Arg3), (list_elem_var, Symbol::Arg4)];
    proof {
        assert(args@ =~= seq![(list_elem_var, Symbol::Arg3), (list_elem_var, Symbol::Arg4)]);
    }
    defn_help(Symbol::ListMaxGt, args, var_store, body, list_elem_var)
}

/// Minimum/maximum (§4.3 plus §4.5): guard on non-emptiness, then fold the
/// list seeded with its first element and the picking closure; an empty list
/// yields `Err(ListWasEmpty)`.
pub open spec fn list_pick_body_shape(step_name: Symbol, cmp_op: LowLevel, c: int, e: Expr) -> bool {
    e matches Expr::If { cond_var, branch_var, branches, final_else }
        && cond_var == var_at(c + 1)
        && branch_var == var_at(c + 6)
        && branches@.len() == 1
        && (branches@[0].0 matches Expr::RunLowLevel { op, args, ret_var }
            && op == LowLevel::ValueNotEq
            && ret_var == var_at(c + 1)
            && args@.len() == 2
            && args@[0] == (nat_var(), Expr::Int(nat_var(), natural_var(), 0))
            && args@[1].0 == nat_var()
            && ll1(args@[1].1, LowLevel::ListLen, var_at(c + 2), Expr::Var(Symbol::Arg1), nat_var()))
        && tag_shape(
            branches@[0].1,
            TagName::OkTag,
            1,
            c + 11,
            |i: int, a: Expr| a matches Expr::RunLowLevel { op, args, ret_var }
                && op == LowLevel::ListWalk
                && ret_var == var_at(c + 3)
                && args@.len() == 3
                && args@[0] == (var_at(c + 2), Expr::Var(Symbol::Arg1))
                && args@[1].0 == var_at(c + 3)
                && ll2(
                    args@[1].1,
                    LowLevel::ListGetUnsafe,
                    var_at(c + 2),
                    Expr::Var(Symbol::Arg1),
                    var_at(c),
                    Expr::Int(nat_var(), natural_var(), 0),
                    var_at(c + 3),
                )
                && args@[2].0 == var_at(c + 5)
                && fold_pick_step_shape(args@[2].1, step_name, cmp_op, var_at(c + 3), c + 7),
        )
        && wrapped_err_shape(*final_else, TagName::ListWasEmpty, c + 14)
}

pub open spec fn list_pick_shape(d: Def, sym: Symbol, step_name: Symbol, cmp_op: LowLevel, c: int) -> bool {
    defn_shape(
        d,
        sym,
        seq![(var_at(c + 2), Symbol::Arg1)],
        var_at(c + 4),
        c + 19,
        |e: Expr| list_pick_body_shape(step_name, cmp_op, c, e),
    )
}

/// Shared synthesizer for minimum and maximum.
fn list_pick(symbol: Symbol, var_store: &mut VarStore, step_name: Symbol, cmp_op: LowLevel) -> (d: Def)
    requires
        old(var_store)@ + FRESH_BUDGET as int <= u32::MAX as int,
        step_name == Symbol::ListMinLt || step_name == Symbol::ListMaxGt,
        cmp_op == (if step_name == Symbol::ListMinLt { LowLevel::NumLt } else { LowLevel::NumGt }),
    ensures
        list_pick_shape(d, symbol, step_name, cmp_op, old(var_store)@),
        final(var_store)@ == old(var_store)@ + 23,
{
    let ghost c = var_store@;
    let arg_var = var_store.fresh();
    let bool_var = var_store.fresh();
    let list_var = var_store.fresh();
    let list_elem_var = var_store.fresh();
    let ret_var = var_store.fresh();
    let closure_var = var_store.fresh();
    let branch_var = var_store.fresh();
    let len_var = Variable { id: VAR_NAT };
    let num_precision_var = Variable { id: VAR_NATURAL };
    let len_call = Expr::RunLowLevel {
        op: LowLevel::ListLen,
        args: vec![(list_var, Expr::Var(Symbol::Arg1))],
        ret_var: len_var,
    };
    let guard = Expr::RunLowLevel {
        op: LowLevel::ValueNotEq,
        args: vec![
            (len_var, Expr::Int(len_var, num_precision_var, 0)),
            (len_var, len_call),
        ],
        ret_var: bool_var,
    };
    let seed = Expr::RunLowLevel {
        op: LowLevel::ListGetUnsafe,
        args: vec![
            (list_var, Expr::Var(Symbol::Arg1)),
            (arg_var, Expr::Int(len_var, num_precision_var, 0)),
        ],
        ret_var: list_elem_var,
    };
    let step = if step_name == Symbol::ListMinLt {
        list_min_lt(list_elem_var, var_store)
    } else {
        list_max_gt(list_elem_var, var_store)
    };
    let walk = Expr::RunLowLevel {
        op: LowLevel::ListWalk,
        args: vec![
            (list_var, Expr::Var(Symbol::Arg1)),
            (list_elem_var, seed),
            (closure_var, step),
        ],
        ret_var: list_elem_var,
    };
    let ok_branch = tag(TagName::OkTag, vec![walk], var_store);
    let else_branch = err_tag(TagName::ListWasEmpty, var_store);
    let body = Expr::If {
        cond_var: bool_var,
        branch_var,
        branches: vec![(guard, ok_branch)],
        final_else: Box::new(else_branch),
    };
    let args = vec![(list_var, Symbol::Arg1)];
    proof {
        assert(args@ =~= seq![(var_at(c + 2), Symbol::Arg1)]);
    }
    defn(symbol, args, var_store, body, ret_var)
}

pub(crate) fn list_min(symbol: Symbol, var_store: &mut VarStore) -> (d: Def)
    requires
        old(var_store)@ + FRESH_BUDGET as int <= u32::MAX as int,
    ensures
        list_pick_shape(d, symbol, Symbol::ListMinLt, LowLevel::NumLt, old(var_store)@),
        final(var_store)@ == old(var_store)@ + 23,
{
    list_pick(symbol, var_store, Symbol::ListMinLt, LowLevel::NumLt)
}

pub(crate) fn list_max(symbol: Symbol, var_store: &mut VarStore) -> (d: Def)
    requires
        old(var_store)@ + FRESH_BUDGET as int <= u32::MAX as int,
    ensures
        list_pick_shape(d, symbol, Symbol::ListMaxGt, LowLevel::NumGt, old(var_store)@),
        final(var_store)@ == old(var_store)@ + 23,
{
    list_pick(symbol, var_store, Symbol::ListMaxGt, LowLevel::NumGt)
}

/// The accumulating step closure of sum and product.
pub open spec fn fold_accum_step_shape(
    e: Expr,
    name: Symbol,
    op: LowLevel,
    num: Variable,
    c: int,
) -> bool {
    closure_shape(
        e,
        name,
        seq![(num, Symbol::Arg3), (num, Symbol::Arg4)],
        num,
        c,
        |b: Expr| ll2(b, op, num, Expr::Var(Symbol::Arg3), num, Expr::Var(Symbol::Arg4), num),
    )
}

/// Build the addition step closure used by the sum builtin.
pub(crate) fn list_sum_add(num_var: Variable, var_store: &mut VarStore) -> (e: Expr)
    requires
        old(var_store)@ + 3 <= u32::MAX as int,
    ensures
        fold_accum_step_shape(e, Symbol::ListSumAdd, LowLevel::NumAdd, num_var, old(var_store)@),
        final(var_store)@ == old(var_store)@ + 3,
{
    let body = Expr::RunLowLevel {
        op: LowLevel::NumAdd,
        args: vec![(num_var, Expr::Var(Symbol::Arg3)), (num_var, Expr::Var(Symbol::Arg4))],
        ret_var: num_var,
    };
    let args = vec![(num_var, Symbol::Arg3), (num_var, Symbol::Arg4)];
    proof {
        assert(args@ =~= seq![(num_var, Symbol::Arg3), (num_var, Symbol::Arg4)]);
    }
    defn_help(Symbol::ListSumAdd, args, var_store, body, num_var)
}

/// Build the multiplication step closure used by the product builtin.
pub(crate) fn list_product_mul(num_var: Variable, var_store: &mut VarStore) -> (e: Expr)
    requires
        old(var_store)@ + 3 <= u32::MAX as int,
    ensures
        fold_accum_step_shape(e, Symbol::ListProductMul, LowLevel::NumMul, num_var, old(var_store)@),
        final(var_store)@ == old(var_store)@ + 3,
{
    let body = Expr::RunLowLevel {
        op: LowLevel::NumMul,
        args: vec![(num_var, Expr::Var(Symbol::Arg3)), (num_var, Expr::Var(Symbol::Arg4))],
        ret_var: num_var,
    };
    let args = vec![(num_var, Symbol::Arg3), (num_var, Symbol::Arg4)];
    proof {
        assert(args@ =~= seq![(num_var, Symbol::Arg3), (num_var, Symbol::Arg4)]);
    }
    defn_help(Symbol::ListProductMul, args, var_store, body, num_var)
}

/// Sum/product (§4.5 idiom): fold the list, seeded with the operation's
/// identity literal, through the accumulating closure.
pub open spec fn fold_accum_shape(
    d: Def,
    sym: Symbol,
    step_name: Symbol,
    op: LowLevel,
    seed: i64,
    c: int,
) -> bool {
    defn_shape(
        d,
        sym,
        seq![(var_at(c + 1), Symbol::Arg1)],
        var_at(c),
        c + 7,
        |e: Expr| e matches Expr::RunLowLevel { op: wop, args, ret_var }
            && wop == LowLevel::ListWalk
            && ret_var == var_at(c)
            && args@.len() == 3
            && args@[0] == (var_at(c + 1), Expr::Var(Symbol::Arg1))
            && args@[1] == (var_at(c), Expr::Num(var_at(c + 3), seed))
            && args@[2].0 == var_at(c + 2)
            && fold_accum_step_shape(args@[2].1, step_name, op, var_at(c), c + 4),
    )
}

/// Shared synthesizer for sum and product.
fn list_fold_accum(symbol: Symbol, var_store: &mut VarStore, step_name: Symbol, op: LowLevel, seed: i64) -> (d: Def)
    requires
        old(var_store)@ + FRESH_BUDGET as int <= u32::MAX as int,
        step_name == Symbol::ListSumAdd || step_name == Symbol::ListProductMul,
        op == (if step_name == Symbol::ListSumAdd { LowLevel::NumAdd } else { LowLevel::NumMul }),
    ensures
        fold_accum_shape(d, symbol, step_name, op, seed, old(var_store)@),
        final(var_store)@ == old(var_store)@ + 11,
{
    let ghost c = var_store@;
    let num_var = var_store.fresh();
    let list_var = var_store.fresh();
    let closure_var = var_store.fresh();
    let seed_num_var = var_store.fresh();
    let step = if step_name == Symbol::ListSumAdd {
        list_sum_add(num_var, var_store)
    } else {
        list_product_mul(num_var, var_store)
    };
    let body = Expr::RunLowLevel {
        op: LowLevel::ListWalk,
        args: vec![
            (list_var, Expr::Var(Symbol::Arg1)),
            (num_var, Expr::Num(seed_num_var, seed)),
            (closure_var, step),
        ],
        ret_var: num_var,
    };
    let args = vec![(list_var, Symbol::Arg1)];
    proof {
        assert(args@ =~= seq![(var_at(c + 1), Symbol::Arg1)]);
    }
    defn(symbol, args, var_store, body, num_var)
}

pub(crate) fn list_sum(symbol: Symbol, var_store: &mut VarStore) -> (d: Def)
    requires
        old(var_store)@ + FRESH_BUDGET as int <= u32::MAX as int,
    ensures
        fold_accum_shape(d, symbol, Symbol::ListSumAdd, LowLevel::NumAdd, 0, old(var_store)@),
        final(var_store)@ == old(var_store)@ + 11,
{
    list_fold_accum(symbol, var_store, Symbol::ListSumAdd, LowLevel::NumAdd, 0)
}

pub(crate) fn list_product(symbol: Symbol, var_store: &mut VarStore) -> (d: Def)
    requires
        old(var_store)@ + FRESH_BUDGET as int <= u32::MAX as int,
    ensures
        fold_accum_shape(d, symbol, Symbol::ListProductMul, LowLevel::NumMul, 1, old(var_store)@),
        final(var_store)@ == old(var_store)@ + 11,
{
    list_fold_accum(symbol, var_store, Symbol::ListProductMul, LowLevel::NumMul, 1)
}

pub(crate) fn list_keep_if(symbol: Symbol, var_store: &mut VarStore) -> (d: Def)
    requires
        old(var_store)@ + FRESH_BUDGET as int <= u32::MAX as int,
    ensures
        op2_ret_first_shape(d, symbol, LowLevel::ListKeepIf, old(var_store)@),
        final(var_store)@ == old(var_store)@ + 6,
{
    op2_ret_first(symbol, LowLevel::ListKeepIf, var_store)
}

pub(crate) fn list_contains(symbol: Symbol, var_store: &mut VarStore) -> (d: Def)
    requires
        old(var_store)@ + FRESH_BUDGET as int <= u32::MAX as int,
    ensures
        passthrough_shape(d, symbol, LowLevel::ListContains, 2, old(var_store)@),
        final(var_store)@ == old(var_store)@ + 7,
{
    lowlevel_2(symbol, LowLevel::ListContains, var_store)
}

pub(crate) fn list_keep_oks(symbol: Symbol, var_store: &mut VarStore) -> (d: Def)
    requires
        old(var_store)@ + FRESH_BUDGET as int <= u32::MAX as int,
    ensures
        passthrough_shape(d, symbol, LowLevel::ListKeepOks, 2, old(var_store)@),
        final(var_store)@ == old(var_store)@ + 7,
{
    lowlevel_2(symbol, LowLevel::ListKeepOks, var_store)
}

pub(crate) fn list_keep_errs(symbol: Symbol, var_store: &mut VarStore) -> (d: Def)
    requires
        old(var_store)@ + FRESH_BUDGET as int <= u32::MAX as int,
    ensures
        passthrough_shape(d, symbol, LowLevel::ListKeepErrs, 2, old(var_store)@),
        final(var_store)@ == old(var_store)@ + 7,
{
    lowlevel_2(symbol, LowLevel::ListKeepErrs, var_store)
}

pub(crate) fn list_range(symbol: Symbol, var_store: &mut VarStore) -> (d: Def)
    requires
        old(var_store)@ + FRESH_BUDGET as int <= u32::MAX as int,
    ensures
        passthrough_shape(d, symbol, LowLevel::ListRange, 2, old(var_store)@),
        final(var_store)@ == old(var_store)@ + 7,
{
    lowlevel_2(symbol, LowLevel::ListRange, var_store)
}

pub(crate) fn list_map(symbol: Symbol, var_store: &mut VarStore) -> (d: Def)
    requires
        old(var_store)@ + FRESH_BUDGET as int <= u32::MAX as int,
    ensures
        passthrough_shape(d, symbol, LowLevel::ListMap, 2, old(var_store)@),
        final(var_store)@ == old(var_store)@ + 7,
{
    lowlevel_2(symbol, LowLevel::ListMap, var_store)
}

pub(crate) fn list_map_with_index(symbol: Symbol, var_store: &mut VarStore) -> (d: Def)
    requires
        old(var_store)@ + FRESH_BUDGET as int <= u32::MAX as int,
    ensures
        passthrough_shape(d, symbol, LowLevel::ListMapWithIndex, 2, old(var_store)@),
        final(var_store)@ == old(var_store)@ + 7,
{
    lowlevel_2(symbol, LowLevel::ListMapWithIndex, var_store)
}

pub(crate) fn list_map2(symbol: Symbol, var_store: &mut VarStore) -> (d: Def)
    requires
        old(var_store)@ + FRESH_BUDGET as int <= u32::MAX as int,
    ensures
        passthrough_shape(d, symbol, LowLevel::ListMap2, 3, old(var_store)@),
        final(var_store)@ == old(var_store)@ + 8,
{
    lowlevel_3(symbol, LowLevel::ListMap2, var_store)
}

pub(crate) fn list_map3(symbol: Symbol, var_store: &mut VarStore) -> (d: Def)
    requires
        old(var_store)@ + FRESH_BUDGET as int <= u32::MAX as int,
    ensures
        passthrough_shape(d, symbol, LowLevel::ListMap3, 4, old(var_store)@),
        final(var_store)@ == old(var_store)@ + 9,
{
    lowlevel_4(symbol, LowLevel::ListMap3, var_store)
}

pub(crate) fn list_map4(symbol: Symbol, var_store: &mut VarStore) -> (d: Def)
    requires
        old(var_store)@ + FRESH_BUDGET as int <= u32::MAX as int,
    ensures
        passthrough_shape(d, symbol, LowLevel::ListMap4, 5, old(var_store)@),
        final(var_store)@ == old(var_store)@ + 10,
{
    lowlevel_5(symbol, LowLevel::ListMap4, var_store)
}

pub(crate) fn list_sort_with(symbol: Symbol, var_store: &mut VarStore) -> (d: Def)
    requires
        old(var_store)@ + FRESH_BUDGET as int <= u32::MAX as int,
    ensures
        passthrough_shape(d, symbol, LowLevel::ListSortWith, 2, old(var_store)@),
        final(var_store)@ == old(var_store)@ + 7,
{
    lowlevel_2(symbol, LowLevel::ListSortWith, var_store)
}

pub(crate) fn list_any(symbol: Symbol, var_store: &mut VarStore) -> (d: Def)
    requires
        old(var_store)@ + FRESH_BUDGET as int <= u32::MAX as int,
    ensures
        passthrough_shape(d, symbol, LowLevel::ListAny, 2, old(var_store)@),
        final(var_store)@ == old(var_store)@ + 7,
{
    lowlevel_2(symbol, LowLevel::ListAny, var_store)
}

/// Search: bind the find opcode's (value, found) record, guard on the found
/// flag, and return `Ok(value)` or `Err(NotFound)`.
pub open spec fn list_find_body_shape(c: int, e: Expr) -> bool {
    e matches Expr::LetNonRec(def0, cont, ret)
        && ret == var_at(c + 5)
        && (*def0).pattern == Pattern::Identifier(Symbol::ListFindResult)
        && (*def0).expr_var == var_at(c + 6)
        && (*def0).pattern_vars@.len() == 0
        && (*def0).annotation is None
        && ll2(
            (*def0).body,
            LowLevel::ListFindUnsafe,
            var_at(c),
            Expr::Var(Symbol::Arg1),
            var_at(c + 1),
            Expr::Var(Symbol::Arg2),
            var_at(c + 6),
        )
        && (*cont matches Expr::If { cond_var, branch_var, branches, final_else }
            && cond_var == var_at(c + 2)
            && branch_var == var_at(c + 5)
            && branches@.len() == 1
            && (branches@[0].0 matches Expr::Access { record_var, ext_var, field, field_var, record }
                && record_var == var_at(c + 6)
                && ext_var == var_at(c + 8)
                && field == crate::types::FieldName::Found
                && field_var == var_at(c + 3)
                && *record == Expr::Var(Symbol::ListFindResult))
            && tag_shape(
                branches@[0].1,
                TagName::OkTag,
                1,
                c + 9,
                |i: int, a: Expr| a matches Expr::Access { record_var, ext_var, field, field_var, record }
                    && record_var == var_at(c + 6)
                    && ext_var == var_at(c + 7)
                    && field == crate::types::FieldName::Value
                    && field_var == var_at(c + 4)
                    && *record == Expr::Var(Symbol::ListFindResult),
            )
            && wrapped_err_shape(*final_else, TagName::NotFound, c + 12))
}

pub open spec fn list_find_shape(d: Def, sym: Symbol, c: int) -> bool {
    defn_shape(
        d,
        sym,
        seq![(var_at(c), Symbol::Arg1), (var_at(c + 1), Symbol::Arg2)],
        var_at(c + 5),
        c + 17,
        |e: Expr| list_find_body_shape(c, e),
    )
}

pub(crate) fn list_find(symbol: Symbol, var_store: &mut VarStore) -> (d: Def)
    requires
        old(var_store)@ + FRESH_BUDGET as int <= u32::MAX as int,
    ensures
        list_find_shape(d, symbol, old(var_store)@),
        final(var_store)@ == old(var_store)@ + 21,
{
    let ghost c = var_store@;
    let t_list = var_store.fresh();
    let t_pred_fn = var_store.fresh();
    let t_bool = var_store.fresh();
    let t_found = var_store.fresh();
    let t_value = var_store.fresh();
    let t_ret = var_store.fresh();
    let t_find_result = var_store.fresh();
    let t_ext_var1 = var_store.fresh();
    let t_ext_var2 = var_store.fresh();
    let def0 = Def {
        pattern: Pattern::Identifier(Symbol::ListFindResult),
        body: Expr::RunLowLevel {
            op: LowLevel::ListFindUnsafe,
            args: vec![(t_list, Expr::Var(Symbol::Arg1)), (t_pred_fn, Expr::Var(Symbol::Arg2))],
            ret_var: t_find_result,
        },
        expr_var: t_find_result,
        pattern_vars: Vec::new(),
        annotation: None,
    };
    let get_value = Expr::Access {
        record_var: t_find_result,
        ext_var: t_ext_var1,
        field: crate::types::FieldName::Value,
        field_var: t_value,
        record: Box::new(Expr::Var(Symbol::ListFindResult)),
    };
    let get_found = Expr::Access {
        record_var: t_find_result,
        ext_var: t_ext_var2,
        field: crate::types::FieldName::Found,
        field_var: t_found,
        record: Box::new(Expr::Var(Symbol::ListFindResult)),
    };
    let make_ok = tag(TagName::OkTag, vec![get_value], var_store);
    let make_err = err_tag(TagName::NotFound, var_store);
    let inspect = Expr::If {
        cond_var: t_bool,
        branch_var: t_ret,
        branches: vec![(get_found, make_ok)],
        final_else: Box::new(make_err),
    };
    let body = Expr::LetNonRec(Box::new(def0), Box::new(inspect), t_ret);
    let args = vec![(t_list, Symbol::Arg1), (t_pred_fn, Symbol::Arg2)];
    proof {
        assert(args@ =~= seq![(var_at(c), Symbol::Arg1), (var_at(c + 1), Symbol::Arg2)]);
    }
    defn(symbol, args, var_store, body, t_ret)
}

/// Bounds-checked first element (§4.3 idiom): non-emptiness guard, then
/// unchecked access at index zero.
pub open spec fn list_first_body_shape(c: int, e: Expr) -> bool {
    e matches Expr::If { cond_var, branch_var, branches, final_else }
        && cond_var == var_at(c)
        && branch_var == var_at(c + 4)
        && branches@.len() == 1
        && (branches@[0].0 matches Expr::RunLowLevel { op, args, ret_var }
            && op == LowLevel::ValueNotEq
            && ret_var == var_at(c)
            && args@.len() == 2
            && args@[0] == (nat_var(), Expr::Int(nat_var(), natural_var(), 0))
            && args@[1].0 == nat_var()
            && ll1(args@[1].1, LowLevel::ListLen, var_at(c + 1), Expr::Var(Symbol::Arg1), nat_var()))
        && tag_shape(
            branches@[0].1,
            TagName::OkTag,
            1,
            c + 5,
            |i: int, a: Expr| ll2(
                a,
                LowLevel::ListGetUnsafe,
                var_at(c + 1),
                Expr::Var(Symbol::Arg1),
                nat_var(),
                Expr::Int(nat_var(), natural_var(), 0),
                var_at(c + 2),
            ),
        )
        && wrapped_err_shape(*final_else, TagName::ListWasEmpty, c + 8)
}

pub open spec fn list_first_shape(d: Def, sym: Symbol, c: int) -> bool {
    defn_shape(
        d,
        sym,
        seq![(var_at(c + 1), Symbol::Arg1)],
        var_at(c + 3),
        c + 13,
        |e: Expr| list_first_body_shape(c, e),
    )
}

pub(crate) fn list_first(symbol: Symbol, var_store: &mut VarStore) -> (d: Def)
    requires
        old(var_store)@ + FRESH_BUDGET as int <= u32::MAX as int,
    ensures
        list_first_shape(d, symbol, old(var_store)@),
        final(var_store)@ == old(var_store)@ + 17,
{
    let ghost c = var_store@;
    let bool_var = var_store.fresh();
    let list_var = var_store.fresh();
    let list_elem_var = var_store.fresh();
    let ret_var = var_store.fresh();
    let branch_var = var_store.fresh();
    let len_var = Variable { id: VAR_NAT };
    let zero_precision_var = Variable { id: VAR_NATURAL };
    let len_call = Expr::RunLowLevel {
        op: LowLevel::ListLen,
        args: vec![(list_var, Expr::Var(Symbol::Arg1))],
        ret_var: len_var,
    };
    let guard = Expr::RunLowLevel {
        op: LowLevel::ValueNotEq,
        args: vec![
            (len_var, Expr::Int(len_var, zero_precision_var, 0)),
            (len_var, len_call),
        ],
        ret_var: bool_var,
    };
    let get_call = Expr::RunLowLevel {
        op: LowLevel::ListGetUnsafe,
        args: vec![
            (list_var, Expr::Var(Symbol::Arg1)),
            (len_var, Expr::Int(len_var, zero_precision_var, 0)),
        ],
        ret_var: list_elem_var,
    };
    let ok_branch = tag(TagName::OkTag, vec![get_call], var_store);
    let else_branch = err_tag(TagName::ListWasEmpty, var_store);
    let body = Expr::If {
        cond_var: bool_var,
        branch_var,
        branches: vec![(guard, ok_branch)],
        final_else: Box::new(else_branch),
    };
    let args = vec![(list_var, Symbol::Arg1)];
    proof {
        assert(args@ =~= seq![(var_at(c + 1), Symbol::Arg1)]);
    }
    defn(symbol, args, var_store, body, ret_var)
}

/// Bounds-checked last element (§4.3 idiom): non-emptiness guard, then
/// unchecked access at `length(Arg1) - 1`.
pub open spec fn list_last_body_shape(c: int, e: Expr) -> bool {
    e matches Expr::If { cond_var, branch_var, branches, final_else }
        && cond_var == var_at(c + 1)
        && branch_var == var_at(c + 5)
        && branches@.len() == 1
        && (branches@[0].0 matches Expr::RunLowLevel { op, args, ret_var }
            && op == LowLevel::ValueNotEq
            && ret_var == var_at(c + 1)
            && args@.len() == 2
            && args@[0] == (nat_var(), Expr::Int(nat_var(), natural_var(), 0))
            && args@[1].0 == nat_var()
            && ll1(args@[1].1, LowLevel::ListLen, var_at(c + 2), Expr::Var(Symbol::Arg1), nat_var()))
        && tag_shape(
            branches@[0].1,
            TagName::OkTag,
            1,
            c + 6,
            |i: int, a: Expr| a matches Expr::RunLowLevel { op, args, ret_var }
                && op == LowLevel::ListGetUnsafe
                && ret_var == var_at(c + 3)
                && args@.len() == 2
                && args@[0] == (var_at(c + 2), Expr::Var(Symbol::Arg1))
                && args@[1].0 == nat_var()
                && (args@[1].1 matches Expr::RunLowLevel { op: sop, args: sargs, ret_var: sret }
                    && sop == LowLevel::NumSubWrap
                    && sret == nat_var()
                    && sargs@.len() == 2
                    && sargs@[0].0 == var_at(c)
                    && ll1(sargs@[0].1, LowLevel::ListLen, var_at(c + 2), Expr::Var(Symbol::Arg1), nat_var())
                    && sargs@[1] == (var_at(c), Expr::Int(nat_var(), natural_var(), 1))),
        )
        && wrapped_err_shape(*final_else, TagName::ListWasEmpty, c + 9)
}

pub open spec fn list_last_shape(d: Def, sym: Symbol, c: int) -> bool {
    defn_shape(
        d,
        sym,
        seq![(var_at(c + 2), Symbol::Arg1)],
        var_at(c + 4),
        c + 14,
        |e: Expr| list_last_body_shape(c, e),
    )
}

pub(crate) fn list_last(symbol: Symbol, var_store: &mut VarStore) -> (d: Def)
    requires
        old(var_store)@ + FRESH_BUDGET as int <= u32::MAX as int,
    ensures
        list_last_shape(d, symbol, old(var_store)@),
        final(var_store)@ == old(var_store)@ + 18,
{
    let ghost c = var_store@;
    let arg_var = var_store.fresh();
    let bool_var = var_store.fresh();
    let list_var = var_store.fresh();
    let list_elem_var = var_store.fresh();
    let ret_var = var_store.fresh();
    let branch_var = var_store.fresh();
    let len_var = Variable { id: VAR_NAT };
    let num_precision_var = Variable { id: VAR_NATURAL };
    let guard_len_call = Expr::RunLowLevel {
        op: LowLevel::ListLen,
        args: vec![(list_var, Expr::Var(Symbol::Arg1))],
        ret_var: len_var,
    };
    let guard = Expr::RunLowLevel {
        op: LowLevel::ValueNotEq,
        args: vec![
            (len_var, Expr::Int(len_var, num_precision_var, 0)),
            (len_var, guard_len_call),
        ],
        ret_var: bool_var,
    };
    let inner_len_call = Expr::RunLowLevel {
        op: LowLevel::ListLen,
        args: vec![(list_var, Expr::Var(Symbol::Arg1))],
        ret_var: len_var,
    };
    let sub_call = Expr::RunLowLevel {
        op: LowLevel::NumSubWrap,
        args: vec![
            (arg_var, inner_len_call),
            (arg_var, Expr::Int(len_var, num_precision_var, 1)),
        ],
        ret_var: len_var,
    };
    let get_call = Expr::RunLowLevel {
        op: LowLevel::ListGetUnsafe,
        args: vec![(list_var, Expr::Var(Symbol::Arg1)), (len_var, sub_call)],
        ret_var: list_elem_var,
    };
    let ok_branch = tag(TagName::OkTag, vec![get_call], var_store);
    let else_branch = err_tag(TagName::ListWasEmpty, var_store);
    let body = Expr::If {
        cond_var: bool_var,
        branch_var,
        branches: vec![(guard, ok_branch)],
        final_else: Box::new(else_branch),
    };
    let args = vec![(list_var, Symbol::Arg1)];
    proof {
        assert(args@ =~= seq![(var_at(c + 2), Symbol::Arg1)]);
    }
    defn(symbol, args, var_store, body, ret_var)
}

} // verus!
