//! Synthesizers for the numeric builtins: passthrough arithmetic and
//! comparisons, overflow-checked arithmetic, guarded division and remainder,
//! domain-restricted math, byte decoding, and the numeric constants.

use vstd::prelude::*;
use crate::types::Annotation;
use crate::types::Def;
use crate::types::Expr;
use crate::types::FieldName;
use crate::types::LowLevel;
use crate::types::Pattern;
use crate::types::Symbol;
use crate::types::TagName;
use crate::types::VarStore;
use crate::types::Variable;
use crate::types::var_at;
use crate::builders::FRESH_BUDGET;
use crate::builders::access_shape;
use crate::builders::annotated_def_shape;
use crate::builders::binop_other_shape;
use crate::builders::binop_shape;
use crate::builders::const_def;
use crate::builders::const_def_shape;
use crate::builders::defn;
use crate::builders::defn_shape;
use crate::builders::err_tag;
use crate::builders::ll1;
use crate::builders::ll2;
use crate::builders::lowlevel_1;
use crate::builders::lowlevel_2;
use crate::builders::passthrough_shape;
use crate::builders::tag;
use crate::builders::tag_shape;
use crate::builders::unary_same_shape;
use crate::builders::wrapped_err_shape;

verus! {

/// Shared synthesizer for a symmetric numeric binary operation.
pub(crate) fn num_binop(symbol: Symbol, var_store: &mut VarStore, op: LowLevel) -> (d: Def)
    requires
        old(var_store)@ + FRESH_BUDGET as int <= u32::MAX as int,
    ensures
        binop_shape(d, symbol, op, old(var_store)@),
        final(var_store)@ == old(var_store)@ + 5,
{
    let ghost c = var_store@;
    let num_var = var_store.fresh();
    let body = Expr::RunLowLevel {
        op,
        args: vec![(num_var, Expr::Var(Symbol::Arg1)), (num_var, Expr::Var(Symbol::Arg2))],
        ret_var: num_var,
    };
    let args = vec![(num_var, Symbol::Arg1), (num_var, Symbol::Arg2)];
    proof {
        assert(args@ =~= seq![(var_at(c), Symbol::Arg1), (var_at(c), Symbol::Arg2)]);
    }
    defn(symbol, args, var_store, body, num_var)
}

/// Shared synthesizer for a numeric binary operation whose result type is
/// not the operand type (comparisons, three-way ordering).
pub(crate) fn num_num_other_binop(symbol: Symbol, var_store: &mut VarStore, op: LowLevel) -> (d: Def)
    requires
        old(var_store)@ + FRESH_BUDGET as int <= u32::MAX as int,
    ensures
        binop_other_shape(d, symbol, op, old(var_store)@),
        final(var_store)@ == old(var_store)@ + 6,
{
    let ghost c = var_store@;
    let num_var = var_store.fresh();
    let bool_var = var_store.fresh();
    let body = Expr::RunLowLevel {
        op,
        args: vec![(num_var, Expr::Var(Symbol::Arg1)), (num_var, Expr::Var(Symbol::Arg2))],
        ret_var: bool_var,
    };
    let args = vec![(num_var, Symbol::Arg1), (num_var, Symbol::Arg2)];
    proof {
        assert(args@ =~= seq![(var_at(c), Symbol::Arg1), (var_at(c), Symbol::Arg2)]);
    }
    defn(symbol, args, var_store, body, bool_var)
}

/// Shared synthesizer for a unary numeric operation whose argument and
/// result share one variable.
pub(crate) fn num_unop(symbol: Symbol, var_store: &mut VarStore, op: LowLevel) -> (d: Def)
    requires
        old(var_store)@ + FRESH_BUDGET as int <= u32::MAX as int,
    ensures
        unary_same_shape(d, symbol, op, old(var_store)@),
        final(var_store)@ == old(var_store)@ + 5,
{
    let ghost c = var_store@;
    let num_var = var_store.fresh();
    let body = Expr::RunLowLevel {
        op,
        args: vec![(num_var, Expr::Var(Symbol::Arg1))],
        ret_var: num_var,
    };
    let args = vec![(num_var, Symbol::Arg1)];
    proof {
        assert(args@ =~= seq![(var_at(c), Symbol::Arg1)]);
    }
    defn(symbol, args, var_store, body, num_var)
}

pub(crate) fn num_add(symbol: Symbol, var_store: &mut VarStore) -> (d: Def)
    requires
        old(var_store)@ + FRESH_BUDGET as int <= u32::MAX as int,
    ensures
        binop_shape(d, symbol, LowLevel::NumAdd, old(var_store)@),
        final(var_store)@ == old(var_store)@ + 5,
{
    num_binop(symbol, var_store, LowLevel::NumAdd)
}

pub(crate) fn num_add_wrap(symbol: Symbol, var_store: &mut VarStore) -> (d: Def)
    requires
        old(var_store)@ + FRESH_BUDGET as int <= u32::MAX as int,
    ensures
        binop_shape(d, symbol, LowLevel::NumAddWrap, old(var_store)@),
        final(var_store)@ == old(var_store)@ + 5,
{
    num_binop(symbol, var_store, LowLevel::NumAddWrap)
}

pub(crate) fn num_sub(symbol: Symbol, var_store: &mut VarStore) -> (d: Def)
    requires
        old(var_store)@ + FRESH_BUDGET as int <= u32::MAX as int,
    ensures
        binop_shape(d, symbol, LowLevel::NumSub, old(var_store)@),
        final(var_store)@ == old(var_store)@ + 5,
{
    num_binop(symbol, var_store, LowLevel::NumSub)
}

pub(crate) fn num_sub_wrap(symbol: Symbol, var_store: &mut VarStore) -> (d: Def)
    requires
        old(var_store)@ + FRESH_BUDGET as int <= u32::MAX as int,
    ensures
        binop_shape(d, symbol, LowLevel::NumSubWrap, old(var_store)@),
        final(var_store)@ == old(var_store)@ + 5,
{
    num_binop(symbol, var_store, LowLevel::NumSubWrap)
}

pub(crate) fn num_mul(symbol: Symbol, var_store: &mut VarStore) -> (d: Def)
    requires
        old(var_store)@ + FRESH_BUDGET as int <= u32::MAX as int,
    ensures
        binop_shape(d, symbol, LowLevel::NumMul, old(var_store)@),
        final(var_store)@ == old(var_store)@ + 5,
{
    num_binop(symbol, var_store, LowLevel::NumMul)
}

pub(crate) fn num_mul_wrap(symbol: Symbol, var_store: &mut VarStore) -> (d: Def)
    requires
        old(var_store)@ + FRESH_BUDGET as int <= u32::MAX as int,
    ensures
        binop_shape(d, symbol, LowLevel::NumMulWrap, old(var_store)@),
        final(var_store)@ == old(var_store)@ + 5,
{
    num_binop(symbol, var_store, LowLevel::NumMulWrap)
}

pub(crate) fn num_bitwise_and(symbol: Symbol, var_store: &mut VarStore) -> (d: Def)
    requires
        old(var_store)@ + FRESH_BUDGET as int <= u32::MAX as int,
    ensures
        binop_shape(d, symbol, LowLevel::NumBitwiseAnd, old(var_store)@),
        final(var_store)@ == old(var_store)@ + 5,
{
    num_binop(symbol, var_store, LowLevel::NumBitwiseAnd)
}

pub(crate) fn num_bitwise_xor(symbol: Symbol, var_store: &mut VarStore) -> (d: Def)
    requires
        old(var_store)@ + FRESH_BUDGET as int <= u32::MAX as int,
    ensures
        binop_shape(d, symbol, LowLevel::NumBitwiseXor, old(var_store)@),
        final(var_store)@ == old(var_store)@ + 5,
{
    num_binop(symbol, var_store, LowLevel::NumBitwiseXor)
}

pub(crate) fn num_bitwise_or(symbol: Symbol, var_store: &mut VarStore) -> (d: Def)
    requires
        old(var_store)@ + FRESH_BUDGET as int <= u32::MAX as int,
    ensures
        binop_shape(d, symbol, LowLevel::NumBitwiseOr, old(var_store)@),
        final(var_store)@ == old(var_store)@ + 5,
{
    num_binop(symbol, var_store, LowLevel::NumBitwiseOr)
}

/// Exponentiation keeps one variable for both operands and the result.
pub(crate) fn num_pow(symbol: Symbol, var_store: &mut VarStore) -> (d: Def)
    requires
        old(var_store)@ + FRESH_BUDGET as int <= u32::MAX as int,
    ensures
        binop_shape(d, symbol, LowLevel::NumPow, old(var_store)@),
        final(var_store)@ == old(var_store)@ + 5,
{
    num_binop(symbol, var_store, LowLevel::NumPow)
}

pub(crate) fn num_pow_int(symbol: Symbol, var_store: &mut VarStore) -> (d: Def)
    requires
        old(var_store)@ + FRESH_BUDGET as int <= u32::MAX as int,
    ensures
        binop_shape(d, symbol, LowLevel::NumPowInt, old(var_store)@),
        final(var_store)@ == old(var_store)@ + 5,
{
    num_binop(symbol, var_store, LowLevel::NumPowInt)
}

pub(crate) fn num_gt(symbol: Symbol, var_store: &mut VarStore) -> (d: Def)
    requires
        old(var_store)@ + FRESH_BUDGET as int <= u32::MAX as int,
    ensures
        binop_other_shape(d, symbol, LowLevel::NumGt, old(var_store)@),
        final(var_store)@ == old(var_store)@ + 6,
{
    num_num_other_binop(symbol, var_store, LowLevel::NumGt)
}

pub(crate) fn num_gte(symbol: Symbol, var_store: &mut VarStore) -> (d: Def)
    requires
        old(var_store)@ + FRESH_BUDGET as int <= u32::MAX as int,
    ensures
        binop_other_shape(d, symbol, LowLevel::NumGte, old(var_store)@),
        final(var_store)@ == old(var_store)@ + 6,
{
    num_num_other_binop(symbol, var_store, LowLevel::NumGte)
}

pub(crate) fn num_lt(symbol: Symbol, var_store: &mut VarStore) -> (d: Def)
    requires
        old(var_store)@ + FRESH_BUDGET as int <= u32::MAX as int,
    ensures
        binop_other_shape(d, symbol, LowLevel::NumLt, old(var_store)@),
        final(var_store)@ == old(var_store)@ + 6,
{
    num_num_other_binop(symbol, var_store, LowLevel::NumLt)
}

pub(crate) fn num_lte(symbol: Symbol, var_store: &mut VarStore) -> (d: Def)
    requires
        old(var_store)@ + FRESH_BUDGET as int <= u32::MAX as int,
    ensures
        binop_other_shape(d, symbol, LowLevel::NumLte, old(var_store)@),
        final(var_store)@ == old(var_store)@ + 6,
{
    num_num_other_binop(symbol, var_store, LowLevel::NumLte)
}

pub(crate) fn num_compare(symbol: Symbol, var_store: &mut VarStore) -> (d: Def)
    requires
        old(var_store)@ + FRESH_BUDGET as int <= u32::MAX as int,
    ensures
        binop_other_shape(d, symbol, LowLevel::NumCompare, old(var_store)@),
        final(var_store)@ == old(var_store)@ + 6,
{
    num_num_other_binop(symbol, var_store, LowLevel::NumCompare)
}

pub(crate) fn num_sin(symbol: Symbol, var_store: &mut VarStore) -> (d: Def)
    requires
        old(var_store)@ + FRESH_BUDGET as int <= u32::MAX as int,
    ensures
        unary_same_shape(d, symbol, LowLevel::NumSin, old(var_store)@),
        final(var_store)@ == old(var_store)@ + 5,
{
    num_unop(symbol, var_store, LowLevel::NumSin)
}

pub(crate) fn num_cos(symbol: Symbol, var_store: &mut VarStore) -> (d: Def)
    requires
        old(var_store)@ + FRESH_BUDGET as int <= u32::MAX as int,
    ensures
        unary_same_shape(d, symbol, LowLevel::NumCos, old(var_store)@),
        final(var_store)@ == old(var_store)@ + 5,
{
    num_unop(symbol, var_store, LowLevel::NumCos)
}

pub(crate) fn num_neg(symbol: Symbol, var_store: &mut VarStore) -> (d: Def)
    requires
        old(var_store)@ + FRESH_BUDGET as int <= u32::MAX as int,
    ensures
        unary_same_shape(d, symbol, LowLevel::NumNeg, old(var_store)@),
        final(var_store)@ == old(var_store)@ + 5,
{
    num_unop(symbol, var_store, LowLevel::NumNeg)
}

pub(crate) fn num_abs(symbol: Symbol, var_store: &mut VarStore) -> (d: Def)
    requires
        old(var_store)@ + FRESH_BUDGET as int <= u32::MAX as int,
    ensures
        unary_same_shape(d, symbol, LowLevel::NumAbs, old(var_store)@),
        final(var_store)@ == old(var_store)@ + 5,
{
    num_unop(symbol, var_store, LowLevel::NumAbs)
}

pub(crate) fn num_round(symbol: Symbol, var_store: &mut VarStore) -> (d: Def)
    requires
        old(var_store)@ + FRESH_BUDGET as int <= u32::MAX as int,
    ensures
        passthrough_shape(d, symbol, LowLevel::NumRound, 1, old(var_store)@),
        final(var_store)@ == old(var_store)@ + 6,
{
    lowlevel_1(symbol, LowLevel::NumRound, var_store)
}

pub(crate) fn num_ceiling(symbol: Symbol, var_store: &mut VarStore) -> (d: Def)
    requires
        old(var_store)@ + FRESH_BUDGET as int <= u32::MAX as int,
    ensures
        passthrough_shape(d, symbol, LowLevel::NumCeiling, 1, old(var_store)@),
        final(var_store)@ == old(var_store)@ + 6,
{
    lowlevel_1(symbol, LowLevel::NumCeiling, var_store)
}

pub(crate) fn num_floor(symbol: Symbol, var_store: &mut VarStore) -> (d: Def)
    requires
        old(var_store)@ + FRESH_BUDGET as int <= u32::MAX as int,
    ensures
        passthrough_shape(d, symbol, LowLevel::NumFloor, 1, old(var_store)@),
        final(var_store)@ == old(var_store)@ + 6,
{
    lowlevel_1(symbol, LowLevel::NumFloor, var_store)
}

pub(crate) fn num_atan(symbol: Symbol, var_store: &mut VarStore) -> (d: Def)
    requires
        old(var_store)@ + FRESH_BUDGET as int <= u32::MAX as int,
    ensures
        passthrough_shape(d, symbol, LowLevel::NumAtan, 1, old(var_store)@),
        final(var_store)@ == old(var_store)@ + 6,
{
    lowlevel_1(symbol, LowLevel::NumAtan, var_store)
}

pub(crate) fn num_acos(symbol: Symbol, var_store: &mut VarStore) -> (d: Def)
    requires
        old(var_store)@ + FRESH_BUDGET as int <= u32::MAX as int,
    ensures
        passthrough_shape(d, symbol, LowLevel::NumAcos, 1, old(var_store)@),
        final(var_store)@ == old(var_store)@ + 6,
{
    lowlevel_1(symbol, LowLevel::NumAcos, var_store)
}

pub(crate) fn num_asin(symbol: Symbol, var_store: &mut VarStore) -> (d: Def)
    requires
        old(var_store)@ + FRESH_BUDGET as int <= u32::MAX as int,
    ensures
        passthrough_shape(d, symbol, LowLevel::NumAsin, 1, old(var_store)@),
        final(var_store)@ == old(var_store)@ + 6,
{
    lowlevel_1(symbol, LowLevel::NumAsin, var_store)
}

pub(crate) fn num_to_float(symbol: Symbol, var_store: &mut VarStore) -> (d: Def)
    requires
        old(var_store)@ + FRESH_BUDGET as int <= u32::MAX as int,
    ensures
        passthrough_shape(d, symbol, LowLevel::NumToFloat, 1, old(var_store)@),
        final(var_store)@ == old(var_store)@ + 6,
{
    lowlevel_1(symbol, LowLevel::NumToFloat, var_store)
}

pub(crate) fn num_int_cast(symbol: Symbol, var_store: &mut VarStore) -> (d: Def)
    requires
        old(var_store)@ + FRESH_BUDGET as int <= u32::MAX as int,
    ensures
        passthrough_shape(d, symbol, LowLevel::NumIntCast, 1, old(var_store)@),
        final(var_store)@ == old(var_store)@ + 6,
{
    lowlevel_1(symbol, LowLevel::NumIntCast, var_store)
}

pub(crate) fn num_shift_left_by(symbol: Symbol, var_store: &mut VarStore) -> (d: Def)
    requires
        old(var_store)@ + FRESH_BUDGET as int <= u32::MAX as int,
    ensures
        passthrough_shape(d, symbol, LowLevel::NumShiftLeftBy, 2, old(var_store)@),
        final(var_store)@ == old(var_store)@ + 7,
{
    lowlevel_2(symbol, LowLevel::NumShiftLeftBy, var_store)
}

pub(crate) fn num_shift_right_by(symbol: Symbol, var_store: &mut VarStore) -> (d: Def)
    requires
        old(var_store)@ + FRESH_BUDGET as int <= u32::MAX as int,
    ensures
        passthrough_shape(d, symbol, LowLevel::NumShiftRightBy, 2, old(var_store)@),
        final(var_store)@ == old(var_store)@ + 7,
{
    lowlevel_2(symbol, LowLevel::NumShiftRightBy, var_store)
}

pub(crate) fn num_shift_right_zf_by(symbol: Symbol, var_store: &mut VarStore) -> (d: Def)
    requires
        old(var_store)@ + FRESH_BUDGET as int <= u32::MAX as int,
    ensures
        passthrough_shape(d, symbol, LowLevel::NumShiftRightZfBy, 2, old(var_store)@),
        final(var_store)@ == old(var_store)@ + 7,
{
    lowlevel_2(symbol, LowLevel::NumShiftRightZfBy, var_store)
}

pub(crate) fn num_is_multiple_of(symbol: Symbol, var_store: &mut VarStore) -> (d: Def)
    requires
        old(var_store)@ + FRESH_BUDGET as int <= u32::MAX as int,
    ensures
        passthrough_shape(d, symbol, LowLevel::NumIsMultipleOf, 2, old(var_store)@),
        final(var_store)@ == old(var_store)@ + 7,
{
    lowlevel_2(symbol, LowLevel::NumIsMultipleOf, var_store)
}

/// Body of an overflow-checked arithmetic builtin (§4.3 idiom): bind the
/// opcode's (value, overflow-flag) record, guard on the flag, return
/// `Err(Overflow)` or `Ok(value)`.
pub open spec fn overflow_checked_body_shape(op: LowLevel, c: int, e: Expr) -> bool {
    e matches Expr::LetNonRec(def0, cont, ret)
        && ret == var_at(c + 4)
        && (*def0).pattern == Pattern::Identifier(Symbol::Arg3)
        && (*def0).expr_var == var_at(c + 5)
        && (*def0).pattern_vars@.len() == 0
        && (*def0).annotation is None
        && ll2(
            (*def0).body,
            op,
            var_at(c + 1),
            Expr::Var(Symbol::Arg1),
            var_at(c + 2),
            Expr::Var(Symbol::Arg2),
            var_at(c + 5),
        )
        && (*cont matches Expr::If { cond_var, branch_var, branches, final_else }
            && cond_var == var_at(c)
            && branch_var == var_at(c + 4)
            && branches@.len() == 1
            && access_shape(
                branches@[0].0,
                var_at(c + 5),
                var_at(c + 6),
                FieldName::B,
                var_at(c + 7),
                Symbol::Arg3,
            )
            && wrapped_err_shape(branches@[0].1, TagName::Overflow, c + 8)
            && tag_shape(
                *final_else,
                TagName::OkTag,
                1,
                c + 14,
                |i: int, a: Expr| access_shape(
                    a,
                    var_at(c + 5),
                    var_at(c + 13),
                    FieldName::A,
                    var_at(c + 3),
                    Symbol::Arg3,
                ),
            ))
}

/// An overflow-checked arithmetic definition.
pub open spec fn overflow_checked_shape(d: Def, sym: Symbol, op: LowLevel, c: int) -> bool {
    defn_shape(
        d,
        sym,
        seq![(var_at(c + 1), Symbol::Arg1), (var_at(c + 2), Symbol::Arg2)],
        var_at(c + 4),
        c + 17,
        |e: Expr| overflow_checked_body_shape(op, c, e),
    )
}

/// Shared synthesizer for checked addition, subtraction and multiplication:
/// the generic overflow wrapper over a checked opcode.
pub(crate) fn num_overflow_checked(symbol: Symbol, var_store: &mut VarStore, lowlevel: LowLevel) -> (d: Def)
    requires
        old(var_store)@ + FRESH_BUDGET as int <= u32::MAX as int,
    ensures
        overflow_checked_shape(d, symbol, lowlevel, old(var_store)@),
        final(var_store)@ == old(var_store)@ + 21,
{
    let ghost c = var_store@;
    let bool_var = var_store.fresh();
    let num_var_1 = var_store.fresh();
    let num_var_2 = var_store.fresh();
    let num_var_3 = var_store.fresh();
    let ret_var = var_store.fresh();
    let record_var = var_store.fresh();

    let guard_ext = var_store.fresh();
    let guard_field = var_store.fresh();
    let guard = Expr::Access {
        record_var,
        ext_var: guard_ext,
        field: FieldName::B,
        field_var: guard_field,
        record: Box::new(Expr::Var(Symbol::Arg3)),
    };
    let overflow_err = err_tag(TagName::Overflow, var_store);
    let ok_ext = var_store.fresh();
    let ok_payload = Expr::Access {
        record_var,
        ext_var: ok_ext,
        field: FieldName::A,
        field_var: num_var_3,
        record: Box::new(Expr::Var(Symbol::Arg3)),
    };
    let ok_branch = tag(TagName::OkTag, vec![ok_payload], var_store);
    let cont = Expr::If {
        cond_var: bool_var,
        branch_var: ret_var,
        branches: vec![(guard, overflow_err)],
        final_else: Box::new(ok_branch),
    };
    let def0 = Def {
        pattern: Pattern::Identifier(Symbol::Arg3),
        body: Expr::RunLowLevel {
            op: lowlevel,
            args: vec![(num_var_1, Expr::Var(Symbol::Arg1)), (num_var_2, Expr::Var(Symbol::Arg2))],
            ret_var: record_var,
        },
        expr_var: record_var,
        pattern_vars: Vec::new(),
        annotation: None,
    };
    let body = Expr::LetNonRec(Box::new(def0), Box::new(cont), ret_var);
    let args = vec![(num_var_1, Symbol::Arg1), (num_var_2, Symbol::Arg2)];
    proof {
        assert(args@ =~= seq![(var_at(c + 1), Symbol::Arg1), (var_at(c + 2), Symbol::Arg2)]);
    }
    defn(symbol, args, var_store, body, ret_var)
}

pub(crate) fn num_add_checked(symbol: Symbol, var_store: &mut VarStore) -> (d: Def)
    requires
        old(var_store)@ + FRESH_BUDGET as int <= u32::MAX as int,
    ensures
        overflow_checked_shape(d, symbol, LowLevel::NumAddChecked, old(var_store)@),
        final(var_store)@ == old(var_store)@ + 21,
{
    num_overflow_checked(symbol, var_store, LowLevel::NumAddChecked)
}

pub(crate) fn num_sub_checked(symbol: Symbol, var_store: &mut VarStore) -> (d: Def)
    requires
        old(var_store)@ + FRESH_BUDGET as int <= u32::MAX as int,
    ensures
        overflow_checked_shape(d, symbol, LowLevel::NumSubChecked, old(var_store)@),
        final(var_store)@ == old(var_store)@ + 21,
{
    num_overflow_checked(symbol, var_store, LowLevel::NumSubChecked)
}

pub(crate) fn num_mul_checked(symbol: Symbol, var_store: &mut VarStore) -> (d: Def)
    requires
        old(var_store)@ + FRESH_BUDGET as int <= u32::MAX as int,
    ensures
        overflow_checked_shape(d, symbol, LowLevel::NumMulChecked, old(var_store)@),
        final(var_store)@ == old(var_store)@ + 21,
{
    num_overflow_checked(symbol, var_store, LowLevel::NumMulChecked)
}

/// Body of the division-like builtins (§4.3 idiom, kept distinct from the
/// overflow wrapper): guard `denominator ≠ zero-literal`, then
/// `Ok(unchecked op)` else `Err(DivByZero)`.
pub open spec fn div_like_body_shape(op: LowLevel, zero: Expr, c: int, e: Expr) -> bool {
    e matches Expr::If { cond_var, branch_var, branches, final_else }
        && cond_var == var_at(c)
        && branch_var == var_at(c + 4)
        && branches@.len() == 1
        && ll2(
            branches@[0].0,
            LowLevel::ValueNotEq,
            var_at(c + 1),
            Expr::Var(Symbol::Arg2),
            var_at(c + 1),
            zero,
            var_at(c),
        )
        && tag_shape(
            branches@[0].1,
            TagName::OkTag,
            1,
            c + 5,
            |i: int, a: Expr| ll2(
                a,
                op,
                var_at(c + 1),
                Expr::Var(Symbol::Arg1),
                var_at(c + 1),
                Expr::Var(Symbol::Arg2),
                var_at(c + 1),
            ),
        )
        && wrapped_err_shape(*final_else, TagName::DivByZero, c + 8)
}

/// A division-like definition: both operands share one variable.
pub open spec fn div_like_shape(d: Def, sym: Symbol, op: LowLevel, zero: Expr, c: int) -> bool {
    defn_shape(
        d,
        sym,
        seq![(var_at(c + 1), Symbol::Arg1), (var_at(c + 1), Symbol::Arg2)],
        var_at(c + 4),
        c + 13,
        |e: Expr| div_like_body_shape(op, zero, c, e),
    )
}

/// Shared synthesizer for the three division builtins; the denominator is
/// compared against a float or integer zero literal as requested.
fn num_div_like(symbol: Symbol, var_store: &mut VarStore, op: LowLevel, float_zero: bool) -> (d: Def)
    requires
        old(var_store)@ + FRESH_BUDGET as int <= u32::MAX as int,
    ensures
        div_like_shape(
            d,
            symbol,
            op,
            if float_zero {
                Expr::Float(var_at(old(var_store)@ + 2), var_at(old(var_store)@ + 3), 0)
            } else {
                Expr::Int(var_at(old(var_store)@ + 2), var_at(old(var_store)@ + 3), 0)
            },
            old(var_store)@,
        ),
        final(var_store)@ == old(var_store)@ + 17,
{
    let ghost c = var_store@;
    let bool_var = var_store.fresh();
    let num_var = var_store.fresh();
    let unbound_zero_var = var_store.fresh();
    let precision_var = var_store.fresh();
    let ret_var = var_store.fresh();
    let zero = if float_zero {
        Expr::Float(unbound_zero_var, precision_var, 0)
    } else {
        Expr::Int(unbound_zero_var, precision_var, 0)
    };
    let guard = Expr::RunLowLevel {
        op: LowLevel::ValueNotEq,
        args: vec![(num_var, Expr::Var(Symbol::Arg2)), (num_var, zero)],
        ret_var: bool_var,
    };
    let ok_call = Expr::RunLowLevel {
        op,
        args: vec![(num_var, Expr::Var(Symbol::Arg1)), (num_var, Expr::Var(Symbol::Arg2))],
        ret_var: num_var,
    };
    let ok_branch = tag(TagName::OkTag, vec![ok_call], var_store);
    let else_branch = err_tag(TagName::DivByZero, var_store);
    let body = Expr::If {
        cond_var: bool_var,
        branch_var: ret_var,
        branches: vec![(guard, ok_branch)],
        final_else: Box::new(else_branch),
    };
    let args = vec![(num_var, Symbol::Arg1), (num_var, Symbol::Arg2)];
    proof {
        assert(args@ =~= seq![(var_at(c + 1), Symbol::Arg1), (var_at(c + 1), Symbol::Arg2)]);
    }
    defn(symbol, args, var_store, body, ret_var)
}

pub(crate) fn num_div_float(symbol: Symbol, var_store: &mut VarStore) -> (d: Def)
    requires
        old(var_store)@ + FRESH_BUDGET as int <= u32::MAX as int,
    ensures
        div_like_shape(
            d,
            symbol,
            LowLevel::NumDivUnchecked,
            Expr::Float(var_at(old(var_store)@ + 2), var_at(old(var_store)@ + 3), 0),
            old(var_store)@,
        ),
        final(var_store)@ == old(var_store)@ + 17,
{
    num_div_like(symbol, var_store, LowLevel::NumDivUnchecked, true)
}

pub(crate) fn num_div_int(symbol: Symbol, var_store: &mut VarStore) -> (d: Def)
    requires
        old(var_store)@ + FRESH_BUDGET as int <= u32::MAX as int,
    ensures
        div_like_shape(
            d,
            symbol,
            LowLevel::NumDivUnchecked,
            Expr::Int(var_at(old(var_store)@ + 2), var_at(old(var_store)@ + 3), 0),
            old(var_store)@,
        ),
        final(var_store)@ == old(var_store)@ + 17,
{
    num_div_like(symbol, var_store, LowLevel::NumDivUnchecked, false)
}

pub(crate) fn num_div_ceil(symbol: Symbol, var_store: &mut VarStore) -> (d: Def)
    requires
        old(var_store)@ + FRESH_BUDGET as int <= u32::MAX as int,
    ensures
        div_like_shape(
            d,
            symbol,
            LowLevel::NumDivCeilUnchecked,
            Expr::Int(var_at(old(var_store)@ + 2), var_at(old(var_store)@ + 3), 0),
            old(var_store)@,
        ),
        final(var_store)@ == old(var_store)@ + 17,
{
    num_div_like(symbol, var_store, LowLevel::NumDivCeilUnchecked, false)
}

/// Body of the remainder builtin: like division, but the operand variable is
/// minted first and the zero literal is a width-unresolved number.
pub open spec fn num_rem_body_shape(c: int, e: Expr) -> bool {
    e matches Expr::If { cond_var, branch_var, branches, final_else }
        && cond_var == var_at(c + 2)
        && branch_var == var_at(c + 3)
        && branches@.len() == 1
        && ll2(
            branches@[0].0,
            LowLevel::ValueNotEq,
            var_at(c),
            Expr::Var(Symbol::Arg2),
            var_at(c),
            Expr::Num(var_at(c + 1), 0),
            var_at(c + 2),
        )
        && tag_shape(
            branches@[0].1,
            TagName::OkTag,
            1,
            c + 4,
            |i: int, a: Expr| ll2(
                a,
                LowLevel::NumRemUnchecked,
                var_at(c),
                Expr::Var(Symbol::Arg1),
                var_at(c),
                Expr::Var(Symbol::Arg2),
                var_at(c),
            ),
        )
        && wrapped_err_shape(*final_else, TagName::DivByZero, c + 7)
}

/// The remainder definition.
pub open spec fn num_rem_shape(d: Def, sym: Symbol, c: int) -> bool {
    defn_shape(
        d,
        sym,
        seq![(var_at(c), Symbol::Arg1), (var_at(c), Symbol::Arg2)],
        var_at(c + 3),
        c + 12,
        |e: Expr| num_rem_body_shape(c, e),
    )
}

pub(crate) fn num_rem(symbol: Symbol, var_store: &mut VarStore) -> (d: Def)
    requires
        old(var_store)@ + FRESH_BUDGET as int <= u32::MAX as int,
    ensures
        num_rem_shape(d, symbol, old(var_store)@),
        final(var_store)@ == old(var_store)@ + 16,
{
    let ghost c = var_store@;
    let num_var = var_store.fresh();
    let unbound_zero_var = var_store.fresh();
    let bool_var = var_store.fresh();
    let ret_var = var_store.fresh();
    let guard = Expr::RunLowLevel {
        op: LowLevel::ValueNotEq,
        args: vec![
            (num_var, Expr::Var(Symbol::Arg2)),
            (num_var, Expr::Num(unbound_zero_var, 0)),
        ],
        ret_var: bool_var,
    };
    let ok_call = Expr::RunLowLevel {
        op: LowLevel::NumRemUnchecked,
        args: vec![(num_var, Expr::Var(Symbol::Arg1)), (num_var, Expr::Var(Symbol::Arg2))],
        ret_var: num_var,
    };
    let ok_branch = tag(TagName::OkTag, vec![ok_call], var_store);
    let else_branch = err_tag(TagName::DivByZero, var_store);
    let body = Expr::If {
        cond_var: bool_var,
        branch_var: ret_var,
        branches: vec![(guard, ok_branch)],
        final_else: Box::new(else_branch),
    };
    let args = vec![(num_var, Symbol::Arg1), (num_var, Symbol::Arg2)];
    proof {
        assert(args@ =~= seq![(var_at(c), Symbol::Arg1), (var_at(c), Symbol::Arg2)]);
    }
    defn(symbol, args, var_store, body, ret_var)
}

/// Body of a domain-restricted unary float builtin: guard the argument
/// against a zero literal, then `Ok(unchecked op)` else the domain error.
pub open spec fn guarded_unary_body_shape(
    guard_op: LowLevel,
    op: LowLevel,
    problem: TagName,
    c: int,
    e: Expr,
) -> bool {
    e matches Expr::If { cond_var, branch_var, branches, final_else }
        && cond_var == var_at(c)
        && branch_var == var_at(c + 4)
        && branches@.len() == 1
        && ll2(
            branches@[0].0,
            guard_op,
            var_at(c + 1),
            Expr::Var(Symbol::Arg1),
            var_at(c + 1),
            Expr::Float(var_at(c + 2), var_at(c + 3), 0),
            var_at(c),
        )
        && tag_shape(
            branches@[0].1,
            TagName::OkTag,
            1,
            c + 5,
            |i: int, a: Expr| ll1(a, op, var_at(c + 1), Expr::Var(Symbol::Arg1), var_at(c + 1)),
        )
        && wrapped_err_shape(*final_else, problem, c + 8)
}

/// A domain-restricted unary float definition.
pub open spec fn guarded_unary_shape(
    d: Def,
    sym: Symbol,
    guard_op: LowLevel,
    op: LowLevel,
    problem: TagName,
    c: int,
) -> bool {
    defn_shape(
        d,
        sym,
        seq![(var_at(c + 1), Symbol::Arg1)],
        var_at(c + 4),
        c + 13,
        |e: Expr| guarded_unary_body_shape(guard_op, op, problem, c, e),
    )
}

/// Shared synthesizer for square root and logarithm.
fn num_guarded_unary(
    symbol: Symbol,
    var_store: &mut VarStore,
    guard_op: LowLevel,
    op: LowLevel,
    problem: TagName,
) -> (d: Def)
    requires
        old(var_store)@ + FRESH_BUDGET as int <= u32::MAX as int,
    ensures
        guarded_unary_shape(d, symbol, guard_op, op, problem, old(var_store)@),
        final(var_store)@ == old(var_store)@ + 17,
{
    let ghost c = var_store@;
    let bool_var = var_store.fresh();
    let float_var = var_store.fresh();
    let unbound_zero_var = var_store.fresh();
    let precision_var = var_store.fresh();
    let ret_var = var_store.fresh();
    let guard = Expr::RunLowLevel {
        op: guard_op,
        args: vec![
            (float_var, Expr::Var(Symbol::Arg1)),
            (float_var, Expr::Float(unbound_zero_var, precision_var, 0)),
        ],
        ret_var: bool_var,
    };
    let ok_call = Expr::RunLowLevel {
        op,
        args: vec![(float_var, Expr::Var(Symbol::Arg1))],
        ret_var: float_var,
    };
    let ok_branch = tag(TagName::OkTag, vec![ok_call], var_store);
    let else_branch = err_tag(problem, var_store);
    let body = Expr::If {
        cond_var: bool_var,
        branch_var: ret_var,
        branches: vec![(guard, ok_branch)],
        final_else: Box::new(else_branch),
    };
    let args = vec![(float_var, Symbol::Arg1)];
    proof {
        assert(args@ =~= seq![(var_at(c + 1), Symbol::Arg1)]);
    }
    defn(symbol, args, var_store, body, ret_var)
}

pub(crate) fn num_sqrt(symbol: Symbol, var_store: &mut VarStore) -> (d: Def)
    requires
        old(var_store)@ + FRESH_BUDGET as int <= u32::MAX as int,
    ensures
        guarded_unary_shape(
            d,
            symbol,
            LowLevel::NumGte,
            LowLevel::NumSqrtUnchecked,
            TagName::SqrtOfNegative,
            old(var_store)@,
        ),
        final(var_store)@ == old(var_store)@ + 17,
{
    num_guarded_unary(
        symbol,
        var_store,
        LowLevel::NumGte,
        LowLevel::NumSqrtUnchecked,
        TagName::SqrtOfNegative,
    )
}

pub(crate) fn num_log(symbol: Symbol, var_store: &mut VarStore) -> (d: Def)
    requires
        old(var_store)@ + FRESH_BUDGET as int <= u32::MAX as int,
    ensures
        guarded_unary_shape(
            d,
            symbol,
            LowLevel::NumGt,
            LowLevel::NumLogUnchecked,
            TagName::LogNeedsPositive,
            old(var_store)@,
        ),
        final(var_store)@ == old(var_store)@ + 17,
{
    num_guarded_unary(
        symbol,
        var_store,
        LowLevel::NumGt,
        LowLevel::NumLogUnchecked,
        TagName::LogNeedsPositive,
    )
}

/// A unary predicate comparing the argument against a number literal.
pub open spec fn unary_cmp_shape(
    d: Def,
    sym: Symbol,
    op: LowLevel,
    x1: (Variable, Expr),
    x2: (Variable, Expr),
    c: int,
) -> bool {
    defn_shape(
        d,
        sym,
        seq![(var_at(c), Symbol::Arg1)],
        var_at(c + 1),
        c + 3,
        |e: Expr| ll2(e, op, x1.0, x1.1, x2.0, x2.1, var_at(c + 1)),
    )
}

pub(crate) fn num_is_zero(symbol: Symbol, var_store: &mut VarStore) -> (d: Def)
    requires
        old(var_store)@ + FRESH_BUDGET as int <= u32::MAX as int,
    ensures
        unary_cmp_shape(
            d,
            symbol,
            LowLevel::ValueEq,
            (var_at(old(var_store)@), Expr::Var(Symbol::Arg1)),
            (var_at(old(var_store)@), Expr::Num(var_at(old(var_store)@ + 2), 0)),
            old(var_store)@,
        ),
        final(var_store)@ == old(var_store)@ + 7,
{
    let ghost c = var_store@;
    let arg_var = var_store.fresh();
    let bool_var = var_store.fresh();
    let unbound_zero_var = var_store.fresh();
    let body = Expr::RunLowLevel {
        op: LowLevel::ValueEq,
        args: vec![
            (arg_var, Expr::Var(Symbol::Arg1)),
            (arg_var, Expr::Num(unbound_zero_var, 0)),
        ],
        ret_var: bool_var,
    };
    let args = vec![(arg_var, Symbol::Arg1)];
    proof {
        assert(args@ =~= seq![(var_at(c), Symbol::Arg1)]);
    }
    defn(symbol, args, var_store, body, bool_var)
}

pub(crate) fn num_is_negative(symbol: Symbol, var_store: &mut VarStore) -> (d: Def)
    requires
        old(var_store)@ + FRESH_BUDGET as int <= u32::MAX as int,
    ensures
        unary_cmp_shape(
            d,
            symbol,
            LowLevel::NumGt,
            (var_at(old(var_store)@), Expr::Num(var_at(old(var_store)@ + 2), 0)),
            (var_at(old(var_store)@), Expr::Var(Symbol::Arg1)),
            old(var_store)@,
        ),
        final(var_store)@ == old(var_store)@ + 7,
{
    let ghost c = var_store@;
    let arg_var = var_store.fresh();
    let bool_var = var_store.fresh();
    let unbound_zero_var = var_store.fresh();
    let body = Expr::RunLowLevel {
        op: LowLevel::NumGt,
        args: vec![
            (arg_var, Expr::Num(unbound_zero_var, 0)),
            (arg_var, Expr::Var(Symbol::Arg1)),
        ],
        ret_var: bool_var,
    };
    let args = vec![(arg_var, Symbol::Arg1)];
    proof {
        assert(args@ =~= seq![(var_at(c), Symbol::Arg1)]);
    }
    defn(symbol, args, var_store, body, bool_var)
}

pub(crate) fn num_is_positive(symbol: Symbol, var_store: &mut VarStore) -> (d: Def)
    requires
        old(var_store)@ + FRESH_BUDGET as int <= u32::MAX as int,
    ensures
        unary_cmp_shape(
            d,
            symbol,
            LowLevel::NumGt,
            (var_at(old(var_store)@), Expr::Var(Symbol::Arg1)),
            (var_at(old(var_store)@), Expr::Num(var_at(old(var_store)@ + 2), 0)),
            old(var_store)@,
        ),
        final(var_store)@ == old(var_store)@ + 7,
{
    let ghost c = var_store@;
    let arg_var = var_store.fresh();
    let bool_var = var_store.fresh();
    let unbound_zero_var = var_store.fresh();
    let body = Expr::RunLowLevel {
        op: LowLevel::NumGt,
        args: vec![
            (arg_var, Expr::Var(Symbol::Arg1)),
            (arg_var, Expr::Num(unbound_zero_var, 0)),
        ],
        ret_var: bool_var,
    };
    let args = vec![(arg_var, Symbol::Arg1)];
    proof {
        assert(args@ =~= seq![(var_at(c), Symbol::Arg1)]);
    }
    defn(symbol, args, var_store, body, bool_var)
}

/// Body of the oddness test: `1 == Arg1 % 2`, the remainder taken with the
/// unchecked opcode and the literal `1` given integer type variables.
pub open spec fn num_is_odd_body_shape(c: int, e: Expr) -> bool {
    e matches Expr::RunLowLevel { op, args, ret_var }
        && op == LowLevel::ValueEq
        && ret_var == var_at(c + 1)
        && args@.len() == 2
        && args@[0] == (var_at(c), Expr::Int(var_at(c + 3), var_at(c + 4), 1))
        && args@[1].0 == var_at(c)
        && ll2(
            args@[1].1,
            LowLevel::NumRemUnchecked,
            var_at(c),
            Expr::Var(Symbol::Arg1),
            var_at(c),
            Expr::Num(var_at(c + 2), 2),
            var_at(c),
        )
}

pub open spec fn num_is_odd_shape(d: Def, sym: Symbol, c: int) -> bool {
    defn_shape(
        d,
        sym,
        seq![(var_at(c), Symbol::Arg1)],
        var_at(c + 1),
        c + 5,
        |e: Expr| num_is_odd_body_shape(c, e),
    )
}

pub(crate) fn num_is_odd(symbol: Symbol, var_store: &mut VarStore) -> (d: Def)
    requires
        old(var_store)@ + FRESH_BUDGET as int <= u32::MAX as int,
    ensures
        num_is_odd_shape(d, symbol, old(var_store)@),
        final(var_store)@ == old(var_store)@ + 9,
{
    let ghost c = var_store@;
    let arg_var = var_store.fresh();
    let bool_var = var_store.fresh();
    let unbound_two_var = var_store.fresh();
    let one_var = var_store.fresh();
    let one_precision_var = var_store.fresh();
    let rem_call = Expr::RunLowLevel {
        op: LowLevel::NumRemUnchecked,
        args: vec![
            (arg_var, Expr::Var(Symbol::Arg1)),
            (arg_var, Expr::Num(unbound_two_var, 2)),
        ],
        ret_var: arg_var,
    };
    let body = Expr::RunLowLevel {
        op: LowLevel::ValueEq,
        args: vec![
            (arg_var, Expr::Int(one_var, one_precision_var, 1)),
            (arg_var, rem_call),
        ],
        ret_var: bool_var,
    };
    let args = vec![(arg_var, Symbol::Arg1)];
    proof {
        assert(args@ =~= seq![(var_at(c), Symbol::Arg1)]);
    }
    defn(symbol, args, var_store, body, bool_var)
}

/// Body of the evenness test: `0 == Arg1 % 2`, both literals sharing one
/// width-unresolved number variable.
pub open spec fn num_is_even_body_shape(c: int, e: Expr) -> bool {
    e matches Expr::RunLowLevel { op, args, ret_var }
        && op == LowLevel::ValueEq
        && ret_var == var_at(c + 2)
        && args@.len() == 2
        && args@[0] == (var_at(c), Expr::Num(var_at(c + 1), 0))
        && args@[1].0 == var_at(c)
        && ll2(
            args@[1].1,
            LowLevel::NumRemUnchecked,
            var_at(c),
            Expr::Var(Symbol::Arg1),
            var_at(c),
            Expr::Num(var_at(c + 1), 2),
            var_at(c),
        )
}

pub open spec fn num_is_even_shape(d: Def, sym: Symbol, c: int) -> bool {
    defn_shape(
        d,
        sym,
        seq![(var_at(c), Symbol::Arg1)],
        var_at(c + 2),
        c + 3,
        |e: Expr| num_is_even_body_shape(c, e),
    )
}

pub(crate) fn num_is_even(symbol: Symbol, var_store: &mut VarStore) -> (d: Def)
    requires
        old(var_store)@ + FRESH_BUDGET as int <= u32::MAX as int,
    ensures
        num_is_even_shape(d, symbol, old(var_store)@),
        final(var_store)@ == old(var_store)@ + 7,
{
    let ghost c = var_store@;
    let arg_var = var_store.fresh();
    let arg_num_var = var_store.fresh();
    let bool_var = var_store.fresh();
    let rem_call = Expr::RunLowLevel {
        op: LowLevel::NumRemUnchecked,
        args: vec![
            (arg_var, Expr::Var(Symbol::Arg1)),
            (arg_var, Expr::Num(arg_num_var, 2)),
        ],
        ret_var: arg_var,
    };
    let body = Expr::RunLowLevel {
        op: LowLevel::ValueEq,
        args: vec![(arg_var, Expr::Num(arg_num_var, 0)), (arg_var, rem_call)],
        ret_var: bool_var,
    };
    let args = vec![(arg_var, Symbol::Arg1)];
    proof {
        assert(args@ =~= seq![(var_at(c), Symbol::Arg1)]);
    }
    defn(symbol, args, var_store, body, bool_var)
}

/// Body of the tangent builtin: sine divided by cosine, one float variable
/// throughout.
pub open spec fn num_tan_body_shape(c: int, e: Expr) -> bool {
    e matches Expr::RunLowLevel { op, args, ret_var }
        && op == LowLevel::NumDivUnchecked
        && ret_var == var_at(c)
        && args@.len() == 2
        && args@[0].0 == var_at(c)
        && ll1(args@[0].1, LowLevel::NumSin, var_at(c), Expr::Var(Symbol::Arg1), var_at(c))
        && args@[1].0 == var_at(c)
        && ll1(args@[1].1, LowLevel::NumCos, var_at(c), Expr::Var(Symbol::Arg1), var_at(c))
}

pub open spec fn num_tan_shape(d: Def, sym: Symbol, c: int) -> bool {
    defn_shape(
        d,
        sym,
        seq![(var_at(c), Symbol::Arg1)],
        var_at(c),
        c + 1,
        |e: Expr| num_tan_body_shape(c, e),
    )
}

pub(crate) fn num_tan(symbol: Symbol, var_store: &mut VarStore) -> (d: Def)
    requires
        old(var_store)@ + FRESH_BUDGET as int <= u32::MAX as int,
    ensures
        num_tan_shape(d, symbol, old(var_store)@),
        final(var_store)@ == old(var_store)@ + 5,
{
    let ghost c = var_store@;
    let float_var = var_store.fresh();
    let sin_call = Expr::RunLowLevel {
        op: LowLevel::NumSin,
        args: vec![(float_var, Expr::Var(Symbol::Arg1))],
        ret_var: float_var,
    };
    let cos_call = Expr::RunLowLevel {
        op: LowLevel::NumCos,
        args: vec![(float_var, Expr::Var(Symbol::Arg1))],
        ret_var: float_var,
    };
    let body = Expr::RunLowLevel {
        op: LowLevel::NumDivUnchecked,
        args: vec![(float_var, sin_call), (float_var, cos_call)],
        ret_var: float_var,
    };
    let args = vec![(float_var, Symbol::Arg1)];
    proof {
        assert(args@ =~= seq![(var_at(c), Symbol::Arg1)]);
    }
    defn(symbol, args, var_store, body, float_var)
}

/// The largest 64-bit signed integer, as a width-pinned literal constant.
pub(crate) fn num_max_int(symbol: Symbol, var_store: &mut VarStore) -> (d: Def)
    requires
        old(var_store)@ + FRESH_BUDGET as int <= u32::MAX as int,
    ensures
        const_def_shape(
            d,
            symbol,
            var_at(old(var_store)@),
            |e: Expr| e == Expr::Int(
                var_at(old(var_store)@),
                var_at(old(var_store)@ + 1),
                i64::MAX as i128,
            ),
        ),
        final(var_store)@ == old(var_store)@ + 2,
{
    let int_var = var_store.fresh();
    let int_precision_var = var_store.fresh();
    let body = Expr::Int(int_var, int_precision_var, i64::MAX as i128);
    const_def(symbol, int_var, body)
}

/// The smallest 64-bit signed integer, as a literal constant.
pub(crate) fn num_min_int(symbol: Symbol, var_store: &mut VarStore) -> (d: Def)
    requires
        old(var_store)@ + FRESH_BUDGET as int <= u32::MAX as int,
    ensures
        const_def_shape(
            d,
            symbol,
            var_at(old(var_store)@),
            |e: Expr| e == Expr::Int(
                var_at(old(var_store)@),
                var_at(old(var_store)@ + 1),
                i64::MIN as i128,
            ),
        ),
        final(var_store)@ == old(var_store)@ + 2,
{
    let int_var = var_store.fresh();
    let int_precision_var = var_store.fresh();
    let body = Expr::Int(int_var, int_precision_var, i64::MIN as i128);
    const_def(symbol, int_var, body)
}

/// The largest 128-bit signed integer. Its width cannot be inferred from the
/// literal alone, so the definition carries the pre-solved signature as an
/// explicit annotation.
pub(crate) fn num_max_i128(symbol: Symbol, var_store: &mut VarStore) -> (d: Def)
    requires
        old(var_store)@ + FRESH_BUDGET as int <= u32::MAX as int,
    ensures
        annotated_def_shape(
            d,
            symbol,
            var_at(old(var_store)@),
            Annotation::PinnedInt128,
            |e: Expr| e == Expr::Int(
                var_at(old(var_store)@),
                var_at(old(var_store)@ + 1),
                i128::MAX,
            ),
        ),
        final(var_store)@ == old(var_store)@ + 2,
{
    let int_var = var_store.fresh();
    let int_precision_var = var_store.fresh();
    let body = Expr::Int(int_var, int_precision_var, i128::MAX);
    Def {
        pattern: Pattern::Identifier(symbol),
        body,
        expr_var: int_var,
        pattern_vars: Vec::new(),
        annotation: Some(Annotation::PinnedInt128),
    }
}

/// Body of the byte-decoding builtins: guard
/// `Arg2 + cast(offset) < length(Arg1)`, then `Ok(opcode(Arg1, Arg2))` else
/// `Err(OutOfBounds)`.
pub open spec fn bytes_to_body_shape(op: LowLevel, offset: i64, c: int, e: Expr) -> bool {
    e matches Expr::If { cond_var, branch_var, branches, final_else }
        && cond_var == var_at(c + 4)
        && branch_var == var_at(c + 7)
        && branches@.len() == 1
        && (branches@[0].0 matches Expr::RunLowLevel { op: gop, args: gargs, ret_var: gret }
            && gop == LowLevel::NumLt
            && gret == var_at(c + 4)
            && gargs@.len() == 2
            && gargs@[0].0 == var_at(c)
            && (gargs@[0].1 matches Expr::RunLowLevel { op: aop, args: aargs, ret_var: aret }
                && aop == LowLevel::NumAdd
                && aret == var_at(c + 5)
                && aargs@.len() == 2
                && aargs@[0] == (var_at(c + 5), Expr::Var(Symbol::Arg2))
                && aargs@[1].0 == var_at(c + 5)
                && ll1(
                    aargs@[1].1,
                    LowLevel::NumIntCast,
                    var_at(c + 6),
                    Expr::Num(var_at(c + 8), offset),
                    var_at(c + 6),
                ))
            && gargs@[1].0 == var_at(c)
            && ll1(gargs@[1].1, LowLevel::ListLen, var_at(c + 1), Expr::Var(Symbol::Arg1), var_at(c)))
        && tag_shape(
            branches@[0].1,
            TagName::OkTag,
            1,
            c + 9,
            |i: int, a: Expr| ll2(
                a,
                op,
                var_at(c + 1),
                Expr::Var(Symbol::Arg1),
                var_at(c),
                Expr::Var(Symbol::Arg2),
                var_at(c + 2),
            ),
        )
        && wrapped_err_shape(*final_else, TagName::OutOfBounds, c + 12)
}

/// A byte-decoding definition.
pub open spec fn bytes_to_shape(d: Def, sym: Symbol, op: LowLevel, offset: i64, c: int) -> bool {
    defn_shape(
        d,
        sym,
        seq![(var_at(c + 1), Symbol::Arg1), (var_at(c), Symbol::Arg2)],
        var_at(c + 3),
        c + 17,
        |e: Expr| bytes_to_body_shape(op, offset, c, e),
    )
}

/// Shared synthesizer for the bounds-checked byte decoders: `offset` is one
/// less than the number of bytes the opcode reads past the start index.
pub(crate) fn num_bytes_to(symbol: Symbol, var_store: &mut VarStore, offset: i64, low_level: LowLevel) -> (d: Def)
    requires
        old(var_store)@ + FRESH_BUDGET as int <= u32::MAX as int,
    ensures
        bytes_to_shape(d, symbol, low_level, offset, old(var_store)@),
        final(var_store)@ == old(var_store)@ + 21,
{
    let ghost c = var_store@;
    let len_var = var_store.fresh();
    let list_var = var_store.fresh();
    let elem_var = var_store.fresh();
    let ret_var = var_store.fresh();
    let bool_var = var_store.fresh();
    let add_var = var_store.fresh();
    let cast_var = var_store.fresh();
    let branch_var = var_store.fresh();
    let offset_num_var = var_store.fresh();
    let cast_call = Expr::RunLowLevel {
        op: LowLevel::NumIntCast,
        args: vec![(cast_var, Expr::Num(offset_num_var, offset))],
        ret_var: cast_var,
    };
    let add_call = Expr::RunLowLevel {
        op: LowLevel::NumAdd,
        args: vec![(add_var, Expr::Var(Symbol::Arg2)), (add_var, cast_call)],
        ret_var: add_var,
    };
    let len_call = Expr::RunLowLevel {
        op: LowLevel::ListLen,
        args: vec![(list_var, Expr::Var(Symbol::Arg1))],
        ret_var: len_var,
    };
    let guard = Expr::RunLowLevel {
        op: LowLevel::NumLt,
        args: vec![(len_var, add_call), (len_var, len_call)],
        ret_var: bool_var,
    };
    let ok_call = Expr::RunLowLevel {
        op: low_level,
        args: vec![(list_var, Expr::Var(Symbol::Arg1)), (len_var, Expr::Var(Symbol::Arg2))],
        ret_var: elem_var,
    };
    let ok_branch = tag(TagName::OkTag, vec![ok_call], var_store);
    let else_branch = err_tag(TagName::OutOfBounds, var_store);
    let body = Expr::If {
        cond_var: bool_var,
        branch_var,
        branches: vec![(guard, ok_branch)],
        final_else: Box::new(else_branch),
    };
    let args = vec![(list_var, Symbol::Arg1), (len_var, Symbol::Arg2)];
    proof {
        assert(args@ =~= seq![(var_at(c + 1), Symbol::Arg1), (var_at(c), Symbol::Arg2)]);
    }
    defn(symbol, args, var_store, body, ret_var)
}

pub(crate) fn num_bytes_to_u16(symbol: Symbol, var_store: &mut VarStore) -> (d: Def)
    requires
        old(var_store)@ + FRESH_BUDGET as int <= u32::MAX as int,
    ensures
        bytes_to_shape(d, symbol, LowLevel::NumBytesToU16, 1, old(var_store)@),
        final(var_store)@ == old(var_store)@ + 21,
{
    num_bytes_to(symbol, var_store, 1, LowLevel::NumBytesToU16)
}

pub(crate) fn num_bytes_to_u32(symbol: Symbol, var_store: &mut VarStore) -> (d: Def)
    requires
        old(var_store)@ + FRESH_BUDGET as int <= u32::MAX as int,
    ensures
        bytes_to_shape(d, symbol, LowLevel::NumBytesToU32, 3, old(var_store)@),
        final(var_store)@ == old(var_store)@ + 21,
{
    num_bytes_to(symbol, var_store, 3, LowLevel::NumBytesToU32)
}

} // verus!
