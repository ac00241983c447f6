//! Synthesizers for the text builtins, including the validated UTF-8
//! decoders.

use vstd::prelude::*;
use crate::types::Def;
use crate::types::Expr;
use crate::types::FieldName;
use crate::types::LowLevel;
use crate::types::Pattern;
use crate::types::Symbol;
use crate::types::TagName;
use crate::types::VarStore;
use crate::types::Variable;
use crate::types::var_at;
use crate::builders::FRESH_BUDGET;
use crate::builders::access_shape;
use crate::builders::binop_other_shape;
use crate::builders::binop_shape;
use crate::builders::defn;
use crate::builders::defn_shape;
use crate::builders::err_tag;
use crate::builders::ll1;
use crate::builders::ll2;
use crate::builders::lowlevel_1;
use crate::builders::lowlevel_2;
use crate::builders::op2_ret_first_shape;
use crate::builders::passthrough_shape;
use crate::builders::tag;
use crate::builders::tag_shape;
use crate::builders::wrapped_err_shape;

verus! {

pub(crate) fn str_concat(symbol: Symbol, var_store: &mut VarStore) -> (d: Def)
    requires
        old(var_store)@ + FRESH_BUDGET as int <= u32::MAX as int,
    ensures
        binop_shape(d, symbol, LowLevel::StrConcat, old(var_store)@),
        final(var_store)@ == old(var_store)@ + 5,
{
    let ghost c = var_store@;
    let str_var = var_store.fresh();
    let body = Expr::RunLowLevel {
        op: LowLevel::StrConcat,
        args: vec![(str_var, Expr::Var(Symbol::Arg1)), (str_var, Expr::Var(Symbol::Arg2))],
        ret_var: str_var,
    };
    let args = vec![(str_var, Symbol::Arg1), (str_var, Symbol::Arg2)];
    proof {
        assert(args@ =~= seq![(var_at(c), Symbol::Arg1), (var_at(c), Symbol::Arg2)]);
    }
    defn(symbol, args, var_store, body, str_var)
}

/// Joining a list of text values with a separator: the separator's variable
/// also types the result.
pub open spec fn str_join_with_shape(d: Def, sym: Symbol, c: int) -> bool {
    defn_shape(
        d,
        sym,
        seq![(var_at(c), Symbol::Arg1), (var_at(c + 1), Symbol::Arg2)],
        var_at(c + 1),
        c + 2,
        |e: Expr| ll2(
            e,
            LowLevel::StrJoinWith,
            var_at(c),
            Expr::Var(Symbol::Arg1),
            var_at(c + 1),
            Expr::Var(Symbol::Arg2),
            var_at(c + 1),
        ),
    )
}

pub(crate) fn str_join_with(symbol: Symbol, var_store: &mut VarStore) -> (d: Def)
    requires
        old(var_store)@ + FRESH_BUDGET as int <= u32::MAX as int,
    ensures
        str_join_with_shape(d, symbol, old(var_store)@),
        final(var_store)@ == old(var_store)@ + 6,
{
    let ghost c = var_store@;
    let list_str_var = var_store.fresh();
    let str_var = var_store.fresh();
    let body = Expr::RunLowLevel {
        op: LowLevel::StrJoinWith,
        args: vec![(list_str_var, Expr::Var(Symbol::Arg1)), (str_var, Expr::Var(Symbol::Arg2))],
        ret_var: str_var,
    };
    let args = vec![(list_str_var, Symbol::Arg1), (str_var, Symbol::Arg2)];
    proof {
        assert(args@ =~= seq![(var_at(c), Symbol::Arg1), (var_at(c + 1), Symbol::Arg2)]);
    }
    defn(symbol, args, var_store, body, str_var)
}

pub(crate) fn str_split(symbol: Symbol, var_store: &mut VarStore) -> (d: Def)
    requires
        old(var_store)@ + FRESH_BUDGET as int <= u32::MAX as int,
    ensures
        binop_other_shape(d, symbol, LowLevel::StrSplit, old(var_store)@),
        final(var_store)@ == old(var_store)@ + 6,
{
    let ghost c = var_store@;
    let str_var = var_store.fresh();
    let ret_list_var = var_store.fresh();
    let body = Expr::RunLowLevel {
        op: LowLevel::StrSplit,
        args: vec![(str_var, Expr::Var(Symbol::Arg1)), (str_var, Expr::Var(Symbol::Arg2))],
        ret_var: ret_list_var,
    };
    let args = vec![(str_var, Symbol::Arg1), (str_var, Symbol::Arg2)];
    proof {
        assert(args@ =~= seq![(var_at(c), Symbol::Arg1), (var_at(c), Symbol::Arg2)]);
    }
    defn(symbol, args, var_store, body, ret_list_var)
}

pub(crate) fn str_trim(symbol: Symbol, var_store: &mut VarStore) -> (d: Def)
    requires
        old(var_store)@ + FRESH_BUDGET as int <= u32::MAX as int,
    ensures
        passthrough_shape(d, symbol, LowLevel::StrTrim, 1, old(var_store)@),
        final(var_store)@ == old(var_store)@ + 6,
{
    lowlevel_1(symbol, LowLevel::StrTrim, var_store)
}

pub(crate) fn str_repeat(symbol: Symbol, var_store: &mut VarStore) -> (d: Def)
    requires
        old(var_store)@ + FRESH_BUDGET as int <= u32::MAX as int,
    ensures
        op2_ret_first_shape(d, symbol, LowLevel::StrRepeat, old(var_store)@),
        final(var_store)@ == old(var_store)@ + 6,
{
    let ghost c = var_store@;
    let str_var = var_store.fresh();
    let nat_var = var_store.fresh();
    let body = Expr::RunLowLevel {
        op: LowLevel::StrRepeat,
        args: vec![(str_var, Expr::Var(Symbol::Arg1)), (nat_var, Expr::Var(Symbol::Arg2))],
        ret_var: str_var,
    };
    let args = vec![(str_var, Symbol::Arg1), (nat_var, Symbol::Arg2)];
    proof {
        assert(args@ =~= seq![(var_at(c), Symbol::Arg1), (var_at(c + 1), Symbol::Arg2)]);
    }
    defn(symbol, args, var_store, body, str_var)
}

pub(crate) fn str_is_empty(symbol: Symbol, var_store: &mut VarStore) -> (d: Def)
    requires
        old(var_store)@ + FRESH_BUDGET as int <= u32::MAX as int,
    ensures
        passthrough_shape(d, symbol, LowLevel::StrIsEmpty, 1, old(var_store)@),
        final(var_store)@ == old(var_store)@ + 6,
{
    lowlevel_1(symbol, LowLevel::StrIsEmpty, var_store)
}

pub(crate) fn str_starts_with(symbol: Symbol, var_store: &mut VarStore) -> (d: Def)
    requires
        old(var_store)@ + FRESH_BUDGET as int <= u32::MAX as int,
    ensures
        passthrough_shape(d, symbol, LowLevel::StrStartsWith, 2, old(var_store)@),
        final(var_store)@ == old(var_store)@ + 7,
{
    lowlevel_2(symbol, LowLevel::StrStartsWith, var_store)
}

pub(crate) fn str_starts_with_code_point(symbol: Symbol, var_store: &mut VarStore) -> (d: Def)
    requires
        old(var_store)@ + FRESH_BUDGET as int <= u32::MAX as int,
    ensures
        passthrough_shape(d, symbol, LowLevel::StrStartsWithCodePt, 2, old(var_store)@),
        final(var_store)@ == old(var_store)@ + 7,
{
    lowlevel_2(symbol, LowLevel::StrStartsWithCodePt, var_store)
}

pub(crate) fn str_ends_with(symbol: Symbol, var_store: &mut VarStore) -> (d: Def)
    requires
        old(var_store)@ + FRESH_BUDGET as int <= u32::MAX as int,
    ensures
        binop_other_shape(d, symbol, LowLevel::StrEndsWith, old(var_store)@),
        final(var_store)@ == old(var_store)@ + 6,
{
    let ghost c = var_store@;
    let str_var = var_store.fresh();
    let bool_var = var_store.fresh();
    let body = Expr::RunLowLevel {
        op: LowLevel::StrEndsWith,
        args: vec![(str_var, Expr::Var(Symbol::Arg1)), (str_var, Expr::Var(Symbol::Arg2))],
        ret_var: bool_var,
    };
    let args = vec![(str_var, Symbol::Arg1), (str_var, Symbol::Arg2)];
    proof {
        assert(args@ =~= seq![(var_at(c), Symbol::Arg1), (var_at(c), Symbol::Arg2)]);
    }
    defn(symbol, args, var_store, body, bool_var)
}

pub(crate) fn str_count_graphemes(symbol: Symbol, var_store: &mut VarStore) -> (d: Def)
    requires
        old(var_store)@ + FRESH_BUDGET as int <= u32::MAX as int,
    ensures
        passthrough_shape(d, symbol, LowLevel::StrCountGraphemes, 1, old(var_store)@),
        final(var_store)@ == old(var_store)@ + 6,
{
    lowlevel_1(symbol, LowLevel::StrCountGraphemes, var_store)
}

pub(crate) fn str_from_int(symbol: Symbol, var_store: &mut VarStore) -> (d: Def)
    requires
        old(var_store)@ + FRESH_BUDGET as int <= u32::MAX as int,
    ensures
        passthrough_shape(d, symbol, LowLevel::StrFromInt, 1, old(var_store)@),
        final(var_store)@ == old(var_store)@ + 6,
{
    lowlevel_1(symbol, LowLevel::StrFromInt, var_store)
}

pub(crate) fn str_from_float(symbol: Symbol, var_store: &mut VarStore) -> (d: Def)
    requires
        old(var_store)@ + FRESH_BUDGET as int <= u32::MAX as int,
    ensures
        passthrough_shape(d, symbol, LowLevel::StrFromFloat, 1, old(var_store)@),
        final(var_store)@ == old(var_store)@ + 6,
{
    lowlevel_1(symbol, LowLevel::StrFromFloat, var_store)
}

pub(crate) fn str_to_utf8(symbol: Symbol, var_store: &mut VarStore) -> (d: Def)
    requires
        old(var_store)@ + FRESH_BUDGET as int <= u32::MAX as int,
    ensures
        passthrough_shape(d, symbol, LowLevel::StrToUtf8, 1, old(var_store)@),
        final(var_store)@ == old(var_store)@ + 6,
{
    lowlevel_1(symbol, LowLevel::StrToUtf8, var_store)
}

/// The conditional at the heart of UTF-8 decoding (§4.3 validated-decoding
/// idiom): the decoder's record is bound to `bound`, the success flag is the
/// guard, and failure rewraps the record's offset and failure-kind fields in
/// `Err(BadUtf8 ...)`. `rec` is the record variable, `cv` the guard's
/// boolean, `bv` the join variable, and `c` the first variable the
/// conditional mints.
pub open spec fn utf8_inspect_shape(
    e: Expr,
    bound: Symbol,
    rec: int,
    cv: int,
    bv: int,
    c: int,
) -> bool {
    e matches Expr::If { cond_var, branch_var, branches, final_else }
        && cond_var == var_at(cv)
        && branch_var == var_at(bv)
        && branches@.len() == 1
        && access_shape(branches@[0].0, var_at(rec), var_at(c), FieldName::CIsOk, var_at(c + 1), bound)
        && tag_shape(
            branches@[0].1,
            TagName::OkTag,
            1,
            c + 4,
            |i: int, a: Expr| access_shape(a, var_at(rec), var_at(c + 2), FieldName::BStr, var_at(c + 3), bound),
        )
        && (*final_else matches Expr::Tag { variant_var, ext_var, name, arguments }
            && variant_var == var_at(c + 15)
            && ext_var == var_at(c + 16)
            && name == TagName::ErrTag
            && arguments@.len() == 1
            && arguments@[0].0 == var_at(c + 17)
            && (arguments@[0].1 matches Expr::Tag { variant_var: v2, ext_var: e2, name: n2, arguments: args2 }
                && v2 == var_at(c + 11)
                && e2 == var_at(c + 12)
                && n2 == TagName::BadUtf8
                && args2@.len() == 2
                && args2@[0].0 == var_at(c + 13)
                && access_shape(args2@[0].1, var_at(rec), var_at(c + 7), FieldName::DProblem, var_at(c + 8), bound)
                && args2@[1].0 == var_at(c + 14)
                && access_shape(args2@[1].1, var_at(rec), var_at(c + 9), FieldName::AByteIndex, var_at(c + 10), bound)))
}

/// Build the UTF-8 inspection conditional. The caller supplies the bound
/// record symbol and the variables the record, guard and join points use.
fn utf8_inspect(
    bound: Symbol,
    record_var: Variable,
    cond_var: Variable,
    branch_var: Variable,
    var_store: &mut VarStore,
) -> (e: Expr)
    requires
        old(var_store)@ + 18 <= u32::MAX as int,
    ensures
        utf8_inspect_shape(
            e,
            bound,
            record_var.id as int,
            cond_var.id as int,
            branch_var.id as int,
            old(var_store)@,
        ),
        final(var_store)@ == old(var_store)@ + 18,
{
    let ghost c = var_store@;
    let guard_ext = var_store.fresh();
    let guard_field = var_store.fresh();
    let guard = Expr::Access {
        record_var,
        ext_var: guard_ext,
        field: FieldName::CIsOk,
        field_var: guard_field,
        record: Box::new(Expr::Var(bound)),
    };
    let ok_ext = var_store.fresh();
    let ok_field = var_store.fresh();
    let ok_payload = Expr::Access {
        record_var,
        ext_var: ok_ext,
        field: FieldName::BStr,
        field_var: ok_field,
        record: Box::new(Expr::Var(bound)),
    };
    let ok_branch = tag(TagName::OkTag, vec![ok_payload], var_store);
    let problem_ext = var_store.fresh();
    let problem_field = var_store.fresh();
    let problem_access = Expr::Access {
        record_var,
        ext_var: problem_ext,
        field: FieldName::DProblem,
        field_var: problem_field,
        record: Box::new(Expr::Var(bound)),
    };
    let index_ext = var_store.fresh();
    let index_field = var_store.fresh();
    let index_access = Expr::Access {
        record_var,
        ext_var: index_ext,
        field: FieldName::AByteIndex,
        field_var: index_field,
        record: Box::new(Expr::Var(bound)),
    };
    let bad = tag(TagName::BadUtf8, vec![problem_access, index_access], var_store);
    let err_branch = tag(TagName::ErrTag, vec![bad], var_store);
    Expr::If {
        cond_var,
        branch_var,
        branches: vec![(guard, ok_branch)],
        final_else: Box::new(err_branch),
    }
}

/// The whole-list UTF-8 decoder: bind the decoder opcode's record, then
/// inspect it.
pub open spec fn str_from_utf8_shape(d: Def, sym: Symbol, c: int) -> bool {
    defn_shape(
        d,
        sym,
        seq![(var_at(c), Symbol::Arg1)],
        var_at(c + 3),
        c + 22,
        |e: Expr| e matches Expr::LetNonRec(def0, cont, ret)
            && ret == var_at(c + 3)
            && (*def0).pattern == Pattern::Identifier(Symbol::Arg2)
            && (*def0).expr_var == var_at(c + 2)
            && (*def0).pattern_vars@.len() == 0
            && (*def0).annotation is None
            && ll1((*def0).body, LowLevel::StrFromUtf8, var_at(c), Expr::Var(Symbol::Arg1), var_at(c + 2))
            && utf8_inspect_shape(*cont, Symbol::Arg2, c + 2, c + 1, c + 3, c + 4),
    )
}

pub(crate) fn str_from_utf8(symbol: Symbol, var_store: &mut VarStore) -> (d: Def)
    requires
        old(var_store)@ + FRESH_BUDGET as int <= u32::MAX as int,
    ensures
        str_from_utf8_shape(d, symbol, old(var_store)@),
        final(var_store)@ == old(var_store)@ + 26,
{
    let ghost c = var_store@;
    let bytes_var = var_store.fresh();
    let bool_var = var_store.fresh();
    let record_var = var_store.fresh();
    let ret_var = var_store.fresh();
    let def0 = Def {
        pattern: Pattern::Identifier(Symbol::Arg2),
        body: Expr::RunLowLevel {
            op: LowLevel::StrFromUtf8,
            args: vec![(bytes_var, Expr::Var(Symbol::Arg1))],
            ret_var: record_var,
        },
        expr_var: record_var,
        pattern_vars: Vec::new(),
        annotation: None,
    };
    let cont = utf8_inspect(Symbol::Arg2, record_var, bool_var, ret_var, var_store);
    let body = Expr::LetNonRec(Box::new(def0), Box::new(cont), ret_var);
    let args = vec![(bytes_var, Symbol::Arg1)];
    proof {
        assert(args@ =~= seq![(var_at(c), Symbol::Arg1)]);
    }
    defn(symbol, args, var_store, body, ret_var)
}

/// The range-limited UTF-8 decoder: before decoding at all, check
/// `start + count <= length(Arg1)` and report `Err(OutOfBounds)` when the
/// range does not fit; inside the bound, decode and inspect as the
/// whole-list decoder does.
pub open spec fn str_from_utf8_range_body_shape(c: int, e: Expr) -> bool {
    e matches Expr::If { cond_var, branch_var, branches, final_else }
            && cond_var == var_at(c + 24)
            && branch_var == var_at(c + 4)
            && branches@.len() == 1
            && (branches@[0].0 matches Expr::RunLowLevel { op: gop, args: gargs, ret_var: gret }
                && gop == LowLevel::NumLte
                && gret == var_at(c + 24)
                && gargs@.len() == 2
                && gargs@[0].0 == var_at(c + 23)
                && (gargs@[0].1 matches Expr::RunLowLevel { op: aop, args: aargs, ret_var: aret }
                    && aop == LowLevel::NumAdd
                    && aret == var_at(c + 25)
                    && aargs@.len() == 2
                    && aargs@[0].0 == var_at(c + 25)
                    && access_shape(aargs@[0].1, var_at(c + 2), var_at(c + 26), FieldName::Start, var_at(c + 27), Symbol::Arg2)
                    && aargs@[1].0 == var_at(c + 25)
                    && access_shape(aargs@[1].1, var_at(c + 2), var_at(c + 28), FieldName::Count, var_at(c + 29), Symbol::Arg2))
                && gargs@[1].0 == var_at(c + 23)
                && ll1(gargs@[1].1, LowLevel::ListLen, var_at(c), Expr::Var(Symbol::Arg1), var_at(c + 23)))
            && (branches@[0].1 matches Expr::LetNonRec(def0, cont, ret)
                && ret == var_at(c + 4)
                && (*def0).pattern == Pattern::Identifier(Symbol::Arg3)
                && (*def0).expr_var == var_at(c + 3)
                && (*def0).pattern_vars@.len() == 0
                && (*def0).annotation is None
                && ll2(
                    (*def0).body,
                    LowLevel::StrFromUtf8Range,
                    var_at(c),
                    Expr::Var(Symbol::Arg1),
                    var_at(c + 2),
                    Expr::Var(Symbol::Arg2),
                    var_at(c + 3),
                )
                && utf8_inspect_shape(*cont, Symbol::Arg3, c + 3, c + 1, c + 4, c + 5))
            && wrapped_err_shape(*final_else, TagName::OutOfBounds, c + 30)
}

pub open spec fn str_from_utf8_range_shape(d: Def, sym: Symbol, c: int) -> bool {
    defn_shape(
        d,
        sym,
        seq![(var_at(c), Symbol::Arg1), (var_at(c + 2), Symbol::Arg2)],
        var_at(c + 4),
        c + 35,
        |e: Expr| str_from_utf8_range_body_shape(c, e),
    )
}

pub(crate) fn str_from_utf8_range(symbol: Symbol, var_store: &mut VarStore) -> (d: Def)
    requires
        old(var_store)@ + FRESH_BUDGET as int <= u32::MAX as int,
    ensures
        str_from_utf8_range_shape(d, symbol, old(var_store)@),
        final(var_store)@ == old(var_store)@ + 39,
{
    let ghost c = var_store@;
    let bytes_var = var_store.fresh();
    let bool_var = var_store.fresh();
    let arg_record_var = var_store.fresh();
    let ll_record_var = var_store.fresh();
    let ret_var = var_store.fresh();
    let def0 = Def {
        pattern: Pattern::Identifier(Symbol::Arg3),
        body: Expr::RunLowLevel {
            op: LowLevel::StrFromUtf8Range,
            args: vec![
                (bytes_var, Expr::Var(Symbol::Arg1)),
                (arg_record_var, Expr::Var(Symbol::Arg2)),
            ],
            ret_var: ll_record_var,
        },
        expr_var: ll_record_var,
        pattern_vars: Vec::new(),
        annotation: None,
    };
    let cont = utf8_inspect(Symbol::Arg3, ll_record_var, bool_var, ret_var, var_store);
    let in_bounds = Expr::LetNonRec(Box::new(def0), Box::new(cont), ret_var);
    let bounds_var = var_store.fresh();
    let bounds_bool = var_store.fresh();
    let add_var = var_store.fresh();
    let start_ext = var_store.fresh();
    let start_field = var_store.fresh();
    let start_access = Expr::Access {
        record_var: arg_record_var,
        ext_var: start_ext,
        field: FieldName::Start,
        field_var: start_field,
        record: Box::new(Expr::Var(Symbol::Arg2)),
    };
    let count_ext = var_store.fresh();
    let count_field = var_store.fresh();
    let count_access = Expr::Access {
        record_var: arg_record_var,
        ext_var: count_ext,
        field: FieldName::Count,
        field_var: count_field,
        record: Box::new(Expr::Var(Symbol::Arg2)),
    };
    let add_call = Expr::RunLowLevel {
        op: LowLevel::NumAdd,
        args: vec![(add_var, start_access), (add_var, count_access)],
        ret_var: add_var,
    };
    let len_call = Expr::RunLowLevel {
        op: LowLevel::ListLen,
        args: vec![(bytes_var, Expr::Var(Symbol::Arg1))],
        ret_var: bounds_var,
    };
    let guard = Expr::RunLowLevel {
        op: LowLevel::NumLte,
        args: vec![(bounds_var, add_call), (bounds_var, len_call)],
        ret_var: bounds_bool,
    };
    let else_branch = err_tag(TagName::OutOfBounds, var_store);
    let body = Expr::If {
        cond_var: bounds_bool,
        branch_var: ret_var,
        branches: vec![(guard, in_bounds)],
        final_else: Box::new(else_branch),
    };
    let args = vec![(bytes_var, Symbol::Arg1), (arg_record_var, Symbol::Arg2)];
    proof {
        assert(args@ =~= seq![(var_at(c), Symbol::Arg1), (var_at(c + 2), Symbol::Arg2)]);
    }
    defn(symbol, args, var_store, body, ret_var)
}

} // verus!
