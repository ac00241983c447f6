//! Synthesizers for the result combinators (§4.4): each is a two-arm
//! pattern match on the input result value.

use vstd::prelude::*;
use crate::types::Def;
use crate::types::Expr;
use crate::types::LowLevel;
use crate::types::Pattern;
use crate::types::Symbol;
use crate::types::TagName;
use crate::types::VarStore;
use crate::types::WhenBranch;
use crate::types::var_at;
use crate::builders::FRESH_BUDGET;
use crate::builders::defn;
use crate::builders::defn_shape;
use crate::builders::tag;

verus! {

/// A match-arm pattern of the form `name(binder)` on the scrutinized result,
/// with its extension and argument variables minted at `c`.
pub open spec fn applied_tag_pattern_shape(
    p: Pattern,
    whole: int,
    name: TagName,
    binder: Pattern,
    c: int,
) -> bool {
    p matches Pattern::AppliedTag { whole_var, ext_var, name: nm, arguments }
        && whole_var == var_at(whole)
        && ext_var == var_at(c)
        && nm == name
        && arguments@.len() == 1
        && arguments@[0] == (var_at(c + 1), binder)
}

/// The application of the user callback (bound to `Arg2`) to the payload
/// bound by the first match arm.
pub open spec fn callback_call_shape(e: Expr, c: int) -> bool {
    e matches Expr::Call { fn_var, fn_expr, closure_var, ret_var, args }
        && fn_var == var_at(c + 1)
        && *fn_expr == Expr::Var(Symbol::Arg2)
        && closure_var == var_at(c + 3)
        && ret_var == var_at(c + 4)
        && args@.len() == 1
        && args@[0] == (var_at(c + 5), Expr::Var(Symbol::Arg5))
}

/// The two-arm match of `map`-style combinators: the `first` arm rewraps the
/// callback's result in `first`, the `second` arm passes the payload through
/// rewrapped in `second`.
pub open spec fn result_map_like_body_shape(first: TagName, second: TagName, c: int, e: Expr) -> bool {
    e matches Expr::When { cond_var, expr_var, cond, branches }
        && cond_var == var_at(c + 2)
        && expr_var == var_at(c)
        && *cond == Expr::Var(Symbol::Arg1)
        && branches@.len() == 2
        && branches@[0].guard is None
        && branches@[0].patterns@.len() == 1
        && applied_tag_pattern_shape(
            branches@[0].patterns@[0],
            c + 2,
            first,
            Pattern::Identifier(Symbol::Arg5),
            c + 9,
        )
        && (branches@[0].value matches Expr::Tag { variant_var, ext_var, name, arguments }
            && variant_var == var_at(c + 6)
            && ext_var == var_at(c + 7)
            && name == first
            && arguments@.len() == 1
            && arguments@[0].0 == var_at(c + 8)
            && callback_call_shape(arguments@[0].1, c))
        && branches@[1].guard is None
        && branches@[1].patterns@.len() == 1
        && applied_tag_pattern_shape(
            branches@[1].patterns@[0],
            c + 2,
            second,
            Pattern::Identifier(Symbol::Arg4),
            c + 14,
        )
        && (branches@[1].value matches Expr::Tag { variant_var, ext_var, name, arguments }
            && variant_var == var_at(c + 11)
            && ext_var == var_at(c + 12)
            && name == second
            && arguments@.len() == 1
            && arguments@[0] == (var_at(c + 13), Expr::Var(Symbol::Arg4)))
}

pub open spec fn result_map_like_shape(d: Def, sym: Symbol, first: TagName, second: TagName, c: int) -> bool {
    defn_shape(
        d,
        sym,
        seq![(var_at(c + 2), Symbol::Arg1), (var_at(c + 1), Symbol::Arg2)],
        var_at(c),
        c + 16,
        |e: Expr| result_map_like_body_shape(first, second, c, e),
    )
}

/// Shared synthesizer for `map` and `map-error`: which tag carries the
/// callback and which passes through is the mirror-image parameter.
fn result_map_like(symbol: Symbol, var_store: &mut VarStore, first: TagName, second: TagName) -> (d: Def)
    requires
        old(var_store)@ + FRESH_BUDGET as int <= u32::MAX as int,
    ensures
        result_map_like_shape(d, symbol, first, second, old(var_store)@),
        final(var_store)@ == old(var_store)@ + 20,
{
    let ghost c = var_store@;
    let ret_var = var_store.fresh();
    let func_var = var_store.fresh();
    let result_var = var_store.fresh();
    let closure_var = var_store.fresh();
    let call_ret_var = var_store.fresh();
    let call_arg_var = var_store.fresh();
    let call_func = Expr::Call {
        fn_var: func_var,
        fn_expr: Box::new(Expr::Var(Symbol::Arg2)),
        closure_var,
        ret_var: call_ret_var,
        args: vec![(call_arg_var, Expr::Var(Symbol::Arg5))],
    };
    let wrapped = tag(first, vec![call_func], var_store);
    let first_pattern_ext = var_store.fresh();
    let first_pattern_arg = var_store.fresh();
    let first_pattern = Pattern::AppliedTag {
        whole_var: result_var,
        ext_var: first_pattern_ext,
        name: first,
        arguments: vec![(first_pattern_arg, Pattern::Identifier(Symbol::Arg5))],
    };
    let first_branch = WhenBranch {
        patterns: vec![first_pattern],
        value: wrapped,
        guard: None,
    };
    let passthrough = tag(second, vec![Expr::Var(Symbol::Arg4)], var_store);
    let second_pattern_ext = var_store.fresh();
    let second_pattern_arg = var_store.fresh();
    let second_pattern = Pattern::AppliedTag {
        whole_var: result_var,
        ext_var: second_pattern_ext,
        name: second,
        arguments: vec![(second_pattern_arg, Pattern::Identifier(Symbol::Arg4))],
    };
    let second_branch = WhenBranch {
        patterns: vec![second_pattern],
        value: passthrough,
        guard: None,
    };
    let body = Expr::When {
        cond_var: result_var,
        expr_var: ret_var,
        cond: Box::new(Expr::Var(Symbol::Arg1)),
        branches: vec![first_branch, second_branch],
    };
    let args = vec![(result_var, Symbol::Arg1), (func_var, Symbol::Arg2)];
    proof {
        assert(args@ =~= seq![(var_at(c + 2), Symbol::Arg1), (var_at(c + 1), Symbol::Arg2)]);
    }
    defn(symbol, args, var_store, body, ret_var)
}

pub(crate) fn result_map(symbol: Symbol, var_store: &mut VarStore) -> (d: Def)
    requires
        old(var_store)@ + FRESH_BUDGET as int <= u32::MAX as int,
    ensures
        result_map_like_shape(d, symbol, TagName::OkTag, TagName::ErrTag, old(var_store)@),
        final(var_store)@ == old(var_store)@ + 20,
{
    result_map_like(symbol, var_store, TagName::OkTag, TagName::ErrTag)
}

pub(crate) fn result_map_err(symbol: Symbol, var_store: &mut VarStore) -> (d: Def)
    requires
        old(var_store)@ + FRESH_BUDGET as int <= u32::MAX as int,
    ensures
        result_map_like_shape(d, symbol, TagName::ErrTag, TagName::OkTag, old(var_store)@),
        final(var_store)@ == old(var_store)@ + 20,
{
    result_map_like(symbol, var_store, TagName::ErrTag, TagName::OkTag)
}

/// The two-arm match of `with-default`: `Ok(x) -> x`, `Err(_) -> Arg2`. The
/// payload binder of the success arm reuses the definition's result variable.
pub open spec fn result_with_default_body_shape(c: int, e: Expr) -> bool {
    e matches Expr::When { cond_var, expr_var, cond, branches }
        && cond_var == var_at(c + 1)
        && expr_var == var_at(c)
        && *cond == Expr::Var(Symbol::Arg1)
        && branches@.len() == 2
        && branches@[0].guard is None
        && branches@[0].patterns@.len() == 1
        && (branches@[0].patterns@[0] matches Pattern::AppliedTag { whole_var, ext_var, name, arguments }
            && whole_var == var_at(c + 1)
            && ext_var == var_at(c + 2)
            && name == TagName::OkTag
            && arguments@.len() == 1
            && arguments@[0] == (var_at(c), Pattern::Identifier(Symbol::Arg3)))
        && branches@[0].value == Expr::Var(Symbol::Arg3)
        && branches@[1].guard is None
        && branches@[1].patterns@.len() == 1
        && (branches@[1].patterns@[0] matches Pattern::AppliedTag { whole_var, ext_var, name, arguments }
            && whole_var == var_at(c + 1)
            && ext_var == var_at(c + 3)
            && name == TagName::ErrTag
            && arguments@.len() == 1
            && arguments@[0] == (var_at(c + 4), Pattern::Underscore))
        && branches@[1].value == Expr::Var(Symbol::Arg2)
}

pub open spec fn result_with_default_shape(d: Def, sym: Symbol, c: int) -> bool {
    defn_shape(
        d,
        sym,
        seq![(var_at(c + 1), Symbol::Arg1), (var_at(c), Symbol::Arg2)],
        var_at(c),
        c + 5,
        |e: Expr| result_with_default_body_shape(c, e),
    )
}

pub(crate) fn result_with_default(symbol: Symbol, var_store: &mut VarStore) -> (d: Def)
    requires
        old(var_store)@ + FRESH_BUDGET as int <= u32::MAX as int,
    ensures
        result_with_default_shape(d, symbol, old(var_store)@),
        final(var_store)@ == old(var_store)@ + 9,
{
    let ghost c = var_store@;
    let ret_var = var_store.fresh();
    let result_var = var_store.fresh();
    let ok_pattern_ext = var_store.fresh();
    let ok_pattern = Pattern::AppliedTag {
        whole_var: result_var,
        ext_var: ok_pattern_ext,
        name: TagName::OkTag,
        arguments: vec![(ret_var, Pattern::Identifier(Symbol::Arg3))],
    };
    let ok_branch = WhenBranch {
        patterns: vec![ok_pattern],
        value: Expr::Var(Symbol::Arg3),
        guard: None,
    };
    let err_pattern_ext = var_store.fresh();
    let err_pattern_arg = var_store.fresh();
    let err_pattern = Pattern::AppliedTag {
        whole_var: result_var,
        ext_var: err_pattern_ext,
        name: TagName::ErrTag,
        arguments: vec![(err_pattern_arg, Pattern::Underscore)],
    };
    let err_branch = WhenBranch {
        patterns: vec![err_pattern],
        value: Expr::Var(Symbol::Arg2),
        guard: None,
    };
    let body = Expr::When {
        cond_var: result_var,
        expr_var: ret_var,
        cond: Box::new(Expr::Var(Symbol::Arg1)),
        branches: vec![ok_branch, err_branch],
    };
    let args = vec![(result_var, Symbol::Arg1), (ret_var, Symbol::Arg2)];
    proof {
        assert(args@ =~= seq![(var_at(c + 1), Symbol::Arg1), (var_at(c), Symbol::Arg2)]);
    }
    defn(symbol, args, var_store, body, ret_var)
}

/// The two-arm match of `and-then`: `Ok(x) -> callback(x)` with no
/// rewrapping, `Err(e) -> Err(e)`.
pub open spec fn result_after_body_shape(c: int, e: Expr) -> bool {
    e matches Expr::When { cond_var, expr_var, cond, branches }
        && cond_var == var_at(c + 2)
        && expr_var == var_at(c)
        && *cond == Expr::Var(Symbol::Arg1)
        && branches@.len() == 2
        && branches@[0].guard is None
        && branches@[0].patterns@.len() == 1
        && applied_tag_pattern_shape(
            branches@[0].patterns@[0],
            c + 2,
            TagName::OkTag,
            Pattern::Identifier(Symbol::Arg5),
            c + 6,
        )
        && callback_call_shape(branches@[0].value, c)
        && branches@[1].guard is None
        && branches@[1].patterns@.len() == 1
        && applied_tag_pattern_shape(
            branches@[1].patterns@[0],
            c + 2,
            TagName::ErrTag,
            Pattern::Identifier(Symbol::Arg4),
            c + 11,
        )
        && (branches@[1].value matches Expr::Tag { variant_var, ext_var, name, arguments }
            && variant_var == var_at(c + 8)
            && ext_var == var_at(c + 9)
            && name == TagName::ErrTag
            && arguments@.len() == 1
            && arguments@[0] == (var_at(c + 10), Expr::Var(Symbol::Arg4)))
}

pub open spec fn result_after_shape(d: Def, sym: Symbol, c: int) -> bool {
    defn_shape(
        d,
        sym,
        seq![(var_at(c + 2), Symbol::Arg1), (var_at(c + 1), Symbol::Arg2)],
        var_at(c),
        c + 13,
        |e: Expr| result_after_body_shape(c, e),
    )
}

pub(crate) fn result_after(symbol: Symbol, var_store: &mut VarStore) -> (d: Def)
    requires
        old(var_store)@ + FRESH_BUDGET as int <= u32::MAX as int,
    ensures
        result_after_shape(d, symbol, old(var_store)@),
        final(var_store)@ == old(var_store)@ + 17,
{
    let ghost c = var_store@;
    let ret_var = var_store.fresh();
    let func_var = var_store.fresh();
    let result_var = var_store.fresh();
    let closure_var = var_store.fresh();
    let call_ret_var = var_store.fresh();
    let call_arg_var = var_store.fresh();
    let call_func = Expr::Call {
        fn_var: func_var,
        fn_expr: Box::new(Expr::Var(Symbol::Arg2)),
        closure_var,
        ret_var: call_ret_var,
        args: vec![(call_arg_var, Expr::Var(Symbol::Arg5))],
    };
    let ok_pattern_ext = var_store.fresh();
    let ok_pattern_arg = var_store.fresh();
    let ok_pattern = Pattern::AppliedTag {
        whole_var: result_var,
        ext_var: ok_pattern_ext,
        name: TagName::OkTag,
        arguments: vec![(ok_pattern_arg, Pattern::Identifier(Symbol::Arg5))],
    };
    let ok_branch = WhenBranch {
        patterns: vec![ok_pattern],
        value: call_func,
        guard: None,
    };
    let err_value = tag(TagName::ErrTag, vec![Expr::Var(Symbol::Arg4)], var_store);
    let err_pattern_ext = var_store.fresh();
    let err_pattern_arg = var_store.fresh();
    let err_pattern = Pattern::AppliedTag {
        whole_var: result_var,
        ext_var: err_pattern_ext,
        name: TagName::ErrTag,
        arguments: vec![(err_pattern_arg, Pattern::Identifier(Symbol::Arg4))],
    };
    let err_branch = WhenBranch {
        patterns: vec![err_pattern],
        value: err_value,
        guard: None,
    };
    let body = Expr::When {
        cond_var: result_var,
        expr_var: ret_var,
        cond: Box::new(Expr::Var(Symbol::Arg1)),
        branches: vec![ok_branch, err_branch],
    };
    let args = vec![(result_var, Symbol::Arg1), (func_var, Symbol::Arg2)];
    proof {
        assert(args@ =~= seq![(var_at(c + 2), Symbol::Arg1), (var_at(c + 1), Symbol::Arg2)]);
    }
    defn(symbol, args, var_store, body, ret_var)
}

} // verus!
