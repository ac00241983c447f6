//! Synthesizers for the dictionary builtins.

use vstd::prelude::*;
use crate::types::Def;
use crate::types::Expr;
use crate::types::FieldName;
use crate::types::LowLevel;
use crate::types::Pattern;
use crate::types::Symbol;
use crate::types::TagName;
use crate::types::VarStore;
use crate::types::var_at;
use crate::builders::FRESH_BUDGET;
use crate::builders::const_def;
use crate::builders::const_def_shape;
use crate::builders::defn;
use crate::builders::defn_shape;
use crate::builders::err_tag;
use crate::builders::ll2;
use crate::builders::lowlevel_1;
use crate::builders::lowlevel_2;
use crate::builders::lowlevel_3;
use crate::builders::passthrough_shape;
use crate::builders::tag;
use crate::builders::tag_shape;
use crate::builders::wrapped_err_shape;
use crate::lists::nat_var;

verus! {

/// Size of a dictionary: the result is typed by the reserved size variable.
pub open spec fn dict_len_shape(d: Def, sym: Symbol, c: int) -> bool {
    defn_shape(
        d,
        sym,
        seq![(var_at(c), Symbol::Arg1)],
        nat_var(),
        c + 1,
        |e: Expr| ll1_dict_size(c, e),
    )
}

/// The size opcode applied to the first argument.
pub open spec fn ll1_dict_size(c: int, e: Expr) -> bool {
    e matches Expr::RunLowLevel { op, args, ret_var }
        && op == LowLevel::DictSize
        && ret_var == nat_var()
        && args@.len() == 1
        && args@[0] == (var_at(c), Expr::Var(Symbol::Arg1))
}

pub(crate) fn dict_len(symbol: Symbol, var_store: &mut VarStore) -> (d: Def)
    requires
        old(var_store)@ + FRESH_BUDGET as int <= u32::MAX as int,
    ensures
        dict_len_shape(d, symbol, old(var_store)@),
        final(var_store)@ == old(var_store)@ + 5,
{
    let ghost c = var_store@;
    let arg1_var = var_store.fresh();
    let ret_var = crate::types::Variable { id: crate::types::VAR_NAT };
    let body = Expr::RunLowLevel {
        op: LowLevel::DictSize,
        args: vec![(arg1_var, Expr::Var(Symbol::Arg1))],
        ret_var,
    };
    let args = vec![(arg1_var, Symbol::Arg1)];
    proof {
        assert(args@ =~= seq![(var_at(c), Symbol::Arg1)]);
    }
    defn(symbol, args, var_store, body, ret_var)
}

/// The empty dictionary constant: a direct definition, no closure.
pub open spec fn empty_collection_shape(d: Def, sym: Symbol, c: int) -> bool {
    const_def_shape(
        d,
        sym,
        var_at(c),
        |e: Expr| e matches Expr::RunLowLevel { op, args, ret_var }
            && op == LowLevel::DictEmpty
            && ret_var == var_at(c)
            && args@.len() == 0,
    )
}

pub(crate) fn dict_empty(symbol: Symbol, var_store: &mut VarStore) -> (d: Def)
    requires
        old(var_store)@ + FRESH_BUDGET as int <= u32::MAX as int,
    ensures
        empty_collection_shape(d, symbol, old(var_store)@),
        final(var_store)@ == old(var_store)@ + 1,
{
    let dict_var = var_store.fresh();
    let body = Expr::RunLowLevel {
        op: LowLevel::DictEmpty,
        args: Vec::new(),
        ret_var: dict_var,
    };
    const_def(symbol, dict_var, body)
}

/// A one-entry dictionary: insert the key and value into the empty
/// dictionary.
pub open spec fn dict_single_shape(d: Def, sym: Symbol, c: int) -> bool {
    defn_shape(
        d,
        sym,
        seq![(var_at(c), Symbol::Arg1), (var_at(c + 1), Symbol::Arg2)],
        var_at(c + 2),
        c + 3,
        |e: Expr| e matches Expr::RunLowLevel { op, args, ret_var }
            && op == LowLevel::DictInsert
            && ret_var == var_at(c + 2)
            && args@.len() == 3
            && args@[0].0 == var_at(c + 2)
            && (args@[0].1 matches Expr::RunLowLevel { op: eop, args: eargs, ret_var: eret }
                && eop == LowLevel::DictEmpty
                && eret == var_at(c + 2)
                && eargs@.len() == 0)
            && args@[1] == (var_at(c), Expr::Var(Symbol::Arg1))
            && args@[2] == (var_at(c + 1), Expr::Var(Symbol::Arg2)),
    )
}

pub(crate) fn dict_single(symbol: Symbol, var_store: &mut VarStore) -> (d: Def)
    requires
        old(var_store)@ + FRESH_BUDGET as int <= u32::MAX as int,
    ensures
        dict_single_shape(d, symbol, old(var_store)@),
        final(var_store)@ == old(var_store)@ + 7,
{
    let ghost c = var_store@;
    let key_var = var_store.fresh();
    let value_var = var_store.fresh();
    let dict_var = var_store.fresh();
    let empty = Expr::RunLowLevel {
        op: LowLevel::DictEmpty,
        args: Vec::new(),
        ret_var: dict_var,
    };
    let body = Expr::RunLowLevel {
        op: LowLevel::DictInsert,
        args: vec![
            (dict_var, empty),
            (key_var, Expr::Var(Symbol::Arg1)),
            (value_var, Expr::Var(Symbol::Arg2)),
        ],
        ret_var: dict_var,
    };
    let args = vec![(key_var, Symbol::Arg1), (value_var, Symbol::Arg2)];
    proof {
        assert(args@ =~= seq![(var_at(c), Symbol::Arg1), (var_at(c + 1), Symbol::Arg2)]);
    }
    defn(symbol, args, var_store, body, dict_var)
}

pub(crate) fn dict_insert(symbol: Symbol, var_store: &mut VarStore) -> (d: Def)
    requires
        old(var_store)@ + FRESH_BUDGET as int <= u32::MAX as int,
    ensures
        passthrough_shape(d, symbol, LowLevel::DictInsert, 3, old(var_store)@),
        final(var_store)@ == old(var_store)@ + 8,
{
    lowlevel_3(symbol, LowLevel::DictInsert, var_store)
}

pub(crate) fn dict_remove(symbol: Symbol, var_store: &mut VarStore) -> (d: Def)
    requires
        old(var_store)@ + FRESH_BUDGET as int <= u32::MAX as int,
    ensures
        passthrough_shape(d, symbol, LowLevel::DictRemove, 2, old(var_store)@),
        final(var_store)@ == old(var_store)@ + 7,
{
    lowlevel_2(symbol, LowLevel::DictRemove, var_store)
}

pub(crate) fn dict_contains(symbol: Symbol, var_store: &mut VarStore) -> (d: Def)
    requires
        old(var_store)@ + FRESH_BUDGET as int <= u32::MAX as int,
    ensures
        passthrough_shape(d, symbol, LowLevel::DictContains, 2, old(var_store)@),
        final(var_store)@ == old(var_store)@ + 7,
{
    lowlevel_2(symbol, LowLevel::DictContains, var_store)
}

/// Lookup (§4.3 search idiom): bind the unsafe-get opcode's (flag, value)
/// record, guard on the flag, and return `Ok(value)` or `Err(KeyNotFound)`.
pub open spec fn dict_get_body_shape(c: int, e: Expr) -> bool {
    e matches Expr::LetNonRec(def0, cont, ret)
        && ret == var_at(c + 5)
        && (*def0).pattern == Pattern::Identifier(Symbol::DictGetResult)
        && (*def0).expr_var == var_at(c + 6)
        && (*def0).pattern_vars@.len() == 0
        && (*def0).annotation is None
        && ll2(
            (*def0).body,
            LowLevel::DictGetUnsafe,
            var_at(c + 3),
            Expr::Var(Symbol::Arg1),
            var_at(c + 2),
            Expr::Var(Symbol::Arg2),
            var_at(c + 6),
        )
        && (*cont matches Expr::If { cond_var, branch_var, branches, final_else }
            && cond_var == var_at(c)
            && branch_var == var_at(c + 5)
            && branches@.len() == 1
            && (branches@[0].0 matches Expr::Access { record_var, ext_var, field, field_var, record }
                && record_var == var_at(c + 6)
                && ext_var == var_at(c + 8)
                && field == FieldName::Zflag
                && field_var == var_at(c + 1)
                && *record == Expr::Var(Symbol::DictGetResult))
            && tag_shape(
                branches@[0].1,
                TagName::OkTag,
                1,
                c + 9,
                |i: int, a: Expr| a matches Expr::Access { record_var, ext_var, field, field_var, record }
                    && record_var == var_at(c + 6)
                    && ext_var == var_at(c + 7)
                    && field == FieldName::Value
                    && field_var == var_at(c + 4)
                    && *record == Expr::Var(Symbol::DictGetResult),
            )
            && wrapped_err_shape(*final_else, TagName::KeyNotFound, c + 12))
}

pub open spec fn dict_get_shape(d: Def, sym: Symbol, c: int) -> bool {
    defn_shape(
        d,
        sym,
        seq![(var_at(c + 3), Symbol::Arg1), (var_at(c + 2), Symbol::Arg2)],
        var_at(c + 5),
        c + 17,
        |e: Expr| dict_get_body_shape(c, e),
    )
}

pub(crate) fn dict_get(symbol: Symbol, var_store: &mut VarStore) -> (d: Def)
    requires
        old(var_store)@ + FRESH_BUDGET as int <= u32::MAX as int,
    ensures
        dict_get_shape(d, symbol, old(var_store)@),
        final(var_store)@ == old(var_store)@ + 21,
{
    let ghost c = var_store@;
    let bool_var = var_store.fresh();
    let flag_var = var_store.fresh();
    let key_var = var_store.fresh();
    let dict_var = var_store.fresh();
    let value_var = var_store.fresh();
    let ret_var = var_store.fresh();
    let temp_record_var = var_store.fresh();
    let ext_var1 = var_store.fresh();
    let ext_var2 = var_store.fresh();
    let def0 = Def {
        pattern: Pattern::Identifier(Symbol::DictGetResult),
        body: Expr::RunLowLevel {
            op: LowLevel::DictGetUnsafe,
            args: vec![(dict_var, Expr::Var(Symbol::Arg1)), (key_var, Expr::Var(Symbol::Arg2))],
            ret_var: temp_record_var,
        },
        expr_var: temp_record_var,
        pattern_vars: Vec::new(),
        annotation: None,
    };
    let get_value = Expr::Access {
        record_var: temp_record_var,
        ext_var: ext_var1,
        field: FieldName::Value,
        field_var: value_var,
        record: Box::new(Expr::Var(Symbol::DictGetResult)),
    };
    let get_flag = Expr::Access {
        record_var: temp_record_var,
        ext_var: ext_var2,
        field: FieldName::Zflag,
        field_var: flag_var,
        record: Box::new(Expr::Var(Symbol::DictGetResult)),
    };
    let make_ok = tag(TagName::OkTag, vec![get_value], var_store);
    let make_err = err_tag(TagName::KeyNotFound, var_store);
    let inspect = Expr::If {
        cond_var: bool_var,
        branch_var: ret_var,
        branches: vec![(get_flag, make_ok)],
        final_else: Box::new(make_err),
    };
    let body = Expr::LetNonRec(Box::new(def0), Box::new(inspect), ret_var);
    let args = vec![(dict_var, Symbol::Arg1), (key_var, Symbol::Arg2)];
    proof {
        assert(args@ =~= seq![(var_at(c + 3), Symbol::Arg1), (var_at(c + 2), Symbol::Arg2)]);
    }
    defn(symbol, args, var_store, body, ret_var)
}

pub(crate) fn dict_keys(symbol: Symbol, var_store: &mut VarStore) -> (d: Def)
    requires
        old(var_store)@ + FRESH_BUDGET as int <= u32::MAX as int,
    ensures
        passthrough_shape(d, symbol, LowLevel::DictKeys, 1, old(var_store)@),
        final(var_store)@ == old(var_store)@ + 6,
{
    lowlevel_1(symbol, LowLevel::DictKeys, var_store)
}

pub(crate) fn dict_values(symbol: Symbol, var_store: &mut VarStore) -> (d: Def)
    requires
        old(var_store)@ + FRESH_BUDGET as int <= u32::MAX as int,
    ensures
        passthrough_shape(d, symbol, LowLevel::DictValues, 1, old(var_store)@),
        final(var_store)@ == old(var_store)@ + 6,
{
    lowlevel_1(symbol, LowLevel::DictValues, var_store)
}

pub(crate) fn dict_union(symbol: Symbol, var_store: &mut VarStore) -> (d: Def)
    requires
        old(var_store)@ + FRESH_BUDGET as int <= u32::MAX as int,
    ensures
        passthrough_shape(d, symbol, LowLevel::DictUnion, 2, old(var_store)@),
        final(var_store)@ == old(var_store)@ + 7,
{
    lowlevel_2(symbol, LowLevel::DictUnion, var_store)
}

pub(crate) fn dict_difference(symbol: Symbol, var_store: &mut VarStore) -> (d: Def)
    requires
        old(var_store)@ + FRESH_BUDGET as int <= u32::MAX as int,
    ensures
        passthrough_shape(d, symbol, LowLevel::DictDifference, 2, old(var_store)@),
        final(var_store)@ == old(var_store)@ + 7,
{
    lowlevel_2(symbol, LowLevel::DictDifference, var_store)
}

pub(crate) fn dict_intersection(symbol: Symbol, var_store: &mut VarStore) -> (d: Def)
    requires
        old(var_store)@ + FRESH_BUDGET as int <= u32::MAX as int,
    ensures
        passthrough_shape(d, symbol, LowLevel::DictIntersection, 2, old(var_store)@),
        final(var_store)@ == old(var_store)@ + 7,
{
    lowlevel_2(symbol, LowLevel::DictIntersection, var_store)
}

pub(crate) fn dict_walk(symbol: Symbol, var_store: &mut VarStore) -> (d: Def)
    requires
        old(var_store)@ + FRESH_BUDGET as int <= u32::MAX as int,
    ensures
        passthrough_shape(d, symbol, LowLevel::DictWalk, 3, old(var_store)@),
        final(var_store)@ == old(var_store)@ + 8,
{
    lowlevel_3(symbol, LowLevel::DictWalk, var_store)
}

} // verus!
