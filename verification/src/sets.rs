//! Synthesizers for the set builtins. Sets are dictionaries whose values are
//! the empty record, so most of these reuse the dictionary opcodes.

use vstd::prelude::*;
use crate::types::ClosureData;
use crate::types::Def;
use crate::types::Expr;
use crate::types::LowLevel;
use crate::types::Pattern;
use crate::types::Recursive;
use crate::types::Symbol;
use crate::types::VAR_EMPTY_RECORD;
use crate::types::VarStore;
use crate::types::Variable;
use crate::types::var_at;
use crate::builders::FRESH_BUDGET;
use crate::builders::const_def;
use crate::builders::defn;
use crate::builders::defn_shape;
use crate::builders::lowlevel_1;
use crate::builders::lowlevel_2;
use crate::builders::passthrough_shape;
use crate::dicts::empty_collection_shape;

verus! {

/// The reserved empty-record variable.
pub open spec fn empty_record_var() -> Variable {
    Variable { id: VAR_EMPTY_RECORD }
}

pub(crate) fn set_empty(symbol: Symbol, var_store: &mut VarStore) -> (d: Def)
    requires
        old(var_store)@ + FRESH_BUDGET as int <= u32::MAX as int,
    ensures
        empty_collection_shape(d, symbol, old(var_store)@),
        final(var_store)@ == old(var_store)@ + 1,
{
    let set_var = var_store.fresh();
    let body = Expr::RunLowLevel {
        op: LowLevel::DictEmpty,
        args: Vec::new(),
        ret_var: set_var,
    };
    const_def(symbol, set_var, body)
}

/// A one-element set: insert the key, with the empty record as value, into
/// the empty dictionary.
pub open spec fn set_single_shape(d: Def, sym: Symbol, c: int) -> bool {
    defn_shape(
        d,
        sym,
        seq![(var_at(c), Symbol::Arg1)],
        var_at(c + 1),
        c + 2,
        |e: Expr| e matches Expr::RunLowLevel { op, args, ret_var }
            && op == LowLevel::DictInsert
            && ret_var == var_at(c + 1)
            && args@.len() == 3
            && args@[0].0 == var_at(c + 1)
            && (args@[0].1 matches Expr::RunLowLevel { op: eop, args: eargs, ret_var: eret }
                && eop == LowLevel::DictEmpty
                && eret == var_at(c + 1)
                && eargs@.len() == 0)
            && args@[1] == (var_at(c), Expr::Var(Symbol::Arg1))
            && args@[2] == (empty_record_var(), Expr::EmptyRecord),
    )
}

pub(crate) fn set_single(symbol: Symbol, var_store: &mut VarStore) -> (d: Def)
    requires
        old(var_store)@ + FRESH_BUDGET as int <= u32::MAX as int,
    ensures
        set_single_shape(d, symbol, old(var_store)@),
        final(var_store)@ == old(var_store)@ + 6,
{
    let ghost c = var_store@;
    let key_var = var_store.fresh();
    let set_var = var_store.fresh();
    let value_var = Variable { id: VAR_EMPTY_RECORD };
    let empty = Expr::RunLowLevel {
        op: LowLevel::DictEmpty,
        args: Vec::new(),
        ret_var: set_var,
    };
    let body = Expr::RunLowLevel {
        op: LowLevel::DictInsert,
        args: vec![
            (set_var, empty),
            (key_var, Expr::Var(Symbol::Arg1)),
            (value_var, Expr::EmptyRecord),
        ],
        ret_var: set_var,
    };
    let args = vec![(key_var, Symbol::Arg1)];
    proof {
        assert(args@ =~= seq![(var_at(c), Symbol::Arg1)]);
    }
    defn(symbol, args, var_store, body, set_var)
}

pub(crate) fn set_len(symbol: Symbol, var_store: &mut VarStore) -> (d: Def)
    requires
        old(var_store)@ + FRESH_BUDGET as int <= u32::MAX as int,
    ensures
        passthrough_shape(d, symbol, LowLevel::DictSize, 1, old(var_store)@),
        final(var_store)@ == old(var_store)@ + 6,
{
    lowlevel_1(symbol, LowLevel::DictSize, var_store)
}

pub(crate) fn set_union(symbol: Symbol, var_store: &mut VarStore) -> (d: Def)
    requires
        old(var_store)@ + FRESH_BUDGET as int <= u32::MAX as int,
    ensures
        passthrough_shape(d, symbol, LowLevel::DictUnion, 2, old(var_store)@),
        final(var_store)@ == old(var_store)@ + 7,
{
    lowlevel_2(symbol, LowLevel::DictUnion, var_store)
}

pub(crate) fn set_difference(symbol: Symbol, var_store: &mut VarStore) -> (d: Def)
    requires
        old(var_store)@ + FRESH_BUDGET as int <= u32::MAX as int,
    ensures
        passthrough_shape(d, symbol, LowLevel::DictDifference, 2, old(var_store)@),
        final(var_store)@ == old(var_store)@ + 7,
{
    lowlevel_2(symbol, LowLevel::DictDifference, var_store)
}

pub(crate) fn set_intersection(symbol: Symbol, var_store: &mut VarStore) -> (d: Def)
    requires
        old(var_store)@ + FRESH_BUDGET as int <= u32::MAX as int,
    ensures
        passthrough_shape(d, symbol, LowLevel::DictIntersection, 2, old(var_store)@),
        final(var_store)@ == old(var_store)@ + 7,
{
    lowlevel_2(symbol, LowLevel::DictIntersection, var_store)
}

pub(crate) fn set_to_list(symbol: Symbol, var_store: &mut VarStore) -> (d: Def)
    requires
        old(var_store)@ + FRESH_BUDGET as int <= u32::MAX as int,
    ensures
        passthrough_shape(d, symbol, LowLevel::DictKeys, 1, old(var_store)@),
        final(var_store)@ == old(var_store)@ + 6,
{
    crate::dicts::dict_keys(symbol, var_store)
}

pub(crate) fn set_from_list(symbol: Symbol, var_store: &mut VarStore) -> (d: Def)
    requires
        old(var_store)@ + FRESH_BUDGET as int <= u32::MAX as int,
    ensures
        passthrough_shape(d, symbol, LowLevel::SetFromList, 1, old(var_store)@),
        final(var_store)@ == old(var_store)@ + 6,
{
    lowlevel_1(symbol, LowLevel::SetFromList, var_store)
}

/// Insertion into a set: the dictionary insert opcode with the empty record
/// as value.
pub open spec fn set_insert_shape(d: Def, sym: Symbol, c: int) -> bool {
    defn_shape(
        d,
        sym,
        seq![(var_at(c), Symbol::Arg1), (var_at(c + 1), Symbol::Arg2)],
        var_at(c),
        c + 2,
        |e: Expr| e matches Expr::RunLowLevel { op, args, ret_var }
            && op == LowLevel::DictInsert
            && ret_var == var_at(c)
            && args@.len() == 3
            && args@[0] == (var_at(c), Expr::Var(Symbol::Arg1))
            && args@[1] == (var_at(c + 1), Expr::Var(Symbol::Arg2))
            && args@[2] == (empty_record_var(), Expr::EmptyRecord),
    )
}

pub(crate) fn set_insert(symbol: Symbol, var_store: &mut VarStore) -> (d: Def)
    requires
        old(var_store)@ + FRESH_BUDGET as int <= u32::MAX as int,
    ensures
        set_insert_shape(d, symbol, old(var_store)@),
        final(var_store)@ == old(var_store)@ + 6,
{
    let ghost c = var_store@;
    let dict_var = var_store.fresh();
    let key_var = var_store.fresh();
    let val_var = Variable { id: VAR_EMPTY_RECORD };
    let body = Expr::RunLowLevel {
        op: LowLevel::DictInsert,
        args: vec![
            (dict_var, Expr::Var(Symbol::Arg1)),
            (key_var, Expr::Var(Symbol::Arg2)),
            (val_var, Expr::EmptyRecord),
        ],
        ret_var: dict_var,
    };
    let args = vec![(dict_var, Symbol::Arg1), (key_var, Symbol::Arg2)];
    proof {
        assert(args@ =~= seq![(var_at(c), Symbol::Arg1), (var_at(c + 1), Symbol::Arg2)]);
    }
    defn(symbol, args, var_store, body, dict_var)
}

pub(crate) fn set_remove(symbol: Symbol, var_store: &mut VarStore) -> (d: Def)
    requires
        old(var_store)@ + FRESH_BUDGET as int <= u32::MAX as int,
    ensures
        passthrough_shape(d, symbol, LowLevel::DictRemove, 2, old(var_store)@),
        final(var_store)@ == old(var_store)@ + 7,
{
    crate::dicts::dict_remove(symbol, var_store)
}

pub(crate) fn set_contains(symbol: Symbol, var_store: &mut VarStore) -> (d: Def)
    requires
        old(var_store)@ + FRESH_BUDGET as int <= u32::MAX as int,
    ensures
        passthrough_shape(d, symbol, LowLevel::DictContains, 2, old(var_store)@),
        final(var_store)@ == old(var_store)@ + 7,
{
    crate::dicts::dict_contains(symbol, var_store)
}

/// The wrapper closure of set-walk: forward the accumulator and key to the
/// captured user function, ignoring the empty-record value.
pub open spec fn set_walk_wrapper_shape(e: Expr, c: int) -> bool {
    e matches Expr::Closure(cd)
        && cd.function_type == var_at(c + 4)
        && cd.closure_type == var_at(c + 6)
        && cd.closure_ext_var == var_at(c + 7)
        && cd.return_type == var_at(c + 3)
        && cd.name == Symbol::SetWalkUserFunction
        && cd.recursive == Recursive::NotRecursive
        && cd.captured_symbols@.len() == 1
        && cd.captured_symbols@[0] == (Symbol::Arg3, var_at(c + 1))
        && cd.arguments@.len() == 3
        && cd.arguments@[0] == (var_at(c + 3), Pattern::Identifier(Symbol::Arg5))
        && cd.arguments@[1] == (var_at(c + 2), Pattern::Identifier(Symbol::Arg6))
        && cd.arguments@[2] == (empty_record_var(), Pattern::Underscore)
        && (*cd.body matches Expr::Call { fn_var, fn_expr, closure_var, ret_var, args }
            && fn_var == var_at(c + 1)
            && *fn_expr == Expr::Var(Symbol::Arg3)
            && closure_var == var_at(c + 5)
            && ret_var == var_at(c + 3)
            && args@.len() == 2
            && args@[0] == (var_at(c + 3), Expr::Var(Symbol::Arg5))
            && args@[1] == (var_at(c + 2), Expr::Var(Symbol::Arg6)))
}

/// Set-walk: the dictionary walk opcode over a wrapper closure that drops
/// the value argument.
pub open spec fn set_walk_shape(d: Def, sym: Symbol, c: int) -> bool {
    defn_shape(
        d,
        sym,
        seq![
            (var_at(c), Symbol::Arg1),
            (var_at(c + 3), Symbol::Arg2),
            (var_at(c + 1), Symbol::Arg3),
        ],
        var_at(c + 3),
        c + 8,
        |e: Expr| e matches Expr::RunLowLevel { op, args, ret_var }
            && op == LowLevel::DictWalk
            && ret_var == var_at(c + 3)
            && args@.len() == 3
            && args@[0] == (var_at(c), Expr::Var(Symbol::Arg1))
            && args@[1] == (var_at(c + 3), Expr::Var(Symbol::Arg2))
            && args@[2].0 == var_at(c + 4)
            && set_walk_wrapper_shape(args@[2].1, c),
    )
}

pub(crate) fn set_walk(symbol: Symbol, var_store: &mut VarStore) -> (d: Def)
    requires
        old(var_store)@ + FRESH_BUDGET as int <= u32::MAX as int,
    ensures
        set_walk_shape(d, symbol, old(var_store)@),
        final(var_store)@ == old(var_store)@ + 12,
{
    let ghost c = var_store@;
    let dict_var = var_store.fresh();
    let func_var = var_store.fresh();
    let key_var = var_store.fresh();
    let accum_var = var_store.fresh();
    let wrapper_var = var_store.fresh();
    let user_closure_var = var_store.fresh();
    let call_func = Expr::Call {
        fn_var: func_var,
        fn_expr: Box::new(Expr::Var(Symbol::Arg3)),
        closure_var: user_closure_var,
        ret_var: accum_var,
        args: vec![(accum_var, Expr::Var(Symbol::Arg5)), (key_var, Expr::Var(Symbol::Arg6))],
    };
    let closure_type = var_store.fresh();
    let closure_ext_var = var_store.fresh();
    let wrapper = Expr::Closure(ClosureData {
        function_type: wrapper_var,
        closure_type,
        closure_ext_var,
        return_type: accum_var,
        name: Symbol::SetWalkUserFunction,
        recursive: Recursive::NotRecursive,
        captured_symbols: vec![(Symbol::Arg3, func_var)],
        arguments: vec![
            (accum_var, Pattern::Identifier(Symbol::Arg5)),
            (key_var, Pattern::Identifier(Symbol::Arg6)),
            (Variable { id: VAR_EMPTY_RECORD }, Pattern::Underscore),
        ],
        body: Box::new(call_func),
    });
    let body = Expr::RunLowLevel {
        op: LowLevel::DictWalk,
        args: vec![
            (dict_var, Expr::Var(Symbol::Arg1)),
            (accum_var, Expr::Var(Symbol::Arg2)),
            (wrapper_var, wrapper),
        ],
        ret_var: accum_var,
    };
    let args = vec![
        (dict_var, Symbol::Arg1),
        (accum_var, Symbol::Arg2),
        (func_var, Symbol::Arg3),
    ];
    proof {
        assert(args@ =~= seq![
            (var_at(c), Symbol::Arg1),
            (var_at(c + 3), Symbol::Arg2),
            (var_at(c + 1), Symbol::Arg3),
        ]);
    }
    defn(symbol, args, var_store, body, accum_var)
}

} // verus!
