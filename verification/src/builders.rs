//! Shared constructors for canonical trees, and the spec-level shape
//! predicates their contracts are stated with.
//!
//! Every constructor mints the variables its node needs from the allocator,
//! in a fixed left-to-right order; the shape predicates pin each minted
//! variable as an exact offset from the allocator's starting counter, so a
//! synthesized definition is characterized up to the seed of its allocator.

use vstd::prelude::*;
use crate::types::Annotation;
use crate::types::ClosureData;
use crate::types::Def;
use crate::types::Expr;
use crate::types::FieldName;
use crate::types::LowLevel;
use crate::types::Pattern;
use crate::types::Recursive;
use crate::types::Symbol;
use crate::types::TagName;
use crate::types::VarStore;
use crate::types::Variable;
use crate::types::var_at;

verus! {

/// No synthesis call mints more variables than this; requiring this much
/// headroom of the counter keeps every mint free of overflow.
pub const FRESH_BUDGET: u32 = 64;

/// Shape of a closure node as produced by `defn_help`: each parameter bound
/// as an identifier pattern, no captured bindings, the function and closure
/// variables minted at `c`, and a body satisfying `body_rel`.
pub open spec fn closure_shape(
    e: Expr,
    name: Symbol,
    params: Seq<(Variable, Symbol)>,
    ret_var: Variable,
    c: int,
    body_rel: spec_fn(Expr) -> bool,
) -> bool {
    e matches Expr::Closure(cd)
        && cd.function_type == var_at(c)
        && cd.closure_type == var_at(c + 1)
        && cd.closure_ext_var == var_at(c + 2)
        && cd.return_type == ret_var
        && cd.name == name
        && cd.recursive == Recursive::NotRecursive
        && cd.captured_symbols@.len() == 0
        && cd.arguments@.len() == params.len()
        && (forall|i: int| #![trigger cd.arguments@[i]] 0 <= i < params.len()
            ==> cd.arguments@[i] == (params[i].0, Pattern::Identifier(params[i].1)))
        && body_rel(*cd.body)
}

/// Shape of a top-level definition as produced by `defn`: an identifier
/// binding whose value is a `defn_help` closure minted at `c`, and whose own
/// expression variable is the mint after the closure's three.
pub open spec fn defn_shape(
    d: Def,
    name: Symbol,
    params: Seq<(Variable, Symbol)>,
    ret_var: Variable,
    c: int,
    body_rel: spec_fn(Expr) -> bool,
) -> bool {
    &&& d.pattern == Pattern::Identifier(name)
    &&& d.expr_var == var_at(c + 3)
    &&& d.pattern_vars@.len() == 0
    &&& d.annotation is None
    &&& closure_shape(d.body, name, params, ret_var, c, body_rel)
}

/// Shape of a tagged-variant node as produced by `tag`: variant and
/// extension variables minted at `c`, then one variable per argument, the
/// `i`-th argument expression satisfying `args_rel(i, _)`.
pub open spec fn tag_shape(
    e: Expr,
    name: TagName,
    n_args: int,
    c: int,
    args_rel: spec_fn(int, Expr) -> bool,
) -> bool {
    e matches Expr::Tag { variant_var, ext_var, name: nm, arguments }
        && variant_var == var_at(c)
        && ext_var == var_at(c + 1)
        && nm == name
        && arguments@.len() == n_args
        && (forall|i: int| #![trigger arguments@[i]] 0 <= i < n_args
            ==> arguments@[i].0 == var_at(c + 2 + i) && args_rel(i, arguments@[i].1))
}

/// Shape of `Err(problem)` for a payload-free problem tag: the inner tag's
/// two variables are minted at `c`, then the outer tag's three.
pub open spec fn wrapped_err_shape(e: Expr, problem: TagName, c: int) -> bool {
    tag_shape(
        e,
        TagName::ErrTag,
        1,
        c + 2,
        |i: int, inner: Expr| tag_shape(inner, problem, 0, c, |j: int, a: Expr| true),
    )
}

/// Construct a tagged-variant node: a fresh variant variable, a fresh
/// extension variable (the union stays open for the solver to extend), then
/// one fresh variable per argument, in order.
pub fn tag(name: TagName, args: Vec<Expr>, var_store: &mut VarStore) -> (e: Expr)
    requires
        old(var_store)@ + 2 + args@.len() <= u32::MAX as int,
    ensures
        tag_shape(e, name, args@.len() as int, old(var_store)@, |i: int, a: Expr| a == args@[i]),
        final(var_store)@ == old(var_store)@ + 2 + args@.len(),
{
    let ghost orig = args@;
    let ghost c0 = var_store@;
    let variant_var = var_store.fresh();
    let ext_var = var_store.fresh();
    let mut rest = args;
    let mut arguments: Vec<(Variable, Expr)> = Vec::new();
    while rest.len() > 0
        invariant
            arguments@.len() + rest@.len() == orig.len(),
            rest@ == orig.skip(arguments@.len() as int),
            var_store@ == c0 + 2 + arguments@.len(),
            c0 + 2 + orig.len() <= u32::MAX as int,
            forall|i: int| #![trigger arguments@[i]] 0 <= i < arguments@.len()
                ==> arguments@[i].0 == var_at(c0 + 2 + i) && arguments@[i].1 == orig[i],
        decreases rest@.len(),
    {
        let a = rest.remove(0);
        let v = var_store.fresh();
        arguments.push((v, a));
    }
    Expr::Tag { variant_var, ext_var, name, arguments }
}

/// Construct `Err(problem)` for a payload-free problem tag, the recurring
/// failure branch of the safe-wrapper idiom.
pub fn err_tag(problem: TagName, var_store: &mut VarStore) -> (e: Expr)
    requires
        old(var_store)@ + 5 <= u32::MAX as int,
    ensures
        wrapped_err_shape(e, problem, old(var_store)@),
        final(var_store)@ == old(var_store)@ + 5,
{
    let inner = tag(problem, Vec::new(), var_store);
    tag(TagName::ErrTag, vec![inner], var_store)
}

/// Construct the closure expression of a definition: each parameter becomes
/// an identifier pattern, and fresh function, closure and closure-extension
/// variables are minted, in that order.
pub fn defn_help(
    fn_name: Symbol,
    args: Vec<(Variable, Symbol)>,
    var_store: &mut VarStore,
    body: Expr,
    ret_var: Variable,
) -> (e: Expr)
    requires
        old(var_store)@ + 3 <= u32::MAX as int,
    ensures
        closure_shape(e, fn_name, args@, ret_var, old(var_store)@, |b: Expr| b == body),
        final(var_store)@ == old(var_store)@ + 3,
{
    let ghost orig = args@;
    let mut rest = args;
    let mut closure_args: Vec<(Variable, Pattern)> = Vec::new();
    while rest.len() > 0
        invariant
            closure_args@.len() + rest@.len() == orig.len(),
            rest@ == orig.skip(closure_args@.len() as int),
            forall|i: int| #![trigger closure_args@[i]] 0 <= i < closure_args@.len()
                ==> closure_args@[i] == (orig[i].0, Pattern::Identifier(orig[i].1)),
        decreases rest@.len(),
    {
        let (v, s) = rest.remove(0);
        closure_args.push((v, Pattern::Identifier(s)));
    }
    let function_type = var_store.fresh();
    let closure_type = var_store.fresh();
    let closure_ext_var = var_store.fresh();
    Expr::Closure(ClosureData {
        function_type,
        closure_type,
        closure_ext_var,
        return_type: ret_var,
        name: fn_name,
        recursive: Recursive::NotRecursive,
        captured_symbols: Vec::new(),
        arguments: closure_args,
        body: Box::new(body),
    })
}

/// Construct a top-level definition binding `fn_name` to a closure over the
/// given parameters and body.
pub fn defn(
    fn_name: Symbol,
    args: Vec<(Variable, Symbol)>,
    var_store: &mut VarStore,
    body: Expr,
    ret_var: Variable,
) -> (d: Def)
    requires
        old(var_store)@ + 4 <= u32::MAX as int,
    ensures
        defn_shape(d, fn_name, args@, ret_var, old(var_store)@, |b: Expr| b == body),
        final(var_store)@ == old(var_store)@ + 4,
{
    let expr = defn_help(fn_name, args, var_store, body, ret_var);
    let expr_var = var_store.fresh();
    Def {
        pattern: Pattern::Identifier(fn_name),
        body: expr,
        expr_var,
        pattern_vars: Vec::new(),
        annotation: None,
    }
}

/// The positional parameter symbol for index `i` of a passthrough.
pub open spec fn arg_symbol(i: int) -> Symbol {
    if i == 0 {
        Symbol::Arg1
    } else if i == 1 {
        Symbol::Arg2
    } else if i == 2 {
        Symbol::Arg3
    } else if i == 3 {
        Symbol::Arg4
    } else {
        Symbol::Arg5
    }
}

/// Parameters of an arity-`n` passthrough: positional arguments, the `i`-th
/// typed by the variable minted at `c + i`.
pub open spec fn passthrough_params(c: int, n: int) -> Seq<(Variable, Symbol)> {
    Seq::new(n as nat, |i: int| (var_at(c + i), arg_symbol(i)))
}

/// Body of an arity-`n` passthrough: a single opcode call forwarding the
/// positional arguments in order, its result typed by the variable minted at
/// `c + n`.
pub open spec fn passthrough_body_shape(op: LowLevel, c: int, n: int, e: Expr) -> bool {
    e matches Expr::RunLowLevel { op: op2, args, ret_var }
        && op2 == op
        && ret_var == var_at(c + n)
        && args@.len() == n
        && (forall|i: int| #![trigger args@[i]] 0 <= i < n
            ==> args@[i] == (var_at(c + i), Expr::Var(arg_symbol(i))))
}

/// A direct-passthrough definition of arity `n`: `n` argument variables and
/// a result variable minted from `c`, wrapped by `defn`.
pub open spec fn passthrough_shape(d: Def, sym: Symbol, op: LowLevel, n: int, c: int) -> bool {
    defn_shape(
        d,
        sym,
        passthrough_params(c, n),
        var_at(c + n),
        c + n + 1,
        |e: Expr| passthrough_body_shape(op, c, n, e),
    )
}

/// Synthesize an arity-1 passthrough builtin.
pub fn lowlevel_1(symbol: Symbol, op: LowLevel, var_store: &mut VarStore) -> (d: Def)
    requires
        old(var_store)@ + 6 <= u32::MAX as int,
    ensures
        passthrough_shape(d, symbol, op, 1, old(var_store)@),
        final(var_store)@ == old(var_store)@ + 6,
{
    let ghost c = var_store@;
    let arg1_var = var_store.fresh();
    let ret_var = var_store.fresh();
    let body = Expr::RunLowLevel {
        op,
        args: vec![(arg1_var, Expr::Var(Symbol::Arg1))],
        ret_var,
    };
    let args = vec![(arg1_var, Symbol::Arg1)];
    proof {
        assert(args@ =~= passthrough_params(c, 1));
    }
    defn(symbol, args, var_store, body, ret_var)
}

/// Synthesize an arity-2 passthrough builtin.
pub fn lowlevel_2(symbol: Symbol, op: LowLevel, var_store: &mut VarStore) -> (d: Def)
    requires
        old(var_store)@ + 7 <= u32::MAX as int,
    ensures
        passthrough_shape(d, symbol, op, 2, old(var_store)@),
        final(var_store)@ == old(var_store)@ + 7,
{
    let ghost c = var_store@;
    let arg1_var = var_store.fresh();
    let arg2_var = var_store.fresh();
    let ret_var = var_store.fresh();
    let body = Expr::RunLowLevel {
        op,
        args: vec![
            (arg1_var, Expr::Var(Symbol::Arg1)),
            (arg2_var, Expr::Var(Symbol::Arg2)),
        ],
        ret_var,
    };
    let args = vec![(arg1_var, Symbol::Arg1), (arg2_var, Symbol::Arg2)];
    proof {
        assert(args@ =~= passthrough_params(c, 2));
    }
    defn(symbol, args, var_store, body, ret_var)
}

/// Synthesize an arity-3 passthrough builtin.
pub fn lowlevel_3(symbol: Symbol, op: LowLevel, var_store: &mut VarStore) -> (d: Def)
    requires
        old(var_store)@ + 8 <= u32::MAX as int,
    ensures
        passthrough_shape(d, symbol, op, 3, old(var_store)@),
        final(var_store)@ == old(var_store)@ + 8,
{
    let ghost c = var_store@;
    let arg1_var = var_store.fresh();
    let arg2_var = var_store.fresh();
    let arg3_var = var_store.fresh();
    let ret_var = var_store.fresh();
    let body = Expr::RunLowLevel {
        op,
        args: vec![
            (arg1_var, Expr::Var(Symbol::Arg1)),
            (arg2_var, Expr::Var(Symbol::Arg2)),
            (arg3_var, Expr::Var(Symbol::Arg3)),
        ],
        ret_var,
    };
    let args = vec![
        (arg1_var, Symbol::Arg1),
        (arg2_var, Symbol::Arg2),
        (arg3_var, Symbol::Arg3),
    ];
    proof {
        assert(args@ =~= passthrough_params(c, 3));
    }
    defn(symbol, args, var_store, body, ret_var)
}

/// Synthesize an arity-4 passthrough builtin.
pub fn lowlevel_4(symbol: Symbol, op: LowLevel, var_store: &mut VarStore) -> (d: Def)
    requires
        old(var_store)@ + 9 <= u32::MAX as int,
    ensures
        passthrough_shape(d, symbol, op, 4, old(var_store)@),
        final(var_store)@ == old(var_store)@ + 9,
{
    let ghost c = var_store@;
    let arg1_var = var_store.fresh();
    let arg2_var = var_store.fresh();
    let arg3_var = var_store.fresh();
    let arg4_var = var_store.fresh();
    let ret_var = var_store.fresh();
    let body = Expr::RunLowLevel {
        op,
        args: vec![
            (arg1_var, Expr::Var(Symbol::Arg1)),
            (arg2_var, Expr::Var(Symbol::Arg2)),
            (arg3_var, Expr::Var(Symbol::Arg3)),
            (arg4_var, Expr::Var(Symbol::Arg4)),
        ],
        ret_var,
    };
    let args = vec![
        (arg1_var, Symbol::Arg1),
        (arg2_var, Symbol::Arg2),
        (arg3_var, Symbol::Arg3),
        (arg4_var, Symbol::Arg4),
    ];
    proof {
        assert(args@ =~= passthrough_params(c, 4));
    }
    defn(symbol, args, var_store, body, ret_var)
}

/// Synthesize an arity-5 passthrough builtin.
pub fn lowlevel_5(symbol: Symbol, op: LowLevel, var_store: &mut VarStore) -> (d: Def)
    requires
        old(var_store)@ + 10 <= u32::MAX as int,
    ensures
        passthrough_shape(d, symbol, op, 5, old(var_store)@),
        final(var_store)@ == old(var_store)@ + 10,
{
    let ghost c = var_store@;
    let arg1_var = var_store.fresh();
    let arg2_var = var_store.fresh();
    let arg3_var = var_store.fresh();
    let arg4_var = var_store.fresh();
    let arg5_var = var_store.fresh();
    let ret_var = var_store.fresh();
    let body = Expr::RunLowLevel {
        op,
        args: vec![
            (arg1_var, Expr::Var(Symbol::Arg1)),
            (arg2_var, Expr::Var(Symbol::Arg2)),
            (arg3_var, Expr::Var(Symbol::Arg3)),
            (arg4_var, Expr::Var(Symbol::Arg4)),
            (arg5_var, Expr::Var(Symbol::Arg5)),
        ],
        ret_var,
    };
    let args = vec![
        (arg1_var, Symbol::Arg1),
        (arg2_var, Symbol::Arg2),
        (arg3_var, Symbol::Arg3),
        (arg4_var, Symbol::Arg4),
        (arg5_var, Symbol::Arg5),
    ];
    proof {
        assert(args@ =~= passthrough_params(c, 5));
    }
    defn(symbol, args, var_store, body, ret_var)
}

/// A call of a low-level opcode with one literal argument.
pub open spec fn ll1(e: Expr, op: LowLevel, v1: Variable, a1: Expr, ret: Variable) -> bool {
    e matches Expr::RunLowLevel { op: op2, args, ret_var }
        && op2 == op
        && ret_var == ret
        && args@.len() == 1
        && args@[0] == (v1, a1)
}

/// A call of a low-level opcode with two literal arguments.
pub open spec fn ll2(
    e: Expr,
    op: LowLevel,
    v1: Variable,
    a1: Expr,
    v2: Variable,
    a2: Expr,
    ret: Variable,
) -> bool {
    e matches Expr::RunLowLevel { op: op2, args, ret_var }
        && op2 == op
        && ret_var == ret
        && args@.len() == 2
        && args@[0] == (v1, a1)
        && args@[1] == (v2, a2)
}

/// A call of a low-level opcode with three literal arguments.
pub open spec fn ll3(
    e: Expr,
    op: LowLevel,
    v1: Variable,
    a1: Expr,
    v2: Variable,
    a2: Expr,
    v3: Variable,
    a3: Expr,
    ret: Variable,
) -> bool {
    e matches Expr::RunLowLevel { op: op2, args, ret_var }
        && op2 == op
        && ret_var == ret
        && args@.len() == 3
        && args@[0] == (v1, a1)
        && args@[1] == (v2, a2)
        && args@[2] == (v3, a3)
}

/// Reading one field of the record bound to `of`.
pub open spec fn access_shape(
    e: Expr,
    record: Variable,
    ext: Variable,
    field: FieldName,
    field_var: Variable,
    of: Symbol,
) -> bool {
    e matches Expr::Access { record_var, ext_var, field: f, field_var: fv, record: r }
        && record_var == record
        && ext_var == ext
        && f == field
        && fv == field_var
        && *r == Expr::Var(of)
}

/// A symmetric binary builtin: one variable, minted at `c`, types both
/// arguments and the result, forcing the solver to unify all three.
pub open spec fn binop_shape(d: Def, sym: Symbol, op: LowLevel, c: int) -> bool {
    defn_shape(
        d,
        sym,
        seq![(var_at(c), Symbol::Arg1), (var_at(c), Symbol::Arg2)],
        var_at(c),
        c + 1,
        |e: Expr| ll2(
            e,
            op,
            var_at(c),
            Expr::Var(Symbol::Arg1),
            var_at(c),
            Expr::Var(Symbol::Arg2),
            var_at(c),
        ),
    )
}

/// A binary builtin whose two arguments share one variable (minted at `c`)
/// while the result has its own (minted next): comparisons and the like.
pub open spec fn binop_other_shape(d: Def, sym: Symbol, op: LowLevel, c: int) -> bool {
    defn_shape(
        d,
        sym,
        seq![(var_at(c), Symbol::Arg1), (var_at(c), Symbol::Arg2)],
        var_at(c + 1),
        c + 2,
        |e: Expr| ll2(
            e,
            op,
            var_at(c),
            Expr::Var(Symbol::Arg1),
            var_at(c),
            Expr::Var(Symbol::Arg2),
            var_at(c + 1),
        ),
    )
}

/// A unary builtin whose argument and result share the one variable minted
/// at `c`.
pub open spec fn unary_same_shape(d: Def, sym: Symbol, op: LowLevel, c: int) -> bool {
    defn_shape(
        d,
        sym,
        seq![(var_at(c), Symbol::Arg1)],
        var_at(c),
        c + 1,
        |e: Expr| ll1(e, op, var_at(c), Expr::Var(Symbol::Arg1), var_at(c)),
    )
}

/// A binary builtin with distinct argument variables whose result is typed
/// by the first argument's variable.
pub open spec fn op2_ret_first_shape(d: Def, sym: Symbol, op: LowLevel, c: int) -> bool {
    defn_shape(
        d,
        sym,
        seq![(var_at(c), Symbol::Arg1), (var_at(c + 1), Symbol::Arg2)],
        var_at(c),
        c + 2,
        |e: Expr| ll2(
            e,
            op,
            var_at(c),
            Expr::Var(Symbol::Arg1),
            var_at(c + 1),
            Expr::Var(Symbol::Arg2),
            var_at(c),
        ),
    )
}

/// A unary builtin whose result variable is minted before its argument
/// variable.
pub open spec fn op1_ret_first_shape(d: Def, sym: Symbol, op: LowLevel, c: int) -> bool {
    defn_shape(
        d,
        sym,
        seq![(var_at(c + 1), Symbol::Arg1)],
        var_at(c),
        c + 2,
        |e: Expr| ll1(e, op, var_at(c + 1), Expr::Var(Symbol::Arg1), var_at(c)),
    )
}

/// Synthesize a binary builtin whose result shares the first argument's
/// variable.
pub(crate) fn op2_ret_first(symbol: Symbol, op: LowLevel, var_store: &mut VarStore) -> (d: Def)
    requires
        old(var_store)@ + 6 <= u32::MAX as int,
    ensures
        op2_ret_first_shape(d, symbol, op, old(var_store)@),
        final(var_store)@ == old(var_store)@ + 6,
{
    let ghost c = var_store@;
    let first_var = var_store.fresh();
    let second_var = var_store.fresh();
    let body = Expr::RunLowLevel {
        op,
        args: vec![(first_var, Expr::Var(Symbol::Arg1)), (second_var, Expr::Var(Symbol::Arg2))],
        ret_var: first_var,
    };
    let args = vec![(first_var, Symbol::Arg1), (second_var, Symbol::Arg2)];
    proof {
        assert(args@ =~= seq![(var_at(c), Symbol::Arg1), (var_at(c + 1), Symbol::Arg2)]);
    }
    defn(symbol, args, var_store, body, first_var)
}

/// Synthesize a unary builtin whose result variable is minted before its
/// argument variable.
pub(crate) fn op1_ret_first(symbol: Symbol, op: LowLevel, var_store: &mut VarStore) -> (d: Def)
    requires
        old(var_store)@ + 6 <= u32::MAX as int,
    ensures
        op1_ret_first_shape(d, symbol, op, old(var_store)@),
        final(var_store)@ == old(var_store)@ + 6,
{
    let ghost c = var_store@;
    let ret_var = var_store.fresh();
    let arg_var = var_store.fresh();
    let body = Expr::RunLowLevel {
        op,
        args: vec![(arg_var, Expr::Var(Symbol::Arg1))],
        ret_var,
    };
    let args = vec![(arg_var, Symbol::Arg1)];
    proof {
        assert(args@ =~= seq![(var_at(c + 1), Symbol::Arg1)]);
    }
    defn(symbol, args, var_store, body, ret_var)
}

/// A definition with no annotation binding `symbol` directly to `body` (no
/// closure around it), as used by the constant builtins.
pub open spec fn const_def_shape(d: Def, symbol: Symbol, expr_var: Variable, body_rel: spec_fn(Expr) -> bool) -> bool {
    &&& d.pattern == Pattern::Identifier(symbol)
    &&& d.expr_var == expr_var
    &&& d.pattern_vars@.len() == 0
    &&& d.annotation is None
    &&& body_rel(d.body)
}

/// Assemble a constant definition: identifier pattern, direct body.
pub fn const_def(symbol: Symbol, expr_var: Variable, body: Expr) -> (d: Def)
    ensures
        const_def_shape(d, symbol, expr_var, |e: Expr| e == body),
{
    Def {
        pattern: Pattern::Identifier(symbol),
        body,
        expr_var,
        pattern_vars: Vec::new(),
        annotation: None,
    }
}

/// The shape of a definition annotated with `ann`, used by the one builtin
/// whose literal width must be pinned by the pre-solved signature table.
pub open spec fn annotated_def_shape(d: Def, symbol: Symbol, expr_var: Variable, ann: Annotation, body_rel: spec_fn(Expr) -> bool) -> bool {
    &&& d.pattern == Pattern::Identifier(symbol)
    &&& d.expr_var == expr_var
    &&& d.pattern_vars@.len() == 0
    &&& d.annotation == Some(ann)
    &&& body_rel(d.body)
}

} // verus!
