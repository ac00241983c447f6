//! Alpha-equivalence of synthesized trees, and the laws of the synthesizer:
//! synthesis is deterministic up to a consistent renaming of variable
//! handles (`lemma_alpha_determinism`), freshly minted handles never collide
//! within one call or across calls, and the safe-wrapper builtins all share
//! one guarded tree shape.

use vstd::prelude::*;
use crate::types::Annotation;
use crate::types::Def;
use crate::types::Expr;
use crate::types::FIRST_USER_VAR;
use crate::types::LowLevel;
use crate::types::Pattern;
use crate::types::Symbol;
use crate::types::TagName;
use crate::types::Variable;
use crate::types::WhenBranch;
use crate::types::is_reserved_var;
use crate::types::var_at;
use crate::dispatch::builtin_def_rel;

verus! {

/// The variable renaming between two runs of one synthesizer whose
/// allocators started `delta` apart: a reserved handle maps to itself, a
/// minted handle shifts by `delta`.
pub open spec fn vars_match(v1: Variable, v2: Variable, delta: int) -> bool {
    if is_reserved_var(v1) {
        v2 == v1
    } else {
        !is_reserved_var(v2) && v2.id == v1.id + delta
    }
}

/// Structural equality of two expressions up to the uniform renaming
/// `vars_match(_, _, delta)` of their variable handles.
pub open spec fn alpha_eq_expr(e1: Expr, e2: Expr, delta: int) -> bool
    decreases e1,
{
    match (e1, e2) {
        (Expr::Var(s1), Expr::Var(s2)) => s1 == s2,
        (Expr::Num(v1, n1), Expr::Num(v2, n2)) => vars_match(v1, v2, delta) && n1 == n2,
        (Expr::Int(a1, b1, n1), Expr::Int(a2, b2, n2)) => vars_match(a1, a2, delta)
            && vars_match(b1, b2, delta)
            && n1 == n2,
        (Expr::Float(a1, b1, n1), Expr::Float(a2, b2, n2)) => vars_match(a1, a2, delta)
            && vars_match(b1, b2, delta)
            && n1 == n2,
        (Expr::EmptyRecord, Expr::EmptyRecord) => true,
        (Expr::List { elem_var: v1, elems: es1 }, Expr::List { elem_var: v2, elems: es2 }) => {
            vars_match(v1, v2, delta)
                && es1.len() == es2.len()
                && (forall|i: int| 0 <= i < es1.len()
                    ==> alpha_eq_expr(#[trigger] es1[i], es2[i], delta))
        },
        (
            Expr::RunLowLevel { op: o1, args: a1, ret_var: r1 },
            Expr::RunLowLevel { op: o2, args: a2, ret_var: r2 },
        ) => {
            o1 == o2
                && vars_match(r1, r2, delta)
                && a1.len() == a2.len()
                && (forall|i: int| 0 <= i < a1.len()
                    ==> vars_match((#[trigger] a1[i]).0, a2[i].0, delta)
                        && alpha_eq_expr(a1[i].1, a2[i].1, delta))
        },
        (
            Expr::If { cond_var: c1, branch_var: b1, branches: br1, final_else: f1 },
            Expr::If { cond_var: c2, branch_var: b2, branches: br2, final_else: f2 },
        ) => {
            vars_match(c1, c2, delta)
                && vars_match(b1, b2, delta)
                && br1.len() == br2.len()
                && (forall|i: int| 0 <= i < br1.len()
                    ==> alpha_eq_expr((#[trigger] br1[i]).0, br2[i].0, delta)
                        && alpha_eq_expr(br1[i].1, br2[i].1, delta))
                && alpha_eq_expr(*f1, *f2, delta)
        },
        (
            Expr::When { cond_var: c1, expr_var: x1, cond: k1, branches: br1 },
            Expr::When { cond_var: c2, expr_var: x2, cond: k2, branches: br2 },
        ) => {
            vars_match(c1, c2, delta)
                && vars_match(x1, x2, delta)
                && alpha_eq_expr(*k1, *k2, delta)
                && br1.len() == br2.len()
                && (forall|i: int| 0 <= i < br1.len()
                    ==> alpha_eq_branch(#[trigger] br1[i], br2[i], delta))
        },
        (Expr::LetNonRec(d1, k1, v1), Expr::LetNonRec(d2, k2, v2)) => {
            alpha_eq_def(*d1, *d2, delta)
                && alpha_eq_expr(*k1, *k2, delta)
                && vars_match(v1, v2, delta)
        },
        (
            Expr::Access { record_var: r1, ext_var: x1, field: f1, field_var: v1, record: e1i },
            Expr::Access { record_var: r2, ext_var: x2, field: f2, field_var: v2, record: e2i },
        ) => {
            vars_match(r1, r2, delta)
                && vars_match(x1, x2, delta)
                && f1 == f2
                && vars_match(v1, v2, delta)
                && alpha_eq_expr(*e1i, *e2i, delta)
        },
        (
            Expr::Tag { variant_var: v1, ext_var: x1, name: n1, arguments: a1 },
            Expr::Tag { variant_var: v2, ext_var: x2, name: n2, arguments: a2 },
        ) => {
            vars_match(v1, v2, delta)
                && vars_match(x1, x2, delta)
                && n1 == n2
                && a1.len() == a2.len()
                && (forall|i: int| 0 <= i < a1.len()
                    ==> vars_match((#[trigger] a1[i]).0, a2[i].0, delta)
                        && alpha_eq_expr(a1[i].1, a2[i].1, delta))
        },
        (Expr::Closure(cd1), Expr::Closure(cd2)) => {
            vars_match(cd1.function_type, cd2.function_type, delta)
                && vars_match(cd1.closure_type, cd2.closure_type, delta)
                && vars_match(cd1.closure_ext_var, cd2.closure_ext_var, delta)
                && vars_match(cd1.return_type, cd2.return_type, delta)
                && cd1.name == cd2.name
                && cd1.recursive == cd2.recursive
                && cd1.captured_symbols.len() == cd2.captured_symbols.len()
                && (forall|i: int| 0 <= i < cd1.captured_symbols.len()
                    ==> (#[trigger] cd1.captured_symbols[i]).0 == cd2.captured_symbols[i].0
                        && vars_match(cd1.captured_symbols[i].1, cd2.captured_symbols[i].1, delta))
                && cd1.arguments.len() == cd2.arguments.len()
                && (forall|i: int| 0 <= i < cd1.arguments.len()
                    ==> vars_match((#[trigger] cd1.arguments[i]).0, cd2.arguments[i].0, delta)
                        && alpha_eq_pattern(cd1.arguments[i].1, cd2.arguments[i].1, delta))
                && alpha_eq_expr(*cd1.body, *cd2.body, delta)
        },
        (
            Expr::Call { fn_var: f1, fn_expr: e1i, closure_var: c1, ret_var: r1, args: a1 },
            Expr::Call { fn_var: f2, fn_expr: e2i, closure_var: c2, ret_var: r2, args: a2 },
        ) => {
            vars_match(f1, f2, delta)
                && alpha_eq_expr(*e1i, *e2i, delta)
                && vars_match(c1, c2, delta)
                && vars_match(r1, r2, delta)
                && a1.len() == a2.len()
                && (forall|i: int| 0 <= i < a1.len()
                    ==> vars_match((#[trigger] a1[i]).0, a2[i].0, delta)
                        && alpha_eq_expr(a1[i].1, a2[i].1, delta))
        },
        _ => false,
    }
}

/// Alpha-equivalence of match arms.
pub open spec fn alpha_eq_branch(b1: WhenBranch, b2: WhenBranch, delta: int) -> bool
    decreases b1,
{
    b1.patterns.len() == b2.patterns.len()
        && (forall|i: int| 0 <= i < b1.patterns.len()
            ==> alpha_eq_pattern(#[trigger] b1.patterns[i], b2.patterns[i], delta))
        && alpha_eq_expr(b1.value, b2.value, delta)
        && (match (b1.guard, b2.guard) {
            (None, None) => true,
            (Some(g1), Some(g2)) => alpha_eq_expr(g1, g2, delta),
            _ => false,
        })
}

/// Alpha-equivalence of patterns.
pub open spec fn alpha_eq_pattern(p1: Pattern, p2: Pattern, delta: int) -> bool
    decreases p1,
{
    match (p1, p2) {
        (Pattern::Identifier(s1), Pattern::Identifier(s2)) => s1 == s2,
        (Pattern::Underscore, Pattern::Underscore) => true,
        (
            Pattern::AppliedTag { whole_var: w1, ext_var: x1, name: n1, arguments: a1 },
            Pattern::AppliedTag { whole_var: w2, ext_var: x2, name: n2, arguments: a2 },
        ) => {
            vars_match(w1, w2, delta)
                && vars_match(x1, x2, delta)
                && n1 == n2
                && a1.len() == a2.len()
                && (forall|i: int| 0 <= i < a1.len()
                    ==> vars_match((#[trigger] a1[i]).0, a2[i].0, delta)
                        && alpha_eq_pattern(a1[i].1, a2[i].1, delta))
        },
        _ => false,
    }
}

/// Alpha-equivalence of whole definitions: same shape, same names, and the
/// variable handles related by the uniform renaming.
pub open spec fn alpha_eq_def(d1: Def, d2: Def, delta: int) -> bool
    decreases d1,
{
    alpha_eq_pattern(d1.pattern, d2.pattern, delta)
        && alpha_eq_expr(d1.body, d2.body, delta)
        && vars_match(d1.expr_var, d2.expr_var, delta)
        && d1.pattern_vars.len() == d2.pattern_vars.len()
        && (forall|i: int| 0 <= i < d1.pattern_vars.len()
            ==> (#[trigger] d1.pattern_vars[i]).0 == d2.pattern_vars[i].0
                && vars_match(d1.pattern_vars[i].1, d2.pattern_vars[i].1, delta))
        && d1.annotation == d2.annotation
}

/// Handles minted by one allocator are pairwise distinct: within a single
/// synthesis call two mints coincide only when they are the same mint, so a
/// definition aliases a handle only where its shape pins the same mint
/// offset into two slots on purpose.
pub proof fn lemma_minted_handles_distinct(c: int, i: int, j: int)
    requires
        0 <= i,
        0 <= j,
        c + i <= u32::MAX as int,
        c + j <= u32::MAX as int,
        0 <= c,
        i != j,
    ensures
        var_at(c + i) != var_at(c + j),
{
}

/// A handle minted from a counter that starts above the reserved range is
/// never a reserved handle.
pub proof fn lemma_minted_handles_not_reserved(c: int, i: int)
    requires
        FIRST_USER_VAR as int <= c,
        0 <= i,
        c + i <= u32::MAX as int,
    ensures
        !is_reserved_var(var_at(c + i)),
{
}

/// Handles minted by two synthesis calls whose counter ranges are disjoint
/// never collide: a variable is reused across definitions only if it is one
/// of the reserved handles.
pub proof fn lemma_no_cross_call_aliasing(c1: int, k1: int, c2: int, k2: int, i1: int, i2: int)
    requires
        0 <= c1,
        c1 + k1 <= c2,
        c2 + k2 <= u32::MAX as int,
        0 <= i1 < k1,
        0 <= i2 < k2,
    ensures
        var_at(c1 + i1) != var_at(c2 + i2),
{
}

/// Guard opcodes of the safe-wrapper idiom: relational and equality
/// comparisons.
pub open spec fn is_comparison_op(op: LowLevel) -> bool {
    op == LowLevel::ValueEq
        || op == LowLevel::ValueNotEq
        || op == LowLevel::NumLt
        || op == LowLevel::NumLte
        || op == LowLevel::NumGt
        || op == LowLevel::NumGte
}

/// A failure branch of the safe-wrapper idiom: a payload-free problem tag
/// wrapped in the error constructor.
pub open spec fn bare_error_value(e: Expr) -> bool {
    e matches Expr::Tag { name, arguments, .. }
        && name == TagName::ErrTag
        && arguments@.len() == 1
        && (arguments@[0].1 matches Expr::Tag { name: problem, arguments: pargs, .. }
            && problem != TagName::ErrTag
            && problem != TagName::OkTag
            && pargs@.len() == 0)
}

/// The safe-wrapper tree: one guarded branch whose guard is a comparison
/// opcode call, and a failure else-branch carrying a bare problem tag in an
/// error constructor.
pub open spec fn safe_wrapper_shape(e: Expr) -> bool {
    e matches Expr::If { branches, final_else, .. }
        && branches@.len() == 1
        && (branches@[0].0 matches Expr::RunLowLevel { op, .. } && is_comparison_op(op))
        && bare_error_value(*final_else)
}

/// The builtins whose definition body is exactly the comparison-guarded
/// safe wrapper.
pub open spec fn is_comparison_wrapped_builtin(sym: Symbol) -> bool {
    match sym {
        Symbol::NumRem => true,
        Symbol::NumDivFloat => true,
        Symbol::NumDivInt => true,
        Symbol::NumDivCeil => true,
        Symbol::NumSqrt => true,
        Symbol::NumLog => true,
        Symbol::NumBytesToU16 => true,
        Symbol::NumBytesToU32 => true,
        Symbol::ListGet => true,
        Symbol::ListFirst => true,
        Symbol::ListLast => true,
        Symbol::ListMin => true,
        Symbol::ListMax => true,
        Symbol::StrFromUtf8Range => true,
        _ => false,
    }
}

/// Safe-wrapper shape law: every builtin of the comparison-guarded family
/// synthesizes a closure whose whole body is `If(guard, success, failure)`
/// with a comparison-opcode guard and a payload-free problem tag wrapped in
/// the error constructor as the failure branch.
pub proof fn lemma_safe_wrapper_shape(sym: Symbol, c: int, d: Def)
    requires
        builtin_def_rel(sym, c, d),
        is_comparison_wrapped_builtin(sym),
    ensures
        d.body matches Expr::Closure(cd) && safe_wrapper_shape(*cd.body),
{
}

/// Companion law for the bind-then-test wrappers (checked arithmetic): the
/// body binds the opcode's record and continues into a conditional whose
/// guard reads the overflow flag, whose guarded branch is the bare overflow
/// tag wrapped in the error constructor, and whose else-branch succeeds.
pub proof fn lemma_checked_wrapper_shape(sym: Symbol, c: int, d: Def)
    requires
        builtin_def_rel(sym, c, d),
        sym == Symbol::NumAddChecked || sym == Symbol::NumSubChecked || sym == Symbol::NumMulChecked,
    ensures
        d.body matches Expr::Closure(cd)
            && (*cd.body matches Expr::LetNonRec(bind, cont, v)
                && (*cont matches Expr::If { branches, final_else, .. }
                    && branches@.len() == 1
                    && (branches@[0].0 matches Expr::Access { field, .. } && field == crate::types::FieldName::B)
                    && bare_error_value(branches@[0].1)
                    && (*final_else matches Expr::Tag { name, .. } && name == TagName::OkTag))),
{
}

} // verus!

verus! {

/// Two runs of one passthrough synthesizer, from counters `c1` and `c2`,
/// produce alpha-equivalent definitions under the uniform shift renaming.
pub proof fn lemma_alpha_passthrough(sym: Symbol, op: LowLevel, n: int, c1: int, c2: int, d1: Def, d2: Def)
    requires
        FIRST_USER_VAR as int <= c1,
        FIRST_USER_VAR as int <= c2,
        c1 + crate::builders::FRESH_BUDGET as int <= u32::MAX as int,
        c2 + crate::builders::FRESH_BUDGET as int <= u32::MAX as int,
        1 <= n <= 5,
        crate::builders::passthrough_shape(d1, sym, op, n, c1),
        crate::builders::passthrough_shape(d2, sym, op, n, c2),
    ensures
        alpha_eq_def(d1, d2, c2 - c1),
{
    let delta = c2 - c1;
    reveal_with_fuel(alpha_eq_expr, 3);
    reveal_with_fuel(alpha_eq_pattern, 2);
    match (d1.body, d2.body) {
        (Expr::Closure(cd1), Expr::Closure(cd2)) => {
            assert forall|i: int| 0 <= i < cd1.arguments.len()
                implies vars_match((#[trigger] cd1.arguments[i]).0, cd2.arguments[i].0, delta)
                    && alpha_eq_pattern(cd1.arguments[i].1, cd2.arguments[i].1, delta)
            by {
                let p1 = crate::builders::passthrough_params(c1, n);
                let p2 = crate::builders::passthrough_params(c2, n);
                assert(cd1.arguments@[i] == (p1[i].0, Pattern::Identifier(p1[i].1)));
                assert(cd2.arguments@[i] == (p2[i].0, Pattern::Identifier(p2[i].1)));
            }
            match (*cd1.body, *cd2.body) {
                (
                    Expr::RunLowLevel { op: o1, args: a1, ret_var: r1 },
                    Expr::RunLowLevel { op: o2, args: a2, ret_var: r2 },
                ) => {
                    assert forall|i: int| 0 <= i < a1.len()
                        implies vars_match((#[trigger] a1[i]).0, a2[i].0, delta)
                            && alpha_eq_expr(a1[i].1, a2[i].1, delta)
                    by {
                        assert(a1@[i] == (var_at(c1 + i), Expr::Var(crate::builders::arg_symbol(i))));
                        assert(a2@[i] == (var_at(c2 + i), Expr::Var(crate::builders::arg_symbol(i))));
                    }
                    assert(alpha_eq_expr(*cd1.body, *cd2.body, delta));
                },
                _ => {},
            }
            assert(alpha_eq_expr(d1.body, d2.body, delta));
        },
        _ => {},
    }
    assert(alpha_eq_pattern(d1.pattern, d2.pattern, delta));
}

} // verus!

verus! {

/// Alpha-equivalence of two `defn`-shaped definitions follows from matching
/// names, pointwise-matching parameters, matching result variables and
/// alpha-equivalent bodies.
pub proof fn lemma_alpha_defn(
    d1: Def,
    d2: Def,
    name: Symbol,
    params1: Seq<(Variable, Symbol)>,
    params2: Seq<(Variable, Symbol)>,
    ret1: Variable,
    ret2: Variable,
    c_a: int,
    c_b: int,
    delta: int,
    rel1: spec_fn(Expr) -> bool,
    rel2: spec_fn(Expr) -> bool,
)
    requires
        crate::builders::defn_shape(d1, name, params1, ret1, c_a, rel1),
        crate::builders::defn_shape(d2, name, params2, ret2, c_b, rel2),
        delta == c_b - c_a,
        FIRST_USER_VAR as int <= c_a,
        FIRST_USER_VAR as int <= c_b,
        c_a + 4 <= u32::MAX as int,
        c_b + 4 <= u32::MAX as int,
        params1.len() == params2.len(),
        forall|i: int| 0 <= i < params1.len()
            ==> vars_match((#[trigger] params1[i]).0, params2[i].0, delta)
                && params1[i].1 == params2[i].1,
        vars_match(ret1, ret2, delta),
        forall|x1: Expr, x2: Expr| #[trigger] rel1(x1) && #[trigger] rel2(x2)
            ==> alpha_eq_expr(x1, x2, delta),
    ensures
        alpha_eq_def(d1, d2, delta),
{
    reveal_with_fuel(alpha_eq_expr, 2);
    reveal_with_fuel(alpha_eq_pattern, 2);
    match (d1.body, d2.body) {
        (Expr::Closure(cd1), Expr::Closure(cd2)) => {
            assert forall|i: int| 0 <= i < cd1.arguments.len()
                implies vars_match((#[trigger] cd1.arguments[i]).0, cd2.arguments[i].0, delta)
                    && alpha_eq_pattern(cd1.arguments[i].1, cd2.arguments[i].1, delta)
            by {
                assert(cd1.arguments@[i] == (params1[i].0, Pattern::Identifier(params1[i].1)));
                assert(cd2.arguments@[i] == (params2[i].0, Pattern::Identifier(params2[i].1)));
            }
            assert(rel1(*cd1.body) && rel2(*cd2.body));
            assert(alpha_eq_expr(d1.body, d2.body, delta));
        },
        _ => {},
    }
    assert(alpha_eq_pattern(d1.pattern, d2.pattern, delta));
}

/// Alpha-equivalence of two `tag`-shaped nodes with the same name and
/// arity, given pointwise alpha-equivalent argument payloads.
pub proof fn lemma_alpha_tag(
    e1: Expr,
    e2: Expr,
    name: TagName,
    n: int,
    c_a: int,
    c_b: int,
    delta: int,
    r1: spec_fn(int, Expr) -> bool,
    r2: spec_fn(int, Expr) -> bool,
)
    requires
        crate::builders::tag_shape(e1, name, n, c_a, r1),
        crate::builders::tag_shape(e2, name, n, c_b, r2),
        delta == c_b - c_a,
        FIRST_USER_VAR as int <= c_a,
        FIRST_USER_VAR as int <= c_b,
        0 <= n,
        c_a + 2 + n <= u32::MAX as int,
        c_b + 2 + n <= u32::MAX as int,
        forall|i: int, x1: Expr, x2: Expr|
            0 <= i < n && #[trigger] r1(i, x1) && #[trigger] r2(i, x2)
                ==> alpha_eq_expr(x1, x2, delta),
    ensures
        alpha_eq_expr(e1, e2, delta),
{
    reveal_with_fuel(alpha_eq_expr, 2);
    match (e1, e2) {
        (
            Expr::Tag { variant_var: v1, ext_var: x1, name: n1, arguments: a1 },
            Expr::Tag { variant_var: v2, ext_var: x2, name: n2, arguments: a2 },
        ) => {
            assert forall|i: int| 0 <= i < a1.len()
                implies vars_match((#[trigger] a1[i]).0, a2[i].0, delta)
                    && alpha_eq_expr(a1[i].1, a2[i].1, delta)
            by {
                assert(a1@[i].0 == var_at(c_a + 2 + i) && r1(i, a1@[i].1));
                assert(a2@[i].0 == var_at(c_b + 2 + i) && r2(i, a2@[i].1));
            }
        },
        _ => {},
    }
}

/// Alpha-equivalence of two `Err(problem)` nodes built from the same
/// payload-free problem tag.
pub proof fn lemma_alpha_wrapped_err(e1: Expr, e2: Expr, problem: TagName, c_a: int, c_b: int, delta: int)
    requires
        crate::builders::wrapped_err_shape(e1, problem, c_a),
        crate::builders::wrapped_err_shape(e2, problem, c_b),
        delta == c_b - c_a,
        FIRST_USER_VAR as int <= c_a,
        FIRST_USER_VAR as int <= c_b,
        c_a + 5 <= u32::MAX as int,
        c_b + 5 <= u32::MAX as int,
    ensures
        alpha_eq_expr(e1, e2, delta),
{
    let r1 = |i: int, inner: Expr| crate::builders::tag_shape(inner, problem, 0, c_a, |j: int, a: Expr| true);
    let r2 = |i: int, inner: Expr| crate::builders::tag_shape(inner, problem, 0, c_b, |j: int, a: Expr| true);
    assert forall|i: int, x1: Expr, x2: Expr|
        0 <= i < 1 && #[trigger] r1(i, x1) && #[trigger] r2(i, x2)
            implies alpha_eq_expr(x1, x2, delta)
    by {
        lemma_alpha_tag(
            x1,
            x2,
            problem,
            0,
            c_a,
            c_b,
            delta,
            |j: int, a: Expr| true,
            |j: int, a: Expr| true,
        );
    }
    lemma_alpha_tag(e1, e2, TagName::ErrTag, 1, c_a + 2, c_b + 2, delta, r1, r2);
}

/// Alpha-equivalence of two single-argument opcode calls with matching
/// variables and alpha-equivalent payloads.
pub proof fn lemma_alpha_ll1(
    e1: Expr,
    e2: Expr,
    op: LowLevel,
    x1: (Variable, Expr),
    x2: (Variable, Expr),
    r1: Variable,
    r2: Variable,
    delta: int,
)
    requires
        crate::builders::ll1(e1, op, x1.0, x1.1, r1),
        crate::builders::ll1(e2, op, x2.0, x2.1, r2),
        vars_match(x1.0, x2.0, delta),
        alpha_eq_expr(x1.1, x2.1, delta),
        vars_match(r1, r2, delta),
    ensures
        alpha_eq_expr(e1, e2, delta),
{
    reveal_with_fuel(alpha_eq_expr, 2);
    match (e1, e2) {
        (
            Expr::RunLowLevel { op: o1, args: a1, ret_var: rv1 },
            Expr::RunLowLevel { op: o2, args: a2, ret_var: rv2 },
        ) => {
            assert forall|i: int| 0 <= i < a1.len()
                implies vars_match((#[trigger] a1[i]).0, a2[i].0, delta)
                    && alpha_eq_expr(a1[i].1, a2[i].1, delta)
            by {
                assert(a1@[i] == (x1.0, x1.1));
                assert(a2@[i] == (x2.0, x2.1));
            }
        },
        _ => {},
    }
}

/// Alpha-equivalence of two two-argument opcode calls with matching
/// variables and alpha-equivalent payloads.
pub proof fn lemma_alpha_ll2(
    e1: Expr,
    e2: Expr,
    op: LowLevel,
    x1: (Variable, Expr),
    y1: (Variable, Expr),
    x2: (Variable, Expr),
    y2: (Variable, Expr),
    r1: Variable,
    r2: Variable,
    delta: int,
)
    requires
        crate::builders::ll2(e1, op, x1.0, x1.1, y1.0, y1.1, r1),
        crate::builders::ll2(e2, op, x2.0, x2.1, y2.0, y2.1, r2),
        vars_match(x1.0, x2.0, delta),
        alpha_eq_expr(x1.1, x2.1, delta),
        vars_match(y1.0, y2.0, delta),
        alpha_eq_expr(y1.1, y2.1, delta),
        vars_match(r1, r2, delta),
    ensures
        alpha_eq_expr(e1, e2, delta),
{
    reveal_with_fuel(alpha_eq_expr, 2);
    match (e1, e2) {
        (
            Expr::RunLowLevel { op: o1, args: a1, ret_var: rv1 },
            Expr::RunLowLevel { op: o2, args: a2, ret_var: rv2 },
        ) => {
            assert forall|i: int| 0 <= i < a1.len()
                implies vars_match((#[trigger] a1[i]).0, a2[i].0, delta)
                    && alpha_eq_expr(a1[i].1, a2[i].1, delta)
            by {
                if i == 0 {
                    assert(a1@[0] == (x1.0, x1.1));
                    assert(a2@[0] == (x2.0, x2.1));
                } else {
                    assert(a1@[1] == (y1.0, y1.1));
                    assert(a2@[1] == (y2.0, y2.1));
                }
            }
        },
        _ => {},
    }
}

/// Alpha-equivalence of two three-argument opcode calls with matching
/// variables and alpha-equivalent payloads.
pub proof fn lemma_alpha_ll3(
    e1: Expr,
    e2: Expr,
    op: LowLevel,
    x1: (Variable, Expr),
    y1: (Variable, Expr),
    z1: (Variable, Expr),
    x2: (Variable, Expr),
    y2: (Variable, Expr),
    z2: (Variable, Expr),
    r1: Variable,
    r2: Variable,
    delta: int,
)
    requires
        crate::builders::ll3(e1, op, x1.0, x1.1, y1.0, y1.1, z1.0, z1.1, r1),
        crate::builders::ll3(e2, op, x2.0, x2.1, y2.0, y2.1, z2.0, z2.1, r2),
        vars_match(x1.0, x2.0, delta),
        alpha_eq_expr(x1.1, x2.1, delta),
        vars_match(y1.0, y2.0, delta),
        alpha_eq_expr(y1.1, y2.1, delta),
        vars_match(z1.0, z2.0, delta),
        alpha_eq_expr(z1.1, z2.1, delta),
        vars_match(r1, r2, delta),
    ensures
        alpha_eq_expr(e1, e2, delta),
{
    reveal_with_fuel(alpha_eq_expr, 2);
    match (e1, e2) {
        (
            Expr::RunLowLevel { op: o1, args: a1, ret_var: rv1 },
            Expr::RunLowLevel { op: o2, args: a2, ret_var: rv2 },
        ) => {
            assert forall|i: int| 0 <= i < a1.len()
                implies vars_match((#[trigger] a1[i]).0, a2[i].0, delta)
                    && alpha_eq_expr(a1[i].1, a2[i].1, delta)
            by {
                if i == 0 {
                    assert(a1@[0] == (x1.0, x1.1));
                    assert(a2@[0] == (x2.0, x2.1));
                } else if i == 1 {
                    assert(a1@[1] == (y1.0, y1.1));
                    assert(a2@[1] == (y2.0, y2.1));
                } else {
                    assert(a1@[2] == (z1.0, z1.1));
                    assert(a2@[2] == (z2.0, z2.1));
                }
            }
        },
        _ => {},
    }
}

} // verus!

verus! {

/// Alpha-determinism of the symmetric binary passthrough shape.
pub proof fn lemma_alpha_binop(sym: Symbol, op: LowLevel, c1: int, c2: int, d1: Def, d2: Def)
    requires
        FIRST_USER_VAR as int <= c1,
        FIRST_USER_VAR as int <= c2,
        c1 + crate::builders::FRESH_BUDGET as int <= u32::MAX as int,
        c2 + crate::builders::FRESH_BUDGET as int <= u32::MAX as int,
        crate::builders::binop_shape(d1, sym, op, c1),
        crate::builders::binop_shape(d2, sym, op, c2),
    ensures
        alpha_eq_def(d1, d2, c2 - c1),
{
    let delta = c2 - c1;
    let r1 = |e: Expr| crate::builders::ll2(
        e,
        op,
        var_at(c1),
        Expr::Var(Symbol::Arg1),
        var_at(c1),
        Expr::Var(Symbol::Arg2),
        var_at(c1),
    );
    let r2 = |e: Expr| crate::builders::ll2(
        e,
        op,
        var_at(c2),
        Expr::Var(Symbol::Arg1),
        var_at(c2),
        Expr::Var(Symbol::Arg2),
        var_at(c2),
    );
    assert forall|x1: Expr, x2: Expr| #[trigger] r1(x1) && #[trigger] r2(x2)
        implies alpha_eq_expr(x1, x2, delta)
    by {
        lemma_alpha_ll2(
            x1,
            x2,
            op,
            (var_at(c1), Expr::Var(Symbol::Arg1)),
            (var_at(c1), Expr::Var(Symbol::Arg2)),
            (var_at(c2), Expr::Var(Symbol::Arg1)),
            (var_at(c2), Expr::Var(Symbol::Arg2)),
            var_at(c1),
            var_at(c2),
            delta,
        );
    }
    lemma_alpha_defn(
        d1,
        d2,
        sym,
        seq![(var_at(c1), Symbol::Arg1), (var_at(c1), Symbol::Arg2)],
        seq![(var_at(c2), Symbol::Arg1), (var_at(c2), Symbol::Arg2)],
        var_at(c1),
        var_at(c2),
        c1 + 1,
        c2 + 1,
        delta,
        r1,
        r2,
    );
}

} // verus!

verus! {

/// Alpha-equivalence of two one-branch conditionals with matching join
/// variables and alpha-equivalent guard, branch and else expressions.
pub proof fn lemma_alpha_if1(
    e1: Expr,
    e2: Expr,
    cv1: Variable,
    bv1: Variable,
    cv2: Variable,
    bv2: Variable,
    delta: int,
)
    requires
        e1 matches Expr::If { cond_var, branch_var, branches, final_else }
            && cond_var == cv1
            && branch_var == bv1
            && branches@.len() == 1,
        e2 matches Expr::If { cond_var, branch_var, branches, final_else }
            && cond_var == cv2
            && branch_var == bv2
            && branches@.len() == 1,
        (e1 matches Expr::If { branches: br1, final_else: f1, .. }
            ==> e2 matches Expr::If { branches: br2, final_else: f2, .. }
                ==> alpha_eq_expr(br1@[0].0, br2@[0].0, delta)
                    && alpha_eq_expr(br1@[0].1, br2@[0].1, delta)
                    && alpha_eq_expr(*f1, *f2, delta)),
        vars_match(cv1, cv2, delta),
        vars_match(bv1, bv2, delta),
    ensures
        alpha_eq_expr(e1, e2, delta),
{
    reveal_with_fuel(alpha_eq_expr, 2);
    match (e1, e2) {
        (
            Expr::If { cond_var: a1, branch_var: b1, branches: br1, final_else: f1 },
            Expr::If { cond_var: a2, branch_var: b2, branches: br2, final_else: f2 },
        ) => {
            assert forall|i: int| 0 <= i < br1.len()
                implies alpha_eq_expr((#[trigger] br1[i]).0, br2[i].0, delta)
                    && alpha_eq_expr(br1[i].1, br2[i].1, delta)
            by {
                assert(br1@[0].0 == br1[i].0 && br2@[0].0 == br2[i].0);
            }
        },
        _ => {},
    }
}

/// Alpha-determinism of the comparison shape: two argument slots sharing
/// one variable, result in a second.
pub proof fn lemma_alpha_binop_other(sym: Symbol, op: LowLevel, c1: int, c2: int, d1: Def, d2: Def)
    requires
        FIRST_USER_VAR as int <= c1,
        FIRST_USER_VAR as int <= c2,
        c1 + crate::builders::FRESH_BUDGET as int <= u32::MAX as int,
        c2 + crate::builders::FRESH_BUDGET as int <= u32::MAX as int,
        crate::builders::binop_other_shape(d1, sym, op, c1),
        crate::builders::binop_other_shape(d2, sym, op, c2),
    ensures
        alpha_eq_def(d1, d2, c2 - c1),
{
    let delta = c2 - c1;
    let r1 = |e: Expr| crate::builders::ll2(
        e,
        op,
        var_at(c1),
        Expr::Var(Symbol::Arg1),
        var_at(c1),
        Expr::Var(Symbol::Arg2),
        var_at(c1 + 1),
    );
    let r2 = |e: Expr| crate::builders::ll2(
        e,
        op,
        var_at(c2),
        Expr::Var(Symbol::Arg1),
        var_at(c2),
        Expr::Var(Symbol::Arg2),
        var_at(c2 + 1),
    );
    assert forall|x1: Expr, x2: Expr| #[trigger] r1(x1) && #[trigger] r2(x2)
        implies alpha_eq_expr(x1, x2, delta)
    by {
        lemma_alpha_ll2(
            x1,
            x2,
            op,
            (var_at(c1), Expr::Var(Symbol::Arg1)),
            (var_at(c1), Expr::Var(Symbol::Arg2)),
            (var_at(c2), Expr::Var(Symbol::Arg1)),
            (var_at(c2), Expr::Var(Symbol::Arg2)),
            var_at(c1 + 1),
            var_at(c2 + 1),
            delta,
        );
    }
    lemma_alpha_defn(
        d1,
        d2,
        sym,
        seq![(var_at(c1), Symbol::Arg1), (var_at(c1), Symbol::Arg2)],
        seq![(var_at(c2), Symbol::Arg1), (var_at(c2), Symbol::Arg2)],
        var_at(c1 + 1),
        var_at(c2 + 1),
        c1 + 2,
        c2 + 2,
        delta,
        r1,
        r2,
    );
}

/// Alpha-determinism of the one-variable unary shape.
pub proof fn lemma_alpha_unary_same(sym: Symbol, op: LowLevel, c1: int, c2: int, d1: Def, d2: Def)
    requires
        FIRST_USER_VAR as int <= c1,
        FIRST_USER_VAR as int <= c2,
        c1 + crate::builders::FRESH_BUDGET as int <= u32::MAX as int,
        c2 + crate::builders::FRESH_BUDGET as int <= u32::MAX as int,
        crate::builders::unary_same_shape(d1, sym, op, c1),
        crate::builders::unary_same_shape(d2, sym, op, c2),
    ensures
        alpha_eq_def(d1, d2, c2 - c1),
{
    let delta = c2 - c1;
    let r1 = |e: Expr| crate::builders::ll1(e, op, var_at(c1), Expr::Var(Symbol::Arg1), var_at(c1));
    let r2 = |e: Expr| crate::builders::ll1(e, op, var_at(c2), Expr::Var(Symbol::Arg1), var_at(c2));
    assert forall|x1: Expr, x2: Expr| #[trigger] r1(x1) && #[trigger] r2(x2)
        implies alpha_eq_expr(x1, x2, delta)
    by {
        lemma_alpha_ll1(
            x1,
            x2,
            op,
            (var_at(c1), Expr::Var(Symbol::Arg1)),
            (var_at(c2), Expr::Var(Symbol::Arg1)),
            var_at(c1),
            var_at(c2),
            delta,
        );
    }
    lemma_alpha_defn(
        d1,
        d2,
        sym,
        seq![(var_at(c1), Symbol::Arg1)],
        seq![(var_at(c2), Symbol::Arg1)],
        var_at(c1),
        var_at(c2),
        c1 + 1,
        c2 + 1,
        delta,
        r1,
        r2,
    );
}

/// Alpha-determinism of the result-typed-by-first-argument binary shape.
pub proof fn lemma_alpha_op2_ret_first(sym: Symbol, op: LowLevel, c1: int, c2: int, d1: Def, d2: Def)
    requires
        FIRST_USER_VAR as int <= c1,
        FIRST_USER_VAR as int <= c2,
        c1 + crate::builders::FRESH_BUDGET as int <= u32::MAX as int,
        c2 + crate::builders::FRESH_BUDGET as int <= u32::MAX as int,
        crate::builders::op2_ret_first_shape(d1, sym, op, c1),
        crate::builders::op2_ret_first_shape(d2, sym, op, c2),
    ensures
        alpha_eq_def(d1, d2, c2 - c1),
{
    let delta = c2 - c1;
    let r1 = |e: Expr| crate::builders::ll2(
        e,
        op,
        var_at(c1),
        Expr::Var(Symbol::Arg1),
        var_at(c1 + 1),
        Expr::Var(Symbol::Arg2),
        var_at(c1),
    );
    let r2 = |e: Expr| crate::builders::ll2(
        e,
        op,
        var_at(c2),
        Expr::Var(Symbol::Arg1),
        var_at(c2 + 1),
        Expr::Var(Symbol::Arg2),
        var_at(c2),
    );
    assert forall|x1: Expr, x2: Expr| #[trigger] r1(x1) && #[trigger] r2(x2)
        implies alpha_eq_expr(x1, x2, delta)
    by {
        lemma_alpha_ll2(
            x1,
            x2,
            op,
            (var_at(c1), Expr::Var(Symbol::Arg1)),
            (var_at(c1 + 1), Expr::Var(Symbol::Arg2)),
            (var_at(c2), Expr::Var(Symbol::Arg1)),
            (var_at(c2 + 1), Expr::Var(Symbol::Arg2)),
            var_at(c1),
            var_at(c2),
            delta,
        );
    }
    lemma_alpha_defn(
        d1,
        d2,
        sym,
        seq![(var_at(c1), Symbol::Arg1), (var_at(c1 + 1), Symbol::Arg2)],
        seq![(var_at(c2), Symbol::Arg1), (var_at(c2 + 1), Symbol::Arg2)],
        var_at(c1),
        var_at(c2),
        c1 + 2,
        c2 + 2,
        delta,
        r1,
        r2,
    );
}

/// Alpha-determinism of the result-minted-first unary shape.
pub proof fn lemma_alpha_op1_ret_first(sym: Symbol, op: LowLevel, c1: int, c2: int, d1: Def, d2: Def)
    requires
        FIRST_USER_VAR as int <= c1,
        FIRST_USER_VAR as int <= c2,
        c1 + crate::builders::FRESH_BUDGET as int <= u32::MAX as int,
        c2 + crate::builders::FRESH_BUDGET as int <= u32::MAX as int,
        crate::builders::op1_ret_first_shape(d1, sym, op, c1),
        crate::builders::op1_ret_first_shape(d2, sym, op, c2),
    ensures
        alpha_eq_def(d1, d2, c2 - c1),
{
    let delta = c2 - c1;
    let r1 = |e: Expr| crate::builders::ll1(e, op, var_at(c1 + 1), Expr::Var(Symbol::Arg1), var_at(c1));
    let r2 = |e: Expr| crate::builders::ll1(e, op, var_at(c2 + 1), Expr::Var(Symbol::Arg1), var_at(c2));
    assert forall|x1: Expr, x2: Expr| #[trigger] r1(x1) && #[trigger] r2(x2)
        implies alpha_eq_expr(x1, x2, delta)
    by {
        lemma_alpha_ll1(
            x1,
            x2,
            op,
            (var_at(c1 + 1), Expr::Var(Symbol::Arg1)),
            (var_at(c2 + 1), Expr::Var(Symbol::Arg1)),
            var_at(c1),
            var_at(c2),
            delta,
        );
    }
    lemma_alpha_defn(
        d1,
        d2,
        sym,
        seq![(var_at(c1 + 1), Symbol::Arg1)],
        seq![(var_at(c2 + 1), Symbol::Arg1)],
        var_at(c1),
        var_at(c2),
        c1 + 2,
        c2 + 2,
        delta,
        r1,
        r2,
    );
}

/// Alpha-determinism of the conjunction shape, whose opcode result slot has
/// a variable of its own.
pub proof fn lemma_alpha_bool_and(sym: Symbol, c1: int, c2: int, d1: Def, d2: Def)
    requires
        FIRST_USER_VAR as int <= c1,
        FIRST_USER_VAR as int <= c2,
        c1 + crate::builders::FRESH_BUDGET as int <= u32::MAX as int,
        c2 + crate::builders::FRESH_BUDGET as int <= u32::MAX as int,
        crate::bools::bool_and_shape(d1, sym, c1),
        crate::bools::bool_and_shape(d2, sym, c2),
    ensures
        alpha_eq_def(d1, d2, c2 - c1),
{
    let delta = c2 - c1;
    let r1 = |e: Expr| crate::builders::ll2(
        e,
        LowLevel::BoolAnd,
        var_at(c1),
        Expr::Var(Symbol::Arg1),
        var_at(c1),
        Expr::Var(Symbol::Arg2),
        var_at(c1 + 1),
    );
    let r2 = |e: Expr| crate::builders::ll2(
        e,
        LowLevel::BoolAnd,
        var_at(c2),
        Expr::Var(Symbol::Arg1),
        var_at(c2),
        Expr::Var(Symbol::Arg2),
        var_at(c2 + 1),
    );
    assert forall|x1: Expr, x2: Expr| #[trigger] r1(x1) && #[trigger] r2(x2)
        implies alpha_eq_expr(x1, x2, delta)
    by {
        lemma_alpha_ll2(
            x1,
            x2,
            LowLevel::BoolAnd,
            (var_at(c1), Expr::Var(Symbol::Arg1)),
            (var_at(c1), Expr::Var(Symbol::Arg2)),
            (var_at(c2), Expr::Var(Symbol::Arg1)),
            (var_at(c2), Expr::Var(Symbol::Arg2)),
            var_at(c1 + 1),
            var_at(c2 + 1),
            delta,
        );
    }
    lemma_alpha_defn(
        d1,
        d2,
        sym,
        seq![(var_at(c1), Symbol::Arg1), (var_at(c1), Symbol::Arg2)],
        seq![(var_at(c2), Symbol::Arg1), (var_at(c2), Symbol::Arg2)],
        var_at(c1),
        var_at(c2),
        c1 + 2,
        c2 + 2,
        delta,
        r1,
        r2,
    );
}

/// Alpha-determinism of the separator-join shape.
pub proof fn lemma_alpha_str_join_with(sym: Symbol, c1: int, c2: int, d1: Def, d2: Def)
    requires
        FIRST_USER_VAR as int <= c1,
        FIRST_USER_VAR as int <= c2,
        c1 + crate::builders::FRESH_BUDGET as int <= u32::MAX as int,
        c2 + crate::builders::FRESH_BUDGET as int <= u32::MAX as int,
        crate::strs::str_join_with_shape(d1, sym, c1),
        crate::strs::str_join_with_shape(d2, sym, c2),
    ensures
        alpha_eq_def(d1, d2, c2 - c1),
{
    let delta = c2 - c1;
    let r1 = |e: Expr| crate::builders::ll2(
        e,
        LowLevel::StrJoinWith,
        var_at(c1),
        Expr::Var(Symbol::Arg1),
        var_at(c1 + 1),
        Expr::Var(Symbol::Arg2),
        var_at(c1 + 1),
    );
    let r2 = |e: Expr| crate::builders::ll2(
        e,
        LowLevel::StrJoinWith,
        var_at(c2),
        Expr::Var(Symbol::Arg1),
        var_at(c2 + 1),
        Expr::Var(Symbol::Arg2),
        var_at(c2 + 1),
    );
    assert forall|x1: Expr, x2: Expr| #[trigger] r1(x1) && #[trigger] r2(x2)
        implies alpha_eq_expr(x1, x2, delta)
    by {
        lemma_alpha_ll2(
            x1,
            x2,
            LowLevel::StrJoinWith,
            (var_at(c1), Expr::Var(Symbol::Arg1)),
            (var_at(c1 + 1), Expr::Var(Symbol::Arg2)),
            (var_at(c2), Expr::Var(Symbol::Arg1)),
            (var_at(c2 + 1), Expr::Var(Symbol::Arg2)),
            var_at(c1 + 1),
            var_at(c2 + 1),
            delta,
        );
    }
    lemma_alpha_defn(
        d1,
        d2,
        sym,
        seq![(var_at(c1), Symbol::Arg1), (var_at(c1 + 1), Symbol::Arg2)],
        seq![(var_at(c2), Symbol::Arg1), (var_at(c2 + 1), Symbol::Arg2)],
        var_at(c1 + 1),
        var_at(c2 + 1),
        c1 + 2,
        c2 + 2,
        delta,
        r1,
        r2,
    );
}

/// Alpha-determinism of the literal-comparison predicate shape, given
/// alpha-matching comparison operands.
pub proof fn lemma_alpha_unary_cmp(
    sym: Symbol,
    op: LowLevel,
    p1: (Variable, Expr),
    q1: (Variable, Expr),
    p2: (Variable, Expr),
    q2: (Variable, Expr),
    c1: int,
    c2: int,
    d1: Def,
    d2: Def,
)
    requires
        FIRST_USER_VAR as int <= c1,
        FIRST_USER_VAR as int <= c2,
        c1 + crate::builders::FRESH_BUDGET as int <= u32::MAX as int,
        c2 + crate::builders::FRESH_BUDGET as int <= u32::MAX as int,
        crate::nums::unary_cmp_shape(d1, sym, op, p1, q1, c1),
        crate::nums::unary_cmp_shape(d2, sym, op, p2, q2, c2),
        vars_match(p1.0, p2.0, c2 - c1),
        alpha_eq_expr(p1.1, p2.1, c2 - c1),
        vars_match(q1.0, q2.0, c2 - c1),
        alpha_eq_expr(q1.1, q2.1, c2 - c1),
    ensures
        alpha_eq_def(d1, d2, c2 - c1),
{
    let delta = c2 - c1;
    let r1 = |e: Expr| crate::builders::ll2(e, op, p1.0, p1.1, q1.0, q1.1, var_at(c1 + 1));
    let r2 = |e: Expr| crate::builders::ll2(e, op, p2.0, p2.1, q2.0, q2.1, var_at(c2 + 1));
    assert forall|x1: Expr, x2: Expr| #[trigger] r1(x1) && #[trigger] r2(x2)
        implies alpha_eq_expr(x1, x2, delta)
    by {
        lemma_alpha_ll2(x1, x2, op, p1, q1, p2, q2, var_at(c1 + 1), var_at(c2 + 1), delta);
    }
    lemma_alpha_defn(
        d1,
        d2,
        sym,
        seq![(var_at(c1), Symbol::Arg1)],
        seq![(var_at(c2), Symbol::Arg1)],
        var_at(c1 + 1),
        var_at(c2 + 1),
        c1 + 3,
        c2 + 3,
        delta,
        r1,
        r2,
    );
}

} // verus!

verus! {

/// Alpha-equivalence of two field reads of the same field on the same
/// bound name, with matching variables.
pub proof fn lemma_alpha_access(
    e1: Expr,
    e2: Expr,
    rec1: Variable,
    ext1: Variable,
    field: crate::types::FieldName,
    fv1: Variable,
    of: Symbol,
    rec2: Variable,
    ext2: Variable,
    fv2: Variable,
    delta: int,
)
    requires
        crate::builders::access_shape(e1, rec1, ext1, field, fv1, of),
        crate::builders::access_shape(e2, rec2, ext2, field, fv2, of),
        vars_match(rec1, rec2, delta),
        vars_match(ext1, ext2, delta),
        vars_match(fv1, fv2, delta),
    ensures
        alpha_eq_expr(e1, e2, delta),
{
    reveal_with_fuel(alpha_eq_expr, 2);
}

/// Alpha-determinism of the division family, given alpha-matching zero
/// literals.
pub proof fn lemma_alpha_div_like(
    sym: Symbol,
    op: LowLevel,
    zero1: Expr,
    zero2: Expr,
    c1: int,
    c2: int,
    d1: Def,
    d2: Def,
)
    requires
        FIRST_USER_VAR as int <= c1,
        FIRST_USER_VAR as int <= c2,
        c1 + crate::builders::FRESH_BUDGET as int <= u32::MAX as int,
        c2 + crate::builders::FRESH_BUDGET as int <= u32::MAX as int,
        crate::nums::div_like_shape(d1, sym, op, zero1, c1),
        crate::nums::div_like_shape(d2, sym, op, zero2, c2),
        alpha_eq_expr(zero1, zero2, c2 - c1),
    ensures
        alpha_eq_def(d1, d2, c2 - c1),
{
    let delta = c2 - c1;
    let r1 = |e: Expr| crate::nums::div_like_body_shape(op, zero1, c1, e);
    let r2 = |e: Expr| crate::nums::div_like_body_shape(op, zero2, c2, e);
    assert forall|x1: Expr, x2: Expr| #[trigger] r1(x1) && #[trigger] r2(x2)
        implies alpha_eq_expr(x1, x2, delta)
    by {
        match (x1, x2) {
            (
                Expr::If { branches: br1, final_else: f1, .. },
                Expr::If { branches: br2, final_else: f2, .. },
            ) => {
                lemma_alpha_ll2(
                    br1@[0].0,
                    br2@[0].0,
                    LowLevel::ValueNotEq,
                    (var_at(c1 + 1), Expr::Var(Symbol::Arg2)),
                    (var_at(c1 + 1), zero1),
                    (var_at(c2 + 1), Expr::Var(Symbol::Arg2)),
                    (var_at(c2 + 1), zero2),
                    var_at(c1),
                    var_at(c2),
                    delta,
                );
                let rt1 = |i: int, a: Expr| crate::builders::ll2(
                    a,
                    op,
                    var_at(c1 + 1),
                    Expr::Var(Symbol::Arg1),
                    var_at(c1 + 1),
                    Expr::Var(Symbol::Arg2),
                    var_at(c1 + 1),
                );
                let rt2 = |i: int, a: Expr| crate::builders::ll2(
                    a,
                    op,
                    var_at(c2 + 1),
                    Expr::Var(Symbol::Arg1),
                    var_at(c2 + 1),
                    Expr::Var(Symbol::Arg2),
                    var_at(c2 + 1),
                );
                assert forall|i: int, y1: Expr, y2: Expr|
                    0 <= i < 1 && #[trigger] rt1(i, y1) && #[trigger] rt2(i, y2)
                        implies alpha_eq_expr(y1, y2, delta)
                by {
                    lemma_alpha_ll2(
                        y1,
                        y2,
                        op,
                        (var_at(c1 + 1), Expr::Var(Symbol::Arg1)),
                        (var_at(c1 + 1), Expr::Var(Symbol::Arg2)),
                        (var_at(c2 + 1), Expr::Var(Symbol::Arg1)),
                        (var_at(c2 + 1), Expr::Var(Symbol::Arg2)),
                        var_at(c1 + 1),
                        var_at(c2 + 1),
                        delta,
                    );
                }
                lemma_alpha_tag(br1@[0].1, br2@[0].1, TagName::OkTag, 1, c1 + 5, c2 + 5, delta, rt1, rt2);
                lemma_alpha_wrapped_err(*f1, *f2, TagName::DivByZero, c1 + 8, c2 + 8, delta);
                lemma_alpha_if1(x1, x2, var_at(c1), var_at(c1 + 4), var_at(c2), var_at(c2 + 4), delta);
            },
            _ => {},
        }
    }
    lemma_alpha_defn(
        d1,
        d2,
        sym,
        seq![(var_at(c1 + 1), Symbol::Arg1), (var_at(c1 + 1), Symbol::Arg2)],
        seq![(var_at(c2 + 1), Symbol::Arg1), (var_at(c2 + 1), Symbol::Arg2)],
        var_at(c1 + 4),
        var_at(c2 + 4),
        c1 + 13,
        c2 + 13,
        delta,
        r1,
        r2,
    );
}

/// Alpha-determinism of the remainder shape.
pub proof fn lemma_alpha_num_rem(sym: Symbol, c1: int, c2: int, d1: Def, d2: Def)
    requires
        FIRST_USER_VAR as int <= c1,
        FIRST_USER_VAR as int <= c2,
        c1 + crate::builders::FRESH_BUDGET as int <= u32::MAX as int,
        c2 + crate::builders::FRESH_BUDGET as int <= u32::MAX as int,
        crate::nums::num_rem_shape(d1, sym, c1),
        crate::nums::num_rem_shape(d2, sym, c2),
    ensures
        alpha_eq_def(d1, d2, c2 - c1),
{
    let delta = c2 - c1;
    let r1 = |e: Expr| crate::nums::num_rem_body_shape(c1, e);
    let r2 = |e: Expr| crate::nums::num_rem_body_shape(c2, e);
    assert forall|x1: Expr, x2: Expr| #[trigger] r1(x1) && #[trigger] r2(x2)
        implies alpha_eq_expr(x1, x2, delta)
    by {
        match (x1, x2) {
            (
                Expr::If { branches: br1, final_else: f1, .. },
                Expr::If { branches: br2, final_else: f2, .. },
            ) => {
                reveal_with_fuel(alpha_eq_expr, 2);
                lemma_alpha_ll2(
                    br1@[0].0,
                    br2@[0].0,
                    LowLevel::ValueNotEq,
                    (var_at(c1), Expr::Var(Symbol::Arg2)),
                    (var_at(c1), Expr::Num(var_at(c1 + 1), 0)),
                    (var_at(c2), Expr::Var(Symbol::Arg2)),
                    (var_at(c2), Expr::Num(var_at(c2 + 1), 0)),
                    var_at(c1 + 2),
                    var_at(c2 + 2),
                    delta,
                );
                let rt1 = |i: int, a: Expr| crate::builders::ll2(
                    a,
                    LowLevel::NumRemUnchecked,
                    var_at(c1),
                    Expr::Var(Symbol::Arg1),
                    var_at(c1),
                    Expr::Var(Symbol::Arg2),
                    var_at(c1),
                );
                let rt2 = |i: int, a: Expr| crate::builders::ll2(
                    a,
                    LowLevel::NumRemUnchecked,
                    var_at(c2),
                    Expr::Var(Symbol::Arg1),
                    var_at(c2),
                    Expr::Var(Symbol::Arg2),
                    var_at(c2),
                );
                assert forall|i: int, y1: Expr, y2: Expr|
                    0 <= i < 1 && #[trigger] rt1(i, y1) && #[trigger] rt2(i, y2)
                        implies alpha_eq_expr(y1, y2, delta)
                by {
                    lemma_alpha_ll2(
                        y1,
                        y2,
                        LowLevel::NumRemUnchecked,
                        (var_at(c1), Expr::Var(Symbol::Arg1)),
                        (var_at(c1), Expr::Var(Symbol::Arg2)),
                        (var_at(c2), Expr::Var(Symbol::Arg1)),
                        (var_at(c2), Expr::Var(Symbol::Arg2)),
                        var_at(c1),
                        var_at(c2),
                        delta,
                    );
                }
                lemma_alpha_tag(br1@[0].1, br2@[0].1, TagName::OkTag, 1, c1 + 4, c2 + 4, delta, rt1, rt2);
                lemma_alpha_wrapped_err(*f1, *f2, TagName::DivByZero, c1 + 7, c2 + 7, delta);
                lemma_alpha_if1(x1, x2, var_at(c1 + 2), var_at(c1 + 3), var_at(c2 + 2), var_at(c2 + 3), delta);
            },
            _ => {},
        }
    }
    lemma_alpha_defn(
        d1,
        d2,
        sym,
        seq![(var_at(c1), Symbol::Arg1), (var_at(c1), Symbol::Arg2)],
        seq![(var_at(c2), Symbol::Arg1), (var_at(c2), Symbol::Arg2)],
        var_at(c1 + 3),
        var_at(c2 + 3),
        c1 + 12,
        c2 + 12,
        delta,
        r1,
        r2,
    );
}

/// Alpha-determinism of the domain-restricted unary float shape.
pub proof fn lemma_alpha_guarded_unary(
    sym: Symbol,
    guard_op: LowLevel,
    op: LowLevel,
    problem: TagName,
    c1: int,
    c2: int,
    d1: Def,
    d2: Def,
)
    requires
        FIRST_USER_VAR as int <= c1,
        FIRST_USER_VAR as int <= c2,
        c1 + crate::builders::FRESH_BUDGET as int <= u32::MAX as int,
        c2 + crate::builders::FRESH_BUDGET as int <= u32::MAX as int,
        crate::nums::guarded_unary_shape(d1, sym, guard_op, op, problem, c1),
        crate::nums::guarded_unary_shape(d2, sym, guard_op, op, problem, c2),
    ensures
        alpha_eq_def(d1, d2, c2 - c1),
{
    let delta = c2 - c1;
    let r1 = |e: Expr| crate::nums::guarded_unary_body_shape(guard_op, op, problem, c1, e);
    let r2 = |e: Expr| crate::nums::guarded_unary_body_shape(guard_op, op, problem, c2, e);
    assert forall|x1: Expr, x2: Expr| #[trigger] r1(x1) && #[trigger] r2(x2)
        implies alpha_eq_expr(x1, x2, delta)
    by {
        match (x1, x2) {
            (
                Expr::If { branches: br1, final_else: f1, .. },
                Expr::If { branches: br2, final_else: f2, .. },
            ) => {
                reveal_with_fuel(alpha_eq_expr, 2);
                lemma_alpha_ll2(
                    br1@[0].0,
                    br2@[0].0,
                    guard_op,
                    (var_at(c1 + 1), Expr::Var(Symbol::Arg1)),
                    (var_at(c1 + 1), Expr::Float(var_at(c1 + 2), var_at(c1 + 3), 0)),
                    (var_at(c2 + 1), Expr::Var(Symbol::Arg1)),
                    (var_at(c2 + 1), Expr::Float(var_at(c2 + 2), var_at(c2 + 3), 0)),
                    var_at(c1),
                    var_at(c2),
                    delta,
                );
                let rt1 = |i: int, a: Expr| crate::builders::ll1(
                    a,
                    op,
                    var_at(c1 + 1),
                    Expr::Var(Symbol::Arg1),
                    var_at(c1 + 1),
                );
                let rt2 = |i: int, a: Expr| crate::builders::ll1(
                    a,
                    op,
                    var_at(c2 + 1),
                    Expr::Var(Symbol::Arg1),
                    var_at(c2 + 1),
                );
                assert forall|i: int, y1: Expr, y2: Expr|
                    0 <= i < 1 && #[trigger] rt1(i, y1) && #[trigger] rt2(i, y2)
                        implies alpha_eq_expr(y1, y2, delta)
                by {
                    lemma_alpha_ll1(
                        y1,
                        y2,
                        op,
                        (var_at(c1 + 1), Expr::Var(Symbol::Arg1)),
                        (var_at(c2 + 1), Expr::Var(Symbol::Arg1)),
                        var_at(c1 + 1),
                        var_at(c2 + 1),
                        delta,
                    );
                }
                lemma_alpha_tag(br1@[0].1, br2@[0].1, TagName::OkTag, 1, c1 + 5, c2 + 5, delta, rt1, rt2);
                lemma_alpha_wrapped_err(*f1, *f2, problem, c1 + 8, c2 + 8, delta);
                lemma_alpha_if1(x1, x2, var_at(c1), var_at(c1 + 4), var_at(c2), var_at(c2 + 4), delta);
            },
            _ => {},
        }
    }
    lemma_alpha_defn(
        d1,
        d2,
        sym,
        seq![(var_at(c1 + 1), Symbol::Arg1)],
        seq![(var_at(c2 + 1), Symbol::Arg1)],
        var_at(c1 + 4),
        var_at(c2 + 4),
        c1 + 13,
        c2 + 13,
        delta,
        r1,
        r2,
    );
}

} // verus!

verus! {

/// Alpha-determinism of the overflow-checked arithmetic shape.
pub proof fn lemma_alpha_overflow_checked(sym: Symbol, op: LowLevel, c1: int, c2: int, d1: Def, d2: Def)
    requires
        FIRST_USER_VAR as int <= c1,
        FIRST_USER_VAR as int <= c2,
        c1 + crate::builders::FRESH_BUDGET as int <= u32::MAX as int,
        c2 + crate::builders::FRESH_BUDGET as int <= u32::MAX as int,
        crate::nums::overflow_checked_shape(d1, sym, op, c1),
        crate::nums::overflow_checked_shape(d2, sym, op, c2),
    ensures
        alpha_eq_def(d1, d2, c2 - c1),
{
    let delta = c2 - c1;
    let r1 = |e: Expr| crate::nums::overflow_checked_body_shape(op, c1, e);
    let r2 = |e: Expr| crate::nums::overflow_checked_body_shape(op, c2, e);
    assert forall|x1: Expr, x2: Expr| #[trigger] r1(x1) && #[trigger] r2(x2)
        implies alpha_eq_expr(x1, x2, delta)
    by {
        match (x1, x2) {
            (Expr::LetNonRec(bd1, bk1, bv1), Expr::LetNonRec(bd2, bk2, bv2)) => {
                reveal_with_fuel(alpha_eq_expr, 2);
                reveal_with_fuel(alpha_eq_pattern, 2);
                reveal_with_fuel(alpha_eq_def, 2);
                lemma_alpha_ll2(
                    (*bd1).body,
                    (*bd2).body,
                    op,
                    (var_at(c1 + 1), Expr::Var(Symbol::Arg1)),
                    (var_at(c1 + 2), Expr::Var(Symbol::Arg2)),
                    (var_at(c2 + 1), Expr::Var(Symbol::Arg1)),
                    (var_at(c2 + 2), Expr::Var(Symbol::Arg2)),
                    var_at(c1 + 5),
                    var_at(c2 + 5),
                    delta,
                );
                assert(alpha_eq_def(*bd1, *bd2, delta));
                match (*bk1, *bk2) {
                    (
                        Expr::If { branches: br1, final_else: f1, .. },
                        Expr::If { branches: br2, final_else: f2, .. },
                    ) => {
                        lemma_alpha_access(
                            br1@[0].0,
                            br2@[0].0,
                            var_at(c1 + 5),
                            var_at(c1 + 6),
                            crate::types::FieldName::B,
                            var_at(c1 + 7),
                            Symbol::Arg3,
                            var_at(c2 + 5),
                            var_at(c2 + 6),
                            var_at(c2 + 7),
                            delta,
                        );
                        lemma_alpha_wrapped_err(br1@[0].1, br2@[0].1, TagName::Overflow, c1 + 8, c2 + 8, delta);
                        let rt1 = |i: int, a: Expr| crate::builders::access_shape(
                            a,
                            var_at(c1 + 5),
                            var_at(c1 + 13),
                            crate::types::FieldName::A,
                            var_at(c1 + 3),
                            Symbol::Arg3,
                        );
                        let rt2 = |i: int, a: Expr| crate::builders::access_shape(
                            a,
                            var_at(c2 + 5),
                            var_at(c2 + 13),
                            crate::types::FieldName::A,
                            var_at(c2 + 3),
                            Symbol::Arg3,
                        );
                        assert forall|i: int, y1: Expr, y2: Expr|
                            0 <= i < 1 && #[trigger] rt1(i, y1) && #[trigger] rt2(i, y2)
                                implies alpha_eq_expr(y1, y2, delta)
                        by {
                            lemma_alpha_access(
                                y1,
                                y2,
                                var_at(c1 + 5),
                                var_at(c1 + 13),
                                crate::types::FieldName::A,
                                var_at(c1 + 3),
                                Symbol::Arg3,
                                var_at(c2 + 5),
                                var_at(c2 + 13),
                                var_at(c2 + 3),
                                delta,
                            );
                        }
                        lemma_alpha_tag(*f1, *f2, TagName::OkTag, 1, c1 + 14, c2 + 14, delta, rt1, rt2);
                        lemma_alpha_if1(*bk1, *bk2, var_at(c1), var_at(c1 + 4), var_at(c2), var_at(c2 + 4), delta);
                    },
                    _ => {},
                }
            },
            _ => {},
        }
    }
    lemma_alpha_defn(
        d1,
        d2,
        sym,
        seq![(var_at(c1 + 1), Symbol::Arg1), (var_at(c1 + 2), Symbol::Arg2)],
        seq![(var_at(c2 + 1), Symbol::Arg1), (var_at(c2 + 2), Symbol::Arg2)],
        var_at(c1 + 4),
        var_at(c2 + 4),
        c1 + 17,
        c2 + 17,
        delta,
        r1,
        r2,
    );
}

/// Alpha-determinism of the byte-decoding shape.
pub proof fn lemma_alpha_bytes_to(sym: Symbol, op: LowLevel, offset: i64, c1: int, c2: int, d1: Def, d2: Def)
    requires
        FIRST_USER_VAR as int <= c1,
        FIRST_USER_VAR as int <= c2,
        c1 + crate::builders::FRESH_BUDGET as int <= u32::MAX as int,
        c2 + crate::builders::FRESH_BUDGET as int <= u32::MAX as int,
        crate::nums::bytes_to_shape(d1, sym, op, offset, c1),
        crate::nums::bytes_to_shape(d2, sym, op, offset, c2),
    ensures
        alpha_eq_def(d1, d2, c2 - c1),
{
    let delta = c2 - c1;
    let r1 = |e: Expr| crate::nums::bytes_to_body_shape(op, offset, c1, e);
    let r2 = |e: Expr| crate::nums::bytes_to_body_shape(op, offset, c2, e);
    assert forall|x1: Expr, x2: Expr| #[trigger] r1(x1) && #[trigger] r2(x2)
        implies alpha_eq_expr(x1, x2, delta)
    by {
        match (x1, x2) {
            (
                Expr::If { branches: br1, final_else: f1, .. },
                Expr::If { branches: br2, final_else: f2, .. },
            ) => {
                reveal_with_fuel(alpha_eq_expr, 3);
                match (br1@[0].0, br2@[0].0) {
                    (
                        Expr::RunLowLevel { args: ga1, .. },
                        Expr::RunLowLevel { args: ga2, .. },
                    ) => {
                        match (ga1@[0].1, ga2@[0].1) {
                            (
                                Expr::RunLowLevel { args: aa1, .. },
                                Expr::RunLowLevel { args: aa2, .. },
                            ) => {
                                lemma_alpha_ll1(
                                    aa1@[1].1,
                                    aa2@[1].1,
                                    LowLevel::NumIntCast,
                                    (var_at(c1 + 6), Expr::Num(var_at(c1 + 8), offset)),
                                    (var_at(c2 + 6), Expr::Num(var_at(c2 + 8), offset)),
                                    var_at(c1 + 6),
                                    var_at(c2 + 6),
                                    delta,
                                );
                                assert forall|i: int| 0 <= i < aa1.len()
                                    implies vars_match((#[trigger] aa1[i]).0, aa2[i].0, delta)
                                        && alpha_eq_expr(aa1[i].1, aa2[i].1, delta)
                                by {
                                    if i == 0 {
                                        assert(aa1@[0] == (var_at(c1 + 5), Expr::Var(Symbol::Arg2)));
                                        assert(aa2@[0] == (var_at(c2 + 5), Expr::Var(Symbol::Arg2)));
                                    }
                                }
                                assert(alpha_eq_expr(ga1@[0].1, ga2@[0].1, delta));
                            },
                            _ => {},
                        }
                        lemma_alpha_ll1(
                            ga1@[1].1,
                            ga2@[1].1,
                            LowLevel::ListLen,
                            (var_at(c1 + 1), Expr::Var(Symbol::Arg1)),
                            (var_at(c2 + 1), Expr::Var(Symbol::Arg1)),
                            var_at(c1),
                            var_at(c2),
                            delta,
                        );
                        assert forall|i: int| 0 <= i < ga1.len()
                            implies vars_match((#[trigger] ga1[i]).0, ga2[i].0, delta)
                                && alpha_eq_expr(ga1[i].1, ga2[i].1, delta)
                        by {
                            assert(ga1@[i].0 == var_at(c1) && ga2@[i].0 == var_at(c2));
                        }
                        assert(alpha_eq_expr(br1@[0].0, br2@[0].0, delta));
                    },
                    _ => {},
                }
                let rt1 = |i: int, a: Expr| crate::builders::ll2(
                    a,
                    op,
                    var_at(c1 + 1),
                    Expr::Var(Symbol::Arg1),
                    var_at(c1),
                    Expr::Var(Symbol::Arg2),
                    var_at(c1 + 2),
                );
                let rt2 = |i: int, a: Expr| crate::builders::ll2(
                    a,
                    op,
                    var_at(c2 + 1),
                    Expr::Var(Symbol::Arg1),
                    var_at(c2),
                    Expr::Var(Symbol::Arg2),
                    var_at(c2 + 2),
                );
                assert forall|i: int, y1: Expr, y2: Expr|
                    0 <= i < 1 && #[trigger] rt1(i, y1) && #[trigger] rt2(i, y2)
                        implies alpha_eq_expr(y1, y2, delta)
                by {
                    lemma_alpha_ll2(
                        y1,
                        y2,
                        op,
                        (var_at(c1 + 1), Expr::Var(Symbol::Arg1)),
                        (var_at(c1), Expr::Var(Symbol::Arg2)),
                        (var_at(c2 + 1), Expr::Var(Symbol::Arg1)),
                        (var_at(c2), Expr::Var(Symbol::Arg2)),
                        var_at(c1 + 2),
                        var_at(c2 + 2),
                        delta,
                    );
                }
                lemma_alpha_tag(br1@[0].1, br2@[0].1, TagName::OkTag, 1, c1 + 9, c2 + 9, delta, rt1, rt2);
                lemma_alpha_wrapped_err(*f1, *f2, TagName::OutOfBounds, c1 + 12, c2 + 12, delta);
                lemma_alpha_if1(x1, x2, var_at(c1 + 4), var_at(c1 + 7), var_at(c2 + 4), var_at(c2 + 7), delta);
            },
            _ => {},
        }
    }
    lemma_alpha_defn(
        d1,
        d2,
        sym,
        seq![(var_at(c1 + 1), Symbol::Arg1), (var_at(c1), Symbol::Arg2)],
        seq![(var_at(c2 + 1), Symbol::Arg1), (var_at(c2), Symbol::Arg2)],
        var_at(c1 + 3),
        var_at(c2 + 3),
        c1 + 17,
        c2 + 17,
        delta,
        r1,
        r2,
    );
}

} // verus!

verus! {

/// Alpha-determinism of the emptiness-test shape.
pub proof fn lemma_alpha_list_is_empty(sym: Symbol, c1: int, c2: int, d1: Def, d2: Def)
    requires
        FIRST_USER_VAR as int <= c1,
        FIRST_USER_VAR as int <= c2,
        c1 + crate::builders::FRESH_BUDGET as int <= u32::MAX as int,
        c2 + crate::builders::FRESH_BUDGET as int <= u32::MAX as int,
        crate::lists::list_is_empty_shape(d1, sym, c1),
        crate::lists::list_is_empty_shape(d2, sym, c2),
    ensures
        alpha_eq_def(d1, d2, c2 - c1),
{
    let delta = c2 - c1;
    let r1 = |e: Expr| e matches Expr::RunLowLevel { op, args, ret_var }
        && op == LowLevel::ValueEq
        && ret_var == var_at(c1 + 1)
        && args@.len() == 2
        && args@[0] == (crate::lists::nat_var(), Expr::Num(crate::lists::natural_var(), 0))
        && args@[1].0 == crate::lists::nat_var()
        && crate::builders::ll1(args@[1].1, LowLevel::ListLen, var_at(c1), Expr::Var(Symbol::Arg1), crate::lists::nat_var());
    let r2 = |e: Expr| e matches Expr::RunLowLevel { op, args, ret_var }
        && op == LowLevel::ValueEq
        && ret_var == var_at(c2 + 1)
        && args@.len() == 2
        && args@[0] == (crate::lists::nat_var(), Expr::Num(crate::lists::natural_var(), 0))
        && args@[1].0 == crate::lists::nat_var()
        && crate::builders::ll1(args@[1].1, LowLevel::ListLen, var_at(c2), Expr::Var(Symbol::Arg1), crate::lists::nat_var());
    assert forall|x1: Expr, x2: Expr| #[trigger] r1(x1) && #[trigger] r2(x2)
        implies alpha_eq_expr(x1, x2, delta)
    by {
        match (x1, x2) {
            (
                Expr::RunLowLevel { args: a1, .. },
                Expr::RunLowLevel { args: a2, .. },
            ) => {
                reveal_with_fuel(alpha_eq_expr, 2);
                lemma_alpha_ll1(
                    a1@[1].1,
                    a2@[1].1,
                    LowLevel::ListLen,
                    (var_at(c1), Expr::Var(Symbol::Arg1)),
                    (var_at(c2), Expr::Var(Symbol::Arg1)),
                    crate::lists::nat_var(),
                    crate::lists::nat_var(),
                    delta,
                );
                assert forall|i: int| 0 <= i < a1.len()
                    implies vars_match((#[trigger] a1[i]).0, a2[i].0, delta)
                        && alpha_eq_expr(a1[i].1, a2[i].1, delta)
                by {
                    if i == 0 {
                        assert(a1@[0] == (crate::lists::nat_var(), Expr::Num(crate::lists::natural_var(), 0)));
                        assert(a2@[0] == (crate::lists::nat_var(), Expr::Num(crate::lists::natural_var(), 0)));
                    }
                }
                assert(alpha_eq_expr(x1, x2, delta));
            },
            _ => {},
        }
    }
    lemma_alpha_defn(
        d1,
        d2,
        sym,
        seq![(var_at(c1), Symbol::Arg1)],
        seq![(var_at(c2), Symbol::Arg1)],
        var_at(c1 + 1),
        var_at(c2 + 1),
        c1 + 2,
        c2 + 2,
        delta,
        r1,
        r2,
    );
}

/// Alpha-determinism of the element-swap shape.
pub proof fn lemma_alpha_list_swap(sym: Symbol, c1: int, c2: int, d1: Def, d2: Def)
    requires
        FIRST_USER_VAR as int <= c1,
        FIRST_USER_VAR as int <= c2,
        c1 + crate::builders::FRESH_BUDGET as int <= u32::MAX as int,
        c2 + crate::builders::FRESH_BUDGET as int <= u32::MAX as int,
        crate::lists::list_swap_shape(d1, sym, c1),
        crate::lists::list_swap_shape(d2, sym, c2),
    ensures
        alpha_eq_def(d1, d2, c2 - c1),
{
    let delta = c2 - c1;
    let r1 = |e: Expr| crate::builders::ll3(
        e,
        LowLevel::ListSwap,
        var_at(c1),
        Expr::Var(Symbol::Arg1),
        var_at(c1 + 1),
        Expr::Var(Symbol::Arg2),
        var_at(c1 + 2),
        Expr::Var(Symbol::Arg3),
        var_at(c1),
    );
    let r2 = |e: Expr| crate::builders::ll3(
        e,
        LowLevel::ListSwap,
        var_at(c2),
        Expr::Var(Symbol::Arg1),
        var_at(c2 + 1),
        Expr::Var(Symbol::Arg2),
        var_at(c2 + 2),
        Expr::Var(Symbol::Arg3),
        var_at(c2),
    );
    assert forall|x1: Expr, x2: Expr| #[trigger] r1(x1) && #[trigger] r2(x2)
        implies alpha_eq_expr(x1, x2, delta)
    by {
        lemma_alpha_ll3(
            x1,
            x2,
            LowLevel::ListSwap,
            (var_at(c1), Expr::Var(Symbol::Arg1)),
            (var_at(c1 + 1), Expr::Var(Symbol::Arg2)),
            (var_at(c1 + 2), Expr::Var(Symbol::Arg3)),
            (var_at(c2), Expr::Var(Symbol::Arg1)),
            (var_at(c2 + 1), Expr::Var(Symbol::Arg2)),
            (var_at(c2 + 2), Expr::Var(Symbol::Arg3)),
            var_at(c1),
            var_at(c2),
            delta,
        );
    }
    lemma_alpha_defn(
        d1,
        d2,
        sym,
        seq![(var_at(c1), Symbol::Arg1), (var_at(c1 + 1), Symbol::Arg2), (var_at(c1 + 2), Symbol::Arg3)],
        seq![(var_at(c2), Symbol::Arg1), (var_at(c2 + 1), Symbol::Arg2), (var_at(c2 + 2), Symbol::Arg3)],
        var_at(c1),
        var_at(c2),
        c1 + 3,
        c2 + 3,
        delta,
        r1,
        r2,
    );
}

/// Alpha-determinism of the drop-first shape.
pub proof fn lemma_alpha_list_drop_first(sym: Symbol, c1: int, c2: int, d1: Def, d2: Def)
    requires
        FIRST_USER_VAR as int <= c1,
        FIRST_USER_VAR as int <= c2,
        c1 + crate::builders::FRESH_BUDGET as int <= u32::MAX as int,
        c2 + crate::builders::FRESH_BUDGET as int <= u32::MAX as int,
        crate::lists::list_drop_first_shape(d1, sym, c1),
        crate::lists::list_drop_first_shape(d2, sym, c2),
    ensures
        alpha_eq_def(d1, d2, c2 - c1),
{
    let delta = c2 - c1;
    let r1 = |e: Expr| crate::builders::ll2(
        e,
        LowLevel::ListDropAt,
        var_at(c1),
        Expr::Var(Symbol::Arg1),
        var_at(c1 + 1),
        Expr::Int(crate::lists::nat_var(), crate::lists::natural_var(), 0),
        var_at(c1),
    );
    let r2 = |e: Expr| crate::builders::ll2(
        e,
        LowLevel::ListDropAt,
        var_at(c2),
        Expr::Var(Symbol::Arg1),
        var_at(c2 + 1),
        Expr::Int(crate::lists::nat_var(), crate::lists::natural_var(), 0),
        var_at(c2),
    );
    assert forall|x1: Expr, x2: Expr| #[trigger] r1(x1) && #[trigger] r2(x2)
        implies alpha_eq_expr(x1, x2, delta)
    by {
        lemma_alpha_ll2(
            x1,
            x2,
            LowLevel::ListDropAt,
            (var_at(c1), Expr::Var(Symbol::Arg1)),
            (var_at(c1 + 1), Expr::Int(crate::lists::nat_var(), crate::lists::natural_var(), 0)),
            (var_at(c2), Expr::Var(Symbol::Arg1)),
            (var_at(c2 + 1), Expr::Int(crate::lists::nat_var(), crate::lists::natural_var(), 0)),
            var_at(c1),
            var_at(c2),
            delta,
        );
    }
    lemma_alpha_defn(
        d1,
        d2,
        sym,
        seq![(var_at(c1), Symbol::Arg1)],
        seq![(var_at(c2), Symbol::Arg1)],
        var_at(c1),
        var_at(c2),
        c1 + 2,
        c2 + 2,
        delta,
        r1,
        r2,
    );
}

/// Alpha-determinism of the drop-last shape.
pub proof fn lemma_alpha_list_drop_last(sym: Symbol, c1: int, c2: int, d1: Def, d2: Def)
    requires
        FIRST_USER_VAR as int <= c1,
        FIRST_USER_VAR as int <= c2,
        c1 + crate::builders::FRESH_BUDGET as int <= u32::MAX as int,
        c2 + crate::builders::FRESH_BUDGET as int <= u32::MAX as int,
        crate::lists::list_drop_last_shape(d1, sym, c1),
        crate::lists::list_drop_last_shape(d2, sym, c2),
    ensures
        alpha_eq_def(d1, d2, c2 - c1),
{
    let delta = c2 - c1;
    let r1 = |e: Expr| e matches Expr::RunLowLevel { op, args, ret_var }
        && op == LowLevel::ListDropAt
        && ret_var == var_at(c1)
        && args@.len() == 2
        && args@[0] == (var_at(c1), Expr::Var(Symbol::Arg1))
        && args@[1].0 == var_at(c1 + 1)
        && (args@[1].1 matches Expr::RunLowLevel { op: sop, args: sargs, ret_var: sret }
            && sop == LowLevel::NumSubWrap
            && sret == crate::lists::nat_var()
            && sargs@.len() == 2
            && sargs@[0].0 == var_at(c1 + 2)
            && crate::builders::ll1(sargs@[0].1, LowLevel::ListLen, var_at(c1), Expr::Var(Symbol::Arg1), crate::lists::nat_var())
            && sargs@[1] == (var_at(c1 + 2), Expr::Int(crate::lists::nat_var(), crate::lists::natural_var(), 1)));
    let r2 = |e: Expr| e matches Expr::RunLowLevel { op, args, ret_var }
        && op == LowLevel::ListDropAt
        && ret_var == var_at(c2)
        && args@.len() == 2
        && args@[0] == (var_at(c2), Expr::Var(Symbol::Arg1))
        && args@[1].0 == var_at(c2 + 1)
        && (args@[1].1 matches Expr::RunLowLevel { op: sop, args: sargs, ret_var: sret }
            && sop == LowLevel::NumSubWrap
            && sret == crate::lists::nat_var()
            && sargs@.len() == 2
            && sargs@[0].0 == var_at(c2 + 2)
            && crate::builders::ll1(sargs@[0].1, LowLevel::ListLen, var_at(c2), Expr::Var(Symbol::Arg1), crate::lists::nat_var())
            && sargs@[1] == (var_at(c2 + 2), Expr::Int(crate::lists::nat_var(), crate::lists::natural_var(), 1)));
    assert forall|x1: Expr, x2: Expr| #[trigger] r1(x1) && #[trigger] r2(x2)
        implies alpha_eq_expr(x1, x2, delta)
    by {
        match (x1, x2) {
            (
                Expr::RunLowLevel { args: a1, .. },
                Expr::RunLowLevel { args: a2, .. },
            ) => {
                reveal_with_fuel(alpha_eq_expr, 2);
                match (a1@[1].1, a2@[1].1) {
                    (
                        Expr::RunLowLevel { args: sa1, .. },
                        Expr::RunLowLevel { args: sa2, .. },
                    ) => {
                        lemma_alpha_ll1(
                            sa1@[0].1,
                            sa2@[0].1,
                            LowLevel::ListLen,
                            (var_at(c1), Expr::Var(Symbol::Arg1)),
                            (var_at(c2), Expr::Var(Symbol::Arg1)),
                            crate::lists::nat_var(),
                            crate::lists::nat_var(),
                            delta,
                        );
                        assert forall|i: int| 0 <= i < sa1.len()
                            implies vars_match((#[trigger] sa1[i]).0, sa2[i].0, delta)
                                && alpha_eq_expr(sa1[i].1, sa2[i].1, delta)
                        by {
                            if i == 1 {
                                assert(sa1@[1] == (var_at(c1 + 2), Expr::Int(crate::lists::nat_var(), crate::lists::natural_var(), 1)));
                                assert(sa2@[1] == (var_at(c2 + 2), Expr::Int(crate::lists::nat_var(), crate::lists::natural_var(), 1)));
                            }
                        }
                        assert(alpha_eq_expr(a1@[1].1, a2@[1].1, delta));
                    },
                    _ => {},
                }
                assert forall|i: int| 0 <= i < a1.len()
                    implies vars_match((#[trigger] a1[i]).0, a2[i].0, delta)
                        && alpha_eq_expr(a1[i].1, a2[i].1, delta)
                by {
                    if i == 0 {
                        assert(a1@[0] == (var_at(c1), Expr::Var(Symbol::Arg1)));
                        assert(a2@[0] == (var_at(c2), Expr::Var(Symbol::Arg1)));
                    }
                }
                assert(alpha_eq_expr(x1, x2, delta));
            },
            _ => {},
        }
    }
    lemma_alpha_defn(
        d1,
        d2,
        sym,
        seq![(var_at(c1), Symbol::Arg1)],
        seq![(var_at(c2), Symbol::Arg1)],
        var_at(c1),
        var_at(c2),
        c1 + 3,
        c2 + 3,
        delta,
        r1,
        r2,
    );
}

} // verus!

verus! {

/// Alpha-equivalence of two `defn_help`-shaped closures, from matching
/// names, parameters, result variables and alpha-equivalent bodies.
pub proof fn lemma_alpha_closure(
    e1: Expr,
    e2: Expr,
    name: Symbol,
    params1: Seq<(Variable, Symbol)>,
    params2: Seq<(Variable, Symbol)>,
    ret1: Variable,
    ret2: Variable,
    c_a: int,
    c_b: int,
    delta: int,
    rel1: spec_fn(Expr) -> bool,
    rel2: spec_fn(Expr) -> bool,
)
    requires
        crate::builders::closure_shape(e1, name, params1, ret1, c_a, rel1),
        crate::builders::closure_shape(e2, name, params2, ret2, c_b, rel2),
        delta == c_b - c_a,
        FIRST_USER_VAR as int <= c_a,
        FIRST_USER_VAR as int <= c_b,
        c_a + 3 <= u32::MAX as int,
        c_b + 3 <= u32::MAX as int,
        params1.len() == params2.len(),
        forall|i: int| 0 <= i < params1.len()
            ==> vars_match((#[trigger] params1[i]).0, params2[i].0, delta)
                && params1[i].1 == params2[i].1,
        vars_match(ret1, ret2, delta),
        forall|x1: Expr, x2: Expr| #[trigger] rel1(x1) && #[trigger] rel2(x2)
            ==> alpha_eq_expr(x1, x2, delta),
    ensures
        alpha_eq_expr(e1, e2, delta),
{
    reveal_with_fuel(alpha_eq_expr, 2);
    reveal_with_fuel(alpha_eq_pattern, 2);
    match (e1, e2) {
        (Expr::Closure(cd1), Expr::Closure(cd2)) => {
            assert forall|i: int| 0 <= i < cd1.arguments.len()
                implies vars_match((#[trigger] cd1.arguments[i]).0, cd2.arguments[i].0, delta)
                    && alpha_eq_pattern(cd1.arguments[i].1, cd2.arguments[i].1, delta)
            by {
                assert(cd1.arguments@[i] == (params1[i].0, Pattern::Identifier(params1[i].1)));
                assert(cd2.arguments@[i] == (params2[i].0, Pattern::Identifier(params2[i].1)));
            }
            assert(rel1(*cd1.body) && rel2(*cd2.body));
        },
        _ => {},
    }
}

/// Alpha-determinism of the bounds-checked indexing shape.
pub proof fn lemma_alpha_list_get(sym: Symbol, c1: int, c2: int, d1: Def, d2: Def)
    requires
        FIRST_USER_VAR as int <= c1,
        FIRST_USER_VAR as int <= c2,
        c1 + crate::builders::FRESH_BUDGET as int <= u32::MAX as int,
        c2 + crate::builders::FRESH_BUDGET as int <= u32::MAX as int,
        crate::lists::list_get_shape(d1, sym, c1),
        crate::lists::list_get_shape(d2, sym, c2),
    ensures
        alpha_eq_def(d1, d2, c2 - c1),
{
    let delta = c2 - c1;
    let r1 = |e: Expr| crate::lists::list_get_body_shape(c1, e);
    let r2 = |e: Expr| crate::lists::list_get_body_shape(c2, e);
    assert forall|x1: Expr, x2: Expr| #[trigger] r1(x1) && #[trigger] r2(x2)
        implies alpha_eq_expr(x1, x2, delta)
    by {
        match (x1, x2) {
            (
                Expr::If { branches: br1, final_else: f1, .. },
                Expr::If { branches: br2, final_else: f2, .. },
            ) => {
                reveal_with_fuel(alpha_eq_expr, 2);
                match (br1@[0].0, br2@[0].0) {
                    (
                        Expr::RunLowLevel { args: ga1, .. },
                        Expr::RunLowLevel { args: ga2, .. },
                    ) => {
                        lemma_alpha_ll1(
                            ga1@[1].1,
                            ga2@[1].1,
                            LowLevel::ListLen,
                            (var_at(c1 + 2), Expr::Var(Symbol::Arg1)),
                            (var_at(c2 + 2), Expr::Var(Symbol::Arg1)),
                            var_at(c1 + 1),
                            var_at(c2 + 1),
                            delta,
                        );
                        assert forall|i: int| 0 <= i < ga1.len()
                            implies vars_match((#[trigger] ga1[i]).0, ga2[i].0, delta)
                                && alpha_eq_expr(ga1[i].1, ga2[i].1, delta)
                        by {
                            if i == 0 {
                                assert(ga1@[0] == (var_at(c1 + 1), Expr::Var(Symbol::Arg2)));
                                assert(ga2@[0] == (var_at(c2 + 1), Expr::Var(Symbol::Arg2)));
                            }
                        }
                        assert(alpha_eq_expr(br1@[0].0, br2@[0].0, delta));
                    },
                    _ => {},
                }
                let rt1 = |i: int, a: Expr| crate::builders::ll2(
                    a,
                    LowLevel::ListGetUnsafe,
                    var_at(c1 + 2),
                    Expr::Var(Symbol::Arg1),
                    var_at(c1 + 1),
                    Expr::Var(Symbol::Arg2),
                    var_at(c1 + 3),
                );
                let rt2 = |i: int, a: Expr| crate::builders::ll2(
                    a,
                    LowLevel::ListGetUnsafe,
                    var_at(c2 + 2),
                    Expr::Var(Symbol::Arg1),
                    var_at(c2 + 1),
                    Expr::Var(Symbol::Arg2),
                    var_at(c2 + 3),
                );
                assert forall|i: int, y1: Expr, y2: Expr|
                    0 <= i < 1 && #[trigger] rt1(i, y1) && #[trigger] rt2(i, y2)
                        implies alpha_eq_expr(y1, y2, delta)
                by {
                    lemma_alpha_ll2(
                        y1,
                        y2,
                        LowLevel::ListGetUnsafe,
                        (var_at(c1 + 2), Expr::Var(Symbol::Arg1)),
                        (var_at(c1 + 1), Expr::Var(Symbol::Arg2)),
                        (var_at(c2 + 2), Expr::Var(Symbol::Arg1)),
                        (var_at(c2 + 1), Expr::Var(Symbol::Arg2)),
                        var_at(c1 + 3),
                        var_at(c2 + 3),
                        delta,
                    );
                }
                lemma_alpha_tag(br1@[0].1, br2@[0].1, TagName::OkTag, 1, c1 + 6, c2 + 6, delta, rt1, rt2);
                lemma_alpha_wrapped_err(*f1, *f2, TagName::OutOfBounds, c1 + 9, c2 + 9, delta);
                lemma_alpha_if1(x1, x2, var_at(c1), var_at(c1 + 5), var_at(c2), var_at(c2 + 5), delta);
            },
            _ => {},
        }
    }
    lemma_alpha_defn(
        d1,
        d2,
        sym,
        seq![(var_at(c1 + 2), Symbol::Arg1), (var_at(c1 + 1), Symbol::Arg2)],
        seq![(var_at(c2 + 2), Symbol::Arg1), (var_at(c2 + 1), Symbol::Arg2)],
        var_at(c1 + 4),
        var_at(c2 + 4),
        c1 + 14,
        c2 + 14,
        delta,
        r1,
        r2,
    );
}

/// Alpha-determinism of the bounds-checked update shape.
pub proof fn lemma_alpha_list_set(sym: Symbol, c1: int, c2: int, d1: Def, d2: Def)
    requires
        FIRST_USER_VAR as int <= c1,
        FIRST_USER_VAR as int <= c2,
        c1 + crate::builders::FRESH_BUDGET as int <= u32::MAX as int,
        c2 + crate::builders::FRESH_BUDGET as int <= u32::MAX as int,
        crate::lists::list_set_shape(d1, sym, c1),
        crate::lists::list_set_shape(d2, sym, c2),
    ensures
        alpha_eq_def(d1, d2, c2 - c1),
{
    let delta = c2 - c1;
    let r1 = |e: Expr| crate::lists::list_set_body_shape(c1, e);
    let r2 = |e: Expr| crate::lists::list_set_body_shape(c2, e);
    assert forall|x1: Expr, x2: Expr| #[trigger] r1(x1) && #[trigger] r2(x2)
        implies alpha_eq_expr(x1, x2, delta)
    by {
        match (x1, x2) {
            (
                Expr::If { branches: br1, final_else: f1, .. },
                Expr::If { branches: br2, final_else: f2, .. },
            ) => {
                reveal_with_fuel(alpha_eq_expr, 2);
                match (br1@[0].0, br2@[0].0) {
                    (
                        Expr::RunLowLevel { args: ga1, .. },
                        Expr::RunLowLevel { args: ga2, .. },
                    ) => {
                        lemma_alpha_ll1(
                            ga1@[1].1,
                            ga2@[1].1,
                            LowLevel::ListLen,
                            (var_at(c1 + 3), Expr::Var(Symbol::Arg1)),
                            (var_at(c2 + 3), Expr::Var(Symbol::Arg1)),
                            var_at(c1 + 1),
                            var_at(c2 + 1),
                            delta,
                        );
                        assert forall|i: int| 0 <= i < ga1.len()
                            implies vars_match((#[trigger] ga1[i]).0, ga2[i].0, delta)
                                && alpha_eq_expr(ga1[i].1, ga2[i].1, delta)
                        by {
                            if i == 0 {
                                assert(ga1@[0] == (var_at(c1 + 1), Expr::Var(Symbol::Arg2)));
                                assert(ga2@[0] == (var_at(c2 + 1), Expr::Var(Symbol::Arg2)));
                            }
                        }
                        assert(alpha_eq_expr(br1@[0].0, br2@[0].0, delta));
                    },
                    _ => {},
                }
                lemma_alpha_ll3(
                    br1@[0].1,
                    br2@[0].1,
                    LowLevel::ListSet,
                    (var_at(c1 + 3), Expr::Var(Symbol::Arg1)),
                    (var_at(c1 + 1), Expr::Var(Symbol::Arg2)),
                    (var_at(c1 + 2), Expr::Var(Symbol::Arg3)),
                    (var_at(c2 + 3), Expr::Var(Symbol::Arg1)),
                    (var_at(c2 + 1), Expr::Var(Symbol::Arg2)),
                    (var_at(c2 + 2), Expr::Var(Symbol::Arg3)),
                    var_at(c1 + 4),
                    var_at(c2 + 4),
                    delta,
                );
                lemma_alpha_if1(x1, x2, var_at(c1), var_at(c1 + 4), var_at(c2), var_at(c2 + 4), delta);
            },
            _ => {},
        }
    }
    lemma_alpha_defn(
        d1,
        d2,
        sym,
        seq![(var_at(c1 + 3), Symbol::Arg1), (var_at(c1 + 1), Symbol::Arg2), (var_at(c1 + 2), Symbol::Arg3)],
        seq![(var_at(c2 + 3), Symbol::Arg1), (var_at(c2 + 1), Symbol::Arg2), (var_at(c2 + 2), Symbol::Arg3)],
        var_at(c1 + 4),
        var_at(c2 + 4),
        c1 + 5,
        c2 + 5,
        delta,
        r1,
        r2,
    );
}

/// Alpha-determinism of the first-element shape.
pub proof fn lemma_alpha_list_first(sym: Symbol, c1: int, c2: int, d1: Def, d2: Def)
    requires
        FIRST_USER_VAR as int <= c1,
        FIRST_USER_VAR as int <= c2,
        c1 + crate::builders::FRESH_BUDGET as int <= u32::MAX as int,
        c2 + crate::builders::FRESH_BUDGET as int <= u32::MAX as int,
        crate::lists::list_first_shape(d1, sym, c1),
        crate::lists::list_first_shape(d2, sym, c2),
    ensures
        alpha_eq_def(d1, d2, c2 - c1),
{
    let delta = c2 - c1;
    let r1 = |e: Expr| crate::lists::list_first_body_shape(c1, e);
    let r2 = |e: Expr| crate::lists::list_first_body_shape(c2, e);
    assert forall|x1: Expr, x2: Expr| #[trigger] r1(x1) && #[trigger] r2(x2)
        implies alpha_eq_expr(x1, x2, delta)
    by {
        match (x1, x2) {
            (
                Expr::If { branches: br1, final_else: f1, .. },
                Expr::If { branches: br2, final_else: f2, .. },
            ) => {
                reveal_with_fuel(alpha_eq_expr, 2);
                match (br1@[0].0, br2@[0].0) {
                    (
                        Expr::RunLowLevel { args: ga1, .. },
                        Expr::RunLowLevel { args: ga2, .. },
                    ) => {
                        lemma_alpha_ll1(
                            ga1@[1].1,
                            ga2@[1].1,
                            LowLevel::ListLen,
                            (var_at(c1 + 1), Expr::Var(Symbol::Arg1)),
                            (var_at(c2 + 1), Expr::Var(Symbol::Arg1)),
                            crate::lists::nat_var(),
                            crate::lists::nat_var(),
                            delta,
                        );
                        assert forall|i: int| 0 <= i < ga1.len()
                            implies vars_match((#[trigger] ga1[i]).0, ga2[i].0, delta)
                                && alpha_eq_expr(ga1[i].1, ga2[i].1, delta)
                        by {
                            if i == 0 {
                                assert(ga1@[0] == (crate::lists::nat_var(), Expr::Int(crate::lists::nat_var(), crate::lists::natural_var(), 0)));
                                assert(ga2@[0] == (crate::lists::nat_var(), Expr::Int(crate::lists::nat_var(), crate::lists::natural_var(), 0)));
                            }
                        }
                        assert(alpha_eq_expr(br1@[0].0, br2@[0].0, delta));
                    },
                    _ => {},
                }
                let rt1 = |i: int, a: Expr| crate::builders::ll2(
                    a,
                    LowLevel::ListGetUnsafe,
                    var_at(c1 + 1),
                    Expr::Var(Symbol::Arg1),
                    crate::lists::nat_var(),
                    Expr::Int(crate::lists::nat_var(), crate::lists::natural_var(), 0),
                    var_at(c1 + 2),
                );
                let rt2 = |i: int, a: Expr| crate::builders::ll2(
                    a,
                    LowLevel::ListGetUnsafe,
                    var_at(c2 + 1),
                    Expr::Var(Symbol::Arg1),
                    crate::lists::nat_var(),
                    Expr::Int(crate::lists::nat_var(), crate::lists::natural_var(), 0),
                    var_at(c2 + 2),
                );
                assert forall|i: int, y1: Expr, y2: Expr|
                    0 <= i < 1 && #[trigger] rt1(i, y1) && #[trigger] rt2(i, y2)
                        implies alpha_eq_expr(y1, y2, delta)
                by {
                    lemma_alpha_ll2(
                        y1,
                        y2,
                        LowLevel::ListGetUnsafe,
                        (var_at(c1 + 1), Expr::Var(Symbol::Arg1)),
                        (crate::lists::nat_var(), Expr::Int(crate::lists::nat_var(), crate::lists::natural_var(), 0)),
                        (var_at(c2 + 1), Expr::Var(Symbol::Arg1)),
                        (crate::lists::nat_var(), Expr::Int(crate::lists::nat_var(), crate::lists::natural_var(), 0)),
                        var_at(c1 + 2),
                        var_at(c2 + 2),
                        delta,
                    );
                }
                lemma_alpha_tag(br1@[0].1, br2@[0].1, TagName::OkTag, 1, c1 + 5, c2 + 5, delta, rt1, rt2);
                lemma_alpha_wrapped_err(*f1, *f2, TagName::ListWasEmpty, c1 + 8, c2 + 8, delta);
                lemma_alpha_if1(x1, x2, var_at(c1), var_at(c1 + 4), var_at(c2), var_at(c2 + 4), delta);
            },
            _ => {},
        }
    }
    lemma_alpha_defn(
        d1,
        d2,
        sym,
        seq![(var_at(c1 + 1), Symbol::Arg1)],
        seq![(var_at(c2 + 1), Symbol::Arg1)],
        var_at(c1 + 3),
        var_at(c2 + 3),
        c1 + 13,
        c2 + 13,
        delta,
        r1,
        r2,
    );
}

/// Alpha-determinism of the last-element shape.
pub proof fn lemma_alpha_list_last(sym: Symbol, c1: int, c2: int, d1: Def, d2: Def)
    requires
        FIRST_USER_VAR as int <= c1,
        FIRST_USER_VAR as int <= c2,
        c1 + crate::builders::FRESH_BUDGET as int <= u32::MAX as int,
        c2 + crate::builders::FRESH_BUDGET as int <= u32::MAX as int,
        crate::lists::list_last_shape(d1, sym, c1),
        crate::lists::list_last_shape(d2, sym, c2),
    ensures
        alpha_eq_def(d1, d2, c2 - c1),
{
    let delta = c2 - c1;
    let r1 = |e: Expr| crate::lists::list_last_body_shape(c1, e);
    let r2 = |e: Expr| crate::lists::list_last_body_shape(c2, e);
    assert forall|x1: Expr, x2: Expr| #[trigger] r1(x1) && #[trigger] r2(x2)
        implies alpha_eq_expr(x1, x2, delta)
    by {
        match (x1, x2) {
            (
                Expr::If { branches: br1, final_else: f1, .. },
                Expr::If { branches: br2, final_else: f2, .. },
            ) => {
                reveal_with_fuel(alpha_eq_expr, 2);
                match (br1@[0].0, br2@[0].0) {
                    (
                        Expr::RunLowLevel { args: ga1, .. },
                        Expr::RunLowLevel { args: ga2, .. },
                    ) => {
                        lemma_alpha_ll1(
                            ga1@[1].1,
                            ga2@[1].1,
                            LowLevel::ListLen,
                            (var_at(c1 + 2), Expr::Var(Symbol::Arg1)),
                            (var_at(c2 + 2), Expr::Var(Symbol::Arg1)),
                            crate::lists::nat_var(),
                            crate::lists::nat_var(),
                            delta,
                        );
                        assert forall|i: int| 0 <= i < ga1.len()
                            implies vars_match((#[trigger] ga1[i]).0, ga2[i].0, delta)
                                && alpha_eq_expr(ga1[i].1, ga2[i].1, delta)
                        by {
                            if i == 0 {
                                assert(ga1@[0] == (crate::lists::nat_var(), Expr::Int(crate::lists::nat_var(), crate::lists::natural_var(), 0)));
                                assert(ga2@[0] == (crate::lists::nat_var(), Expr::Int(crate::lists::nat_var(), crate::lists::natural_var(), 0)));
                            }
                        }
                        assert(alpha_eq_expr(br1@[0].0, br2@[0].0, delta));
                    },
                    _ => {},
                }
                let rt1 = |i: int, a: Expr| (a matches Expr::RunLowLevel { op, args, ret_var }
                    && op == LowLevel::ListGetUnsafe
                    && ret_var == var_at(c1 + 3)
                    && args@.len() == 2
                    && args@[0] == (var_at(c1 + 2), Expr::Var(Symbol::Arg1))
                    && args@[1].0 == crate::lists::nat_var()
                    && (args@[1].1 matches Expr::RunLowLevel { op: sop, args: sargs, ret_var: sret }
                        && sop == LowLevel::NumSubWrap
                        && sret == crate::lists::nat_var()
                        && sargs@.len() == 2
                        && sargs@[0].0 == var_at(c1)
                        && crate::builders::ll1(sargs@[0].1, LowLevel::ListLen, var_at(c1 + 2), Expr::Var(Symbol::Arg1), crate::lists::nat_var())
                        && sargs@[1] == (var_at(c1), Expr::Int(crate::lists::nat_var(), crate::lists::natural_var(), 1))));
                let rt2 = |i: int, a: Expr| (a matches Expr::RunLowLevel { op, args, ret_var }
                    && op == LowLevel::ListGetUnsafe
                    && ret_var == var_at(c2 + 3)
                    && args@.len() == 2
                    && args@[0] == (var_at(c2 + 2), Expr::Var(Symbol::Arg1))
                    && args@[1].0 == crate::lists::nat_var()
                    && (args@[1].1 matches Expr::RunLowLevel { op: sop, args: sargs, ret_var: sret }
                        && sop == LowLevel::NumSubWrap
                        && sret == crate::lists::nat_var()
                        && sargs@.len() == 2
                        && sargs@[0].0 == var_at(c2)
                        && crate::builders::ll1(sargs@[0].1, LowLevel::ListLen, var_at(c2 + 2), Expr::Var(Symbol::Arg1), crate::lists::nat_var())
                        && sargs@[1] == (var_at(c2), Expr::Int(crate::lists::nat_var(), crate::lists::natural_var(), 1))));
                assert forall|i: int, y1: Expr, y2: Expr|
                    0 <= i < 1 && #[trigger] rt1(i, y1) && #[trigger] rt2(i, y2)
                        implies alpha_eq_expr(y1, y2, delta)
                by {
                    match (y1, y2) {
                        (
                            Expr::RunLowLevel { args: qa1, .. },
                            Expr::RunLowLevel { args: qa2, .. },
                        ) => {
                            match (qa1@[1].1, qa2@[1].1) {
                                (
                                    Expr::RunLowLevel { args: sa1, .. },
                                    Expr::RunLowLevel { args: sa2, .. },
                                ) => {
                                    lemma_alpha_ll1(
                                        sa1@[0].1,
                                        sa2@[0].1,
                                        LowLevel::ListLen,
                                        (var_at(c1 + 2), Expr::Var(Symbol::Arg1)),
                                        (var_at(c2 + 2), Expr::Var(Symbol::Arg1)),
                                        crate::lists::nat_var(),
                                        crate::lists::nat_var(),
                                        delta,
                                    );
                                    assert forall|j: int| 0 <= j < sa1.len()
                                        implies vars_match((#[trigger] sa1[j]).0, sa2[j].0, delta)
                                            && alpha_eq_expr(sa1[j].1, sa2[j].1, delta)
                                    by {
                                        if j == 1 {
                                            assert(sa1@[1] == (var_at(c1), Expr::Int(crate::lists::nat_var(), crate::lists::natural_var(), 1)));
                                            assert(sa2@[1] == (var_at(c2), Expr::Int(crate::lists::nat_var(), crate::lists::natural_var(), 1)));
                                        }
                                    }
                                    assert(alpha_eq_expr(qa1@[1].1, qa2@[1].1, delta));
                                },
                                _ => {},
                            }
                            assert forall|j: int| 0 <= j < qa1.len()
                                implies vars_match((#[trigger] qa1[j]).0, qa2[j].0, delta)
                                    && alpha_eq_expr(qa1[j].1, qa2[j].1, delta)
                            by {
                                if j == 0 {
                                    assert(qa1@[0] == (var_at(c1 + 2), Expr::Var(Symbol::Arg1)));
                                    assert(qa2@[0] == (var_at(c2 + 2), Expr::Var(Symbol::Arg1)));
                                }
                            }
                            assert(alpha_eq_expr(y1, y2, delta));
                        },
                        _ => {},
                    }
                }
                lemma_alpha_tag(br1@[0].1, br2@[0].1, TagName::OkTag, 1, c1 + 6, c2 + 6, delta, rt1, rt2);
                lemma_alpha_wrapped_err(*f1, *f2, TagName::ListWasEmpty, c1 + 9, c2 + 9, delta);
                lemma_alpha_if1(x1, x2, var_at(c1 + 1), var_at(c1 + 5), var_at(c2 + 1), var_at(c2 + 5), delta);
            },
            _ => {},
        }
    }
    lemma_alpha_defn(
        d1,
        d2,
        sym,
        seq![(var_at(c1 + 2), Symbol::Arg1)],
        seq![(var_at(c2 + 2), Symbol::Arg1)],
        var_at(c1 + 4),
        var_at(c2 + 4),
        c1 + 14,
        c2 + 14,
        delta,
        r1,
        r2,
    );
}

} // verus!

verus! {

/// Alpha-determinism of the sum/product fold shape.
pub proof fn lemma_alpha_fold_accum(sym: Symbol, step_name: Symbol, op: LowLevel, seed: i64, c1: int, c2: int, d1: Def, d2: Def)
    requires
        FIRST_USER_VAR as int <= c1,
        FIRST_USER_VAR as int <= c2,
        c1 + crate::builders::FRESH_BUDGET as int <= u32::MAX as int,
        c2 + crate::builders::FRESH_BUDGET as int <= u32::MAX as int,
        crate::lists::fold_accum_shape(d1, sym, step_name, op, seed, c1),
        crate::lists::fold_accum_shape(d2, sym, step_name, op, seed, c2),
    ensures
        alpha_eq_def(d1, d2, c2 - c1),
{
    let delta = c2 - c1;
    let r1 = |e: Expr| e matches Expr::RunLowLevel { op: wop, args, ret_var }
        && wop == LowLevel::ListWalk
        && ret_var == var_at(c1)
        && args@.len() == 3
        && args@[0] == (var_at(c1 + 1), Expr::Var(Symbol::Arg1))
        && args@[1] == (var_at(c1), Expr::Num(var_at(c1 + 3), seed))
        && args@[2].0 == var_at(c1 + 2)
        && crate::lists::fold_accum_step_shape(args@[2].1, step_name, op, var_at(c1), c1 + 4);
    let r2 = |e: Expr| e matches Expr::RunLowLevel { op: wop, args, ret_var }
        && wop == LowLevel::ListWalk
        && ret_var == var_at(c2)
        && args@.len() == 3
        && args@[0] == (var_at(c2 + 1), Expr::Var(Symbol::Arg1))
        && args@[1] == (var_at(c2), Expr::Num(var_at(c2 + 3), seed))
        && args@[2].0 == var_at(c2 + 2)
        && crate::lists::fold_accum_step_shape(args@[2].1, step_name, op, var_at(c2), c2 + 4);
    assert forall|x1: Expr, x2: Expr| #[trigger] r1(x1) && #[trigger] r2(x2)
        implies alpha_eq_expr(x1, x2, delta)
    by {
        match (x1, x2) {
            (
                Expr::RunLowLevel { args: a1, .. },
                Expr::RunLowLevel { args: a2, .. },
            ) => {
                reveal_with_fuel(alpha_eq_expr, 2);
                let sr1 = |b: Expr| crate::builders::ll2(
                    b,
                    op,
                    var_at(c1),
                    Expr::Var(Symbol::Arg3),
                    var_at(c1),
                    Expr::Var(Symbol::Arg4),
                    var_at(c1),
                );
                let sr2 = |b: Expr| crate::builders::ll2(
                    b,
                    op,
                    var_at(c2),
                    Expr::Var(Symbol::Arg3),
                    var_at(c2),
                    Expr::Var(Symbol::Arg4),
                    var_at(c2),
                );
                assert forall|y1: Expr, y2: Expr| #[trigger] sr1(y1) && #[trigger] sr2(y2)
                    implies alpha_eq_expr(y1, y2, delta)
                by {
                    lemma_alpha_ll2(
                        y1,
                        y2,
                        op,
                        (var_at(c1), Expr::Var(Symbol::Arg3)),
                        (var_at(c1), Expr::Var(Symbol::Arg4)),
                        (var_at(c2), Expr::Var(Symbol::Arg3)),
                        (var_at(c2), Expr::Var(Symbol::Arg4)),
                        var_at(c1),
                        var_at(c2),
                        delta,
                    );
                }
                lemma_alpha_closure(
                    a1@[2].1,
                    a2@[2].1,
                    step_name,
                    seq![(var_at(c1), Symbol::Arg3), (var_at(c1), Symbol::Arg4)],
                    seq![(var_at(c2), Symbol::Arg3), (var_at(c2), Symbol::Arg4)],
                    var_at(c1),
                    var_at(c2),
                    c1 + 4,
                    c2 + 4,
                    delta,
                    sr1,
                    sr2,
                );
                assert forall|i: int| 0 <= i < a1.len()
                    implies vars_match((#[trigger] a1[i]).0, a2[i].0, delta)
                        && alpha_eq_expr(a1[i].1, a2[i].1, delta)
                by {
                    if i == 0 {
                        assert(a1@[0] == (var_at(c1 + 1), Expr::Var(Symbol::Arg1)));
                        assert(a2@[0] == (var_at(c2 + 1), Expr::Var(Symbol::Arg1)));
                    } else if i == 1 {
                        assert(a1@[1] == (var_at(c1), Expr::Num(var_at(c1 + 3), seed)));
                        assert(a2@[1] == (var_at(c2), Expr::Num(var_at(c2 + 3), seed)));
                    }
                }
                assert(alpha_eq_expr(x1, x2, delta));
            },
            _ => {},
        }
    }
    lemma_alpha_defn(
        d1,
        d2,
        sym,
        seq![(var_at(c1 + 1), Symbol::Arg1)],
        seq![(var_at(c2 + 1), Symbol::Arg1)],
        var_at(c1),
        var_at(c2),
        c1 + 7,
        c2 + 7,
        delta,
        r1,
        r2,
    );
}

/// Alpha-determinism of the minimum/maximum shape.
pub proof fn lemma_alpha_list_pick(sym: Symbol, step_name: Symbol, cmp_op: LowLevel, c1: int, c2: int, d1: Def, d2: Def)
    requires
        FIRST_USER_VAR as int <= c1,
        FIRST_USER_VAR as int <= c2,
        c1 + crate::builders::FRESH_BUDGET as int <= u32::MAX as int,
        c2 + crate::builders::FRESH_BUDGET as int <= u32::MAX as int,
        crate::lists::list_pick_shape(d1, sym, step_name, cmp_op, c1),
        crate::lists::list_pick_shape(d2, sym, step_name, cmp_op, c2),
    ensures
        alpha_eq_def(d1, d2, c2 - c1),
{
    let delta = c2 - c1;
    let r1 = |e: Expr| crate::lists::list_pick_body_shape(step_name, cmp_op, c1, e);
    let r2 = |e: Expr| crate::lists::list_pick_body_shape(step_name, cmp_op, c2, e);
    assert forall|x1: Expr, x2: Expr| #[trigger] r1(x1) && #[trigger] r2(x2)
        implies alpha_eq_expr(x1, x2, delta)
    by {
        match (x1, x2) {
            (
                Expr::If { branches: br1, final_else: f1, .. },
                Expr::If { branches: br2, final_else: f2, .. },
            ) => {
                reveal_with_fuel(alpha_eq_expr, 2);
                match (br1@[0].0, br2@[0].0) {
                    (
                        Expr::RunLowLevel { args: ga1, .. },
                        Expr::RunLowLevel { args: ga2, .. },
                    ) => {
                        lemma_alpha_ll1(
                            ga1@[1].1,
                            ga2@[1].1,
                            LowLevel::ListLen,
                            (var_at(c1 + 2), Expr::Var(Symbol::Arg1)),
                            (var_at(c2 + 2), Expr::Var(Symbol::Arg1)),
                            crate::lists::nat_var(),
                            crate::lists::nat_var(),
                            delta,
                        );
                        assert forall|i: int| 0 <= i < ga1.len()
                            implies vars_match((#[trigger] ga1[i]).0, ga2[i].0, delta)
                                && alpha_eq_expr(ga1[i].1, ga2[i].1, delta)
                        by {
                            if i == 0 {
                                assert(ga1@[0] == (crate::lists::nat_var(), Expr::Int(crate::lists::nat_var(), crate::lists::natural_var(), 0)));
                                assert(ga2@[0] == (crate::lists::nat_var(), Expr::Int(crate::lists::nat_var(), crate::lists::natural_var(), 0)));
                            }
                        }
                        assert(alpha_eq_expr(br1@[0].0, br2@[0].0, delta));
                    },
                    _ => {},
                }
                let rt1 = |i: int, a: Expr| (a matches Expr::RunLowLevel { op, args, ret_var }
                    && op == LowLevel::ListWalk
                    && ret_var == var_at(c1 + 3)
                    && args@.len() == 3
                    && args@[0] == (var_at(c1 + 2), Expr::Var(Symbol::Arg1))
                    && args@[1].0 == var_at(c1 + 3)
                    && crate::builders::ll2(
                        args@[1].1,
                        LowLevel::ListGetUnsafe,
                        var_at(c1 + 2),
                        Expr::Var(Symbol::Arg1),
                        var_at(c1),
                        Expr::Int(crate::lists::nat_var(), crate::lists::natural_var(), 0),
                        var_at(c1 + 3),
                    )
                    && args@[2].0 == var_at(c1 + 5)
                    && crate::lists::fold_pick_step_shape(args@[2].1, step_name, cmp_op, var_at(c1 + 3), c1 + 7));
                let rt2 = |i: int, a: Expr| (a matches Expr::RunLowLevel { op, args, ret_var }
                    && op == LowLevel::ListWalk
                    && ret_var == var_at(c2 + 3)
                    && args@.len() == 3
                    && args@[0] == (var_at(c2 + 2), Expr::Var(Symbol::Arg1))
                    && args@[1].0 == var_at(c2 + 3)
                    && crate::builders::ll2(
                        args@[1].1,
                        LowLevel::ListGetUnsafe,
                        var_at(c2 + 2),
                        Expr::Var(Symbol::Arg1),
                        var_at(c2),
                        Expr::Int(crate::lists::nat_var(), crate::lists::natural_var(), 0),
                        var_at(c2 + 3),
                    )
                    && args@[2].0 == var_at(c2 + 5)
                    && crate::lists::fold_pick_step_shape(args@[2].1, step_name, cmp_op, var_at(c2 + 3), c2 + 7));
                assert forall|i: int, y1: Expr, y2: Expr|
                    0 <= i < 1 && #[trigger] rt1(i, y1) && #[trigger] rt2(i, y2)
                        implies alpha_eq_expr(y1, y2, delta)
                by {
                    match (y1, y2) {
                        (
                            Expr::RunLowLevel { args: wa1, .. },
                            Expr::RunLowLevel { args: wa2, .. },
                        ) => {
                            lemma_alpha_ll2(
                                wa1@[1].1,
                                wa2@[1].1,
                                LowLevel::ListGetUnsafe,
                                (var_at(c1 + 2), Expr::Var(Symbol::Arg1)),
                                (var_at(c1), Expr::Int(crate::lists::nat_var(), crate::lists::natural_var(), 0)),
                                (var_at(c2 + 2), Expr::Var(Symbol::Arg1)),
                                (var_at(c2), Expr::Int(crate::lists::nat_var(), crate::lists::natural_var(), 0)),
                                var_at(c1 + 3),
                                var_at(c2 + 3),
                                delta,
                            );
                            let sr1 = |b: Expr| (b matches Expr::If { cond_var, branch_var, branches, final_else }
                                && cond_var == var_at(c1 + 7)
                                && branch_var == var_at(c1 + 3)
                                && branches@.len() == 1
                                && crate::builders::ll2(
                                    branches@[0].0,
                                    cmp_op,
                                    var_at(c1 + 3),
                                    Expr::Var(Symbol::Arg4),
                                    var_at(c1 + 3),
                                    Expr::Var(Symbol::Arg3),
                                    var_at(c1 + 7),
                                )
                                && branches@[0].1 == Expr::Var(Symbol::Arg4)
                                && *final_else == Expr::Var(Symbol::Arg3));
                            let sr2 = |b: Expr| (b matches Expr::If { cond_var, branch_var, branches, final_else }
                                && cond_var == var_at(c2 + 7)
                                && branch_var == var_at(c2 + 3)
                                && branches@.len() == 1
                                && crate::builders::ll2(
                                    branches@[0].0,
                                    cmp_op,
                                    var_at(c2 + 3),
                                    Expr::Var(Symbol::Arg4),
                                    var_at(c2 + 3),
                                    Expr::Var(Symbol::Arg3),
                                    var_at(c2 + 7),
                                )
                                && branches@[0].1 == Expr::Var(Symbol::Arg4)
                                && *final_else == Expr::Var(Symbol::Arg3));
                            assert forall|z1: Expr, z2: Expr| #[trigger] sr1(z1) && #[trigger] sr2(z2)
                                implies alpha_eq_expr(z1, z2, delta)
                            by {
                                match (z1, z2) {
                                    (
                                        Expr::If { branches: ib1, final_else: ie1, .. },
                                        Expr::If { branches: ib2, final_else: ie2, .. },
                                    ) => {
                                        lemma_alpha_ll2(
                                            ib1@[0].0,
                                            ib2@[0].0,
                                            cmp_op,
                                            (var_at(c1 + 3), Expr::Var(Symbol::Arg4)),
                                            (var_at(c1 + 3), Expr::Var(Symbol::Arg3)),
                                            (var_at(c2 + 3), Expr::Var(Symbol::Arg4)),
                                            (var_at(c2 + 3), Expr::Var(Symbol::Arg3)),
                                            var_at(c1 + 7),
                                            var_at(c2 + 7),
                                            delta,
                                        );
                                        lemma_alpha_if1(
                                            z1,
                                            z2,
                                            var_at(c1 + 7),
                                            var_at(c1 + 3),
                                            var_at(c2 + 7),
                                            var_at(c2 + 3),
                                            delta,
                                        );
                                    },
                                    _ => {},
                                }
                            }
                            lemma_alpha_closure(
                                wa1@[2].1,
                                wa2@[2].1,
                                step_name,
                                seq![(var_at(c1 + 3), Symbol::Arg3), (var_at(c1 + 3), Symbol::Arg4)],
                                seq![(var_at(c2 + 3), Symbol::Arg3), (var_at(c2 + 3), Symbol::Arg4)],
                                var_at(c1 + 3),
                                var_at(c2 + 3),
                                c1 + 8,
                                c2 + 8,
                                delta,
                                sr1,
                                sr2,
                            );
                            assert forall|j: int| 0 <= j < wa1.len()
                                implies vars_match((#[trigger] wa1[j]).0, wa2[j].0, delta)
                                    && alpha_eq_expr(wa1[j].1, wa2[j].1, delta)
                            by {
                                if j == 0 {
                                    assert(wa1@[0] == (var_at(c1 + 2), Expr::Var(Symbol::Arg1)));
                                    assert(wa2@[0] == (var_at(c2 + 2), Expr::Var(Symbol::Arg1)));
                                }
                            }
                            assert(alpha_eq_expr(y1, y2, delta));
                        },
                        _ => {},
                    }
                }
                lemma_alpha_tag(br1@[0].1, br2@[0].1, TagName::OkTag, 1, c1 + 11, c2 + 11, delta, rt1, rt2);
                lemma_alpha_wrapped_err(*f1, *f2, TagName::ListWasEmpty, c1 + 14, c2 + 14, delta);
                lemma_alpha_if1(x1, x2, var_at(c1 + 1), var_at(c1 + 6), var_at(c2 + 1), var_at(c2 + 6), delta);
            },
            _ => {},
        }
    }
    lemma_alpha_defn(
        d1,
        d2,
        sym,
        seq![(var_at(c1 + 2), Symbol::Arg1)],
        seq![(var_at(c2 + 2), Symbol::Arg1)],
        var_at(c1 + 4),
        var_at(c2 + 4),
        c1 + 19,
        c2 + 19,
        delta,
        r1,
        r2,
    );
}

} // verus!

verus! {

/// Alpha-determinism of the join-map shape.
pub proof fn lemma_alpha_list_join_map(sym: Symbol, c1: int, c2: int, d1: Def, d2: Def)
    requires
        FIRST_USER_VAR as int <= c1,
        FIRST_USER_VAR as int <= c2,
        c1 + crate::builders::FRESH_BUDGET as int <= u32::MAX as int,
        c2 + crate::builders::FRESH_BUDGET as int <= u32::MAX as int,
        crate::lists::list_join_map_shape(d1, sym, c1),
        crate::lists::list_join_map_shape(d2, sym, c2),
    ensures
        alpha_eq_def(d1, d2, c2 - c1),
{
    let delta = c2 - c1;
    let r1 = |e: Expr| e matches Expr::RunLowLevel { op, args, ret_var }
        && op == LowLevel::ListWalk
        && ret_var == var_at(c1 + 3)
        && args@.len() == 3
        && args@[0] == (var_at(c1 + 1), Expr::Var(Symbol::Arg1))
        && args@[1].0 == var_at(c1 + 3)
        && (args@[1].1 matches Expr::List { elem_var, elems }
            && elem_var == var_at(c1 + 2)
            && elems@.len() == 0)
        && args@[2].0 == var_at(c1 + 5)
        && crate::lists::join_map_step_shape(args@[2].1, c1);
    let r2 = |e: Expr| e matches Expr::RunLowLevel { op, args, ret_var }
        && op == LowLevel::ListWalk
        && ret_var == var_at(c2 + 3)
        && args@.len() == 3
        && args@[0] == (var_at(c2 + 1), Expr::Var(Symbol::Arg1))
        && args@[1].0 == var_at(c2 + 3)
        && (args@[1].1 matches Expr::List { elem_var, elems }
            && elem_var == var_at(c2 + 2)
            && elems@.len() == 0)
        && args@[2].0 == var_at(c2 + 5)
        && crate::lists::join_map_step_shape(args@[2].1, c2);
    assert forall|x1: Expr, x2: Expr| #[trigger] r1(x1) && #[trigger] r2(x2)
        implies alpha_eq_expr(x1, x2, delta)
    by {
        match (x1, x2) {
            (
                Expr::RunLowLevel { args: a1, .. },
                Expr::RunLowLevel { args: a2, .. },
            ) => {
                reveal_with_fuel(alpha_eq_expr, 2);
                reveal_with_fuel(alpha_eq_pattern, 2);
                match (a1@[2].1, a2@[2].1) {
                    (Expr::Closure(cd1), Expr::Closure(cd2)) => {
                        match (*cd1.body, *cd2.body) {
                            (
                                Expr::RunLowLevel { args: ba1, .. },
                                Expr::RunLowLevel { args: ba2, .. },
                            ) => {
                                match (ba1@[1].1, ba2@[1].1) {
                                    (
                                        Expr::Call { args: ca1, .. },
                                        Expr::Call { args: ca2, .. },
                                    ) => {
                                        assert forall|j: int| 0 <= j < ca1.len()
                                            implies vars_match((#[trigger] ca1[j]).0, ca2[j].0, delta)
                                                && alpha_eq_expr(ca1[j].1, ca2[j].1, delta)
                                        by {
                                            assert(ca1@[0] == (var_at(c1), Expr::Var(Symbol::Arg4)));
                                            assert(ca2@[0] == (var_at(c2), Expr::Var(Symbol::Arg4)));
                                        }
                                        assert(alpha_eq_expr(ba1@[1].1, ba2@[1].1, delta));
                                    },
                                    _ => {},
                                }
                                assert forall|j: int| 0 <= j < ba1.len()
                                    implies vars_match((#[trigger] ba1[j]).0, ba2[j].0, delta)
                                        && alpha_eq_expr(ba1[j].1, ba2[j].1, delta)
                                by {
                                    if j == 0 {
                                        assert(ba1@[0] == (var_at(c1 + 3), Expr::Var(Symbol::Arg3)));
                                        assert(ba2@[0] == (var_at(c2 + 3), Expr::Var(Symbol::Arg3)));
                                    }
                                }
                                assert(alpha_eq_expr(*cd1.body, *cd2.body, delta));
                            },
                            _ => {},
                        }
                        assert forall|j: int| 0 <= j < cd1.captured_symbols.len()
                            implies (#[trigger] cd1.captured_symbols[j]).0 == cd2.captured_symbols[j].0
                                && vars_match(cd1.captured_symbols[j].1, cd2.captured_symbols[j].1, delta)
                        by {
                            assert(cd1.captured_symbols@[0] == (Symbol::Arg2, var_at(c1 + 4)));
                            assert(cd2.captured_symbols@[0] == (Symbol::Arg2, var_at(c2 + 4)));
                        }
                        assert forall|j: int| 0 <= j < cd1.arguments.len()
                            implies vars_match((#[trigger] cd1.arguments[j]).0, cd2.arguments[j].0, delta)
                                && alpha_eq_pattern(cd1.arguments[j].1, cd2.arguments[j].1, delta)
                        by {
                            if j == 0 {
                                assert(cd1.arguments@[0] == (var_at(c1 + 3), Pattern::Identifier(Symbol::Arg3)));
                                assert(cd2.arguments@[0] == (var_at(c2 + 3), Pattern::Identifier(Symbol::Arg3)));
                            } else {
                                assert(cd1.arguments@[1] == (var_at(c1), Pattern::Identifier(Symbol::Arg4)));
                                assert(cd2.arguments@[1] == (var_at(c2), Pattern::Identifier(Symbol::Arg4)));
                            }
                        }
                        assert(alpha_eq_expr(a1@[2].1, a2@[2].1, delta));
                    },
                    _ => {},
                }
                assert forall|i: int| 0 <= i < a1.len()
                    implies vars_match((#[trigger] a1[i]).0, a2[i].0, delta)
                        && alpha_eq_expr(a1[i].1, a2[i].1, delta)
                by {
                    if i == 0 {
                        assert(a1@[0] == (var_at(c1 + 1), Expr::Var(Symbol::Arg1)));
                        assert(a2@[0] == (var_at(c2 + 1), Expr::Var(Symbol::Arg1)));
                    }
                }
                assert(alpha_eq_expr(x1, x2, delta));
            },
            _ => {},
        }
    }
    lemma_alpha_defn(
        d1,
        d2,
        sym,
        seq![(var_at(c1 + 1), Symbol::Arg1), (var_at(c1 + 4), Symbol::Arg2)],
        seq![(var_at(c2 + 1), Symbol::Arg1), (var_at(c2 + 4), Symbol::Arg2)],
        var_at(c1 + 3),
        var_at(c2 + 3),
        c1 + 9,
        c2 + 9,
        delta,
        r1,
        r2,
    );
}

/// Alpha-determinism of the search shape.
pub proof fn lemma_alpha_list_find(sym: Symbol, c1: int, c2: int, d1: Def, d2: Def)
    requires
        FIRST_USER_VAR as int <= c1,
        FIRST_USER_VAR as int <= c2,
        c1 + crate::builders::FRESH_BUDGET as int <= u32::MAX as int,
        c2 + crate::builders::FRESH_BUDGET as int <= u32::MAX as int,
        crate::lists::list_find_shape(d1, sym, c1),
        crate::lists::list_find_shape(d2, sym, c2),
    ensures
        alpha_eq_def(d1, d2, c2 - c1),
{
    let delta = c2 - c1;
    let r1 = |e: Expr| crate::lists::list_find_body_shape(c1, e);
    let r2 = |e: Expr| crate::lists::list_find_body_shape(c2, e);
    assert forall|x1: Expr, x2: Expr| #[trigger] r1(x1) && #[trigger] r2(x2)
        implies alpha_eq_expr(x1, x2, delta)
    by {
        match (x1, x2) {
            (Expr::LetNonRec(bd1, bk1, bv1), Expr::LetNonRec(bd2, bk2, bv2)) => {
                reveal_with_fuel(alpha_eq_expr, 2);
                reveal_with_fuel(alpha_eq_pattern, 2);
                reveal_with_fuel(alpha_eq_def, 2);
                lemma_alpha_ll2(
                    (*bd1).body,
                    (*bd2).body,
                    LowLevel::ListFindUnsafe,
                    (var_at(c1), Expr::Var(Symbol::Arg1)),
                    (var_at(c1 + 1), Expr::Var(Symbol::Arg2)),
                    (var_at(c2), Expr::Var(Symbol::Arg1)),
                    (var_at(c2 + 1), Expr::Var(Symbol::Arg2)),
                    var_at(c1 + 6),
                    var_at(c2 + 6),
                    delta,
                );
                assert(alpha_eq_def(*bd1, *bd2, delta));
                match (*bk1, *bk2) {
                    (
                        Expr::If { branches: br1, final_else: f1, .. },
                        Expr::If { branches: br2, final_else: f2, .. },
                    ) => {
                        assert(alpha_eq_expr(br1@[0].0, br2@[0].0, delta));
                        let rt1 = |i: int, a: Expr| (a matches Expr::Access { record_var, ext_var, field, field_var, record }
                            && record_var == var_at(c1 + 6)
                            && ext_var == var_at(c1 + 7)
                            && field == crate::types::FieldName::Value
                            && field_var == var_at(c1 + 4)
                            && *record == Expr::Var(Symbol::ListFindResult));
                        let rt2 = |i: int, a: Expr| (a matches Expr::Access { record_var, ext_var, field, field_var, record }
                            && record_var == var_at(c2 + 6)
                            && ext_var == var_at(c2 + 7)
                            && field == crate::types::FieldName::Value
                            && field_var == var_at(c2 + 4)
                            && *record == Expr::Var(Symbol::ListFindResult));
                        assert forall|i: int, y1: Expr, y2: Expr|
                            0 <= i < 1 && #[trigger] rt1(i, y1) && #[trigger] rt2(i, y2)
                                implies alpha_eq_expr(y1, y2, delta)
                        by {
                            lemma_alpha_access(
                                y1,
                                y2,
                                var_at(c1 + 6),
                                var_at(c1 + 7),
                                crate::types::FieldName::Value,
                                var_at(c1 + 4),
                                Symbol::ListFindResult,
                                var_at(c2 + 6),
                                var_at(c2 + 7),
                                var_at(c2 + 4),
                                delta,
                            );
                        }
                        lemma_alpha_tag(br1@[0].1, br2@[0].1, TagName::OkTag, 1, c1 + 9, c2 + 9, delta, rt1, rt2);
                        lemma_alpha_wrapped_err(*f1, *f2, TagName::NotFound, c1 + 12, c2 + 12, delta);
                        lemma_alpha_if1(*bk1, *bk2, var_at(c1 + 2), var_at(c1 + 5), var_at(c2 + 2), var_at(c2 + 5), delta);
                    },
                    _ => {},
                }
            },
            _ => {},
        }
    }
    lemma_alpha_defn(
        d1,
        d2,
        sym,
        seq![(var_at(c1), Symbol::Arg1), (var_at(c1 + 1), Symbol::Arg2)],
        seq![(var_at(c2), Symbol::Arg1), (var_at(c2 + 1), Symbol::Arg2)],
        var_at(c1 + 5),
        var_at(c2 + 5),
        c1 + 17,
        c2 + 17,
        delta,
        r1,
        r2,
    );
}

} // verus!

verus! {

/// Alpha-determinism of the dictionary-size shape.
pub proof fn lemma_alpha_dict_len(sym: Symbol, c1: int, c2: int, d1: Def, d2: Def)
    requires
        FIRST_USER_VAR as int <= c1,
        FIRST_USER_VAR as int <= c2,
        c1 + crate::builders::FRESH_BUDGET as int <= u32::MAX as int,
        c2 + crate::builders::FRESH_BUDGET as int <= u32::MAX as int,
        crate::dicts::dict_len_shape(d1, sym, c1),
        crate::dicts::dict_len_shape(d2, sym, c2),
    ensures
        alpha_eq_def(d1, d2, c2 - c1),
{
    let delta = c2 - c1;
    let r1 = |e: Expr| crate::dicts::ll1_dict_size(c1, e);
    let r2 = |e: Expr| crate::dicts::ll1_dict_size(c2, e);
    assert forall|x1: Expr, x2: Expr| #[trigger] r1(x1) && #[trigger] r2(x2)
        implies alpha_eq_expr(x1, x2, delta)
    by {
        assert(crate::builders::ll1(x1, LowLevel::DictSize, var_at(c1), Expr::Var(Symbol::Arg1), crate::lists::nat_var()));
        assert(crate::builders::ll1(x2, LowLevel::DictSize, var_at(c2), Expr::Var(Symbol::Arg1), crate::lists::nat_var()));
        lemma_alpha_ll1(
            x1,
            x2,
            LowLevel::DictSize,
            (var_at(c1), Expr::Var(Symbol::Arg1)),
            (var_at(c2), Expr::Var(Symbol::Arg1)),
            crate::lists::nat_var(),
            crate::lists::nat_var(),
            delta,
        );
    }
    lemma_alpha_defn(
        d1,
        d2,
        sym,
        seq![(var_at(c1), Symbol::Arg1)],
        seq![(var_at(c2), Symbol::Arg1)],
        crate::lists::nat_var(),
        crate::lists::nat_var(),
        c1 + 1,
        c2 + 1,
        delta,
        r1,
        r2,
    );
}

/// Alpha-determinism of the empty-collection constant shape.
pub proof fn lemma_alpha_empty_collection(sym: Symbol, c1: int, c2: int, d1: Def, d2: Def)
    requires
        FIRST_USER_VAR as int <= c1,
        FIRST_USER_VAR as int <= c2,
        c1 + crate::builders::FRESH_BUDGET as int <= u32::MAX as int,
        c2 + crate::builders::FRESH_BUDGET as int <= u32::MAX as int,
        crate::dicts::empty_collection_shape(d1, sym, c1),
        crate::dicts::empty_collection_shape(d2, sym, c2),
    ensures
        alpha_eq_def(d1, d2, c2 - c1),
{
    let delta = c2 - c1;
    reveal_with_fuel(alpha_eq_expr, 2);
    reveal_with_fuel(alpha_eq_pattern, 2);
    match (d1.body, d2.body) {
        (
            Expr::RunLowLevel { args: a1, .. },
            Expr::RunLowLevel { args: a2, .. },
        ) => {
            assert(a1.len() == 0 && a2.len() == 0);
            assert(alpha_eq_expr(d1.body, d2.body, delta));
        },
        _ => {},
    }
    assert(alpha_eq_pattern(d1.pattern, d2.pattern, delta));
}

/// Alpha-determinism of the one-entry dictionary shape.
pub proof fn lemma_alpha_dict_single(sym: Symbol, c1: int, c2: int, d1: Def, d2: Def)
    requires
        FIRST_USER_VAR as int <= c1,
        FIRST_USER_VAR as int <= c2,
        c1 + crate::builders::FRESH_BUDGET as int <= u32::MAX as int,
        c2 + crate::builders::FRESH_BUDGET as int <= u32::MAX as int,
        crate::dicts::dict_single_shape(d1, sym, c1),
        crate::dicts::dict_single_shape(d2, sym, c2),
    ensures
        alpha_eq_def(d1, d2, c2 - c1),
{
    let delta = c2 - c1;
    let r1 = |e: Expr| e matches Expr::RunLowLevel { op, args, ret_var }
        && op == LowLevel::DictInsert
        && ret_var == var_at(c1 + 2)
        && args@.len() == 3
        && args@[0].0 == var_at(c1 + 2)
        && (args@[0].1 matches Expr::RunLowLevel { op: eop, args: eargs, ret_var: eret }
            && eop == LowLevel::DictEmpty
            && eret == var_at(c1 + 2)
            && eargs@.len() == 0)
        && args@[1] == (var_at(c1), Expr::Var(Symbol::Arg1))
        && args@[2] == (var_at(c1 + 1), Expr::Var(Symbol::Arg2));
    let r2 = |e: Expr| e matches Expr::RunLowLevel { op, args, ret_var }
        && op == LowLevel::DictInsert
        && ret_var == var_at(c2 + 2)
        && args@.len() == 3
        && args@[0].0 == var_at(c2 + 2)
        && (args@[0].1 matches Expr::RunLowLevel { op: eop, args: eargs, ret_var: eret }
            && eop == LowLevel::DictEmpty
            && eret == var_at(c2 + 2)
            && eargs@.len() == 0)
        && args@[1] == (var_at(c2), Expr::Var(Symbol::Arg1))
        && args@[2] == (var_at(c2 + 1), Expr::Var(Symbol::Arg2));
    assert forall|x1: Expr, x2: Expr| #[trigger] r1(x1) && #[trigger] r2(x2)
        implies alpha_eq_expr(x1, x2, delta)
    by {
        match (x1, x2) {
            (
                Expr::RunLowLevel { args: a1, .. },
                Expr::RunLowLevel { args: a2, .. },
            ) => {
                reveal_with_fuel(alpha_eq_expr, 3);
                assert forall|i: int| 0 <= i < a1.len()
                    implies vars_match((#[trigger] a1[i]).0, a2[i].0, delta)
                        && alpha_eq_expr(a1[i].1, a2[i].1, delta)
                by {
                    if i == 1 {
                        assert(a1@[1] == (var_at(c1), Expr::Var(Symbol::Arg1)));
                        assert(a2@[1] == (var_at(c2), Expr::Var(Symbol::Arg1)));
                    } else if i == 2 {
                        assert(a1@[2] == (var_at(c1 + 1), Expr::Var(Symbol::Arg2)));
                        assert(a2@[2] == (var_at(c2 + 1), Expr::Var(Symbol::Arg2)));
                    }
                }
                assert(alpha_eq_expr(x1, x2, delta));
            },
            _ => {},
        }
    }
    lemma_alpha_defn(
        d1,
        d2,
        sym,
        seq![(var_at(c1), Symbol::Arg1), (var_at(c1 + 1), Symbol::Arg2)],
        seq![(var_at(c2), Symbol::Arg1), (var_at(c2 + 1), Symbol::Arg2)],
        var_at(c1 + 2),
        var_at(c2 + 2),
        c1 + 3,
        c2 + 3,
        delta,
        r1,
        r2,
    );
}

/// Alpha-determinism of the dictionary-lookup shape.
pub proof fn lemma_alpha_dict_get(sym: Symbol, c1: int, c2: int, d1: Def, d2: Def)
    requires
        FIRST_USER_VAR as int <= c1,
        FIRST_USER_VAR as int <= c2,
        c1 + crate::builders::FRESH_BUDGET as int <= u32::MAX as int,
        c2 + crate::builders::FRESH_BUDGET as int <= u32::MAX as int,
        crate::dicts::dict_get_shape(d1, sym, c1),
        crate::dicts::dict_get_shape(d2, sym, c2),
    ensures
        alpha_eq_def(d1, d2, c2 - c1),
{
    let delta = c2 - c1;
    let r1 = |e: Expr| crate::dicts::dict_get_body_shape(c1, e);
    let r2 = |e: Expr| crate::dicts::dict_get_body_shape(c2, e);
    assert forall|x1: Expr, x2: Expr| #[trigger] r1(x1) && #[trigger] r2(x2)
        implies alpha_eq_expr(x1, x2, delta)
    by {
        match (x1, x2) {
            (Expr::LetNonRec(bd1, bk1, bv1), Expr::LetNonRec(bd2, bk2, bv2)) => {
                reveal_with_fuel(alpha_eq_expr, 2);
                reveal_with_fuel(alpha_eq_pattern, 2);
                reveal_with_fuel(alpha_eq_def, 2);
                lemma_alpha_ll2(
                    (*bd1).body,
                    (*bd2).body,
                    LowLevel::DictGetUnsafe,
                    (var_at(c1 + 3), Expr::Var(Symbol::Arg1)),
                    (var_at(c1 + 2), Expr::Var(Symbol::Arg2)),
                    (var_at(c2 + 3), Expr::Var(Symbol::Arg1)),
                    (var_at(c2 + 2), Expr::Var(Symbol::Arg2)),
                    var_at(c1 + 6),
                    var_at(c2 + 6),
                    delta,
                );
                assert(alpha_eq_def(*bd1, *bd2, delta));
                match (*bk1, *bk2) {
                    (
                        Expr::If { branches: br1, final_else: f1, .. },
                        Expr::If { branches: br2, final_else: f2, .. },
                    ) => {
                        assert(alpha_eq_expr(br1@[0].0, br2@[0].0, delta));
                        let rt1 = |i: int, a: Expr| (a matches Expr::Access { record_var, ext_var, field, field_var, record }
                            && record_var == var_at(c1 + 6)
                            && ext_var == var_at(c1 + 7)
                            && field == crate::types::FieldName::Value
                            && field_var == var_at(c1 + 4)
                            && *record == Expr::Var(Symbol::DictGetResult));
                        let rt2 = |i: int, a: Expr| (a matches Expr::Access { record_var, ext_var, field, field_var, record }
                            && record_var == var_at(c2 + 6)
                            && ext_var == var_at(c2 + 7)
                            && field == crate::types::FieldName::Value
                            && field_var == var_at(c2 + 4)
                            && *record == Expr::Var(Symbol::DictGetResult));
                        assert forall|i: int, y1: Expr, y2: Expr|
                            0 <= i < 1 && #[trigger] rt1(i, y1) && #[trigger] rt2(i, y2)
                                implies alpha_eq_expr(y1, y2, delta)
                        by {
                            lemma_alpha_access(
                                y1,
                                y2,
                                var_at(c1 + 6),
                                var_at(c1 + 7),
                                crate::types::FieldName::Value,
                                var_at(c1 + 4),
                                Symbol::DictGetResult,
                                var_at(c2 + 6),
                                var_at(c2 + 7),
                                var_at(c2 + 4),
                                delta,
                            );
                        }
                        lemma_alpha_tag(br1@[0].1, br2@[0].1, TagName::OkTag, 1, c1 + 9, c2 + 9, delta, rt1, rt2);
                        lemma_alpha_wrapped_err(*f1, *f2, TagName::KeyNotFound, c1 + 12, c2 + 12, delta);
                        lemma_alpha_if1(*bk1, *bk2, var_at(c1), var_at(c1 + 5), var_at(c2), var_at(c2 + 5), delta);
                    },
                    _ => {},
                }
            },
            _ => {},
        }
    }
    lemma_alpha_defn(
        d1,
        d2,
        sym,
        seq![(var_at(c1 + 3), Symbol::Arg1), (var_at(c1 + 2), Symbol::Arg2)],
        seq![(var_at(c2 + 3), Symbol::Arg1), (var_at(c2 + 2), Symbol::Arg2)],
        var_at(c1 + 5),
        var_at(c2 + 5),
        c1 + 17,
        c2 + 17,
        delta,
        r1,
        r2,
    );
}

/// Alpha-determinism of the one-element set shape.
pub proof fn lemma_alpha_set_single(sym: Symbol, c1: int, c2: int, d1: Def, d2: Def)
    requires
        FIRST_USER_VAR as int <= c1,
        FIRST_USER_VAR as int <= c2,
        c1 + crate::builders::FRESH_BUDGET as int <= u32::MAX as int,
        c2 + crate::builders::FRESH_BUDGET as int <= u32::MAX as int,
        crate::sets::set_single_shape(d1, sym, c1),
        crate::sets::set_single_shape(d2, sym, c2),
    ensures
        alpha_eq_def(d1, d2, c2 - c1),
{
    let delta = c2 - c1;
    let r1 = |e: Expr| e matches Expr::RunLowLevel { op, args, ret_var }
        && op == LowLevel::DictInsert
        && ret_var == var_at(c1 + 1)
        && args@.len() == 3
        && args@[0].0 == var_at(c1 + 1)
        && (args@[0].1 matches Expr::RunLowLevel { op: eop, args: eargs, ret_var: eret }
            && eop == LowLevel::DictEmpty
            && eret == var_at(c1 + 1)
            && eargs@.len() == 0)
        && args@[1] == (var_at(c1), Expr::Var(Symbol::Arg1))
        && args@[2] == (crate::sets::empty_record_var(), Expr::EmptyRecord);
    let r2 = |e: Expr| e matches Expr::RunLowLevel { op, args, ret_var }
        && op == LowLevel::DictInsert
        && ret_var == var_at(c2 + 1)
        && args@.len() == 3
        && args@[0].0 == var_at(c2 + 1)
        && (args@[0].1 matches Expr::RunLowLevel { op: eop, args: eargs, ret_var: eret }
            && eop == LowLevel::DictEmpty
            && eret == var_at(c2 + 1)
            && eargs@.len() == 0)
        && args@[1] == (var_at(c2), Expr::Var(Symbol::Arg1))
        && args@[2] == (crate::sets::empty_record_var(), Expr::EmptyRecord);
    assert forall|x1: Expr, x2: Expr| #[trigger] r1(x1) && #[trigger] r2(x2)
        implies alpha_eq_expr(x1, x2, delta)
    by {
        match (x1, x2) {
            (
                Expr::RunLowLevel { args: a1, .. },
                Expr::RunLowLevel { args: a2, .. },
            ) => {
                reveal_with_fuel(alpha_eq_expr, 3);
                assert forall|i: int| 0 <= i < a1.len()
                    implies vars_match((#[trigger] a1[i]).0, a2[i].0, delta)
                        && alpha_eq_expr(a1[i].1, a2[i].1, delta)
                by {
                    if i == 1 {
                        assert(a1@[1] == (var_at(c1), Expr::Var(Symbol::Arg1)));
                        assert(a2@[1] == (var_at(c2), Expr::Var(Symbol::Arg1)));
                    } else if i == 2 {
                        assert(a1@[2] == (crate::sets::empty_record_var(), Expr::EmptyRecord));
                        assert(a2@[2] == (crate::sets::empty_record_var(), Expr::EmptyRecord));
                    }
                }
                assert(alpha_eq_expr(x1, x2, delta));
            },
            _ => {},
        }
    }
    lemma_alpha_defn(
        d1,
        d2,
        sym,
        seq![(var_at(c1), Symbol::Arg1)],
        seq![(var_at(c2), Symbol::Arg1)],
        var_at(c1 + 1),
        var_at(c2 + 1),
        c1 + 2,
        c2 + 2,
        delta,
        r1,
        r2,
    );
}

/// Alpha-determinism of the set-insertion shape.
pub proof fn lemma_alpha_set_insert(sym: Symbol, c1: int, c2: int, d1: Def, d2: Def)
    requires
        FIRST_USER_VAR as int <= c1,
        FIRST_USER_VAR as int <= c2,
        c1 + crate::builders::FRESH_BUDGET as int <= u32::MAX as int,
        c2 + crate::builders::FRESH_BUDGET as int <= u32::MAX as int,
        crate::sets::set_insert_shape(d1, sym, c1),
        crate::sets::set_insert_shape(d2, sym, c2),
    ensures
        alpha_eq_def(d1, d2, c2 - c1),
{
    let delta = c2 - c1;
    let r1 = |e: Expr| e matches Expr::RunLowLevel { op, args, ret_var }
        && op == LowLevel::DictInsert
        && ret_var == var_at(c1)
        && args@.len() == 3
        && args@[0] == (var_at(c1), Expr::Var(Symbol::Arg1))
        && args@[1] == (var_at(c1 + 1), Expr::Var(Symbol::Arg2))
        && args@[2] == (crate::sets::empty_record_var(), Expr::EmptyRecord);
    let r2 = |e: Expr| e matches Expr::RunLowLevel { op, args, ret_var }
        && op == LowLevel::DictInsert
        && ret_var == var_at(c2)
        && args@.len() == 3
        && args@[0] == (var_at(c2), Expr::Var(Symbol::Arg1))
        && args@[1] == (var_at(c2 + 1), Expr::Var(Symbol::Arg2))
        && args@[2] == (crate::sets::empty_record_var(), Expr::EmptyRecord);
    assert forall|x1: Expr, x2: Expr| #[trigger] r1(x1) && #[trigger] r2(x2)
        implies alpha_eq_expr(x1, x2, delta)
    by {
        match (x1, x2) {
            (
                Expr::RunLowLevel { args: a1, .. },
                Expr::RunLowLevel { args: a2, .. },
            ) => {
                reveal_with_fuel(alpha_eq_expr, 2);
                assert forall|i: int| 0 <= i < a1.len()
                    implies vars_match((#[trigger] a1[i]).0, a2[i].0, delta)
                        && alpha_eq_expr(a1[i].1, a2[i].1, delta)
                by {
                    if i == 0 {
                        assert(a1@[0] == (var_at(c1), Expr::Var(Symbol::Arg1)));
                        assert(a2@[0] == (var_at(c2), Expr::Var(Symbol::Arg1)));
                    } else if i == 1 {
                        assert(a1@[1] == (var_at(c1 + 1), Expr::Var(Symbol::Arg2)));
                        assert(a2@[1] == (var_at(c2 + 1), Expr::Var(Symbol::Arg2)));
                    } else {
                        assert(a1@[2] == (crate::sets::empty_record_var(), Expr::EmptyRecord));
                        assert(a2@[2] == (crate::sets::empty_record_var(), Expr::EmptyRecord));
                    }
                }
                assert(alpha_eq_expr(x1, x2, delta));
            },
            _ => {},
        }
    }
    lemma_alpha_defn(
        d1,
        d2,
        sym,
        seq![(var_at(c1), Symbol::Arg1), (var_at(c1 + 1), Symbol::Arg2)],
        seq![(var_at(c2), Symbol::Arg1), (var_at(c2 + 1), Symbol::Arg2)],
        var_at(c1),
        var_at(c2),
        c1 + 2,
        c2 + 2,
        delta,
        r1,
        r2,
    );
}

/// Alpha-determinism of the set-walk shape.
pub proof fn lemma_alpha_set_walk(sym: Symbol, c1: int, c2: int, d1: Def, d2: Def)
    requires
        FIRST_USER_VAR as int <= c1,
        FIRST_USER_VAR as int <= c2,
        c1 + crate::builders::FRESH_BUDGET as int <= u32::MAX as int,
        c2 + crate::builders::FRESH_BUDGET as int <= u32::MAX as int,
        crate::sets::set_walk_shape(d1, sym, c1),
        crate::sets::set_walk_shape(d2, sym, c2),
    ensures
        alpha_eq_def(d1, d2, c2 - c1),
{
    let delta = c2 - c1;
    let r1 = |e: Expr| e matches Expr::RunLowLevel { op, args, ret_var }
        && op == LowLevel::DictWalk
        && ret_var == var_at(c1 + 3)
        && args@.len() == 3
        && args@[0] == (var_at(c1), Expr::Var(Symbol::Arg1))
        && args@[1] == (var_at(c1 + 3), Expr::Var(Symbol::Arg2))
        && args@[2].0 == var_at(c1 + 4)
        && crate::sets::set_walk_wrapper_shape(args@[2].1, c1);
    let r2 = |e: Expr| e matches Expr::RunLowLevel { op, args, ret_var }
        && op == LowLevel::DictWalk
        && ret_var == var_at(c2 + 3)
        && args@.len() == 3
        && args@[0] == (var_at(c2), Expr::Var(Symbol::Arg1))
        && args@[1] == (var_at(c2 + 3), Expr::Var(Symbol::Arg2))
        && args@[2].0 == var_at(c2 + 4)
        && crate::sets::set_walk_wrapper_shape(args@[2].1, c2);
    assert forall|x1: Expr, x2: Expr| #[trigger] r1(x1) && #[trigger] r2(x2)
        implies alpha_eq_expr(x1, x2, delta)
    by {
        match (x1, x2) {
            (
                Expr::RunLowLevel { args: a1, .. },
                Expr::RunLowLevel { args: a2, .. },
            ) => {
                reveal_with_fuel(alpha_eq_expr, 2);
                reveal_with_fuel(alpha_eq_pattern, 2);
                match (a1@[2].1, a2@[2].1) {
                    (Expr::Closure(cd1), Expr::Closure(cd2)) => {
                        match (*cd1.body, *cd2.body) {
                            (
                                Expr::Call { args: ca1, .. },
                                Expr::Call { args: ca2, .. },
                            ) => {
                                assert forall|j: int| 0 <= j < ca1.len()
                                    implies vars_match((#[trigger] ca1[j]).0, ca2[j].0, delta)
                                        && alpha_eq_expr(ca1[j].1, ca2[j].1, delta)
                                by {
                                    if j == 0 {
                                        assert(ca1@[0] == (var_at(c1 + 3), Expr::Var(Symbol::Arg5)));
                                        assert(ca2@[0] == (var_at(c2 + 3), Expr::Var(Symbol::Arg5)));
                                    } else {
                                        assert(ca1@[1] == (var_at(c1 + 2), Expr::Var(Symbol::Arg6)));
                                        assert(ca2@[1] == (var_at(c2 + 2), Expr::Var(Symbol::Arg6)));
                                    }
                                }
                                assert(alpha_eq_expr(*cd1.body, *cd2.body, delta));
                            },
                            _ => {},
                        }
                        assert forall|j: int| 0 <= j < cd1.captured_symbols.len()
                            implies (#[trigger] cd1.captured_symbols[j]).0 == cd2.captured_symbols[j].0
                                && vars_match(cd1.captured_symbols[j].1, cd2.captured_symbols[j].1, delta)
                        by {
                            assert(cd1.captured_symbols@[0] == (Symbol::Arg3, var_at(c1 + 1)));
                            assert(cd2.captured_symbols@[0] == (Symbol::Arg3, var_at(c2 + 1)));
                        }
                        assert forall|j: int| 0 <= j < cd1.arguments.len()
                            implies vars_match((#[trigger] cd1.arguments[j]).0, cd2.arguments[j].0, delta)
                                && alpha_eq_pattern(cd1.arguments[j].1, cd2.arguments[j].1, delta)
                        by {
                            if j == 0 {
                                assert(cd1.arguments@[0] == (var_at(c1 + 3), Pattern::Identifier(Symbol::Arg5)));
                                assert(cd2.arguments@[0] == (var_at(c2 + 3), Pattern::Identifier(Symbol::Arg5)));
                            } else if j == 1 {
                                assert(cd1.arguments@[1] == (var_at(c1 + 2), Pattern::Identifier(Symbol::Arg6)));
                                assert(cd2.arguments@[1] == (var_at(c2 + 2), Pattern::Identifier(Symbol::Arg6)));
                            } else {
                                assert(cd1.arguments@[2] == (crate::sets::empty_record_var(), Pattern::Underscore));
                                assert(cd2.arguments@[2] == (crate::sets::empty_record_var(), Pattern::Underscore));
                            }
                        }
                        assert(alpha_eq_expr(a1@[2].1, a2@[2].1, delta));
                    },
                    _ => {},
                }
                assert forall|i: int| 0 <= i < a1.len()
                    implies vars_match((#[trigger] a1[i]).0, a2[i].0, delta)
                        && alpha_eq_expr(a1[i].1, a2[i].1, delta)
                by {
                    if i == 0 {
                        assert(a1@[0] == (var_at(c1), Expr::Var(Symbol::Arg1)));
                        assert(a2@[0] == (var_at(c2), Expr::Var(Symbol::Arg1)));
                    } else if i == 1 {
                        assert(a1@[1] == (var_at(c1 + 3), Expr::Var(Symbol::Arg2)));
                        assert(a2@[1] == (var_at(c2 + 3), Expr::Var(Symbol::Arg2)));
                    }
                }
                assert(alpha_eq_expr(x1, x2, delta));
            },
            _ => {},
        }
    }
    lemma_alpha_defn(
        d1,
        d2,
        sym,
        seq![(var_at(c1), Symbol::Arg1), (var_at(c1 + 3), Symbol::Arg2), (var_at(c1 + 1), Symbol::Arg3)],
        seq![(var_at(c2), Symbol::Arg1), (var_at(c2 + 3), Symbol::Arg2), (var_at(c2 + 1), Symbol::Arg3)],
        var_at(c1 + 3),
        var_at(c2 + 3),
        c1 + 8,
        c2 + 8,
        delta,
        r1,
        r2,
    );
}

} // verus!

verus! {

/// Alpha-determinism of the map-style result-combinator shape.
pub proof fn lemma_alpha_result_map_like(sym: Symbol, first: TagName, second: TagName, c1: int, c2: int, d1: Def, d2: Def)
    requires
        FIRST_USER_VAR as int <= c1,
        FIRST_USER_VAR as int <= c2,
        c1 + crate::builders::FRESH_BUDGET as int <= u32::MAX as int,
        c2 + crate::builders::FRESH_BUDGET as int <= u32::MAX as int,
        crate::results::result_map_like_shape(d1, sym, first, second, c1),
        crate::results::result_map_like_shape(d2, sym, first, second, c2),
    ensures
        alpha_eq_def(d1, d2, c2 - c1),
{
    let delta = c2 - c1;
    let r1 = |e: Expr| crate::results::result_map_like_body_shape(first, second, c1, e);
    let r2 = |e: Expr| crate::results::result_map_like_body_shape(first, second, c2, e);
    assert forall|x1: Expr, x2: Expr| #[trigger] r1(x1) && #[trigger] r2(x2)
        implies alpha_eq_expr(x1, x2, delta)
    by {
        match (x1, x2) {
            (
                Expr::When { branches: br1, cond: k1, .. },
                Expr::When { branches: br2, cond: k2, .. },
            ) => {
                reveal_with_fuel(alpha_eq_expr, 3);
                reveal_with_fuel(alpha_eq_pattern, 2);
                reveal_with_fuel(alpha_eq_branch, 2);
                assert forall|i: int| 0 <= i < br1.len()
                    implies alpha_eq_branch(#[trigger] br1[i], br2[i], delta)
                by {
                    if i == 0 {
                        assert(alpha_eq_pattern(br1@[0].patterns@[0], br2@[0].patterns@[0], delta));
                        match (br1@[0].value, br2@[0].value) {
                            (
                                Expr::Tag { arguments: ta1, .. },
                                Expr::Tag { arguments: ta2, .. },
                            ) => {
                                match (ta1@[0].1, ta2@[0].1) {
                                    (
                                        Expr::Call { args: ca1, .. },
                                        Expr::Call { args: ca2, .. },
                                    ) => {
                                        assert forall|j: int| 0 <= j < ca1.len()
                                            implies vars_match((#[trigger] ca1[j]).0, ca2[j].0, delta)
                                                && alpha_eq_expr(ca1[j].1, ca2[j].1, delta)
                                        by {
                                            assert(ca1@[0] == (var_at(c1 + 5), Expr::Var(Symbol::Arg5)));
                                            assert(ca2@[0] == (var_at(c2 + 5), Expr::Var(Symbol::Arg5)));
                                        }
                                        assert(alpha_eq_expr(ta1@[0].1, ta2@[0].1, delta));
                                    },
                                    _ => {},
                                }
                                assert forall|j: int| 0 <= j < ta1.len()
                                    implies vars_match((#[trigger] ta1[j]).0, ta2[j].0, delta)
                                        && alpha_eq_expr(ta1[j].1, ta2[j].1, delta)
                                by {
                                    assert(ta1@[0].0 == var_at(c1 + 8) && ta2@[0].0 == var_at(c2 + 8));
                                }
                                assert(alpha_eq_expr(br1@[0].value, br2@[0].value, delta));
                            },
                            _ => {},
                        }
                        assert forall|j: int| 0 <= j < br1@[0].patterns.len()
                            implies alpha_eq_pattern(#[trigger] br1@[0].patterns[j], br2@[0].patterns[j], delta)
                        by {
                        }
                        assert(alpha_eq_branch(br1@[0], br2@[0], delta));
                    } else {
                        assert(alpha_eq_pattern(br1@[1].patterns@[0], br2@[1].patterns@[0], delta));
                        match (br1@[1].value, br2@[1].value) {
                            (
                                Expr::Tag { arguments: ta1, .. },
                                Expr::Tag { arguments: ta2, .. },
                            ) => {
                                assert forall|j: int| 0 <= j < ta1.len()
                                    implies vars_match((#[trigger] ta1[j]).0, ta2[j].0, delta)
                                        && alpha_eq_expr(ta1[j].1, ta2[j].1, delta)
                                by {
                                    assert(ta1@[0] == (var_at(c1 + 13), Expr::Var(Symbol::Arg4)));
                                    assert(ta2@[0] == (var_at(c2 + 13), Expr::Var(Symbol::Arg4)));
                                }
                                assert(alpha_eq_expr(br1@[1].value, br2@[1].value, delta));
                            },
                            _ => {},
                        }
                        assert forall|j: int| 0 <= j < br1@[1].patterns.len()
                            implies alpha_eq_pattern(#[trigger] br1@[1].patterns[j], br2@[1].patterns[j], delta)
                        by {
                        }
                        assert(alpha_eq_branch(br1@[1], br2@[1], delta));
                    }
                }
                assert(alpha_eq_expr(*k1, *k2, delta));
                assert(alpha_eq_expr(x1, x2, delta));
            },
            _ => {},
        }
    }
    lemma_alpha_defn(
        d1,
        d2,
        sym,
        seq![(var_at(c1 + 2), Symbol::Arg1), (var_at(c1 + 1), Symbol::Arg2)],
        seq![(var_at(c2 + 2), Symbol::Arg1), (var_at(c2 + 1), Symbol::Arg2)],
        var_at(c1),
        var_at(c2),
        c1 + 16,
        c2 + 16,
        delta,
        r1,
        r2,
    );
}

/// Alpha-determinism of the with-default shape.
pub proof fn lemma_alpha_result_with_default(sym: Symbol, c1: int, c2: int, d1: Def, d2: Def)
    requires
        FIRST_USER_VAR as int <= c1,
        FIRST_USER_VAR as int <= c2,
        c1 + crate::builders::FRESH_BUDGET as int <= u32::MAX as int,
        c2 + crate::builders::FRESH_BUDGET as int <= u32::MAX as int,
        crate::results::result_with_default_shape(d1, sym, c1),
        crate::results::result_with_default_shape(d2, sym, c2),
    ensures
        alpha_eq_def(d1, d2, c2 - c1),
{
    let delta = c2 - c1;
    let r1 = |e: Expr| crate::results::result_with_default_body_shape(c1, e);
    let r2 = |e: Expr| crate::results::result_with_default_body_shape(c2, e);
    assert forall|x1: Expr, x2: Expr| #[trigger] r1(x1) && #[trigger] r2(x2)
        implies alpha_eq_expr(x1, x2, delta)
    by {
        match (x1, x2) {
            (
                Expr::When { branches: br1, cond: k1, .. },
                Expr::When { branches: br2, cond: k2, .. },
            ) => {
                reveal_with_fuel(alpha_eq_expr, 2);
                reveal_with_fuel(alpha_eq_pattern, 2);
                reveal_with_fuel(alpha_eq_branch, 2);
                assert forall|i: int| 0 <= i < br1.len()
                    implies alpha_eq_branch(#[trigger] br1[i], br2[i], delta)
                by {
                    if i == 0 {
                        assert(alpha_eq_pattern(br1@[0].patterns@[0], br2@[0].patterns@[0], delta));
                        assert forall|j: int| 0 <= j < br1@[0].patterns.len()
                            implies alpha_eq_pattern(#[trigger] br1@[0].patterns[j], br2@[0].patterns[j], delta)
                        by {
                        }
                        assert(alpha_eq_branch(br1@[0], br2@[0], delta));
                    } else {
                        assert(alpha_eq_pattern(br1@[1].patterns@[0], br2@[1].patterns@[0], delta));
                        assert forall|j: int| 0 <= j < br1@[1].patterns.len()
                            implies alpha_eq_pattern(#[trigger] br1@[1].patterns[j], br2@[1].patterns[j], delta)
                        by {
                        }
                        assert(alpha_eq_branch(br1@[1], br2@[1], delta));
                    }
                }
                assert(alpha_eq_expr(*k1, *k2, delta));
                assert(alpha_eq_expr(x1, x2, delta));
            },
            _ => {},
        }
    }
    lemma_alpha_defn(
        d1,
        d2,
        sym,
        seq![(var_at(c1 + 1), Symbol::Arg1), (var_at(c1), Symbol::Arg2)],
        seq![(var_at(c2 + 1), Symbol::Arg1), (var_at(c2), Symbol::Arg2)],
        var_at(c1),
        var_at(c2),
        c1 + 5,
        c2 + 5,
        delta,
        r1,
        r2,
    );
}

/// Alpha-determinism of the and-then shape.
pub proof fn lemma_alpha_result_after(sym: Symbol, c1: int, c2: int, d1: Def, d2: Def)
    requires
        FIRST_USER_VAR as int <= c1,
        FIRST_USER_VAR as int <= c2,
        c1 + crate::builders::FRESH_BUDGET as int <= u32::MAX as int,
        c2 + crate::builders::FRESH_BUDGET as int <= u32::MAX as int,
        crate::results::result_after_shape(d1, sym, c1),
        crate::results::result_after_shape(d2, sym, c2),
    ensures
        alpha_eq_def(d1, d2, c2 - c1),
{
    let delta = c2 - c1;
    let r1 = |e: Expr| crate::results::result_after_body_shape(c1, e);
    let r2 = |e: Expr| crate::results::result_after_body_shape(c2, e);
    assert forall|x1: Expr, x2: Expr| #[trigger] r1(x1) && #[trigger] r2(x2)
        implies alpha_eq_expr(x1, x2, delta)
    by {
        match (x1, x2) {
            (
                Expr::When { branches: br1, cond: k1, .. },
                Expr::When { branches: br2, cond: k2, .. },
            ) => {
                reveal_with_fuel(alpha_eq_expr, 2);
                reveal_with_fuel(alpha_eq_pattern, 2);
                reveal_with_fuel(alpha_eq_branch, 2);
                assert forall|i: int| 0 <= i < br1.len()
                    implies alpha_eq_branch(#[trigger] br1[i], br2[i], delta)
                by {
                    if i == 0 {
                        assert(alpha_eq_pattern(br1@[0].patterns@[0], br2@[0].patterns@[0], delta));
                        match (br1@[0].value, br2@[0].value) {
                            (
                                Expr::Call { args: ca1, .. },
                                Expr::Call { args: ca2, .. },
                            ) => {
                                assert forall|j: int| 0 <= j < ca1.len()
                                    implies vars_match((#[trigger] ca1[j]).0, ca2[j].0, delta)
                                        && alpha_eq_expr(ca1[j].1, ca2[j].1, delta)
                                by {
                                    assert(ca1@[0] == (var_at(c1 + 5), Expr::Var(Symbol::Arg5)));
                                    assert(ca2@[0] == (var_at(c2 + 5), Expr::Var(Symbol::Arg5)));
                                }
                                assert(alpha_eq_expr(br1@[0].value, br2@[0].value, delta));
                            },
                            _ => {},
                        }
                        assert forall|j: int| 0 <= j < br1@[0].patterns.len()
                            implies alpha_eq_pattern(#[trigger] br1@[0].patterns[j], br2@[0].patterns[j], delta)
                        by {
                        }
                        assert(alpha_eq_branch(br1@[0], br2@[0], delta));
                    } else {
                        assert(alpha_eq_pattern(br1@[1].patterns@[0], br2@[1].patterns@[0], delta));
                        match (br1@[1].value, br2@[1].value) {
                            (
                                Expr::Tag { arguments: ta1, .. },
                                Expr::Tag { arguments: ta2, .. },
                            ) => {
                                assert forall|j: int| 0 <= j < ta1.len()
                                    implies vars_match((#[trigger] ta1[j]).0, ta2[j].0, delta)
                                        && alpha_eq_expr(ta1[j].1, ta2[j].1, delta)
                                by {
                                    assert(ta1@[0] == (var_at(c1 + 10), Expr::Var(Symbol::Arg4)));
                                    assert(ta2@[0] == (var_at(c2 + 10), Expr::Var(Symbol::Arg4)));
                                }
                                assert(alpha_eq_expr(br1@[1].value, br2@[1].value, delta));
                            },
                            _ => {},
                        }
                        assert forall|j: int| 0 <= j < br1@[1].patterns.len()
                            implies alpha_eq_pattern(#[trigger] br1@[1].patterns[j], br2@[1].patterns[j], delta)
                        by {
                        }
                        assert(alpha_eq_branch(br1@[1], br2@[1], delta));
                    }
                }
                assert(alpha_eq_expr(*k1, *k2, delta));
                assert(alpha_eq_expr(x1, x2, delta));
            },
            _ => {},
        }
    }
    lemma_alpha_defn(
        d1,
        d2,
        sym,
        seq![(var_at(c1 + 2), Symbol::Arg1), (var_at(c1 + 1), Symbol::Arg2)],
        seq![(var_at(c2 + 2), Symbol::Arg1), (var_at(c2 + 1), Symbol::Arg2)],
        var_at(c1),
        var_at(c2),
        c1 + 13,
        c2 + 13,
        delta,
        r1,
        r2,
    );
}

} // verus!

verus! {

/// Alpha-equivalence of two UTF-8 inspection conditionals over the same
/// bound record name.
pub proof fn lemma_alpha_utf8_inspect(
    e1: Expr,
    e2: Expr,
    bound: Symbol,
    rec1: int,
    cv1: int,
    bv1: int,
    c1: int,
    rec2: int,
    cv2: int,
    bv2: int,
    c2: int,
    delta: int,
)
    requires
        crate::strs::utf8_inspect_shape(e1, bound, rec1, cv1, bv1, c1),
        crate::strs::utf8_inspect_shape(e2, bound, rec2, cv2, bv2, c2),
        delta == c2 - c1,
        FIRST_USER_VAR as int <= c1,
        FIRST_USER_VAR as int <= c2,
        c1 + 18 <= u32::MAX as int,
        c2 + 18 <= u32::MAX as int,
        vars_match(var_at(rec1), var_at(rec2), delta),
        vars_match(var_at(cv1), var_at(cv2), delta),
        vars_match(var_at(bv1), var_at(bv2), delta),
        FIRST_USER_VAR as int <= rec1 <= u32::MAX as int,
        FIRST_USER_VAR as int <= rec2 <= u32::MAX as int,
        FIRST_USER_VAR as int <= cv1 <= u32::MAX as int,
        FIRST_USER_VAR as int <= cv2 <= u32::MAX as int,
        FIRST_USER_VAR as int <= bv1 <= u32::MAX as int,
        FIRST_USER_VAR as int <= bv2 <= u32::MAX as int,
    ensures
        alpha_eq_expr(e1, e2, delta),
{
    match (e1, e2) {
        (
            Expr::If { branches: br1, final_else: f1, .. },
            Expr::If { branches: br2, final_else: f2, .. },
        ) => {
            reveal_with_fuel(alpha_eq_expr, 3);
            lemma_alpha_access(
                br1@[0].0,
                br2@[0].0,
                var_at(rec1),
                var_at(c1),
                crate::types::FieldName::CIsOk,
                var_at(c1 + 1),
                bound,
                var_at(rec2),
                var_at(c2),
                var_at(c2 + 1),
                delta,
            );
            let rt1 = |i: int, a: Expr| crate::builders::access_shape(
                a,
                var_at(rec1),
                var_at(c1 + 2),
                crate::types::FieldName::BStr,
                var_at(c1 + 3),
                bound,
            );
            let rt2 = |i: int, a: Expr| crate::builders::access_shape(
                a,
                var_at(rec2),
                var_at(c2 + 2),
                crate::types::FieldName::BStr,
                var_at(c2 + 3),
                bound,
            );
            assert forall|i: int, y1: Expr, y2: Expr|
                0 <= i < 1 && #[trigger] rt1(i, y1) && #[trigger] rt2(i, y2)
                    implies alpha_eq_expr(y1, y2, delta)
            by {
                lemma_alpha_access(
                    y1,
                    y2,
                    var_at(rec1),
                    var_at(c1 + 2),
                    crate::types::FieldName::BStr,
                    var_at(c1 + 3),
                    bound,
                    var_at(rec2),
                    var_at(c2 + 2),
                    var_at(c2 + 3),
                    delta,
                );
            }
            lemma_alpha_tag(br1@[0].1, br2@[0].1, TagName::OkTag, 1, c1 + 4, c2 + 4, delta, rt1, rt2);
            match (*f1, *f2) {
                (
                    Expr::Tag { arguments: ea1, .. },
                    Expr::Tag { arguments: ea2, .. },
                ) => {
                    match (ea1@[0].1, ea2@[0].1) {
                        (
                            Expr::Tag { arguments: ba1, .. },
                            Expr::Tag { arguments: ba2, .. },
                        ) => {
                            lemma_alpha_access(
                                ba1@[0].1,
                                ba2@[0].1,
                                var_at(rec1),
                                var_at(c1 + 7),
                                crate::types::FieldName::DProblem,
                                var_at(c1 + 8),
                                bound,
                                var_at(rec2),
                                var_at(c2 + 7),
                                var_at(c2 + 8),
                                delta,
                            );
                            lemma_alpha_access(
                                ba1@[1].1,
                                ba2@[1].1,
                                var_at(rec1),
                                var_at(c1 + 9),
                                crate::types::FieldName::AByteIndex,
                                var_at(c1 + 10),
                                bound,
                                var_at(rec2),
                                var_at(c2 + 9),
                                var_at(c2 + 10),
                                delta,
                            );
                            assert forall|j: int| 0 <= j < ba1.len()
                                implies vars_match((#[trigger] ba1[j]).0, ba2[j].0, delta)
                                    && alpha_eq_expr(ba1[j].1, ba2[j].1, delta)
                            by {
                                if j == 0 {
                                    assert(ba1@[0].0 == var_at(c1 + 13) && ba2@[0].0 == var_at(c2 + 13));
                                } else {
                                    assert(ba1@[1].0 == var_at(c1 + 14) && ba2@[1].0 == var_at(c2 + 14));
                                }
                            }
                            assert(alpha_eq_expr(ea1@[0].1, ea2@[0].1, delta));
                        },
                        _ => {},
                    }
                    assert forall|j: int| 0 <= j < ea1.len()
                        implies vars_match((#[trigger] ea1[j]).0, ea2[j].0, delta)
                            && alpha_eq_expr(ea1[j].1, ea2[j].1, delta)
                    by {
                        assert(ea1@[0].0 == var_at(c1 + 17) && ea2@[0].0 == var_at(c2 + 17));
                    }
                    assert(alpha_eq_expr(*f1, *f2, delta));
                },
                _ => {},
            }
            lemma_alpha_if1(e1, e2, var_at(cv1), var_at(bv1), var_at(cv2), var_at(bv2), delta);
        },
        _ => {},
    }
}

/// Alpha-determinism of the whole-list UTF-8 decoder shape.
pub proof fn lemma_alpha_str_from_utf8(sym: Symbol, c1: int, c2: int, d1: Def, d2: Def)
    requires
        FIRST_USER_VAR as int <= c1,
        FIRST_USER_VAR as int <= c2,
        c1 + crate::builders::FRESH_BUDGET as int <= u32::MAX as int,
        c2 + crate::builders::FRESH_BUDGET as int <= u32::MAX as int,
        crate::strs::str_from_utf8_shape(d1, sym, c1),
        crate::strs::str_from_utf8_shape(d2, sym, c2),
    ensures
        alpha_eq_def(d1, d2, c2 - c1),
{
    let delta = c2 - c1;
    let r1 = |e: Expr| (e matches Expr::LetNonRec(def0, cont, ret)
        && ret == var_at(c1 + 3)
        && (*def0).pattern == Pattern::Identifier(Symbol::Arg2)
        && (*def0).expr_var == var_at(c1 + 2)
        && (*def0).pattern_vars@.len() == 0
        && (*def0).annotation is None
        && crate::builders::ll1((*def0).body, LowLevel::StrFromUtf8, var_at(c1), Expr::Var(Symbol::Arg1), var_at(c1 + 2))
        && crate::strs::utf8_inspect_shape(*cont, Symbol::Arg2, c1 + 2, c1 + 1, c1 + 3, c1 + 4));
    let r2 = |e: Expr| (e matches Expr::LetNonRec(def0, cont, ret)
        && ret == var_at(c2 + 3)
        && (*def0).pattern == Pattern::Identifier(Symbol::Arg2)
        && (*def0).expr_var == var_at(c2 + 2)
        && (*def0).pattern_vars@.len() == 0
        && (*def0).annotation is None
        && crate::builders::ll1((*def0).body, LowLevel::StrFromUtf8, var_at(c2), Expr::Var(Symbol::Arg1), var_at(c2 + 2))
        && crate::strs::utf8_inspect_shape(*cont, Symbol::Arg2, c2 + 2, c2 + 1, c2 + 3, c2 + 4));
    assert forall|x1: Expr, x2: Expr| #[trigger] r1(x1) && #[trigger] r2(x2)
        implies alpha_eq_expr(x1, x2, delta)
    by {
        match (x1, x2) {
            (Expr::LetNonRec(bd1, bk1, bv1), Expr::LetNonRec(bd2, bk2, bv2)) => {
                reveal_with_fuel(alpha_eq_expr, 2);
                reveal_with_fuel(alpha_eq_pattern, 2);
                reveal_with_fuel(alpha_eq_def, 2);
                lemma_alpha_ll1(
                    (*bd1).body,
                    (*bd2).body,
                    LowLevel::StrFromUtf8,
                    (var_at(c1), Expr::Var(Symbol::Arg1)),
                    (var_at(c2), Expr::Var(Symbol::Arg1)),
                    var_at(c1 + 2),
                    var_at(c2 + 2),
                    delta,
                );
                assert(alpha_eq_def(*bd1, *bd2, delta));
                lemma_alpha_utf8_inspect(
                    *bk1,
                    *bk2,
                    Symbol::Arg2,
                    c1 + 2,
                    c1 + 1,
                    c1 + 3,
                    c1 + 4,
                    c2 + 2,
                    c2 + 1,
                    c2 + 3,
                    c2 + 4,
                    delta,
                );
            },
            _ => {},
        }
    }
    lemma_alpha_defn(
        d1,
        d2,
        sym,
        seq![(var_at(c1), Symbol::Arg1)],
        seq![(var_at(c2), Symbol::Arg1)],
        var_at(c1 + 3),
        var_at(c2 + 3),
        c1 + 22,
        c2 + 22,
        delta,
        r1,
        r2,
    );
}

} // verus!

verus! {

/// Alpha-determinism of the range-limited UTF-8 decoder shape.
pub proof fn lemma_alpha_str_from_utf8_range(sym: Symbol, c1: int, c2: int, d1: Def, d2: Def)
    requires
        FIRST_USER_VAR as int <= c1,
        FIRST_USER_VAR as int <= c2,
        c1 + crate::builders::FRESH_BUDGET as int <= u32::MAX as int,
        c2 + crate::builders::FRESH_BUDGET as int <= u32::MAX as int,
        crate::strs::str_from_utf8_range_shape(d1, sym, c1),
        crate::strs::str_from_utf8_range_shape(d2, sym, c2),
    ensures
        alpha_eq_def(d1, d2, c2 - c1),
{
    let delta = c2 - c1;
    let r1 = |e: Expr| crate::strs::str_from_utf8_range_body_shape(c1, e);
    let r2 = |e: Expr| crate::strs::str_from_utf8_range_body_shape(c2, e);
    assert forall|x1: Expr, x2: Expr| #[trigger] r1(x1) && #[trigger] r2(x2)
        implies alpha_eq_expr(x1, x2, delta)
    by {
        match (x1, x2) {
            (
                Expr::If { branches: br1, final_else: f1, .. },
                Expr::If { branches: br2, final_else: f2, .. },
            ) => {
                reveal_with_fuel(alpha_eq_expr, 3);
                reveal_with_fuel(alpha_eq_pattern, 2);
                reveal_with_fuel(alpha_eq_def, 2);
                match (br1@[0].0, br2@[0].0) {
                    (
                        Expr::RunLowLevel { args: ga1, .. },
                        Expr::RunLowLevel { args: ga2, .. },
                    ) => {
                        match (ga1@[0].1, ga2@[0].1) {
                            (
                                Expr::RunLowLevel { args: aa1, .. },
                                Expr::RunLowLevel { args: aa2, .. },
                            ) => {
                                lemma_alpha_access(
                                    aa1@[0].1,
                                    aa2@[0].1,
                                    var_at(c1 + 2),
                                    var_at(c1 + 26),
                                    crate::types::FieldName::Start,
                                    var_at(c1 + 27),
                                    Symbol::Arg2,
                                    var_at(c2 + 2),
                                    var_at(c2 + 26),
                                    var_at(c2 + 27),
                                    delta,
                                );
                                lemma_alpha_access(
                                    aa1@[1].1,
                                    aa2@[1].1,
                                    var_at(c1 + 2),
                                    var_at(c1 + 28),
                                    crate::types::FieldName::Count,
                                    var_at(c1 + 29),
                                    Symbol::Arg2,
                                    var_at(c2 + 2),
                                    var_at(c2 + 28),
                                    var_at(c2 + 29),
                                    delta,
                                );
                                assert forall|j: int| 0 <= j < aa1.len()
                                    implies vars_match((#[trigger] aa1[j]).0, aa2[j].0, delta)
                                        && alpha_eq_expr(aa1[j].1, aa2[j].1, delta)
                                by {
                                    assert(aa1@[j].0 == var_at(c1 + 25) && aa2@[j].0 == var_at(c2 + 25));
                                }
                                assert(alpha_eq_expr(ga1@[0].1, ga2@[0].1, delta));
                            },
                            _ => {},
                        }
                        lemma_alpha_ll1(
                            ga1@[1].1,
                            ga2@[1].1,
                            LowLevel::ListLen,
                            (var_at(c1), Expr::Var(Symbol::Arg1)),
                            (var_at(c2), Expr::Var(Symbol::Arg1)),
                            var_at(c1 + 23),
                            var_at(c2 + 23),
                            delta,
                        );
                        assert forall|i: int| 0 <= i < ga1.len()
                            implies vars_match((#[trigger] ga1[i]).0, ga2[i].0, delta)
                                && alpha_eq_expr(ga1[i].1, ga2[i].1, delta)
                        by {
                            assert(ga1@[i].0 == var_at(c1 + 23) && ga2@[i].0 == var_at(c2 + 23));
                        }
                        assert(alpha_eq_expr(br1@[0].0, br2@[0].0, delta));
                    },
                    _ => {},
                }
                match (br1@[0].1, br2@[0].1) {
                    (Expr::LetNonRec(bd1, bk1, bv1), Expr::LetNonRec(bd2, bk2, bv2)) => {
                        lemma_alpha_ll2(
                            (*bd1).body,
                            (*bd2).body,
                            LowLevel::StrFromUtf8Range,
                            (var_at(c1), Expr::Var(Symbol::Arg1)),
                            (var_at(c1 + 2), Expr::Var(Symbol::Arg2)),
                            (var_at(c2), Expr::Var(Symbol::Arg1)),
                            (var_at(c2 + 2), Expr::Var(Symbol::Arg2)),
                            var_at(c1 + 3),
                            var_at(c2 + 3),
                            delta,
                        );
                        assert(alpha_eq_def(*bd1, *bd2, delta));
                        lemma_alpha_utf8_inspect(
                            *bk1,
                            *bk2,
                            Symbol::Arg3,
                            c1 + 3,
                            c1 + 1,
                            c1 + 4,
                            c1 + 5,
                            c2 + 3,
                            c2 + 1,
                            c2 + 4,
                            c2 + 5,
                            delta,
                        );
                        assert(alpha_eq_expr(br1@[0].1, br2@[0].1, delta));
                    },
                    _ => {},
                }
                lemma_alpha_wrapped_err(*f1, *f2, TagName::OutOfBounds, c1 + 30, c2 + 30, delta);
                lemma_alpha_if1(x1, x2, var_at(c1 + 24), var_at(c1 + 4), var_at(c2 + 24), var_at(c2 + 4), delta);
            },
            _ => {},
        }
    }
    lemma_alpha_defn(
        d1,
        d2,
        sym,
        seq![(var_at(c1), Symbol::Arg1), (var_at(c1 + 2), Symbol::Arg2)],
        seq![(var_at(c2), Symbol::Arg1), (var_at(c2 + 2), Symbol::Arg2)],
        var_at(c1 + 4),
        var_at(c2 + 4),
        c1 + 35,
        c2 + 35,
        delta,
        r1,
        r2,
    );
}

/// Alpha-determinism of the tangent shape.
pub proof fn lemma_alpha_num_tan(sym: Symbol, c1: int, c2: int, d1: Def, d2: Def)
    requires
        FIRST_USER_VAR as int <= c1,
        FIRST_USER_VAR as int <= c2,
        c1 + crate::builders::FRESH_BUDGET as int <= u32::MAX as int,
        c2 + crate::builders::FRESH_BUDGET as int <= u32::MAX as int,
        crate::nums::num_tan_shape(d1, sym, c1),
        crate::nums::num_tan_shape(d2, sym, c2),
    ensures
        alpha_eq_def(d1, d2, c2 - c1),
{
    let delta = c2 - c1;
    let r1 = |e: Expr| crate::nums::num_tan_body_shape(c1, e);
    let r2 = |e: Expr| crate::nums::num_tan_body_shape(c2, e);
    assert forall|x1: Expr, x2: Expr| #[trigger] r1(x1) && #[trigger] r2(x2)
        implies alpha_eq_expr(x1, x2, delta)
    by {
        match (x1, x2) {
            (
                Expr::RunLowLevel { args: a1, .. },
                Expr::RunLowLevel { args: a2, .. },
            ) => {
                reveal_with_fuel(alpha_eq_expr, 2);
                lemma_alpha_ll1(
                    a1@[0].1,
                    a2@[0].1,
                    LowLevel::NumSin,
                    (var_at(c1), Expr::Var(Symbol::Arg1)),
                    (var_at(c2), Expr::Var(Symbol::Arg1)),
                    var_at(c1),
                    var_at(c2),
                    delta,
                );
                lemma_alpha_ll1(
                    a1@[1].1,
                    a2@[1].1,
                    LowLevel::NumCos,
                    (var_at(c1), Expr::Var(Symbol::Arg1)),
                    (var_at(c2), Expr::Var(Symbol::Arg1)),
                    var_at(c1),
                    var_at(c2),
                    delta,
                );
                assert forall|i: int| 0 <= i < a1.len()
                    implies vars_match((#[trigger] a1[i]).0, a2[i].0, delta)
                        && alpha_eq_expr(a1[i].1, a2[i].1, delta)
                by {
                    assert(a1@[i].0 == var_at(c1) && a2@[i].0 == var_at(c2));
                }
                assert(alpha_eq_expr(x1, x2, delta));
            },
            _ => {},
        }
    }
    lemma_alpha_defn(
        d1,
        d2,
        sym,
        seq![(var_at(c1), Symbol::Arg1)],
        seq![(var_at(c2), Symbol::Arg1)],
        var_at(c1),
        var_at(c2),
        c1 + 1,
        c2 + 1,
        delta,
        r1,
        r2,
    );
}

/// Alpha-determinism of the oddness-test shape.
pub proof fn lemma_alpha_num_is_odd(sym: Symbol, c1: int, c2: int, d1: Def, d2: Def)
    requires
        FIRST_USER_VAR as int <= c1,
        FIRST_USER_VAR as int <= c2,
        c1 + crate::builders::FRESH_BUDGET as int <= u32::MAX as int,
        c2 + crate::builders::FRESH_BUDGET as int <= u32::MAX as int,
        crate::nums::num_is_odd_shape(d1, sym, c1),
        crate::nums::num_is_odd_shape(d2, sym, c2),
    ensures
        alpha_eq_def(d1, d2, c2 - c1),
{
    let delta = c2 - c1;
    let r1 = |e: Expr| crate::nums::num_is_odd_body_shape(c1, e);
    let r2 = |e: Expr| crate::nums::num_is_odd_body_shape(c2, e);
    assert forall|x1: Expr, x2: Expr| #[trigger] r1(x1) && #[trigger] r2(x2)
        implies alpha_eq_expr(x1, x2, delta)
    by {
        match (x1, x2) {
            (
                Expr::RunLowLevel { args: a1, .. },
                Expr::RunLowLevel { args: a2, .. },
            ) => {
                reveal_with_fuel(alpha_eq_expr, 2);
                lemma_alpha_ll2(
                    a1@[1].1,
                    a2@[1].1,
                    LowLevel::NumRemUnchecked,
                    (var_at(c1), Expr::Var(Symbol::Arg1)),
                    (var_at(c1), Expr::Num(var_at(c1 + 2), 2)),
                    (var_at(c2), Expr::Var(Symbol::Arg1)),
                    (var_at(c2), Expr::Num(var_at(c2 + 2), 2)),
                    var_at(c1),
                    var_at(c2),
                    delta,
                );
                assert forall|i: int| 0 <= i < a1.len()
                    implies vars_match((#[trigger] a1[i]).0, a2[i].0, delta)
                        && alpha_eq_expr(a1[i].1, a2[i].1, delta)
                by {
                    if i == 0 {
                        assert(a1@[0] == (var_at(c1), Expr::Int(var_at(c1 + 3), var_at(c1 + 4), 1)));
                        assert(a2@[0] == (var_at(c2), Expr::Int(var_at(c2 + 3), var_at(c2 + 4), 1)));
                    }
                }
                assert(alpha_eq_expr(x1, x2, delta));
            },
            _ => {},
        }
    }
    lemma_alpha_defn(
        d1,
        d2,
        sym,
        seq![(var_at(c1), Symbol::Arg1)],
        seq![(var_at(c2), Symbol::Arg1)],
        var_at(c1 + 1),
        var_at(c2 + 1),
        c1 + 5,
        c2 + 5,
        delta,
        r1,
        r2,
    );
}

/// Alpha-determinism of the evenness-test shape.
pub proof fn lemma_alpha_num_is_even(sym: Symbol, c1: int, c2: int, d1: Def, d2: Def)
    requires
        FIRST_USER_VAR as int <= c1,
        FIRST_USER_VAR as int <= c2,
        c1 + crate::builders::FRESH_BUDGET as int <= u32::MAX as int,
        c2 + crate::builders::FRESH_BUDGET as int <= u32::MAX as int,
        crate::nums::num_is_even_shape(d1, sym, c1),
        crate::nums::num_is_even_shape(d2, sym, c2),
    ensures
        alpha_eq_def(d1, d2, c2 - c1),
{
    let delta = c2 - c1;
    let r1 = |e: Expr| crate::nums::num_is_even_body_shape(c1, e);
    let r2 = |e: Expr| crate::nums::num_is_even_body_shape(c2, e);
    assert forall|x1: Expr, x2: Expr| #[trigger] r1(x1) && #[trigger] r2(x2)
        implies alpha_eq_expr(x1, x2, delta)
    by {
        match (x1, x2) {
            (
                Expr::RunLowLevel { args: a1, .. },
                Expr::RunLowLevel { args: a2, .. },
            ) => {
                reveal_with_fuel(alpha_eq_expr, 2);
                lemma_alpha_ll2(
                    a1@[1].1,
                    a2@[1].1,
                    LowLevel::NumRemUnchecked,
                    (var_at(c1), Expr::Var(Symbol::Arg1)),
                    (var_at(c1), Expr::Num(var_at(c1 + 1), 2)),
                    (var_at(c2), Expr::Var(Symbol::Arg1)),
                    (var_at(c2), Expr::Num(var_at(c2 + 1), 2)),
                    var_at(c1),
                    var_at(c2),
                    delta,
                );
                assert forall|i: int| 0 <= i < a1.len()
                    implies vars_match((#[trigger] a1[i]).0, a2[i].0, delta)
                        && alpha_eq_expr(a1[i].1, a2[i].1, delta)
                by {
                    if i == 0 {
                        assert(a1@[0] == (var_at(c1), Expr::Num(var_at(c1 + 1), 0)));
                        assert(a2@[0] == (var_at(c2), Expr::Num(var_at(c2 + 1), 0)));
                    }
                }
                assert(alpha_eq_expr(x1, x2, delta));
            },
            _ => {},
        }
    }
    lemma_alpha_defn(
        d1,
        d2,
        sym,
        seq![(var_at(c1), Symbol::Arg1)],
        seq![(var_at(c2), Symbol::Arg1)],
        var_at(c1 + 2),
        var_at(c2 + 2),
        c1 + 3,
        c2 + 3,
        delta,
        r1,
        r2,
    );
}

/// Alpha-determinism of the integer-constant shapes.
pub proof fn lemma_alpha_const_int(sym: Symbol, value: i128, ann: Option<Annotation>, c1: int, c2: int, d1: Def, d2: Def)
    requires
        FIRST_USER_VAR as int <= c1,
        FIRST_USER_VAR as int <= c2,
        c1 + crate::builders::FRESH_BUDGET as int <= u32::MAX as int,
        c2 + crate::builders::FRESH_BUDGET as int <= u32::MAX as int,
        d1.pattern == Pattern::Identifier(sym),
        d2.pattern == Pattern::Identifier(sym),
        d1.expr_var == var_at(c1),
        d2.expr_var == var_at(c2),
        d1.pattern_vars@.len() == 0,
        d2.pattern_vars@.len() == 0,
        d1.annotation == ann,
        d2.annotation == ann,
        d1.body == Expr::Int(var_at(c1), var_at(c1 + 1), value),
        d2.body == Expr::Int(var_at(c2), var_at(c2 + 1), value),
    ensures
        alpha_eq_def(d1, d2, c2 - c1),
{
    let delta = c2 - c1;
    reveal_with_fuel(alpha_eq_expr, 2);
    reveal_with_fuel(alpha_eq_pattern, 2);
    assert(alpha_eq_pattern(d1.pattern, d2.pattern, delta));
    assert(alpha_eq_expr(d1.body, d2.body, delta));
}

} // verus!

verus! {

/// Alpha-determinism law: two synthesis runs for the same builtin identity,
/// from independently seeded allocators, produce trees that are equal up to
/// the consistent renaming that shifts every minted handle by the difference
/// of the two starting counters and fixes the reserved handles.
pub proof fn lemma_alpha_determinism(sym: Symbol, c1: int, c2: int, d1: Def, d2: Def)
    requires
        sym.spec_is_builtin(),
        FIRST_USER_VAR as int <= c1,
        FIRST_USER_VAR as int <= c2,
        c1 + crate::builders::FRESH_BUDGET as int <= u32::MAX as int,
        c2 + crate::builders::FRESH_BUDGET as int <= u32::MAX as int,
        builtin_def_rel(sym, c1, d1),
        builtin_def_rel(sym, c2, d2),
    ensures
        alpha_eq_def(d1, d2, c2 - c1),
{
    match sym {
        Symbol::BoolEq => {
            lemma_alpha_binop_other(sym, LowLevel::ValueEq, c1, c2, d1, d2);
        },
        Symbol::BoolNeq => {
            lemma_alpha_binop_other(sym, LowLevel::ValueNotEq, c1, c2, d1, d2);
        },
        Symbol::BoolAnd => {
            lemma_alpha_bool_and(sym, c1, c2, d1, d2);
        },
        Symbol::BoolOr => {
            lemma_alpha_binop(sym, LowLevel::BoolOr, c1, c2, d1, d2);
        },
        Symbol::BoolNot => {
            lemma_alpha_unary_same(sym, LowLevel::BoolNot, c1, c2, d1, d2);
        },
        Symbol::StrConcat => {
            lemma_alpha_binop(sym, LowLevel::StrConcat, c1, c2, d1, d2);
        },
        Symbol::StrJoinWith => {
            lemma_alpha_str_join_with(sym, c1, c2, d1, d2);
        },
        Symbol::StrSplit => {
            lemma_alpha_binop_other(sym, LowLevel::StrSplit, c1, c2, d1, d2);
        },
        Symbol::StrIsEmpty => {
            lemma_alpha_passthrough(sym, LowLevel::StrIsEmpty, 1, c1, c2, d1, d2);
        },
        Symbol::StrStartsWith => {
            lemma_alpha_passthrough(sym, LowLevel::StrStartsWith, 2, c1, c2, d1, d2);
        },
        Symbol::StrStartsWithCodePt => {
            lemma_alpha_passthrough(sym, LowLevel::StrStartsWithCodePt, 2, c1, c2, d1, d2);
        },
        Symbol::StrEndsWith => {
            lemma_alpha_binop_other(sym, LowLevel::StrEndsWith, c1, c2, d1, d2);
        },
        Symbol::StrCountGraphemes => {
            lemma_alpha_passthrough(sym, LowLevel::StrCountGraphemes, 1, c1, c2, d1, d2);
        },
        Symbol::StrFromInt => {
            lemma_alpha_passthrough(sym, LowLevel::StrFromInt, 1, c1, c2, d1, d2);
        },
        Symbol::StrFromUtf8 => {
            lemma_alpha_str_from_utf8(sym, c1, c2, d1, d2);
        },
        Symbol::StrFromUtf8Range => {
            lemma_alpha_str_from_utf8_range(sym, c1, c2, d1, d2);
        },
        Symbol::StrToUtf8 => {
            lemma_alpha_passthrough(sym, LowLevel::StrToUtf8, 1, c1, c2, d1, d2);
        },
        Symbol::StrFromFloat => {
            lemma_alpha_passthrough(sym, LowLevel::StrFromFloat, 1, c1, c2, d1, d2);
        },
        Symbol::StrRepeat => {
            lemma_alpha_op2_ret_first(sym, LowLevel::StrRepeat, c1, c2, d1, d2);
        },
        Symbol::StrTrim => {
            lemma_alpha_passthrough(sym, LowLevel::StrTrim, 1, c1, c2, d1, d2);
        },
        Symbol::ListLen => {
            lemma_alpha_op1_ret_first(sym, LowLevel::ListLen, c1, c2, d1, d2);
        },
        Symbol::ListGet => {
            lemma_alpha_list_get(sym, c1, c2, d1, d2);
        },
        Symbol::ListSet => {
            lemma_alpha_list_set(sym, c1, c2, d1, d2);
        },
        Symbol::ListAppend => {
            lemma_alpha_op2_ret_first(sym, LowLevel::ListAppend, c1, c2, d1, d2);
        },
        Symbol::ListFirst => {
            lemma_alpha_list_first(sym, c1, c2, d1, d2);
        },
        Symbol::ListLast => {
            lemma_alpha_list_last(sym, c1, c2, d1, d2);
        },
        Symbol::ListIsEmpty => {
            lemma_alpha_list_is_empty(sym, c1, c2, d1, d2);
        },
        Symbol::ListSingle => {
            lemma_alpha_passthrough(sym, LowLevel::ListSingle, 1, c1, c2, d1, d2);
        },
        Symbol::ListRepeat => {
            lemma_alpha_passthrough(sym, LowLevel::ListRepeat, 2, c1, c2, d1, d2);
        },
        Symbol::ListReverse => {
            lemma_alpha_unary_same(sym, LowLevel::ListReverse, c1, c2, d1, d2);
        },
        Symbol::ListConcat => {
            lemma_alpha_binop(sym, LowLevel::ListConcat, c1, c2, d1, d2);
        },
        Symbol::ListContains => {
            lemma_alpha_passthrough(sym, LowLevel::ListContains, 2, c1, c2, d1, d2);
        },
        Symbol::ListMin => {
            lemma_alpha_list_pick(sym, Symbol::ListMinLt, LowLevel::NumLt, c1, c2, d1, d2);
        },
        Symbol::ListMax => {
            lemma_alpha_list_pick(sym, Symbol::ListMaxGt, LowLevel::NumGt, c1, c2, d1, d2);
        },
        Symbol::ListSum => {
            lemma_alpha_fold_accum(sym, Symbol::ListSumAdd, LowLevel::NumAdd, 0, c1, c2, d1, d2);
        },
        Symbol::ListProduct => {
            lemma_alpha_fold_accum(sym, Symbol::ListProductMul, LowLevel::NumMul, 1, c1, c2, d1, d2);
        },
        Symbol::ListPrepend => {
            lemma_alpha_op2_ret_first(sym, LowLevel::ListPrepend, c1, c2, d1, d2);
        },
        Symbol::ListJoin => {
            lemma_alpha_op1_ret_first(sym, LowLevel::ListJoin, c1, c2, d1, d2);
        },
        Symbol::ListJoinMap => {
            lemma_alpha_list_join_map(sym, c1, c2, d1, d2);
        },
        Symbol::ListMap => {
            lemma_alpha_passthrough(sym, LowLevel::ListMap, 2, c1, c2, d1, d2);
        },
        Symbol::ListMap2 => {
            lemma_alpha_passthrough(sym, LowLevel::ListMap2, 3, c1, c2, d1, d2);
        },
        Symbol::ListMap3 => {
            lemma_alpha_passthrough(sym, LowLevel::ListMap3, 4, c1, c2, d1, d2);
        },
        Symbol::ListMap4 => {
            lemma_alpha_passthrough(sym, LowLevel::ListMap4, 5, c1, c2, d1, d2);
        },
        Symbol::ListTakeFirst => {
            lemma_alpha_op2_ret_first(sym, LowLevel::ListTakeFirst, c1, c2, d1, d2);
        },
        Symbol::ListTakeLast => {
            lemma_alpha_op2_ret_first(sym, LowLevel::ListTakeLast, c1, c2, d1, d2);
        },
        Symbol::ListDrop => {
            lemma_alpha_op2_ret_first(sym, LowLevel::ListDrop, c1, c2, d1, d2);
        },
        Symbol::ListDropAt => {
            lemma_alpha_op2_ret_first(sym, LowLevel::ListDropAt, c1, c2, d1, d2);
        },
        Symbol::ListDropFirst => {
            lemma_alpha_list_drop_first(sym, c1, c2, d1, d2);
        },
        Symbol::ListDropLast => {
            lemma_alpha_list_drop_last(sym, c1, c2, d1, d2);
        },
        Symbol::ListSwap => {
            lemma_alpha_list_swap(sym, c1, c2, d1, d2);
        },
        Symbol::ListMapWithIndex => {
            lemma_alpha_passthrough(sym, LowLevel::ListMapWithIndex, 2, c1, c2, d1, d2);
        },
        Symbol::ListKeepIf => {
            lemma_alpha_op2_ret_first(sym, LowLevel::ListKeepIf, c1, c2, d1, d2);
        },
        Symbol::ListKeepOks => {
            lemma_alpha_passthrough(sym, LowLevel::ListKeepOks, 2, c1, c2, d1, d2);
        },
        Symbol::ListKeepErrs => {
            lemma_alpha_passthrough(sym, LowLevel::ListKeepErrs, 2, c1, c2, d1, d2);
        },
        Symbol::ListRange => {
            lemma_alpha_passthrough(sym, LowLevel::ListRange, 2, c1, c2, d1, d2);
        },
        Symbol::ListWalk => {
            lemma_alpha_passthrough(sym, LowLevel::ListWalk, 3, c1, c2, d1, d2);
        },
        Symbol::ListWalkBackwards => {
            lemma_alpha_passthrough(sym, LowLevel::ListWalkBackwards, 3, c1, c2, d1, d2);
        },
        Symbol::ListWalkUntil => {
            lemma_alpha_passthrough(sym, LowLevel::ListWalkUntil, 3, c1, c2, d1, d2);
        },
        Symbol::ListSortWith => {
            lemma_alpha_passthrough(sym, LowLevel::ListSortWith, 2, c1, c2, d1, d2);
        },
        Symbol::ListAny => {
            lemma_alpha_passthrough(sym, LowLevel::ListAny, 2, c1, c2, d1, d2);
        },
        Symbol::ListFind => {
            lemma_alpha_list_find(sym, c1, c2, d1, d2);
        },
        Symbol::DictLen => {
            lemma_alpha_dict_len(sym, c1, c2, d1, d2);
        },
        Symbol::DictEmpty => {
            lemma_alpha_empty_collection(sym, c1, c2, d1, d2);
        },
        Symbol::DictSingle => {
            lemma_alpha_dict_single(sym, c1, c2, d1, d2);
        },
        Symbol::DictInsert => {
            lemma_alpha_passthrough(sym, LowLevel::DictInsert, 3, c1, c2, d1, d2);
        },
        Symbol::DictRemove => {
            lemma_alpha_passthrough(sym, LowLevel::DictRemove, 2, c1, c2, d1, d2);
        },
        Symbol::DictGet => {
            lemma_alpha_dict_get(sym, c1, c2, d1, d2);
        },
        Symbol::DictContains => {
            lemma_alpha_passthrough(sym, LowLevel::DictContains, 2, c1, c2, d1, d2);
        },
        Symbol::DictKeys => {
            lemma_alpha_passthrough(sym, LowLevel::DictKeys, 1, c1, c2, d1, d2);
        },
        Symbol::DictValues => {
            lemma_alpha_passthrough(sym, LowLevel::DictValues, 1, c1, c2, d1, d2);
        },
        Symbol::DictUnion => {
            lemma_alpha_passthrough(sym, LowLevel::DictUnion, 2, c1, c2, d1, d2);
        },
        Symbol::DictIntersection => {
            lemma_alpha_passthrough(sym, LowLevel::DictIntersection, 2, c1, c2, d1, d2);
        },
        Symbol::DictDifference => {
            lemma_alpha_passthrough(sym, LowLevel::DictDifference, 2, c1, c2, d1, d2);
        },
        Symbol::DictWalk => {
            lemma_alpha_passthrough(sym, LowLevel::DictWalk, 3, c1, c2, d1, d2);
        },
        Symbol::SetEmpty => {
            lemma_alpha_empty_collection(sym, c1, c2, d1, d2);
        },
        Symbol::SetLen => {
            lemma_alpha_passthrough(sym, LowLevel::DictSize, 1, c1, c2, d1, d2);
        },
        Symbol::SetSingle => {
            lemma_alpha_set_single(sym, c1, c2, d1, d2);
        },
        Symbol::SetUnion => {
            lemma_alpha_passthrough(sym, LowLevel::DictUnion, 2, c1, c2, d1, d2);
        },
        Symbol::SetIntersection => {
            lemma_alpha_passthrough(sym, LowLevel::DictIntersection, 2, c1, c2, d1, d2);
        },
        Symbol::SetDifference => {
            lemma_alpha_passthrough(sym, LowLevel::DictDifference, 2, c1, c2, d1, d2);
        },
        Symbol::SetToList => {
            lemma_alpha_passthrough(sym, LowLevel::DictKeys, 1, c1, c2, d1, d2);
        },
        Symbol::SetFromList => {
            lemma_alpha_passthrough(sym, LowLevel::SetFromList, 1, c1, c2, d1, d2);
        },
        Symbol::SetInsert => {
            lemma_alpha_set_insert(sym, c1, c2, d1, d2);
        },
        Symbol::SetRemove => {
            lemma_alpha_passthrough(sym, LowLevel::DictRemove, 2, c1, c2, d1, d2);
        },
        Symbol::SetContains => {
            lemma_alpha_passthrough(sym, LowLevel::DictContains, 2, c1, c2, d1, d2);
        },
        Symbol::SetWalk => {
            lemma_alpha_set_walk(sym, c1, c2, d1, d2);
        },
        Symbol::NumAdd => {
            lemma_alpha_binop(sym, LowLevel::NumAdd, c1, c2, d1, d2);
        },
        Symbol::NumAddChecked => {
            lemma_alpha_overflow_checked(sym, LowLevel::NumAddChecked, c1, c2, d1, d2);
        },
        Symbol::NumAddWrap => {
            lemma_alpha_binop(sym, LowLevel::NumAddWrap, c1, c2, d1, d2);
        },
        Symbol::NumSub => {
            lemma_alpha_binop(sym, LowLevel::NumSub, c1, c2, d1, d2);
        },
        Symbol::NumSubWrap => {
            lemma_alpha_binop(sym, LowLevel::NumSubWrap, c1, c2, d1, d2);
        },
        Symbol::NumSubChecked => {
            lemma_alpha_overflow_checked(sym, LowLevel::NumSubChecked, c1, c2, d1, d2);
        },
        Symbol::NumMul => {
            lemma_alpha_binop(sym, LowLevel::NumMul, c1, c2, d1, d2);
        },
        Symbol::NumMulWrap => {
            lemma_alpha_binop(sym, LowLevel::NumMulWrap, c1, c2, d1, d2);
        },
        Symbol::NumMulChecked => {
            lemma_alpha_overflow_checked(sym, LowLevel::NumMulChecked, c1, c2, d1, d2);
        },
        Symbol::NumGt => {
            lemma_alpha_binop_other(sym, LowLevel::NumGt, c1, c2, d1, d2);
        },
        Symbol::NumGte => {
            lemma_alpha_binop_other(sym, LowLevel::NumGte, c1, c2, d1, d2);
        },
        Symbol::NumLt => {
            lemma_alpha_binop_other(sym, LowLevel::NumLt, c1, c2, d1, d2);
        },
        Symbol::NumLte => {
            lemma_alpha_binop_other(sym, LowLevel::NumLte, c1, c2, d1, d2);
        },
        Symbol::NumCompare => {
            lemma_alpha_binop_other(sym, LowLevel::NumCompare, c1, c2, d1, d2);
        },
        Symbol::NumSin => {
            lemma_alpha_unary_same(sym, LowLevel::NumSin, c1, c2, d1, d2);
        },
        Symbol::NumCos => {
            lemma_alpha_unary_same(sym, LowLevel::NumCos, c1, c2, d1, d2);
        },
        Symbol::NumTan => {
            lemma_alpha_num_tan(sym, c1, c2, d1, d2);
        },
        Symbol::NumDivFloat => {
                reveal_with_fuel(alpha_eq_expr, 2);
                lemma_alpha_div_like(sym, LowLevel::NumDivUnchecked, Expr::Float(var_at(c1 + 2), var_at(c1 + 3), 0), Expr::Float(var_at(c2 + 2), var_at(c2 + 3), 0), c1, c2, d1, d2);
            },
        Symbol::NumDivInt => {
                reveal_with_fuel(alpha_eq_expr, 2);
                lemma_alpha_div_like(sym, LowLevel::NumDivUnchecked, Expr::Int(var_at(c1 + 2), var_at(c1 + 3), 0), Expr::Int(var_at(c2 + 2), var_at(c2 + 3), 0), c1, c2, d1, d2);
            },
        Symbol::NumDivCeil => {
                reveal_with_fuel(alpha_eq_expr, 2);
                lemma_alpha_div_like(sym, LowLevel::NumDivCeilUnchecked, Expr::Int(var_at(c1 + 2), var_at(c1 + 3), 0), Expr::Int(var_at(c2 + 2), var_at(c2 + 3), 0), c1, c2, d1, d2);
            },
        Symbol::NumAbs => {
            lemma_alpha_unary_same(sym, LowLevel::NumAbs, c1, c2, d1, d2);
        },
        Symbol::NumNeg => {
            lemma_alpha_unary_same(sym, LowLevel::NumNeg, c1, c2, d1, d2);
        },
        Symbol::NumRem => {
            lemma_alpha_num_rem(sym, c1, c2, d1, d2);
        },
        Symbol::NumIsMultipleOf => {
            lemma_alpha_passthrough(sym, LowLevel::NumIsMultipleOf, 2, c1, c2, d1, d2);
        },
        Symbol::NumSqrt => {
            lemma_alpha_guarded_unary(sym, LowLevel::NumGte, LowLevel::NumSqrtUnchecked, TagName::SqrtOfNegative, c1, c2, d1, d2);
        },
        Symbol::NumLog => {
            lemma_alpha_guarded_unary(sym, LowLevel::NumGt, LowLevel::NumLogUnchecked, TagName::LogNeedsPositive, c1, c2, d1, d2);
        },
        Symbol::NumRound => {
            lemma_alpha_passthrough(sym, LowLevel::NumRound, 1, c1, c2, d1, d2);
        },
        Symbol::NumIsOdd => {
            lemma_alpha_num_is_odd(sym, c1, c2, d1, d2);
        },
        Symbol::NumIsEven => {
            lemma_alpha_num_is_even(sym, c1, c2, d1, d2);
        },
        Symbol::NumIsZero => {
                reveal_with_fuel(alpha_eq_expr, 2);
                lemma_alpha_unary_cmp(sym, LowLevel::ValueEq, (var_at(c1), Expr::Var(Symbol::Arg1)), (var_at(c1), Expr::Num(var_at(c1 + 2), 0)), (var_at(c2), Expr::Var(Symbol::Arg1)), (var_at(c2), Expr::Num(var_at(c2 + 2), 0)), c1, c2, d1, d2);
            },
        Symbol::NumIsPositive => {
                reveal_with_fuel(alpha_eq_expr, 2);
                lemma_alpha_unary_cmp(sym, LowLevel::NumGt, (var_at(c1), Expr::Var(Symbol::Arg1)), (var_at(c1), Expr::Num(var_at(c1 + 2), 0)), (var_at(c2), Expr::Var(Symbol::Arg1)), (var_at(c2), Expr::Num(var_at(c2 + 2), 0)), c1, c2, d1, d2);
            },
        Symbol::NumIsNegative => {
                reveal_with_fuel(alpha_eq_expr, 2);
                lemma_alpha_unary_cmp(sym, LowLevel::NumGt, (var_at(c1), Expr::Num(var_at(c1 + 2), 0)), (var_at(c1), Expr::Var(Symbol::Arg1)), (var_at(c2), Expr::Num(var_at(c2 + 2), 0)), (var_at(c2), Expr::Var(Symbol::Arg1)), c1, c2, d1, d2);
            },
        Symbol::NumToFloat => {
            lemma_alpha_passthrough(sym, LowLevel::NumToFloat, 1, c1, c2, d1, d2);
        },
        Symbol::NumPow => {
            lemma_alpha_binop(sym, LowLevel::NumPow, c1, c2, d1, d2);
        },
        Symbol::NumCeiling => {
            lemma_alpha_passthrough(sym, LowLevel::NumCeiling, 1, c1, c2, d1, d2);
        },
        Symbol::NumPowInt => {
            lemma_alpha_binop(sym, LowLevel::NumPowInt, c1, c2, d1, d2);
        },
        Symbol::NumFloor => {
            lemma_alpha_passthrough(sym, LowLevel::NumFloor, 1, c1, c2, d1, d2);
        },
        Symbol::NumAtan => {
            lemma_alpha_passthrough(sym, LowLevel::NumAtan, 1, c1, c2, d1, d2);
        },
        Symbol::NumAcos => {
            lemma_alpha_passthrough(sym, LowLevel::NumAcos, 1, c1, c2, d1, d2);
        },
        Symbol::NumAsin => {
            lemma_alpha_passthrough(sym, LowLevel::NumAsin, 1, c1, c2, d1, d2);
        },
        Symbol::NumBytesToU16 => {
            lemma_alpha_bytes_to(sym, LowLevel::NumBytesToU16, 1, c1, c2, d1, d2);
        },
        Symbol::NumBytesToU32 => {
            lemma_alpha_bytes_to(sym, LowLevel::NumBytesToU32, 3, c1, c2, d1, d2);
        },
        Symbol::NumMaxInt => {
            lemma_alpha_const_int(sym, i64::MAX as i128, None, c1, c2, d1, d2);
        },
        Symbol::NumMinInt => {
            lemma_alpha_const_int(sym, i64::MIN as i128, None, c1, c2, d1, d2);
        },
        Symbol::NumBitwiseAnd => {
            lemma_alpha_binop(sym, LowLevel::NumBitwiseAnd, c1, c2, d1, d2);
        },
        Symbol::NumBitwiseXor => {
            lemma_alpha_binop(sym, LowLevel::NumBitwiseXor, c1, c2, d1, d2);
        },
        Symbol::NumBitwiseOr => {
            lemma_alpha_binop(sym, LowLevel::NumBitwiseOr, c1, c2, d1, d2);
        },
        Symbol::NumShiftLeft => {
            lemma_alpha_passthrough(sym, LowLevel::NumShiftLeftBy, 2, c1, c2, d1, d2);
        },
        Symbol::NumShiftRight => {
            lemma_alpha_passthrough(sym, LowLevel::NumShiftRightBy, 2, c1, c2, d1, d2);
        },
        Symbol::NumShiftRightZeroFill => {
            lemma_alpha_passthrough(sym, LowLevel::NumShiftRightZfBy, 2, c1, c2, d1, d2);
        },
        Symbol::NumIntCast => {
            lemma_alpha_passthrough(sym, LowLevel::NumIntCast, 1, c1, c2, d1, d2);
        },
        Symbol::NumMaxI128 => {
            lemma_alpha_const_int(sym, i128::MAX, Some(Annotation::PinnedInt128), c1, c2, d1, d2);
        },
        Symbol::ResultMap => {
            lemma_alpha_result_map_like(sym, TagName::OkTag, TagName::ErrTag, c1, c2, d1, d2);
        },
        Symbol::ResultMapErr => {
            lemma_alpha_result_map_like(sym, TagName::ErrTag, TagName::OkTag, c1, c2, d1, d2);
        },
        Symbol::ResultAfter => {
            lemma_alpha_result_after(sym, c1, c2, d1, d2);
        },
        Symbol::ResultWithDefault => {
            lemma_alpha_result_with_default(sym, c1, c2, d1, d2);
        },
        _ => {},
    }
}

} // verus!

verus! {

/// The renaming underlying alpha-equivalence is a function: one handle of
/// the first tree corresponds to exactly one handle of the second.
pub proof fn lemma_renaming_functional(v: Variable, w1: Variable, w2: Variable, delta: int)
    requires
        vars_match(v, w1, delta),
        vars_match(v, w2, delta),
    ensures
        w1 == w2,
{
}

/// The renaming underlying alpha-equivalence is injective: two distinct
/// handles of the first tree never collapse into one handle of the second.
pub proof fn lemma_renaming_injective(v1: Variable, v2: Variable, w: Variable, delta: int)
    requires
        vars_match(v1, w, delta),
        vars_match(v2, w, delta),
    ensures
        v1 == v2,
{
}

/// The renaming is invertible: shifting back by the opposite delta restores
/// the first handle, so alpha-equivalence read in either direction describes
/// the same correspondence.
pub proof fn lemma_renaming_invertible(v: Variable, w: Variable, delta: int)
    requires
        vars_match(v, w, delta),
    ensures
        vars_match(w, v, -delta),
{
}

} // verus!
