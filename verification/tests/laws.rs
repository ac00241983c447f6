//! Concrete checks of the library's laws: alpha-determinism across
//! independently seeded allocators, freshness of minted handles, and the
//! safe-wrapper tree shape.

use builtin_defs::dispatch::builtin_defs_map;
use builtin_defs::types::Def;
use builtin_defs::types::Expr;
use builtin_defs::types::FIRST_USER_VAR;
use builtin_defs::types::LowLevel;
use builtin_defs::types::Pattern;
use builtin_defs::types::Symbol;
use builtin_defs::types::TagName;
use builtin_defs::types::VarStore;
use builtin_defs::types::Variable;
use builtin_defs::types::WhenBranch;

/// The renaming between two runs whose allocators started `delta` apart.
fn vars_match(v1: Variable, v2: Variable, delta: i64) -> bool {
    if v1.id < FIRST_USER_VAR {
        v2 == v1
    } else {
        v2.id as i64 == v1.id as i64 + delta
    }
}

fn alpha_eq_pattern(p1: &Pattern, p2: &Pattern, delta: i64) -> bool {
    match (p1, p2) {
        (Pattern::Identifier(s1), Pattern::Identifier(s2)) => s1 == s2,
        (Pattern::Underscore, Pattern::Underscore) => true,
        (
            Pattern::AppliedTag { whole_var: w1, ext_var: x1, name: n1, arguments: a1 },
            Pattern::AppliedTag { whole_var: w2, ext_var: x2, name: n2, arguments: a2 },
        ) => {
            vars_match(*w1, *w2, delta)
                && vars_match(*x1, *x2, delta)
                && n1 == n2
                && a1.len() == a2.len()
                && a1.iter().zip(a2.iter()).all(|(q1, q2)| {
                    vars_match(q1.0, q2.0, delta) && alpha_eq_pattern(&q1.1, &q2.1, delta)
                })
        }
        _ => false,
    }
}

fn alpha_eq_branch(b1: &WhenBranch, b2: &WhenBranch, delta: i64) -> bool {
    b1.patterns.len() == b2.patterns.len()
        && b1.patterns.iter().zip(b2.patterns.iter()).all(|(p1, p2)| alpha_eq_pattern(p1, p2, delta))
        && alpha_eq_expr(&b1.value, &b2.value, delta)
        && match (&b1.guard, &b2.guard) {
            (None, None) => true,
            (Some(g1), Some(g2)) => alpha_eq_expr(g1, g2, delta),
            _ => false,
        }
}

fn alpha_eq_args(a1: &[(Variable, Expr)], a2: &[(Variable, Expr)], delta: i64) -> bool {
    a1.len() == a2.len()
        && a1.iter().zip(a2.iter()).all(|(x1, x2)| {
            vars_match(x1.0, x2.0, delta) && alpha_eq_expr(&x1.1, &x2.1, delta)
        })
}

fn alpha_eq_expr(e1: &Expr, e2: &Expr, delta: i64) -> bool {
    match (e1, e2) {
        (Expr::Var(s1), Expr::Var(s2)) => s1 == s2,
        (Expr::Num(v1, n1), Expr::Num(v2, n2)) => vars_match(*v1, *v2, delta) && n1 == n2,
        (Expr::Int(a1, b1, n1), Expr::Int(a2, b2, n2)) => {
            vars_match(*a1, *a2, delta) && vars_match(*b1, *b2, delta) && n1 == n2
        }
        (Expr::Float(a1, b1, n1), Expr::Float(a2, b2, n2)) => {
            vars_match(*a1, *a2, delta) && vars_match(*b1, *b2, delta) && n1 == n2
        }
        (Expr::EmptyRecord, Expr::EmptyRecord) => true,
        (Expr::List { elem_var: v1, elems: es1 }, Expr::List { elem_var: v2, elems: es2 }) => {
            vars_match(*v1, *v2, delta)
                && es1.len() == es2.len()
                && es1.iter().zip(es2.iter()).all(|(x1, x2)| alpha_eq_expr(x1, x2, delta))
        }
        (
            Expr::RunLowLevel { op: o1, args: a1, ret_var: r1 },
            Expr::RunLowLevel { op: o2, args: a2, ret_var: r2 },
        ) => o1 == o2 && vars_match(*r1, *r2, delta) && alpha_eq_args(a1, a2, delta),
        (
            Expr::If { cond_var: c1, branch_var: b1, branches: br1, final_else: f1 },
            Expr::If { cond_var: c2, branch_var: b2, branches: br2, final_else: f2 },
        ) => {
            vars_match(*c1, *c2, delta)
                && vars_match(*b1, *b2, delta)
                && br1.len() == br2.len()
                && br1.iter().zip(br2.iter()).all(|(x1, x2)| {
                    alpha_eq_expr(&x1.0, &x2.0, delta) && alpha_eq_expr(&x1.1, &x2.1, delta)
                })
                && alpha_eq_expr(f1, f2, delta)
        }
        (
            Expr::When { cond_var: c1, expr_var: x1, cond: k1, branches: br1 },
            Expr::When { cond_var: c2, expr_var: x2, cond: k2, branches: br2 },
        ) => {
            vars_match(*c1, *c2, delta)
                && vars_match(*x1, *x2, delta)
                && alpha_eq_expr(k1, k2, delta)
                && br1.len() == br2.len()
                && br1.iter().zip(br2.iter()).all(|(y1, y2)| alpha_eq_branch(y1, y2, delta))
        }
        (Expr::LetNonRec(d1, k1, v1), Expr::LetNonRec(d2, k2, v2)) => {
            alpha_eq_def(d1, d2, delta) && alpha_eq_expr(k1, k2, delta) && vars_match(*v1, *v2, delta)
        }
        (
            Expr::Access { record_var: r1, ext_var: x1, field: f1, field_var: v1, record: e1i },
            Expr::Access { record_var: r2, ext_var: x2, field: f2, field_var: v2, record: e2i },
        ) => {
            vars_match(*r1, *r2, delta)
                && vars_match(*x1, *x2, delta)
                && f1 == f2
                && vars_match(*v1, *v2, delta)
                && alpha_eq_expr(e1i, e2i, delta)
        }
        (
            Expr::Tag { variant_var: v1, ext_var: x1, name: n1, arguments: a1 },
            Expr::Tag { variant_var: v2, ext_var: x2, name: n2, arguments: a2 },
        ) => {
            vars_match(*v1, *v2, delta)
                && vars_match(*x1, *x2, delta)
                && n1 == n2
                && alpha_eq_args(a1, a2, delta)
        }
        (Expr::Closure(cd1), Expr::Closure(cd2)) => {
            vars_match(cd1.function_type, cd2.function_type, delta)
                && vars_match(cd1.closure_type, cd2.closure_type, delta)
                && vars_match(cd1.closure_ext_var, cd2.closure_ext_var, delta)
                && vars_match(cd1.return_type, cd2.return_type, delta)
                && cd1.name == cd2.name
                && cd1.recursive == cd2.recursive
                && cd1.captured_symbols.len() == cd2.captured_symbols.len()
                && cd1
                    .captured_symbols
                    .iter()
                    .zip(cd2.captured_symbols.iter())
                    .all(|(x1, x2)| x1.0 == x2.0 && vars_match(x1.1, x2.1, delta))
                && cd1.arguments.len() == cd2.arguments.len()
                && cd1.arguments.iter().zip(cd2.arguments.iter()).all(|(x1, x2)| {
                    vars_match(x1.0, x2.0, delta) && alpha_eq_pattern(&x1.1, &x2.1, delta)
                })
                && alpha_eq_expr(&cd1.body, &cd2.body, delta)
        }
        (
            Expr::Call { fn_var: f1, fn_expr: e1i, closure_var: c1, ret_var: r1, args: a1 },
            Expr::Call { fn_var: f2, fn_expr: e2i, closure_var: c2, ret_var: r2, args: a2 },
        ) => {
            vars_match(*f1, *f2, delta)
                && alpha_eq_expr(e1i, e2i, delta)
                && vars_match(*c1, *c2, delta)
                && vars_match(*r1, *r2, delta)
                && alpha_eq_args(a1, a2, delta)
        }
        _ => false,
    }
}

fn alpha_eq_def(d1: &Def, d2: &Def, delta: i64) -> bool {
    alpha_eq_pattern(&d1.pattern, &d2.pattern, delta)
        && alpha_eq_expr(&d1.body, &d2.body, delta)
        && vars_match(d1.expr_var, d2.expr_var, delta)
        && d1.pattern_vars.len() == d2.pattern_vars.len()
        && d1.annotation == d2.annotation
}

const SAMPLE: [Symbol; 18] = [
    Symbol::BoolEq,
    Symbol::BoolAnd,
    Symbol::NumAdd,
    Symbol::NumAddChecked,
    Symbol::NumRem,
    Symbol::NumDivFloat,
    Symbol::NumSqrt,
    Symbol::NumBytesToU32,
    Symbol::NumMaxI128,
    Symbol::StrFromUtf8Range,
    Symbol::ListGet,
    Symbol::ListMin,
    Symbol::ListSum,
    Symbol::ListJoinMap,
    Symbol::ListFind,
    Symbol::DictGet,
    Symbol::SetWalk,
    Symbol::ResultMap,
];

/// Two synthesis calls for one identity, with independently seeded
/// allocators, give alpha-equivalent trees; distinct concrete variable ids
/// are expected.
#[test]
fn independently_seeded_runs_are_alpha_equivalent() {
    for sym in SAMPLE {
        let mut store_a = VarStore::new(10);
        let mut store_b = VarStore::new(5000);
        let d_a = builtin_defs_map(sym, &mut store_a).unwrap();
        let d_b = builtin_defs_map(sym, &mut store_b).unwrap();
        assert!(alpha_eq_def(&d_a, &d_b, 4990), "not alpha-equivalent: {:?}", sym);
        // the renaming is not the identity: the trees differ concretely
        assert!(!alpha_eq_def(&d_a, &d_b, 0), "runs unexpectedly identical: {:?}", sym);
    }
}

/// A wrong renaming delta is rejected by the equivalence.
#[test]
fn alpha_equivalence_needs_the_right_shift() {
    let mut store_a = VarStore::new(10);
    let mut store_b = VarStore::new(5000);
    let d_a = builtin_defs_map(Symbol::NumRem, &mut store_a).unwrap();
    let d_b = builtin_defs_map(Symbol::NumRem, &mut store_b).unwrap();
    assert!(!alpha_eq_def(&d_a, &d_b, 4989));
}

/// The allocator mints strictly increasing, pairwise distinct handles.
#[test]
fn minted_handles_are_pairwise_distinct() {
    let mut var_store = VarStore::new(3);
    let mut seen: Vec<u32> = Vec::new();
    for _ in 0..40 {
        let v = var_store.fresh();
        assert!(v.id >= FIRST_USER_VAR);
        assert!(!seen.contains(&v.id));
        seen.push(v.id);
    }
}

/// Two synthesis calls on one allocator share no minted handles: the counter
/// ranges they consume are disjoint.
#[test]
fn sequential_syntheses_never_reuse_a_minted_handle() {
    let mut var_store = VarStore::new(10);
    builtin_defs_map(Symbol::NumAddChecked, &mut var_store).unwrap();
    let after_first = var_store.fresh();
    // checked addition mints twenty-one variables starting at ten
    assert_eq!(after_first.id, 31);
}

/// Every builtin of the comparison-guarded family produces exactly
/// `If(guard, success, failure)` with a comparison guard and a bare problem
/// tag wrapped in the error constructor.
#[test]
fn safe_wrappers_share_one_tree_shape() {
    let family = [
        Symbol::NumRem,
        Symbol::NumDivFloat,
        Symbol::NumDivInt,
        Symbol::NumDivCeil,
        Symbol::NumSqrt,
        Symbol::NumLog,
        Symbol::NumBytesToU16,
        Symbol::NumBytesToU32,
        Symbol::ListGet,
        Symbol::ListFirst,
        Symbol::ListLast,
        Symbol::ListMin,
        Symbol::ListMax,
        Symbol::StrFromUtf8Range,
    ];
    for sym in family {
        let mut var_store = VarStore::new(10);
        let def = builtin_defs_map(sym, &mut var_store).unwrap();
        let body = match &def.body {
            Expr::Closure(cd) => &*cd.body,
            other => panic!("expected a closure body, found {:?}", other),
        };
        match body {
            Expr::If { branches, final_else, .. } => {
                assert_eq!(branches.len(), 1, "{:?}", sym);
                match &branches[0].0 {
                    Expr::RunLowLevel { op, .. } => assert!(
                        matches!(
                            op,
                            LowLevel::ValueEq
                                | LowLevel::ValueNotEq
                                | LowLevel::NumLt
                                | LowLevel::NumLte
                                | LowLevel::NumGt
                                | LowLevel::NumGte
                        ),
                        "guard of {:?} is not a comparison",
                        sym
                    ),
                    other => panic!("guard of {:?} is {:?}", sym, other),
                }
                match &**final_else {
                    Expr::Tag { name, arguments, .. } => {
                        assert_eq!(*name, TagName::ErrTag, "{:?}", sym);
                        match &arguments[0].1 {
                            Expr::Tag { name, arguments, .. } => {
                                assert_ne!(*name, TagName::ErrTag);
                                assert_ne!(*name, TagName::OkTag);
                                assert!(arguments.is_empty(), "{:?}", sym);
                            }
                            other => panic!("failure payload of {:?} is {:?}", sym, other),
                        }
                    }
                    other => panic!("failure branch of {:?} is {:?}", sym, other),
                }
            }
            other => panic!("body of {:?} is {:?}", sym, other),
        }
    }
}

fn collect_pattern_vars(p: &Pattern, out: &mut Vec<u32>) {
    match p {
        Pattern::Identifier(_) | Pattern::Underscore => {}
        Pattern::AppliedTag { whole_var, ext_var, arguments, .. } => {
            out.push(whole_var.id);
            out.push(ext_var.id);
            for (v, q) in arguments {
                out.push(v.id);
                collect_pattern_vars(q, out);
            }
        }
    }
}

fn collect_expr_vars(e: &Expr, out: &mut Vec<u32>) {
    match e {
        Expr::Var(_) | Expr::EmptyRecord => {}
        Expr::Num(v, _) => out.push(v.id),
        Expr::Int(a, b, _) | Expr::Float(a, b, _) => {
            out.push(a.id);
            out.push(b.id);
        }
        Expr::List { elem_var, elems } => {
            out.push(elem_var.id);
            for x in elems {
                collect_expr_vars(x, out);
            }
        }
        Expr::RunLowLevel { args, ret_var, .. } => {
            out.push(ret_var.id);
            for (v, x) in args {
                out.push(v.id);
                collect_expr_vars(x, out);
            }
        }
        Expr::If { cond_var, branch_var, branches, final_else } => {
            out.push(cond_var.id);
            out.push(branch_var.id);
            for (g, t) in branches {
                collect_expr_vars(g, out);
                collect_expr_vars(t, out);
            }
            collect_expr_vars(final_else, out);
        }
        Expr::When { cond_var, expr_var, cond, branches } => {
            out.push(cond_var.id);
            out.push(expr_var.id);
            collect_expr_vars(cond, out);
            for b in branches {
                for p in &b.patterns {
                    collect_pattern_vars(p, out);
                }
                collect_expr_vars(&b.value, out);
                if let Some(g) = &b.guard {
                    collect_expr_vars(g, out);
                }
            }
        }
        Expr::LetNonRec(d, k, v) => {
            collect_def_vars(d, out);
            collect_expr_vars(k, out);
            out.push(v.id);
        }
        Expr::Access { record_var, ext_var, field_var, record, .. } => {
            out.push(record_var.id);
            out.push(ext_var.id);
            out.push(field_var.id);
            collect_expr_vars(record, out);
        }
        Expr::Tag { variant_var, ext_var, arguments, .. } => {
            out.push(variant_var.id);
            out.push(ext_var.id);
            for (v, x) in arguments {
                out.push(v.id);
                collect_expr_vars(x, out);
            }
        }
        Expr::Closure(cd) => {
            out.push(cd.function_type.id);
            out.push(cd.closure_type.id);
            out.push(cd.closure_ext_var.id);
            out.push(cd.return_type.id);
            for (_, v) in &cd.captured_symbols {
                out.push(v.id);
            }
            for (v, p) in &cd.arguments {
                out.push(v.id);
                collect_pattern_vars(p, out);
            }
            collect_expr_vars(&cd.body, out);
        }
        Expr::Call { fn_var, fn_expr, closure_var, ret_var, args } => {
            out.push(fn_var.id);
            out.push(closure_var.id);
            out.push(ret_var.id);
            collect_expr_vars(fn_expr, out);
            for (v, x) in args {
                out.push(v.id);
                collect_expr_vars(x, out);
            }
        }
    }
}

fn collect_def_vars(d: &Def, out: &mut Vec<u32>) {
    collect_pattern_vars(&d.pattern, out);
    collect_expr_vars(&d.body, out);
    out.push(d.expr_var.id);
    for (_, v) in &d.pattern_vars {
        out.push(v.id);
    }
}

/// Every variable in a synthesized definition was freshly minted for that
/// call or belongs to the reserved set, so two syntheses on one allocator
/// share only reserved handles.
#[test]
fn definitions_share_only_reserved_handles() {
    for sym in SAMPLE {
        let mut var_store = VarStore::new(10);
        let first = builtin_defs_map(sym, &mut var_store).unwrap();
        let boundary = var_store.fresh().id;
        let second = builtin_defs_map(Symbol::ListGet, &mut var_store).unwrap();
        let mut vars_first = Vec::new();
        let mut vars_second = Vec::new();
        collect_def_vars(&first, &mut vars_first);
        collect_def_vars(&second, &mut vars_second);
        for v in &vars_first {
            assert!(*v < FIRST_USER_VAR || (10 <= *v && *v < boundary), "{:?}: {}", sym, v);
        }
        for v in &vars_second {
            if vars_first.contains(v) {
                assert!(*v < FIRST_USER_VAR, "shared minted handle {} after {:?}", v, sym);
            }
        }
    }
}
