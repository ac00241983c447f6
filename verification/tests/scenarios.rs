//! Whole-tree scenarios: the synthesized definitions of representative
//! builtins, checked node by node.

use builtin_defs::dispatch::builtin_defs_map;
use builtin_defs::types::Def;
use builtin_defs::types::Expr;
use builtin_defs::types::FieldName;
use builtin_defs::types::LowLevel;
use builtin_defs::types::Pattern;
use builtin_defs::types::Symbol;
use builtin_defs::types::TagName;
use builtin_defs::types::VarStore;

/// The closure body of a synthesized definition.
fn body_of(def: &Def) -> &Expr {
    match &def.body {
        Expr::Closure(cd) => &cd.body,
        other => panic!("expected a closure body, found {:?}", other),
    }
}

/// Checked addition: bind the primitive's (value, overflow) record, then
/// `If(overflow, Err(Overflow), Ok(value))`.
#[test]
fn checked_addition_guards_on_the_overflow_flag() {
    let mut var_store = VarStore::new(10);
    let def = builtin_defs_map(Symbol::NumAddChecked, &mut var_store).unwrap();
    match body_of(&def) {
        Expr::LetNonRec(bind, cont, _) => {
            assert!(matches!(bind.pattern, Pattern::Identifier(Symbol::Arg3)));
            match &bind.body {
                Expr::RunLowLevel { op, args, .. } => {
                    assert_eq!(*op, LowLevel::NumAddChecked);
                    assert!(matches!(args[0].1, Expr::Var(Symbol::Arg1)));
                    assert!(matches!(args[1].1, Expr::Var(Symbol::Arg2)));
                }
                other => panic!("expected the checked opcode, found {:?}", other),
            }
            match &**cont {
                Expr::If { branches, final_else, .. } => {
                    assert_eq!(branches.len(), 1);
                    match &branches[0].0 {
                        Expr::Access { field, record, .. } => {
                            assert_eq!(*field, FieldName::B);
                            assert!(matches!(**record, Expr::Var(Symbol::Arg3)));
                        }
                        other => panic!("expected the overflow-flag read, found {:?}", other),
                    }
                    match &branches[0].1 {
                        Expr::Tag { name, arguments, .. } => {
                            assert_eq!(*name, TagName::ErrTag);
                            assert!(matches!(
                                arguments[0].1,
                                Expr::Tag { name: TagName::Overflow, .. }
                            ));
                        }
                        other => panic!("expected the overflow error, found {:?}", other),
                    }
                    match &**final_else {
                        Expr::Tag { name, arguments, .. } => {
                            assert_eq!(*name, TagName::OkTag);
                            match &arguments[0].1 {
                                Expr::Access { field, .. } => assert_eq!(*field, FieldName::A),
                                other => panic!("expected the value read, found {:?}", other),
                            }
                        }
                        other => panic!("expected the success wrap, found {:?}", other),
                    }
                }
                other => panic!("expected the guarding conditional, found {:?}", other),
            }
        }
        other => panic!("expected a binding of the checked result, found {:?}", other),
    }
}

/// Indexed access: `If(index < length(list), Ok(unchecked get), Err(OutOfBounds))`.
#[test]
fn indexed_access_bounds_checks_then_delegates() {
    let mut var_store = VarStore::new(10);
    let def = builtin_defs_map(Symbol::ListGet, &mut var_store).unwrap();
    match body_of(&def) {
        Expr::If { branches, final_else, .. } => {
            assert_eq!(branches.len(), 1);
            match &branches[0].0 {
                Expr::RunLowLevel { op, args, .. } => {
                    assert_eq!(*op, LowLevel::NumLt);
                    assert!(matches!(args[0].1, Expr::Var(Symbol::Arg2)));
                    match &args[1].1 {
                        Expr::RunLowLevel { op, args, .. } => {
                            assert_eq!(*op, LowLevel::ListLen);
                            assert!(matches!(args[0].1, Expr::Var(Symbol::Arg1)));
                        }
                        other => panic!("expected the length call, found {:?}", other),
                    }
                }
                other => panic!("expected the bounds comparison, found {:?}", other),
            }
            match &branches[0].1 {
                Expr::Tag { name, arguments, .. } => {
                    assert_eq!(*name, TagName::OkTag);
                    match &arguments[0].1 {
                        Expr::RunLowLevel { op, args, .. } => {
                            assert_eq!(*op, LowLevel::ListGetUnsafe);
                            assert!(matches!(args[0].1, Expr::Var(Symbol::Arg1)));
                            assert!(matches!(args[1].1, Expr::Var(Symbol::Arg2)));
                        }
                        other => panic!("expected the unchecked access, found {:?}", other),
                    }
                }
                other => panic!("expected the success wrap, found {:?}", other),
            }
            match &**final_else {
                Expr::Tag { name, arguments, .. } => {
                    assert_eq!(*name, TagName::ErrTag);
                    assert!(matches!(
                        arguments[0].1,
                        Expr::Tag { name: TagName::OutOfBounds, .. }
                    ));
                }
                other => panic!("expected the out-of-bounds error, found {:?}", other),
            }
        }
        other => panic!("expected the safe wrapper, found {:?}", other),
    }
}

/// Result-default: the two-arm match `Ok(x) -> x; Err(_) -> default`.
#[test]
fn result_default_matches_two_arms() {
    let mut var_store = VarStore::new(10);
    let def = builtin_defs_map(Symbol::ResultWithDefault, &mut var_store).unwrap();
    match body_of(&def) {
        Expr::When { cond, branches, .. } => {
            assert!(matches!(**cond, Expr::Var(Symbol::Arg1)));
            assert_eq!(branches.len(), 2);
            match &branches[0].patterns[0] {
                Pattern::AppliedTag { name, arguments, .. } => {
                    assert_eq!(*name, TagName::OkTag);
                    assert!(matches!(arguments[0].1, Pattern::Identifier(Symbol::Arg3)));
                }
                other => panic!("expected the success arm pattern, found {:?}", other),
            }
            assert!(matches!(branches[0].value, Expr::Var(Symbol::Arg3)));
            assert!(branches[0].guard.is_none());
            match &branches[1].patterns[0] {
                Pattern::AppliedTag { name, arguments, .. } => {
                    assert_eq!(*name, TagName::ErrTag);
                    assert!(matches!(arguments[0].1, Pattern::Underscore));
                }
                other => panic!("expected the failure arm pattern, found {:?}", other),
            }
            assert!(matches!(branches[1].value, Expr::Var(Symbol::Arg2)));
            assert!(branches[1].guard.is_none());
        }
        other => panic!("expected the two-arm match, found {:?}", other),
    }
}

/// Join-map: a fold over the input seeded with an empty collection, whose
/// step closure applies the user mapper and concatenates onto the
/// accumulator.
#[test]
fn join_map_folds_with_a_concatenating_closure() {
    let mut var_store = VarStore::new(10);
    let def = builtin_defs_map(Symbol::ListJoinMap, &mut var_store).unwrap();
    match body_of(&def) {
        Expr::RunLowLevel { op, args, .. } => {
            assert_eq!(*op, LowLevel::ListWalk);
            assert!(matches!(args[0].1, Expr::Var(Symbol::Arg1)));
            match &args[1].1 {
                Expr::List { elems, .. } => assert!(elems.is_empty()),
                other => panic!("expected the empty-list seed, found {:?}", other),
            }
            match &args[2].1 {
                Expr::Closure(cd) => {
                    assert_eq!(cd.name, Symbol::ListJoinMapConcat);
                    assert_eq!(cd.captured_symbols[0].0, Symbol::Arg2);
                    match &*cd.body {
                        Expr::RunLowLevel { op, args, .. } => {
                            assert_eq!(*op, LowLevel::ListConcat);
                            assert!(matches!(args[0].1, Expr::Var(Symbol::Arg3)));
                            match &args[1].1 {
                                Expr::Call { fn_expr, args, .. } => {
                                    assert!(matches!(**fn_expr, Expr::Var(Symbol::Arg2)));
                                    assert!(matches!(args[0].1, Expr::Var(Symbol::Arg4)));
                                }
                                other => panic!("expected the mapper call, found {:?}", other),
                            }
                        }
                        other => panic!("expected the concatenation, found {:?}", other),
                    }
                }
                other => panic!("expected the step closure, found {:?}", other),
            }
        }
        other => panic!("expected the fold, found {:?}", other),
    }
}

/// Division: `If(denominator != 0, Ok(uncheckedDiv(n, d)), Err(DivByZero))`.
#[test]
fn division_guards_against_a_zero_denominator() {
    let mut var_store = VarStore::new(10);
    let def = builtin_defs_map(Symbol::NumDivInt, &mut var_store).unwrap();
    match body_of(&def) {
        Expr::If { branches, final_else, .. } => {
            assert_eq!(branches.len(), 1);
            match &branches[0].0 {
                Expr::RunLowLevel { op, args, .. } => {
                    assert_eq!(*op, LowLevel::ValueNotEq);
                    assert!(matches!(args[0].1, Expr::Var(Symbol::Arg2)));
                    assert!(matches!(args[1].1, Expr::Int(_, _, 0)));
                }
                other => panic!("expected the zero comparison, found {:?}", other),
            }
            match &branches[0].1 {
                Expr::Tag { name, arguments, .. } => {
                    assert_eq!(*name, TagName::OkTag);
                    match &arguments[0].1 {
                        Expr::RunLowLevel { op, args, .. } => {
                            assert_eq!(*op, LowLevel::NumDivUnchecked);
                            assert!(matches!(args[0].1, Expr::Var(Symbol::Arg1)));
                            assert!(matches!(args[1].1, Expr::Var(Symbol::Arg2)));
                        }
                        other => panic!("expected the unchecked division, found {:?}", other),
                    }
                }
                other => panic!("expected the success wrap, found {:?}", other),
            }
            match &**final_else {
                Expr::Tag { name, arguments, .. } => {
                    assert_eq!(*name, TagName::ErrTag);
                    assert!(matches!(
                        arguments[0].1,
                        Expr::Tag { name: TagName::DivByZero, .. }
                    ));
                }
                other => panic!("expected the division error, found {:?}", other),
            }
        }
        other => panic!("expected the safe wrapper, found {:?}", other),
    }
}

/// Generic equality deliberately aliases one variable across both operands,
/// so that comparing two values forces the solver to unify their types.
#[test]
fn equality_unifies_its_operand_types() {
    let mut var_store = VarStore::new(10);
    let def = builtin_defs_map(Symbol::BoolEq, &mut var_store).unwrap();
    match body_of(&def) {
        Expr::RunLowLevel { op, args, .. } => {
            assert_eq!(*op, LowLevel::ValueEq);
            assert_eq!(args[0].0, args[1].0);
        }
        other => panic!("expected the equality opcode, found {:?}", other),
    }
}
