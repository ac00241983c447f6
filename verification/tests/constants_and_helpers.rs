//! The constant builtins, the annotated 128-bit maximum, the reserved
//! handles, and a few helper-closure shapes.

use builtin_defs::dispatch::builtin_defs_map;
use builtin_defs::types::Annotation;
use builtin_defs::types::Expr;
use builtin_defs::types::FieldName;
use builtin_defs::types::LowLevel;
use builtin_defs::types::Pattern;
use builtin_defs::types::Symbol;
use builtin_defs::types::TagName;
use builtin_defs::types::VAR_EMPTY_RECORD;
use builtin_defs::types::VAR_NAT;
use builtin_defs::types::VarStore;

#[test]
fn max_int_is_a_plain_literal() {
    let mut var_store = VarStore::new(10);
    let def = builtin_defs_map(Symbol::NumMaxInt, &mut var_store).unwrap();
    assert!(def.annotation.is_none());
    match def.body {
        Expr::Int(_, _, value) => assert_eq!(value, i64::MAX as i128),
        other => panic!("expected an integer literal, found {:?}", other),
    }
}

#[test]
fn min_int_is_a_plain_literal() {
    let mut var_store = VarStore::new(10);
    let def = builtin_defs_map(Symbol::NumMinInt, &mut var_store).unwrap();
    assert!(def.annotation.is_none());
    match def.body {
        Expr::Int(_, _, value) => assert_eq!(value, i64::MIN as i128),
        other => panic!("expected an integer literal, found {:?}", other),
    }
}

#[test]
fn max_i128_pins_its_width_with_an_annotation() {
    let mut var_store = VarStore::new(10);
    let def = builtin_defs_map(Symbol::NumMaxI128, &mut var_store).unwrap();
    assert_eq!(def.annotation, Some(Annotation::PinnedInt128));
    match def.body {
        Expr::Int(_, _, value) => assert_eq!(value, i128::MAX),
        other => panic!("expected an integer literal, found {:?}", other),
    }
}

#[test]
fn empty_collections_are_direct_definitions() {
    for sym in [Symbol::DictEmpty, Symbol::SetEmpty] {
        let mut var_store = VarStore::new(10);
        let def = builtin_defs_map(sym, &mut var_store).unwrap();
        assert!(matches!(def.pattern, Pattern::Identifier(s) if s == sym));
        match &def.body {
            Expr::RunLowLevel { op, args, .. } => {
                assert_eq!(*op, LowLevel::DictEmpty);
                assert!(args.is_empty());
            }
            other => panic!("expected the empty opcode, found {:?}", other),
        }
    }
}

#[test]
fn set_insertion_supplies_the_empty_record_value() {
    let mut var_store = VarStore::new(10);
    let def = builtin_defs_map(Symbol::SetInsert, &mut var_store).unwrap();
    match &def.body {
        Expr::Closure(cd) => match &*cd.body {
            Expr::RunLowLevel { op, args, .. } => {
                assert_eq!(*op, LowLevel::DictInsert);
                assert_eq!(args[2].0.id, VAR_EMPTY_RECORD);
                assert!(matches!(args[2].1, Expr::EmptyRecord));
            }
            other => panic!("expected the insert opcode, found {:?}", other),
        },
        other => panic!("expected a closure, found {:?}", other),
    }
}

#[test]
fn list_length_uses_the_reserved_size_variable() {
    let mut var_store = VarStore::new(10);
    let def = builtin_defs_map(Symbol::ListIsEmpty, &mut var_store).unwrap();
    match &def.body {
        Expr::Closure(cd) => match &*cd.body {
            Expr::RunLowLevel { op, args, .. } => {
                assert_eq!(*op, LowLevel::ValueEq);
                assert_eq!(args[0].0.id, VAR_NAT);
            }
            other => panic!("expected the equality opcode, found {:?}", other),
        },
        other => panic!("expected a closure, found {:?}", other),
    }
}

#[test]
fn minimum_wraps_a_fold_seeded_with_the_first_element() {
    let mut var_store = VarStore::new(10);
    let def = builtin_defs_map(Symbol::ListMin, &mut var_store).unwrap();
    let body = match &def.body {
        Expr::Closure(cd) => &*cd.body,
        other => panic!("expected a closure, found {:?}", other),
    };
    match body {
        Expr::If { branches, final_else, .. } => {
            match &branches[0].1 {
                Expr::Tag { name, arguments, .. } => {
                    assert_eq!(*name, TagName::OkTag);
                    match &arguments[0].1 {
                        Expr::RunLowLevel { op, args, .. } => {
                            assert_eq!(*op, LowLevel::ListWalk);
                            assert!(matches!(
                                args[1].1,
                                Expr::RunLowLevel { op: LowLevel::ListGetUnsafe, .. }
                            ));
                            match &args[2].1 {
                                Expr::Closure(step) => {
                                    assert_eq!(step.name, Symbol::ListMinLt);
                                    match &*step.body {
                                        Expr::If { branches, .. } => {
                                            assert!(matches!(
                                                branches[0].0,
                                                Expr::RunLowLevel { op: LowLevel::NumLt, .. }
                                            ));
                                        }
                                        other => panic!("expected the pick, found {:?}", other),
                                    }
                                }
                                other => panic!("expected the step closure, found {:?}", other),
                            }
                        }
                        other => panic!("expected the fold, found {:?}", other),
                    }
                }
                other => panic!("expected the success wrap, found {:?}", other),
            }
            match &**final_else {
                Expr::Tag { arguments, .. } => assert!(matches!(
                    arguments[0].1,
                    Expr::Tag { name: TagName::ListWasEmpty, .. }
                )),
                other => panic!("expected the emptiness error, found {:?}", other),
            }
        }
        other => panic!("expected the safe wrapper, found {:?}", other),
    }
}

#[test]
fn sum_folds_from_zero_and_product_from_one() {
    for (sym, seed, step, op) in [
        (Symbol::ListSum, 0i64, Symbol::ListSumAdd, LowLevel::NumAdd),
        (Symbol::ListProduct, 1i64, Symbol::ListProductMul, LowLevel::NumMul),
    ] {
        let mut var_store = VarStore::new(10);
        let def = builtin_defs_map(sym, &mut var_store).unwrap();
        match &def.body {
            Expr::Closure(cd) => match &*cd.body {
                Expr::RunLowLevel { op: walk, args, .. } => {
                    assert_eq!(*walk, LowLevel::ListWalk);
                    assert!(matches!(args[1].1, Expr::Num(_, s) if s == seed));
                    match &args[2].1 {
                        Expr::Closure(stepc) => {
                            assert_eq!(stepc.name, step);
                            assert!(matches!(
                                &*stepc.body,
                                Expr::RunLowLevel { op: o, .. } if *o == op
                            ));
                        }
                        other => panic!("expected the step closure, found {:?}", other),
                    }
                }
                other => panic!("expected the fold, found {:?}", other),
            },
            other => panic!("expected a closure, found {:?}", other),
        }
    }
}

#[test]
fn utf8_range_checks_bounds_before_decoding() {
    let mut var_store = VarStore::new(10);
    let def = builtin_defs_map(Symbol::StrFromUtf8Range, &mut var_store).unwrap();
    let body = match &def.body {
        Expr::Closure(cd) => &*cd.body,
        other => panic!("expected a closure, found {:?}", other),
    };
    match body {
        Expr::If { branches, final_else, .. } => {
            match &branches[0].0 {
                Expr::RunLowLevel { op, args, .. } => {
                    assert_eq!(*op, LowLevel::NumLte);
                    match &args[0].1 {
                        Expr::RunLowLevel { op, args, .. } => {
                            assert_eq!(*op, LowLevel::NumAdd);
                            assert!(matches!(
                                &args[0].1,
                                Expr::Access { field: FieldName::Start, .. }
                            ));
                            assert!(matches!(
                                &args[1].1,
                                Expr::Access { field: FieldName::Count, .. }
                            ));
                        }
                        other => panic!("expected the range sum, found {:?}", other),
                    }
                }
                other => panic!("expected the range check, found {:?}", other),
            }
            match &branches[0].1 {
                Expr::LetNonRec(bind, cont, _) => {
                    assert!(matches!(
                        bind.body,
                        Expr::RunLowLevel { op: LowLevel::StrFromUtf8Range, .. }
                    ));
                    match &**cont {
                        Expr::If { branches, .. } => {
                            assert!(matches!(
                                &branches[0].0,
                                Expr::Access { field: FieldName::CIsOk, .. }
                            ));
                        }
                        other => panic!("expected the decode inspection, found {:?}", other),
                    }
                }
                other => panic!("expected the decode binding, found {:?}", other),
            }
            match &**final_else {
                Expr::Tag { arguments, .. } => assert!(matches!(
                    arguments[0].1,
                    Expr::Tag { name: TagName::OutOfBounds, .. }
                )),
                other => panic!("expected the bounds error, found {:?}", other),
            }
        }
        other => panic!("expected the outer wrapper, found {:?}", other),
    }
}

#[test]
fn whole_list_decoder_rewraps_the_failure_fields() {
    let mut var_store = VarStore::new(10);
    let def = builtin_defs_map(Symbol::StrFromUtf8, &mut var_store).unwrap();
    let body = match &def.body {
        Expr::Closure(cd) => &*cd.body,
        other => panic!("expected a closure, found {:?}", other),
    };
    match body {
        Expr::LetNonRec(_, cont, _) => match &**cont {
            Expr::If { final_else, .. } => match &**final_else {
                Expr::Tag { name, arguments, .. } => {
                    assert_eq!(*name, TagName::ErrTag);
                    match &arguments[0].1 {
                        Expr::Tag { name, arguments, .. } => {
                            assert_eq!(*name, TagName::BadUtf8);
                            assert!(matches!(
                                &arguments[0].1,
                                Expr::Access { field: FieldName::DProblem, .. }
                            ));
                            assert!(matches!(
                                &arguments[1].1,
                                Expr::Access { field: FieldName::AByteIndex, .. }
                            ));
                        }
                        other => panic!("expected the failure record, found {:?}", other),
                    }
                }
                other => panic!("expected the failure wrap, found {:?}", other),
            },
            other => panic!("expected the inspection, found {:?}", other),
        },
        other => panic!("expected the decode binding, found {:?}", other),
    }
}
