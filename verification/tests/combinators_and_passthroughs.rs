//! Combinator mirror images, search inspections, and the opcode each
//! passthrough forwards to.

use builtin_defs::dispatch::builtin_defs_map;
use builtin_defs::types::Expr;
use builtin_defs::types::FieldName;
use builtin_defs::types::LowLevel;
use builtin_defs::types::Pattern;
use builtin_defs::types::Symbol;
use builtin_defs::types::TagName;
use builtin_defs::types::VarStore;

fn body_of(sym: Symbol) -> Expr {
    let mut var_store = VarStore::new(10);
    let def = builtin_defs_map(sym, &mut var_store).unwrap();
    match def.body {
        Expr::Closure(cd) => *cd.body,
        other => panic!("expected a closure body for {:?}, found {:?}", sym, other),
    }
}

#[test]
fn passthroughs_forward_to_their_opcodes() {
    let table = [
        (Symbol::ListMap, LowLevel::ListMap, 2),
        (Symbol::ListMap2, LowLevel::ListMap2, 3),
        (Symbol::ListMap3, LowLevel::ListMap3, 4),
        (Symbol::ListMap4, LowLevel::ListMap4, 5),
        (Symbol::ListWalk, LowLevel::ListWalk, 3),
        (Symbol::ListSortWith, LowLevel::ListSortWith, 2),
        (Symbol::StrStartsWith, LowLevel::StrStartsWith, 2),
        (Symbol::StrTrim, LowLevel::StrTrim, 1),
        (Symbol::SetLen, LowLevel::DictSize, 1),
        (Symbol::SetToList, LowLevel::DictKeys, 1),
        (Symbol::SetRemove, LowLevel::DictRemove, 2),
        (Symbol::NumShiftLeft, LowLevel::NumShiftLeftBy, 2),
        (Symbol::NumIntCast, LowLevel::NumIntCast, 1),
    ];
    for (sym, expected_op, arity) in table {
        match body_of(sym) {
            Expr::RunLowLevel { op, args, .. } => {
                assert_eq!(op, expected_op, "{:?}", sym);
                assert_eq!(args.len(), arity, "{:?}", sym);
                for (i, arg) in args.iter().enumerate() {
                    let expected = [
                        Symbol::Arg1,
                        Symbol::Arg2,
                        Symbol::Arg3,
                        Symbol::Arg4,
                        Symbol::Arg5,
                    ][i];
                    assert!(
                        matches!(arg.1, Expr::Var(s) if s == expected),
                        "argument {} of {:?}",
                        i,
                        sym
                    );
                }
            }
            other => panic!("expected a passthrough for {:?}, found {:?}", sym, other),
        }
    }
}

#[test]
fn result_map_rewraps_and_passes_errors_through() {
    match body_of(Symbol::ResultMap) {
        Expr::When { branches, .. } => {
            match (&branches[0].patterns[0], &branches[0].value) {
                (
                    Pattern::AppliedTag { name: pat, .. },
                    Expr::Tag { name: out, arguments, .. },
                ) => {
                    assert_eq!(*pat, TagName::OkTag);
                    assert_eq!(*out, TagName::OkTag);
                    assert!(matches!(arguments[0].1, Expr::Call { .. }));
                }
                other => panic!("unexpected success arm {:?}", other),
            }
            match (&branches[1].patterns[0], &branches[1].value) {
                (
                    Pattern::AppliedTag { name: pat, .. },
                    Expr::Tag { name: out, arguments, .. },
                ) => {
                    assert_eq!(*pat, TagName::ErrTag);
                    assert_eq!(*out, TagName::ErrTag);
                    assert!(matches!(arguments[0].1, Expr::Var(Symbol::Arg4)));
                }
                other => panic!("unexpected failure arm {:?}", other),
            }
        }
        other => panic!("expected a two-arm match, found {:?}", other),
    }
}

#[test]
fn result_map_err_is_the_mirror_image() {
    match body_of(Symbol::ResultMapErr) {
        Expr::When { branches, .. } => {
            match &branches[0].patterns[0] {
                Pattern::AppliedTag { name, .. } => assert_eq!(*name, TagName::ErrTag),
                other => panic!("unexpected pattern {:?}", other),
            }
            assert!(matches!(
                &branches[0].value,
                Expr::Tag { name: TagName::ErrTag, .. }
            ));
            match &branches[1].patterns[0] {
                Pattern::AppliedTag { name, .. } => assert_eq!(*name, TagName::OkTag),
                other => panic!("unexpected pattern {:?}", other),
            }
        }
        other => panic!("expected a two-arm match, found {:?}", other),
    }
}

#[test]
fn result_after_does_not_rewrap_the_callback() {
    match body_of(Symbol::ResultAfter) {
        Expr::When { branches, .. } => {
            assert!(matches!(&branches[0].value, Expr::Call { .. }));
            assert!(matches!(
                &branches[1].value,
                Expr::Tag { name: TagName::ErrTag, .. }
            ));
        }
        other => panic!("expected a two-arm match, found {:?}", other),
    }
}

#[test]
fn list_find_inspects_the_found_flag() {
    match body_of(Symbol::ListFind) {
        Expr::LetNonRec(bind, cont, _) => {
            assert!(matches!(bind.pattern, Pattern::Identifier(Symbol::ListFindResult)));
            assert!(matches!(
                bind.body,
                Expr::RunLowLevel { op: LowLevel::ListFindUnsafe, .. }
            ));
            match *cont {
                Expr::If { branches, final_else, .. } => {
                    assert!(matches!(
                        &branches[0].0,
                        Expr::Access { field: FieldName::Found, .. }
                    ));
                    match &branches[0].1 {
                        Expr::Tag { name, arguments, .. } => {
                            assert_eq!(*name, TagName::OkTag);
                            assert!(matches!(
                                &arguments[0].1,
                                Expr::Access { field: FieldName::Value, .. }
                            ));
                        }
                        other => panic!("unexpected success branch {:?}", other),
                    }
                    assert!(matches!(
                        &*final_else,
                        Expr::Tag { name: TagName::ErrTag, .. }
                    ));
                }
                other => panic!("expected the inspection, found {:?}", other),
            }
        }
        other => panic!("expected the search binding, found {:?}", other),
    }
}

#[test]
fn dict_get_inspects_the_lookup_flag() {
    match body_of(Symbol::DictGet) {
        Expr::LetNonRec(bind, cont, _) => {
            assert!(matches!(bind.pattern, Pattern::Identifier(Symbol::DictGetResult)));
            assert!(matches!(
                bind.body,
                Expr::RunLowLevel { op: LowLevel::DictGetUnsafe, .. }
            ));
            match *cont {
                Expr::If { branches, .. } => {
                    assert!(matches!(
                        &branches[0].0,
                        Expr::Access { field: FieldName::Zflag, .. }
                    ));
                }
                other => panic!("expected the inspection, found {:?}", other),
            }
        }
        other => panic!("expected the lookup binding, found {:?}", other),
    }
}

#[test]
fn set_walk_wraps_the_user_function_and_ignores_values() {
    match body_of(Symbol::SetWalk) {
        Expr::RunLowLevel { op, args, .. } => {
            assert_eq!(op, LowLevel::DictWalk);
            match &args[2].1 {
                Expr::Closure(cd) => {
                    assert_eq!(cd.name, Symbol::SetWalkUserFunction);
                    assert_eq!(cd.captured_symbols[0].0, Symbol::Arg3);
                    assert_eq!(cd.arguments.len(), 3);
                    assert!(matches!(cd.arguments[2].1, Pattern::Underscore));
                    match &*cd.body {
                        Expr::Call { fn_expr, args, .. } => {
                            assert!(matches!(**fn_expr, Expr::Var(Symbol::Arg3)));
                            assert_eq!(args.len(), 2);
                        }
                        other => panic!("expected the forwarded call, found {:?}", other),
                    }
                }
                other => panic!("expected the wrapper closure, found {:?}", other),
            }
        }
        other => panic!("expected the walk opcode, found {:?}", other),
    }
}

#[test]
fn tangent_divides_sine_by_cosine() {
    match body_of(Symbol::NumTan) {
        Expr::RunLowLevel { op, args, .. } => {
            assert_eq!(op, LowLevel::NumDivUnchecked);
            assert!(matches!(
                args[0].1,
                Expr::RunLowLevel { op: LowLevel::NumSin, .. }
            ));
            assert!(matches!(
                args[1].1,
                Expr::RunLowLevel { op: LowLevel::NumCos, .. }
            ));
        }
        other => panic!("expected the division, found {:?}", other),
    }
}

#[test]
fn oddness_compares_a_remainder_against_one() {
    match body_of(Symbol::NumIsOdd) {
        Expr::RunLowLevel { op, args, .. } => {
            assert_eq!(op, LowLevel::ValueEq);
            assert!(matches!(args[0].1, Expr::Int(_, _, 1)));
            match &args[1].1 {
                Expr::RunLowLevel { op, args, .. } => {
                    assert_eq!(*op, LowLevel::NumRemUnchecked);
                    assert!(matches!(args[1].1, Expr::Num(_, 2)));
                }
                other => panic!("expected the remainder, found {:?}", other),
            }
        }
        other => panic!("expected the comparison, found {:?}", other),
    }
}

#[test]
fn bytes_decoding_offsets_differ_by_width() {
    for (sym, op, offset) in [
        (Symbol::NumBytesToU16, LowLevel::NumBytesToU16, 1),
        (Symbol::NumBytesToU32, LowLevel::NumBytesToU32, 3),
    ] {
        match body_of(sym) {
            Expr::If { branches, .. } => {
                match &branches[0].0 {
                    Expr::RunLowLevel { op: guard_op, args, .. } => {
                        assert_eq!(*guard_op, LowLevel::NumLt);
                        match &args[0].1 {
                            Expr::RunLowLevel { args, .. } => match &args[1].1 {
                                Expr::RunLowLevel { op: cast, args, .. } => {
                                    assert_eq!(*cast, LowLevel::NumIntCast);
                                    assert!(matches!(args[0].1, Expr::Num(_, o) if o == offset));
                                }
                                other => panic!("expected the cast, found {:?}", other),
                            },
                            other => panic!("expected the sum, found {:?}", other),
                        }
                    }
                    other => panic!("expected the bound check, found {:?}", other),
                }
                match &branches[0].1 {
                    Expr::Tag { arguments, .. } => assert!(matches!(
                        &arguments[0].1,
                        Expr::RunLowLevel { op: decoded, .. } if *decoded == op
                    )),
                    other => panic!("expected the decode, found {:?}", other),
                }
            }
            other => panic!("expected the wrapper, found {:?}", other),
        }
    }
}
