//! The dispatcher covers every builtin identity and rejects every other
//! name.

use builtin_defs::dispatch::builtin_defs_map;
use builtin_defs::types::Pattern;
use builtin_defs::types::Symbol;
use builtin_defs::types::VarStore;

const ALL_BUILTINS: [Symbol; 142] = [
    Symbol::BoolEq,
    Symbol::BoolNeq,
    Symbol::BoolAnd,
    Symbol::BoolOr,
    Symbol::BoolNot,
    Symbol::StrConcat,
    Symbol::StrJoinWith,
    Symbol::StrSplit,
    Symbol::StrIsEmpty,
    Symbol::StrStartsWith,
    Symbol::StrStartsWithCodePt,
    Symbol::StrEndsWith,
    Symbol::StrCountGraphemes,
    Symbol::StrFromInt,
    Symbol::StrFromUtf8,
    Symbol::StrFromUtf8Range,
    Symbol::StrToUtf8,
    Symbol::StrFromFloat,
    Symbol::StrRepeat,
    Symbol::StrTrim,
    Symbol::ListLen,
    Symbol::ListGet,
    Symbol::ListSet,
    Symbol::ListAppend,
    Symbol::ListFirst,
    Symbol::ListLast,
    Symbol::ListIsEmpty,
    Symbol::ListSingle,
    Symbol::ListRepeat,
    Symbol::ListReverse,
    Symbol::ListConcat,
    Symbol::ListContains,
    Symbol::ListMin,
    Symbol::ListMax,
    Symbol::ListSum,
    Symbol::ListProduct,
    Symbol::ListPrepend,
    Symbol::ListJoin,
    Symbol::ListJoinMap,
    Symbol::ListMap,
    Symbol::ListMap2,
    Symbol::ListMap3,
    Symbol::ListMap4,
    Symbol::ListTakeFirst,
    Symbol::ListTakeLast,
    Symbol::ListDrop,
    Symbol::ListDropAt,
    Symbol::ListDropFirst,
    Symbol::ListDropLast,
    Symbol::ListSwap,
    Symbol::ListMapWithIndex,
    Symbol::ListKeepIf,
    Symbol::ListKeepOks,
    Symbol::ListKeepErrs,
    Symbol::ListRange,
    Symbol::ListWalk,
    Symbol::ListWalkBackwards,
    Symbol::ListWalkUntil,
    Symbol::ListSortWith,
    Symbol::ListAny,
    Symbol::ListFind,
    Symbol::DictLen,
    Symbol::DictEmpty,
    Symbol::DictSingle,
    Symbol::DictInsert,
    Symbol::DictRemove,
    Symbol::DictGet,
    Symbol::DictContains,
    Symbol::DictKeys,
    Symbol::DictValues,
    Symbol::DictUnion,
    Symbol::DictIntersection,
    Symbol::DictDifference,
    Symbol::DictWalk,
    Symbol::SetEmpty,
    Symbol::SetLen,
    Symbol::SetSingle,
    Symbol::SetUnion,
    Symbol::SetIntersection,
    Symbol::SetDifference,
    Symbol::SetToList,
    Symbol::SetFromList,
    Symbol::SetInsert,
    Symbol::SetRemove,
    Symbol::SetContains,
    Symbol::SetWalk,
    Symbol::NumAdd,
    Symbol::NumAddChecked,
    Symbol::NumAddWrap,
    Symbol::NumSub,
    Symbol::NumSubWrap,
    Symbol::NumSubChecked,
    Symbol::NumMul,
    Symbol::NumMulWrap,
    Symbol::NumMulChecked,
    Symbol::NumGt,
    Symbol::NumGte,
    Symbol::NumLt,
    Symbol::NumLte,
    Symbol::NumCompare,
    Symbol::NumSin,
    Symbol::NumCos,
    Symbol::NumTan,
    Symbol::NumDivFloat,
    Symbol::NumDivInt,
    Symbol::NumDivCeil,
    Symbol::NumAbs,
    Symbol::NumNeg,
    Symbol::NumRem,
    Symbol::NumIsMultipleOf,
    Symbol::NumSqrt,
    Symbol::NumLog,
    Symbol::NumRound,
    Symbol::NumIsOdd,
    Symbol::NumIsEven,
    Symbol::NumIsZero,
    Symbol::NumIsPositive,
    Symbol::NumIsNegative,
    Symbol::NumToFloat,
    Symbol::NumPow,
    Symbol::NumCeiling,
    Symbol::NumPowInt,
    Symbol::NumFloor,
    Symbol::NumAtan,
    Symbol::NumAcos,
    Symbol::NumAsin,
    Symbol::NumBytesToU16,
    Symbol::NumBytesToU32,
    Symbol::NumMaxInt,
    Symbol::NumMinInt,
    Symbol::NumBitwiseAnd,
    Symbol::NumBitwiseXor,
    Symbol::NumBitwiseOr,
    Symbol::NumShiftLeft,
    Symbol::NumShiftRight,
    Symbol::NumShiftRightZeroFill,
    Symbol::NumIntCast,
    Symbol::NumMaxI128,
    Symbol::ResultMap,
    Symbol::ResultMapErr,
    Symbol::ResultAfter,
    Symbol::ResultWithDefault,
];

const INTERNAL_NAMES: [Symbol; 14] = [
    Symbol::Arg1,
    Symbol::Arg2,
    Symbol::Arg3,
    Symbol::Arg4,
    Symbol::Arg5,
    Symbol::Arg6,
    Symbol::ListMinLt,
    Symbol::ListMaxGt,
    Symbol::ListSumAdd,
    Symbol::ListProductMul,
    Symbol::ListJoinMapConcat,
    Symbol::SetWalkUserFunction,
    Symbol::DictGetResult,
    Symbol::ListFindResult,
];

#[test]
fn every_builtin_identity_gets_a_definition() {
    let mut var_store = VarStore::new(100);
    for sym in ALL_BUILTINS {
        assert!(sym.is_builtin());
        let def = builtin_defs_map(sym, &mut var_store);
        assert!(def.is_some(), "missing definition for {:?}", sym);
    }
}

#[test]
fn non_builtin_names_get_no_definition() {
    for sym in INTERNAL_NAMES {
        let mut var_store = VarStore::new(100);
        assert!(!sym.is_builtin());
        assert!(builtin_defs_map(sym, &mut var_store).is_none());
    }
}

#[test]
fn rejection_leaves_the_allocator_untouched() {
    let mut var_store = VarStore::new(17);
    assert!(builtin_defs_map(Symbol::Arg1, &mut var_store).is_none());
    let v = var_store.fresh();
    assert_eq!(v.id, 17);
}

#[test]
fn synthesis_advances_the_allocator() {
    let mut var_store = VarStore::new(50);
    builtin_defs_map(Symbol::NumRem, &mut var_store).unwrap();
    // the remainder builtin mints sixteen variables
    let v = var_store.fresh();
    assert_eq!(v.id, 66);
}

#[test]
fn each_builtin_binds_its_own_identity() {
    let mut var_store = VarStore::new(100);
    for sym in ALL_BUILTINS {
        let def = builtin_defs_map(sym, &mut var_store).unwrap();
        match def.pattern {
            Pattern::Identifier(bound) => assert_eq!(bound, sym),
            ref other => panic!("unexpected binding pattern {:?}", other),
        }
    }
}
