//! The builtin definition table: a total mapping from builtin identity to
//! its synthesis routine.
//!
//! The table covers every flagged builtin identity; any other name yields
//! the absence value rather than aborting, leaving it to the caller to turn
//! that into an unknown-identifier diagnostic. `builtin_def_rel` states, per
//! identity, the exact tree the routine produces as a function of the
//! allocator's starting counter, and `builtin_mint_count` how far the
//! counter advances.

use vstd::prelude::*;
use crate::types::Annotation;
use crate::types::Def;
use crate::types::Expr;
use crate::types::LowLevel;
use crate::types::Symbol;
use crate::types::TagName;
use crate::types::VarStore;
use crate::types::var_at;
use crate::builders::FRESH_BUDGET;
use crate::builders::annotated_def_shape;
use crate::builders::binop_other_shape;
use crate::builders::binop_shape;
use crate::builders::const_def_shape;
use crate::builders::op1_ret_first_shape;
use crate::builders::op2_ret_first_shape;
use crate::builders::passthrough_shape;
use crate::builders::unary_same_shape;

verus! {

/// How many variables synthesizing the given builtin mints; zero for names
/// that are not builtin identities.
pub open spec fn builtin_mint_count(sym: Symbol) -> int {
    match sym {
        Symbol::BoolEq => 6,
        Symbol::BoolNeq => 6,
        Symbol::BoolAnd => 6,
        Symbol::BoolOr => 5,
        Symbol::BoolNot => 5,
        Symbol::StrConcat => 5,
        Symbol::StrJoinWith => 6,
        Symbol::StrSplit => 6,
        Symbol::StrIsEmpty => 6,
        Symbol::StrStartsWith => 7,
        Symbol::StrStartsWithCodePt => 7,
        Symbol::StrEndsWith => 6,
        Symbol::StrCountGraphemes => 6,
        Symbol::StrFromInt => 6,
        Symbol::StrFromUtf8 => 26,
        Symbol::StrFromUtf8Range => 39,
        Symbol::StrToUtf8 => 6,
        Symbol::StrFromFloat => 6,
        Symbol::StrRepeat => 6,
        Symbol::StrTrim => 6,
        Symbol::ListLen => 6,
        Symbol::ListGet => 18,
        Symbol::ListSet => 9,
        Symbol::ListAppend => 6,
        Symbol::ListFirst => 17,
        Symbol::ListLast => 18,
        Symbol::ListIsEmpty => 6,
        Symbol::ListSingle => 6,
        Symbol::ListRepeat => 7,
        Symbol::ListReverse => 5,
        Symbol::ListConcat => 5,
        Symbol::ListContains => 7,
        Symbol::ListMin => 23,
        Symbol::ListMax => 23,
        Symbol::ListSum => 11,
        Symbol::ListProduct => 11,
        Symbol::ListPrepend => 6,
        Symbol::ListJoin => 6,
        Symbol::ListJoinMap => 13,
        Symbol::ListMap => 7,
        Symbol::ListMap2 => 8,
        Symbol::ListMap3 => 9,
        Symbol::ListMap4 => 10,
        Symbol::ListTakeFirst => 6,
        Symbol::ListTakeLast => 6,
        Symbol::ListDrop => 6,
        Symbol::ListDropAt => 6,
        Symbol::ListDropFirst => 6,
        Symbol::ListDropLast => 7,
        Symbol::ListSwap => 7,
        Symbol::ListMapWithIndex => 7,
        Symbol::ListKeepIf => 6,
        Symbol::ListKeepOks => 7,
        Symbol::ListKeepErrs => 7,
        Symbol::ListRange => 7,
        Symbol::ListWalk => 8,
        Symbol::ListWalkBackwards => 8,
        Symbol::ListWalkUntil => 8,
        Symbol::ListSortWith => 7,
        Symbol::ListAny => 7,
        Symbol::ListFind => 21,
        Symbol::DictLen => 5,
        Symbol::DictEmpty => 1,
        Symbol::DictSingle => 7,
        Symbol::DictInsert => 8,
        Symbol::DictRemove => 7,
        Symbol::DictGet => 21,
        Symbol::DictContains => 7,
        Symbol::DictKeys => 6,
        Symbol::DictValues => 6,
        Symbol::DictUnion => 7,
        Symbol::DictIntersection => 7,
        Symbol::DictDifference => 7,
        Symbol::DictWalk => 8,
        Symbol::SetEmpty => 1,
        Symbol::SetLen => 6,
        Symbol::SetSingle => 6,
        Symbol::SetUnion => 7,
        Symbol::SetIntersection => 7,
        Symbol::SetDifference => 7,
        Symbol::SetToList => 6,
        Symbol::SetFromList => 6,
        Symbol::SetInsert => 6,
        Symbol::SetRemove => 7,
        Symbol::SetContains => 7,
        Symbol::SetWalk => 12,
        Symbol::NumAdd => 5,
        Symbol::NumAddChecked => 21,
        Symbol::NumAddWrap => 5,
        Symbol::NumSub => 5,
        Symbol::NumSubWrap => 5,
        Symbol::NumSubChecked => 21,
        Symbol::NumMul => 5,
        Symbol::NumMulWrap => 5,
        Symbol::NumMulChecked => 21,
        Symbol::NumGt => 6,
        Symbol::NumGte => 6,
        Symbol::NumLt => 6,
        Symbol::NumLte => 6,
        Symbol::NumCompare => 6,
        Symbol::NumSin => 5,
        Symbol::NumCos => 5,
        Symbol::NumTan => 5,
        Symbol::NumDivFloat => 17,
        Symbol::NumDivInt => 17,
        Symbol::NumDivCeil => 17,
        Symbol::NumAbs => 5,
        Symbol::NumNeg => 5,
        Symbol::NumRem => 16,
        Symbol::NumIsMultipleOf => 7,
        Symbol::NumSqrt => 17,
        Symbol::NumLog => 17,
        Symbol::NumRound => 6,
        Symbol::NumIsOdd => 9,
        Symbol::NumIsEven => 7,
        Symbol::NumIsZero => 7,
        Symbol::NumIsPositive => 7,
        Symbol::NumIsNegative => 7,
        Symbol::NumToFloat => 6,
        Symbol::NumPow => 5,
        Symbol::NumCeiling => 6,
        Symbol::NumPowInt => 5,
        Symbol::NumFloor => 6,
        Symbol::NumAtan => 6,
        Symbol::NumAcos => 6,
        Symbol::NumAsin => 6,
        Symbol::NumBytesToU16 => 21,
        Symbol::NumBytesToU32 => 21,
        Symbol::NumMaxInt => 2,
        Symbol::NumMinInt => 2,
        Symbol::NumBitwiseAnd => 5,
        Symbol::NumBitwiseXor => 5,
        Symbol::NumBitwiseOr => 5,
        Symbol::NumShiftLeft => 7,
        Symbol::NumShiftRight => 7,
        Symbol::NumShiftRightZeroFill => 7,
        Symbol::NumIntCast => 6,
        Symbol::NumMaxI128 => 2,
        Symbol::ResultMap => 20,
        Symbol::ResultMapErr => 20,
        Symbol::ResultAfter => 17,
        Symbol::ResultWithDefault => 9,
        _ => 0,
    }
}

/// What the definition synthesized for `sym` looks like when the allocator's
/// counter starts at `c`: the exact tree, every minted variable pinned as an
/// offset from `c`. False for names that are not builtin identities.
pub open spec fn builtin_def_rel(sym: Symbol, c: int, d: Def) -> bool {
    match sym {
        Symbol::BoolEq => binop_other_shape(d, sym, LowLevel::ValueEq, c),
        Symbol::BoolNeq => binop_other_shape(d, sym, LowLevel::ValueNotEq, c),
        Symbol::BoolAnd => crate::bools::bool_and_shape(d, sym, c),
        Symbol::BoolOr => binop_shape(d, sym, LowLevel::BoolOr, c),
        Symbol::BoolNot => unary_same_shape(d, sym, LowLevel::BoolNot, c),
        Symbol::StrConcat => binop_shape(d, sym, LowLevel::StrConcat, c),
        Symbol::StrJoinWith => crate::strs::str_join_with_shape(d, sym, c),
        Symbol::StrSplit => binop_other_shape(d, sym, LowLevel::StrSplit, c),
        Symbol::StrIsEmpty => passthrough_shape(d, sym, LowLevel::StrIsEmpty, 1, c),
        Symbol::StrStartsWith => passthrough_shape(d, sym, LowLevel::StrStartsWith, 2, c),
        Symbol::StrStartsWithCodePt => passthrough_shape(d, sym, LowLevel::StrStartsWithCodePt, 2, c),
        Symbol::StrEndsWith => binop_other_shape(d, sym, LowLevel::StrEndsWith, c),
        Symbol::StrCountGraphemes => passthrough_shape(d, sym, LowLevel::StrCountGraphemes, 1, c),
        Symbol::StrFromInt => passthrough_shape(d, sym, LowLevel::StrFromInt, 1, c),
        Symbol::StrFromUtf8 => crate::strs::str_from_utf8_shape(d, sym, c),
        Symbol::StrFromUtf8Range => crate::strs::str_from_utf8_range_shape(d, sym, c),
        Symbol::StrToUtf8 => passthrough_shape(d, sym, LowLevel::StrToUtf8, 1, c),
        Symbol::StrFromFloat => passthrough_shape(d, sym, LowLevel::StrFromFloat, 1, c),
        Symbol::StrRepeat => op2_ret_first_shape(d, sym, LowLevel::StrRepeat, c),
        Symbol::StrTrim => passthrough_shape(d, sym, LowLevel::StrTrim, 1, c),
        Symbol::ListLen => op1_ret_first_shape(d, sym, LowLevel::ListLen, c),
        Symbol::ListGet => crate::lists::list_get_shape(d, sym, c),
        Symbol::ListSet => crate::lists::list_set_shape(d, sym, c),
        Symbol::ListAppend => op2_ret_first_shape(d, sym, LowLevel::ListAppend, c),
        Symbol::ListFirst => crate::lists::list_first_shape(d, sym, c),
        Symbol::ListLast => crate::lists::list_last_shape(d, sym, c),
        Symbol::ListIsEmpty => crate::lists::list_is_empty_shape(d, sym, c),
        Symbol::ListSingle => passthrough_shape(d, sym, LowLevel::ListSingle, 1, c),
        Symbol::ListRepeat => passthrough_shape(d, sym, LowLevel::ListRepeat, 2, c),
        Symbol::ListReverse => unary_same_shape(d, sym, LowLevel::ListReverse, c),
        Symbol::ListConcat => binop_shape(d, sym, LowLevel::ListConcat, c),
        Symbol::ListContains => passthrough_shape(d, sym, LowLevel::ListContains, 2, c),
        Symbol::ListMin => crate::lists::list_pick_shape(d, sym, Symbol::ListMinLt, LowLevel::NumLt, c),
        Symbol::ListMax => crate::lists::list_pick_shape(d, sym, Symbol::ListMaxGt, LowLevel::NumGt, c),
        Symbol::ListSum => crate::lists::fold_accum_shape(d, sym, Symbol::ListSumAdd, LowLevel::NumAdd, 0, c),
        Symbol::ListProduct => crate::lists::fold_accum_shape(d, sym, Symbol::ListProductMul, LowLevel::NumMul, 1, c),
        Symbol::ListPrepend => op2_ret_first_shape(d, sym, LowLevel::ListPrepend, c),
        Symbol::ListJoin => op1_ret_first_shape(d, sym, LowLevel::ListJoin, c),
        Symbol::ListJoinMap => crate::lists::list_join_map_shape(d, sym, c),
        Symbol::ListMap => passthrough_shape(d, sym, LowLevel::ListMap, 2, c),
        Symbol::ListMap2 => passthrough_shape(d, sym, LowLevel::ListMap2, 3, c),
        Symbol::ListMap3 => passthrough_shape(d, sym, LowLevel::ListMap3, 4, c),
        Symbol::ListMap4 => passthrough_shape(d, sym, LowLevel::ListMap4, 5, c),
        Symbol::ListTakeFirst => op2_ret_first_shape(d, sym, LowLevel::ListTakeFirst, c),
        Symbol::ListTakeLast => op2_ret_first_shape(d, sym, LowLevel::ListTakeLast, c),
        Symbol::ListDrop => op2_ret_first_shape(d, sym, LowLevel::ListDrop, c),
        Symbol::ListDropAt => op2_ret_first_shape(d, sym, LowLevel::ListDropAt, c),
        Symbol::ListDropFirst => crate::lists::list_drop_first_shape(d, sym, c),
        Symbol::ListDropLast => crate::lists::list_drop_last_shape(d, sym, c),
        Symbol::ListSwap => crate::lists::list_swap_shape(d, sym, c),
        Symbol::ListMapWithIndex => passthrough_shape(d, sym, LowLevel::ListMapWithIndex, 2, c),
        Symbol::ListKeepIf => op2_ret_first_shape(d, sym, LowLevel::ListKeepIf, c),
        Symbol::ListKeepOks => passthrough_shape(d, sym, LowLevel::ListKeepOks, 2, c),
        Symbol::ListKeepErrs => passthrough_shape(d, sym, LowLevel::ListKeepErrs, 2, c),
        Symbol::ListRange => passthrough_shape(d, sym, LowLevel::ListRange, 2, c),
        Symbol::ListWalk => passthrough_shape(d, sym, LowLevel::ListWalk, 3, c),
        Symbol::ListWalkBackwards => passthrough_shape(d, sym, LowLevel::ListWalkBackwards, 3, c),
        Symbol::ListWalkUntil => passthrough_shape(d, sym, LowLevel::ListWalkUntil, 3, c),
        Symbol::ListSortWith => passthrough_shape(d, sym, LowLevel::ListSortWith, 2, c),
        Symbol::ListAny => passthrough_shape(d, sym, LowLevel::ListAny, 2, c),
        Symbol::ListFind => crate::lists::list_find_shape(d, sym, c),
        Symbol::DictLen => crate::dicts::dict_len_shape(d, sym, c),
        Symbol::DictEmpty => crate::dicts::empty_collection_shape(d, sym, c),
        Symbol::DictSingle => crate::dicts::dict_single_shape(d, sym, c),
        Symbol::DictInsert => passthrough_shape(d, sym, LowLevel::DictInsert, 3, c),
        Symbol::DictRemove => passthrough_shape(d, sym, LowLevel::DictRemove, 2, c),
        Symbol::DictGet => crate::dicts::dict_get_shape(d, sym, c),
        Symbol::DictContains => passthrough_shape(d, sym, LowLevel::DictContains, 2, c),
        Symbol::DictKeys => passthrough_shape(d, sym, LowLevel::DictKeys, 1, c),
        Symbol::DictValues => passthrough_shape(d, sym, LowLevel::DictValues, 1, c),
        Symbol::DictUnion => passthrough_shape(d, sym, LowLevel::DictUnion, 2, c),
        Symbol::DictIntersection => passthrough_shape(d, sym, LowLevel::DictIntersection, 2, c),
        Symbol::DictDifference => passthrough_shape(d, sym, LowLevel::DictDifference, 2, c),
        Symbol::DictWalk => passthrough_shape(d, sym, LowLevel::DictWalk, 3, c),
        Symbol::SetEmpty => crate::dicts::empty_collection_shape(d, sym, c),
        Symbol::SetLen => passthrough_shape(d, sym, LowLevel::DictSize, 1, c),
        Symbol::SetSingle => crate::sets::set_single_shape(d, sym, c),
        Symbol::SetUnion => passthrough_shape(d, sym, LowLevel::DictUnion, 2, c),
        Symbol::SetIntersection => passthrough_shape(d, sym, LowLevel::DictIntersection, 2, c),
        Symbol::SetDifference => passthrough_shape(d, sym, LowLevel::DictDifference, 2, c),
        Symbol::SetToList => passthrough_shape(d, sym, LowLevel::DictKeys, 1, c),
        Symbol::SetFromList => passthrough_shape(d, sym, LowLevel::SetFromList, 1, c),
        Symbol::SetInsert => crate::sets::set_insert_shape(d, sym, c),
        Symbol::SetRemove => passthrough_shape(d, sym, LowLevel::DictRemove, 2, c),
        Symbol::SetContains => passthrough_shape(d, sym, LowLevel::DictContains, 2, c),
        Symbol::SetWalk => crate::sets::set_walk_shape(d, sym, c),
        Symbol::NumAdd => binop_shape(d, sym, LowLevel::NumAdd, c),
        Symbol::NumAddChecked => crate::nums::overflow_checked_shape(d, sym, LowLevel::NumAddChecked, c),
        Symbol::NumAddWrap => binop_shape(d, sym, LowLevel::NumAddWrap, c),
        Symbol::NumSub => binop_shape(d, sym, LowLevel::NumSub, c),
        Symbol::NumSubWrap => binop_shape(d, sym, LowLevel::NumSubWrap, c),
        Symbol::NumSubChecked => crate::nums::overflow_checked_shape(d, sym, LowLevel::NumSubChecked, c),
        Symbol::NumMul => binop_shape(d, sym, LowLevel::NumMul, c),
        Symbol::NumMulWrap => binop_shape(d, sym, LowLevel::NumMulWrap, c),
        Symbol::NumMulChecked => crate::nums::overflow_checked_shape(d, sym, LowLevel::NumMulChecked, c),
        Symbol::NumGt => binop_other_shape(d, sym, LowLevel::NumGt, c),
        Symbol::NumGte => binop_other_shape(d, sym, LowLevel::NumGte, c),
        Symbol::NumLt => binop_other_shape(d, sym, LowLevel::NumLt, c),
        Symbol::NumLte => binop_other_shape(d, sym, LowLevel::NumLte, c),
        Symbol::NumCompare => binop_other_shape(d, sym, LowLevel::NumCompare, c),
        Symbol::NumSin => unary_same_shape(d, sym, LowLevel::NumSin, c),
        Symbol::NumCos => unary_same_shape(d, sym, LowLevel::NumCos, c),
        Symbol::NumTan => crate::nums::num_tan_shape(d, sym, c),
        Symbol::NumDivFloat => crate::nums::div_like_shape(d, sym, LowLevel::NumDivUnchecked, Expr::Float(var_at(c + 2), var_at(c + 3), 0), c),
        Symbol::NumDivInt => crate::nums::div_like_shape(d, sym, LowLevel::NumDivUnchecked, Expr::Int(var_at(c + 2), var_at(c + 3), 0), c),
        Symbol::NumDivCeil => crate::nums::div_like_shape(d, sym, LowLevel::NumDivCeilUnchecked, Expr::Int(var_at(c + 2), var_at(c + 3), 0), c),
        Symbol::NumAbs => unary_same_shape(d, sym, LowLevel::NumAbs, c),
        Symbol::NumNeg => unary_same_shape(d, sym, LowLevel::NumNeg, c),
        Symbol::NumRem => crate::nums::num_rem_shape(d, sym, c),
        Symbol::NumIsMultipleOf => passthrough_shape(d, sym, LowLevel::NumIsMultipleOf, 2, c),
        Symbol::NumSqrt => crate::nums::guarded_unary_shape(d, sym, LowLevel::NumGte, LowLevel::NumSqrtUnchecked, TagName::SqrtOfNegative, c),
        Symbol::NumLog => crate::nums::guarded_unary_shape(d, sym, LowLevel::NumGt, LowLevel::NumLogUnchecked, TagName::LogNeedsPositive, c),
        Symbol::NumRound => passthrough_shape(d, sym, LowLevel::NumRound, 1, c),
        Symbol::NumIsOdd => crate::nums::num_is_odd_shape(d, sym, c),
        Symbol::NumIsEven => crate::nums::num_is_even_shape(d, sym, c),
        Symbol::NumIsZero => crate::nums::unary_cmp_shape(d, sym, LowLevel::ValueEq, (var_at(c), Expr::Var(Symbol::Arg1)), (var_at(c), Expr::Num(var_at(c + 2), 0)), c),
        Symbol::NumIsPositive => crate::nums::unary_cmp_shape(d, sym, LowLevel::NumGt, (var_at(c), Expr::Var(Symbol::Arg1)), (var_at(c), Expr::Num(var_at(c + 2), 0)), c),
        Symbol::NumIsNegative => crate::nums::unary_cmp_shape(d, sym, LowLevel::NumGt, (var_at(c), Expr::Num(var_at(c + 2), 0)), (var_at(c), Expr::Var(Symbol::Arg1)), c),
        Symbol::NumToFloat => passthrough_shape(d, sym, LowLevel::NumToFloat, 1, c),
        Symbol::NumPow => binop_shape(d, sym, LowLevel::NumPow, c),
        Symbol::NumCeiling => passthrough_shape(d, sym, LowLevel::NumCeiling, 1, c),
        Symbol::NumPowInt => binop_shape(d, sym, LowLevel::NumPowInt, c),
        Symbol::NumFloor => passthrough_shape(d, sym, LowLevel::NumFloor, 1, c),
        Symbol::NumAtan => passthrough_shape(d, sym, LowLevel::NumAtan, 1, c),
        Symbol::NumAcos => passthrough_shape(d, sym, LowLevel::NumAcos, 1, c),
        Symbol::NumAsin => passthrough_shape(d, sym, LowLevel::NumAsin, 1, c),
        Symbol::NumBytesToU16 => crate::nums::bytes_to_shape(d, sym, LowLevel::NumBytesToU16, 1, c),
        Symbol::NumBytesToU32 => crate::nums::bytes_to_shape(d, sym, LowLevel::NumBytesToU32, 3, c),
        Symbol::NumMaxInt => const_def_shape(d, sym, var_at(c), (|e: Expr| e == Expr::Int(var_at(c), var_at(c + 1), i64::MAX as i128))),
        Symbol::NumMinInt => const_def_shape(d, sym, var_at(c), (|e: Expr| e == Expr::Int(var_at(c), var_at(c + 1), i64::MIN as i128))),
        Symbol::NumBitwiseAnd => binop_shape(d, sym, LowLevel::NumBitwiseAnd, c),
        Symbol::NumBitwiseXor => binop_shape(d, sym, LowLevel::NumBitwiseXor, c),
        Symbol::NumBitwiseOr => binop_shape(d, sym, LowLevel::NumBitwiseOr, c),
        Symbol::NumShiftLeft => passthrough_shape(d, sym, LowLevel::NumShiftLeftBy, 2, c),
        Symbol::NumShiftRight => passthrough_shape(d, sym, LowLevel::NumShiftRightBy, 2, c),
        Symbol::NumShiftRightZeroFill => passthrough_shape(d, sym, LowLevel::NumShiftRightZfBy, 2, c),
        Symbol::NumIntCast => passthrough_shape(d, sym, LowLevel::NumIntCast, 1, c),
        Symbol::NumMaxI128 => annotated_def_shape(d, sym, var_at(c), Annotation::PinnedInt128, (|e: Expr| e == Expr::Int(var_at(c), var_at(c + 1), i128::MAX))),
        Symbol::ResultMap => crate::results::result_map_like_shape(d, sym, TagName::OkTag, TagName::ErrTag, c),
        Symbol::ResultMapErr => crate::results::result_map_like_shape(d, sym, TagName::ErrTag, TagName::OkTag, c),
        Symbol::ResultAfter => crate::results::result_after_shape(d, sym, c),
        Symbol::ResultWithDefault => crate::results::result_with_default_shape(d, sym, c),
        _ => false,
    }
}

/// Synthesize the definition of a builtin identity, minting the type
/// variables it needs from `var_store`; an unrecognized (non-builtin) name
/// yields the absence value and leaves the allocator untouched.
///
/// A definition is returned exactly for the names flagged as builtins, and
/// its tree is pinned, up to the allocator's starting counter, by
/// `builtin_def_rel`.
pub fn builtin_defs_map(symbol: Symbol, var_store: &mut VarStore) -> (r: Option<Def>)
    requires
        old(var_store)@ + FRESH_BUDGET as int <= u32::MAX as int,
    ensures
        r is Some <==> symbol.spec_is_builtin(),
        (r matches Some(d) ==> builtin_def_rel(symbol, old(var_store)@, d)
            && final(var_store)@ == old(var_store)@ + builtin_mint_count(symbol)),
        r is None ==> final(var_store)@ == old(var_store)@,
{
    match symbol {
        Symbol::BoolEq => Some(crate::bools::bool_eq(symbol, var_store)),
        Symbol::BoolNeq => Some(crate::bools::bool_neq(symbol, var_store)),
        Symbol::BoolAnd => Some(crate::bools::bool_and(symbol, var_store)),
        Symbol::BoolOr => Some(crate::bools::bool_or(symbol, var_store)),
        Symbol::BoolNot => Some(crate::bools::bool_not(symbol, var_store)),
        Symbol::StrConcat => Some(crate::strs::str_concat(symbol, var_store)),
        Symbol::StrJoinWith => Some(crate::strs::str_join_with(symbol, var_store)),
        Symbol::StrSplit => Some(crate::strs::str_split(symbol, var_store)),
        Symbol::StrIsEmpty => Some(crate::strs::str_is_empty(symbol, var_store)),
        Symbol::StrStartsWith => Some(crate::strs::str_starts_with(symbol, var_store)),
        Symbol::StrStartsWithCodePt => Some(crate::strs::str_starts_with_code_point(symbol, var_store)),
        Symbol::StrEndsWith => Some(crate::strs::str_ends_with(symbol, var_store)),
        Symbol::StrCountGraphemes => Some(crate::strs::str_count_graphemes(symbol, var_store)),
        Symbol::StrFromInt => Some(crate::strs::str_from_int(symbol, var_store)),
        Symbol::StrFromUtf8 => Some(crate::strs::str_from_utf8(symbol, var_store)),
        Symbol::StrFromUtf8Range => Some(crate::strs::str_from_utf8_range(symbol, var_store)),
        Symbol::StrToUtf8 => Some(crate::strs::str_to_utf8(symbol, var_store)),
        Symbol::StrFromFloat => Some(crate::strs::str_from_float(symbol, var_store)),
        Symbol::StrRepeat => Some(crate::strs::str_repeat(symbol, var_store)),
        Symbol::StrTrim => Some(crate::strs::str_trim(symbol, var_store)),
        Symbol::ListLen => Some(crate::lists::list_len(symbol, var_store)),
        Symbol::ListGet => Some(crate::lists::list_get(symbol, var_store)),
        Symbol::ListSet => Some(crate::lists::list_set(symbol, var_store)),
        Symbol::ListAppend => Some(crate::lists::list_append(symbol, var_store)),
        Symbol::ListFirst => Some(crate::lists::list_first(symbol, var_store)),
        Symbol::ListLast => Some(crate::lists::list_last(symbol, var_store)),
        Symbol::ListIsEmpty => Some(crate::lists::list_is_empty(symbol, var_store)),
        Symbol::ListSingle => Some(crate::lists::list_single(symbol, var_store)),
        Symbol::ListRepeat => Some(crate::lists::list_repeat(symbol, var_store)),
        Symbol::ListReverse => Some(crate::lists::list_reverse(symbol, var_store)),
        Symbol::ListConcat => Some(crate::lists::list_concat(symbol, var_store)),
        Symbol::ListContains => Some(crate::lists::list_contains(symbol, var_store)),
        Symbol::ListMin => Some(crate::lists::list_min(symbol, var_store)),
        Symbol::ListMax => Some(crate::lists::list_max(symbol, var_store)),
        Symbol::ListSum => Some(crate::lists::list_sum(symbol, var_store)),
        Symbol::ListProduct => Some(crate::lists::list_product(symbol, var_store)),
        Symbol::ListPrepend => Some(crate::lists::list_prepend(symbol, var_store)),
        Symbol::ListJoin => Some(crate::lists::list_join(symbol, var_store)),
        Symbol::ListJoinMap => Some(crate::lists::list_join_map(symbol, var_store)),
        Symbol::ListMap => Some(crate::lists::list_map(symbol, var_store)),
        Symbol::ListMap2 => Some(crate::lists::list_map2(symbol, var_store)),
        Symbol::ListMap3 => Some(crate::lists::list_map3(symbol, var_store)),
        Symbol::ListMap4 => Some(crate::lists::list_map4(symbol, var_store)),
        Symbol::ListTakeFirst => Some(crate::lists::list_take_first(symbol, var_store)),
        Symbol::ListTakeLast => Some(crate::lists::list_take_last(symbol, var_store)),
        Symbol::ListDrop => Some(crate::lists::list_drop(symbol, var_store)),
        Symbol::ListDropAt => Some(crate::lists::list_drop_at(symbol, var_store)),
        Symbol::ListDropFirst => Some(crate::lists::list_drop_first(symbol, var_store)),
        Symbol::ListDropLast => Some(crate::lists::list_drop_last(symbol, var_store)),
        Symbol::ListSwap => Some(crate::lists::list_swap(symbol, var_store)),
        Symbol::ListMapWithIndex => Some(crate::lists::list_map_with_index(symbol, var_store)),
        Symbol::ListKeepIf => Some(crate::lists::list_keep_if(symbol, var_store)),
        Symbol::ListKeepOks => Some(crate::lists::list_keep_oks(symbol, var_store)),
        Symbol::ListKeepErrs => Some(crate::lists::list_keep_errs(symbol, var_store)),
        Symbol::ListRange => Some(crate::lists::list_range(symbol, var_store)),
        Symbol::ListWalk => Some(crate::lists::list_walk(symbol, var_store)),
        Symbol::ListWalkBackwards => Some(crate::lists::list_walk_backwards(symbol, var_store)),
        Symbol::ListWalkUntil => Some(crate::lists::list_walk_until(symbol, var_store)),
        Symbol::ListSortWith => Some(crate::lists::list_sort_with(symbol, var_store)),
        Symbol::ListAny => Some(crate::lists::list_any(symbol, var_store)),
        Symbol::ListFind => Some(crate::lists::list_find(symbol, var_store)),
        Symbol::DictLen => Some(crate::dicts::dict_len(symbol, var_store)),
        Symbol::DictEmpty => Some(crate::dicts::dict_empty(symbol, var_store)),
        Symbol::DictSingle => Some(crate::dicts::dict_single(symbol, var_store)),
        Symbol::DictInsert => Some(crate::dicts::dict_insert(symbol, var_store)),
        Symbol::DictRemove => Some(crate::dicts::dict_remove(symbol, var_store)),
        Symbol::DictGet => Some(crate::dicts::dict_get(symbol, var_store)),
        Symbol::DictContains => Some(crate::dicts::dict_contains(symbol, var_store)),
        Symbol::DictKeys => Some(crate::dicts::dict_keys(symbol, var_store)),
        Symbol::DictValues => Some(crate::dicts::dict_values(symbol, var_store)),
        Symbol::DictUnion => Some(crate::dicts::dict_union(symbol, var_store)),
        Symbol::DictIntersection => Some(crate::dicts::dict_intersection(symbol, var_store)),
        Symbol::DictDifference => Some(crate::dicts::dict_difference(symbol, var_store)),
        Symbol::DictWalk => Some(crate::dicts::dict_walk(symbol, var_store)),
        Symbol::SetEmpty => Some(crate::sets::set_empty(symbol, var_store)),
        Symbol::SetLen => Some(crate::sets::set_len(symbol, var_store)),
        Symbol::SetSingle => Some(crate::sets::set_single(symbol, var_store)),
        Symbol::SetUnion => Some(crate::sets::set_union(symbol, var_store)),
        Symbol::SetIntersection => Some(crate::sets::set_intersection(symbol, var_store)),
        Symbol::SetDifference => Some(crate::sets::set_difference(symbol, var_store)),
        Symbol::SetToList => Some(crate::sets::set_to_list(symbol, var_store)),
        Symbol::SetFromList => Some(crate::sets::set_from_list(symbol, var_store)),
        Symbol::SetInsert => Some(crate::sets::set_insert(symbol, var_store)),
        Symbol::SetRemove => Some(crate::sets::set_remove(symbol, var_store)),
        Symbol::SetContains => Some(crate::sets::set_contains(symbol, var_store)),
        Symbol::SetWalk => Some(crate::sets::set_walk(symbol, var_store)),
        Symbol::NumAdd => Some(crate::nums::num_add(symbol, var_store)),
        Symbol::NumAddChecked => Some(crate::nums::num_add_checked(symbol, var_store)),
        Symbol::NumAddWrap => Some(crate::nums::num_add_wrap(symbol, var_store)),
        Symbol::NumSub => Some(crate::nums::num_sub(symbol, var_store)),
        Symbol::NumSubWrap => Some(crate::nums::num_sub_wrap(symbol, var_store)),
        Symbol::NumSubChecked => Some(crate::nums::num_sub_checked(symbol, var_store)),
        Symbol::NumMul => Some(crate::nums::num_mul(symbol, var_store)),
        Symbol::NumMulWrap => Some(crate::nums::num_mul_wrap(symbol, var_store)),
        Symbol::NumMulChecked => Some(crate::nums::num_mul_checked(symbol, var_store)),
        Symbol::NumGt => Some(crate::nums::num_gt(symbol, var_store)),
        Symbol::NumGte => Some(crate::nums::num_gte(symbol, var_store)),
        Symbol::NumLt => Some(crate::nums::num_lt(symbol, var_store)),
        Symbol::NumLte => Some(crate::nums::num_lte(symbol, var_store)),
        Symbol::NumCompare => Some(crate::nums::num_compare(symbol, var_store)),
        Symbol::NumSin => Some(crate::nums::num_sin(symbol, var_store)),
        Symbol::NumCos => Some(crate::nums::num_cos(symbol, var_store)),
        Symbol::NumTan => Some(crate::nums::num_tan(symbol, var_store)),
        Symbol::NumDivFloat => Some(crate::nums::num_div_float(symbol, var_store)),
        Symbol::NumDivInt => Some(crate::nums::num_div_int(symbol, var_store)),
        Symbol::NumDivCeil => Some(crate::nums::num_div_ceil(symbol, var_store)),
        Symbol::NumAbs => Some(crate::nums::num_abs(symbol, var_store)),
        Symbol::NumNeg => Some(crate::nums::num_neg(symbol, var_store)),
        Symbol::NumRem => Some(crate::nums::num_rem(symbol, var_store)),
        Symbol::NumIsMultipleOf => Some(crate::nums::num_is_multiple_of(symbol, var_store)),
        Symbol::NumSqrt => Some(crate::nums::num_sqrt(symbol, var_store)),
        Symbol::NumLog => Some(crate::nums::num_log(symbol, var_store)),
        Symbol::NumRound => Some(crate::nums::num_round(symbol, var_store)),
        Symbol::NumIsOdd => Some(crate::nums::num_is_odd(symbol, var_store)),
        Symbol::NumIsEven => Some(crate::nums::num_is_even(symbol, var_store)),
        Symbol::NumIsZero => Some(crate::nums::num_is_zero(symbol, var_store)),
        Symbol::NumIsPositive => Some(crate::nums::num_is_positive(symbol, var_store)),
        Symbol::NumIsNegative => Some(crate::nums::num_is_negative(symbol, var_store)),
        Symbol::NumToFloat => Some(crate::nums::num_to_float(symbol, var_store)),
        Symbol::NumPow => Some(crate::nums::num_pow(symbol, var_store)),
        Symbol::NumCeiling => Some(crate::nums::num_ceiling(symbol, var_store)),
        Symbol::NumPowInt => Some(crate::nums::num_pow_int(symbol, var_store)),
        Symbol::NumFloor => Some(crate::nums::num_floor(symbol, var_store)),
        Symbol::NumAtan => Some(crate::nums::num_atan(symbol, var_store)),
        Symbol::NumAcos => Some(crate::nums::num_acos(symbol, var_store)),
        Symbol::NumAsin => Some(crate::nums::num_asin(symbol, var_store)),
        Symbol::NumBytesToU16 => Some(crate::nums::num_bytes_to_u16(symbol, var_store)),
        Symbol::NumBytesToU32 => Some(crate::nums::num_bytes_to_u32(symbol, var_store)),
        Symbol::NumMaxInt => Some(crate::nums::num_max_int(symbol, var_store)),
        Symbol::NumMinInt => Some(crate::nums::num_min_int(symbol, var_store)),
        Symbol::NumBitwiseAnd => Some(crate::nums::num_bitwise_and(symbol, var_store)),
        Symbol::NumBitwiseXor => Some(crate::nums::num_bitwise_xor(symbol, var_store)),
        Symbol::NumBitwiseOr => Some(crate::nums::num_bitwise_or(symbol, var_store)),
        Symbol::NumShiftLeft => Some(crate::nums::num_shift_left_by(symbol, var_store)),
        Symbol::NumShiftRight => Some(crate::nums::num_shift_right_by(symbol, var_store)),
        Symbol::NumShiftRightZeroFill => Some(crate::nums::num_shift_right_zf_by(symbol, var_store)),
        Symbol::NumIntCast => Some(crate::nums::num_int_cast(symbol, var_store)),
        Symbol::NumMaxI128 => Some(crate::nums::num_max_i128(symbol, var_store)),
        Symbol::ResultMap => Some(crate::results::result_map(symbol, var_store)),
        Symbol::ResultMapErr => Some(crate::results::result_map_err(symbol, var_store)),
        Symbol::ResultAfter => Some(crate::results::result_after(symbol, var_store)),
        Symbol::ResultWithDefault => Some(crate::results::result_with_default(symbol, var_store)),
        Symbol::Arg1
        | Symbol::Arg2
        | Symbol::Arg3
        | Symbol::Arg4
        | Symbol::Arg5
        | Symbol::Arg6
        | Symbol::ListMinLt
        | Symbol::ListMaxGt
        | Symbol::ListSumAdd
        | Symbol::ListProductMul
        | Symbol::ListJoinMapConcat
        | Symbol::SetWalkUserFunction
        | Symbol::DictGetResult
        | Symbol::ListFindResult => None,
    }
}

} // verus!
