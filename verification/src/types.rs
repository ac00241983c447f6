//! The data model of builtin synthesis: interned symbols, type-variable
//! handles and their allocator, the low-level opcode catalog, canonical
//! expressions, patterns and definitions.

use vstd::prelude::*;

verus! {

/// Type-variable handles with an id below this bound are process-reserved:
/// they are shared by every synthesized definition instead of being minted
/// per call, so that certain type representations stay uniform.
pub const FIRST_USER_VAR: u32 = 3;

/// Reserved handle: the canonical collection-size integer type.
pub const VAR_NAT: u32 = 0;

/// Reserved handle: the precision of the collection-size integer type.
pub const VAR_NATURAL: u32 = 1;

/// Reserved handle: the empty record type.
pub const VAR_EMPTY_RECORD: u32 = 2;

/// An opaque type-variable handle. It carries no type of its own; the solver
/// assigns one later. Using the same handle in two positions forces the
/// solver to unify the types of those positions.
#[derive(Clone, Copy, PartialEq, Eq, Structural, Debug)]
pub struct Variable {
    pub id: u32,
}

/// The variable handle with the given id (spec-level shorthand).
pub open spec fn var_at(n: int) -> Variable {
    Variable { id: n as u32 }
}

/// Whether a handle belongs to the small process-reserved set.
pub open spec fn is_reserved_var(v: Variable) -> bool {
    v.id < FIRST_USER_VAR
}

/// The fresh-variable allocator: a counter minting unique handles on demand,
/// one instance per compilation. Its view is the id the next mint will use.
pub struct VarStore {
    next: u32,
}

impl View for VarStore {
    type V = int;

    closed spec fn view(&self) -> int {
        self.next as int
    }
}

impl VarStore {
    /// A fresh allocator whose first minted handle will be `next_var_id`.
    pub fn new(next_var_id: u32) -> (s: VarStore)
        requires
            FIRST_USER_VAR <= next_var_id,
        ensures
            s@ == next_var_id as int,
    {
        VarStore { next: next_var_id }
    }

    /// Mint one handle: the current counter value, which then advances.
    pub fn fresh(&mut self) -> (v: Variable)
        requires
            old(self)@ < u32::MAX as int,
        ensures
            v == var_at(old(self)@),
            final(self)@ == old(self)@ + 1,
    {
        let v = Variable { id: self.next };
        self.next = self.next + 1;
        v
    }
}

/// Interned names. The first group is the builtin identities the dispatcher
/// recognizes; the trailing group (from `Arg1` on) is the internal names used
/// inside synthesized bodies: positional parameters, let-bound intermediate
/// results, and the names of helper closures.
#[derive(Clone, Copy, PartialEq, Eq, Structural, Debug)]
pub enum Symbol {
    BoolEq,
    BoolNeq,
    BoolAnd,
    BoolOr,
    BoolNot,
    StrConcat,
    StrJoinWith,
    StrSplit,
    StrIsEmpty,
    StrStartsWith,
    StrStartsWithCodePt,
    StrEndsWith,
    StrCountGraphemes,
    StrFromInt,
    StrFromUtf8,
    StrFromUtf8Range,
    StrToUtf8,
    StrFromFloat,
    StrRepeat,
    StrTrim,
    ListLen,
    ListGet,
    ListSet,
    ListAppend,
    ListFirst,
    ListLast,
    ListIsEmpty,
    ListSingle,
    ListRepeat,
    ListReverse,
    ListConcat,
    ListContains,
    ListMin,
    ListMax,
    ListSum,
    ListProduct,
    ListPrepend,
    ListJoin,
    ListJoinMap,
    ListMap,
    ListMap2,
    ListMap3,
    ListMap4,
    ListTakeFirst,
    ListTakeLast,
    ListDrop,
    ListDropAt,
    ListDropFirst,
    ListDropLast,
    ListSwap,
    ListMapWithIndex,
    ListKeepIf,
    ListKeepOks,
    ListKeepErrs,
    ListRange,
    ListWalk,
    ListWalkBackwards,
    ListWalkUntil,
    ListSortWith,
    ListAny,
    ListFind,
    DictLen,
    DictEmpty,
    DictSingle,
    DictInsert,
    DictRemove,
    DictGet,
    DictContains,
    DictKeys,
    DictValues,
    DictUnion,
    DictIntersection,
    DictDifference,
    DictWalk,
    SetEmpty,
    SetLen,
    SetSingle,
    SetUnion,
    SetIntersection,
    SetDifference,
    SetToList,
    SetFromList,
    SetInsert,
    SetRemove,
    SetContains,
    SetWalk,
    NumAdd,
    NumAddChecked,
    NumAddWrap,
    NumSub,
    NumSubWrap,
    NumSubChecked,
    NumMul,
    NumMulWrap,
    NumMulChecked,
    NumGt,
    NumGte,
    NumLt,
    NumLte,
    NumCompare,
    NumSin,
    NumCos,
    NumTan,
    NumDivFloat,
    NumDivInt,
    NumDivCeil,
    NumAbs,
    NumNeg,
    NumRem,
    NumIsMultipleOf,
    NumSqrt,
    NumLog,
    NumRound,
    NumIsOdd,
    NumIsEven,
    NumIsZero,
    NumIsPositive,
    NumIsNegative,
    NumToFloat,
    NumPow,
    NumCeiling,
    NumPowInt,
    NumFloor,
    NumAtan,
    NumAcos,
    NumAsin,
    NumBytesToU16,
    NumBytesToU32,
    NumMaxInt,
    NumMinInt,
    NumBitwiseAnd,
    NumBitwiseXor,
    NumBitwiseOr,
    NumShiftLeft,
    NumShiftRight,
    NumShiftRightZeroFill,
    NumIntCast,
    NumMaxI128,
    ResultMap,
    ResultMapErr,
    ResultAfter,
    ResultWithDefault,
    Arg1,
    Arg2,
    Arg3,
    Arg4,
    Arg5,
    Arg6,
    ListMinLt,
    ListMaxGt,
    ListSumAdd,
    ListProductMul,
    ListJoinMapConcat,
    SetWalkUserFunction,
    DictGetResult,
    ListFindResult,
}

impl Symbol {
    /// Whether this name is flagged as a builtin identity, that is, one the
    /// definition table must cover. Internal names (positional parameters,
    /// let-bound results, helper-closure names) are not flagged.
    pub open spec fn spec_is_builtin(self) -> bool {
        match self {
            Symbol::Arg1 => false,
            Symbol::Arg2 => false,
            Symbol::Arg3 => false,
            Symbol::Arg4 => false,
            Symbol::Arg5 => false,
            Symbol::Arg6 => false,
            Symbol::ListMinLt => false,
            Symbol::ListMaxGt => false,
            Symbol::ListSumAdd => false,
            Symbol::ListProductMul => false,
            Symbol::ListJoinMapConcat => false,
            Symbol::SetWalkUserFunction => false,
            Symbol::DictGetResult => false,
            Symbol::ListFindResult => false,
            _ => true,
        }
    }

    /// Executable test for the builtin flag.
    #[verifier::when_used_as_spec(spec_is_builtin)]
    pub fn is_builtin(self) -> (b: bool)
        ensures
            b == self.spec_is_builtin(),
    {
        match self {
            Symbol::Arg1
            | Symbol::Arg2
            | Symbol::Arg3
            | Symbol::Arg4
            | Symbol::Arg5
            | Symbol::Arg6
            | Symbol::ListMinLt
            | Symbol::ListMaxGt
            | Symbol::ListSumAdd
            | Symbol::ListProductMul
            | Symbol::ListJoinMapConcat
            | Symbol::SetWalkUserFunction
            | Symbol::DictGetResult
            | Symbol::ListFindResult => false,
            _ => true,
        }
    }
}

/// The fixed catalog of low-level primitive opcodes. Each has a known arity
/// and a documented argument/return contract implemented directly by code
/// generation; this module threads variables through them without
/// interpreting their runtime behavior.
#[derive(Clone, Copy, PartialEq, Eq, Structural, Debug)]
pub enum LowLevel {
    ValueEq,
    ValueNotEq,
    BoolAnd,
    BoolOr,
    BoolNot,
    StrConcat,
    StrJoinWith,
    StrIsEmpty,
    StrStartsWith,
    StrStartsWithCodePt,
    StrEndsWith,
    StrCountGraphemes,
    StrFromInt,
    StrFromUtf8,
    StrFromUtf8Range,
    StrToUtf8,
    StrFromFloat,
    StrRepeat,
    StrTrim,
    StrSplit,
    ListLen,
    ListGetUnsafe,
    ListSet,
    ListSingle,
    ListRepeat,
    ListReverse,
    ListConcat,
    ListContains,
    ListAppend,
    ListPrepend,
    ListJoin,
    ListRange,
    ListMap,
    ListMap2,
    ListMap3,
    ListMap4,
    ListMapWithIndex,
    ListKeepIf,
    ListKeepOks,
    ListKeepErrs,
    ListWalk,
    ListWalkBackwards,
    ListWalkUntil,
    ListSortWith,
    ListAny,
    ListFindUnsafe,
    ListTakeFirst,
    ListTakeLast,
    ListDrop,
    ListDropAt,
    ListSwap,
    DictSize,
    DictEmpty,
    DictInsert,
    DictRemove,
    DictContains,
    DictGetUnsafe,
    DictKeys,
    DictValues,
    DictUnion,
    DictIntersection,
    DictDifference,
    DictWalk,
    SetFromList,
    NumAdd,
    NumAddWrap,
    NumAddChecked,
    NumSub,
    NumSubWrap,
    NumSubChecked,
    NumMul,
    NumMulWrap,
    NumMulChecked,
    NumGt,
    NumGte,
    NumLt,
    NumLte,
    NumCompare,
    NumDivUnchecked,
    NumDivCeilUnchecked,
    NumRemUnchecked,
    NumIsMultipleOf,
    NumAbs,
    NumNeg,
    NumSin,
    NumCos,
    NumSqrtUnchecked,
    NumLogUnchecked,
    NumRound,
    NumToFloat,
    NumPow,
    NumCeiling,
    NumPowInt,
    NumFloor,
    NumAtan,
    NumAcos,
    NumAsin,
    NumBytesToU16,
    NumBytesToU32,
    NumBitwiseAnd,
    NumBitwiseXor,
    NumBitwiseOr,
    NumShiftLeftBy,
    NumShiftRightBy,
    NumShiftRightZfBy,
    NumIntCast,
}

/// Names of tagged-union variants constructed by synthesized code. The
/// unions these tags inhabit stay open: the solver may extend them, which is
/// the reason builtins are synthesized instead of hard-coded.
#[derive(Clone, Copy, PartialEq, Eq, Structural, Debug)]
pub enum TagName {
    OkTag,
    ErrTag,
    Overflow,
    DivByZero,
    OutOfBounds,
    ListWasEmpty,
    SqrtOfNegative,
    LogNeedsPositive,
    BadUtf8,
    NotFound,
    KeyNotFound,
}

/// Field names used to read records. The letter-coded ones read a low-level
/// opcode's anonymous-record result; they are a fixed positional contract
/// with that opcode, not free-form labels.
#[derive(Clone, Copy, PartialEq, Eq, Structural, Debug)]
pub enum FieldName {
    /// Checked arithmetic result: the computed value.
    A,
    /// Checked arithmetic result: the overflow flag.
    B,
    /// Text decoding result: the failure byte offset.
    AByteIndex,
    /// Text decoding result: the decoded text.
    BStr,
    /// Text decoding result: the success flag.
    CIsOk,
    /// Text decoding result: the failure-kind code.
    DProblem,
    /// Byte-range argument record: the start offset.
    Start,
    /// Byte-range argument record: the element count.
    Count,
    /// Search result record: the value found.
    Value,
    /// Search result record: the success flag.
    Found,
    /// Lookup result record: the success flag.
    Zflag,
}

/// Whether a synthesized closure calls itself. Every closure built here is
/// non-recursive.
#[derive(Clone, Copy, PartialEq, Eq, Structural, Debug)]
pub enum Recursive {
    Recursive,
    NotRecursive,
}

/// Patterns, used both as binding sites of definitions and as match arms.
#[derive(Debug)]
pub enum Pattern {
    Identifier(Symbol),
    Underscore,
    AppliedTag { whole_var: Variable, ext_var: Variable, name: TagName, arguments: Vec<(Variable, Pattern)> },
}

/// A function closure: parameter list, optional bindings captured from the
/// enclosing scope, and a body.
#[derive(Debug)]
pub struct ClosureData {
    pub function_type: Variable,
    pub closure_type: Variable,
    pub closure_ext_var: Variable,
    pub return_type: Variable,
    pub name: Symbol,
    pub recursive: Recursive,
    pub captured_symbols: Vec<(Symbol, Variable)>,
    pub arguments: Vec<(Variable, Pattern)>,
    pub body: Box<Expr>,
}

/// One arm of a multi-branch pattern match.
#[derive(Debug)]
pub struct WhenBranch {
    pub patterns: Vec<Pattern>,
    pub value: Expr,
    pub guard: Option<Expr>,
}

/// A canonical expression. Literal nodes keep their numeric value; the float
/// literal is stored by its integer value, every float literal synthesized
/// here being whole-valued.
#[derive(Debug)]
pub enum Expr {
    /// A reference to a name in scope.
    Var(Symbol),
    /// A number literal of yet-unresolved width.
    Num(Variable, i64),
    /// An integer literal: its type variable, precision variable and value.
    Int(Variable, Variable, i128),
    /// A float literal: its type variable, precision variable and (whole)
    /// value.
    Float(Variable, Variable, i128),
    /// The empty record value.
    EmptyRecord,
    /// A list literal.
    List { elem_var: Variable, elems: Vec<Expr> },
    /// A call of a low-level opcode: ordered (variable, argument) pairs and
    /// one result variable. Argument order is the opcode's fixed contract.
    RunLowLevel { op: LowLevel, args: Vec<(Variable, Expr)>, ret_var: Variable },
    /// A conditional: ordered (guard, branch) pairs and a mandatory else.
    If { cond_var: Variable, branch_var: Variable, branches: Vec<(Expr, Expr)>, final_else: Box<Expr> },
    /// A pattern match over ordered arms.
    When { cond_var: Variable, expr_var: Variable, cond: Box<Expr>, branches: Vec<WhenBranch> },
    /// A non-recursive let: one definition, then a continuation.
    LetNonRec(Box<Def>, Box<Expr>, Variable),
    /// Reading one field of a record.
    Access { record_var: Variable, ext_var: Variable, field: FieldName, field_var: Variable, record: Box<Expr> },
    /// Construction of a tagged-union variant.
    Tag { variant_var: Variable, ext_var: Variable, name: TagName, arguments: Vec<(Variable, Expr)> },
    /// A function closure.
    Closure(ClosureData),
    /// Application of a closure-valued expression to arguments.
    Call { fn_var: Variable, fn_expr: Box<Expr>, closure_var: Variable, ret_var: Variable, args: Vec<(Variable, Expr)> },
}

/// The explicit type signature attached to a definition whose type cannot be
/// reconstructed from its body alone. The one such definition in the table
/// is the 128-bit integer maximum, whose literal width must be pinned rather
/// than inferred; the signature comes from the pre-solved builtin signature
/// table that this module reads but does not own.
#[derive(Clone, Copy, PartialEq, Eq, Structural, Debug)]
pub enum Annotation {
    PinnedInt128,
}

/// A top-level definition: a binding pattern, a body, the body's type
/// variable, the variables bound by the pattern, and an optional explicit
/// annotation.
#[derive(Debug)]
pub struct Def {
    pub pattern: Pattern,
    pub body: Expr,
    pub expr_var: Variable,
    pub pattern_vars: Vec<(Symbol, Variable)>,
    pub annotation: Option<Annotation>,
}

} // verus!
