//! Synthesis of compiler-internal definitions for standard-library builtins.
//!
//! A builtin whose result type involves an open tagged union (for example an
//! error variant that later unification may extend) cannot be emitted directly
//! by code generation: the numeric tag of each variant depends on alphabetical
//! ordering after unification with the rest of the program. Such builtins are
//! therefore expressed as ordinary canonical definitions, assembled here from a
//! fixed catalog of low-level opcodes plus generic control flow, so that they
//! run through type inference like user-written code.
//!
//! The crate models the data that synthesis reads and produces: interned
//! symbols, fresh type-variable handles, the opcode catalog, canonical
//! expressions and definitions. `dispatch::builtin_defs_map` is the entry
//! point: it maps a builtin identity and a fresh-variable allocator to the
//! synthesized definition.

pub mod types;
pub mod builders;
pub mod bools;
pub mod nums;
pub mod strs;
pub mod lists;
pub mod dicts;
pub mod sets;
pub mod results;
pub mod dispatch;
pub mod alpha;
