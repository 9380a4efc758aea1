//! Dynamic argument adapter.
//!
//! The engine's registration loop must run uniformly over its one native
//! numeric argument kind and an unbounded family of caller-defined kinds it
//! cannot know at compile time.  A caller-defined argument crosses the
//! boundary as an opaque data pointer plus a manual vtable of three
//! function pointers (clone, drop, print); here pointers are modeled as
//! tokens, and the print callback's output is part of the argument's model
//! value.  The path is chosen once, at registration, by a flag.

use vstd::prelude::*;

use crate::numfmt::dec_digits;

verus! {

/// The engine's one built-in numeric argument kind.
#[derive(Clone, Copy, PartialEq, Eq, Structural, Debug)]
pub struct LibDiolPlotArg {
    pub n: usize,
}

/// The manual vtable a caller supplies with an opaque argument: tokens
/// standing for the three foreign function pointers.
#[derive(Clone, Copy, PartialEq, Eq, Structural, Debug)]
pub struct ArgVTable {
    pub clone_fn: usize,
    pub drop_fn: usize,
    pub print_fn: usize,
}

/// A caller-defined argument: a token standing for the foreign data
/// pointer, its vtable, and the text its print callback yields for this
/// value.  Cloning through the vtable yields an independent value with the
/// same vtable and the same printed text.
pub struct OpaqueArg {
    pub data: usize,
    pub vtable: ArgVTable,
    pub display: Vec<u8>,
}

/// One registered argument set: either all numeric or all opaque, decided
/// by the caller's flag at registration time and never re-checked.
pub enum ArgSet {
    Numeric(Vec<LibDiolPlotArg>),
    Opaque(Vec<OpaqueArg>),
}

/// Number of arguments in the set.
pub open spec fn arg_count(s: ArgSet) -> nat {
    match s {
        ArgSet::Numeric(v) => v@.len(),
        ArgSet::Opaque(v) => v@.len(),
    }
}

/// The set takes the opaque path.
pub open spec fn is_opaque(s: ArgSet) -> bool {
    s is Opaque
}

/// The text the engine displays for argument `j`: the built-in decimal
/// formatter on the numeric path, the caller's print callback on the
/// opaque path.
pub open spec fn display_at(s: ArgSet, j: int) -> Seq<u8> {
    match s {
        ArgSet::Numeric(v) => dec_digits(v@[j].n as nat),
        ArgSet::Opaque(v) => v@[j].display@,
    }
}

impl ArgSet {
    /// Number of arguments in the set.
    pub fn len(&self) -> (r: usize)
        ensures
            r == arg_count(*self),
    {
        match self {
            ArgSet::Numeric(v) => v.len(),
            ArgSet::Opaque(v) => v.len(),
        }
    }

    /// Whether the set takes the opaque path.
    pub fn takes_opaque_path(&self) -> (r: bool)
        ensures
            r == is_opaque(*self),
    {
        match self {
            ArgSet::Numeric(_) => false,
            ArgSet::Opaque(_) => true,
        }
    }
}

} // verus!
