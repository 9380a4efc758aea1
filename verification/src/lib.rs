//! Verified model of a C-callable boundary around an in-process benchmarking
//! engine.
//!
//! The boundary converts untyped handles, wire-format strings and
//! caller-supplied function-pointer triples into the engine's typed model and
//! back.  This crate verifies the decisions the boundary makes: how borrowed
//! strings are classified and validated, how numeric and opaque argument sets
//! are registered, how the run plan (the cartesian product of functions and
//! arguments) is built, and how adapter clone/drop bookkeeping stays balanced.

use vstd::prelude::*;

pub mod args;
pub mod bench;
pub mod config;
pub mod numfmt;
pub mod text;

pub use args::LibDiolPlotArg;
pub use bench::LibDiolBench;
pub use bench::LibDiolBencher;
pub use bench::LibDiolResult;
pub use config::LibDiolConfig;
pub use config::LibDiolMonotonicity;
pub use config::LibDiolPlotColors;

verus! {

/// Runs `f` to completion and returns its result unchanged.
///
/// At the foreign boundary every entry point must guarantee that no unwind
/// escapes into the caller's frame.  Verified code cannot panic, so for the
/// verified library the guard reduces to calling `f`; the abort-on-unwind
/// machinery lives with the raw entry points.
pub fn nounwind<R, F: FnOnce() -> R>(f: F) -> (r: R)
    requires
        call_requires(f, ()),
    ensures
        call_ensures(f, (), r),
{
    f()
}

} // verus!
