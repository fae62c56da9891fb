//! A small dependently-typed lambda calculus: a parser for the concrete
//! syntax, a translation into a binder-safe core representation, a
//! normalization-by-evaluation engine, and a bidirectional type checker
//! with a module-level declaration checker on top.

pub mod alpha;
pub mod check;
pub mod parse;
pub mod subst;
pub mod term;
pub mod translate;
pub mod var;

use vstd::prelude::*;

verus! {

/// Whether a driving loop should keep going or stop.
#[derive(Debug, Clone, Copy, PartialEq, Eq, Structural)]
pub enum Loop {
    Continue,
    Break,
}

} // verus!
