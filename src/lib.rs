//! Propositional formulas over named variables, built from a minimal set of
//! primitives and evaluated against a set of true variable names.

pub mod assignment;
pub mod formula;
pub mod lemmas;
