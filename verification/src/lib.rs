//! Reconstruction of C/C++ declaration text and byte sizes from a graph of
//! debug-info type records, plus recovery of a displayable function name from
//! a possibly-decorated symbol.
//!
//! The catalog ([`catalog::TypeDumper`]) indexes parsed type records by their
//! numeric handle and carries a name-to-size table used to resolve
//! forward-declared aggregates. On top of it sit a recursive size calculator,
//! a recursive declaration printer, a function-signature builder, and a
//! heuristic parser for legacy name decorations.

pub mod catalog;
pub mod funcname;
pub mod laws;
pub mod printer;
pub mod records;
pub mod size;
pub mod strtext;
