//! The Fibonacci sequence, computed by the textbook recursion and proved
//! against its mathematical definition, together with the short report that
//! lists its first terms.

pub mod decimal;
pub mod report;
pub mod sequence;
