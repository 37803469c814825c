//! A rigid-transform algebra's verified core: the expression layer that reads
//! compound frame operations from tokens, resolves their operands and fixes
//! the order of the matrix products they stand for, plus frames of reference
//! tagged at compile time.

pub mod expr;
pub mod maps;
pub mod product;
pub mod refframe;
