//! Hyperoperations in Knuth's up-arrow notation: multiplication, exponentiation,
//! tetration and the operations beyond them, over any unsigned number type.

pub mod arrows;
pub mod big;
pub mod eval;
pub mod notation;
pub mod num;

pub use eval::{hyperoperation, Hyperoperation};
pub use notation::ToDecimal;
pub use num::NumForKnuth;
