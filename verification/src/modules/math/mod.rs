pub mod basic;

pub use basic::{BasicArithmetic, BasicMath};
