pub mod calculator;

pub use calculator::{FeeCalculator, FeeCalculatorTrait};
