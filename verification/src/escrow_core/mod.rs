pub mod dispute;
pub mod escrow;
pub mod guarantees;
pub mod lifecycle;
pub mod milestone;
pub mod settlement;
pub mod validators;
