pub mod dispute;
pub mod escrow;
pub mod milestone;
