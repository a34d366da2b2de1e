pub mod escrow_core;
pub mod error;
pub mod modules;
pub mod storage;
