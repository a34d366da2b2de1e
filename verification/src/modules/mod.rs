pub mod fee;
pub mod helper;
pub mod math;
