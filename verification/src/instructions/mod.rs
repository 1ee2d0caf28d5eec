pub mod misc;
pub mod alu_ops;
pub mod loads;
pub mod jumps;
pub mod bitwise;
pub mod decode;
