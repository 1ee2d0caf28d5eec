//! A Game Boy (LR35902) CPU core: registers, flag-computing ALU, and the
//! instruction state machines that execute one machine cycle per tick.

pub mod register;
pub mod carry_trait;
pub mod alu;
pub mod memory;
pub mod registers;
pub mod instructions;
pub mod cpu;
pub mod performance_timer;
pub mod laws;
pub mod opcode_laws;
