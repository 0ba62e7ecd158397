//! A CHIP-8 virtual machine core: instruction decoding, execution, timers and
//! the single-cycle driver, each with a machine-checked contract.
//!
//! The executable state lives in [`CPU`]. Its meaning is given by the
//! mathematical [`Machine`] it is viewed as, and every operation is specified
//! as a function on that model.

pub mod cpu;
pub mod display;
pub mod fault;
pub mod font;
pub mod laws;
pub mod machine;
pub mod opcode;

pub use cpu::CPU;
pub use fault::Fault;
pub use machine::{Cycle, Machine, Status};
pub use opcode::Opcode;
