//! A CHIP-8 interpreter core: register file, memory, framebuffer, keypad,
//! and the fetch/decode/execute cycle, with the semantics of every opcode
//! stated and proved.

pub mod cycle;
pub mod decode;
pub mod draw;
pub mod error;
pub mod laws;
pub mod vm;

pub use decode::Instruction;
pub use error::VmError;
pub use vm::VM;
