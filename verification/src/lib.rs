//! An emulator core for the LC-3, a 16-bit teaching architecture: 65536 words
//! of memory, eight general-purpose registers, a program counter and a
//! three-way condition flag.
//!
//! The machine is a pure state machine. Console traffic is data: bytes typed at
//! the keyboard are queued on the machine, and bytes it prints are collected in
//! a buffer that the embedder drains.
pub mod bits;
pub mod decode;
pub mod executor;
pub mod instructions;
pub mod laws;
pub mod loader;
pub mod machine;
pub mod registers;
pub mod traps;
pub mod vm;

pub use decode::{Opcode, Trap};
pub use loader::LoadError;
pub use machine::{ExecError, Outcome, KEYBOARD_DATA, KEYBOARD_STATUS, KEY_READY};
pub use registers::{ConditionalFlag, Register, PC_START};
pub use vm::{Lc3, Lc3State};
