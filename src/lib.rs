//! An embeddable RV32I interpreter: a bit-field view of instruction words, format
//! wrappers, a decoder into typed instructions, and an executor over program
//! counter, register file and linear memory, with extension layers that delegate
//! unknown words to a sub-interpreter.
pub mod base;
pub mod core_set;
pub mod driver;
pub mod env;
pub mod error;
pub mod execute;
pub mod format;
pub mod inst;
pub mod instruction;
pub mod laws;
pub mod lite;
pub mod memory;
pub mod reg;
pub mod rv_register;

pub use base::RV32iBaseInst;
pub use env::RV32iEnvInst;
pub use error::Error;
pub use inst::Inst;
pub use instruction::Instruction;
pub use memory::{Memory, MemoryMut};
pub use reg::{Reg32, Reg64};
