//! Errors surfaced by decoding and execution.
use vstd::prelude::*;

verus! {

/// Why an instruction could not be decoded or did not retire.
#[derive(Debug, PartialEq, Eq, Structural, Clone, Copy)]
pub enum Error {
    /// ECALL was reached; the embedder handles the request.
    EnvironmentCall,
    /// EBREAK was reached.
    Breakpoint,
    /// The terminal layer of an extension chain met a word that no layer decodes.
    ErrFailedDeocdeInstructon,
    /// Fewer than four bytes were available at the program counter.
    ErrBytecodeLengthNotEnough,
    /// A single-layer interpreter met a funct3 outside its table.
    UnsupportFunct3,
    /// A single-layer interpreter met an opcode outside its table.
    UnsupportOpcode,
}

} // verus!
