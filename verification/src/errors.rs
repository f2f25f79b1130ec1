//! The per-line failures of the assembler.

use vstd::prelude::*;

verus! {

/// Why a source line contributed nothing to the output. Each failure is
/// local to its line: the pass reports it and goes on.
#[derive(Clone, Copy, Debug, PartialEq, Eq, Structural)]
pub enum AsmError {
    /// The mnemonic names no known command.
    UndefinedCommand,
    /// A known mnemonic was given the wrong number of operands.
    OperandCountMismatch,
    /// An operand that should name a register names none.
    UnsupportedRegister,
    /// An immediate operand is not an unsigned decimal number below 256.
    MalformedImmediate,
}

} // verus!
