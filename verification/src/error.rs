//! The conditions that an instruction can report.

use vstd::prelude::*;

verus! {

/// A condition raised while executing one instruction.
///
/// None of these stops a run. The instruction that raised the condition is
/// abandoned without touching any buffer, a flag buffer is set instead, and
/// the run goes on with the next instruction.
#[derive(Clone, Copy, Debug, PartialEq, Eq, Structural)]
pub enum VmError {
    /// A buffer identifier that had to be present is absent.
    NotInitialized,
    /// A buffer identifier that had to be absent is present.
    AlreadyInitialized,
    /// A buffer read as a number does not hold exactly eight bytes.
    InvalidNumericLength,
    /// The divisor of a division is zero.
    DivisionByZero,
    /// A slice bound, a shift amount or a jump target lies outside its range.
    IndexOutOfRange,
    /// A hexadecimal literal or a UTF-8 text is malformed.
    InvalidEncoding,
    /// The instruction's opcode is not one the machine knows.
    UnknownOpcode,
    /// A chain query could not be made or was not answered.
    GatewayFailure,
}

} // verus!
