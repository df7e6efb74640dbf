//! Failures that the driver core reports.

use vstd::prelude::*;
use vstd::std_specs::convert::FromSpecImpl;

verus! {

/// A value that does not fit the field it was meant for.
#[derive(Clone, Copy, Debug, PartialEq, Eq, Structural)]
pub struct RangeError {
    /// The value that was offered.
    pub value: u8,
    /// The largest value the field can hold.
    pub max: u8,
}

/// An argument that was rejected before anything was sent to the chip.
#[derive(Clone, Copy, Debug, PartialEq, Eq, Structural)]
pub enum ValidationError {
    /// A program holds more instructions than program memory has room for.
    ProgramLength { len: usize },
    /// More instructions were given than a page holds.
    PageLength { len: usize },
    /// A page number beyond the last page.
    PageIndex { page: u8 },
    /// An instruction slot beyond the end of a page.
    InstructionIndex { index: u8 },
    /// A program counter that points outside program memory.
    ProgramCounter { counter: u8 },
    /// An operand too large for its field.
    Operand(RangeError),
    /// A bit pattern that names no variant of the type asked for.
    RawBits { value: u8 },
    /// A mask that is empty or has a gap, and so is no field.
    Field { bits: u8 },
}

/// Why a transaction ended without success.
#[derive(Debug, PartialEq, Eq)]
pub enum Error<E> {
    /// An argument was out of range; the chip was not touched.
    Validation(ValidationError),
    /// The bus reported a failure, handed on as it came.
    Transport(E),
    /// A register read back after a write did not hold what was written.
    Verification { address: u8, expected: u8, observed: u8 },
    /// The chip stayed busy for longer than the transaction was told to wait.
    BusyTimeout,
    /// The host cancelled the transaction.
    Cancelled,
    /// An event was delivered that does not answer the request in flight.
    Protocol,
}

impl From<RangeError> for ValidationError {
    /// An operand out of range, as one of the arguments that are rejected.
    fn from(error: RangeError) -> (r: ValidationError) {
        ValidationError::Operand(error)
    }
}

impl FromSpecImpl<RangeError> for ValidationError {
    open spec fn obeys_from_spec() -> bool {
        true
    }

    open spec fn from_spec(error: RangeError) -> ValidationError {
        ValidationError::Operand(error)
    }
}

impl<E> From<ValidationError> for Error<E> {
    /// A rejected argument, as one of the ways in which an operation fails.
    fn from(error: ValidationError) -> (r: Error<E>) {
        Error::Validation(error)
    }
}

impl<E> FromSpecImpl<ValidationError> for Error<E> {
    open spec fn obeys_from_spec() -> bool {
        true
    }

    open spec fn from_spec(error: ValidationError) -> Error<E> {
        Error::Validation(error)
    }
}

} // verus!
