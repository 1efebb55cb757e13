use vstd::prelude::*;

verus! {

/// The error kinds the engine can surface to its caller.
#[derive(Clone, Copy, Debug, PartialEq, Eq, Structural)]
pub enum VmError {
    /// An address lies strictly beyond the owning segment's declared capacity.
    OutOfBounds,
    /// A payload is larger than the whole code segment.
    CapacityExceeded,
    /// An opcode byte names none of the recognized instructions.
    InvalidOpcode,
    /// A register identifier byte names no register.
    InvalidRegister,
    /// A concurrently running task ended abnormally instead of returning.
    InternalFault,
}

} // verus!
