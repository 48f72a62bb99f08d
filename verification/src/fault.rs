//! The fatal conditions an instruction can signal.

use vstd::prelude::*;

verus! {

/// Why an operation was abandoned. A faulting operation leaves the machine
/// exactly as it found it.
#[derive(Clone, Copy, Debug, PartialEq, Eq, Structural)]
pub enum Fault {
    /// An address outside `0x000..=0xFFF` would have been read or written.
    MemoryOutOfBounds,
    /// `CALL` with all sixteen stack slots already in use.
    StackOverflow,
    /// `RET` with no return address on the stack.
    StackUnderflow,
}

} // verus!
