//! The faults that abort a run.

use vstd::prelude::*;
use crate::addr::{ByteAddr, WordAddr};
use crate::platform::TrapCause;

verus! {

/// A fault reported by the owner of the machine state.
#[derive(Clone, Copy, Debug, PartialEq, Eq, Structural)]
pub enum ContextError {
    /// An access to a word outside committed memory.
    AddressFault(WordAddr),
    /// The host could not serve a read or a write on this descriptor.
    HostIo(u32),
    /// A lifecycle hook refused to go on; the code is the owner's own.
    Aborted(u32),
}

/// Which host transfer a length belongs to.
#[derive(Clone, Copy, Debug, PartialEq, Eq, Structural)]
pub enum HostIo {
    Read,
    Write,
}

/// A fatal condition: the run ends with it.
#[derive(Clone, Copy, Debug, PartialEq, Eq, Structural)]
pub enum ExecError {
    /// The owner of the machine state reported a fault.
    Context(ContextError),
    /// The span of a host transfer runs past the end of the address space.
    InvalidLength(HostIo, u32),
    /// A host transfer asks for more bytes than one transfer may move.
    LengthTooBig(HostIo, u32),
    /// A trap was taken while already in machine mode.
    IllegalTrap,
    /// A machine return was executed outside machine mode.
    IllegalMret,
    /// The trap table holds a misaligned entry or one outside kernel memory.
    InvalidTrapAddress(ByteAddr, TrapCause),
    /// A machine ecall with a number that no handler serves.
    Unimplemented(u32),
    /// A program counter would pass the end of the address space.
    AddressOverflow(ByteAddr),
}

impl ExecError {
    /// Whether the fault came from the owner of the machine state.
    pub open spec fn from_context(self) -> bool {
        self is Context
    }
}

} // verus!
