//! The fixed layout of the guest address space, the register ABI, the
//! machine-ecall numbers and the cycle states.

use vstd::prelude::*;
use crate::addr::ByteAddr;

verus! {

/// End of the zero page: no instruction is fetched below it.
pub const ZERO_PAGE_END_ADDR: u32 = 0x0001_0000;

/// First byte of user memory.
pub const USER_START_ADDR: u32 = 0x0001_0000;

/// One past the last byte of user memory.
pub const USER_END_ADDR: u32 = 0xc000_0000;

/// First byte of kernel memory.
pub const KERNEL_START_ADDR: u32 = 0xc000_0000;

/// One past the last byte of kernel memory.
pub const KERNEL_END_ADDR: u32 = 0xff00_0000;

/// Register bank of machine mode.
pub const MACHINE_REGS_ADDR: u32 = 0xffff_0000;

/// Register bank of user mode.
pub const USER_REGS_ADDR: u32 = 0xffff_0080;

/// Scratch word that absorbs the padding writes of a word batch.
pub const SAFE_WRITE_ADDR: u32 = 0xffff_0100;

/// Slot of the saved machine-exception program counter.
pub const MEPC_ADDR: u32 = 0xffff_0200;

/// Slot of the program counter saved at a suspend.
pub const SUSPEND_PC_ADDR: u32 = 0xffff_0210;

/// Slot of the mode saved at a suspend.
pub const SUSPEND_MODE_ADDR: u32 = 0xffff_0214;

/// Base of the table of user-ecall handlers.
pub const ECALL_DISPATCH_ADDR: u32 = 0xffff_1000;

/// Base of the table of trap handlers.
pub const TRAP_DISPATCH_ADDR: u32 = 0xffff_2000;

/// Entries in the table of user-ecall handlers.
pub const SYSCALL_MAX: u32 = 512;

/// Most bytes that one host read or write may move.
pub const MAX_IO_BYTES: u32 = 1024;

/// Word slots of one batch of a host read.
pub const MAX_IO_WORDS: u32 = 4;

pub const HOST_ECALL_TERMINATE: u32 = 0;

pub const HOST_ECALL_READ: u32 = 1;

pub const HOST_ECALL_WRITE: u32 = 2;

pub const HOST_ECALL_POSEIDON2: u32 = 3;

/// The hardwired zero register.
pub const REG_ZERO: usize = 0;

pub const REG_A0: usize = 10;

pub const REG_A1: usize = 11;

pub const REG_A2: usize = 12;

pub const REG_A3: usize = 13;

pub const REG_A4: usize = 14;

pub const REG_A5: usize = 15;

pub const REG_A6: usize = 16;

pub const REG_A7: usize = 17;

/// Registers in one bank.
pub const REG_MAX: usize = 32;

/// The phases of execution that the proving circuit accounts for.
#[derive(Clone, Copy, Debug, PartialEq, Eq, Hash, Structural)]
pub enum CycleState {
    Decode,
    MachineEcall,
    Terminate,
    Suspend,
    HostReadSetup,
    HostReadBytes,
    HostReadWords,
    HostWrite,
    PoseidonEntry,
}

/// Why control is forced into the kernel.
#[derive(Clone, Copy, Debug, PartialEq, Eq, Hash, Structural)]
pub enum TrapCause {
    InstructionAddressMisaligned,
    InstructionAccessFault,
    IllegalInstruction(u32),
    Breakpoint,
    LoadAddressMisaligned,
    LoadAccessFault(ByteAddr),
    StoreAddressMisaligned(ByteAddr),
    StoreAccessFault,
    EnvironmentCallFromUserMode,
}

impl TrapCause {
    /// The cause's row in the table of trap handlers.
    pub open spec fn spec_as_u32(self) -> u32 {
        match self {
            TrapCause::InstructionAddressMisaligned => 0,
            TrapCause::InstructionAccessFault => 1,
            TrapCause::IllegalInstruction(_) => 2,
            TrapCause::Breakpoint => 3,
            TrapCause::LoadAddressMisaligned => 4,
            TrapCause::LoadAccessFault(_) => 5,
            TrapCause::StoreAddressMisaligned(_) => 6,
            TrapCause::StoreAccessFault => 7,
            TrapCause::EnvironmentCallFromUserMode => 8,
        }
    }

    /// The cause's row in the table of trap handlers.
    #[verifier::when_used_as_spec(spec_as_u32)]
    pub fn as_u32(self) -> (row: u32)
        ensures
            row == self.spec_as_u32(),
            row <= 8,
    {
        match self {
            TrapCause::InstructionAddressMisaligned => 0,
            TrapCause::InstructionAccessFault => 1,
            TrapCause::IllegalInstruction(_) => 2,
            TrapCause::Breakpoint => 3,
            TrapCause::LoadAddressMisaligned => 4,
            TrapCause::LoadAccessFault(_) => 5,
            TrapCause::StoreAddressMisaligned(_) => 6,
            TrapCause::StoreAccessFault => 7,
            TrapCause::EnvironmentCallFromUserMode => 8,
        }
    }
}

/// Whether `addr` lies in user memory.
pub open spec fn spec_is_user_memory(addr: ByteAddr) -> bool {
    USER_START_ADDR <= addr.0 < USER_END_ADDR
}

/// Whether `addr` lies in kernel memory.
pub open spec fn spec_is_kernel_memory(addr: ByteAddr) -> bool {
    KERNEL_START_ADDR <= addr.0 < KERNEL_END_ADDR
}

/// Whether `addr` lies in user memory.
#[verifier::when_used_as_spec(spec_is_user_memory)]
pub fn is_user_memory(addr: ByteAddr) -> (b: bool)
    ensures
        b == spec_is_user_memory(addr),
{
    USER_START_ADDR <= addr.0 && addr.0 < USER_END_ADDR
}

/// Whether `addr` lies in kernel memory.
#[verifier::when_used_as_spec(spec_is_kernel_memory)]
pub fn is_kernel_memory(addr: ByteAddr) -> (b: bool)
    ensures
        b == spec_is_kernel_memory(addr),
{
    KERNEL_START_ADDR <= addr.0 && addr.0 < KERNEL_END_ADDR
}

} // verus!
