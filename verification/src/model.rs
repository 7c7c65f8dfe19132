//! The mathematical model of the machine: program counter, mode, word
//! memory and the record of everything that was reported or accessed.

use vstd::prelude::*;
use crate::addr::{ByteAddr, WordAddr, WORD_SIZE};
use crate::platform::{CycleState, TrapCause, MACHINE_REGS_ADDR, REG_MAX, USER_REGS_ADDR};
use crate::word::{byte_of, with_byte};

verus! {

/// The static description of an instruction, as the decoder classifies it.
#[derive(Clone, Copy, Debug, PartialEq, Eq, Structural)]
pub struct Instruction {
    pub opcode: u32,
    pub func3: u32,
    pub func7: u32,
}

/// The fields cut out of one instruction word.
#[derive(Clone, Copy, Debug, PartialEq, Eq, Structural)]
pub struct DecodedInstruction {
    pub insn: u32,
    pub rd: u32,
    pub rs1: u32,
    pub rs2: u32,
}

/// One entry of the record: an instrumented access or a report.
pub enum Event {
    /// An instruction was decoded.
    InsnStart { insn: Instruction, decoded: DecodedInstruction },
    /// An instruction completed normally.
    InsnEnd { insn: Instruction, decoded: DecodedInstruction },
    /// A word was loaded.
    Load { addr: WordAddr, word: u32 },
    /// A word was stored.
    Store { addr: WordAddr, word: u32 },
    /// The machine went from one cycle state to the next.
    Cycle { cur: CycleState, next: CycleState, s0: u32, s1: u32, s2: u32 },
    /// The guest terminated with these two exit words.
    Terminate { a0: u32, a1: u32 },
    /// The host was asked for up to `len` bytes and gave `data`.
    HostRead { fd: u32, len: nat, data: Seq<u8> },
    /// The host was given `data` and took `written` bytes of it.
    HostWrite { fd: u32, data: Seq<u8>, written: u32 },
    /// The owner was told that the machine has been saved.
    Suspend,
    /// The owner was told that the machine has been restored.
    Resume,
    /// The owner was asked to take back the faulting instruction.
    TrapRewind,
    /// The owner was told that a trap has been entered.
    Trap { cause: TrapCause },
}

/// A lifecycle hook of the owner of the machine state.
#[derive(Clone, Copy, Debug, PartialEq, Eq, Structural)]
pub enum Hook {
    Suspend,
    Resume,
    TrapRewind,
    Trap(TrapCause),
}

impl Hook {
    /// The entry that a call of the hook leaves on the record.
    pub open spec fn view(&self) -> Event {
        match *self {
            Hook::Suspend => Event::Suspend,
            Hook::Resume => Event::Resume,
            Hook::TrapRewind => Event::TrapRewind,
            Hook::Trap(cause) => Event::Trap { cause: cause },
        }
    }
}

/// The machine as the dispatcher sees it.
#[verifier::ext_equal]
pub struct MachineState {
    pub pc: ByteAddr,
    /// Zero in user mode, anything else in machine mode.
    pub machine_mode: u32,
    /// The word at every word address.
    pub memory: Map<WordAddr, u32>,
    /// Instrumented accesses and reports, oldest first.
    pub trace: Seq<Event>,
}

/// The word address `idx` words after the byte address `base`.
pub open spec fn word_at(base: u32, idx: int) -> WordAddr {
    WordAddr((base / WORD_SIZE + idx) as u32)
}

/// The byte address `idx` bytes after `base`.
pub open spec fn byte_at(base: ByteAddr, idx: int) -> ByteAddr {
    ByteAddr((base.0 + idx) as u32)
}

/// The base of the register bank of a mode.
pub open spec fn bank_of(machine_mode: bool) -> u32 {
    if machine_mode {
        MACHINE_REGS_ADDR
    } else {
        USER_REGS_ADDR
    }
}

/// The word from which register `idx` of a bank is read.
pub open spec fn register_slot(machine_mode: bool, idx: int) -> WordAddr {
    word_at(bank_of(machine_mode), idx)
}

/// The word to which a write of register `idx` of a bank goes: the
/// register's own slot, but for the zero register, whose writes land two
/// banks further on.
pub open spec fn register_sink(machine_mode: bool, idx: int) -> WordAddr {
    if idx == 0 {
        word_at(bank_of(machine_mode), REG_MAX * 2)
    } else {
        word_at(bank_of(machine_mode), idx)
    }
}

impl MachineState {
    pub open spec fn is_machine_mode(self) -> bool {
        self.machine_mode != 0
    }

    pub open spec fn with_pc(self, pc: ByteAddr) -> MachineState {
        MachineState { pc: pc, ..self }
    }

    pub open spec fn with_mode(self, machine_mode: u32) -> MachineState {
        MachineState { machine_mode: machine_mode, ..self }
    }

    pub open spec fn with_memory(self, memory: Map<WordAddr, u32>) -> MachineState {
        MachineState { memory: memory, ..self }
    }

    /// The program counter moved on by one instruction.
    pub open spec fn advance_pc(self) -> MachineState {
        self.with_pc(byte_at(self.pc, WORD_SIZE as int))
    }

    /// One more entry in the record.
    pub open spec fn event(self, e: Event) -> MachineState {
        MachineState { trace: self.trace.push(e), ..self }
    }

    /// An instrumented load: the memory stays, the record grows.
    pub open spec fn load(self, addr: WordAddr) -> MachineState {
        self.event(Event::Load { addr: addr, word: self.memory[addr] })
    }

    /// An instrumented store.
    pub open spec fn store(self, addr: WordAddr, word: u32) -> MachineState {
        MachineState {
            memory: self.memory.insert(addr, word),
            trace: self.trace.push(Event::Store { addr: addr, word: word }),
            ..self
        }
    }

    /// A report of one cycle-state transition.
    pub open spec fn cycle(self, cur: CycleState, next: CycleState, s0: u32, s1: u32, s2: u32) -> MachineState {
        self.event(Event::Cycle { cur: cur, next: next, s0: s0, s1: s1, s2: s2 })
    }

    /// The value of register `idx` in the bank of the current mode.
    pub open spec fn reg(self, idx: int) -> u32 {
        self.memory[register_slot(self.is_machine_mode(), idx)]
    }

    /// A load of register `idx` in the bank of the current mode.
    pub open spec fn load_reg(self, idx: int) -> MachineState {
        self.load(register_slot(self.is_machine_mode(), idx))
    }

    /// A write of register `idx` in the bank of the current mode.
    pub open spec fn store_reg(self, idx: int, word: u32) -> MachineState {
        self.store(register_sink(self.is_machine_mode(), idx), word)
    }

    /// The byte at a byte address.
    pub open spec fn byte(self, addr: ByteAddr) -> u8 {
        byte_of(self.memory[addr.spec_waddr()], addr.spec_subaddr() as int)
    }

    /// The `len` bytes that start at `ptr`.
    pub open spec fn bytes(self, ptr: ByteAddr, len: nat) -> Seq<u8> {
        Seq::new(len, |i: int| self.byte(byte_at(ptr, i)))
    }

    /// A store of one byte: the word that holds it is loaded, changed in
    /// that byte, and stored.
    pub open spec fn store_u8(self, addr: ByteAddr, byte: u8) -> MachineState {
        self.load(addr.spec_waddr()).store(
            addr.spec_waddr(),
            with_byte(self.memory[addr.spec_waddr()], addr.spec_subaddr() as int, byte),
        )
    }
}

} // verus!
