//! What each control transfer does to the machine, as functions on the
//! model.

use vstd::prelude::*;
use crate::addr::{ByteAddr, WordAddr, WORD_SIZE};
use crate::error::ExecError;
use crate::hostio::{read_fault, read_served, write_fault, write_served};
use crate::model::{byte_at, word_at, Event, MachineState};
use crate::platform::{
    spec_is_kernel_memory, spec_is_user_memory, CycleState, TrapCause, ECALL_DISPATCH_ADDR,
    KERNEL_START_ADDR, MEPC_ADDR, REG_A7, SUSPEND_MODE_ADDR, SUSPEND_PC_ADDR, SYSCALL_MAX,
    TRAP_DISPATCH_ADDR, USER_REGS_ADDR, REG_A0, REG_A1, ZERO_PAGE_END_ADDR, HOST_ECALL_POSEIDON2,
    HOST_ECALL_READ, HOST_ECALL_TERMINATE, HOST_ECALL_WRITE,
};

verus! {

/// The machine after a suspend: its program counter and mode were
/// written to the two suspend slots, and then the owner was told.
pub open spec fn suspended(s: MachineState) -> MachineState {
    s.store(word_at(SUSPEND_PC_ADDR, 0), s.pc.0).store(word_at(SUSPEND_MODE_ADDR, 0), s.machine_mode).event(
        Event::Suspend,
    )
}

/// The machine after a resume: its program counter and mode were read
/// back from the two suspend slots and set, and then the owner was told.
pub open spec fn resumed(s: MachineState) -> MachineState {
    s.load(word_at(SUSPEND_PC_ADDR, 0)).load(word_at(SUSPEND_MODE_ADDR, 0)).with_pc(
        ByteAddr(s.memory[word_at(SUSPEND_PC_ADDR, 0)]),
    ).with_mode(s.memory[word_at(SUSPEND_MODE_ADDR, 0)]).event(Event::Resume)
}

/// Whether `after` is a machine that a suspend from `s` leaves where the
/// owner faults: nothing is done, or the program counter is saved, or,
/// under an owner that may refuse, both slots are written and the owner
/// refused to be told.
pub open spec fn suspend_stopped(s: MachineState, may_refuse: bool, after: MachineState) -> bool {
    ||| after == s
    ||| after == s.store(word_at(SUSPEND_PC_ADDR, 0), s.pc.0)
    ||| may_refuse && after == s.store(word_at(SUSPEND_PC_ADDR, 0), s.pc.0).store(
        word_at(SUSPEND_MODE_ADDR, 0),
        s.machine_mode,
    )
}

/// Whether `after` is a machine that a resume from `s` leaves where the
/// owner faults: nothing is done, or the first slot is loaded, or, under
/// an owner that may refuse, both are loaded and set and the owner
/// refused to be told.  Program counter and mode are set only when both
/// loads are done.
pub open spec fn resume_stopped(s: MachineState, may_refuse: bool, after: MachineState) -> bool {
    ||| after == s
    ||| after == s.load(word_at(SUSPEND_PC_ADDR, 0))
    ||| may_refuse && after == s.load(word_at(SUSPEND_PC_ADDR, 0)).load(word_at(SUSPEND_MODE_ADDR, 0)).with_pc(
        ByteAddr(s.memory[word_at(SUSPEND_PC_ADDR, 0)]),
    ).with_mode(s.memory[word_at(SUSPEND_MODE_ADDR, 0)])
}

/// The machine after control went to the handler at `target`: the old
/// program counter is saved, and the mode is machine mode.
pub open spec fn trap_entered(s: MachineState, target: ByteAddr) -> MachineState {
    s.store(word_at(MEPC_ADDR, 0), s.pc.0).with_pc(target).with_mode(1)
}

/// Whether the saved program counter has an instruction after it.
pub open spec fn can_return(s: MachineState) -> bool {
    s.memory[word_at(MEPC_ADDR, 0)] + WORD_SIZE <= u32::MAX
}

/// The machine after a machine return: it goes on in user mode, one
/// instruction after the saved program counter.
pub open spec fn machine_returned(s: MachineState) -> MachineState {
    s.load(word_at(MEPC_ADDR, 0)).with_pc(
        byte_at(ByteAddr(s.memory[word_at(MEPC_ADDR, 0)]), WORD_SIZE as int),
    ).with_mode(0)
}

/// The row of a cause in the table of trap handlers.
pub open spec fn trap_row(cause: TrapCause) -> WordAddr {
    word_at(TRAP_DISPATCH_ADDR, cause.spec_as_u32() as int)
}

/// The handler that the table of trap handlers names for a cause.
pub open spec fn trap_target(s: MachineState, cause: TrapCause) -> ByteAddr {
    ByteAddr(s.memory[trap_row(cause)])
}

/// A trap handler must start at a word of kernel memory.
pub open spec fn valid_trap_target(target: ByteAddr) -> bool {
    target.spec_is_aligned() && spec_is_kernel_memory(target)
}

/// The machine after the trap for `cause` was dispatched from `s`, the
/// state that the owner's rewind left: the table row is loaded, the
/// handler is entered, and last the owner is told.
pub open spec fn trap_dispatched(s: MachineState, cause: TrapCause) -> MachineState {
    trap_entered(s.load(trap_row(cause)), trap_target(s, cause)).event(Event::Trap { cause: cause })
}

/// What the dispatch of the trap for `cause` from `s` comes to, as far as
/// the dispatcher decides: a table entry that is no valid handler is
/// fatal, then a trap in machine mode is fatal, and anything else is
/// taken, with the decoder told that the instruction did not complete.
pub open spec fn trap_verdict(s: MachineState, cause: TrapCause) -> Result<bool, ExecError> {
    if !valid_trap_target(trap_target(s, cause)) {
        Err(ExecError::InvalidTrapAddress(trap_target(s, cause), cause))
    } else if s.is_machine_mode() {
        Err(ExecError::IllegalTrap)
    } else {
        Ok(false)
    }
}

/// Whether the dispatch of the trap for `cause` from `s` may end with `r`
/// and leave `after`.  It ends as the verdict says, unless the owner
/// faults.  A taken trap leaves the machine dispatched; a fatal one
/// leaves it with the table row loaded and nothing else done: program
/// counter, mode and the saved program counter are as they were, and the
/// owner is not told of a trap.  The owner can fault at the load of the
/// row and at the store of the program counter, and the machine is then
/// as it was before that access.
pub open spec fn trap_outcome(s: MachineState, after: MachineState, cause: TrapCause, r: Result<bool, ExecError>) -> bool {
    match r {
        Ok(_) => r == trap_verdict(s, cause) && after == trap_dispatched(s, cause),
        Err(e) => if e.from_context() {
            after == s || (trap_verdict(s, cause) is Ok && after == s.load(trap_row(cause)))
        } else {
            r == trap_verdict(s, cause) && after == s.load(trap_row(cause))
        },
    }
}

/// The machine after the owner was asked to rewind and left `memory`.
pub open spec fn rewound(s: MachineState, memory: Map<WordAddr, u32>) -> MachineState {
    s.event(Event::TrapRewind).with_memory(memory)
}

/// Whether a trap for `cause` from `s` may end with `r` and leave
/// `after`: the owner is asked to rewind, and the trap is dispatched from
/// what the rewind left.  Where the owner does not rewind, that is the
/// memory as it was.
pub open spec fn trap_result(s: MachineState, rewinds: bool, after: MachineState, cause: TrapCause, r: Result<bool, ExecError>) -> bool {
    exists|memory: Map<WordAddr, u32>|
        {
            &&& rewinds || memory == s.memory
            &&& trap_outcome(#[trigger] rewound(s, memory), after, cause, r)
        }
}

/// The row of the table of user-ecall handlers that register A7 selects.
pub open spec fn ecall_row(s: MachineState) -> WordAddr {
    word_at(ECALL_DISPATCH_ADDR, s.reg(REG_A7 as int) as int)
}

/// The handler that the table of user-ecall handlers names for the ecall
/// that register A7 selects.
pub open spec fn ecall_target(s: MachineState) -> ByteAddr {
    ByteAddr(s.memory[ecall_row(s)])
}

/// A user-ecall handler must start at a word at or above the kernel
/// boundary.
pub open spec fn valid_ecall_target(target: ByteAddr) -> bool {
    target.spec_is_aligned() && target.0 >= KERNEL_START_ADDR
}

/// Whether a user ecall from `s` goes to its handler, and not to the trap
/// for an environment call from user mode.
pub open spec fn ecall_is_served(s: MachineState) -> bool {
    s.reg(REG_A7 as int) < SYSCALL_MAX && valid_ecall_target(ecall_target(s))
}

/// The machine after a served user ecall.
pub open spec fn ecall_served(s: MachineState) -> MachineState {
    trap_entered(s.load_reg(REG_A7 as int).load(ecall_row(s)), ecall_target(s))
}

/// The machine when a user ecall has looked up where to go: register A7
/// was loaded, and the table row too where A7 is in range.
pub open spec fn ecall_looked_up(s: MachineState) -> MachineState {
    if s.reg(REG_A7 as int) < SYSCALL_MAX {
        s.load_reg(REG_A7 as int).load(ecall_row(s))
    } else {
        s.load_reg(REG_A7 as int)
    }
}

/// Whether a user ecall from `s` may end with `r` and leave `after`.
///
/// Where the owner faults at one of the two loads, the machine is as it
/// was before that load.  A served ecall enters its handler and lets the
/// decoder go on; no hook of the owner is called.  In machine mode it is
/// fatal once register and table row are loaded.  An ecall that is not
/// served is the trap for an environment call from user mode, taken from
/// the machine with what was loaded so far.
pub open spec fn user_ecall_result(s: MachineState, rewinds: bool, after: MachineState, r: Result<bool, ExecError>) -> bool {
    if r matches Err(e) && e.from_context() && (after == s || (s.reg(REG_A7 as int) < SYSCALL_MAX && after
        == s.load_reg(REG_A7 as int))) {
        true
    } else if ecall_is_served(s) {
        match r {
            Ok(go_on) => go_on && !s.is_machine_mode() && after == ecall_served(s),
            Err(e) => if e.from_context() {
                !s.is_machine_mode() && after == ecall_looked_up(s)
            } else {
                e == ExecError::IllegalTrap && s.is_machine_mode() && after == ecall_looked_up(s)
            },
        }
    } else {
        trap_result(ecall_looked_up(s), rewinds, after, TrapCause::EnvironmentCallFromUserMode, r)
    }
}

/// Whether `after` is a machine that the terminate ecall from `s` leaves
/// where the owner faults: before the entry report, before one of the
/// two loads, or before the last report, with the owner already told of
/// the exit words.
pub open spec fn terminate_stopped(s: MachineState, after: MachineState) -> bool {
    let entered = s.cycle(CycleState::MachineEcall, CycleState::Terminate, 0, 0, 0);
    let first = entered.load(word_at(USER_REGS_ADDR, REG_A0 as int));
    let second = first.load(word_at(USER_REGS_ADDR, REG_A1 as int));
    ||| after == s
    ||| after == entered
    ||| after == first
    ||| after == second.event(
        Event::Terminate {
            a0: s.memory[word_at(USER_REGS_ADDR, REG_A0 as int)],
            a1: s.memory[word_at(USER_REGS_ADDR, REG_A1 as int)],
        },
    )
}

/// The machine after the terminate ecall.
pub open spec fn terminated(s: MachineState) -> MachineState {
    s.cycle(CycleState::MachineEcall, CycleState::Terminate, 0, 0, 0).load(
        word_at(USER_REGS_ADDR, REG_A0 as int),
    ).load(word_at(USER_REGS_ADDR, REG_A1 as int)).event(
        crate::model::Event::Terminate {
            a0: s.memory[word_at(USER_REGS_ADDR, REG_A0 as int)],
            a1: s.memory[word_at(USER_REGS_ADDR, REG_A1 as int)],
        },
    ).cycle(CycleState::Terminate, CycleState::Suspend, 0, 0, 0)
}

/// The machine after the ecall that hands over to the Poseidon2 circuit.
pub open spec fn poseidon_entered(s: MachineState) -> MachineState {
    s.advance_pc().cycle(CycleState::MachineEcall, CycleState::PoseidonEntry, 0, 0, 0)
}

/// Whether `after` is the outcome of the machine ecall that register A7
/// selects in `s`.
pub open spec fn machine_ecall_outcome(s: MachineState, after: MachineState) -> bool {
    let selected = s.load_reg(REG_A7 as int);
    let number = s.reg(REG_A7 as int);
    if number == HOST_ECALL_TERMINATE {
        after == terminated(selected)
    } else if number == HOST_ECALL_READ {
        read_served(selected, after)
    } else if number == HOST_ECALL_WRITE {
        write_served(selected, after)
    } else {
        number == HOST_ECALL_POSEIDON2 && after == poseidon_entered(selected)
    }
}

/// Whether `e` is a fault that can end the machine ecall that register A7
/// selects in `s`, leaving `after`.  Where the owner faults at the load
/// of the register, the machine is as it was.  A number that selects
/// nothing is fatal as soon as it is loaded.
pub open spec fn machine_ecall_fault(s: MachineState, after: MachineState, e: ExecError) -> bool {
    let selected = s.load_reg(REG_A7 as int);
    let number = s.reg(REG_A7 as int);
    if e.from_context() && after == s {
        true
    } else if number == HOST_ECALL_TERMINATE {
        e.from_context() && terminate_stopped(selected, after)
    } else if number == HOST_ECALL_READ {
        read_fault(selected, after, e)
    } else if number == HOST_ECALL_WRITE {
        write_fault(selected, after, e)
    } else if number == HOST_ECALL_POSEIDON2 {
        if e.from_context() {
            after == selected.advance_pc()
        } else {
            e == ExecError::AddressOverflow(s.pc) && s.pc.0 + WORD_SIZE > u32::MAX && after == selected
        }
    } else {
        e == ExecError::Unimplemented(number) && after == selected
    }
}

/// Whether an instruction may be fetched from `addr`: never from the zero
/// page, and in user mode not from kernel memory.
pub open spec fn may_fetch(machine_mode: bool, addr: ByteAddr) -> bool {
    !(addr.0 < ZERO_PAGE_END_ADDR || (!machine_mode && addr.0 >= KERNEL_START_ADDR))
}

/// Whether data at `addr` may be read or written: anywhere in machine
/// mode, and in user mode inside user memory.
pub open spec fn may_access(machine_mode: bool, addr: ByteAddr) -> bool {
    machine_mode || spec_is_user_memory(addr)
}

} // verus!
