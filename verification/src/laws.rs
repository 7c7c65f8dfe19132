//! What holds of every run of the dispatcher.

use vstd::prelude::*;
use crate::addr::{ByteAddr, WordAddr, WORD_SIZE};
use crate::delivery::{read_grows_the_record, record_grew};
use crate::hostio::{
    head_len, host_read_done, host_write_done, phase_closed, read_requested, read_served,
    transfer_fd, transfer_len, transfer_ptr, words_end, words_stored, write_requested, write_served,
};
use crate::model::{byte_at, register_slot, word_at, Event, MachineState};
use crate::platform::{
    CycleState, TrapCause, KERNEL_START_ADDR, REG_A0, REG_A7, REG_MAX, SUSPEND_MODE_ADDR,
    SUSPEND_PC_ADDR, SYSCALL_MAX,
};
use crate::protocol::{
    can_return, ecall_looked_up, ecall_target, machine_returned, may_access, may_fetch, resumed,
    rewound, suspended, trap_entered, trap_outcome, trap_result, trap_row, trap_target,
    trap_verdict, user_ecall_result, valid_ecall_target, valid_trap_target,
};
use crate::error::ExecError;
use crate::platform::MEPC_ADDR;

verus! {

/// Suspend, then resume: the program counter and the mode are what they
/// were before the suspend, whatever they were.
pub proof fn suspend_resume_round_trip(s: MachineState)
    ensures
        resumed(suspended(s)).pc == s.pc,
        resumed(suspended(s)).machine_mode == s.machine_mode,
        resumed(suspended(s)).memory == suspended(s).memory,
{
}

/// A resume restores what the last suspend saved, whatever was done to the
/// machine in between, as long as the two suspend slots kept their words.
pub proof fn resume_restores_saved(s: MachineState, later: MachineState)
    requires
        later.memory[word_at(SUSPEND_PC_ADDR, 0)] == suspended(s).memory[word_at(SUSPEND_PC_ADDR, 0)],
        later.memory[word_at(SUSPEND_MODE_ADDR, 0)] == suspended(s).memory[word_at(
            SUSPEND_MODE_ADDR,
            0,
        )],
    ensures
        resumed(later).pc == s.pc,
        resumed(later).machine_mode == s.machine_mode,
{
}

/// A write of the zero register, in either mode, changes no word from
/// which any register of either bank is read: register zero reads as
/// before.
pub proof fn zero_register_write_is_never_read(s: MachineState, word: u32, machine_mode: bool, idx: int)
    requires
        0 <= idx < REG_MAX,
    ensures
        s.store_reg(0, word).memory[register_slot(machine_mode, idx)] == s.memory[register_slot(
            machine_mode,
            idx,
        )],
        s.store_reg(0, word).with_mode(if machine_mode { 1u32 } else { 0u32 }).reg(0) == s.with_mode(
            if machine_mode { 1u32 } else { 0u32 },
        ).reg(0),
{
}

/// A write of any other register is read back from that register, in the
/// mode in which it was written.
pub proof fn register_write_is_read_back(s: MachineState, idx: int, word: u32)
    requires
        0 < idx < REG_MAX,
    ensures
        s.store_reg(idx, word).reg(idx) == word,
{
}

/// A host read that asks for no bytes: register A0 becomes zero, the
/// program counter moves on once, and after the entry to the read the one
/// transition reported is the one to decoding.
pub proof fn empty_read_goes_to_decode(s: MachineState, after: MachineState)
    requires
        transfer_len(s) == 0,
        read_served(s, after),
    ensures
        after == read_requested(s).event(
            Event::HostRead { fd: transfer_fd(s), len: 0, data: Seq::<u8>::empty() },
        ).store_reg(REG_A0 as int, 0).advance_pc().cycle(
            CycleState::HostReadSetup,
            CycleState::Decode,
            transfer_ptr(s).spec_waddr().0,
            transfer_ptr(s).spec_subaddr(),
            0,
        ),
        after.pc == byte_at(s.pc, WORD_SIZE as int),
        after.reg(REG_A0 as int) == 0,
        after.memory == s.memory.insert(register_slot(s.is_machine_mode(), REG_A0 as int), 0),
{
    let data = choose|data: Seq<u8>| data.len() <= transfer_len(s) && after == #[trigger] host_read_done(s, data);
    assert(data =~= Seq::<u8>::empty());
    let asked = read_requested(s).event(
        Event::HostRead { fd: transfer_fd(s), len: 0, data: Seq::<u8>::empty() },
    );
    let set_up = phase_closed(
        asked.store_reg(REG_A0 as int, 0),
        transfer_ptr(s),
        0,
        0,
        CycleState::HostReadSetup,
    );
    assert(head_len(transfer_ptr(s), 0) == 0);
    assert(words_end(0, 0) == 0);
    assert(words_stored(set_up, transfer_ptr(s), data, 0) == set_up);
    assert(after == set_up);
}

/// A host write that asks for no bytes: register A0 becomes zero, the
/// program counter moves on once, and after the entry to the write the
/// one transition reported is the one to decoding.
pub proof fn empty_write_goes_to_decode(s: MachineState, after: MachineState)
    requires
        transfer_len(s) == 0,
        write_served(s, after),
    ensures
        after == write_requested(s).event(
            Event::HostWrite { fd: transfer_fd(s), data: Seq::<u8>::empty(), written: 0 },
        ).store_reg(REG_A0 as int, 0).advance_pc().cycle(
            CycleState::HostWrite,
            CycleState::Decode,
            0,
            0,
            0,
        ),
        after.pc == byte_at(s.pc, WORD_SIZE as int),
        after.reg(REG_A0 as int) == 0,
        after.memory == s.memory.insert(register_slot(s.is_machine_mode(), REG_A0 as int), 0),
{
    let written = choose|written: u32| written <= transfer_len(s) && after == #[trigger] host_write_done(s, written);
    assert(s.bytes(transfer_ptr(s), 0) =~= Seq::<u8>::empty());
}

/// A host write changes nothing in memory but register A0, which holds
/// what the host took, and moves the program counter on once.
pub proof fn write_changes_register_a0_alone(s: MachineState, written: u32)
    ensures
        host_write_done(s, written).memory == s.memory.insert(
            register_slot(s.is_machine_mode(), REG_A0 as int),
            written,
        ),
        host_write_done(s, written).reg(REG_A0 as int) == written,
        host_write_done(s, written).pc == byte_at(s.pc, WORD_SIZE as int),
        host_write_done(s, written).machine_mode == s.machine_mode,
{
}

/// A trap under an owner that does not rewind follows the trap table as
/// it stands: unless the owner faults, it ends as the verdict on the
/// table entry says.  Taken, it is at that entry in machine mode, with
/// the program counter of the faulting instruction saved and the owner
/// told last.  Fatal, it leaves program counter, mode and memory as they
/// were and the owner untold.
pub proof fn trap_follows_the_table(s: MachineState, after: MachineState, cause: TrapCause, r: Result<bool, ExecError>)
    requires
        trap_result(s, false, after, cause, r),
        !(r matches Err(e) && e.from_context()),
    ensures
        r == trap_verdict(s, cause),
        valid_trap_target(trap_target(s, cause)) && !s.is_machine_mode() <==> r == Ok::<bool, ExecError>(false),
        r is Ok ==> {
            &&& after.pc == trap_target(s, cause)
            &&& after.is_machine_mode()
            &&& after.memory == s.memory.insert(word_at(MEPC_ADDR, 0), s.pc.0)
            &&& after.trace.last() == (Event::Trap { cause: cause })
        },
        r is Err ==> {
            &&& after.pc == s.pc
            &&& after.machine_mode == s.machine_mode
            &&& after.memory == s.memory
            &&& after.trace == s.trace.push(Event::TrapRewind).push(
                Event::Load { addr: trap_row(cause), word: s.memory[trap_row(cause)] },
            )
        },
{
    let memory = choose|memory: Map<WordAddr, u32>|
        memory == s.memory && trap_outcome(#[trigger] rewound(s, memory), after, cause, r);
    assert(rewound(s, memory).memory == s.memory);
}

/// A trap that is taken, under any owner, enters machine mode at the
/// entry that the trap table holds for its cause, a word of kernel
/// memory, with the program counter of the faulting instruction saved
/// and the owner told last.
pub proof fn taken_trap_is_at_the_table_entry(s: MachineState, rewinds: bool, after: MachineState, cause: TrapCause)
    requires
        trap_result(s, rewinds, after, cause, Ok(false)),
    ensures
        !s.is_machine_mode(),
        after.is_machine_mode(),
        after.pc == trap_target(after, cause),
        valid_trap_target(after.pc),
        after.memory[word_at(MEPC_ADDR, 0)] == s.pc.0,
        after.trace.last() == (Event::Trap { cause: cause }),
{
    let memory = choose|memory: Map<WordAddr, u32>|
        (rewinds || memory == s.memory) && trap_outcome(
            #[trigger] rewound(s, memory),
            after,
            cause,
            Ok(false),
        );
    assert(after.pc == trap_target(rewound(s, memory), cause));
}

/// A trap in machine mode is fatal, under any owner: unless the owner
/// faults, program counter and mode stay, nothing is stored, and the
/// owner is not told of a trap.
pub proof fn trap_in_machine_mode_is_fatal(s: MachineState, rewinds: bool, after: MachineState, cause: TrapCause, r: Result<bool, ExecError>)
    requires
        trap_result(s, rewinds, after, cause, r),
        s.is_machine_mode(),
    ensures
        r is Err,
        !(r matches Err(e) && e.from_context()) ==> {
            &&& r == Err::<bool, ExecError>(ExecError::IllegalTrap) || (r matches Err(e) && e
                is InvalidTrapAddress)
            &&& after.pc == s.pc
            &&& after.machine_mode == s.machine_mode
            &&& after.trace.last() is Load
            &&& !rewinds ==> after.memory == s.memory
        },
{
    let memory = choose|memory: Map<WordAddr, u32>|
        (rewinds || memory == s.memory) && trap_outcome(#[trigger] rewound(s, memory), after, cause, r);
    assert(rewound(s, memory).is_machine_mode());
}

/// A user ecall whose number is not below the size of the table, or whose
/// table entry is misaligned or lies below the kernel boundary, is not
/// executed at that entry: it is the trap for an environment call from
/// user mode.  Where it succeeds, the decoder is told that the
/// instruction did not complete, and the machine is in machine mode at
/// the entry of the trap table.  Under an owner that does not rewind and
/// does not fault, it ends as the verdict on the table as it was says:
/// taken at that entry, or fatal with program counter, mode and memory
/// as they were.
pub proof fn refused_ecall_is_trapped(s: MachineState, rewinds: bool, after: MachineState, r: Result<bool, ExecError>)
    requires
        user_ecall_result(s, rewinds, after, r),
        s.reg(REG_A7 as int) >= SYSCALL_MAX || !ecall_target(s).spec_is_aligned() || ecall_target(s).0
            < KERNEL_START_ADDR,
    ensures
        !(r matches Err(e) && e.from_context()) ==> trap_result(
            ecall_looked_up(s),
            rewinds,
            after,
            TrapCause::EnvironmentCallFromUserMode,
            r,
        ),
        r matches Ok(go_on) ==> {
            &&& !go_on
            &&& after.is_machine_mode()
            &&& valid_trap_target(after.pc)
            &&& after.pc == trap_target(after, TrapCause::EnvironmentCallFromUserMode)
            &&& after.memory[word_at(MEPC_ADDR, 0)] == s.pc.0
            &&& s.reg(REG_A7 as int) < SYSCALL_MAX ==> after.pc != ecall_target(s)
        },
        !rewinds && !(r matches Err(e) && e.from_context()) ==> {
            &&& r == trap_verdict(s, TrapCause::EnvironmentCallFromUserMode)
            &&& r is Ok ==> after.pc == trap_target(s, TrapCause::EnvironmentCallFromUserMode)
            &&& r is Err ==> after.pc == s.pc && after.machine_mode == s.machine_mode && after.memory
                == s.memory
        },
{
    let cause = TrapCause::EnvironmentCallFromUserMode;
    let before = ecall_looked_up(s);
    assert(before.memory == s.memory && before.pc == s.pc && before.machine_mode == s.machine_mode);
    if r is Ok {
        let memory = choose|memory: Map<WordAddr, u32>|
            (rewinds || memory == before.memory) && trap_outcome(
                #[trigger] rewound(before, memory),
                after,
                cause,
                r,
            );
        assert(r == Ok::<bool, ExecError>(false));
        taken_trap_is_at_the_table_entry(before, rewinds, after, cause);
    }
    if !rewinds && !(r matches Err(e) && e.from_context()) {
        trap_follows_the_table(before, after, cause, r);
        assert(trap_target(before, cause) == trap_target(s, cause));
    }
}

/// Entering a handler and returning from it goes on one instruction after
/// the one that was left, in user mode, provided the handler kept the
/// saved program counter.
pub proof fn machine_return_resumes_after_the_entry(s: MachineState, target: ByteAddr, inside: MachineState)
    requires
        s.pc.0 + WORD_SIZE <= u32::MAX,
        inside.memory[word_at(MEPC_ADDR, 0)] == trap_entered(s, target).memory[word_at(
            MEPC_ADDR,
            0,
        )],
    ensures
        trap_entered(s, target).is_machine_mode(),
        trap_entered(s, target).pc == target,
        can_return(inside),
        machine_returned(inside).pc == byte_at(s.pc, WORD_SIZE as int),
        !machine_returned(inside).is_machine_mode(),
{
}

/// Machine mode is strictly more privileged than user mode: what user
/// mode may fetch or access, machine mode may too, and kernel memory is
/// open to machine mode alone.
pub proof fn machine_mode_is_more_privileged(addr: ByteAddr)
    ensures
        may_fetch(false, addr) ==> may_fetch(true, addr),
        may_access(false, addr) ==> may_access(true, addr),
        may_access(true, addr),
        addr.0 >= KERNEL_START_ADDR ==> may_fetch(true, addr) && !may_fetch(false, addr) && !may_access(
            false,
            addr,
        ),
{
}

/// Every handler that the trap table may name, the table of user ecalls
/// may name too.
pub proof fn trap_targets_are_ecall_targets(target: ByteAddr)
    requires
        valid_trap_target(target),
    ensures
        valid_ecall_target(target),
{
}

/// What the host gave in a read stands on the record, at the fifth place
/// after the record so far: behind the entry report and the loads of the
/// three argument registers.
pub proof fn host_answer_is_on_record(s: MachineState, data: Seq<u8>)
    requires
        data.len() <= u32::MAX,
    ensures
        host_read_done(s, data).trace.len() > s.trace.len() + 4,
        host_read_done(s, data).trace[s.trace.len() as int + 4] == (Event::HostRead {
            fd: transfer_fd(s),
            len: transfer_len(s) as nat,
            data: data,
        }),
        record_grew(s, host_read_done(s, data)),
{
    let answered = read_requested(s).event(
        Event::HostRead { fd: transfer_fd(s), len: transfer_len(s) as nat, data: data },
    );
    read_grows_the_record(answered, transfer_ptr(s), data);
    assert(answered.trace.len() == s.trace.len() + 5);
    assert(record_grew(answered, host_read_done(s, data)));
    assert(host_read_done(s, data).trace[s.trace.len() as int + 4] == answered.trace[s.trace.len() as int + 4]);
}

/// A host read is determined by the machine it starts from and by what
/// the host gives: two reads from one machine that leave the same record
/// leave the same machine.
pub proof fn same_record_same_read(s: MachineState, one: MachineState, other: MachineState)
    requires
        read_served(s, one),
        read_served(s, other),
        one.trace == other.trace,
    ensures
        one == other,
{
    let a = choose|data: Seq<u8>| data.len() <= transfer_len(s) && one == #[trigger] host_read_done(s, data);
    let b = choose|data: Seq<u8>| data.len() <= transfer_len(s) && other == #[trigger] host_read_done(s, data);
    host_answer_is_on_record(s, a);
    host_answer_is_on_record(s, b);
    assert(a == b);
}

/// A host write is determined by the machine it starts from and by what
/// the host takes: two writes from one machine that leave the same record
/// leave the same machine.
pub proof fn same_record_same_write(s: MachineState, one: MachineState, other: MachineState)
    requires
        write_served(s, one),
        write_served(s, other),
        one.trace == other.trace,
    ensures
        one == other,
{
    let a = choose|written: u32| written <= transfer_len(s) && one == #[trigger] host_write_done(s, written);
    let b = choose|written: u32| written <= transfer_len(s) && other == #[trigger] host_write_done(s, written);
    assert(host_write_done(s, a).trace[s.trace.len() as int + 4] == host_write_done(s, b).trace[s.trace.len() as int + 4]);
}

} // verus!
