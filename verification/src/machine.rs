//! The dispatcher: it stands between the instruction decoder and the owner
//! of the machine state, and turns ecalls, machine returns and traps into
//! loads, stores and reports.

use vstd::prelude::*;
use crate::addr::{ByteAddr, WordAddr, WORD_SIZE};
use crate::context::Risc0Context;
use crate::error::{ContextError, ExecError};
use crate::model::{
    register_sink, register_slot, word_at, DecodedInstruction, Event, Instruction, MachineState,
};
use crate::platform::{
    is_kernel_memory, is_user_memory, CycleState, TrapCause, ECALL_DISPATCH_ADDR,
    HOST_ECALL_POSEIDON2, HOST_ECALL_READ, HOST_ECALL_TERMINATE, HOST_ECALL_WRITE,
    KERNEL_START_ADDR, MACHINE_REGS_ADDR, MEPC_ADDR, REG_A0, REG_A1, REG_A7, REG_MAX, REG_ZERO,
    SUSPEND_MODE_ADDR, SUSPEND_PC_ADDR, SYSCALL_MAX, TRAP_DISPATCH_ADDR, USER_REGS_ADDR,
    ZERO_PAGE_END_ADDR,
};
use crate::protocol::{
    can_return, ecall_is_served, machine_ecall_fault, machine_ecall_outcome, machine_returned,
    may_access, may_fetch, poseidon_entered, resume_stopped, resumed, rewound, suspend_stopped,
    suspended, terminate_stopped, terminated, trap_entered, trap_outcome, trap_result,
    user_ecall_result,
};

verus! {

/// What the instruction decoder asks of the machine it drives.
pub trait EmuContext {
    /// Handle an environment call.  `Ok(true)` lets the decoder go on with
    /// the next instruction as after any other.
    fn ecall(&mut self) -> Result<bool, ExecError>;

    /// Handle a machine return.
    fn mret(&mut self) -> Result<bool, ExecError>;

    /// Handle a trap.
    fn trap(&mut self, cause: TrapCause) -> Result<bool, ExecError>;

    /// Called when an instruction has been decoded.
    fn on_insn_decoded(&mut self, insn: &Instruction, decoded: &DecodedInstruction) -> Result<(), ExecError>;

    /// Called when an instruction has ended normally.
    fn on_normal_end(&mut self, insn: &Instruction, decoded: &DecodedInstruction) -> Result<(), ExecError>;

    /// Get the program counter.
    fn get_pc(&self) -> ByteAddr;

    /// Set the program counter.
    fn set_pc(&mut self, addr: ByteAddr);

    /// Load from a register.
    fn load_register(&mut self, idx: usize) -> Result<u32, ExecError>;

    /// Store to a register.
    fn store_register(&mut self, idx: usize, word: u32) -> Result<(), ExecError>;

    /// Load from memory.
    fn load_memory(&mut self, addr: WordAddr) -> Result<u32, ExecError>;

    /// Store to memory.
    fn store_memory(&mut self, addr: WordAddr, word: u32) -> Result<(), ExecError>;

    /// Whether an instruction may be fetched from `addr`.
    fn check_insn_load(&self, addr: ByteAddr) -> bool;

    /// Whether data may be loaded from `addr`.
    fn check_data_load(&self, addr: ByteAddr) -> bool;

    /// Whether data may be stored to `addr`.
    fn check_data_store(&self, addr: ByteAddr) -> bool;
}

/// An instruction decoder: it fetches, decodes and executes one instruction
/// on the machine it is given.
pub trait Emulator: Sized {
    /// Whether one step of the decoder `before`, on a machine that it
    /// finds as `found`, may leave the decoder as `after` and the machine
    /// as `left`, and end with `r`.  Of a decoder that does not say, any
    /// step is possible.
    open spec fn steps(before: Self, found: MachineState, after: Self, left: MachineState, r: Result<(), ExecError>) -> bool {
        true
    }

    /// Execute one instruction on `machine`, through what it offers as an
    /// [`EmuContext`].  The machine stays over the owner of machine state
    /// that it was over.
    fn step<C: Risc0Context>(&mut self, machine: &mut Risc0Machine<C>) -> (r: Result<(), ExecError>)
        ensures
            *final(final(machine).ctx) == *final(old(machine).ctx),
            Self::steps(*old(self), old(machine)@, *final(self), final(machine)@, r),
    ;
}

/// A decoder that has one control transfer to execute, and executes it at
/// every step.
#[derive(Clone, Copy, Debug, PartialEq, Eq, Structural)]
pub enum ControlTransfer {
    Ecall,
    Mret,
    Trap(TrapCause),
}

/// The dispatcher over one owner of machine state.  It keeps no state of
/// its own.
///
/// A method that takes the machine by `&mut` says what becomes of the
/// owner's state, `final(self)@`, and that the machine still holds the
/// borrow of the owner that it held before: with that, whoever lent the
/// owner to the machine learns its state when the machine is dropped.
pub struct Risc0Machine<'a, C: Risc0Context> {
    pub ctx: &'a mut C,
}

impl<'a, C: Risc0Context> Risc0Machine<'a, C> {
    /// The machine as the owner holds it.
    pub open spec fn view(&self) -> MachineState {
        self.ctx@
    }

    /// Let the decoder execute one instruction on the machine held by
    /// `ctx`: the decoder finds the machine as `ctx` holds it, what it
    /// leaves is what `ctx` holds afterwards, and its result is the
    /// result.
    pub fn step<E: Emulator>(emu: &mut E, ctx: &'a mut C) -> (r: Result<(), ExecError>)
        ensures
            E::steps(*old(emu), old(ctx)@, *final(emu), final(ctx)@, r),
    {
        let mut this = Risc0Machine { ctx };
        emu.step(&mut this)
    }

    /// Save the program counter and the mode in their two slots, then tell
    /// the owner.  A slot outside committed memory is an address fault.
    pub fn suspend(ctx: &'a mut C) -> (r: Result<(), ExecError>)
        ensures
            match r {
                Ok(()) => final(ctx)@ == suspended(old(ctx)@),
                Err(e) => e.from_context() && suspend_stopped(old(ctx)@, C::may_refuse_suspend(), final(ctx)@),
            },
            !old(ctx).committed(word_at(SUSPEND_PC_ADDR, 0)) ==> r == Err::<(), ExecError>(
                ExecError::Context(ContextError::AddressFault(word_at(SUSPEND_PC_ADDR, 0))),
            ),
    {
        let mut this = Risc0Machine { ctx };
        let pc = this.ctx.get_pc();
        let mode = this.ctx.get_machine_mode();
        this.store_memory(ByteAddr(SUSPEND_PC_ADDR).waddr(), pc.0)?;
        this.store_memory(ByteAddr(SUSPEND_MODE_ADDR).waddr(), mode)?;
        match this.ctx.suspend() {
            Ok(()) => Ok(()),
            Err(e) => Err(ExecError::Context(e)),
        }
    }

    /// Restore the program counter and the mode from their two slots, then
    /// tell the owner.  A slot outside committed memory is an address
    /// fault.
    pub fn resume(ctx: &'a mut C) -> (r: Result<(), ExecError>)
        ensures
            match r {
                Ok(()) => final(ctx)@ == resumed(old(ctx)@),
                Err(e) => e.from_context() && resume_stopped(old(ctx)@, C::may_refuse_resume(), final(ctx)@),
            },
            !old(ctx).committed(word_at(SUSPEND_PC_ADDR, 0)) ==> r == Err::<(), ExecError>(
                ExecError::Context(ContextError::AddressFault(word_at(SUSPEND_PC_ADDR, 0))),
            ),
    {
        let mut this = Risc0Machine { ctx };
        let pc = ByteAddr(this.load_memory(ByteAddr(SUSPEND_PC_ADDR).waddr())?);
        let machine_mode = this.load_memory(ByteAddr(SUSPEND_MODE_ADDR).waddr())?;
        this.ctx.set_pc(pc);
        this.ctx.set_machine_mode(machine_mode);
        match this.ctx.resume() {
            Ok(()) => Ok(()),
            Err(e) => Err(ExecError::Context(e)),
        }
    }

    /// Whether the machine is in machine mode.
    pub fn is_machine_mode(&self) -> (b: bool)
        ensures
            b == self@.is_machine_mode(),
    {
        self.ctx.get_machine_mode() != 0
    }

    /// Move the program counter on by one instruction.
    pub fn next_pc(&mut self) -> (r: Result<(), ExecError>)
        ensures
            *final(final(self).ctx) == *final(old(self).ctx),
            old(self)@.pc.0 + WORD_SIZE <= u32::MAX ==> r is Ok && final(self)@ == old(self)@.advance_pc(),
            old(self)@.pc.0 + WORD_SIZE > u32::MAX ==> r == Err::<(), ExecError>(
                ExecError::AddressOverflow(old(self)@.pc),
            ) && final(self)@ == old(self)@,
    {
        let pc = self.ctx.get_pc();
        match pc.checked_add(WORD_SIZE) {
            Some(next) => {
                self.ctx.set_pc(next);
                Ok(())
            },
            None => Err(ExecError::AddressOverflow(pc)),
        }
    }

    /// A machine ecall: register A7 selects terminate, host read, host
    /// write or the entry to the Poseidon2 circuit.  Any other number is
    /// fatal.
    pub fn machine_ecall(&mut self) -> (r: Result<bool, ExecError>)
        ensures
            *final(final(self).ctx) == *final(old(self).ctx),
            match r {
                Ok(go_on) => !go_on && machine_ecall_outcome(old(self)@, final(self)@),
                Err(e) => machine_ecall_fault(old(self)@, final(self)@, e),
            },
            old(self)@.reg(REG_A7 as int) > HOST_ECALL_POSEIDON2 ==> r is Err,
    {
        let number = self.load_register(REG_A7)?;
        if number == HOST_ECALL_TERMINATE {
            self.ecall_terminate()
        } else if number == HOST_ECALL_READ {
            self.ecall_read()
        } else if number == HOST_ECALL_WRITE {
            self.ecall_write()
        } else if number == HOST_ECALL_POSEIDON2 {
            self.ecall_poseidon2()
        } else {
            Err(ExecError::Unimplemented(number))
        }
    }

    /// A user ecall: control goes to the handler that the table names for
    /// register A7, or, where A7 or the table entry is not acceptable, to
    /// the trap for an environment call from user mode.
    pub fn user_ecall(&mut self) -> (r: Result<bool, ExecError>)
        ensures
            *final(final(self).ctx) == *final(old(self).ctx),
            user_ecall_result(old(self)@, C::rewinds(), final(self)@, r),
            old(self)@.is_machine_mode() ==> r is Err,
    {
        let dispatch_idx = self.load_register(REG_A7)?;
        if dispatch_idx >= SYSCALL_MAX {
            return self.trap(TrapCause::EnvironmentCallFromUserMode);
        }
        let row = WordAddr(ByteAddr(ECALL_DISPATCH_ADDR).waddr().0 + dispatch_idx);
        let dispatch_addr = ByteAddr(self.load_memory(row)?);
        if !dispatch_addr.is_aligned() || dispatch_addr.0 < KERNEL_START_ADDR {
            return self.trap(TrapCause::EnvironmentCallFromUserMode);
        }
        self.enter_trap(dispatch_addr)?;
        Ok(true)
    }

    /// The terminate ecall: the two exit words are read from the user
    /// bank and handed to the owner.
    pub fn ecall_terminate(&mut self) -> (r: Result<bool, ExecError>)
        ensures
            *final(final(self).ctx) == *final(old(self).ctx),
            match r {
                Ok(go_on) => !go_on && final(self)@ == terminated(old(self)@),
                Err(e) => e.from_context() && terminate_stopped(old(self)@, final(self)@),
            },
    {
        self.report(CycleState::MachineEcall, CycleState::Terminate, 0, 0, 0)?;
        let a0 = self.load_memory(WordAddr(ByteAddr(USER_REGS_ADDR).waddr().0 + REG_A0 as u32))?;
        let a1 = self.load_memory(WordAddr(ByteAddr(USER_REGS_ADDR).waddr().0 + REG_A1 as u32))?;
        self.ctx.on_terminate(a0, a1);
        self.report(CycleState::Terminate, CycleState::Suspend, 0, 0, 0)?;
        Ok(false)
    }

    /// The ecall that hands over to the Poseidon2 circuit.
    pub fn ecall_poseidon2(&mut self) -> (r: Result<bool, ExecError>)
        ensures
            *final(final(self).ctx) == *final(old(self).ctx),
            match r {
                Ok(go_on) => !go_on && final(self)@ == poseidon_entered(old(self)@),
                Err(e) => if e.from_context() {
                    final(self)@ == old(self)@.advance_pc()
                } else {
                    e == ExecError::AddressOverflow(old(self)@.pc)
                },
            },
            r == Err::<bool, ExecError>(ExecError::AddressOverflow(old(self)@.pc)) <==> old(self)@.pc.0
                + WORD_SIZE > u32::MAX,
            old(self)@.pc.0 + WORD_SIZE > u32::MAX ==> final(self)@ == old(self)@,
    {
        self.next_pc()?;
        self.report(CycleState::MachineEcall, CycleState::PoseidonEntry, 0, 0, 0)?;
        Ok(false)
    }

    /// Enter the handler at `dispatch_addr`: save the program counter and
    /// go to machine mode.  Only user mode can be left this way.
    pub fn enter_trap(&mut self, dispatch_addr: ByteAddr) -> (r: Result<(), ExecError>)
        ensures
            *final(final(self).ctx) == *final(old(self).ctx),
            match r {
                Ok(()) => !old(self)@.is_machine_mode() && final(self)@ == trap_entered(
                    old(self)@,
                    dispatch_addr,
                ),
                Err(e) => (e.from_context() || e == ExecError::IllegalTrap) && final(self)@ == old(self)@,
            },
            r == Err::<(), ExecError>(ExecError::IllegalTrap) <==> old(self)@.is_machine_mode(),
            old(self)@.is_machine_mode() ==> final(self)@ == old(self)@,
    {
        if self.is_machine_mode() {
            return Err(ExecError::IllegalTrap);
        }
        let pc = self.ctx.get_pc();
        self.store_memory(ByteAddr(MEPC_ADDR).waddr(), pc.0)?;
        self.ctx.set_pc(dispatch_addr);
        self.ctx.set_machine_mode(1);
        Ok(())
    }

    /// Dispatch the trap for `cause` from the machine as the owner's
    /// rewind left it: load the row of the trap table, refuse an entry that
    /// is no valid handler, enter the handler, and tell the owner.
    pub fn dispatch_trap(&mut self, cause: TrapCause) -> (r: Result<bool, ExecError>)
        ensures
            *final(final(self).ctx) == *final(old(self).ctx),
            trap_outcome(old(self)@, final(self)@, cause, r),
    {
        let row = WordAddr(ByteAddr(TRAP_DISPATCH_ADDR).waddr().0 + cause.as_u32());
        let dispatch_addr = ByteAddr(self.load_memory(row)?);
        if !dispatch_addr.is_aligned() || !is_kernel_memory(dispatch_addr) {
            return Err(ExecError::InvalidTrapAddress(dispatch_addr, cause));
        }
        self.enter_trap(dispatch_addr)?;
        self.ctx.trap(cause);
        Ok(false)
    }

    /// Report one cycle-state transition to the owner.
    pub fn report(&mut self, cur: CycleState, next: CycleState, s0: u32, s1: u32, s2: u32) -> (r: Result<(), ExecError>)
        ensures
            *final(final(self).ctx) == *final(old(self).ctx),
            match r {
                Ok(()) => final(self)@ == old(self)@.cycle(cur, next, s0, s1, s2),
                Err(e) => e.from_context() && final(self)@ == old(self)@,
            },
    {
        match self.ctx.on_ecall_cycle(cur, next, s0, s1, s2) {
            Ok(()) => Ok(()),
            Err(e) => Err(ExecError::Context(e)),
        }
    }
}

impl<'a, C: Risc0Context> EmuContext for Risc0Machine<'a, C> {
    /// An environment call: a machine ecall in machine mode, a user ecall
    /// in user mode.
    fn ecall(&mut self) -> (r: Result<bool, ExecError>)
        ensures
            *final(final(self).ctx) == *final(old(self).ctx),
            if old(self)@.is_machine_mode() {
                match r {
                    Ok(go_on) => !go_on && machine_ecall_outcome(old(self)@, final(self)@),
                    Err(e) => machine_ecall_fault(old(self)@, final(self)@, e),
                }
            } else {
                user_ecall_result(old(self)@, C::rewinds(), final(self)@, r)
            },
    {
        if self.is_machine_mode() {
            self.machine_ecall()
        } else {
            self.user_ecall()
        }
    }

    /// A machine return: back to user mode, one instruction after the
    /// saved program counter.  Outside machine mode it is fatal.
    fn mret(&mut self) -> (r: Result<bool, ExecError>)
        ensures
            *final(final(self).ctx) == *final(old(self).ctx),
            match r {
                Ok(go_on) => go_on && old(self)@.is_machine_mode() && can_return(old(self)@)
                    && final(self)@ == machine_returned(old(self)@),
                Err(e) => (e.from_context() && final(self)@ == old(self)@) || e == ExecError::IllegalMret
                    || (e == ExecError::AddressOverflow(ByteAddr(old(self)@.memory[word_at(MEPC_ADDR, 0)]))
                    && old(self)@.is_machine_mode() && !can_return(old(self)@) && final(self)@
                    == old(self)@.load(word_at(MEPC_ADDR, 0))),
            },
            r == Err::<bool, ExecError>(ExecError::IllegalMret) <==> !old(self)@.is_machine_mode(),
            !old(self)@.is_machine_mode() ==> final(self)@ == old(self)@,
    {
        if !self.is_machine_mode() {
            return Err(ExecError::IllegalMret);
        }
        let dispatch_addr = ByteAddr(self.load_memory(ByteAddr(MEPC_ADDR).waddr())?);
        match dispatch_addr.checked_add(WORD_SIZE) {
            Some(next) => {
                self.ctx.set_pc(next);
                self.ctx.set_machine_mode(0);
                Ok(true)
            },
            None => Err(ExecError::AddressOverflow(dispatch_addr)),
        }
    }

    /// A trap: the owner is asked to take back the faulting instruction,
    /// then the trap is dispatched from what it left.  A bad table entry
    /// is fatal, and so is a trap in machine mode.
    fn trap(&mut self, cause: TrapCause) -> (r: Result<bool, ExecError>)
        ensures
            *final(final(self).ctx) == *final(old(self).ctx),
            trap_result(old(self)@, C::rewinds(), final(self)@, cause, r),
            old(self)@.is_machine_mode() ==> r is Err,
    {
        self.ctx.trap_rewind();
        let ghost left = self@;
        let r = self.dispatch_trap(cause);
        proof {
            assert(left == rewound(old(self)@, left.memory));
            assert(trap_outcome(rewound(old(self)@, left.memory), self@, cause, r));
        }
        r
    }

    fn on_insn_decoded(&mut self, insn: &Instruction, decoded: &DecodedInstruction) -> (r: Result<(), ExecError>)
        ensures
            *final(final(self).ctx) == *final(old(self).ctx),
            match r {
                Ok(()) => final(self)@ == old(self)@.event(Event::InsnStart { insn: *insn, decoded: *decoded }),
                Err(e) => e.from_context() && final(self)@ == old(self)@,
            },
    {
        match self.ctx.on_insn_start(insn, decoded) {
            Ok(()) => Ok(()),
            Err(e) => Err(ExecError::Context(e)),
        }
    }

    fn on_normal_end(&mut self, insn: &Instruction, decoded: &DecodedInstruction) -> (r: Result<(), ExecError>)
        ensures
            *final(final(self).ctx) == *final(old(self).ctx),
            match r {
                Ok(()) => final(self)@ == old(self)@.event(Event::InsnEnd { insn: *insn, decoded: *decoded }),
                Err(e) => e.from_context() && final(self)@ == old(self)@,
            },
    {
        match self.ctx.on_insn_end(insn, decoded) {
            Ok(()) => Ok(()),
            Err(e) => Err(ExecError::Context(e)),
        }
    }

    fn get_pc(&self) -> (pc: ByteAddr)
        ensures
            pc == self@.pc,
    {
        self.ctx.get_pc()
    }

    fn set_pc(&mut self, addr: ByteAddr)
        ensures
            *final(final(self).ctx) == *final(old(self).ctx),
            final(self)@ == old(self)@.with_pc(addr),
    {
        self.ctx.set_pc(addr);
    }

    /// Load register `idx` from the bank of the current mode.
    fn load_register(&mut self, idx: usize) -> (r: Result<u32, ExecError>)
        ensures
            *final(final(self).ctx) == *final(old(self).ctx),
            match r {
                Ok(word) => word == old(self)@.reg(idx as int) && final(self)@ == old(self)@.load_reg(
                    idx as int,
                ),
                Err(e) => e.from_context() && final(self)@ == old(self)@,
            },
            idx < REG_MAX && !old(self).ctx.committed(
                register_slot(old(self)@.is_machine_mode(), idx as int),
            ) ==> r == Err::<u32, ExecError>(
                ExecError::Context(
                    ContextError::AddressFault(register_slot(old(self)@.is_machine_mode(), idx as int)),
                ),
            ),
    {
        let base = if self.is_machine_mode() {
            ByteAddr(MACHINE_REGS_ADDR).waddr()
        } else {
            ByteAddr(USER_REGS_ADDR).waddr()
        };
        match self.ctx.load_register(base, idx) {
            Ok(word) => Ok(word),
            Err(e) => Err(ExecError::Context(e)),
        }
    }

    /// Store to register `idx` of the bank of the current mode.  A write
    /// of the zero register goes to a word that is never read.
    fn store_register(&mut self, idx: usize, word: u32) -> (r: Result<(), ExecError>)
        ensures
            *final(final(self).ctx) == *final(old(self).ctx),
            match r {
                Ok(()) => final(self)@ == old(self)@.store_reg(idx as int, word),
                Err(e) => e.from_context() && final(self)@ == old(self)@,
            },
            idx < REG_MAX && !old(self).ctx.committed(
                register_sink(old(self)@.is_machine_mode(), idx as int),
            ) ==> r == Err::<(), ExecError>(
                ExecError::Context(
                    ContextError::AddressFault(register_sink(old(self)@.is_machine_mode(), idx as int)),
                ),
            ),
    {
        let mut base = if self.is_machine_mode() {
            ByteAddr(MACHINE_REGS_ADDR).waddr()
        } else {
            ByteAddr(USER_REGS_ADDR).waddr()
        };
        if idx == REG_ZERO {
            base = WordAddr(base.0 + (REG_MAX * 2) as u32);
        }
        match self.ctx.store_register(base, idx, word) {
            Ok(()) => Ok(()),
            Err(e) => Err(ExecError::Context(e)),
        }
    }

    fn load_memory(&mut self, addr: WordAddr) -> (r: Result<u32, ExecError>)
        ensures
            *final(final(self).ctx) == *final(old(self).ctx),
            match r {
                Ok(word) => word == old(self)@.memory[addr] && final(self)@ == old(self)@.load(addr),
                Err(e) => e.from_context() && final(self)@ == old(self)@,
            },
            !old(self).ctx.committed(addr) ==> r == Err::<u32, ExecError>(
                ExecError::Context(ContextError::AddressFault(addr)),
            ),
    {
        match self.ctx.load_u32(addr) {
            Ok(word) => Ok(word),
            Err(e) => Err(ExecError::Context(e)),
        }
    }

    fn store_memory(&mut self, addr: WordAddr, word: u32) -> (r: Result<(), ExecError>)
        ensures
            *final(final(self).ctx) == *final(old(self).ctx),
            match r {
                Ok(()) => final(self)@ == old(self)@.store(addr, word),
                Err(e) => e.from_context() && final(self)@ == old(self)@,
            },
            !old(self).ctx.committed(addr) ==> r == Err::<(), ExecError>(
                ExecError::Context(ContextError::AddressFault(addr)),
            ),
    {
        match self.ctx.store_u32(addr, word) {
            Ok(()) => Ok(()),
            Err(e) => Err(ExecError::Context(e)),
        }
    }

    fn check_insn_load(&self, addr: ByteAddr) -> (ok: bool)
        ensures
            ok == may_fetch(self@.is_machine_mode(), addr),
    {
        !(addr.0 < ZERO_PAGE_END_ADDR || (!self.is_machine_mode() && addr.0 >= KERNEL_START_ADDR))
    }

    fn check_data_load(&self, addr: ByteAddr) -> (ok: bool)
        ensures
            ok == may_access(self@.is_machine_mode(), addr),
    {
        self.is_machine_mode() || is_user_memory(addr)
    }

    fn check_data_store(&self, addr: ByteAddr) -> (ok: bool)
        ensures
            ok == may_access(self@.is_machine_mode(), addr),
    {
        self.check_data_load(addr)
    }
}

impl Emulator for ControlTransfer {
    /// The decoder stays as it is, and the machine does what the control
    /// transfer does to it.
    open spec fn steps(before: Self, found: MachineState, after: Self, left: MachineState, r: Result<(), ExecError>) -> bool {
        &&& after == before
        &&& match before {
            ControlTransfer::Ecall => if found.is_machine_mode() {
                match r {
                    Ok(()) => machine_ecall_outcome(found, left),
                    Err(e) => machine_ecall_fault(found, left, e),
                }
            } else {
                match r {
                    Ok(()) => user_ecall_result(found, true, left, Ok(ecall_is_served(found))),
                    Err(e) => user_ecall_result(found, true, left, Err(e)),
                }
            },
            ControlTransfer::Mret => match r {
                Ok(()) => found.is_machine_mode() && can_return(found) && left == machine_returned(found),
                Err(e) => {
                    &&& e == ExecError::IllegalMret <==> !found.is_machine_mode()
                    &&& e == ExecError::IllegalMret ==> left == found
                    &&& (e.from_context() && left == found) || e == ExecError::IllegalMret || (e
                        is AddressOverflow && !can_return(found) && left == found.load(
                        word_at(MEPC_ADDR, 0),
                    ))
                },
            },
            ControlTransfer::Trap(cause) => match r {
                Ok(()) => trap_result(found, true, left, cause, Ok(false)),
                Err(e) => trap_result(found, true, left, cause, Err(e)),
            },
        }
    }

    fn step<C: Risc0Context>(&mut self, machine: &mut Risc0Machine<C>) -> (r: Result<(), ExecError>) {
        let done = match *self {
            ControlTransfer::Ecall => machine.ecall(),
            ControlTransfer::Mret => machine.mret(),
            ControlTransfer::Trap(cause) => machine.trap(cause),
        };
        match done {
            Ok(_) => Ok(()),
            Err(e) => Err(e),
        }
    }
}

} // verus!
