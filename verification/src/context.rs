//! What the owner of the machine state offers to the dispatcher.

use vstd::prelude::*;
use crate::addr::{ByteAddr, WordAddr, MAX_WORD_ADDR};
use crate::error::ContextError;
use crate::model::{DecodedInstruction, Event, Hook, Instruction, MachineState};
use crate::platform::{CycleState, TrapCause};

verus! {

/// The word `idx` words after `base`, where that is a word of the address
/// space.
pub fn register_addr(base: WordAddr, idx: usize) -> (r: Option<WordAddr>)
    ensures
        base.0 + idx <= MAX_WORD_ADDR ==> r == Some(WordAddr((base.0 + idx) as u32)),
        base.0 + idx > MAX_WORD_ADDR ==> r is None,
{
    if idx <= MAX_WORD_ADDR as usize {
        base.checked_add(idx as u32)
    } else {
        None
    }
}

/// The owner of the program counter, the mode, the memory and the link to
/// the host.  The dispatcher reaches all state through it.
///
/// Each method says how the model of the machine changes when it succeeds.
/// A method that fails has done nothing to the model: the run is over, and
/// what was done before stands.
pub trait Risc0Context {
    /// The machine as this owner holds it.
    spec fn view(&self) -> MachineState;

    /// Whether the word at `addr` lies in the memory that this owner has
    /// committed.  A load or a store of a word outside it is an address
    /// fault.  An owner that does not say has committed all of memory.
    open spec fn committed(&self, addr: WordAddr) -> bool {
        true
    }

    /// Whether owners of this kind take memory back when they are asked to
    /// rewind.  An owner that keeps the hook as it is does not.
    open spec fn rewinds() -> bool {
        false
    }

    /// Whether owners of this kind may refuse to go on when they are told
    /// of a suspend.  An owner that keeps the hook as it is never does.
    open spec fn may_refuse_suspend() -> bool {
        false
    }

    /// Whether owners of this kind may refuse to go on when they are told
    /// of a resume.  An owner that keeps the hook as it is never does.
    open spec fn may_refuse_resume() -> bool {
        false
    }

    /// Get the program counter.
    fn get_pc(&self) -> (pc: ByteAddr)
        ensures
            pc == self@.pc,
    ;

    /// Set the program counter.
    fn set_pc(&mut self, addr: ByteAddr)
        ensures
            final(self)@ == old(self)@.with_pc(addr),
    ;

    /// Get the machine mode.
    fn get_machine_mode(&self) -> (mode: u32)
        ensures
            mode == self@.machine_mode,
    ;

    /// Set the machine mode.
    fn set_machine_mode(&mut self, mode: u32)
        ensures
            final(self)@ == old(self)@.with_mode(mode),
    ;

    fn on_insn_start(&mut self, insn: &Instruction, decoded: &DecodedInstruction) -> (r: Result<(), ContextError>)
        ensures
            r is Ok ==> final(self)@ == old(self)@.event(
                Event::InsnStart { insn: *insn, decoded: *decoded },
            ),
            r is Err ==> final(self)@ == old(self)@,
    ;

    fn on_insn_end(&mut self, insn: &Instruction, decoded: &DecodedInstruction) -> (r: Result<(), ContextError>)
        ensures
            r is Ok ==> final(self)@ == old(self)@.event(
                Event::InsnEnd { insn: *insn, decoded: *decoded },
            ),
            r is Err ==> final(self)@ == old(self)@,
    ;

    /// Read a word without instrumentation: nothing of the model changes.
    fn peek_u32(&mut self, addr: WordAddr) -> (r: Result<u32, ContextError>)
        ensures
            r matches Ok(word) ==> word == old(self)@.memory[addr],
            final(self)@ == old(self)@,
    ;

    /// Load the register `idx` words after `base`: an instrumented load of
    /// that word.  A register past the end of the address space is an
    /// address fault at `base`, one outside committed memory an address
    /// fault at its word.
    fn load_register(&mut self, base: WordAddr, idx: usize) -> (r: Result<u32, ContextError>)
        ensures
            r matches Ok(word) ==> {
                &&& base.0 + idx <= MAX_WORD_ADDR
                &&& word == old(self)@.memory[WordAddr((base.0 + idx) as u32)]
                &&& final(self)@ == old(self)@.load(WordAddr((base.0 + idx) as u32))
            },
            base.0 + idx > MAX_WORD_ADDR ==> r == Err::<u32, ContextError>(ContextError::AddressFault(base)),
            base.0 + idx <= MAX_WORD_ADDR && !old(self).committed(WordAddr((base.0 + idx) as u32)) ==> r
                == Err::<u32, ContextError>(ContextError::AddressFault(WordAddr((base.0 + idx) as u32))),
            r is Err ==> final(self)@ == old(self)@,
    {
        match register_addr(base, idx) {
            Some(addr) => self.load_u32(addr),
            None => Err(ContextError::AddressFault(base)),
        }
    }

    /// Store to the register `idx` words after `base`: an instrumented
    /// store to that word.  A register past the end of the address space is
    /// an address fault at `base`, one outside committed memory an address
    /// fault at its word.
    fn store_register(&mut self, base: WordAddr, idx: usize, word: u32) -> (r: Result<(), ContextError>)
        ensures
            r is Ok ==> {
                &&& base.0 + idx <= MAX_WORD_ADDR
                &&& final(self)@ == old(self)@.store(WordAddr((base.0 + idx) as u32), word)
            },
            base.0 + idx > MAX_WORD_ADDR ==> r == Err::<(), ContextError>(ContextError::AddressFault(base)),
            base.0 + idx <= MAX_WORD_ADDR && !old(self).committed(WordAddr((base.0 + idx) as u32)) ==> r
                == Err::<(), ContextError>(ContextError::AddressFault(WordAddr((base.0 + idx) as u32))),
            r is Err ==> final(self)@ == old(self)@,
    {
        match register_addr(base, idx) {
            Some(addr) => self.store_u32(addr, word),
            None => Err(ContextError::AddressFault(base)),
        }
    }

    /// Load a word, instrumented.  A word outside committed memory is an
    /// address fault.
    fn load_u32(&mut self, addr: WordAddr) -> (r: Result<u32, ContextError>)
        ensures
            r matches Ok(word) ==> word == old(self)@.memory[addr] && final(self)@ == old(self)@.load(addr),
            !old(self).committed(addr) ==> r == Err::<u32, ContextError>(ContextError::AddressFault(addr)),
            r is Err ==> final(self)@ == old(self)@,
    ;

    /// Store a word, instrumented.  A word outside committed memory is an
    /// address fault.
    fn store_u32(&mut self, addr: WordAddr, word: u32) -> (r: Result<(), ContextError>)
        ensures
            r is Ok ==> final(self)@ == old(self)@.store(addr, word),
            !old(self).committed(addr) ==> r == Err::<(), ContextError>(ContextError::AddressFault(addr)),
            r is Err ==> final(self)@ == old(self)@,
    ;

    /// Take the report of one cycle-state transition.
    fn on_ecall_cycle(&mut self, cur: CycleState, next: CycleState, s0: u32, s1: u32, s2: u32) -> (r: Result<(), ContextError>)
        ensures
            r is Ok ==> final(self)@ == old(self)@.cycle(cur, next, s0, s1, s2),
            r is Err ==> final(self)@ == old(self)@,
    ;

    /// Take the two exit words of the guest.
    fn on_terminate(&mut self, a0: u32, a1: u32)
        ensures
            final(self)@ == old(self)@.event(Event::Terminate { a0: a0, a1: a1 }),
    ;

    /// Put the call of a lifecycle hook on the record.
    fn on_hook(&mut self, hook: Hook)
        ensures
            final(self)@ == old(self)@.event(hook@),
    ;

    /// Called when the machine has been saved.  Unless overridden it puts
    /// the call on the record and succeeds; an override does no more to
    /// the model, and fails only where the owner says that it may.
    fn suspend(&mut self) -> (r: Result<(), ContextError>)
        ensures
            r is Ok ==> final(self)@ == old(self)@.event(Event::Suspend),
            r is Err ==> final(self)@ == old(self)@,
            !Self::may_refuse_suspend() ==> r is Ok,
    {
        self.on_hook(Hook::Suspend);
        Ok(())
    }

    /// Called when the machine has been restored.  Unless overridden it
    /// puts the call on the record and succeeds; an override does no more
    /// to the model, and fails only where the owner says that it may.
    fn resume(&mut self) -> (r: Result<(), ContextError>)
        ensures
            r is Ok ==> final(self)@ == old(self)@.event(Event::Resume),
            r is Err ==> final(self)@ == old(self)@,
            !Self::may_refuse_resume() ==> r is Ok,
    {
        self.on_hook(Hook::Resume);
        Ok(())
    }

    /// Called before a trap is dispatched, so that the owner can take back
    /// what the faulting instruction did to memory.  Unless overridden it
    /// puts the call on the record and does no more; an override may
    /// change memory too, where owners of its kind rewind.
    fn trap_rewind(&mut self)
        ensures
            final(self)@ == old(self)@.event(Event::TrapRewind).with_memory(final(self)@.memory),
            !Self::rewinds() ==> final(self)@.memory == old(self)@.memory,
    {
        self.on_hook(Hook::TrapRewind);
    }

    /// Called when a trap has been entered.  Unless overridden it puts the
    /// call on the record and does no more; an override does no more to
    /// the model.
    fn trap(&mut self, cause: TrapCause)
        ensures
            final(self)@ == old(self)@.event(Event::Trap { cause: cause }),
    {
        self.on_hook(Hook::Trap(cause));
    }

    /// Ask the host for up to `buf.len()` bytes.  The host fills a prefix of
    /// `buf` and returns its length: it may give fewer bytes than asked for,
    /// never more.
    fn host_read(&mut self, fd: u32, buf: &mut [u8]) -> (r: Result<u32, ContextError>)
        ensures
            final(buf)@.len() == old(buf)@.len(),
            r is Err ==> final(self)@ == old(self)@,
            r matches Ok(n) ==> {
                &&& n <= old(buf)@.len()
                &&& final(self)@ == old(self)@.event(
                    Event::HostRead { fd: fd, len: old(buf)@.len(), data: final(buf)@.take(n as int) },
                )
            },
    ;

    /// Hand `buf` to the host, which returns how many bytes of it it took.
    fn host_write(&mut self, fd: u32, buf: &[u8]) -> (r: Result<u32, ContextError>)
        ensures
            r is Err ==> final(self)@ == old(self)@,
            r matches Ok(n) ==> {
                &&& n <= buf@.len()
                &&& final(self)@ == old(self)@.event(Event::HostWrite { fd: fd, data: buf@, written: n })
            },
    ;
}

} // verus!
