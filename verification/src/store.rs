//! A plain owner of machine state: everything in ordinary memory, every
//! access and report written down.

use vstd::prelude::*;
use std::collections::HashMap;
use crate::addr::{ByteAddr, WordAddr};
use crate::context::Risc0Context;
use crate::error::ContextError;
use crate::model::{DecodedInstruction, Event, Hook, Instruction, MachineState};
use crate::hostio::span_fits;
use crate::platform::{CycleState, MACHINE_REGS_ADDR, USER_REGS_ADDR};
use crate::syscall::{SyscallContext, SyscallTable};
use crate::word::get_byte;

verus! {

/// One entry of the record that a [`RecordingContext`] keeps.
#[derive(Debug, PartialEq, Eq)]
pub enum Record {
    InsnStart { insn: Instruction, decoded: DecodedInstruction },
    InsnEnd { insn: Instruction, decoded: DecodedInstruction },
    Load { addr: WordAddr, word: u32 },
    Store { addr: WordAddr, word: u32 },
    Cycle { cur: CycleState, next: CycleState, s0: u32, s1: u32, s2: u32 },
    Terminate { a0: u32, a1: u32 },
    HostRead { fd: u32, len: usize, data: Vec<u8> },
    HostWrite { fd: u32, data: Vec<u8>, written: u32 },
    Hook(Hook),
}

impl Record {
    /// The entry of the model that this entry stands for.
    pub open spec fn view(&self) -> Event {
        match *self {
            Record::InsnStart { insn, decoded } => Event::InsnStart { insn: insn, decoded: decoded },
            Record::InsnEnd { insn, decoded } => Event::InsnEnd { insn: insn, decoded: decoded },
            Record::Load { addr, word } => Event::Load { addr: addr, word: word },
            Record::Store { addr, word } => Event::Store { addr: addr, word: word },
            Record::Cycle { cur, next, s0, s1, s2 } => Event::Cycle {
                cur: cur,
                next: next,
                s0: s0,
                s1: s1,
                s2: s2,
            },
            Record::Terminate { a0, a1 } => Event::Terminate { a0: a0, a1: a1 },
            Record::HostRead { fd, len, data } => Event::HostRead { fd: fd, len: len as nat, data: data@ },
            Record::HostWrite { fd, data, written } => Event::HostWrite {
                fd: fd,
                data: data@,
                written: written,
            },
            Record::Hook(hook) => hook@,
        }
    }
}

/// The words that a sparse memory holds: what was stored, and zero
/// everywhere else.
pub open spec fn words_of(cells: Map<u32, u32>) -> Map<WordAddr, u32> {
    Map::new(
        |addr: WordAddr| true,
        |addr: WordAddr|
            if cells.contains_key(addr.0) {
                cells[addr.0]
            } else {
                0u32
            },
    )
}

/// The entries of the model that a record stands for.
pub open spec fn events_of(records: Seq<Record>) -> Seq<Event> {
    Seq::new(records.len(), |i: int| records[i]@)
}

/// An owner of machine state that keeps all of it in ordinary memory.
///
/// Memory is sparse and reads as zero where nothing was stored, so no
/// access faults.  Host reads are served from a prepared input, host
/// writes are collected, and every instrumented access and every report
/// is appended to a record.
pub struct RecordingContext {
    pc: ByteAddr,
    machine_mode: u32,
    cells: HashMap<u32, u32>,
    records: Vec<Record>,
    input: Vec<u8>,
    consumed: usize,
    output: Vec<u8>,
    hooks: Vec<Hook>,
    table: SyscallTable,
}

impl RecordingContext {
    /// The host input that has not been read yet.
    pub closed spec fn pending(&self) -> Seq<u8> {
        if self.consumed <= self.input@.len() {
            self.input@.skip(self.consumed as int)
        } else {
            Seq::empty()
        }
    }

    /// The bytes that the host has taken so far.
    pub closed spec fn taken(&self) -> Seq<u8> {
        self.output@
    }

    /// The record as kept.
    pub closed spec fn kept(&self) -> Seq<Record> {
        self.records@
    }

    /// The calls of the lifecycle hooks, oldest first.
    pub closed spec fn called(&self) -> Seq<Hook> {
        self.hooks@
    }

    /// A machine at `pc` in the given mode, with empty memory, an empty
    /// record and `input` as what the host will give.
    pub fn new(pc: ByteAddr, machine_mode: u32, input: Vec<u8>) -> (ctx: RecordingContext)
        ensures
            ctx@.pc == pc,
            ctx@.machine_mode == machine_mode,
            forall|addr: WordAddr| ctx@.memory[addr] == 0,
            ctx@.trace == Seq::<Event>::empty(),
            ctx.pending() == input@,
            ctx.taken() == Seq::<u8>::empty(),
            ctx.called() == Seq::<Hook>::empty(),
    {
        let ctx = RecordingContext {
            pc,
            machine_mode,
            cells: HashMap::new(),
            records: Vec::new(),
            input,
            consumed: 0,
            output: Vec::new(),
            hooks: Vec::new(),
            table: SyscallTable::new(),
        };
        assert(ctx@.trace =~= Seq::<Event>::empty());
        assert(ctx.pending() =~= input@);
        ctx
    }

    /// The record of instrumented accesses and reports, oldest first.
    pub fn records(&self) -> (records: &Vec<Record>)
        ensures
            events_of(records@) == self@.trace,
            records@ == self.kept(),
    {
        &self.records
    }

    /// The calls of the lifecycle hooks, oldest first.
    pub fn hooks(&self) -> (hooks: &Vec<Hook>)
        ensures
            hooks@ == self.called(),
    {
        &self.hooks
    }

    /// The bytes that the host has taken so far.
    pub fn output(&self) -> (output: &Vec<u8>)
        ensures
            output@ == self.taken(),
    {
        &self.output
    }

    /// The word at `addr`, read behind the machine's back.
    pub fn word(&self, addr: WordAddr) -> (word: u32)
        ensures
            word == self@.memory[addr],
    {
        match self.cells.get(&addr.0) {
            Some(word) => *word,
            None => 0,
        }
    }

    /// Put `word` at `addr` behind the machine's back: the record does not
    /// show it.
    pub fn set_word(&mut self, addr: WordAddr, word: u32)
        ensures
            final(self)@ == old(self)@.with_memory(old(self)@.memory.insert(addr, word)),
            final(self).pending() == old(self).pending(),
            final(self).taken() == old(self).taken(),
    {
        self.cells.insert(addr.0, word);
        assert(self@.memory =~= old(self)@.memory.insert(addr, word));
    }
}

impl RecordingContext {
    /// The machine that this owner holds.
    pub closed spec fn model(&self) -> MachineState {
        MachineState {
            pc: self.pc,
            machine_mode: self.machine_mode,
            memory: words_of(self.cells@),
            trace: events_of(self.records@),
        }
    }
}

impl Risc0Context for RecordingContext {
    closed spec fn view(&self) -> MachineState {
        self.model()
    }

    fn get_pc(&self) -> (pc: ByteAddr) {
        self.pc
    }

    fn set_pc(&mut self, addr: ByteAddr) {
        self.pc = addr;
    }

    fn get_machine_mode(&self) -> (mode: u32) {
        self.machine_mode
    }

    fn set_machine_mode(&mut self, mode: u32) {
        self.machine_mode = mode;
    }

    fn on_insn_start(&mut self, insn: &Instruction, decoded: &DecodedInstruction) -> (r: Result<(), ContextError>)
        ensures
            r is Ok,
    {
        self.keep(Record::InsnStart { insn: *insn, decoded: *decoded });
        Ok(())
    }

    fn on_insn_end(&mut self, insn: &Instruction, decoded: &DecodedInstruction) -> (r: Result<(), ContextError>)
        ensures
            r is Ok,
    {
        self.keep(Record::InsnEnd { insn: *insn, decoded: *decoded });
        Ok(())
    }

    fn peek_u32(&mut self, addr: WordAddr) -> (r: Result<u32, ContextError>)
        ensures
            r is Ok,
    {
        Ok(self.word(addr))
    }

    fn load_u32(&mut self, addr: WordAddr) -> (r: Result<u32, ContextError>)
        ensures
            r is Ok,
    {
        let word = self.word(addr);
        self.keep(Record::Load { addr, word });
        Ok(word)
    }

    fn store_u32(&mut self, addr: WordAddr, word: u32) -> (r: Result<(), ContextError>)
        ensures
            r is Ok,
    {
        self.set_word(addr, word);
        self.keep(Record::Store { addr, word });
        Ok(())
    }

    fn on_ecall_cycle(&mut self, cur: CycleState, next: CycleState, s0: u32, s1: u32, s2: u32) -> (r: Result<(), ContextError>)
        ensures
            r is Ok,
    {
        self.keep(Record::Cycle { cur, next, s0, s1, s2 });
        Ok(())
    }

    fn on_terminate(&mut self, a0: u32, a1: u32) {
        self.keep(Record::Terminate { a0, a1 });
    }

    fn on_hook(&mut self, hook: Hook)
        ensures
            final(self).called() == old(self).called().push(hook),
    {
        self.hooks.push(hook);
        self.keep(Record::Hook(hook));
    }

    /// Give the next bytes of the prepared input: as many as `buf` holds,
    /// or all that is left where that is less.
    fn host_read(&mut self, fd: u32, buf: &mut [u8]) -> (r: Result<u32, ContextError>)
        ensures
            r is Ok,
            r matches Ok(n) ==> {
                &&& n == if old(self).pending().len() < old(buf)@.len() {
                    old(self).pending().len()
                } else {
                    old(buf)@.len()
                } || n == u32::MAX
                &&& final(buf)@.take(n as int) == old(self).pending().take(n as int)
                &&& final(self).pending() == old(self).pending().skip(n as int)
                &&& final(self).taken() == old(self).taken()
            },
    {
        let first: usize = if self.consumed <= self.input.len() {
            self.consumed
        } else {
            self.input.len()
        };
        let left: usize = self.input.len() - first;
        let mut count: usize = if left < buf.len() {
            left
        } else {
            buf.len()
        };
        if count > u32::MAX as usize {
            count = u32::MAX as usize;
        }
        let mut data: Vec<u8> = Vec::new();
        let mut i: usize = 0;
        while i < count
            invariant
                i <= count <= left,
                count <= buf@.len(),
                buf@.len() == old(buf)@.len(),
                first + left == self.input@.len() <= usize::MAX,
                data@ == self.input@.subrange(first as int, first + i),
                buf@.take(i as int) == data@,
            decreases count - i,
        {
            let byte = self.input[first + i];
            buf[i] = byte;
            data.push(byte);
            i += 1;
            assert(data@ =~= self.input@.subrange(first as int, first + i));
            assert(buf@.take(i as int) =~= data@);
        }
        assert(data@ =~= old(self).pending().take(count as int));
        assert(self.input@.skip(first + count) =~= old(self).pending().skip(count as int));
        self.consumed = first + count;
        let len = buf.len();
        self.keep(Record::HostRead { fd, len, data });
        Ok(count as u32)
    }

    /// Take all of `buf`.
    fn host_write(&mut self, fd: u32, buf: &[u8]) -> (r: Result<u32, ContextError>)
        ensures
            r is Ok,
            r matches Ok(n) ==> {
                &&& buf@.len() <= u32::MAX ==> n == buf@.len()
                &&& final(self).taken() == old(self).taken() + buf@.take(n as int)
                &&& final(self).pending() == old(self).pending()
            },
    {
        let count: usize = if buf.len() > u32::MAX as usize {
            u32::MAX as usize
        } else {
            buf.len()
        };
        let mut data: Vec<u8> = Vec::new();
        let mut i: usize = 0;
        while i < buf.len()
            invariant
                i <= buf@.len(),
                count <= buf@.len(),
                data@ == buf@.take(i as int),
                self.output@ == old(self).output@ + buf@.take(if i < count { i as int } else { count as int }),
                self.input == old(self).input,
                self.consumed == old(self).consumed,
                self.pc == old(self).pc,
                self.machine_mode == old(self).machine_mode,
                self.cells == old(self).cells,
                self.records == old(self).records,
            decreases buf@.len() - i,
        {
            let byte = buf[i];
            data.push(byte);
            if i < count {
                self.output.push(byte);
            }
            i += 1;
            assert(data@ =~= buf@.take(i as int));
            assert(self.output@ =~= old(self).output@ + buf@.take(if i < count { i as int } else { count as int }));
        }
        assert(data@ =~= buf@);
        self.keep(Record::HostWrite { fd, data, written: count as u32 });
        Ok(count as u32)
    }
}

impl RecordingContext {
    /// Append one entry to the record.
    fn keep(&mut self, record: Record)
        ensures
            final(self)@ == old(self)@.event(record@),
            final(self).pending() == old(self).pending(),
            final(self).taken() == old(self).taken(),
            final(self).called() == old(self).called(),
    {
        self.records.push(record);
        assert(self@.trace =~= old(self)@.trace.push(record@));
    }
}

impl SyscallContext for RecordingContext {
    closed spec fn machine(&self) -> MachineState {
        self.model()
    }

    closed spec fn table(&self) -> SyscallTable {
        self.table
    }

    fn load_register(&mut self, idx: usize) -> (word: u32) {
        let base = if self.machine_mode != 0 {
            MACHINE_REGS_ADDR
        } else {
            USER_REGS_ADDR
        };
        self.word(WordAddr(base / 4 + idx as u32))
    }

    /// The bytes of the span, or an address fault at the word of `addr`
    /// where the span runs past the end of the address space.
    fn load_region(&mut self, addr: ByteAddr, size: u32) -> (r: Result<Vec<u8>, ContextError>)
        ensures
            r is Ok <==> span_fits(addr, size),
    {
        if size > u32::MAX - addr.0 {
            return Err(ContextError::AddressFault(addr.waddr()));
        }
        let mut bytes: Vec<u8> = Vec::new();
        let mut i: u32 = 0;
        while i < size
            invariant
                i <= size,
                addr.0 + size <= u32::MAX,
                self == old(self),
                bytes@ == self.model().bytes(addr, i as nat),
            decreases size - i,
        {
            let here = ByteAddr(addr.0 + i);
            bytes.push(get_byte(self.word(here.waddr()), here.subaddr()));
            i += 1;
        }
        Ok(bytes)
    }

    fn syscall_table(&mut self) -> (table: &mut SyscallTable) {
        &mut self.table
    }
}

} // verus!
