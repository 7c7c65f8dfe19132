//! The two host transfers: a read that the host answers with bytes for
//! guest memory, and a write that hands bytes of guest memory to the host.

use vstd::prelude::*;
use crate::addr::{ByteAddr, WORD_SIZE};
use crate::context::Risc0Context;
use crate::error::{ExecError, HostIo};
use crate::machine::{EmuContext, Risc0Machine};
use crate::model::{byte_at, word_at, Event, MachineState};
use crate::platform::{
    CycleState, MAX_IO_BYTES, MAX_IO_WORDS, REG_A0, REG_A1, REG_A2, SAFE_WRITE_ADDR,
};
use crate::word::{get_byte, le_word, make_word, set_byte};

verus! {

/// The descriptor of the transfer that the argument registers ask for.
pub open spec fn transfer_fd(s: MachineState) -> u32 {
    s.reg(REG_A0 as int)
}

/// The first guest byte of the transfer that the argument registers ask
/// for.
pub open spec fn transfer_ptr(s: MachineState) -> ByteAddr {
    ByteAddr(s.reg(REG_A1 as int))
}

/// The length of the transfer that the argument registers ask for.
pub open spec fn transfer_len(s: MachineState) -> u32 {
    s.reg(REG_A2 as int)
}

/// Whether the span of the transfer ends inside the address space.
pub open spec fn span_fits(ptr: ByteAddr, len: u32) -> bool {
    ptr.0 + len <= u32::MAX
}

/// Whether a transfer of `len` bytes at `ptr` is accepted.
pub open spec fn transfer_accepted(ptr: ByteAddr, len: u32) -> bool {
    span_fits(ptr, len) && len <= MAX_IO_BYTES
}

/// The verdict on a transfer of `len` bytes at `ptr`: a span that runs
/// past the end of the address space is an invalid length, a transfer
/// longer than one transfer may be is too big, anything else is accepted.
pub open spec fn transfer_verdict(io: HostIo, ptr: ByteAddr, len: u32) -> Result<(), ExecError> {
    if !span_fits(ptr, len) {
        Err(ExecError::InvalidLength(io, len))
    } else if len > MAX_IO_BYTES {
        Err(ExecError::LengthTooBig(io, len))
    } else {
        Ok(())
    }
}

/// The cycle state that handles what is left of a read: none when nothing
/// is left, bytes while the pointer is unaligned or less than a word is
/// left, words otherwise.
pub open spec fn io_state(ptr: ByteAddr, left: int) -> CycleState {
    if left == 0 {
        CycleState::Decode
    } else if !ptr.spec_is_aligned() || left < WORD_SIZE {
        CycleState::HostReadBytes
    } else {
        CycleState::HostReadWords
    }
}

/// How many of `total` bytes at `ptr` come before the first word boundary.
pub open spec fn head_len(ptr: ByteAddr, total: int) -> int {
    if ptr.spec_is_aligned() {
        0
    } else if total < WORD_SIZE - ptr.spec_subaddr() {
        total
    } else {
        WORD_SIZE - ptr.spec_subaddr()
    }
}

/// The byte index at which the whole words of a read end, where they start
/// at index `head`.
pub open spec fn words_end(head: int, total: int) -> int {
    head + (total - head) / (WORD_SIZE as int) * WORD_SIZE
}

/// The end of a phase of a read, with `at` of `total` bytes delivered: the
/// program counter moves on if that was the last byte, and the transition
/// to the state for what is left is reported, with the pointer's word, its
/// offset in the word and the bytes left.
pub open spec fn phase_closed(s: MachineState, ptr: ByteAddr, total: int, at: int, cur: CycleState) -> MachineState {
    let here = byte_at(ptr, at);
    let moved = if total - at == 0 {
        s.advance_pc()
    } else {
        s
    };
    moved.cycle(
        cur,
        io_state(here, total - at),
        here.spec_waddr().0,
        here.spec_subaddr(),
        (total - at) as u32,
    )
}

/// The bytes `data[from..to]` stored one by one at `ptr + from` and on.
pub open spec fn bytes_stored(s: MachineState, ptr: ByteAddr, data: Seq<u8>, from: int, to: int) -> MachineState
    decreases to - from,
{
    if from >= to {
        s
    } else {
        bytes_stored(s, ptr, data, from, to - 1).store_u8(byte_at(ptr, to - 1), data[to - 1])
    }
}

/// The first `slots` slots of a batch that starts at byte index `at`: a
/// slot below `words` stores the next word of `data` at its place, a slot
/// from `words` on stores zero to the scratch word.
pub open spec fn slots_stored(s: MachineState, ptr: ByteAddr, data: Seq<u8>, at: int, words: int, slots: int) -> MachineState
    decreases slots,
{
    if slots <= 0 {
        s
    } else {
        let before = slots_stored(s, ptr, data, at, words, slots - 1);
        let j = slots - 1;
        if j < words {
            before.store(
                byte_at(ptr, at + WORD_SIZE * j).spec_waddr(),
                le_word(data, at + WORD_SIZE * j),
            )
        } else {
            before.store(word_at(SAFE_WRITE_ADDR, 0), 0)
        }
    }
}

/// The words of the batch that starts at byte index `at`: as many as are
/// left, at most a full batch.
pub open spec fn batch_words(total: int, at: int) -> int {
    if (total - at) / (WORD_SIZE as int) < MAX_IO_WORDS {
        (total - at) / (WORD_SIZE as int)
    } else {
        MAX_IO_WORDS as int
    }
}

/// One batch: all its slots, then the end of the phase.
pub open spec fn batch_stored(s: MachineState, ptr: ByteAddr, data: Seq<u8>, at: int) -> MachineState {
    let words = batch_words(data.len() as int, at);
    phase_closed(
        slots_stored(s, ptr, data, at, words, MAX_IO_WORDS as int),
        ptr,
        data.len() as int,
        at + WORD_SIZE * words,
        CycleState::HostReadWords,
    )
}

/// The whole words of `data` from byte index `at` on, batch after batch.
pub open spec fn words_stored(s: MachineState, ptr: ByteAddr, data: Seq<u8>, at: int) -> MachineState
    decreases data.len() - at,
{
    if at < 0 || data.len() - at < WORD_SIZE {
        s
    } else {
        words_stored(
            batch_stored(s, ptr, data, at),
            ptr,
            data,
            at + WORD_SIZE * batch_words(data.len() as int, at),
        )
    }
}

/// The machine after the bytes `data` that the host gave were delivered
/// at `ptr`: the count goes to register A0, the bytes before the first
/// word boundary are stored one by one, then the whole words in batches,
/// then the bytes after the last whole word.  Each phase ends with a
/// report, and the program counter moves on once, when nothing is left.
pub open spec fn delivered(s: MachineState, ptr: ByteAddr, data: Seq<u8>) -> MachineState {
    let total = data.len() as int;
    let head = head_len(ptr, total);
    let tail = words_end(head, total);
    let set_up = phase_closed(
        s.store_reg(REG_A0 as int, total as u32),
        ptr,
        total,
        0,
        CycleState::HostReadSetup,
    );
    let headed = if head > 0 {
        phase_closed(bytes_stored(set_up, ptr, data, 0, head), ptr, total, head, CycleState::HostReadBytes)
    } else {
        set_up
    };
    let worded = words_stored(headed, ptr, data, head);
    if tail < total {
        phase_closed(bytes_stored(worded, ptr, data, tail, total), ptr, total, total, CycleState::HostReadBytes)
    } else {
        worded
    }
}

/// The machine when a host read has been set up: the entry is reported
/// and the three argument registers are loaded.
pub open spec fn read_requested(s: MachineState) -> MachineState {
    s.cycle(CycleState::MachineEcall, CycleState::HostReadSetup, 0, 0, 0).load_reg(REG_A0 as int).load_reg(
        REG_A1 as int,
    ).load_reg(REG_A2 as int)
}

/// The machine when the host has answered a read with `data`.
pub open spec fn read_answered(s: MachineState, data: Seq<u8>) -> MachineState {
    read_requested(s).event(
        Event::HostRead { fd: transfer_fd(s), len: transfer_len(s) as nat, data: data },
    )
}

/// The machine after a host read that the host answered with `data`.
pub open spec fn host_read_done(s: MachineState, data: Seq<u8>) -> MachineState {
    delivered(read_answered(s, data), transfer_ptr(s), data)
}

/// The machine that a delivery leaves where the program counter cannot
/// move on: all is delivered, but the program counter stands, and the
/// return to decoding is not reported.
pub open spec fn stuck(s: MachineState, ptr: ByteAddr, data: Seq<u8>) -> MachineState {
    MachineState {
        pc: s.pc,
        trace: delivered(s, ptr, data).trace.drop_last(),
        ..delivered(s, ptr, data)
    }
}

/// Whether `after` is the machine after a host read from `s`: the request
/// was accepted and the host gave no more bytes than asked for.
pub open spec fn read_served(s: MachineState, after: MachineState) -> bool {
    &&& transfer_accepted(transfer_ptr(s), transfer_len(s))
    &&& exists|data: Seq<u8>| data.len() <= transfer_len(s) && after == #[trigger] host_read_done(s, data)
}

/// Whether `e` is a fault that can end a host read from `s`, leaving
/// `after`: a fault of the state owner; a refused transfer, with the
/// machine as the request left it; or a program counter that cannot move
/// on when the last byte is delivered.
pub open spec fn read_fault(s: MachineState, after: MachineState, e: ExecError) -> bool {
    ||| e.from_context()
    ||| {
        &&& e == ExecError::AddressOverflow(s.pc)
        &&& s.pc.0 + WORD_SIZE > u32::MAX
        &&& transfer_accepted(transfer_ptr(s), transfer_len(s))
        &&& exists|data: Seq<u8>|
            data.len() <= transfer_len(s) && after == stuck(
                #[trigger] read_answered(s, data),
                transfer_ptr(s),
                data,
            )
    }
    ||| after == read_requested(s) && Err::<(), ExecError>(e) == transfer_verdict(
        HostIo::Read,
        transfer_ptr(s),
        transfer_len(s),
    )
}

/// The machine when a host write has been set up: the entry is reported
/// and the three argument registers are loaded.
pub open spec fn write_requested(s: MachineState) -> MachineState {
    s.cycle(CycleState::MachineEcall, CycleState::HostWrite, 0, 0, 0).load_reg(REG_A0 as int).load_reg(
        REG_A1 as int,
    ).load_reg(REG_A2 as int)
}

/// The end of a host write of which the host took `written` bytes: the
/// count goes to register A0, the program counter moves on, and the
/// return to decoding is reported.
pub open spec fn write_finished(s: MachineState, written: u32) -> MachineState {
    s.store_reg(REG_A0 as int, written).advance_pc().cycle(
        CycleState::HostWrite,
        CycleState::Decode,
        0,
        0,
        0,
    )
}

/// The machine when the span of a write has been handed to the host,
/// which took `written` bytes of it: the span is read without
/// instrumentation and handed over whole.
pub open spec fn write_handed(s: MachineState, written: u32) -> MachineState {
    write_requested(s).event(
        Event::HostWrite {
            fd: transfer_fd(s),
            data: s.bytes(transfer_ptr(s), transfer_len(s) as nat),
            written: written,
        },
    )
}

/// The machine after a host write of which the host took `written` bytes.
pub open spec fn host_write_done(s: MachineState, written: u32) -> MachineState {
    write_finished(write_handed(s, written), written)
}

/// Whether `after` is the machine after a host write from `s`: the
/// request was accepted and the host took no more bytes than it was given.
pub open spec fn write_served(s: MachineState, after: MachineState) -> bool {
    &&& transfer_accepted(transfer_ptr(s), transfer_len(s))
    &&& exists|written: u32| written <= transfer_len(s) && after == #[trigger] host_write_done(s, written)
}

/// Whether `e` is a fault that can end a host write from `s`, leaving
/// `after`: a fault of the state owner; a refused transfer, with the
/// machine as the request left it; or a program counter that cannot move
/// on.
pub open spec fn write_fault(s: MachineState, after: MachineState, e: ExecError) -> bool {
    ||| e.from_context()
    ||| {
        &&& e == ExecError::AddressOverflow(s.pc)
        &&& s.pc.0 + WORD_SIZE > u32::MAX
        &&& transfer_accepted(transfer_ptr(s), transfer_len(s))
        &&& exists|written: u32|
            written <= transfer_len(s) && after == (#[trigger] write_handed(s, written)).store_reg(
                REG_A0 as int,
                written,
            )
    }
    ||| after == write_requested(s) && Err::<(), ExecError>(e) == transfer_verdict(
        HostIo::Write,
        transfer_ptr(s),
        transfer_len(s),
    )
}

/// Where the slots of a batch reach the end of the data, the words from
/// the start of the batch on are that batch and its report, and no bytes
/// are left for a tail.
pub proof fn last_batch_ends_the_words(batch: MachineState, slotted: MachineState, ptr: ByteAddr, data: Seq<u8>, from: int, head: int)
    requires
        0 <= head <= from,
        (from - head) % (WORD_SIZE as int) == 0,
        data.len() - from >= WORD_SIZE,
        from + WORD_SIZE * batch_words(data.len() as int, from) == data.len(),
        slotted == slots_stored(
            batch,
            ptr,
            data,
            from,
            batch_words(data.len() as int, from),
            MAX_IO_WORDS as int,
        ),
    ensures
        words_stored(batch, ptr, data, from) == phase_closed(
            slotted,
            ptr,
            data.len() as int,
            data.len() as int,
            CycleState::HostReadWords,
        ),
        words_end(head, data.len() as int) == data.len(),
{
    let total = data.len() as int;
    let closed = batch_stored(batch, ptr, data, from);
    assert(words_stored(closed, ptr, data, total) == closed);
}

/// Before the last report of a delivery, with the program counter still
/// where it was, the machine is the one that a delivery leaves where the
/// program counter cannot move on.
pub proof fn stuck_before_the_last_report(s: MachineState, before: MachineState, ptr: ByteAddr, data: Seq<u8>, cur: CycleState)
    requires
        delivered(s, ptr, data) == phase_closed(before, ptr, data.len() as int, data.len() as int, cur),
        before.pc == s.pc,
    ensures
        before == stuck(s, ptr, data),
{
    let done = delivered(s, ptr, data);
    assert(done.trace.drop_last() =~= before.trace);
}

/// The cycle state that handles what is left of a read.
pub fn next_io_state(ptr: ByteAddr, rlen: u32) -> (next: CycleState)
    ensures
        next == io_state(ptr, rlen as int),
{
    if rlen == 0 {
        return CycleState::Decode;
    }
    if !ptr.is_aligned() || rlen < WORD_SIZE {
        return CycleState::HostReadBytes;
    }
    CycleState::HostReadWords
}

/// How many of `total` bytes at `ptr` come before the first word boundary.
pub fn head_bytes(ptr: ByteAddr, total: u32) -> (head: u32)
    ensures
        head == head_len(ptr, total as int),
        head <= total,
        head < WORD_SIZE,
        head < total ==> byte_at(ptr, head as int).spec_is_aligned() || ptr.0 + head > u32::MAX,
{
    let off = ptr.subaddr();
    if off == 0 {
        0
    } else if total < WORD_SIZE - off {
        total
    } else {
        WORD_SIZE - off
    }
}

/// Accept or refuse a transfer of `len` bytes at `ptr`: its span must end
/// inside the address space, and it may not be longer than one transfer
/// may be.
pub fn check_transfer(io: HostIo, ptr: ByteAddr, len: u32) -> (r: Result<(), ExecError>)
    ensures
        r == transfer_verdict(io, ptr, len),
        r is Ok <==> transfer_accepted(ptr, len),
{
    if ptr.checked_add(len).is_none() {
        return Err(ExecError::InvalidLength(io, len));
    }
    if len > MAX_IO_BYTES {
        return Err(ExecError::LengthTooBig(io, len));
    }
    Ok(())
}

impl<'a, C: Risc0Context> Risc0Machine<'a, C> {
    /// The host-read ecall: ask the host for the bytes that the argument
    /// registers describe, and deliver what it gives.
    pub fn ecall_read(&mut self) -> (r: Result<bool, ExecError>)
        ensures
            *final(final(self).ctx) == *final(old(self).ctx),
            match r {
                Ok(go_on) => !go_on && read_served(old(self)@, final(self)@),
                Err(e) => read_fault(old(self)@, final(self)@, e),
            },
    {
        self.report(CycleState::MachineEcall, CycleState::HostReadSetup, 0, 0, 0)?;
        let fd = self.load_register(REG_A0)?;
        let ptr = ByteAddr(self.load_register(REG_A1)?);
        let len = self.load_register(REG_A2)?;
        check_transfer(HostIo::Read, ptr, len)?;
        let mut bytes = vec![0u8; len as usize];
        let rlen = match self.ctx.host_read(fd, bytes.as_mut_slice()) {
            Ok(n) => n,
            Err(e) => {
                return Err(ExecError::Context(e));
            },
        };
        let ghost answered = self@;
        let r = self.deliver_read(ptr, bytes.as_slice(), rlen);
        proof {
            let data = bytes@.take(rlen as int);
            assert(answered == read_answered(old(self)@, data));
            if r is Ok {
                assert(self@ == host_read_done(old(self)@, data));
            }
        }
        r
    }

    /// Deliver the first `rlen` bytes of `bytes`, which the host gave, at
    /// `ptr`.
    pub fn deliver_read(&mut self, ptr: ByteAddr, bytes: &[u8], rlen: u32) -> (r: Result<bool, ExecError>)
        requires
            rlen <= bytes@.len(),
            span_fits(ptr, rlen),
        ensures
            *final(final(self).ctx) == *final(old(self).ctx),
            match r {
                Ok(go_on) => !go_on && final(self)@ == delivered(old(self)@, ptr, bytes@.take(rlen as int)),
                Err(e) => e.from_context() || (e == ExecError::AddressOverflow(old(self)@.pc) && final(self)@
                    == stuck(old(self)@, ptr, bytes@.take(rlen as int))),
            },
            old(self)@.pc.0 + WORD_SIZE > u32::MAX ==> r is Err,
            r matches Err(e) && e == ExecError::AddressOverflow(old(self)@.pc) ==> old(self)@.pc.0 + WORD_SIZE
                > u32::MAX,
    {
        let ghost start = self@;
        let ghost data = bytes@.take(rlen as int);
        let ghost goal = delivered(start, ptr, data);
        let total = rlen;
        self.store_register(REG_A0, total)?;
        proof {
            if total == 0 {
                assert(words_stored(
                    phase_closed(self@, ptr, 0, 0, CycleState::HostReadSetup),
                    ptr,
                    data,
                    0,
                ) == phase_closed(self@, ptr, 0, 0, CycleState::HostReadSetup));
                stuck_before_the_last_report(start, self@, ptr, data, CycleState::HostReadSetup);
            }
        }
        let mut cur = self.close_phase(ptr, total, 0, CycleState::HostReadSetup)?;
        let head = head_bytes(ptr, total);
        let mut at: u32 = 0;
        if head > 0 {
            self.store_bytes(ptr, bytes, total, 0, head)?;
            at = head;
            proof {
                if head == total {
                    let closed = phase_closed(self@, ptr, total as int, total as int, cur);
                    assert(words_stored(closed, ptr, data, head as int) == closed);
                    stuck_before_the_last_report(start, self@, ptr, data, cur);
                }
            }
            cur = self.close_phase(ptr, total, at, cur)?;
        }
        let ghost headed = self@;
        proof {
            if total - head >= WORD_SIZE && words_end(head as int, total as int) == total {
                assert forall|slotted: MachineState|
                    slotted.pc == start.pc && #[trigger] phase_closed(
                        slotted,
                        ptr,
                        total as int,
                        total as int,
                        CycleState::HostReadWords,
                    ) == words_stored(headed, ptr, data, head as int) implies slotted == stuck(
                    start,
                    ptr,
                    data,
                ) by {
                    stuck_before_the_last_report(start, slotted, ptr, data, CycleState::HostReadWords);
                }
            }
        }
        let (tail, next) = self.store_words(ptr, bytes, total, head, cur)?;
        if tail < total {
            self.store_bytes(ptr, bytes, total, tail, total)?;
            proof {
                stuck_before_the_last_report(start, self@, ptr, data, next);
            }
            self.close_phase(ptr, total, total, next)?;
        }
        Ok(false)
    }

    /// Store the whole words of `bytes` from byte index `head` on, batch
    /// after batch, each batch with its report.  Returns the byte index
    /// after the last whole word and the state for what is left.
    fn store_words(&mut self, ptr: ByteAddr, bytes: &[u8], total: u32, head: u32, cur: CycleState) -> (r: Result<(u32, CycleState), ExecError>)
        requires
            head <= total <= bytes@.len(),
            span_fits(ptr, total),
            head < total ==> byte_at(ptr, head as int).spec_is_aligned(),
            cur == io_state(byte_at(ptr, head as int), total - head),
        ensures
            *final(final(self).ctx) == *final(old(self).ctx),
            match r {
                Ok((tail, next)) => {
                    &&& tail == words_end(head as int, total as int)
                    &&& next == io_state(byte_at(ptr, tail as int), total - tail)
                    &&& final(self)@ == words_stored(old(self)@, ptr, bytes@.take(total as int), head as int)
                    &&& tail < total ==> final(self)@.pc == old(self)@.pc
                    &&& head < tail == total ==> old(self)@.pc.0 + WORD_SIZE <= u32::MAX
                    &&& tail == head ==> final(self)@ == old(self)@
                },
                Err(e) => e.from_context() || {
                    &&& e == ExecError::AddressOverflow(old(self)@.pc)
                    &&& old(self)@.pc.0 + WORD_SIZE > u32::MAX
                    &&& total - head >= WORD_SIZE
                    &&& words_end(head as int, total as int) == total
                    &&& final(self)@.pc == old(self)@.pc
                    &&& phase_closed(
                        final(self)@,
                        ptr,
                        total as int,
                        total as int,
                        CycleState::HostReadWords,
                    ) == words_stored(old(self)@, ptr, bytes@.take(total as int), head as int)
                },
            },
    {
        let ghost data = bytes@.take(total as int);
        let ghost worded = words_stored(self@, ptr, data, head as int);
        let mut cur = cur;
        let mut at: u32 = head;
        while total - at >= WORD_SIZE
            invariant
                *final(self.ctx) == *final(old(self).ctx),
                span_fits(ptr, total),
                total <= bytes@.len(),
                data == bytes@.take(total as int),
                head <= at <= total,
                (at - head) % (WORD_SIZE as int) == 0,
                at < total ==> byte_at(ptr, at as int).spec_is_aligned(),
                cur == io_state(byte_at(ptr, at as int), total - at),
                words_stored(self@, ptr, data, at as int) == worded,
                at < total ==> self@.pc == old(self)@.pc,
                head < at == total ==> old(self)@.pc.0 + WORD_SIZE <= u32::MAX,
                at == head ==> self@ == old(self)@,
                worded == words_stored(old(self)@, ptr, data, head as int),
            decreases total - at,
        {
            let ghost batch = self@;
            let ghost from = at as int;
            at = self.store_batch(ptr, bytes, total, at)?;
            proof {
                if at == total {
                    last_batch_ends_the_words(batch, self@, ptr, data, from, head as int);
                }
            }
            cur = self.close_phase(ptr, total, at, cur)?;
            assert(self@ == batch_stored(batch, ptr, data, from));
        }
        Ok((at, cur))
    }

    /// Store the bytes `bytes[from..to]` one by one at `ptr + from` and on.
    fn store_bytes(&mut self, ptr: ByteAddr, bytes: &[u8], total: u32, from: u32, to: u32) -> (r: Result<(), ExecError>)
        requires
            from <= to <= total <= bytes@.len(),
            span_fits(ptr, total),
        ensures
            *final(final(self).ctx) == *final(old(self).ctx),
            match r {
                Ok(()) => final(self)@ == bytes_stored(
                    old(self)@,
                    ptr,
                    bytes@.take(total as int),
                    from as int,
                    to as int,
                ) && final(self)@.pc == old(self)@.pc,
                Err(e) => e.from_context(),
            },
    {
        let mut at: u32 = from;
        while at < to
            invariant
                *final(self.ctx) == *final(old(self).ctx),
                from <= at <= to <= total <= bytes@.len(),
                span_fits(ptr, total),
                self@ == bytes_stored(old(self)@, ptr, bytes@.take(total as int), from as int, at as int),
                self@.pc == old(self)@.pc,
            decreases to - at,
        {
            self.store_u8(ByteAddr(ptr.0 + at), bytes[at as usize])?;
            at += 1;
        }
        Ok(())
    }

    /// Store the batch of words that starts at byte index `at`, and pad it
    /// to full length with writes of zero to the scratch word.  Returns the
    /// byte index after the batch.
    fn store_batch(&mut self, ptr: ByteAddr, bytes: &[u8], total: u32, at: u32) -> (r: Result<u32, ExecError>)
        requires
            at <= total <= bytes@.len(),
            span_fits(ptr, total),
        ensures
            *final(final(self).ctx) == *final(old(self).ctx),
            match r {
                Ok(next) => next == at + WORD_SIZE * batch_words(total as int, at as int) && final(self)@
                    == slots_stored(
                    old(self)@,
                    ptr,
                    bytes@.take(total as int),
                    at as int,
                    batch_words(total as int, at as int),
                    MAX_IO_WORDS as int,
                ) && final(self)@.pc == old(self)@.pc,
                Err(e) => e.from_context(),
            },
    {
        let left = total - at;
        let words = if left / WORD_SIZE < MAX_IO_WORDS {
            left / WORD_SIZE
        } else {
            MAX_IO_WORDS
        };
        let mut j: u32 = 0;
        while j < MAX_IO_WORDS
            invariant
                *final(self.ctx) == *final(old(self).ctx),
                span_fits(ptr, total),
                at <= total <= bytes@.len(),
                at + WORD_SIZE * words <= total,
                words <= MAX_IO_WORDS,
                words == batch_words(total as int, at as int),
                j <= MAX_IO_WORDS,
                self@ == slots_stored(
                    old(self)@,
                    ptr,
                    bytes@.take(total as int),
                    at as int,
                    words as int,
                    j as int,
                ),
                self@.pc == old(self)@.pc,
            decreases MAX_IO_WORDS - j,
        {
            if j < words {
                let i = (at + WORD_SIZE * j) as usize;
                let word = make_word(bytes[i], bytes[i + 1], bytes[i + 2], bytes[i + 3]);
                self.store_memory(ByteAddr(ptr.0 + at + WORD_SIZE * j).waddr(), word)?;
            } else {
                self.store_memory(ByteAddr(SAFE_WRITE_ADDR).waddr(), 0)?;
            }
            j += 1;
        }
        Ok(at + WORD_SIZE * words)
    }

    /// End a phase of a read with `at` of `total` bytes delivered: move the
    /// program counter on if nothing is left, and report the transition to
    /// the state for what is left, which is returned.
    fn close_phase(&mut self, ptr: ByteAddr, total: u32, at: u32, cur: CycleState) -> (r: Result<CycleState, ExecError>)
        requires
            at <= total,
            span_fits(ptr, total),
        ensures
            *final(final(self).ctx) == *final(old(self).ctx),
            match r {
                Ok(next) => next == io_state(byte_at(ptr, at as int), total - at) && final(self)@
                    == phase_closed(old(self)@, ptr, total as int, at as int, cur),
                Err(e) => e.from_context() || (e == ExecError::AddressOverflow(old(self)@.pc) && old(self)@.pc.0
                    + WORD_SIZE > u32::MAX && at == total && final(self)@ == old(self)@),
            },
            at == total && old(self)@.pc.0 + WORD_SIZE > u32::MAX ==> r is Err,
    {
        let here = ByteAddr(ptr.0 + at);
        let left = total - at;
        if left == 0 {
            self.next_pc()?;
        }
        let next = next_io_state(here, left);
        self.report(cur, next, here.waddr().0, here.subaddr(), left)?;
        Ok(next)
    }

    /// The host-write ecall: read the bytes that the argument registers
    /// describe out of guest memory and hand them to the host.
    pub fn ecall_write(&mut self) -> (r: Result<bool, ExecError>)
        ensures
            *final(final(self).ctx) == *final(old(self).ctx),
            match r {
                Ok(go_on) => !go_on && write_served(old(self)@, final(self)@),
                Err(e) => write_fault(old(self)@, final(self)@, e),
            },
    {
        self.report(CycleState::MachineEcall, CycleState::HostWrite, 0, 0, 0)?;
        let fd = self.load_register(REG_A0)?;
        let ptr = ByteAddr(self.load_register(REG_A1)?);
        let len = self.load_register(REG_A2)?;
        check_transfer(HostIo::Write, ptr, len)?;
        let ghost requested = self@;
        let bytes = self.peek(ptr, len as usize)?;
        let rlen = match self.ctx.host_write(fd, bytes.as_slice()) {
            Ok(n) => n,
            Err(e) => {
                return Err(ExecError::Context(e));
            },
        };
        let ghost handed = self@;
        let r = self.finish_write(rlen);
        proof {
            assert(requested.bytes(ptr, len as nat) =~= old(self)@.bytes(ptr, len as nat));
            assert(handed == write_handed(old(self)@, rlen));
            if r is Ok {
                assert(self@ == host_write_done(old(self)@, rlen));
            }
        }
        r
    }

    /// End a host write of which the host took `rlen` bytes.
    pub fn finish_write(&mut self, rlen: u32) -> (r: Result<bool, ExecError>)
        ensures
            *final(final(self).ctx) == *final(old(self).ctx),
            match r {
                Ok(go_on) => !go_on && final(self)@ == write_finished(old(self)@, rlen),
                Err(e) => if e.from_context() {
                    final(self)@ == old(self)@ || final(self)@ == old(self)@.store_reg(
                        REG_A0 as int,
                        rlen,
                    ).advance_pc()
                } else {
                    e == ExecError::AddressOverflow(old(self)@.pc) && final(self)@ == old(self)@.store_reg(
                        REG_A0 as int,
                        rlen,
                    )
                },
            },
            old(self)@.pc.0 + WORD_SIZE > u32::MAX ==> r is Err,
            r matches Err(e) && e == ExecError::AddressOverflow(old(self)@.pc) ==> old(self)@.pc.0 + WORD_SIZE
                > u32::MAX,
    {
        self.store_register(REG_A0, rlen)?;
        self.next_pc()?;
        self.report(CycleState::HostWrite, CycleState::Decode, 0, 0, 0)?;
        Ok(false)
    }

    /// The `len` bytes at `ptr`, read without instrumentation.
    fn peek(&mut self, ptr: ByteAddr, len: usize) -> (r: Result<Vec<u8>, ExecError>)
        requires
            ptr.0 + len <= u32::MAX,
        ensures
            *final(final(self).ctx) == *final(old(self).ctx),
            match r {
                Ok(bytes) => bytes@ == old(self)@.bytes(ptr, len as nat) && final(self)@ == old(self)@,
                Err(e) => e.from_context() && final(self)@ == old(self)@,
            },
    {
        let mut bytes: Vec<u8> = Vec::new();
        let mut i: usize = 0;
        while i < len
            invariant
                *final(self.ctx) == *final(old(self).ctx),
                ptr.0 + len <= u32::MAX,
                i <= len,
                self@ == old(self)@,
                bytes@ == old(self)@.bytes(ptr, i as nat),
            decreases len - i,
        {
            let byte = self.peek_u8(ByteAddr(ptr.0 + i as u32))?;
            bytes.push(byte);
            i += 1;
        }
        Ok(bytes)
    }

    /// The byte at `ptr`, read without instrumentation.
    pub fn peek_u8(&mut self, ptr: ByteAddr) -> (r: Result<u8, ExecError>)
        ensures
            *final(final(self).ctx) == *final(old(self).ctx),
            match r {
                Ok(byte) => byte == old(self)@.byte(ptr) && final(self)@ == old(self)@,
                Err(e) => e.from_context() && final(self)@ == old(self)@,
            },
    {
        let word = match self.ctx.peek_u32(ptr.waddr()) {
            Ok(word) => word,
            Err(e) => {
                return Err(ExecError::Context(e));
            },
        };
        Ok(get_byte(word, ptr.subaddr()))
    }

    /// Store one byte: load the word that holds it, change that byte, and
    /// store the word.
    pub fn store_u8(&mut self, addr: ByteAddr, byte: u8) -> (r: Result<(), ExecError>)
        ensures
            *final(final(self).ctx) == *final(old(self).ctx),
            match r {
                Ok(()) => final(self)@ == old(self)@.store_u8(addr, byte),
                Err(e) => e.from_context() && (final(self)@ == old(self)@ || final(self)@ == old(self)@.load(
                    addr.spec_waddr(),
                )),
            },
    {
        let byte_offset = addr.subaddr();
        let word = self.load_memory(addr.waddr())?;
        let word = set_byte(word, byte_offset, byte);
        self.store_memory(addr.waddr(), word)
    }
}

} // verus!
