//! What the delivery of a host read leaves in memory.

use vstd::prelude::*;
use crate::addr::{ByteAddr, WORD_SIZE};
use crate::hostio::{
    batch_stored, batch_words, bytes_stored, delivered, head_len, phase_closed, slots_stored,
    span_fits, words_end, words_stored,
};
use crate::addr::WordAddr;
use crate::model::{byte_at, register_slot, word_at, Event, MachineState};
use crate::platform::{CycleState, MAX_IO_WORDS, REG_A0, SAFE_WRITE_ADDR};
use crate::word::{bytes_of_word, le_word, with_byte_changes_one_byte, word_of_its_bytes};

verus! {

/// Whether the byte `x` is one of the `to - from` bytes that start
/// `from` bytes after `ptr`.
pub open spec fn in_span(ptr: ByteAddr, from: int, to: int, x: ByteAddr) -> bool {
    from <= x.0 - ptr.0 < to
}

/// The byte that stands at `x` once `data[from..to]` lies at `ptr + from`
/// and on, over the memory of `s`.
pub open spec fn overlaid(s: MachineState, ptr: ByteAddr, data: Seq<u8>, from: int, to: int, x: ByteAddr) -> u8 {
    if in_span(ptr, from, to, x) {
        data[x.0 - ptr.0]
    } else {
        s.byte(x)
    }
}

/// Whether the batches of whole words from byte index `at` on end with a
/// batch that is not full, so that zero is written to the scratch word.
pub open spec fn pads(total: int, at: int) -> bool {
    (total - at) / (WORD_SIZE as int) % (MAX_IO_WORDS as int) != 0
}

/// Whether `x` is a byte of the scratch word.
pub open spec fn in_scratch(x: ByteAddr) -> bool {
    x.spec_waddr() == word_at(SAFE_WRITE_ADDR, 0)
}

/// A store of one byte changes that byte and no other.
pub proof fn byte_store_changes_one_byte(s: MachineState, addr: ByteAddr, byte: u8, x: ByteAddr)
    ensures
        s.store_u8(addr, byte).byte(x) == if x == addr {
            byte
        } else {
            s.byte(x)
        },
        s.store_u8(addr, byte).pc == s.pc,
        s.store_u8(addr, byte).machine_mode == s.machine_mode,
{
    with_byte_changes_one_byte(s.memory[addr.spec_waddr()], addr.spec_subaddr() as int, byte);
    if x.spec_waddr() == addr.spec_waddr() {
        if x.spec_subaddr() == addr.spec_subaddr() {
            assert(x.0 == addr.0);
        }
    }
}

/// A store of a word made of four bytes of `data` puts those bytes at the
/// four bytes of the word, and changes no other byte.
proof fn word_store_changes_four_bytes(s: MachineState, ptr: ByteAddr, data: Seq<u8>, at: int, x: ByteAddr)
    requires
        0 <= at,
        ptr.0 + at + WORD_SIZE <= u32::MAX + 1,
        byte_at(ptr, at).spec_is_aligned(),
    ensures
        s.store(byte_at(ptr, at).spec_waddr(), le_word(data, at)).byte(x) == overlaid(
            s,
            ptr,
            data,
            at,
            at + WORD_SIZE,
            x,
        ),
{
    bytes_of_word(data[at], data[at + 1], data[at + 2], data[at + 3]);
    let here = byte_at(ptr, at);
    if x.spec_waddr() == here.spec_waddr() {
        assert(in_span(ptr, at, at + WORD_SIZE, x));
        assert(x.0 - ptr.0 == at + x.spec_subaddr());
    } else {
        assert(!in_span(ptr, at, at + WORD_SIZE, x));
    }
}

/// Bytes stored one by one lie where they were stored, and every other
/// byte is as before.
pub proof fn bytes_stored_fill_their_span(s: MachineState, ptr: ByteAddr, data: Seq<u8>, from: int, to: int)
    requires
        0 <= from <= to,
        ptr.0 + to <= u32::MAX + 1,
    ensures
        forall|x: ByteAddr| #[trigger]
            bytes_stored(s, ptr, data, from, to).byte(x) == overlaid(s, ptr, data, from, to, x),
        bytes_stored(s, ptr, data, from, to).pc == s.pc,
        bytes_stored(s, ptr, data, from, to).machine_mode == s.machine_mode,
    decreases to - from,
{
    if from < to {
        bytes_stored_fill_their_span(s, ptr, data, from, to - 1);
        let before = bytes_stored(s, ptr, data, from, to - 1);
        assert forall|x: ByteAddr| #[trigger]
            bytes_stored(s, ptr, data, from, to).byte(x) == overlaid(s, ptr, data, from, to, x) by {
            byte_store_changes_one_byte(before, byte_at(ptr, to - 1), data[to - 1], x);
            assert(before.byte(x) == overlaid(s, ptr, data, from, to - 1, x));
        }
        byte_store_changes_one_byte(before, byte_at(ptr, to - 1), data[to - 1], ptr);
    }
}

/// The slots of a batch put the words of the batch where they belong; of
/// the other bytes, only those of the scratch word can change, and only
/// where the batch has padding slots.
proof fn slots_fill_their_span(s: MachineState, ptr: ByteAddr, data: Seq<u8>, at: int, words: int, slots: int)
    requires
        0 <= at,
        0 <= words,
        0 <= slots,
        byte_at(ptr, at).spec_is_aligned(),
        ptr.0 + at + WORD_SIZE * words <= u32::MAX + 1,
    ensures
        forall|x: ByteAddr|
            !in_scratch(x) || slots <= words ==> #[trigger] slots_stored(s, ptr, data, at, words, slots).byte(x)
                == overlaid(
                s,
                ptr,
                data,
                at,
                at + WORD_SIZE * (if slots < words {
                    slots
                } else {
                    words
                }),
                x,
            ),
        slots_stored(s, ptr, data, at, words, slots).pc == s.pc,
        slots_stored(s, ptr, data, at, words, slots).machine_mode == s.machine_mode,
    decreases slots,
{
    if slots > 0 {
        let j = slots - 1;
        slots_fill_their_span(s, ptr, data, at, words, j);
        let before = slots_stored(s, ptr, data, at, words, j);
        let after = slots_stored(s, ptr, data, at, words, slots);
        if j < words {
            assert(byte_at(ptr, at + WORD_SIZE * j).spec_is_aligned());
            assert forall|x: ByteAddr| !in_scratch(x) || slots <= words implies #[trigger] after.byte(x)
                == overlaid(s, ptr, data, at, at + WORD_SIZE * slots, x) by {
                word_store_changes_four_bytes(before, ptr, data, at + WORD_SIZE * j, x);
                assert(before.byte(x) == overlaid(s, ptr, data, at, at + WORD_SIZE * j, x));
            }
        } else {
            assert forall|x: ByteAddr| !in_scratch(x) || slots <= words implies #[trigger] after.byte(x)
                == overlaid(s, ptr, data, at, at + WORD_SIZE * words, x) by {
                assert(!in_scratch(x));
                assert(before.byte(x) == overlaid(s, ptr, data, at, at + WORD_SIZE * words, x));
            }
        }
    }
}

/// The batches put the whole words of a read where they belong; of the
/// other bytes, only those of the scratch word can change, and only where
/// the last batch is not full.  The program counter moves on exactly where
/// the last batch ends the read.
proof fn words_fill_their_span(s: MachineState, ptr: ByteAddr, data: Seq<u8>, at: int)
    requires
        0 <= at <= data.len(),
        ptr.0 + data.len() <= u32::MAX + 1,
        data.len() - at >= WORD_SIZE ==> byte_at(ptr, at).spec_is_aligned(),
    ensures
        forall|x: ByteAddr|
            !in_scratch(x) || !pads(data.len() as int, at) ==> #[trigger] words_stored(s, ptr, data, at).byte(x)
                == overlaid(s, ptr, data, at, words_end(at, data.len() as int), x),
        words_stored(s, ptr, data, at).machine_mode == s.machine_mode,
        words_stored(s, ptr, data, at).pc == if data.len() - at >= WORD_SIZE && words_end(
            at,
            data.len() as int,
        ) == data.len() {
            byte_at(s.pc, WORD_SIZE as int)
        } else {
            s.pc
        },
    decreases data.len() - at,
{
    let total = data.len() as int;
    if total - at >= WORD_SIZE {
        let words = batch_words(total, at);
        let next = at + WORD_SIZE * words;
        let slotted = slots_stored(s, ptr, data, at, words, MAX_IO_WORDS as int);
        let batch = batch_stored(s, ptr, data, at);
        slots_fill_their_span(s, ptr, data, at, words, MAX_IO_WORDS as int);
        assert(batch.memory == slotted.memory);
        assert(total - next >= WORD_SIZE ==> byte_at(ptr, next).spec_is_aligned());
        words_fill_their_span(batch, ptr, data, next);
        assert(words_end(next, total) == words_end(at, total));
        assert(words < MAX_IO_WORDS ==> !pads(total, next) && pads(total, at));
        assert(words == MAX_IO_WORDS ==> pads(total, next) == pads(total, at));
        let after = words_stored(s, ptr, data, at);
        assert(after == words_stored(batch, ptr, data, next));
        assert forall|x: ByteAddr| !in_scratch(x) || !pads(total, at) implies #[trigger] after.byte(x)
            == overlaid(s, ptr, data, at, words_end(at, total), x) by {
            assert(batch.byte(x) == slotted.byte(x));
            assert(slotted.byte(x) == overlaid(s, ptr, data, at, next, x));
            assert(after.byte(x) == overlaid(batch, ptr, data, next, words_end(at, total), x));
        }
    }
}

/// What a read leaves behind, whatever its length and alignment.
///
/// Every byte that the host gave lies at its place in the span, and every
/// byte outside the span is as it was once the count had been written to
/// register A0: no word outside the span changes.  The one exception is
/// the scratch word, which absorbs the padding of a last batch that is
/// not full; its bytes are covered only where there is no such batch.
/// The program counter moves on by one instruction, and the mode stays.
pub proof fn read_fills_the_span(s: MachineState, ptr: ByteAddr, data: Seq<u8>)
    requires
        span_fits(ptr, data.len() as u32),
        data.len() <= u32::MAX,
    ensures
        forall|x: ByteAddr|
            !in_scratch(x) || !pads(data.len() as int, head_len(ptr, data.len() as int)) ==> #[trigger] delivered(
                s,
                ptr,
                data,
            ).byte(x) == overlaid(
                s.store_reg(REG_A0 as int, data.len() as u32),
                ptr,
                data,
                0,
                data.len() as int,
                x,
            ),
        delivered(s, ptr, data).pc == byte_at(s.pc, WORD_SIZE as int),
        delivered(s, ptr, data).machine_mode == s.machine_mode,
{
    let total = data.len() as int;
    let head = head_len(ptr, total);
    let tail = words_end(head, total);
    let counted = s.store_reg(REG_A0 as int, total as u32);
    let set_up = phase_closed(counted, ptr, total, 0, CycleState::HostReadSetup);
    let headed = if head > 0 {
        phase_closed(bytes_stored(set_up, ptr, data, 0, head), ptr, total, head, CycleState::HostReadBytes)
    } else {
        set_up
    };
    let worded = words_stored(headed, ptr, data, head);
    let after = delivered(s, ptr, data);
    bytes_stored_fill_their_span(set_up, ptr, data, 0, head);
    assert(total - head >= WORD_SIZE ==> byte_at(ptr, head).spec_is_aligned());
    words_fill_their_span(headed, ptr, data, head);
    bytes_stored_fill_their_span(worded, ptr, data, tail, total);
    assert forall|x: ByteAddr| !in_scratch(x) || !pads(total, head) implies #[trigger] after.byte(x)
        == overlaid(counted, ptr, data, 0, total, x) by {
        assert(set_up.byte(x) == counted.byte(x));
        assert(headed.byte(x) == overlaid(counted, ptr, data, 0, head, x)) by {
            if head > 0 {
                let stored = bytes_stored(set_up, ptr, data, 0, head);
                assert(headed.byte(x) == stored.byte(x));
            }
        }
        assert(worded.byte(x) == overlaid(headed, ptr, data, head, tail, x));
        if tail < total {
            let stored = bytes_stored(worded, ptr, data, tail, total);
            assert(after.byte(x) == stored.byte(x));
            assert(stored.byte(x) == overlaid(worded, ptr, data, tail, total, x));
        }
    }
}

/// Whether the word `w` holds one of the `total` bytes that start at `ptr`.
pub open spec fn touches(ptr: ByteAddr, total: int, w: WordAddr) -> bool {
    total > 0 && ptr.0 / WORD_SIZE <= w.0 <= (ptr.0 + total - 1) / (WORD_SIZE as int)
}

/// Two memories that agree on the four bytes of a word agree on the word.
proof fn word_of_equal_bytes(a: MachineState, b: MachineState, w: WordAddr)
    requires
        w.in_range(),
        forall|i: int| 0 <= i < WORD_SIZE ==> a.byte(#[trigger] byte_at(w.spec_baddr(), i)) == b.byte(
            byte_at(w.spec_baddr(), i),
        ),
    ensures
        a.memory[w] == b.memory[w],
{
    word_of_its_bytes(a.memory[w]);
    word_of_its_bytes(b.memory[w]);
    assert(byte_at(w.spec_baddr(), 0).spec_waddr() == w && byte_at(w.spec_baddr(), 0).spec_subaddr() == 0);
    assert(byte_at(w.spec_baddr(), 1).spec_waddr() == w && byte_at(w.spec_baddr(), 1).spec_subaddr() == 1);
    assert(byte_at(w.spec_baddr(), 2).spec_waddr() == w && byte_at(w.spec_baddr(), 2).spec_subaddr() == 2);
    assert(byte_at(w.spec_baddr(), 3).spec_waddr() == w && byte_at(w.spec_baddr(), 3).spec_subaddr() == 3);
}

/// A read changes no word outside its span: every word that holds no byte
/// of the span is as it was once the count had been written to register
/// A0.  The scratch word is covered where no batch is padded.  Register
/// A0 holds the count, unless the span runs over it.
pub proof fn read_keeps_the_words_outside(s: MachineState, ptr: ByteAddr, data: Seq<u8>)
    requires
        span_fits(ptr, data.len() as u32),
        data.len() <= u32::MAX,
    ensures
        forall|w: WordAddr|
            w.in_range() && !touches(ptr, data.len() as int, w) && (w != word_at(SAFE_WRITE_ADDR, 0)
                || !pads(data.len() as int, head_len(ptr, data.len() as int))) ==> #[trigger] delivered(
                s,
                ptr,
                data,
            ).memory[w] == s.store_reg(REG_A0 as int, data.len() as u32).memory[w],
        !touches(ptr, data.len() as int, register_slot(s.is_machine_mode(), REG_A0 as int)) ==> delivered(
            s,
            ptr,
            data,
        ).reg(REG_A0 as int) == data.len(),
{
    let total = data.len() as int;
    let counted = s.store_reg(REG_A0 as int, total as u32);
    let after = delivered(s, ptr, data);
    read_fills_the_span(s, ptr, data);
    assert forall|w: WordAddr|
        w.in_range() && !touches(ptr, total, w) && (w != word_at(SAFE_WRITE_ADDR, 0) || !pads(
            total,
            head_len(ptr, total),
        )) implies #[trigger] after.memory[w] == counted.memory[w] by {
        assert forall|i: int| 0 <= i < WORD_SIZE implies after.byte(#[trigger] byte_at(w.spec_baddr(), i))
            == counted.byte(byte_at(w.spec_baddr(), i)) by {
            let x = byte_at(w.spec_baddr(), i);
            assert(x.spec_waddr() == w);
            assert(!in_span(ptr, 0, total, x));
            assert(after.byte(x) == overlaid(counted, ptr, data, 0, total, x));
        }
        word_of_equal_bytes(after, counted, w);
    }
    let slot = register_slot(s.is_machine_mode(), REG_A0 as int);
    assert(slot.in_range());
    assert(slot != word_at(SAFE_WRITE_ADDR, 0));
}

/// A read of less than a word is done with stores of single bytes alone:
/// no batch of words is written, the scratch word is not touched, the
/// bytes that the host gave lie in the span, and no byte outside the span
/// changes but those of register A0, which holds the count.
pub proof fn short_read_stores_bytes_only(s: MachineState, ptr: ByteAddr, data: Seq<u8>)
    requires
        span_fits(ptr, data.len() as u32),
        data.len() < WORD_SIZE,
    ensures
        forall|x: MachineState, at: int| #[trigger] words_stored(x, ptr, data, at) == x,
        forall|x: ByteAddr| #[trigger]
            delivered(s, ptr, data).byte(x) == overlaid(
                s.store_reg(REG_A0 as int, data.len() as u32),
                ptr,
                data,
                0,
                data.len() as int,
                x,
            ),
        forall|k: int| 0 <= k < data.len() ==> delivered(s, ptr, data).byte(#[trigger] byte_at(ptr, k)) == data[k],
        delivered(s, ptr, data).pc == byte_at(s.pc, WORD_SIZE as int),
{
    read_fills_the_span(s, ptr, data);
    let total = data.len() as int;
    assert(!pads(total, head_len(ptr, total)));
    assert forall|k: int| 0 <= k < data.len() implies delivered(s, ptr, data).byte(#[trigger] byte_at(ptr, k))
        == data[k] by {
        assert(in_span(ptr, 0, total, byte_at(ptr, k)));
    }
}

/// Whether the record of `later` is the record of `earlier` with entries
/// added at its end.
pub open spec fn record_grew(earlier: MachineState, later: MachineState) -> bool {
    earlier.trace.is_prefix_of(later.trace)
}

/// The report that ends a read of `total` bytes at `ptr`, made from the
/// state `cur`: the transition to decoding, with the end of the span and
/// nothing left.
pub open spec fn closing_report(ptr: ByteAddr, total: int, cur: CycleState) -> Event {
    Event::Cycle {
        cur: cur,
        next: CycleState::Decode,
        s0: byte_at(ptr, total).spec_waddr().0,
        s1: byte_at(ptr, total).spec_subaddr(),
        s2: 0,
    }
}

proof fn bytes_stored_grow_the_record(s: MachineState, ptr: ByteAddr, data: Seq<u8>, from: int, to: int)
    ensures
        record_grew(s, bytes_stored(s, ptr, data, from, to)),
    decreases to - from,
{
    if from < to {
        bytes_stored_grow_the_record(s, ptr, data, from, to - 1);
    }
}

proof fn slots_grow_the_record(s: MachineState, ptr: ByteAddr, data: Seq<u8>, at: int, words: int, slots: int)
    ensures
        record_grew(s, slots_stored(s, ptr, data, at, words, slots)),
    decreases slots,
{
    if slots > 0 {
        slots_grow_the_record(s, ptr, data, at, words, slots - 1);
    }
}

/// The batches add to the record, and where the last of them ends the
/// read, the last entry is the report of the return to decoding.
proof fn words_grow_the_record(s: MachineState, ptr: ByteAddr, data: Seq<u8>, at: int)
    requires
        0 <= at <= data.len(),
    ensures
        record_grew(s, words_stored(s, ptr, data, at)),
        data.len() - at >= WORD_SIZE && words_end(at, data.len() as int) == data.len() ==> words_stored(
            s,
            ptr,
            data,
            at,
        ).trace.last() == closing_report(ptr, data.len() as int, CycleState::HostReadWords),
    decreases data.len() - at,
{
    let total = data.len() as int;
    if total - at >= WORD_SIZE {
        let words = batch_words(total, at);
        let next = at + WORD_SIZE * words;
        let batch = batch_stored(s, ptr, data, at);
        slots_grow_the_record(s, ptr, data, at, words, MAX_IO_WORDS as int);
        words_grow_the_record(batch, ptr, data, next);
        assert(words_end(next, total) == words_end(at, total));
        assert(record_grew(s, batch));
    }
}

/// A read adds to the record and takes nothing back: what was reported
/// before it stands first, in its order.  The entry that it adds last is
/// the report of the return to decoding.
pub proof fn read_grows_the_record(s: MachineState, ptr: ByteAddr, data: Seq<u8>)
    requires
        data.len() <= u32::MAX,
    ensures
        record_grew(s, delivered(s, ptr, data)),
        delivered(s, ptr, data).trace.last() matches Event::Cycle { next, s0, s1, s2, .. } && next
            == CycleState::Decode && s0 == byte_at(ptr, data.len() as int).spec_waddr().0 && s1 == byte_at(
            ptr,
            data.len() as int,
        ).spec_subaddr() && s2 == 0,
{
    let total = data.len() as int;
    let head = head_len(ptr, total);
    let tail = words_end(head, total);
    let counted = s.store_reg(REG_A0 as int, total as u32);
    let set_up = phase_closed(counted, ptr, total, 0, CycleState::HostReadSetup);
    let headed = if head > 0 {
        phase_closed(bytes_stored(set_up, ptr, data, 0, head), ptr, total, head, CycleState::HostReadBytes)
    } else {
        set_up
    };
    let worded = words_stored(headed, ptr, data, head);
    bytes_stored_grow_the_record(set_up, ptr, data, 0, head);
    words_grow_the_record(headed, ptr, data, head);
    bytes_stored_grow_the_record(worded, ptr, data, tail, total);
    assert(record_grew(s, set_up));
    assert(record_grew(s, headed));
    assert(record_grew(s, worded));
    if total == 0 {
        assert(set_up.trace.last() == closing_report(ptr, total, CycleState::HostReadSetup));
    } else if tail < total {
    } else if total - head >= WORD_SIZE {
    } else {
        assert(head == total);
        assert(headed.trace.last() == closing_report(ptr, total, CycleState::HostReadBytes));
    }
}

} // verus!
