//! The boundary to syscalls that the host implements: what such a syscall
//! is given, what it hands back, and the Keccak permutation as the
//! built-in one.

use vstd::prelude::*;
use crate::addr::ByteAddr;
use crate::error::ContextError;
use crate::hostio::span_fits;
use crate::model::MachineState;
use crate::platform::{REG_A3, REG_MAX};
use crate::word::{le_word, make_word};

verus! {

/// Lanes of a Keccak state.
pub const KECCAK_LANES: usize = 25;

/// Bytes of a Keccak state.
pub const KECCAK_BYTES: u32 = 200;

/// Words of a Keccak state.
pub const KECCAK_WORDS: usize = 50;

/// The syscalls whose calls are counted.
#[derive(Clone, Copy, Debug, PartialEq, Eq, Hash, Structural)]
pub enum SyscallKind {
    Keccak,
    ProveKeccak,
    Read,
    Write,
}

/// The table through which syscalls are dispatched, with the count of
/// calls of each kind.  The counts belong to the table: two tables count
/// apart.
#[derive(Clone, Copy, Debug, PartialEq, Eq, Structural)]
pub struct SyscallTable {
    pub keccak: u64,
    pub prove_keccak: u64,
    pub read: u64,
    pub write: u64,
}

impl SyscallTable {
    /// How often a syscall of `kind` was called.
    pub open spec fn spec_count(self, kind: SyscallKind) -> u64 {
        match kind {
            SyscallKind::Keccak => self.keccak,
            SyscallKind::ProveKeccak => self.prove_keccak,
            SyscallKind::Read => self.read,
            SyscallKind::Write => self.write,
        }
    }

    /// The table after one more call of `kind`.  A count that has reached
    /// the largest number stays there.
    pub open spec fn recorded(self, kind: SyscallKind) -> SyscallTable {
        let next = if self.spec_count(kind) < u64::MAX {
            (self.spec_count(kind) + 1) as u64
        } else {
            u64::MAX
        };
        match kind {
            SyscallKind::Keccak => SyscallTable { keccak: next, ..self },
            SyscallKind::ProveKeccak => SyscallTable { prove_keccak: next, ..self },
            SyscallKind::Read => SyscallTable { read: next, ..self },
            SyscallKind::Write => SyscallTable { write: next, ..self },
        }
    }

    /// A table in which nothing was called yet.
    pub fn new() -> (table: SyscallTable)
        ensures
            forall|kind: SyscallKind| table.spec_count(kind) == 0,
    {
        SyscallTable { keccak: 0, prove_keccak: 0, read: 0, write: 0 }
    }

    /// How often a syscall of `kind` was called.
    #[verifier::when_used_as_spec(spec_count)]
    pub fn count(self, kind: SyscallKind) -> (n: u64)
        ensures
            n == self.spec_count(kind),
    {
        match kind {
            SyscallKind::Keccak => self.keccak,
            SyscallKind::ProveKeccak => self.prove_keccak,
            SyscallKind::Read => self.read,
            SyscallKind::Write => self.write,
        }
    }

    /// Count one more call of `kind`.
    pub fn record(&mut self, kind: SyscallKind)
        ensures
            *final(self) == old(self).recorded(kind),
            forall|other: SyscallKind| other != kind ==> final(self).spec_count(other) == old(self).spec_count(other),
    {
        match kind {
            SyscallKind::Keccak => {
                self.keccak = self.keccak.saturating_add(1);
            },
            SyscallKind::ProveKeccak => {
                self.prove_keccak = self.prove_keccak.saturating_add(1);
            },
            SyscallKind::Read => {
                self.read = self.read.saturating_add(1);
            },
            SyscallKind::Write => {
                self.write = self.write.saturating_add(1);
            },
        }
    }
}

/// Why a syscall failed.
#[derive(Clone, Copy, Debug, PartialEq, Eq, Structural)]
pub enum SyscallError {
    /// The owner of the machine state reported a fault.
    Context(ContextError),
    /// The buffer for the answer has this length, which is not the length
    /// of the answer.
    OutputLength(usize),
}

/// What a syscall is given to look at the guest: its registers, its
/// memory, and the table with the counts.
pub trait SyscallContext {
    /// The machine of the guest.
    spec fn machine(&self) -> MachineState;

    /// The table with the counts.
    spec fn table(&self) -> SyscallTable;

    /// The value of register `idx` in the bank of the current mode.
    fn load_register(&mut self, idx: usize) -> (word: u32)
        requires
            idx < REG_MAX,
        ensures
            word == old(self).machine().reg(idx as int),
            final(self).machine() == old(self).machine(),
            final(self).table() == old(self).table(),
    ;

    /// The `size` bytes of guest memory at `addr`.
    fn load_region(&mut self, addr: ByteAddr, size: u32) -> (r: Result<Vec<u8>, ContextError>)
        ensures
            final(self).machine() == old(self).machine(),
            final(self).table() == old(self).table(),
            r matches Ok(bytes) ==> span_fits(addr, size) && bytes@ == old(self).machine().bytes(
                addr,
                size as nat,
            ),
    ;

    /// The table with the counts, to count in.
    fn syscall_table(&mut self) -> (table: &mut SyscallTable)
        ensures
            *table == old(self).table(),
            final(self).table() == *final(table),
            final(self).machine() == old(self).machine(),
    ;
}

/// A syscall that the host implements.
pub trait Syscall {
    /// Serve the syscall called `syscall`: read what it needs through
    /// `ctx`, fill `to_guest` with the answer, and return the two words
    /// that go to the guest's result registers.
    fn syscall<C: SyscallContext>(&mut self, syscall: &str, ctx: &mut C, to_guest: &mut [u32]) -> Result<(u32, u32), SyscallError>;
}

/// The Keccak-f[1600] permutation of a state of 25 lanes.
pub uninterp spec fn keccak_f1600(state: Seq<u64>) -> Seq<u64>;

/// The lane held in the eight bytes of `bytes` that start at `at`, low
/// byte first.
pub open spec fn lane_at(bytes: Seq<u8>, at: int) -> u64 {
    (le_word(bytes, at) + le_word(bytes, at + 4) * 0x1_0000_0000) as u64
}

/// The lanes held in `bytes`, eight bytes each.
pub open spec fn lanes_of(bytes: Seq<u8>) -> Seq<u64> {
    Seq::new(bytes.len() / 8, |i: int| lane_at(bytes, 8 * i))
}

/// The words that hold `lanes`, two each, low word first.
pub open spec fn words_of_lanes(lanes: Seq<u64>) -> Seq<u32> {
    Seq::new(
        2 * lanes.len(),
        |i: int|
            if i % 2 == 0 {
                (lanes[i / 2] % 0x1_0000_0000) as u32
            } else {
                (lanes[i / 2] / 0x1_0000_0000) as u32
            },
    )
}

/// Applies `keccak::f1600` to the state in place: afterwards the state is
/// the Keccak-f[1600] permutation of what it was.
#[verifier::external_body]
fn permute(state: &mut [u64; 25])
    ensures
        final(state)@ == keccak_f1600(old(state)@),
{
    keccak::f1600(state);
}

/// The 25 lanes held in 200 bytes.
pub fn lanes_from_bytes(bytes: &[u8]) -> (lanes: [u64; 25])
    requires
        bytes@.len() == KECCAK_BYTES,
    ensures
        lanes@ == lanes_of(bytes@),
{
    let mut lanes: [u64; 25] = [0u64; 25];
    let mut i: usize = 0;
    while i < KECCAK_LANES
        invariant
            i <= KECCAK_LANES,
            bytes@.len() == KECCAK_BYTES,
            forall|k: int| 0 <= k < i ==> lanes@[k] == lane_at(bytes@, 8 * k),
        decreases KECCAK_LANES - i,
    {
        let at = 8 * i;
        let low = make_word(bytes[at], bytes[at + 1], bytes[at + 2], bytes[at + 3]);
        let high = make_word(bytes[at + 4], bytes[at + 5], bytes[at + 6], bytes[at + 7]);
        lanes[i] = low as u64 + high as u64 * 0x1_0000_0000;
        i += 1;
    }
    assert(lanes@ =~= lanes_of(bytes@));
    lanes
}

/// Write the 25 lanes into the 50 words of `to_guest`.
pub fn words_from_lanes(lanes: &[u64; 25], to_guest: &mut [u32])
    requires
        old(to_guest)@.len() == KECCAK_WORDS,
    ensures
        final(to_guest)@ == words_of_lanes(lanes@),
{
    let mut i: usize = 0;
    while i < KECCAK_LANES
        invariant
            i <= KECCAK_LANES,
            to_guest@.len() == KECCAK_WORDS,
            forall|k: int| 0 <= k < 2 * i ==> to_guest@[k] == words_of_lanes(lanes@)[k],
        decreases KECCAK_LANES - i,
    {
        let lane = lanes[i];
        to_guest[2 * i] = (lane % 0x1_0000_0000) as u32;
        to_guest[2 * i + 1] = (lane / 0x1_0000_0000) as u32;
        i += 1;
    }
    assert(to_guest@ =~= words_of_lanes(lanes@));
}

/// The answer of the Keccak syscall for a guest: the permutation of the
/// state of 25 lanes that lies in guest memory where register A3 points.
pub open spec fn keccak_answer(guest: MachineState) -> Seq<u32> {
    words_of_lanes(
        keccak_f1600(lanes_of(guest.bytes(ByteAddr(guest.reg(REG_A3 as int)), KECCAK_BYTES as nat))),
    )
}

/// The Keccak syscall: it permutes the state that register A3 points to
/// and hands the permuted state back.
#[derive(Clone, Copy, Debug)]
pub struct SysKeccak;

impl Syscall for SysKeccak {
    /// Fill `to_guest`, which must hold 50 words, with the permuted state,
    /// and count the call in the table.  A failure changes neither the
    /// buffer nor the counts.
    fn syscall<C: SyscallContext>(&mut self, syscall: &str, ctx: &mut C, to_guest: &mut [u32]) -> (r: Result<(u32, u32), SyscallError>)
        ensures
            final(ctx).machine() == old(ctx).machine(),
            match r {
                Ok(answer) => {
                    &&& answer == (0u32, 0u32)
                    &&& old(to_guest)@.len() == KECCAK_WORDS
                    &&& final(to_guest)@ == keccak_answer(old(ctx).machine())
                    &&& final(ctx).table() == old(ctx).table().recorded(SyscallKind::Keccak)
                },
                Err(e) => {
                    &&& final(to_guest)@ == old(to_guest)@
                    &&& final(ctx).table() == old(ctx).table()
                    &&& e is OutputLength <==> old(to_guest)@.len() != KECCAK_WORDS
                    &&& e is OutputLength ==> e == SyscallError::OutputLength(old(to_guest)@.len() as usize)
                },
            },
    {
        let len = to_guest.len();
        if len != KECCAK_WORDS {
            return Err(SyscallError::OutputLength(len));
        }
        let buf_ptr = ByteAddr(ctx.load_register(REG_A3));
        let from_guest = match ctx.load_region(buf_ptr, KECCAK_BYTES) {
            Ok(bytes) => bytes,
            Err(e) => {
                return Err(SyscallError::Context(e));
            },
        };
        let mut state = lanes_from_bytes(from_guest.as_slice());
        permute(&mut state);
        words_from_lanes(&state, to_guest);
        ctx.syscall_table().record(SyscallKind::Keccak);
        Ok((0, 0))
    }
}

} // verus!
