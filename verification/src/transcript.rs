//! Input transcripts for proving runs of the Keccak permutation.

use vstd::prelude::*;

verus! {

/// The first lane of the state of a transcript.
pub const FIRST_LANE: u64 = 987654321;

/// The factor from one lane to the next.
pub const LANE_FACTOR: u64 = 123456789;

/// Cycles that one permutation takes, roughly.
pub const CYCLES_PER_PERMUTATION: usize = 200;

/// Lane `i` of the state of a transcript: the first lane times the
/// `i`-th power of the factor, in arithmetic modulo 2^64.
pub open spec fn lane(i: nat) -> u64
    decreases i,
{
    if i == 0 {
        FIRST_LANE
    } else {
        lane((i - 1) as nat).wrapping_mul(LANE_FACTOR)
    }
}

/// The state of which a transcript repeats.
pub open spec fn transcript_state() -> Seq<u64> {
    Seq::new(25, |i: int| lane(i as nat))
}

/// The states to permute in a run of `2^po2` cycles: one state per 200
/// cycles, each the same.
pub fn generate_input(po2: usize) -> (input: Vec<[u64; 25]>)
    requires
        po2 < usize::BITS,
    ensures
        input@.len() == (1usize << po2) / CYCLES_PER_PERMUTATION,
        forall|k: int| 0 <= k < input@.len() ==> (#[trigger] input@[k])@ == transcript_state(),
{
    let mut state: [u64; 25] = [0u64; 25];
    let mut pows: u64 = FIRST_LANE;
    let mut i: usize = 0;
    while i < 25
        invariant
            i <= 25,
            pows == lane(i as nat),
            forall|j: int| 0 <= j < i ==> state@[j] == lane(j as nat),
        decreases 25 - i,
    {
        state[i] = pows;
        pows = pows.wrapping_mul(LANE_FACTOR);
        i += 1;
    }
    assert(state@ =~= transcript_state());

    let cycles: usize = 1usize << po2;
    let count: usize = cycles / CYCLES_PER_PERMUTATION;
    let mut input: Vec<[u64; 25]> = Vec::new();
    let mut k: usize = 0;
    while k < count
        invariant
            k <= count,
            input@.len() == k,
            state@ == transcript_state(),
            forall|j: int| 0 <= j < k ==> (#[trigger] input@[j])@ == transcript_state(),
        decreases count - k,
    {
        input.push(state);
        k += 1;
    }
    input
}

} // verus!
