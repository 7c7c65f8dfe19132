//! The seal of a receipt as the on-chain verifier takes it: four bytes
//! that select the verifier, then the proof.

use vstd::prelude::*;

verus! {

/// Bytes of a selector.
pub const SELECTOR_BYTES: usize = 4;

/// Bytes of a digest.
pub const DIGEST_BYTES: usize = 32;

/// What a receipt holds in place of, or as, its proof.
#[derive(Debug, PartialEq, Eq)]
pub enum InnerReceipt {
    /// A receipt made of one proof per segment.
    Composite,
    /// A receipt folded into one recursion proof.
    Succinct,
    /// A Groth16 proof, with the digest of the parameters of its verifier.
    Groth16 { verifier_parameters: [u8; 32], seal: Vec<u8> },
    /// No proof at all: only the digest of the claim.
    Fake { claim_digest: [u8; 32] },
}

/// A receipt, as far as its seal goes.
#[derive(Debug, PartialEq, Eq)]
pub struct Receipt {
    pub inner: InnerReceipt,
}

/// Why a receipt has no seal.
#[derive(Clone, Copy, Debug, PartialEq, Eq, Structural)]
pub enum SealError {
    /// Only Groth16 and fake receipts can be sealed.
    UnsupportedReceipt,
}

/// The seal of a receipt: for a fake receipt four zero bytes and the
/// digest of the claim, for a Groth16 receipt the first four bytes of the
/// digest of the verifier's parameters and the proof.  No other receipt
/// has one.
pub open spec fn seal_of(receipt: Receipt) -> Option<Seq<u8>> {
    match receipt.inner {
        InnerReceipt::Fake { claim_digest } => Some(seq![0u8, 0u8, 0u8, 0u8] + claim_digest@),
        InnerReceipt::Groth16 { verifier_parameters, seal } => Some(
            verifier_parameters@.take(SELECTOR_BYTES as int) + seal@,
        ),
        _ => None,
    }
}

/// Append the items of `items[..count]` to `out`.
fn append(out: &mut Vec<u8>, items: &[u8], count: usize)
    requires
        count <= items@.len(),
    ensures
        final(out)@ == old(out)@ + items@.take(count as int),
{
    let mut i: usize = 0;
    while i < count
        invariant
            i <= count <= items@.len(),
            out@ == old(out)@ + items@.take(i as int),
        decreases count - i,
    {
        out.push(items[i]);
        i += 1;
        assert(out@ =~= old(out)@ + items@.take(i as int));
    }
}

/// Encode the seal of `receipt` with its selector in front.
pub fn encode_seal(receipt: &Receipt) -> (r: Result<Vec<u8>, SealError>)
    ensures
        match seal_of(*receipt) {
            Some(bytes) => r matches Ok(seal) && seal@ == bytes,
            None => r == Err::<Vec<u8>, SealError>(SealError::UnsupportedReceipt),
        },
{
    match &receipt.inner {
        InnerReceipt::Fake { claim_digest } => {
            let mut selector_seal: Vec<u8> = Vec::new();
            selector_seal.push(0);
            selector_seal.push(0);
            selector_seal.push(0);
            selector_seal.push(0);
            append(&mut selector_seal, claim_digest.as_slice(), DIGEST_BYTES);
            assert(selector_seal@ =~= seq![0u8, 0u8, 0u8, 0u8] + claim_digest@);
            Ok(selector_seal)
        },
        InnerReceipt::Groth16 { verifier_parameters, seal } => {
            let mut selector_seal: Vec<u8> = Vec::new();
            append(&mut selector_seal, verifier_parameters.as_slice(), SELECTOR_BYTES);
            append(&mut selector_seal, seal.as_slice(), seal.len());
            assert(selector_seal@ =~= verifier_parameters@.take(SELECTOR_BYTES as int) + seal@);
            Ok(selector_seal)
        },
        _ => Err(SealError::UnsupportedReceipt),
    }
}

} // verus!
