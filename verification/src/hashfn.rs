//! The hash functions that a segment can be proved with, by name.

use vstd::prelude::*;

verus! {

/// A hash function that a segment can be proved with.
#[derive(Clone, Copy, Debug, PartialEq, Eq, Hash, Structural)]
pub enum HashFn {
    Sha256,
    Poseidon2,
}

/// The name is not that of a hash function that a segment can be proved
/// with.
#[derive(Clone, Copy, Debug, PartialEq, Eq, Structural)]
pub struct UnsupportedHashFn;

/// The hash function called `name`: `sha-256` or `poseidon2`.
pub open spec fn hash_fn_named(name: Seq<char>) -> Option<HashFn> {
    if name == "sha-256"@ {
        Some(HashFn::Sha256)
    } else if name == "poseidon2"@ {
        Some(HashFn::Poseidon2)
    } else {
        None
    }
}

/// Whether two strings hold the same text.
fn same_text(a: &str, b: &str) -> (same: bool)
    ensures
        same == (a@ == b@),
{
    a.to_owned() == b.to_owned()
}

/// Select the hash function called `hashfn`.
pub fn select_hash_fn(hashfn: &str) -> (r: Result<HashFn, UnsupportedHashFn>)
    ensures
        match hash_fn_named(hashfn@) {
            Some(selected) => r == Ok::<HashFn, UnsupportedHashFn>(selected),
            None => r is Err,
        },
{
    if same_text(hashfn, "sha-256") {
        Ok(HashFn::Sha256)
    } else if same_text(hashfn, "poseidon2") {
        Ok(HashFn::Poseidon2)
    } else {
        Err(UnsupportedHashFn)
    }
}

} // verus!
