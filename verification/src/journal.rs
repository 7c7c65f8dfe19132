//! What a guest leaves in its journal.

use vstd::prelude::*;
use crate::word::{le_word, make_word};

verus! {

/// The verdict that a schema check leaves in its journal: one word.
#[derive(Clone, Copy, Debug, PartialEq, Eq, Structural)]
pub struct Outputs {
    pub result: u32,
}

impl Outputs {
    /// What a journal holds: its one word, low byte first, where the
    /// journal is one word long, and nothing otherwise.
    pub open spec fn spec_from_journal(journal: Seq<u8>) -> Option<Outputs> {
        if journal.len() == 4 {
            Some(Outputs { result: le_word(journal, 0) })
        } else {
            None
        }
    }

    /// Decode the verdict from a journal.
    pub fn from_journal(journal: &[u8]) -> (outputs: Option<Outputs>)
        ensures
            outputs == Outputs::spec_from_journal(journal@),
    {
        if journal.len() == 4 {
            Some(Outputs { result: make_word(journal[0], journal[1], journal[2], journal[3]) })
        } else {
            None
        }
    }
}

} // verus!
