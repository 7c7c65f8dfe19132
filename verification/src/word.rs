//! Words as four bytes, low byte first.

use vstd::prelude::*;

verus! {

/// Byte `i` of `word`, counted from the low end.  Any `i` past the third
/// byte means the last byte.
pub open spec fn byte_of(word: u32, i: int) -> u8 {
    if i == 0 {
        (word % 0x100) as u8
    } else if i == 1 {
        (word / 0x100 % 0x100) as u8
    } else if i == 2 {
        (word / 0x1_0000 % 0x100) as u8
    } else {
        (word / 0x100_0000 % 0x100) as u8
    }
}

/// The word whose bytes are `b0` to `b3`, low byte first.
pub open spec fn word_of(b0: u8, b1: u8, b2: u8, b3: u8) -> u32 {
    (b0 + b1 * 0x100 + b2 * 0x1_0000 + b3 * 0x100_0000) as u32
}

/// `word` with byte `i` replaced by `byte`.
pub open spec fn with_byte(word: u32, i: int, byte: u8) -> u32 {
    word_of(
        if i == 0 { byte } else { byte_of(word, 0) },
        if i == 1 { byte } else { byte_of(word, 1) },
        if i == 2 { byte } else { byte_of(word, 2) },
        if i != 0 && i != 1 && i != 2 { byte } else { byte_of(word, 3) },
    )
}

/// The word held in the four bytes of `bytes` that start at `at`.
pub open spec fn le_word(bytes: Seq<u8>, at: int) -> u32 {
    word_of(bytes[at], bytes[at + 1], bytes[at + 2], bytes[at + 3])
}

/// Byte `i` of `word`, counted from the low end.
pub fn get_byte(word: u32, i: u32) -> (b: u8)
    ensures
        b == byte_of(word, i as int),
{
    if i == 0 {
        (word % 0x100) as u8
    } else if i == 1 {
        (word / 0x100 % 0x100) as u8
    } else if i == 2 {
        (word / 0x1_0000 % 0x100) as u8
    } else {
        (word / 0x100_0000 % 0x100) as u8
    }
}

/// The word whose bytes are `b0` to `b3`, low byte first.
pub fn make_word(b0: u8, b1: u8, b2: u8, b3: u8) -> (w: u32)
    ensures
        w == word_of(b0, b1, b2, b3),
        byte_of(w, 0) == b0,
        byte_of(w, 1) == b1,
        byte_of(w, 2) == b2,
        byte_of(w, 3) == b3,
{
    b0 as u32 + b1 as u32 * 0x100 + b2 as u32 * 0x1_0000 + b3 as u32 * 0x100_0000
}

/// `word` with byte `i` replaced by `byte`; the other three bytes stay.
pub fn set_byte(word: u32, i: u32, byte: u8) -> (w: u32)
    ensures
        w == with_byte(word, i as int, byte),
        byte_of(w, i as int) == byte,
        forall|j: int| 0 <= j < 4 && j != i && (i < 3 || j != 3) ==> byte_of(w, j) == byte_of(word, j),
{
    let b0: u8 = if i == 0 { byte } else { get_byte(word, 0) };
    let b1: u8 = if i == 1 { byte } else { get_byte(word, 1) };
    let b2: u8 = if i == 2 { byte } else { get_byte(word, 2) };
    let b3: u8 = if i >= 3 { byte } else { get_byte(word, 3) };
    make_word(b0, b1, b2, b3)
}

/// The bytes of a word built from four bytes are those four bytes.
pub proof fn bytes_of_word(b0: u8, b1: u8, b2: u8, b3: u8)
    ensures
        byte_of(word_of(b0, b1, b2, b3), 0) == b0,
        byte_of(word_of(b0, b1, b2, b3), 1) == b1,
        byte_of(word_of(b0, b1, b2, b3), 2) == b2,
        byte_of(word_of(b0, b1, b2, b3), 3) == b3,
{
}

/// A word is made of its four bytes.
pub proof fn word_of_its_bytes(word: u32)
    ensures
        word_of(byte_of(word, 0), byte_of(word, 1), byte_of(word, 2), byte_of(word, 3)) == word,
{
}

/// Replacing one byte of a word changes that byte and no other.
pub proof fn with_byte_changes_one_byte(word: u32, i: int, byte: u8)
    requires
        0 <= i < 4,
    ensures
        byte_of(with_byte(word, i, byte), i) == byte,
        forall|j: int| 0 <= j < 4 && j != i ==> byte_of(with_byte(word, i, byte), j) == byte_of(word, j),
{
    let b0 = if i == 0 { byte } else { byte_of(word, 0) };
    let b1 = if i == 1 { byte } else { byte_of(word, 1) };
    let b2 = if i == 2 { byte } else { byte_of(word, 2) };
    let b3 = if i == 3 { byte } else { byte_of(word, 3) };
    bytes_of_word(b0, b1, b2, b3);
    assert(with_byte(word, i, byte) == word_of(b0, b1, b2, b3));
}

} // verus!
