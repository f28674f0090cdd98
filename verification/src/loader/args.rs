//! The kernel argument block: a run of tagged records.
//!
//! A record is a name of four characters, a word whose upper half counts the
//! payload in words, and the payload. The block starts with the `XArg`
//! record, whose first payload word counts the words of the whole block.

use vstd::prelude::*;

verus! {

/// Record names: four characters in little-endian order.
pub const TAG_XARG: u32 = 0x6772_4158;

pub const TAG_MREX: u32 = 0x7845_524d;

pub const TAG_BFLG: u32 = 0x676c_6642;

pub const TAG_XKRN: u32 = 0x6e72_4b58;

pub const TAG_INIE: u32 = 0x4569_6e49;

pub const TAG_INIF: u32 = 0x4669_6e49;

/// Words in front of a record's payload.
pub const TAG_HEADER_WORDS: usize = 2;

/// Payload bytes of the `XArg` record.
pub const XARG_SIZE: u32 = 20;

/// Position of the word that counts the words of the block.
pub const BLOCK_LENGTH_INDEX: usize = 2;

/// Positions, in the block, of the base and the size of main memory.
pub const RAM_START_INDEX: usize = 4;

pub const RAM_SIZE_INDEX: usize = 5;

/// The argument block and the address it was read from.
pub struct KernelArguments {
    pub base: usize,
    pub words: Vec<u32>,
}

/// One record of the block. `start` is the position of its payload.
#[derive(Clone, Copy, Debug, PartialEq, Eq, Structural)]
pub struct KernelArgument {
    pub name: u32,
    /// Payload size in bytes.
    pub size: u32,
    pub start: usize,
}

/// Words of the whole block, as its header declares them; zero where the
/// block is too short to say.
pub open spec fn declared_words(words: Seq<u32>) -> int {
    if words.len() > BLOCK_LENGTH_INDEX {
        words[BLOCK_LENGTH_INDEX as int] as int
    } else {
        0
    }
}

/// Payload words of the record at `offset`.
pub open spec fn payload_words(words: Seq<u32>, offset: int) -> int {
    (words[offset + 1] / 0x1_0000) as int
}

/// The record at `offset` lies within the first `limit` words.
pub open spec fn record_fits(words: Seq<u32>, offset: int, limit: int) -> bool {
    offset + TAG_HEADER_WORDS <= limit && offset + TAG_HEADER_WORDS + payload_words(words, offset)
        <= limit
}

/// The record at `offset`.
pub open spec fn record_at(words: Seq<u32>, offset: int) -> KernelArgument {
    KernelArgument {
        name: words[offset],
        size: (payload_words(words, offset) * 4) as u32,
        start: (offset + TAG_HEADER_WORDS) as usize,
    }
}

/// The payload of the record at `offset`.
pub open spec fn payload(words: Seq<u32>, offset: int) -> Seq<u32> {
    words.subrange(
        offset + TAG_HEADER_WORDS,
        offset + TAG_HEADER_WORDS + payload_words(words, offset),
    )
}

impl KernelArguments {
    pub fn new(base: usize, words: Vec<u32>) -> (args: KernelArguments)
        ensures
            args.base == base,
            args.words@ == words@,
    {
        KernelArguments { base, words }
    }

    /// Words of the whole block, as its header declares them.
    pub fn declared_words(&self) -> (count: usize)
        ensures
            count == declared_words(self.words@),
    {
        if self.words.len() > BLOCK_LENGTH_INDEX {
            self.words[BLOCK_LENGTH_INDEX] as usize
        } else {
            0
        }
    }

    /// Reads the record at `offset`, or `None` where it would run past the
    /// first `limit` words.
    pub fn record(&self, offset: usize, limit: usize) -> (tag: Option<KernelArgument>)
        requires
            offset < limit <= self.words@.len(),
        ensures
            tag == if record_fits(self.words@, offset as int, limit as int) {
                Some(record_at(self.words@, offset as int))
            } else {
                None
            },
    {
        if limit - offset < TAG_HEADER_WORDS {
            return None;
        }
        let count: u32 = self.words[offset + 1] / 0x1_0000;
        if limit - offset - TAG_HEADER_WORDS < count as usize {
            return None;
        }
        Some(KernelArgument { name: self.words[offset], size: count * 4, start: offset + TAG_HEADER_WORDS })
    }
}

} // verus!
