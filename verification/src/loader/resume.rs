//! The suspend marker: a page of battery-backed memory that tells a clean
//! suspend from a cold start.
//!
//! The page holds eight sectors of 128 words. The last word of a sector is
//! the hash of the 127 before it. In the first sector, the two words that
//! held the hardware seeds at suspend time are replaced by the seeds read
//! now before hashing, and the fourth word names the process that manages
//! suspend and resume.

use vstd::prelude::*;
use crate::loader::murmur3::{
    lemma_single_word_changes_hash,
    lemma_zero_sector_hash,
    murmur3_32,
    spec_murmur3_32,
    SECTOR_DATA_WORDS,
};

verus! {

pub const WORDS_PER_SECTOR: usize = 128;

pub const NUM_SECTORS: usize = 8;

pub const WORDS_PER_PAGE: usize = 1024;

/// Index in the first sector of the word that flags a forced suspend.
pub const FORCED_INDEX: usize = 0;

/// Indices in the first sector of the two seed words.
pub const SEED0_INDEX: usize = 1;

pub const SEED1_INDEX: usize = 2;

/// Index in the first sector of the process id word.
pub const PID_INDEX: usize = 3;

/// The words of `sector` that are hashed, with the fresh seeds in place.
pub open spec fn sector_data(marker: Seq<u32>, sector: int, seed0: u32, seed1: u32) -> Seq<u32> {
    let raw = marker.subrange(
        sector * WORDS_PER_SECTOR as int,
        sector * WORDS_PER_SECTOR as int + SECTOR_DATA_WORDS as int,
    );
    if sector == 0 {
        raw.update(SEED0_INDEX as int, seed0).update(SEED1_INDEX as int, seed1)
    } else {
        raw
    }
}

/// The checksum that `sector` carries.
pub open spec fn stored_checksum(marker: Seq<u32>, sector: int) -> u32 {
    marker[(sector + 1) * WORDS_PER_SECTOR as int - 1]
}

/// A sector is clean when its stored checksum is the hash of its data.
pub open spec fn sector_clean(marker: Seq<u32>, sector: int, seed0: u32, seed1: u32) -> bool {
    spec_murmur3_32(sector_data(marker, sector, seed0, seed1), 0) == stored_checksum(
        marker,
        sector,
    )
}

/// The first `n` sectors are clean.
pub open spec fn sectors_clean(marker: Seq<u32>, n: int, seed0: u32, seed1: u32) -> bool {
    forall|sector: int| 0 <= sector < n ==> sector_clean(marker, sector, seed0, seed1)
}

/// The suspend was clean: every sector is.
pub open spec fn marker_clean(marker: Seq<u32>, seed0: u32, seed1: u32) -> bool {
    sectors_clean(marker, NUM_SECTORS as int, seed0, seed1)
}

/// A marker page of zeros.
pub open spec fn wiped() -> Seq<u32> {
    Seq::new(WORDS_PER_PAGE as nat, |i: int| 0u32)
}

/// Hashes one sector with the fresh seeds in place and compares the result
/// with the checksum that the sector carries.
fn check_sector(marker: &[u32], sector: usize, seed0: u32, seed1: u32) -> (clean: bool)
    requires
        marker@.len() == WORDS_PER_PAGE,
        sector < NUM_SECTORS,
    ensures
        clean == sector_clean(marker@, sector as int, seed0, seed1),
{
    let mut hashbuf: [u32; 127] = [0; 127];
    let base = sector * WORDS_PER_SECTOR;
    let mut i: usize = 0;
    while i < SECTOR_DATA_WORDS
        invariant
            i <= SECTOR_DATA_WORDS,
            sector < NUM_SECTORS,
            base == sector * WORDS_PER_SECTOR,
            marker@.len() == WORDS_PER_PAGE,
            forall|j: int| 0 <= j < i ==> hashbuf@[j] == marker@[base + j],
        decreases SECTOR_DATA_WORDS - i,
    {
        hashbuf[i] = marker[base + i];
        i = i + 1;
    }
    assert(hashbuf@ =~= marker@.subrange(base as int, base + SECTOR_DATA_WORDS as int));
    if sector == 0 {
        hashbuf[SEED0_INDEX] = seed0;
        hashbuf[SEED1_INDEX] = seed1;
    }
    assert(hashbuf@ =~= sector_data(marker@, sector as int, seed0, seed1));
    let hash = murmur3_32(hashbuf.as_slice(), 0);
    hash == marker[base + WORDS_PER_SECTOR - 1]
}

/// Reads the suspend marker against the seeds read from the hardware.
///
/// Returns whether the suspend was clean, whether it was forced, and the
/// process id recorded in the first sector.
pub fn read_marker(marker: &[u32], seed0: u32, seed1: u32) -> (result: (bool, bool, u32))
    requires
        marker@.len() == WORDS_PER_PAGE,
    ensures
        result.0 == marker_clean(marker@, seed0, seed1),
        result.1 == (marker@[FORCED_INDEX as int] != 0),
        result.2 == marker@[PID_INDEX as int],
{
    let was_forced_suspend = marker[FORCED_INDEX] != 0;
    let pid = marker[PID_INDEX];
    let mut clean = true;
    let mut sector: usize = 0;
    while sector < NUM_SECTORS
        invariant
            sector <= NUM_SECTORS,
            marker@.len() == WORDS_PER_PAGE,
            clean == sectors_clean(marker@, sector as int, seed0, seed1),
        decreases NUM_SECTORS - sector,
    {
        if !check_sector(marker, sector, seed0, seed1) {
            clean = false;
        }
        sector = sector + 1;
    }
    (clean, was_forced_suspend, pid)
}

/// Wipes the suspend marker.
pub fn wipe_marker(marker: &mut [u32])
    requires
        old(marker)@.len() == WORDS_PER_PAGE,
    ensures
        final(marker)@ == wiped(),
{
    let mut i: usize = 0;
    while i < WORDS_PER_PAGE
        invariant
            i <= WORDS_PER_PAGE,
            marker@.len() == WORDS_PER_PAGE,
            forall|j: int| 0 <= j < i ==> marker@[j] == 0,
        decreases WORDS_PER_PAGE - i,
    {
        marker[i] = 0;
        i = i + 1;
    }
    assert(marker@ =~= wiped());
}

/// Checks the suspend marker against the seeds read from the hardware and
/// wipes it, so that a resume that fails is not tried again.
///
/// Returns whether the suspend was clean, whether it was forced, and the
/// process id recorded in the first sector.
pub fn check_resume(marker: &mut [u32], seed0: u32, seed1: u32) -> (result: (bool, bool, u32))
    requires
        old(marker)@.len() == WORDS_PER_PAGE,
    ensures
        result.0 == marker_clean(old(marker)@, seed0, seed1),
        result.1 == (old(marker)@[FORCED_INDEX as int] != 0),
        result.2 == old(marker)@[PID_INDEX as int],
        final(marker)@ == wiped(),
{
    let result = read_marker(marker, seed0, seed1);
    wipe_marker(marker);
    result
}

/// Corrupting one word of a clean marker makes it unclean, wherever the
/// word lies, except in the two seed places, which are not read.
pub proof fn lemma_corruption_is_detected(
    marker: Seq<u32>,
    corrupted: Seq<u32>,
    at: int,
    seed0: u32,
    seed1: u32,
)
    requires
        marker.len() == WORDS_PER_PAGE,
        corrupted.len() == WORDS_PER_PAGE,
        0 <= at < WORDS_PER_PAGE,
        at != SEED0_INDEX,
        at != SEED1_INDEX,
        corrupted[at] != marker[at],
        forall|j: int| 0 <= j < WORDS_PER_PAGE && j != at ==> corrupted[j] == marker[j],
        marker_clean(marker, seed0, seed1),
    ensures
        !marker_clean(corrupted, seed0, seed1),
{
    let sector = at / WORDS_PER_SECTOR as int;
    let offset = at % WORDS_PER_SECTOR as int;
    assert(0 <= sector < NUM_SECTORS);
    assert(sector_clean(marker, sector, seed0, seed1));
    let good = sector_data(marker, sector, seed0, seed1);
    let bad = sector_data(corrupted, sector, seed0, seed1);
    if offset == WORDS_PER_SECTOR - 1 {
        assert(good =~= bad);
    } else {
        assert(good.len() == bad.len());
        assert(good[offset] != bad[offset]);
        assert forall|j: int| 0 <= j < good.len() && j != offset implies good[j] == bad[j] by {
            assert(sector * WORDS_PER_SECTOR + j != at);
        }
        lemma_single_word_changes_hash(good, bad, offset, 0);
        assert(stored_checksum(corrupted, sector) == stored_checksum(marker, sector));
    }
    assert(!sector_clean(corrupted, sector, seed0, seed1));
}

/// A wiped marker is never clean, whatever the seeds: a check that follows
/// a check cannot resume.
pub proof fn lemma_wiped_marker_is_not_clean(seed0: u32, seed1: u32)
    ensures
        !marker_clean(wiped(), seed0, seed1),
{
    lemma_zero_sector_hash();
    assert(sector_data(wiped(), 1, seed0, seed1) =~= Seq::new(
        SECTOR_DATA_WORDS as nat,
        |i: int| 0u32,
    ));
    assert(!sector_clean(wiped(), 1, seed0, seed1));
}

} // verus!
