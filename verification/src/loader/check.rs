//! Which programs a loaded image is checked for.

use vstd::prelude::*;
use crate::loader::args::{
    declared_words,
    payload_words,
    record_fits,
    TAG_HEADER_WORDS,
    TAG_INIE,
    TAG_INIF,
};
use crate::loader::bootconfig::BootConfig;
use crate::loader::memory::XousPid;

verus! {

/// Process id of the first initial program. The kernel is process 1.
pub const FIRST_INIT_PID: XousPid = 2;

/// One initial program whose load is to be checked.
#[derive(Clone, Copy, Debug, PartialEq, Eq, Structural)]
pub struct LoadCheck {
    /// Where the program lies in the image: the first word of its record.
    pub load_offset: u32,
    /// The process that the program was loaded for.
    pub pid: XousPid,
    /// True for a program that runs from flash, false for one that was
    /// copied to memory.
    pub ini_f: bool,
}

/// The initial programs among the records from `offset` to `limit`, in
/// their order, added to `found`; the first gets process id `pid`, each
/// further one the next. `None` where a record overruns the block, where a
/// program's record is empty, or where the process ids run out.
pub open spec fn spec_check_load(
    words: Seq<u32>,
    offset: int,
    limit: int,
    pid: int,
    found: Seq<LoadCheck>,
) -> Option<Seq<LoadCheck>>
    decreases limit - offset,
{
    if offset >= limit {
        Some(found)
    } else if offset < 0 || !record_fits(words, offset, limit) {
        None
    } else {
        let next = offset + TAG_HEADER_WORDS + payload_words(words, offset);
        if words[offset] == TAG_INIE || words[offset] == TAG_INIF {
            if payload_words(words, offset) == 0 || pid > XousPid::MAX {
                None
            } else {
                spec_check_load(
                    words,
                    next,
                    limit,
                    pid + 1,
                    found.push(
                        LoadCheck {
                            load_offset: words[offset + TAG_HEADER_WORDS],
                            pid: pid as XousPid,
                            ini_f: words[offset] == TAG_INIF,
                        },
                    ),
                )
            }
        } else {
            spec_check_load(words, next, limit, pid, found)
        }
    }
}

/// Lists the initial programs of the argument block with their process
/// ids, for a check of what was loaded. `None` where the block declares
/// more words than it has or is otherwise not in order.
pub fn check_load(cfg: &BootConfig) -> (checks: Option<Vec<LoadCheck>>)
    ensures
        match checks {
            Some(list) => declared_words(cfg@.args) <= cfg@.args.len() && spec_check_load(
                cfg@.args,
                0,
                declared_words(cfg@.args),
                FIRST_INIT_PID as int,
                Seq::empty(),
            ) == Some(list@),
            None => declared_words(cfg@.args) > cfg@.args.len() || spec_check_load(
                cfg@.args,
                0,
                declared_words(cfg@.args),
                FIRST_INIT_PID as int,
                Seq::empty(),
            ).is_none(),
        },
{
    let limit = cfg.args.declared_words();
    if limit > cfg.args.words.len() {
        return None;
    }
    let mut checks: Vec<LoadCheck> = Vec::new();
    let mut pid: XousPid = FIRST_INIT_PID;
    // Set once the last process id has been given out.
    let mut exhausted = false;
    let mut offset: usize = 0;
    let ghost words = cfg.args.words@;
    while offset < limit
        invariant
            words == cfg.args.words@,
            offset <= limit <= words.len(),
            limit == declared_words(words),
            spec_check_load(words, 0, limit as int, FIRST_INIT_PID as int, Seq::empty())
                == spec_check_load(
                words,
                offset as int,
                limit as int,
                if exhausted {
                    XousPid::MAX + 1
                } else {
                    pid as int
                },
                checks@,
            ),
        decreases limit - offset,
    {
        let tag = match cfg.args.record(offset, limit) {
            Some(tag) => tag,
            None => {
                return None;
            },
        };
        assert(tag.size == payload_words(words, offset as int) * 4);
        if tag.name == TAG_INIE || tag.name == TAG_INIF {
            if tag.size == 0 || exhausted {
                return None;
            }
            checks.push(
                LoadCheck {
                    load_offset: cfg.args.words[tag.start],
                    pid,
                    ini_f: tag.name == TAG_INIF,
                },
            );
            if pid == XousPid::MAX {
                exhausted = true;
            } else {
                pid = pid + 1;
            }
        }
        offset = tag.start + (tag.size / 4) as usize;
    }
    Some(checks)
}

} // verus!
