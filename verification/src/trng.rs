//! Sequencing of the hardware entropy source.
//!
//! The controller keeps the mode of the source and the number of samples
//! left in the current run. It says which registers to write and when a
//! word may be read; the caller touches the hardware.

use vstd::prelude::*;

verus! {

/// Entropy source select register: enables and source masks.
pub const LOW_FREQ_EN: u32 = 0b0000000_000_01;

pub const HIGH_FREQ_EN: u32 = 0b0000000_000_10;

pub const LOW_FREQ_SRC_MASK: u32 = 0b0000000_111_00;

pub const HIGH_FREQ_SRC_MASK: u32 = 0b1111111_000_00;

/// Analog generator register: valid and enable masks.
pub const ANALOG_VALID_MASK: u32 = 0b00000000_11111111;

pub const ANALOG_ENABLE_MASK: u32 = 0b11111111_00000000;

/// Options register: generation count and buffer segment.
pub const GENERATION_COUNT_POS: u32 = 0;

pub const GENERATION_COUNT_MASK: u32 = 0x0_ffff;

pub const SEGMENT_A_SELECT: u32 = 0x0_0000;

pub const SEGMENT_B_SELECT: u32 = 0x1_0000;

pub const SEGMENT_SEL_MASK: u32 = 0x1_0000;

/// Post-processing register.
pub const GEN_EN: u32 = 0b0_00_00_000000_00_0_0_0_1;

pub const PARITY_FILTER_EN: u32 = 0b0_00_00_000000_00_0_0_1_0;

pub const HEALTHEST_EN: u32 = 0b0_00_00_000000_00_0_1_0_0;

pub const DRNG_EN: u32 = 0b0_00_00_000000_00_1_0_0_0;

pub const POSTPROC_OPT_MASK: u32 = 0b0_00_00_000000_11_0_0_0_0;

pub const POSTPROC_OPT_LFSR: u32 = 0b0_00_00_000000_00_0_0_0_0;

pub const POSTPROC_OPT_AES: u32 = 0b0_00_00_000000_01_0_0_0_0;

pub const POSTPROC_OPT_RESEED_ALWAYS: u32 = 0b0_00_00_000000_10_0_0_0_0;

pub const POSTPROC_OPT_RESEED_AUTO: u32 = 0b0_00_00_000000_10_0_0_0_0;

pub const HEALTHTEST_LEN_POS: u32 = 6;

pub const HEALTHTEST_LEN_MASK: u32 = 0b0_00_00_111111_00_0_0_0_0;

pub const GEN_INTERVAL_MASK: u32 = 0b0_00_11_000000_00_0_0_0_0;

pub const GEN_INTERVAL_1: u32 = 0b0_00_00_000000_00_0_0_0_0;

pub const GEN_INTERVAL_2: u32 = 0b0_00_01_000000_00_0_0_0_0;

pub const GEN_INTERVAL_4: u32 = 0b0_00_10_000000_00_0_0_0_0;

pub const GEN_INTERVAL_8: u32 = 0b0_00_11_000000_00_0_0_0_0;

pub const RESEED_INTERVAL_MASK: u32 = 0b0_11_00_000000_00_0_0_0_0;

pub const RESEED_INTERVAL_NEVER: u32 = 0b0_00_00_000000_00_0_0_0_0;

pub const RESEED_INTERVAL_1: u32 = 0b0_01_00_000000_00_0_0_0_0;

pub const RESEED_INTERVAL_128: u32 = 0b0_10_00_000000_00_0_0_0_0;

pub const RESEED_INTERVAL_1024: u32 = 0b0_11_00_000000_00_0_0_0_0;

pub const RESEED_SEL: u32 = 0b1_00_00_000000_00_0_0_0_0;

/// Status register.
pub const GEN_COUNT_MASK: u32 = 0b0_0__0000_0000__1111_1111_1111_1111;

pub const HEALTHTEST_ERRCNT_MASK: u32 = 0b0_0__1111_1111__0000_0000_0000_0000;

pub const BUFREADY: u32 = 0b0_1__0000_0000__0000_0000_0000_0000;

pub const DRNG_REESED_REQ: u32 = 0b1_0__0000_0000__0000_0000_0000_0000;

/// Samples of a run that the controller starts by itself.
pub const REFILL_COUNT: u16 = 256;

/// Longest health test that the post-processing register can hold.
pub const MAX_HEALTHTEST_LEN: u32 = 0x3f;

/// How the source generates.
#[derive(Clone, Copy, Debug, PartialEq, Eq, Structural)]
pub enum Mode {
    Uninit,
    Raw,
    Lfsr,
    Aes,
}

/// The values that start a run of raw generation, in the order in which
/// they are written.
#[derive(Clone, Copy, Debug, PartialEq, Eq, Structural)]
pub struct RawSetup {
    /// Entropy source select register.
    pub crsrc: u32,
    /// Analog generator register.
    pub crana: u32,
    /// Options register.
    pub opt: u32,
    /// Post-processing register.
    pub pp: u32,
}

/// What the caller has to do for the next word.
#[derive(Clone, Copy, Debug, PartialEq, Eq, Structural)]
pub enum Sample {
    /// The source was never set up: there is no word.
    Unavailable,
    /// Write `setup` first where it is given. Then wait until the status
    /// register shows a ready buffer, and read the word from the buffer
    /// register.
    Read { setup: Option<RawSetup> },
}

/// The controller as plain values.
pub struct TrngView {
    /// Address of the source's registers.
    pub base_addr: usize,
    pub mode: Mode,
    pub count: u16,
}

/// The controller of one entropy source.
pub struct Trng {
    base_addr: usize,
    count: u16,
    mode: Mode,
}

/// Length of the health test for a run of `count` samples.
pub open spec fn healthtest_len(count: u16) -> u32 {
    if count as u32 > MAX_HEALTHTEST_LEN {
        MAX_HEALTHTEST_LEN
    } else {
        count as u32
    }
}

/// The register values that start a run of `count` samples: every entropy
/// source and every analog generator on and valid, the count in the options
/// register with the second buffer segment selected, and generation enabled
/// with an interval of four, a reseed interval of one and the health test
/// length.
pub open spec fn spec_raw_setup(count: u16) -> RawSetup {
    RawSetup {
        crsrc: LOW_FREQ_EN | HIGH_FREQ_EN | LOW_FREQ_SRC_MASK | HIGH_FREQ_SRC_MASK,
        crana: ANALOG_ENABLE_MASK | ANALOG_VALID_MASK,
        opt: (((count as u32) << GENERATION_COUNT_POS) & GENERATION_COUNT_MASK) | SEGMENT_B_SELECT,
        pp: (GEN_EN | GEN_INTERVAL_4 | RESEED_INTERVAL_1) | ((healthtest_len(count)
            << HEALTHTEST_LEN_POS) & HEALTHTEST_LEN_MASK),
    }
}

/// The controller after a request for a word, and what the caller is told.
///
/// Before any set-up there is no word. In raw mode a word is read and the
/// count goes down by one; when the run is used up, a run of 256 samples is
/// started first, without the caller having asked for it.
pub open spec fn spec_get_u32(state: TrngView) -> (TrngView, Sample) {
    match state.mode {
        Mode::Raw => if state.count > 0 {
            (
                TrngView { mode: Mode::Raw, count: (state.count - 1) as u16, ..state },
                Sample::Read { setup: None },
            )
        } else {
            (
                TrngView { mode: Mode::Raw, count: (REFILL_COUNT - 1) as u16, ..state },
                Sample::Read { setup: Some(spec_raw_setup(REFILL_COUNT)) },
            )
        },
        _ => (state, Sample::Unavailable),
    }
}

/// The controller after `n` requests.
pub open spec fn state_after(state: TrngView, n: nat) -> TrngView
    decreases n,
{
    if n == 0 {
        state
    } else {
        spec_get_u32(state_after(state, (n - 1) as nat)).0
    }
}

/// What the caller is told at request number `n`, counting from one.
pub open spec fn sample_at(state: TrngView, n: nat) -> Sample
    recommends
        n > 0,
{
    spec_get_u32(state_after(state, (n - 1) as nat)).1
}

impl View for Trng {
    type V = TrngView;

    closed spec fn view(&self) -> TrngView {
        TrngView { base_addr: self.base_addr, mode: self.mode, count: self.count }
    }
}

impl Trng {
    /// Only the modes that are implemented occur.
    #[verifier::type_invariant]
    spec fn implemented(self) -> bool {
        self.mode is Uninit || self.mode is Raw
    }

    /// A controller for the source at `base_addr`, not yet set up.
    pub fn new(base_addr: usize) -> (trng: Trng)
        ensures
            trng@ == (TrngView { base_addr, mode: Mode::Uninit, count: 0 }),
    {
        Trng { base_addr, count: 0, mode: Mode::Uninit }
    }

    /// Address of the source's registers.
    pub fn base_addr(&self) -> (address: usize)
        ensures
            address == self@.base_addr,
    {
        self.base_addr
    }

    /// Starts a run of `count` samples of raw generation and returns the
    /// register values to write.
    pub fn setup_raw_generation(&mut self, count: u16) -> (setup: RawSetup)
        ensures
            setup == spec_raw_setup(count),
            final(self)@ == (TrngView { mode: Mode::Raw, count, ..old(self)@ }),
    {
        self.mode = Mode::Raw;
        self.count = count;
        let healthest_len = if count as u32 > (HEALTHTEST_LEN_MASK >> HEALTHTEST_LEN_POS) {
            HEALTHTEST_LEN_MASK >> HEALTHTEST_LEN_POS
        } else {
            count as u32
        };
        assert(HEALTHTEST_LEN_MASK >> HEALTHTEST_LEN_POS == MAX_HEALTHTEST_LEN) by (bit_vector);
        RawSetup {
            crsrc: LOW_FREQ_EN | HIGH_FREQ_EN | LOW_FREQ_SRC_MASK | HIGH_FREQ_SRC_MASK,
            crana: ANALOG_ENABLE_MASK | ANALOG_VALID_MASK,
            opt: (((count as u32) << GENERATION_COUNT_POS) & GENERATION_COUNT_MASK)
                | SEGMENT_B_SELECT,
            pp: (GEN_EN | GEN_INTERVAL_4 | RESEED_INTERVAL_1) | ((healthest_len
                << HEALTHTEST_LEN_POS) & HEALTHTEST_LEN_MASK),
        }
    }

    /// Asks for the next word.
    pub fn get_u32(&mut self) -> (sample: Sample)
        ensures
            (final(self)@, sample) == spec_get_u32(old(self)@),
    {
        proof {
            use_type_invariant(&*self);
        }
        match self.mode {
            Mode::Raw => {
                if self.count > 0 {
                    self.count = self.count - 1;
                    Sample::Read { setup: None }
                } else {
                    let setup = self.setup_raw_generation(REFILL_COUNT);
                    self.count = self.count - 1;
                    Sample::Read { setup: Some(setup) }
                }
            },
            _ => Sample::Unavailable,
        }
    }

    /// The number of samples that the hardware reports as generated, from a
    /// reading of the status register.
    pub fn get_raw_count(&self, status: u32) -> (count: u16)
        ensures
            count == status & GEN_COUNT_MASK,
    {
        let masked = status & GEN_COUNT_MASK;
        assert(masked <= 0xffff) by (bit_vector)
            requires
                masked == status & 0xffffu32,
        ;
        masked as u16
    }

    /// The number of samples left in the current run.
    pub fn get_count_remaining(&self) -> (count: u16)
        ensures
            count == self@.count,
    {
        self.count
    }
}

/// True when a reading of the status register shows a word in the buffer.
pub fn buffer_ready(status: u32) -> (ready: bool)
    ensures
        ready == (status & BUFREADY != 0),
{
    status & BUFREADY != 0
}

/// The register values of a run in numbers: the options register holds
/// the count above the segment bit, the post-processing register the
/// health test length, capped at 63, in bits six and up.
pub proof fn lemma_raw_setup_values(count: u16)
    ensures
        spec_raw_setup(count).crsrc == 0xfff,
        spec_raw_setup(count).crana == 0xffff,
        spec_raw_setup(count).opt == 0x1_0000 + count,
        spec_raw_setup(count).pp == 0x6001 + 64 * healthtest_len(count),
{
    let c = count as u32;
    let h = healthtest_len(count);
    assert(0b01u32 | 0b10u32 | 0b11100u32 | 0b1111111_00000u32 == 0xfffu32) by (bit_vector);
    assert(0xff00u32 | 0x00ffu32 == 0xffffu32) by (bit_vector);
    assert(((c << 0u32) & 0xffffu32) | 0x1_0000u32 == 0x1_0000u32 + c) by (bit_vector)
        requires
            c <= 0xffffu32,
    ;
    assert((0x1u32 | 0x2000u32 | 0x4000u32) | ((h << 6u32) & 0xfc0u32) == 0x6001u32 + 64u32 * h)
        by (bit_vector)
        requires
            h <= 0x3fu32,
    ;
}

/// In raw mode a request never fails.
pub proof fn lemma_raw_never_fails(state: TrngView)
    requires
        state.mode is Raw,
    ensures
        spec_get_u32(state).1 is Read,
        spec_get_u32(state).0.mode is Raw,
{
}

/// While the run lasts, each request takes exactly one sample off the
/// count and asks for no new run.
pub proof fn lemma_count_goes_down_by_one(state: TrngView, n: nat)
    requires
        state.mode is Raw,
        n <= state.count,
    ensures
        state_after(state, n) == (TrngView {
            mode: Mode::Raw,
            count: (state.count - n) as u16,
            ..state
        }),
        n > 0 ==> sample_at(state, n) == (Sample::Read { setup: None }),
    decreases n,
{
    if n > 0 {
        lemma_count_goes_down_by_one(state, (n - 1) as nat);
    }
}

/// Asking for more words than the run holds neither fails nor ends the
/// supply: the request after the last sample starts a run of 256 and is
/// served from it, and so is every request after that.
pub proof fn lemma_requests_beyond_the_run_are_served(state: TrngView, n: nat)
    requires
        state.mode is Raw,
        n > 0,
    ensures
        sample_at(state, n) is Read,
        state_after(state, n).mode is Raw,
        n == state.count + 1 ==> sample_at(state, n) == (Sample::Read {
            setup: Some(spec_raw_setup(REFILL_COUNT)),
        }) && state_after(state, n).count == REFILL_COUNT - 1,
    decreases n,
{
    if n > 1 {
        lemma_requests_beyond_the_run_are_served(state, (n - 1) as nat);
    }
    if n == state.count + 1 {
        lemma_count_goes_down_by_one(state, (n - 1) as nat);
    }
}

} // verus!
