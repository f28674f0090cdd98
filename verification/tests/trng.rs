use xous_core::trng::{buffer_ready, Mode, RawSetup, Sample, Trng, BUFREADY, REFILL_COUNT};

#[test]
fn new_controller_is_not_set_up() {
    let mut trng = Trng::new(0x4002_8000);
    assert_eq!(trng.base_addr(), 0x4002_8000);
    assert_eq!(trng.get_count_remaining(), 0);
    assert_eq!(trng.get_u32(), Sample::Unavailable);
    assert_eq!(trng.get_u32(), Sample::Unavailable);
    assert_eq!(trng.get_count_remaining(), 0);
}

#[test]
fn setup_gives_the_register_values() {
    let mut trng = Trng::new(0);
    assert_eq!(
        trng.setup_raw_generation(256),
        RawSetup { crsrc: 0xfff, crana: 0xffff, opt: 0x1_0100, pp: 0x6001 | (0x3f << 6) }
    );
    assert_eq!(trng.get_count_remaining(), 256);
    assert_eq!(
        trng.setup_raw_generation(32),
        RawSetup { crsrc: 0xfff, crana: 0xffff, opt: 0x1_0020, pp: 0x6001 | (0x20 << 6) }
    );
    assert_eq!(
        trng.setup_raw_generation(0),
        RawSetup { crsrc: 0xfff, crana: 0xffff, opt: 0x1_0000, pp: 0x6001 }
    );
    assert_eq!(
        trng.setup_raw_generation(0xffff),
        RawSetup { crsrc: 0xfff, crana: 0xffff, opt: 0x1_ffff, pp: 0x6fc1 }
    );
    assert_eq!(trng.setup_raw_generation(63).pp, 0x6fc1);
    assert_eq!(trng.setup_raw_generation(64).pp, 0x6fc1);
    assert_eq!(trng.setup_raw_generation(1).pp, 0x6041);
}

#[test]
fn each_word_takes_one_off_the_count() {
    let mut trng = Trng::new(0);
    trng.setup_raw_generation(3);
    assert_eq!(trng.get_u32(), Sample::Read { setup: None });
    assert_eq!(trng.get_count_remaining(), 2);
    assert_eq!(trng.get_u32(), Sample::Read { setup: None });
    assert_eq!(trng.get_count_remaining(), 1);
    assert_eq!(trng.get_u32(), Sample::Read { setup: None });
    assert_eq!(trng.get_count_remaining(), 0);
}

#[test]
fn an_exhausted_run_is_restarted_without_asking() {
    let mut trng = Trng::new(0);
    trng.setup_raw_generation(1);
    assert_eq!(trng.get_u32(), Sample::Read { setup: None });
    let refill = RawSetup { crsrc: 0xfff, crana: 0xffff, opt: 0x1_0100, pp: 0x6fc1 };
    assert_eq!(trng.get_u32(), Sample::Read { setup: Some(refill) });
    assert_eq!(trng.get_count_remaining(), 255);
    for left in (0..255u16).rev() {
        assert_eq!(trng.get_u32(), Sample::Read { setup: None });
        assert_eq!(trng.get_count_remaining(), left);
    }
    assert_eq!(trng.get_u32(), Sample::Read { setup: Some(refill) });
    assert_eq!(trng.get_count_remaining(), REFILL_COUNT - 1);
}

#[test]
fn a_run_of_zero_is_restarted_at_once() {
    let mut trng = Trng::new(0);
    trng.setup_raw_generation(0);
    assert!(matches!(trng.get_u32(), Sample::Read { setup: Some(_) }));
    assert_eq!(trng.get_count_remaining(), 255);
}

#[test]
fn status_register_is_read_by_field() {
    let trng = Trng::new(0);
    assert_eq!(trng.get_raw_count(0x0123_4567), 0x4567);
    assert_eq!(trng.get_raw_count(0xffff_0000), 0);
    assert_eq!(trng.get_raw_count(0x0000_ffff), 0xffff);
    assert!(buffer_ready(BUFREADY));
    assert!(buffer_ready(0x0100_0000));
    assert!(buffer_ready(0xffff_ffff));
    assert!(!buffer_ready(0));
    assert!(!buffer_ready(0x00ff_ffff));
    assert!(!buffer_ready(0x0200_0000));
}

#[test]
fn modes_are_distinct() {
    assert_ne!(Mode::Uninit, Mode::Raw);
    assert_ne!(Mode::Lfsr, Mode::Aes);
}
