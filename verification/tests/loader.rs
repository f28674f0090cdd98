use xous_core::loader::args::{
    KernelArgument, KernelArguments, TAG_BFLG, TAG_INIE, TAG_INIF, TAG_MREX, TAG_XARG, TAG_XKRN,
};
use xous_core::loader::bootconfig::{read_initial_config, BootConfig, BootError, MemoryRegionExtra};
use xous_core::loader::check::{check_load, LoadCheck};
use xous_core::loader::entry::{
    backup_args, encode_root_pointer, kernel_entry, restore_entry, sv32, InitialProcess,
    KernelEntry, RootPointerLayout, KERNEL_ARGUMENT_OFFSET,
};
use xous_core::loader::memory::{
    bzero, clear_ram, suspend_marker, PageTable, XousPid, PAGE_SIZE, SIGBLOCK_SIZE,
};
use xous_core::loader::murmur3::{murmur3_32, ZERO_SECTOR_HASH};
use xous_core::loader::resume::{
    check_resume, read_marker, wipe_marker, NUM_SECTORS, WORDS_PER_PAGE, WORDS_PER_SECTOR,
};
use xous_core::loader::sequence::{
    boot_sequence, resume_steps, rust_entry, BootAction, BootEvent, BootOptions, BootStage,
    HaltReason, ResumeStep,
};

fn tag(name: u32, payload: &[u32]) -> Vec<u32> {
    let mut words = vec![name, (payload.len() as u32) << 16];
    words.extend_from_slice(payload);
    words
}

/// A block of the header and the given records, with the length filled in.
fn block(records: &[Vec<u32>]) -> Vec<u32> {
    let mut words = tag(TAG_XARG, &[0, 1, 0x1000_0000, 0x0100_0000, 0x4d41_5253]);
    for record in records {
        words.extend_from_slice(record);
    }
    words[2] = words.len() as u32;
    words
}

fn config(words: Vec<u32>) -> BootConfig {
    BootConfig {
        no_copy: false,
        base_addr: 0x2050_0000,
        debug: false,
        sram_start: 0,
        sram_size: 0,
        regions: Vec::new(),
        args: KernelArguments::new(0x2050_1000, words),
        init_size: 0,
        extra_pages: 0,
        init_process_count: 0,
    }
}

fn kernel() -> Vec<u32> {
    tag(TAG_XKRN, &[0x1000, 0xffd0_0000, 0x8000, 0xffd1_0000, 0x1000, 0x2000, 0xffd0_0000])
}

fn init() -> Vec<u32> {
    tag(TAG_INIE, &[0x2_0000, 0x1_0000])
}

#[test]
fn tag_names_are_four_characters() {
    assert_eq!(TAG_XARG, u32::from_le_bytes(*b"XArg"));
    assert_eq!(TAG_MREX, u32::from_le_bytes(*b"MREx"));
    assert_eq!(TAG_BFLG, u32::from_le_bytes(*b"Bflg"));
    assert_eq!(TAG_XKRN, u32::from_le_bytes(*b"XKrn"));
    assert_eq!(TAG_INIE, u32::from_le_bytes(*b"IniE"));
    assert_eq!(TAG_INIF, u32::from_le_bytes(*b"IniF"));
}

#[test]
fn records_are_read_by_offset() {
    let args = KernelArguments::new(0, block(&[kernel(), init()]));
    assert_eq!(args.declared_words(), 20);
    assert_eq!(args.record(0, 20), Some(KernelArgument { name: TAG_XARG, size: 20, start: 2 }));
    assert_eq!(args.record(7, 20), Some(KernelArgument { name: TAG_XKRN, size: 28, start: 9 }));
    assert_eq!(args.record(16, 20), Some(KernelArgument { name: TAG_INIE, size: 8, start: 18 }));
    assert_eq!(args.record(16, 19), None);
    assert_eq!(args.record(19, 20), None);
    assert_eq!(KernelArguments::new(0, vec![1, 2]).declared_words(), 0);
}

#[test]
fn well_formed_block_is_read() {
    let mut cfg = config(block(&[kernel(), init()]));
    assert_eq!(read_initial_config(&mut cfg), Ok(()));
    assert_eq!(cfg.sram_start, 0x1000_0000);
    assert_eq!(cfg.sram_size, 0x0100_0000);
    assert!(!cfg.no_copy);
    assert!(!cfg.debug);
    assert_eq!(cfg.base_addr, 0x2050_0000);
    assert_eq!(cfg.init_process_count, 1);
    assert!(cfg.regions.is_empty());
}

#[test]
fn reading_twice_gives_the_same() {
    let words = block(&[
        tag(TAG_BFLG, &[5]),
        kernel(),
        tag(TAG_MREX, &[1, 2, 3, 4]),
        init(),
        tag(TAG_INIF, &[7]),
    ]);
    let mut first = config(words.clone());
    let mut second = config(words);
    assert_eq!(read_initial_config(&mut first), Ok(()));
    assert_eq!(read_initial_config(&mut second), Ok(()));
    assert_eq!(first.no_copy, second.no_copy);
    assert_eq!(first.debug, second.debug);
    assert_eq!(first.base_addr, second.base_addr);
    assert_eq!(first.sram_start, second.sram_start);
    assert_eq!(first.sram_size, second.sram_size);
    assert_eq!(first.regions, second.regions);
    assert_eq!(first.init_process_count, second.init_process_count);
    assert_eq!(first.init_process_count, 2);
    assert_eq!(read_initial_config(&mut first), Ok(()));
    assert_eq!(first.no_copy, second.no_copy);
    assert_eq!(first.debug, second.debug);
    assert_eq!(first.base_addr, second.base_addr);
    assert_eq!(first.regions, second.regions);
    assert_eq!(first.sram_start, second.sram_start);
    assert_eq!(first.sram_size, second.sram_size);
    assert_eq!(first.init_process_count, 2);
}

#[test]
fn boot_flags_are_read_bit_by_bit() {
    let mut cfg = config(block(&[tag(TAG_BFLG, &[1]), kernel(), init()]));
    assert_eq!(read_initial_config(&mut cfg), Ok(()));
    assert_eq!((cfg.no_copy, cfg.base_addr, cfg.debug), (true, 0x2050_0000, false));
    let mut cfg = config(block(&[tag(TAG_BFLG, &[2]), kernel(), init()]));
    assert_eq!(read_initial_config(&mut cfg), Ok(()));
    assert_eq!((cfg.no_copy, cfg.base_addr, cfg.debug), (false, 0, false));
    let mut cfg = config(block(&[tag(TAG_BFLG, &[4]), kernel(), init()]));
    assert_eq!(read_initial_config(&mut cfg), Ok(()));
    assert_eq!((cfg.no_copy, cfg.base_addr, cfg.debug), (false, 0x2050_0000, true));
    let mut cfg = config(block(&[kernel(), init(), tag(TAG_BFLG, &[0xffff_fff8])]));
    assert_eq!(read_initial_config(&mut cfg), Ok(()));
    assert_eq!((cfg.no_copy, cfg.base_addr, cfg.debug), (false, 0x2050_0000, false));
}

#[test]
fn extra_regions_are_listed() {
    let mut cfg =
        config(block(&[tag(TAG_MREX, &[0x4000_0000, 0x1000, 0x4853_4c46, 0, 5, 6, 7, 8, 9]), kernel(), init()]));
    assert_eq!(read_initial_config(&mut cfg), Ok(()));
    assert_eq!(
        cfg.regions,
        vec![
            MemoryRegionExtra { start: 0x4000_0000, length: 0x1000, name: 0x4853_4c46, padding: 0 },
            MemoryRegionExtra { start: 5, length: 6, name: 7, padding: 8 },
        ]
    );
}

#[test]
fn the_last_regions_record_counts() {
    let mut cfg = config(block(&[
        tag(TAG_MREX, &[1, 2, 3, 4]),
        kernel(),
        tag(TAG_MREX, &[5, 6, 7, 8]),
        init(),
    ]));
    assert_eq!(read_initial_config(&mut cfg), Ok(()));
    assert_eq!(cfg.regions, vec![MemoryRegionExtra { start: 5, length: 6, name: 7, padding: 8 }]);
}

#[test]
fn both_kinds_of_initial_program_count() {
    let mut cfg = config(block(&[init(), kernel(), tag(TAG_INIF, &[1, 2, 3]), init()]));
    assert_eq!(read_initial_config(&mut cfg), Ok(()));
    assert_eq!(cfg.init_process_count, 3);
}

#[test]
fn unknown_records_are_skipped() {
    let mut cfg = config(block(&[tag(0x1234_5678, &[9, 9, 9]), kernel(), tag(0x4242_4242, &[]), init()]));
    assert_eq!(read_initial_config(&mut cfg), Ok(()));
    assert_eq!(cfg.init_process_count, 1);
}

fn refused(words: Vec<u32>) -> BootError {
    let mut cfg = config(words);
    cfg.debug = true;
    cfg.init_process_count = 7;
    let result = read_initial_config(&mut cfg);
    // A refused block leaves the configuration alone.
    assert_eq!(cfg.sram_start, 0);
    assert_eq!(cfg.sram_size, 0);
    assert!(cfg.debug);
    assert_eq!(cfg.init_process_count, 7);
    assert!(cfg.regions.is_empty());
    result.unwrap_err()
}

#[test]
fn missing_kernel_is_refused() {
    assert_eq!(refused(block(&[init()])), BootError::NoKernel);
    assert_eq!(refused(block(&[])), BootError::NoKernel);
}

#[test]
fn missing_initial_program_is_refused() {
    assert_eq!(refused(block(&[kernel()])), BootError::NoInit);
}

#[test]
fn second_kernel_is_refused() {
    assert_eq!(refused(block(&[kernel(), init(), kernel()])), BootError::KernelTwice);
}

#[test]
fn kernel_of_wrong_size_is_refused() {
    assert_eq!(refused(block(&[tag(TAG_XKRN, &[1, 2, 3, 4, 5, 6]), init()])), BootError::BadKernelSize);
    assert_eq!(
        refused(block(&[tag(TAG_XKRN, &[1, 2, 3, 4, 5, 6, 7, 8]), init()])),
        BootError::BadKernelSize
    );
}

#[test]
fn empty_initial_program_is_refused() {
    assert_eq!(refused(block(&[kernel(), tag(TAG_INIE, &[])])), BootError::BadInitSize);
    assert_eq!(refused(block(&[kernel(), tag(TAG_INIF, &[])])), BootError::BadInitSize);
}

#[test]
fn empty_boot_flags_are_refused() {
    assert_eq!(refused(block(&[kernel(), init(), tag(TAG_BFLG, &[])])), BootError::EmptyBootFlags);
}

#[test]
fn bad_header_is_refused() {
    let mut words = block(&[kernel(), init()]);
    words[0] = TAG_XKRN;
    assert_eq!(refused(words), BootError::BadHeader);
    // A header of four payload words instead of five.
    let mut words = tag(TAG_XARG, &[0, 1, 0x1000_0000, 0x0100_0000]);
    words.extend(kernel());
    words.extend(init());
    words[2] = words.len() as u32;
    assert_eq!(refused(words), BootError::BadHeader);
}

#[test]
fn empty_and_short_blocks_are_refused() {
    assert_eq!(refused(vec![]), BootError::MissingHeader);
    assert_eq!(refused(vec![TAG_XARG, 5 << 16]), BootError::MissingHeader);
    let mut words = block(&[kernel(), init()]);
    words[2] = 0;
    assert_eq!(refused(words), BootError::MissingHeader);
    let mut words = block(&[kernel(), init()]);
    words[2] += 1;
    assert_eq!(refused(words), BootError::Truncated);
}

#[test]
fn records_that_overrun_are_refused() {
    let mut words = block(&[kernel(), init()]);
    let last = words.len() - 3;
    // The last record claims one word more than the block holds.
    words[last] = 3 << 16;
    assert_eq!(refused(words), BootError::TagOverrun);
    let mut words = block(&[kernel(), init()]);
    words.push(TAG_BFLG);
    words[2] += 1;
    assert_eq!(refused(words), BootError::TagOverrun);
    let mut words = block(&[]);
    words[2] = 6;
    assert_eq!(refused(words), BootError::TagOverrun);
    let mut words = block(&[]);
    words[2] = 1;
    assert_eq!(refused(words), BootError::TagOverrun);
}

#[test]
fn murmur3_matches_known_values() {
    assert_eq!(murmur3_32(&[], 0), 0);
    assert_eq!(murmur3_32(&[], 1), 0x514e_28b7);
    assert_eq!(murmur3_32(&[], 0xffff_ffff), 0x81f1_6f39);
    assert_eq!(murmur3_32(&[0], 0), 0x2362_f9de);
    assert_eq!(murmur3_32(&[0xffff_ffff], 0), 0x7629_3b50);
    assert_eq!(murmur3_32(&[0x8765_4321], 0), 0xf55b_516b);
    assert_eq!(murmur3_32(&[0x8765_4321], 0x5082_edee), 0x2362_f9de);
    let words = [
        u32::from_le_bytes(*b"Hell"),
        u32::from_le_bytes(*b"o, w"),
        u32::from_le_bytes(*b"orld"),
        u32::from_le_bytes(*b"!..."),
    ];
    assert_eq!(murmur3_32(&words, 0), 0x4719_034e);
    assert_eq!(murmur3_32(&[0; 127], 0), ZERO_SECTOR_HASH);
    assert_eq!(ZERO_SECTOR_HASH, 0x0c96_0b2d);
}

/// A marker as a clean suspend leaves it.
fn clean_marker(seed0: u32, seed1: u32, pid: u32, forced: u32) -> Vec<u32> {
    let mut marker = vec![0u32; WORDS_PER_PAGE];
    for (i, word) in marker.iter_mut().enumerate() {
        *word = (i as u32).wrapping_mul(0x9e37_79b9) ^ 0x5bd1_e995;
    }
    marker[0] = forced;
    marker[3] = pid;
    for sector in 0..NUM_SECTORS {
        let base = sector * WORDS_PER_SECTOR;
        let mut data = marker[base..base + WORDS_PER_SECTOR - 1].to_vec();
        if sector == 0 {
            data[1] = seed0;
            data[2] = seed1;
        }
        marker[base + WORDS_PER_SECTOR - 1] = murmur3_32(&data, 0);
    }
    marker
}

#[test]
fn clean_marker_is_recognised_and_wiped() {
    let mut marker = clean_marker(0x1111_2222, 0x3333_4444, 5, 0);
    assert_eq!(check_resume(&mut marker, 0x1111_2222, 0x3333_4444), (true, false, 5));
    assert_eq!(marker, vec![0u32; WORDS_PER_PAGE]);
}

#[test]
fn marker_is_checked_once() {
    let mut marker = clean_marker(1, 2, 5, 1);
    assert_eq!(check_resume(&mut marker, 1, 2), (true, true, 5));
    assert_eq!(check_resume(&mut marker, 1, 2), (false, false, 0));
    assert_eq!(check_resume(&mut marker, 0, 0), (false, false, 0));
}

#[test]
fn stored_seeds_do_not_matter() {
    let mut marker = clean_marker(1, 2, 9, 0);
    marker[1] = 0xdead_beef;
    marker[2] = 0xfeed_face;
    assert_eq!(check_resume(&mut marker, 1, 2), (true, false, 9));
}

#[test]
fn other_seeds_make_the_marker_unclean() {
    let mut marker = clean_marker(1, 2, 9, 0);
    assert_eq!(check_resume(&mut marker, 1, 3), (false, false, 9));
    let mut marker = clean_marker(1, 2, 9, 0);
    assert_eq!(check_resume(&mut marker, 0, 2), (false, false, 9));
}

#[test]
fn any_corrupted_word_makes_the_marker_unclean() {
    for at in 0..WORDS_PER_PAGE {
        if at == 1 || at == 2 {
            continue;
        }
        let mut marker = clean_marker(1, 2, 9, 0);
        marker[at] ^= 1 << (at % 32);
        let (clean, _, _) = check_resume(&mut marker, 1, 2);
        assert!(!clean, "word {at}");
    }
}

#[test]
fn forced_suspend_is_reported() {
    let mut marker = clean_marker(1, 2, 9, 0x8000_0000);
    assert_eq!(check_resume(&mut marker, 1, 2), (true, true, 9));
    let mut marker = vec![0u32; WORDS_PER_PAGE];
    marker[0] = 1;
    marker[3] = 77;
    assert_eq!(check_resume(&mut marker, 1, 2), (false, true, 77));
}

#[test]
fn cold_start_wipes_all_but_the_stack() {
    let mut cfg = config(block(&[kernel(), init()]));
    cfg.sram_size = 0x1_0000;
    let mut ram = vec![0xa5a5_a5a5u32; 0x1_0000 / 4];
    clear_ram(&cfg, &mut ram);
    let wiped = (0x1_0000 - 8192) / 4;
    assert!(ram[..wiped].iter().all(|word| *word == 0));
    assert!(ram[wiped..].iter().all(|word| *word == 0xa5a5_a5a5));
    cfg.sram_size = 8192;
    let mut ram = vec![7u32; 2048];
    clear_ram(&cfg, &mut ram);
    assert!(ram.iter().all(|word| *word == 7));
}

#[test]
fn bzero_clears_a_range() {
    let mut memory = vec![1u32, 2, 3, 4, 5, 6];
    bzero(&mut memory, 2, 5);
    assert_eq!(memory, vec![1, 2, 0, 0, 0, 6]);
    bzero(&mut memory, 3, 3);
    assert_eq!(memory, vec![1, 2, 0, 0, 0, 6]);
    // A start behind the end writes nothing.
    bzero(&mut memory, 5, 2);
    assert_eq!(memory, vec![1, 2, 0, 0, 0, 6]);
    bzero(&mut memory, 9, 6);
    assert_eq!(memory, vec![1, 2, 0, 0, 0, 6]);
    bzero(&mut memory, 0, 6);
    assert_eq!(memory, vec![0; 6]);
}

#[test]
fn suspend_marker_lies_three_pages_below_the_top() {
    let mut cfg = config(vec![]);
    cfg.sram_start = 0x4000_0000;
    cfg.sram_size = 0x0100_0000;
    assert_eq!(suspend_marker(&cfg), Some(0x40ff_d000));
    cfg.sram_start = 0;
    cfg.sram_size = 0x2fff;
    assert_eq!(suspend_marker(&cfg), None);
    cfg.sram_size = 0x3000;
    assert_eq!(suspend_marker(&cfg), Some(0));
    cfg.sram_start = usize::MAX;
    assert_eq!(suspend_marker(&cfg), None);
}

#[test]
fn sizes_are_those_of_the_machine() {
    assert_eq!(PAGE_SIZE, 4096);
    assert_eq!(SIGBLOCK_SIZE, 0x1000);
    let table = PageTable { entries: [0; 1024] };
    assert_eq!(table.entries.len() * 4, PAGE_SIZE);
    let pid: XousPid = 255;
    assert_eq!(pid, u8::MAX);
}

fn entry_config() -> BootConfig {
    let mut cfg = config(vec![]);
    cfg.sram_start = 0x4000_0000;
    cfg.sram_size = 0x0100_0000;
    cfg.init_size = 0x2_0000;
    cfg.args = KernelArguments::new(0x40fe_0000, vec![]);
    cfg.debug = true;
    cfg
}

#[test]
fn kernel_entry_is_relative_to_the_loader_structures() {
    let cfg = entry_config();
    let kernel = InitialProcess { satp: 0x8044_0fe0, entrypoint: 0xffd0_0000, sp: 0xfffe_fffc };
    assert_eq!(KERNEL_ARGUMENT_OFFSET, 0xffc0_0000);
    assert_eq!(
        kernel_entry(&cfg, 0x40fe_0400, 0x40fe_1000, &kernel),
        Some(KernelEntry {
            arg_offset: 0xffc0_0000,
            ip_offset: 0xffc0_0400,
            rpt_offset: 0xffc0_1000,
            satp: 0x8044_0fe0,
            entrypoint: 0xffd0_0000,
            sp: 0xfffe_fffc,
            debug: true,
        })
    );
}

#[test]
fn kernel_entry_that_cannot_be_formed_is_none() {
    let cfg = entry_config();
    let kernel = InitialProcess { satp: 0x8044_0fe0, entrypoint: 0xffd0_0000, sp: 0xfffe_fffc };
    // Below the loader's structures.
    assert_eq!(kernel_entry(&cfg, 0x40fd_ffff, 0x40fe_1000, &kernel), None);
    assert_eq!(kernel_entry(&cfg, 0x40fe_0400, 0x1000, &kernel), None);
    // Too far above them for a 32-bit word.
    assert_eq!(kernel_entry(&cfg, 0x413e_0000, 0x40fe_1000, &kernel), None);
    assert!(kernel_entry(&cfg, 0x413d_ffff, 0x40fe_1000, &kernel).is_some());
    let mut small = entry_config();
    small.init_size = 0x4200_0000;
    assert_eq!(kernel_entry(&small, 0x40fe_0400, 0x40fe_1000, &kernel), None);
}

#[test]
fn backup_holds_the_seven_values() {
    let entry = KernelEntry {
        arg_offset: 1,
        ip_offset: 2,
        rpt_offset: 3,
        satp: 0x8044_0fe0,
        entrypoint: 5,
        sp: 6,
        debug: true,
    };
    assert_eq!(backup_args(&entry), [1, 2, 3, 0x8044_0fe0, 5, 6, 1]);
    let quiet = KernelEntry { debug: false, ..entry };
    assert_eq!(backup_args(&quiet), [1, 2, 3, 0x8044_0fe0, 5, 6, 0]);
}

#[test]
fn resume_patches_the_root_pointer() {
    let entry = restore_entry(&[1, 2, 3, 0x8004_1234, 5, 6, 0], 3);
    assert_eq!(
        entry,
        KernelEntry {
            arg_offset: 1,
            ip_offset: 2,
            rpt_offset: 3,
            satp: 0x80c4_1234,
            entrypoint: 5,
            sp: 6,
            debug: false,
        }
    );
    assert!(restore_entry(&[1, 2, 3, 4, 5, 6, 2], 3).debug);
    assert_eq!(encode_root_pointer(sv32(), 0xffff_ffff, 0), 0x803f_ffff);
    assert_eq!(encode_root_pointer(sv32(), 0, 0xffff_ffff), 0x7fc0_0000);
    assert_eq!(encode_root_pointer(sv32(), 0x8004_1234, 0x203), 0x80c4_1234);
    assert_eq!(sv32(), RootPointerLayout { shift: 22, mask: 0x1ff });
    assert_eq!(encode_root_pointer(RootPointerLayout { shift: 4, mask: 0xf }, 0xabcd, 0x12), 0xab2d);
}

const SECURE: BootOptions =
    BootOptions { secure_boot: true, resume: true, clear_ram: true, check_load: false };

fn halted(reason: HaltReason) -> (BootStage, BootAction) {
    (BootStage::Halted, BootAction::Halt { reason })
}

#[test]
fn invalid_image_halts() {
    let mut cfg = config(vec![]);
    let (stage, action) = rust_entry(&SECURE, 0x2050_0000);
    assert_eq!(action, BootAction::ValidateImage { signed_buffer: 0x2050_0000 });
    let (stage, action) = boot_sequence(stage, &SECURE, &mut cfg, BootEvent::ImageChecked { valid: false });
    assert_eq!((stage, action), halted(HaltReason::InvalidImage));
    for event in [
        BootEvent::ImageChecked { valid: true },
        BootEvent::ArgumentsRead { words: block(&[kernel(), init()]) },
        BootEvent::MarkerRead { marker: vec![0; WORDS_PER_PAGE], seed0: 0, seed1: 0 },
        BootEvent::MarkerWiped,
        BootEvent::RamCleared,
        BootEvent::Phase1Done,
        BootEvent::LoadChecked,
        BootEvent::BackupRead { backup: [0; 7] },
    ] {
        assert_eq!(boot_sequence(stage, &SECURE, &mut cfg, event), halted(HaltReason::OutOfTurn));
    }
    assert_eq!(cfg.sram_size, 0);
}

#[test]
fn cold_boot_runs_in_order() {
    let mut cfg = config(vec![]);
    let (stage, action) = rust_entry(&SECURE, 0x2050_0000);
    assert_eq!(action, BootAction::ValidateImage { signed_buffer: 0x2050_0000 });
    let (stage, action) = boot_sequence(stage, &SECURE, &mut cfg, BootEvent::ImageChecked { valid: true });
    assert_eq!(action, BootAction::ReadArguments { arg_buffer: 0x2050_1000 });
    let (stage, action) = boot_sequence(
        stage,
        &SECURE,
        &mut cfg,
        BootEvent::ArgumentsRead { words: block(&[tag(TAG_BFLG, &[4]), kernel(), init()]) },
    );
    assert_eq!(action, BootAction::ReadMarker);
    assert_eq!(cfg.sram_start, 0x1000_0000);
    assert_eq!(cfg.sram_size, 0x0100_0000);
    assert_eq!(cfg.args.base, 0x2050_1000);
    assert_eq!(cfg.base_addr, 0x2050_1000);
    assert_eq!(cfg.init_process_count, 1);
    assert!(cfg.debug);
    let mut marker = clean_marker(1, 2, 3, 0);
    marker[700] ^= 1;
    let (stage, action) =
        boot_sequence(stage, &SECURE, &mut cfg, BootEvent::MarkerRead { marker, seed0: 1, seed1: 2 });
    assert_eq!(stage, BootStage::AwaitMarkerWipe { clean: false, was_forced_suspend: false, pid: 3 });
    assert_eq!(action, BootAction::WipeMarker);
    let (stage, action) = boot_sequence(stage, &SECURE, &mut cfg, BootEvent::MarkerWiped);
    assert_eq!(action, BootAction::ClearRam);
    let (stage, action) = boot_sequence(stage, &SECURE, &mut cfg, BootEvent::RamCleared);
    assert_eq!(action, BootAction::Phase1);
    let (stage, action) = boot_sequence(stage, &SECURE, &mut cfg, BootEvent::Phase1Done);
    assert_eq!(action, BootAction::Phase2);
    // The construction of page tables copies the arguments to its
    // structures at the top of memory.
    cfg.init_size = 0x2_0000;
    cfg.args.base = 0x10fe_0000;
    let kernel = InitialProcess { satp: 0x8044_0fe0, entrypoint: 0xffd0_0000, sp: 0xfffe_fffc };
    let (stage, action) = boot_sequence(
        stage,
        &SECURE,
        &mut cfg,
        BootEvent::Phase2Done { processes: 0x10fe_0400, page_tracker: 0x10fe_1000, kernel },
    );
    assert_eq!(stage, BootStage::Entered);
    assert_eq!(
        action,
        BootAction::StartKernel {
            entry: KernelEntry {
                arg_offset: 0xffc0_0000,
                ip_offset: 0xffc0_0400,
                rpt_offset: 0xffc0_1000,
                satp: 0x8044_0fe0,
                entrypoint: 0xffd0_0000,
                sp: 0xfffe_fffc,
                debug: true,
            },
            save_backup: true,
            uart: 1,
            clean: false,
        }
    );
}

#[test]
fn clean_suspend_is_resumed() {
    let mut cfg = config(vec![]);
    let options = BootOptions { secure_boot: false, resume: true, clear_ram: true, check_load: false };
    let (stage, action) = rust_entry(&options, 0x2050_0000);
    assert_eq!(action, BootAction::ReadArguments { arg_buffer: 0x2050_1000 });
    let (stage, action) = boot_sequence(
        stage,
        &options,
        &mut cfg,
        BootEvent::ArgumentsRead { words: block(&[kernel(), init()]) },
    );
    assert_eq!(action, BootAction::ReadMarker);
    let (stage, action) = boot_sequence(
        stage,
        &options,
        &mut cfg,
        BootEvent::MarkerRead { marker: clean_marker(7, 8, 3, 1), seed0: 7, seed1: 8 },
    );
    assert_eq!(stage, BootStage::AwaitMarkerWipe { clean: true, was_forced_suspend: true, pid: 3 });
    assert_eq!(action, BootAction::WipeMarker);
    let (stage, action) = boot_sequence(stage, &options, &mut cfg, BootEvent::MarkerWiped);
    assert_eq!(action, BootAction::PrepareResume { was_forced_suspend: true });
    let (stage, action) = boot_sequence(
        stage,
        &options,
        &mut cfg,
        BootEvent::BackupRead { backup: [1, 2, 3, 0x8004_1234, 5, 6, 1] },
    );
    assert_eq!(stage, BootStage::Entered);
    assert_eq!(
        action,
        BootAction::StartKernel {
            entry: KernelEntry {
                arg_offset: 1,
                ip_offset: 2,
                rpt_offset: 3,
                satp: 0x80c4_1234,
                entrypoint: 5,
                sp: 6,
                debug: true,
            },
            save_backup: false,
            uart: 0,
            clean: true,
        }
    );
}

#[test]
fn refused_arguments_halt_before_anything_is_wiped() {
    let mut cfg = config(vec![]);
    cfg.debug = true;
    let options = BootOptions { secure_boot: false, resume: false, clear_ram: true, check_load: false };
    let (stage, _) = rust_entry(&options, 0);
    let step =
        boot_sequence(stage, &options, &mut cfg, BootEvent::ArgumentsRead { words: block(&[init()]) });
    assert_eq!(step, halted(HaltReason::Arguments(BootError::NoKernel)));
    assert!(cfg.debug);
    assert_eq!(cfg.sram_size, 0);
    let step = boot_sequence(step.0, &options, &mut cfg, BootEvent::RamCleared);
    assert_eq!(step, halted(HaltReason::OutOfTurn));
    let step =
        boot_sequence(stage, &options, &mut cfg, BootEvent::ArgumentsRead { words: block(&[kernel()]) });
    assert_eq!(step, halted(HaltReason::Arguments(BootError::NoInit)));
    let step = boot_sequence(stage, &options, &mut cfg, BootEvent::ArgumentsRead { words: vec![] });
    assert_eq!(step, halted(HaltReason::Arguments(BootError::MissingHeader)));
}

#[test]
fn builds_without_resume_or_wipe_skip_those_steps() {
    let mut cfg = config(vec![]);
    let plain = BootOptions { secure_boot: false, resume: false, clear_ram: true, check_load: false };
    let (stage, _) = rust_entry(&plain, 0);
    let step =
        boot_sequence(stage, &plain, &mut cfg, BootEvent::ArgumentsRead { words: block(&[kernel(), init()]) });
    assert_eq!(step, (BootStage::AwaitClear, BootAction::ClearRam));
    let simulated = BootOptions { secure_boot: false, resume: false, clear_ram: false, check_load: false };
    let (stage, _) = rust_entry(&simulated, 0);
    let step = boot_sequence(
        stage,
        &simulated,
        &mut cfg,
        BootEvent::ArgumentsRead { words: block(&[kernel(), init()]) },
    );
    assert_eq!(step, (BootStage::AwaitPhase1, BootAction::Phase1));
}

#[test]
fn reports_out_of_turn_halt() {
    let mut cfg = config(vec![]);
    let (stage, _) = rust_entry(&SECURE, 0);
    assert_eq!(boot_sequence(stage, &SECURE, &mut cfg, BootEvent::RamCleared), halted(HaltReason::OutOfTurn));
    assert_eq!(
        boot_sequence(BootStage::AwaitClear, &SECURE, &mut cfg, BootEvent::Phase1Done),
        halted(HaltReason::OutOfTurn)
    );
    assert_eq!(
        boot_sequence(BootStage::Entered, &SECURE, &mut cfg, BootEvent::RamCleared),
        halted(HaltReason::OutOfTurn)
    );
    assert_eq!(
        rust_entry(&BootOptions { secure_boot: false, ..SECURE }, 0xffff_f001),
        halted(HaltReason::ArgumentsOutOfReach)
    );
    assert_eq!(
        rust_entry(&BootOptions { secure_boot: false, ..SECURE }, 0xffff_efff),
        (
            BootStage::AwaitConfig { arg_buffer: 0xffff_ffff },
            BootAction::ReadArguments { arg_buffer: 0xffff_ffff }
        )
    );
}

#[test]
fn kernel_entry_that_cannot_be_formed_halts() {
    let mut cfg = entry_config();
    let kernel = InitialProcess { satp: 0x8044_0fe0, entrypoint: 0xffd0_0000, sp: 0xfffe_fffc };
    let step = boot_sequence(
        BootStage::AwaitPhase2,
        &SECURE,
        &mut cfg,
        BootEvent::Phase2Done { processes: 0, page_tracker: 0x40fe_1000, kernel },
    );
    assert_eq!(step, halted(HaltReason::NoEntry));
}

#[test]
fn resume_prepares_the_hardware_in_order() {
    assert_eq!(
        resume_steps(false),
        [
            ResumeStep::LatchPower,
            ResumeStep::DiscardEntropy(4),
            ResumeStep::EnableUartReceive,
            ResumeStep::MarkResume { was_forced: false },
            ResumeStep::PauseTicktimer,
            ResumeStep::EnableSoftInterrupt,
            ResumeStep::TriggerInterrupt,
        ]
    );
    assert_eq!(resume_steps(true)[3], ResumeStep::MarkResume { was_forced: true });
}

#[test]
fn load_check_lists_the_initial_programs() {
    let cfg = config(block(&[
        tag(TAG_BFLG, &[0]),
        tag(TAG_INIE, &[0x2_0000, 7]),
        kernel(),
        tag(TAG_INIF, &[0x3_0000]),
        tag(TAG_INIE, &[0x4_0000, 1, 2, 3]),
    ]));
    assert_eq!(
        check_load(&cfg),
        Some(vec![
            LoadCheck { load_offset: 0x2_0000, pid: 2, ini_f: false },
            LoadCheck { load_offset: 0x3_0000, pid: 3, ini_f: true },
            LoadCheck { load_offset: 0x4_0000, pid: 4, ini_f: false },
        ])
    );
    assert_eq!(check_load(&config(block(&[kernel()]))), Some(vec![]));
    assert_eq!(check_load(&config(vec![])), Some(vec![]));
}

#[test]
fn load_check_refuses_a_block_out_of_order() {
    let mut words = block(&[kernel(), init()]);
    words[2] += 1;
    assert_eq!(check_load(&config(words)), None);
    assert_eq!(check_load(&config(block(&[kernel(), tag(TAG_INIE, &[])]))), None);
    let mut words = block(&[kernel(), init()]);
    let last = words.len() - 3;
    words[last] = 3 << 16;
    assert_eq!(check_load(&config(words)), None);
}

#[test]
fn load_check_stops_when_process_ids_run_out() {
    let many: Vec<Vec<u32>> = (0..254).map(|i| tag(TAG_INIE, &[i])).collect();
    let checks = check_load(&config(block(&many))).unwrap();
    assert_eq!(checks.len(), 254);
    assert_eq!(checks[253], LoadCheck { load_offset: 253, pid: 255, ini_f: false });
    let more: Vec<Vec<u32>> = (0..255).map(|i| tag(TAG_INIE, &[i])).collect();
    assert_eq!(check_load(&config(block(&more))), None);
}

#[test]
fn load_is_checked_before_the_kernel_is_entered() {
    let mut cfg = entry_config();
    let options = BootOptions { check_load: true, ..SECURE };
    let kernel = InitialProcess { satp: 0x8044_0fe0, entrypoint: 0xffd0_0000, sp: 0xfffe_fffc };
    let (stage, action) = boot_sequence(
        BootStage::AwaitPhase2,
        &options,
        &mut cfg,
        BootEvent::Phase2Done { processes: 0x40fe_0400, page_tracker: 0x40fe_1000, kernel },
    );
    assert_eq!(action, BootAction::CheckLoad);
    let (stage, action) = boot_sequence(stage, &options, &mut cfg, BootEvent::LoadChecked);
    assert_eq!(stage, BootStage::Entered);
    assert!(matches!(action, BootAction::StartKernel { save_backup: true, uart: 1, clean: false, .. }));
    assert_eq!(
        boot_sequence(BootStage::AwaitPhase2, &options, &mut cfg, BootEvent::LoadChecked),
        halted(HaltReason::OutOfTurn)
    );
}

#[test]
fn layouts_that_lose_bits_are_flagged() {
    assert!(sv32().fits());
    assert!(RootPointerLayout { shift: 0, mask: 0xffff_ffff }.fits());
    assert!(RootPointerLayout { shift: 31, mask: 1 }.fits());
    assert!(!RootPointerLayout { shift: 31, mask: 3 }.fits());
    assert!(!RootPointerLayout { shift: 32, mask: 1 }.fits());
    assert!(!RootPointerLayout { shift: 24, mask: 0x1ff }.fits());
}

#[test]
fn wiped_marker_is_not_resumed_from() {
    let mut cfg = config(vec![]);
    let (stage, action) = boot_sequence(
        BootStage::AwaitMarker,
        &SECURE,
        &mut cfg,
        BootEvent::MarkerRead { marker: vec![0; WORDS_PER_PAGE], seed0: 7, seed1: 8 },
    );
    assert_eq!(stage, BootStage::AwaitMarkerWipe { clean: false, was_forced_suspend: false, pid: 0 });
    assert_eq!(action, BootAction::WipeMarker);
    assert_eq!(
        boot_sequence(stage, &SECURE, &mut cfg, BootEvent::MarkerWiped),
        (BootStage::AwaitClear, BootAction::ClearRam)
    );
    assert_eq!(
        boot_sequence(
            BootStage::AwaitMarker,
            &SECURE,
            &mut cfg,
            BootEvent::MarkerRead { marker: vec![0; 1023], seed0: 7, seed1: 8 },
        ),
        halted(HaltReason::MarkerSize)
    );
}

#[test]
fn marker_is_read_without_being_changed() {
    let marker = clean_marker(1, 2, 5, 0);
    assert_eq!(read_marker(&marker, 1, 2), (true, false, 5));
    assert_eq!(read_marker(&marker, 1, 2), (true, false, 5));
    let mut copy = marker.clone();
    wipe_marker(&mut copy);
    assert_eq!(copy, vec![0u32; WORDS_PER_PAGE]);
    assert_eq!(read_marker(&copy, 1, 2), (false, false, 0));
}
