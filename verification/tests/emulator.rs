use chip8::{elapsed_or_none, now, Chip8, Chip8Error};
use std::time::{Duration, UNIX_EPOCH};

#[test]
fn emulator_starts_reset() {
    let chip = Chip8::new(&[0x00, 0xE0]).unwrap();
    assert_eq!(chip.machine().prog_counter(), 0x200);
    assert_eq!(&chip.machine().memory()[0x200..0x202], &[0x00, 0xE0]);
    assert_eq!(chip.machine().memory()[0x50], 0xF0);
    assert_eq!(chip.machine().video(), &vec![0u8; 2048]);
}

#[test]
fn emulator_refuses_a_rom_that_does_not_fit() {
    let rom = vec![0u8; 3585];
    assert_eq!(Chip8::new(&rom).err(), Some(Chip8Error::RomTooLarge));
    let rom = vec![0u8; 3584];
    assert!(Chip8::new(&rom).is_ok());
}

#[test]
fn emulator_runs_a_program() {
    let mut chip = Chip8::new(&[0x60, 250, 0x61, 10, 0x80, 0x14, 0xA2, 0x0A, 0xD0, 0x11, 0xFF]).unwrap();
    for _ in 0..5 {
        chip.cycle().unwrap();
    }
    assert_eq!(chip.machine().registers()[0], 4);
    // The carry of the addition stays: the sprite collides with nothing.
    assert_eq!(chip.machine().registers()[0xF], 1);
    assert_eq!(chip.machine().prog_counter(), 0x20A);
    // The sprite went to (4, 10): V0 = 4, V1 = 10.
    let start = 10 * 64 + 4;
    assert!(chip.machine().video()[..start].iter().all(|cell| *cell == 0));
    assert_eq!(&chip.machine().video()[start..start + 8], &[0xFF; 8]);
    assert!(chip.machine().video()[start + 8..].iter().all(|cell| *cell == 0));
}

#[test]
fn emulator_reports_errors_and_keeps_its_state() {
    let mut chip = Chip8::new(&[0x00, 0xEE]).unwrap();
    assert_eq!(chip.cycle(), Err(Chip8Error::StackUnderflow));
    assert_eq!(chip.machine().prog_counter(), 0x200);
    assert_eq!(chip.cycle(), Err(Chip8Error::StackUnderflow));
}

#[test]
fn emulator_keypad() {
    let mut chip = Chip8::new(&[0xF0, 0x0A]).unwrap();
    chip.cycle().unwrap();
    assert_eq!(chip.machine().prog_counter(), 0x200);
    assert_eq!(chip.set_key(11, true), Ok(()));
    assert_eq!(chip.set_key(16, true), Err(Chip8Error::KeyOutOfRange));
    assert!(chip.machine().keys()[11]);
    chip.cycle().unwrap();
    assert_eq!(chip.machine().prog_counter(), 0x202);
    assert_eq!(chip.machine().registers()[0], 11);
    assert_eq!(chip.set_key(11, false), Ok(()));
    assert!(!chip.machine().keys()[11]);
}

#[test]
fn random_byte_is_masked() {
    // V0 = random & 0x0F, then back to the start.
    let mut chip = Chip8::new(&[0xC0, 0x0F, 0x12, 0x00]).unwrap();
    for _ in 0..200 {
        chip.cycle().unwrap();
        assert_eq!(chip.machine().registers()[0] & 0xF0, 0);
        chip.cycle().unwrap();
    }
    let mut chip = Chip8::new(&[0xC3, 0x00]).unwrap();
    chip.cycle().unwrap();
    assert_eq!(chip.machine().registers()[3], 0);
}

#[test]
fn random_bytes_vary() {
    let mut chip = Chip8::new(&[0xC0, 0xFF, 0x12, 0x00]).unwrap();
    let mut seen = [false; 256];
    for _ in 0..256 {
        chip.cycle().unwrap();
        seen[chip.machine().registers()[0] as usize] = true;
        chip.cycle().unwrap();
    }
    let distinct = seen.iter().filter(|hit| **hit).count();
    assert!(distinct > 16, "only {} distinct bytes in 256 draws", distinct);
}

#[test]
fn clock_reads_a_time_after_the_epoch() {
    let first = now().unwrap();
    // 2020-01-01 in seconds since the epoch.
    assert!(first.as_secs() > 1_577_836_800);
}

#[test]
fn clock_answer_becomes_an_option() {
    let later = UNIX_EPOCH + Duration::from_millis(1500);
    assert_eq!(
        elapsed_or_none(later.duration_since(UNIX_EPOCH)),
        Some(Duration::from_millis(1500))
    );
    assert_eq!(elapsed_or_none(UNIX_EPOCH.duration_since(later)), None);
    assert_eq!(
        elapsed_or_none(UNIX_EPOCH.duration_since(UNIX_EPOCH)),
        Some(Duration::ZERO)
    );
}
