use chip8::display::{BACKGROUND, FOREGROUND};
use chip8::{cycle_due, keypad_index, render_tiles, tile_color, Chip8, HostEvent, Key, Tile};

const ALL_KEYS: [Key; 19] = [
    Key::X,
    Key::Num1,
    Key::Num2,
    Key::Num3,
    Key::Q,
    Key::W,
    Key::E,
    Key::A,
    Key::S,
    Key::D,
    Key::Z,
    Key::C,
    Key::Num4,
    Key::R,
    Key::F,
    Key::V,
    Key::Escape,
    Key::CapsLock,
    Key::Other,
];

#[test]
fn keyboard_layout() {
    assert_eq!(keypad_index(Key::X), Some(0x0));
    assert_eq!(keypad_index(Key::Num1), Some(0x1));
    assert_eq!(keypad_index(Key::Num2), Some(0x2));
    assert_eq!(keypad_index(Key::Num3), Some(0x3));
    assert_eq!(keypad_index(Key::Q), Some(0x4));
    assert_eq!(keypad_index(Key::W), Some(0x5));
    assert_eq!(keypad_index(Key::E), Some(0x6));
    assert_eq!(keypad_index(Key::A), Some(0x7));
    assert_eq!(keypad_index(Key::S), Some(0x8));
    assert_eq!(keypad_index(Key::D), Some(0x9));
    assert_eq!(keypad_index(Key::Z), Some(0xA));
    assert_eq!(keypad_index(Key::C), Some(0xB));
    assert_eq!(keypad_index(Key::Num4), Some(0xC));
    assert_eq!(keypad_index(Key::R), Some(0xD));
    assert_eq!(keypad_index(Key::F), Some(0xE));
    assert_eq!(keypad_index(Key::V), Some(0xF));
    assert_eq!(keypad_index(Key::Escape), None);
    assert_eq!(keypad_index(Key::CapsLock), None);
    assert_eq!(keypad_index(Key::Other), None);
}

#[test]
fn keyboard_layout_covers_the_keypad_once() {
    let mut hits = [0usize; 16];
    for key in ALL_KEYS {
        if let Some(index) = keypad_index(key) {
            hits[index] += 1;
        }
    }
    assert_eq!(hits, [1usize; 16]);
}

#[test]
fn key_events_reach_the_keypad() {
    let mut chip = Chip8::new(&[]).unwrap();
    assert!(chip.handle_event(HostEvent::KeyDown(Key::Q)));
    assert!(chip.handle_event(HostEvent::KeyDown(Key::V)));
    let mut expected = vec![false; 16];
    expected[0x4] = true;
    expected[0xF] = true;
    assert_eq!(chip.machine().keys(), &expected);
    assert!(chip.handle_event(HostEvent::KeyUp(Key::Q)));
    expected[0x4] = false;
    assert_eq!(chip.machine().keys(), &expected);
    assert!(chip.handle_event(HostEvent::KeyUp(Key::Q)));
    assert_eq!(chip.machine().keys(), &expected);
}

#[test]
fn every_key_event_sets_its_own_key_only() {
    for key in ALL_KEYS {
        let mut chip = Chip8::new(&[]).unwrap();
        let running = chip.handle_event(HostEvent::KeyDown(key));
        let mut expected = vec![false; 16];
        if let Some(index) = keypad_index(key) {
            expected[index] = true;
        }
        assert_eq!(chip.machine().keys(), &expected);
        assert_eq!(running, key != Key::Escape && key != Key::CapsLock);
        assert!(chip.handle_event(HostEvent::KeyUp(key)));
        assert_eq!(chip.machine().keys(), &vec![false; 16]);
    }
}

#[test]
fn events_that_end_the_emulation() {
    let mut chip = Chip8::new(&[]).unwrap();
    assert!(!chip.handle_event(HostEvent::Quit));
    assert!(!chip.handle_event(HostEvent::KeyDown(Key::Escape)));
    assert!(!chip.handle_event(HostEvent::KeyDown(Key::CapsLock)));
    assert!(chip.handle_event(HostEvent::KeyUp(Key::Escape)));
    assert!(chip.handle_event(HostEvent::KeyUp(Key::CapsLock)));
    assert!(chip.handle_event(HostEvent::KeyDown(Key::Other)));
    assert!(chip.handle_event(HostEvent::Other));
    assert_eq!(chip.machine().keys(), &vec![false; 16]);
    assert_eq!(chip.machine().prog_counter(), 0x200);
}

#[test]
fn cycle_is_due_after_more_than_one_millisecond() {
    assert!(!cycle_due(1000, 1000));
    assert!(!cycle_due(1000, 1001));
    assert!(cycle_due(1000, 1002));
    assert!(cycle_due(0, u128::MAX));
    assert!(!cycle_due(u128::MAX, u128::MAX));
}

#[test]
fn tiles_come_column_by_column() {
    // Three columns, two rows: lit cells at (0, 0), (2, 0) and (1, 1).
    let buffer = vec![0xFF, 0x00, 0x01, 0x00, 0xFF, 0x00];
    let tiles = render_tiles(8, 3, 2, &buffer);
    let expected = vec![
        Tile { x: 0, y: 0, side: 8, lit: true },
        Tile { x: 0, y: 8, side: 8, lit: false },
        Tile { x: 8, y: 0, side: 8, lit: false },
        Tile { x: 8, y: 8, side: 8, lit: true },
        Tile { x: 16, y: 0, side: 8, lit: true },
        Tile { x: 16, y: 8, side: 8, lit: false },
    ];
    assert_eq!(tiles, expected);
}

#[test]
fn tiles_of_the_whole_screen() {
    let mut chip = Chip8::new(&[0xA2, 0x04, 0xD0, 0x11, 0x81]).unwrap();
    chip.cycle().unwrap();
    chip.cycle().unwrap();
    let tiles = render_tiles(8, 64, 32, chip.machine().video());
    assert_eq!(tiles.len(), 2048);
    for (position, tile) in tiles.iter().enumerate() {
        let (x, y) = (position / 32, position % 32);
        assert_eq!(tile.x, 8 * x as i32);
        assert_eq!(tile.y, 8 * y as i32);
        assert_eq!(tile.side, 8);
        assert_eq!(tile.lit, y == 0 && (x == 0 || x == 7));
    }
}

#[test]
fn tiles_of_an_empty_display() {
    assert_eq!(render_tiles(8, 0, 32, &vec![0u8; 4]), Vec::<Tile>::new());
    assert_eq!(render_tiles(8, 64, 0, &vec![]), Vec::<Tile>::new());
}

#[test]
fn tiles_ignore_cells_past_the_display() {
    let buffer = vec![0x00, 0xFF, 0xFF, 0xFF];
    assert_eq!(
        render_tiles(1, 1, 1, &buffer),
        vec![Tile { x: 0, y: 0, side: 1, lit: false }]
    );
}

#[test]
fn tile_corner_keeps_the_low_bits_of_the_product() {
    let buffer = vec![0u8; 3];
    let tiles = render_tiles(0x8000_0000, 3, 1, &buffer);
    assert_eq!(tiles[0].x, 0);
    assert_eq!(tiles[1].x, i32::MIN);
    assert_eq!(tiles[2].x, 0);
    assert_eq!(tiles[2].side, 0x8000_0000);
}

#[test]
fn tile_colours() {
    assert_eq!(FOREGROUND, (0xAB, 0xAE, 0xCB));
    assert_eq!(BACKGROUND, (0x10, 0x10, 0x20));
    assert_eq!(tile_color(&Tile { x: 0, y: 0, side: 8, lit: true }), (0xAB, 0xAE, 0xCB));
    assert_eq!(tile_color(&Tile { x: 0, y: 0, side: 8, lit: false }), (0x10, 0x10, 0x20));
}
