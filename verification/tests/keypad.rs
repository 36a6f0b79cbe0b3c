use chip8::keypad::{get_scancode_key, read_keys, Scancode, SCANCODES_KEYS};

#[test]
fn host_keys_map_to_keypad_layout() {
    assert_eq!(get_scancode_key(Scancode::Num1), Some(0x1));
    assert_eq!(get_scancode_key(Scancode::Num2), Some(0x2));
    assert_eq!(get_scancode_key(Scancode::Num3), Some(0x3));
    assert_eq!(get_scancode_key(Scancode::Num4), Some(0xC));
    assert_eq!(get_scancode_key(Scancode::Q), Some(0x4));
    assert_eq!(get_scancode_key(Scancode::W), Some(0x5));
    assert_eq!(get_scancode_key(Scancode::E), Some(0x6));
    assert_eq!(get_scancode_key(Scancode::R), Some(0xD));
    assert_eq!(get_scancode_key(Scancode::A), Some(0x7));
    assert_eq!(get_scancode_key(Scancode::S), Some(0x8));
    assert_eq!(get_scancode_key(Scancode::D), Some(0x9));
    assert_eq!(get_scancode_key(Scancode::F), Some(0xE));
    assert_eq!(get_scancode_key(Scancode::Z), Some(0xA));
    assert_eq!(get_scancode_key(Scancode::X), Some(0x0));
    assert_eq!(get_scancode_key(Scancode::C), Some(0xB));
    assert_eq!(get_scancode_key(Scancode::V), Some(0xF));
}

#[test]
fn other_host_keys_map_to_nothing() {
    assert_eq!(get_scancode_key(Scancode::Other), None);
}

#[test]
fn every_keypad_key_has_exactly_one_host_key() {
    let mut count = [0u32; 16];
    for scancode in SCANCODES_KEYS {
        let key = get_scancode_key(scancode).unwrap();
        count[key as usize] += 1;
    }
    assert_eq!(count, [1; 16]);
}

#[test]
fn read_keys_moves_each_host_key_to_its_keypad_key() {
    assert_eq!(read_keys(&[false; 16]), [false; 16]);
    assert_eq!(read_keys(&[true; 16]), [true; 16]);
    for place in 0..16 {
        let mut host = [false; 16];
        host[place] = true;
        let mut expected = [false; 16];
        expected[get_scancode_key(SCANCODES_KEYS[place]).unwrap() as usize] = true;
        assert_eq!(read_keys(&host), expected);
    }
    // Num4 (place 3) and X (place 13) are keys C and 0
    let mut host = [false; 16];
    host[3] = true;
    host[13] = true;
    let mut expected = [false; 16];
    expected[0xC] = true;
    expected[0x0] = true;
    assert_eq!(read_keys(&host), expected);
}
