use chrome_mcp::native_input::{NativeKeycodes, NativeKeycodesData};

#[test]
fn test_key_codes_constants() {
    // Test that key codes are defined and have reasonable values
    assert_eq!(NativeKeycodesData::RETURN, 36);
    assert_eq!(NativeKeycodesData::TAB, 48);
    assert_eq!(NativeKeycodesData::SPACE, 49);
    assert_eq!(NativeKeycodesData::DELETE, 51);
    assert_eq!(NativeKeycodesData::ESCAPE, 53);
    
    // Function keys
    assert_eq!(NativeKeycodesData::F1, 122);
    assert_eq!(NativeKeycodesData::F2, 120);
    assert_eq!(NativeKeycodesData::F4, 118);
    
    // Arrow keys
    assert_eq!(NativeKeycodesData::LEFT_ARROW, 123);
    assert_eq!(NativeKeycodesData::RIGHT_ARROW, 124);
    assert_eq!(NativeKeycodesData::UP_ARROW, 126);
    assert_eq!(NativeKeycodesData::DOWN_ARROW, 125);
}

#[test]
fn test_letter_key_codes() {
    // Test alphabet key codes (should be sequential)
    assert_eq!(NativeKeycodesData::A, 0);
    assert_eq!(NativeKeycodesData::S, 1);
    assert_eq!(NativeKeycodesData::D, 2);
    assert_eq!(NativeKeycodesData::F, 3);
    assert_eq!(NativeKeycodesData::H, 4);
    assert_eq!(NativeKeycodesData::G, 5);
    assert_eq!(NativeKeycodesData::Z, 6);
    assert_eq!(NativeKeycodesData::X, 7);
    assert_eq!(NativeKeycodesData::C, 8);
    assert_eq!(NativeKeycodesData::V, 9);
    assert_eq!(NativeKeycodesData::B, 11);
    assert_eq!(NativeKeycodesData::Q, 12);
    assert_eq!(NativeKeycodesData::W, 13);
    assert_eq!(NativeKeycodesData::E, 14);
    assert_eq!(NativeKeycodesData::R, 15);
    assert_eq!(NativeKeycodesData::Y, 16);
    assert_eq!(NativeKeycodesData::T, 17);
    assert_eq!(NativeKeycodesData::O, 31);
    assert_eq!(NativeKeycodesData::U, 32);
    assert_eq!(NativeKeycodesData::I, 34);
    assert_eq!(NativeKeycodesData::P, 35);
    assert_eq!(NativeKeycodesData::L, 37);
    assert_eq!(NativeKeycodesData::J, 38);
    assert_eq!(NativeKeycodesData::K, 40);
    assert_eq!(NativeKeycodesData::N, 45);
    assert_eq!(NativeKeycodesData::M, 46);
}

#[test]
fn test_number_key_codes() {
    // Test number key codes
    assert_eq!(NativeKeycodesData::DIGIT_1, 18);
    assert_eq!(NativeKeycodesData::DIGIT_2, 19);
    assert_eq!(NativeKeycodesData::DIGIT_3, 20);
    assert_eq!(NativeKeycodesData::DIGIT_4, 21);
    assert_eq!(NativeKeycodesData::DIGIT_5, 23);
    assert_eq!(NativeKeycodesData::DIGIT_6, 22);
    assert_eq!(NativeKeycodesData::DIGIT_7, 26);
    assert_eq!(NativeKeycodesData::DIGIT_8, 28);
    assert_eq!(NativeKeycodesData::DIGIT_9, 25);
    assert_eq!(NativeKeycodesData::DIGIT_0, 29);
}

#[test]
fn test_special_key_codes() {
    // Test special character key codes
    assert_eq!(NativeKeycodesData::EQUAL, 24);
    assert_eq!(NativeKeycodesData::MINUS, 27);
    assert_eq!(NativeKeycodesData::RIGHT_BRACKET, 30);
    assert_eq!(NativeKeycodesData::LEFT_BRACKET, 33);
    assert_eq!(NativeKeycodesData::QUOTE, 39);
    assert_eq!(NativeKeycodesData::SEMICOLON, 41);
    assert_eq!(NativeKeycodesData::BACKSLASH, 42);
    assert_eq!(NativeKeycodesData::COMMA, 43);
    assert_eq!(NativeKeycodesData::SLASH, 44);
    assert_eq!(NativeKeycodesData::PERIOD, 47);
    assert_eq!(NativeKeycodesData::GRAVE, 50);
}

#[test]
fn test_modifier_key_codes() {
    // Test modifier key codes
    assert_eq!(NativeKeycodesData::COMMAND, 55);
    assert_eq!(NativeKeycodesData::SHIFT, 56);
    assert_eq!(NativeKeycodesData::CAPS_LOCK, 57);
    assert_eq!(NativeKeycodesData::OPTION, 58);
    assert_eq!(NativeKeycodesData::CONTROL, 59);
    assert_eq!(NativeKeycodesData::RIGHT_COMMAND, 54);
    assert_eq!(NativeKeycodesData::RIGHT_SHIFT, 60);
    assert_eq!(NativeKeycodesData::RIGHT_OPTION, 61);
    assert_eq!(NativeKeycodesData::RIGHT_CONTROL, 62);
    assert_eq!(NativeKeycodesData::FUNCTION, 63);
}

#[test]
fn test_navigation_key_codes() {
    // Test navigation key codes
    assert_eq!(NativeKeycodesData::HOME, 115);
    assert_eq!(NativeKeycodesData::END, 119);
    assert_eq!(NativeKeycodesData::PAGE_UP, 116);
    assert_eq!(NativeKeycodesData::PAGE_DOWN, 121);
    assert_eq!(NativeKeycodesData::FORWARD_DELETE, 117);
    assert_eq!(NativeKeycodesData::HELP, 114);
}

#[test]
fn test_function_key_codes() {
    // Test all function key codes
    assert_eq!(NativeKeycodesData::F1, 122);
    assert_eq!(NativeKeycodesData::F2, 120);
    assert_eq!(NativeKeycodesData::F4, 118);
    assert_eq!(NativeKeycodesData::F5, 96);
    assert_eq!(NativeKeycodesData::F6, 97);
    assert_eq!(NativeKeycodesData::F7, 98);
    assert_eq!(NativeKeycodesData::F8, 100);
    assert_eq!(NativeKeycodesData::F9, 101);
    assert_eq!(NativeKeycodesData::F10, 109);
    assert_eq!(NativeKeycodesData::F11, 103);
    assert_eq!(NativeKeycodesData::F12, 111);
    assert_eq!(NativeKeycodesData::F13, 105);
    assert_eq!(NativeKeycodesData::F14, 107);
    assert_eq!(NativeKeycodesData::F15, 113);
    assert_eq!(NativeKeycodesData::F16, 106);
}

#[test]
fn test_keypad_key_codes() {
    // Test keypad key codes
    assert_eq!(NativeKeycodesData::KEYPAD_DECIMAL, 65);
    assert_eq!(NativeKeycodesData::KEYPAD_MULTIPLY, 67);
    assert_eq!(NativeKeycodesData::KEYPAD_PLUS, 69);
    assert_eq!(NativeKeycodesData::KEYPAD_CLEAR, 71);
    assert_eq!(NativeKeycodesData::KEYPAD_DIVIDE, 75);
    assert_eq!(NativeKeycodesData::KEYPAD_ENTER, 76);
    assert_eq!(NativeKeycodesData::KEYPAD_MINUS, 78);
    assert_eq!(NativeKeycodesData::KEYPAD_EQUALS, 81);
    
    // Keypad digits
    assert_eq!(NativeKeycodesData::KEYPAD_0, 82);
    assert_eq!(NativeKeycodesData::KEYPAD_1, 83);
    assert_eq!(NativeKeycodesData::KEYPAD_2, 84);
    assert_eq!(NativeKeycodesData::KEYPAD_3, 85);
    assert_eq!(NativeKeycodesData::KEYPAD_4, 86);
    assert_eq!(NativeKeycodesData::KEYPAD_5, 87);
    assert_eq!(NativeKeycodesData::KEYPAD_6, 88);
    assert_eq!(NativeKeycodesData::KEYPAD_7, 89);
    assert_eq!(NativeKeycodesData::KEYPAD_8, 91);
    assert_eq!(NativeKeycodesData::KEYPAD_9, 92);
}

#[test]
fn test_coordinate_validation() {
    // Test coordinate bounds (should be positive)
    let valid_coords = vec![(0.0, 0.0), (100.0, 200.0), (1920.0, 1080.0)];
    
    for (x, y) in valid_coords {
        assert!(x >= 0.0);
        assert!(y >= 0.0);
    }
}

#[test]
fn test_key_code_uniqueness() {
    // Test that key codes are unique (no duplicates)
    let key_codes = vec![
        NativeKeycodesData::A, NativeKeycodesData::B, NativeKeycodesData::C,
        NativeKeycodesData::DIGIT_1, NativeKeycodesData::DIGIT_2,
        NativeKeycodesData::F1, NativeKeycodesData::F2,
        NativeKeycodesData::SPACE, NativeKeycodesData::RETURN,
        NativeKeycodesData::LEFT_ARROW, NativeKeycodesData::RIGHT_ARROW,
        NativeKeycodesData::KEYPAD_0, NativeKeycodesData::KEYPAD_1,
    ];
    
    for i in 0..key_codes.len() {
        for j in (i + 1)..key_codes.len() {
            assert_ne!(key_codes[i], key_codes[j], 
                "Key codes at positions {} and {} are not unique", i, j);
        }
    }
}

#[test]
fn test_key_code_ranges() {
    // Test that key codes fall within reasonable ranges
    let all_codes = vec![
        NativeKeycodesData::A, NativeKeycodesData::Z,
        NativeKeycodesData::DIGIT_0, NativeKeycodesData::DIGIT_9,
        NativeKeycodesData::F1, NativeKeycodesData::F16,
        NativeKeycodesData::SPACE, NativeKeycodesData::DELETE,
        NativeKeycodesData::LEFT_ARROW, NativeKeycodesData::UP_ARROW,
        NativeKeycodesData::KEYPAD_0, NativeKeycodesData::KEYPAD_9,
    ];
    
    for code in all_codes {
        assert!(code <= 200, "Key code {} is unexpectedly high", code);
    }
}

#[test]
fn test_keycodes_value_creation() {
    let a = NativeKeycodesData::new();
    let b: NativeKeycodes = NativeKeycodesData::default();
    assert_eq!(a, b);
}
