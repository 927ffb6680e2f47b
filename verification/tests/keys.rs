use terminable::error::InputError;
use terminable::keys::{function_key, translate_key, Key, KeyCode, PrimitiveKey};

const FUNCTION_KEYS: [Key; 24] = [
    Key::F0,
    Key::F1,
    Key::F2,
    Key::F3,
    Key::F4,
    Key::F5,
    Key::F6,
    Key::F7,
    Key::F8,
    Key::F9,
    Key::F10,
    Key::F11,
    Key::F12,
    Key::F13,
    Key::F14,
    Key::F15,
    Key::F16,
    Key::F17,
    Key::F18,
    Key::F19,
    Key::F20,
    Key::F21,
    Key::F22,
    Key::F23,
];

#[test]
fn named_keys_have_their_fixed_numbers() {
    assert_eq!(Key::Up.code(), 259);
    assert_eq!(Key::Down.code(), 258);
    assert_eq!(Key::Enter.code(), 343);
    assert_eq!(Key::Backspace.code(), 263);
    assert_eq!(Key::Left.code(), 260);
    assert_eq!(Key::Right.code(), 261);
    assert_eq!(Key::Home.code(), 262);
    assert_eq!(Key::End.code(), 360);
    assert_eq!(Key::PageUp.code(), 339);
    assert_eq!(Key::PageDown.code(), 338);
    assert_eq!(Key::Tab.code(), 512);
    assert_eq!(Key::BackTab.code(), 353);
    assert_eq!(Key::Delete.code(), 330);
    assert_eq!(Key::Insert.code(), 331);
    assert_eq!(Key::Escape.code(), 361);
}

#[test]
fn function_keys_are_numbered_from_264() {
    assert_eq!(Key::F0.code(), 264);
    assert_eq!(Key::F1.code(), 265);
    assert_eq!(Key::F12.code(), 276);
    assert_eq!(Key::F23.code(), 287);
    for (index, key) in FUNCTION_KEYS.iter().enumerate() {
        assert_eq!(key.code() as usize, 264 + index);
    }
}

#[test]
fn key_numbers_are_distinct() {
    let mut keys = vec![
        Key::Backspace,
        Key::Enter,
        Key::Left,
        Key::Right,
        Key::Up,
        Key::Down,
        Key::Home,
        Key::End,
        Key::PageUp,
        Key::PageDown,
        Key::Tab,
        Key::BackTab,
        Key::Delete,
        Key::Insert,
        Key::Escape,
    ];
    keys.extend(FUNCTION_KEYS.iter().copied());
    for (i, a) in keys.iter().enumerate() {
        for (j, b) in keys.iter().enumerate() {
            assert_eq!(a.code() == b.code(), i == j);
        }
    }
}

#[test]
fn function_key_by_index() {
    for index in 0..24u8 {
        assert_eq!(function_key(index), Some(FUNCTION_KEYS[index as usize]));
    }
    assert_eq!(function_key(0), Some(Key::F0));
    assert_eq!(function_key(23), Some(Key::F23));
}

#[test]
fn function_key_index_out_of_range() {
    assert_eq!(function_key(24), None);
    assert_eq!(function_key(25), None);
    assert_eq!(function_key(255), None);
    for index in 24..=255u8 {
        assert_eq!(function_key(index), None);
    }
}

#[test]
fn function_keys_translate_by_index() {
    for index in 0..24u8 {
        assert_eq!(
            translate_key(PrimitiveKey::Function(index)),
            Ok(KeyCode::Named(FUNCTION_KEYS[index as usize]))
        );
    }
    for index in 24..=255u8 {
        assert_eq!(
            translate_key(PrimitiveKey::Function(index)),
            Err(InputError::UnrecognizedInput)
        );
    }
}

#[test]
fn characters_pass_through_unchanged() {
    assert_eq!(translate_key(PrimitiveKey::Character('a')), Ok(KeyCode::Character('a')));
    assert_eq!(translate_key(PrimitiveKey::Character('A')), Ok(KeyCode::Character('A')));
    assert_eq!(translate_key(PrimitiveKey::Character('c')), Ok(KeyCode::Character('c')));
    assert_eq!(translate_key(PrimitiveKey::Character('\u{e9}')), Ok(KeyCode::Character('\u{e9}')));
    assert_eq!(
        translate_key(PrimitiveKey::Character('\u{1f600}')),
        Ok(KeyCode::Character('\u{1f600}'))
    );
    assert_eq!(translate_key(PrimitiveKey::Character('\0')), Ok(KeyCode::Character('\0')));
}

#[test]
fn named_keys_translate_one_to_one() {
    let table = [
        (PrimitiveKey::Backspace, Key::Backspace),
        (PrimitiveKey::Enter, Key::Enter),
        (PrimitiveKey::Left, Key::Left),
        (PrimitiveKey::Right, Key::Right),
        (PrimitiveKey::Up, Key::Up),
        (PrimitiveKey::Down, Key::Down),
        (PrimitiveKey::Home, Key::Home),
        (PrimitiveKey::End, Key::End),
        (PrimitiveKey::PageUp, Key::PageUp),
        (PrimitiveKey::PageDown, Key::PageDown),
        (PrimitiveKey::Tab, Key::Tab),
        (PrimitiveKey::BackTab, Key::BackTab),
        (PrimitiveKey::Delete, Key::Delete),
        (PrimitiveKey::Insert, Key::Insert),
        (PrimitiveKey::Escape, Key::Escape),
    ];
    for (primitive, key) in table {
        assert_eq!(translate_key(primitive), Ok(KeyCode::Named(key)));
    }
}

#[test]
fn null_key_is_unrecognized() {
    assert_eq!(translate_key(PrimitiveKey::Null), Err(InputError::UnrecognizedInput));
}
