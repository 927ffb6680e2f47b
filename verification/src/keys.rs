//! Key codes: the named keys with their fixed numbers, and the translation of
//! the key codes that the terminal driver reports.

use vstd::prelude::*;
use crate::error::InputError;

verus! {

/// A key that has a name instead of a character.
#[derive(Clone, Copy, Debug, PartialEq, Eq, Structural)]
pub enum Key {
    Backspace,
    Enter,
    Left,
    Right,
    Up,
    Down,
    Home,
    End,
    PageUp,
    PageDown,
    Tab,
    BackTab,
    Delete,
    Insert,
    F0,
    F1,
    F2,
    F3,
    F4,
    F5,
    F6,
    F7,
    F8,
    F9,
    F10,
    F11,
    F12,
    F13,
    F14,
    F15,
    F16,
    F17,
    F18,
    F19,
    F20,
    F21,
    F22,
    F23,
    Escape,
}

impl Key {
    /// The number of the key. The numbers are those of the curses key
    /// constants, which consumers match on; each is a constant of its own and
    /// none is computed from what the driver reports.
    pub open spec fn spec_code(self) -> u16 {
        match self {
            Key::Backspace => 263,
            Key::Enter => 343,
            Key::Left => 260,
            Key::Right => 261,
            Key::Up => 259,
            Key::Down => 258,
            Key::Home => 262,
            Key::End => 360,
            Key::PageUp => 339,
            Key::PageDown => 338,
            Key::Tab => 512,
            Key::BackTab => 353,
            Key::Delete => 330,
            Key::Insert => 331,
            Key::F0 => 264,
            Key::F1 => 265,
            Key::F2 => 266,
            Key::F3 => 267,
            Key::F4 => 268,
            Key::F5 => 269,
            Key::F6 => 270,
            Key::F7 => 271,
            Key::F8 => 272,
            Key::F9 => 273,
            Key::F10 => 274,
            Key::F11 => 275,
            Key::F12 => 276,
            Key::F13 => 277,
            Key::F14 => 278,
            Key::F15 => 279,
            Key::F16 => 280,
            Key::F17 => 281,
            Key::F18 => 282,
            Key::F19 => 283,
            Key::F20 => 284,
            Key::F21 => 285,
            Key::F22 => 286,
            Key::F23 => 287,
            Key::Escape => 361,
        }
    }

    /// For a function key, its index: `n` for `Fn`.
    pub open spec fn function_index(self) -> Option<u8> {
        match self {
            Key::F0 => Some(0u8),
            Key::F1 => Some(1u8),
            Key::F2 => Some(2u8),
            Key::F3 => Some(3u8),
            Key::F4 => Some(4u8),
            Key::F5 => Some(5u8),
            Key::F6 => Some(6u8),
            Key::F7 => Some(7u8),
            Key::F8 => Some(8u8),
            Key::F9 => Some(9u8),
            Key::F10 => Some(10u8),
            Key::F11 => Some(11u8),
            Key::F12 => Some(12u8),
            Key::F13 => Some(13u8),
            Key::F14 => Some(14u8),
            Key::F15 => Some(15u8),
            Key::F16 => Some(16u8),
            Key::F17 => Some(17u8),
            Key::F18 => Some(18u8),
            Key::F19 => Some(19u8),
            Key::F20 => Some(20u8),
            Key::F21 => Some(21u8),
            Key::F22 => Some(22u8),
            Key::F23 => Some(23u8),
            _ => None,
        }
    }

    /// The number of the key.
    #[verifier::when_used_as_spec(spec_code)]
    pub fn code(self) -> (code: u16)
        ensures
            code == self.spec_code(),
    {
        match self {
            Key::Backspace => 263,
            Key::Enter => 343,
            Key::Left => 260,
            Key::Right => 261,
            Key::Up => 259,
            Key::Down => 258,
            Key::Home => 262,
            Key::End => 360,
            Key::PageUp => 339,
            Key::PageDown => 338,
            Key::Tab => 512,
            Key::BackTab => 353,
            Key::Delete => 330,
            Key::Insert => 331,
            Key::F0 => 264,
            Key::F1 => 265,
            Key::F2 => 266,
            Key::F3 => 267,
            Key::F4 => 268,
            Key::F5 => 269,
            Key::F6 => 270,
            Key::F7 => 271,
            Key::F8 => 272,
            Key::F9 => 273,
            Key::F10 => 274,
            Key::F11 => 275,
            Key::F12 => 276,
            Key::F13 => 277,
            Key::F14 => 278,
            Key::F15 => 279,
            Key::F16 => 280,
            Key::F17 => 281,
            Key::F18 => 282,
            Key::F19 => 283,
            Key::F20 => 284,
            Key::F21 => 285,
            Key::F22 => 286,
            Key::F23 => 287,
            Key::Escape => 361,
        }
    }
}

/// The function key with index `index`, for the indices that have one.
pub open spec fn spec_function_key(index: u8) -> Option<Key> {
    match index {
        0 => Some(Key::F0),
        1 => Some(Key::F1),
        2 => Some(Key::F2),
        3 => Some(Key::F3),
        4 => Some(Key::F4),
        5 => Some(Key::F5),
        6 => Some(Key::F6),
        7 => Some(Key::F7),
        8 => Some(Key::F8),
        9 => Some(Key::F9),
        10 => Some(Key::F10),
        11 => Some(Key::F11),
        12 => Some(Key::F12),
        13 => Some(Key::F13),
        14 => Some(Key::F14),
        15 => Some(Key::F15),
        16 => Some(Key::F16),
        17 => Some(Key::F17),
        18 => Some(Key::F18),
        19 => Some(Key::F19),
        20 => Some(Key::F20),
        21 => Some(Key::F21),
        22 => Some(Key::F22),
        23 => Some(Key::F23),
        _ => None,
    }
}

/// The function key `F<index>`. There are twenty-four of them, `F0` to `F23`;
/// a greater index has no key.
#[verifier::when_used_as_spec(spec_function_key)]
pub fn function_key(index: u8) -> (key: Option<Key>)
    ensures
        key == spec_function_key(index),
        index <= 23 <==> key is Some,
        key matches Some(k) ==> k.function_index() == Some(index) && k.spec_code() == 264 + index,
{
    match index {
        0 => Some(Key::F0),
        1 => Some(Key::F1),
        2 => Some(Key::F2),
        3 => Some(Key::F3),
        4 => Some(Key::F4),
        5 => Some(Key::F5),
        6 => Some(Key::F6),
        7 => Some(Key::F7),
        8 => Some(Key::F8),
        9 => Some(Key::F9),
        10 => Some(Key::F10),
        11 => Some(Key::F11),
        12 => Some(Key::F12),
        13 => Some(Key::F13),
        14 => Some(Key::F14),
        15 => Some(Key::F15),
        16 => Some(Key::F16),
        17 => Some(Key::F17),
        18 => Some(Key::F18),
        19 => Some(Key::F19),
        20 => Some(Key::F20),
        21 => Some(Key::F21),
        22 => Some(Key::F22),
        23 => Some(Key::F23),
        _ => None,
    }
}

/// Function keys and their indices determine each other: `Fn` is the key of
/// index `n`, no other key has an index, and the number of `Fn` is 264 + n.
pub proof fn lemma_function_key_round_trip(index: u8, key: Key)
    ensures
        index <= 23 <==> spec_function_key(index) is Some,
        spec_function_key(index) == Some(key) <==> key.function_index() == Some(index),
        key.function_index() == Some(index) ==> key.spec_code() == 264 + index,
{
}

/// No two keys share a number.
pub proof fn lemma_codes_are_distinct(a: Key, b: Key)
    requires
        a.spec_code() == b.spec_code(),
    ensures
        a == b,
{
}

/// The code of a normalised key event: a character, passed on as it came, or
/// a named key.
#[derive(Clone, Copy, Debug, PartialEq, Eq, Structural)]
pub enum KeyCode {
    Character(char),
    Named(Key),
}

/// A key code as the terminal driver reports it.
#[derive(Clone, Copy, Debug, PartialEq, Eq, Structural)]
pub enum PrimitiveKey {
    Backspace,
    Enter,
    Left,
    Right,
    Up,
    Down,
    Home,
    End,
    PageUp,
    PageDown,
    Tab,
    BackTab,
    Delete,
    Insert,
    Function(u8),
    Character(char),
    Null,
    Escape,
}

/// What a driver key code translates to. A character is passed on unchanged,
/// a function key goes by its index, and each other named key has its one
/// counterpart. A function key index above 23 and the null key have none.
pub open spec fn spec_translate_key(code: PrimitiveKey) -> Result<KeyCode, InputError> {
    match code {
        PrimitiveKey::Character(c) => Ok(KeyCode::Character(c)),
        PrimitiveKey::Function(n) => match spec_function_key(n) {
            Some(key) => Ok(KeyCode::Named(key)),
            None => Err(InputError::UnrecognizedInput),
        },
        PrimitiveKey::Null => Err(InputError::UnrecognizedInput),
        PrimitiveKey::Backspace => Ok(KeyCode::Named(Key::Backspace)),
        PrimitiveKey::Enter => Ok(KeyCode::Named(Key::Enter)),
        PrimitiveKey::Left => Ok(KeyCode::Named(Key::Left)),
        PrimitiveKey::Right => Ok(KeyCode::Named(Key::Right)),
        PrimitiveKey::Up => Ok(KeyCode::Named(Key::Up)),
        PrimitiveKey::Down => Ok(KeyCode::Named(Key::Down)),
        PrimitiveKey::Home => Ok(KeyCode::Named(Key::Home)),
        PrimitiveKey::End => Ok(KeyCode::Named(Key::End)),
        PrimitiveKey::PageUp => Ok(KeyCode::Named(Key::PageUp)),
        PrimitiveKey::PageDown => Ok(KeyCode::Named(Key::PageDown)),
        PrimitiveKey::Tab => Ok(KeyCode::Named(Key::Tab)),
        PrimitiveKey::BackTab => Ok(KeyCode::Named(Key::BackTab)),
        PrimitiveKey::Delete => Ok(KeyCode::Named(Key::Delete)),
        PrimitiveKey::Insert => Ok(KeyCode::Named(Key::Insert)),
        PrimitiveKey::Escape => Ok(KeyCode::Named(Key::Escape)),
    }
}

/// A function key of the driver translates to the function key of the same
/// index, for the indices 0 to 23, and to nothing for a greater index.
pub proof fn lemma_function_keys_translate(index: u8)
    ensures
        index <= 23 ==> (spec_translate_key(PrimitiveKey::Function(index)) matches Ok(
            KeyCode::Named(key),
        ) && key.function_index() == Some(index)),
        index >= 24 ==> spec_translate_key(PrimitiveKey::Function(index)) == Err::<
            KeyCode,
            InputError,
        >(InputError::UnrecognizedInput),
{
}

/// Translates a driver key code. It fails, with
/// [`InputError::UnrecognizedInput`], exactly on a function key index above 23
/// and on the null key.
#[verifier::when_used_as_spec(spec_translate_key)]
pub fn translate_key(code: PrimitiveKey) -> (translated: Result<KeyCode, InputError>)
    ensures
        translated == spec_translate_key(code),
        translated is Err <==> (code is Null || (code matches PrimitiveKey::Function(n) && n > 23)),
        translated matches Err(e) ==> e == InputError::UnrecognizedInput,
        code matches PrimitiveKey::Character(c) ==> translated == Ok::<KeyCode, InputError>(
            KeyCode::Character(c),
        ),
{
    match code {
        PrimitiveKey::Character(c) => Ok(KeyCode::Character(c)),
        PrimitiveKey::Function(n) => match function_key(n) {
            Some(key) => Ok(KeyCode::Named(key)),
            None => Err(InputError::UnrecognizedInput),
        },
        PrimitiveKey::Null => Err(InputError::UnrecognizedInput),
        PrimitiveKey::Backspace => Ok(KeyCode::Named(Key::Backspace)),
        PrimitiveKey::Enter => Ok(KeyCode::Named(Key::Enter)),
        PrimitiveKey::Left => Ok(KeyCode::Named(Key::Left)),
        PrimitiveKey::Right => Ok(KeyCode::Named(Key::Right)),
        PrimitiveKey::Up => Ok(KeyCode::Named(Key::Up)),
        PrimitiveKey::Down => Ok(KeyCode::Named(Key::Down)),
        PrimitiveKey::Home => Ok(KeyCode::Named(Key::Home)),
        PrimitiveKey::End => Ok(KeyCode::Named(Key::End)),
        PrimitiveKey::PageUp => Ok(KeyCode::Named(Key::PageUp)),
        PrimitiveKey::PageDown => Ok(KeyCode::Named(Key::PageDown)),
        PrimitiveKey::Tab => Ok(KeyCode::Named(Key::Tab)),
        PrimitiveKey::BackTab => Ok(KeyCode::Named(Key::BackTab)),
        PrimitiveKey::Delete => Ok(KeyCode::Named(Key::Delete)),
        PrimitiveKey::Insert => Ok(KeyCode::Named(Key::Insert)),
        PrimitiveKey::Escape => Ok(KeyCode::Named(Key::Escape)),
    }
}

} // verus!
