use terminable::error::InputError;
use terminable::events::{
    split_mouse_kind, translate_event, KeyEvent, MouseButton, MouseEvent, MouseKind,
    NormalizedEvent, PrimitiveEvent, PrimitiveMouseKind, ResizeEvent,
};
use terminable::keys::{Key, KeyCode, PrimitiveKey};
use terminable::modifiers::{Modifier, ModifierSet};

const BUTTONS: [MouseButton; 3] = [MouseButton::Left, MouseButton::Right, MouseButton::Middle];

fn all_mouse_kinds() -> Vec<PrimitiveMouseKind> {
    let mut kinds = Vec::new();
    for button in BUTTONS {
        kinds.push(PrimitiveMouseKind::Down(button));
        kinds.push(PrimitiveMouseKind::Up(button));
        kinds.push(PrimitiveMouseKind::Drag(button));
    }
    kinds.push(PrimitiveMouseKind::Moved);
    kinds.push(PrimitiveMouseKind::ScrollDown);
    kinds.push(PrimitiveMouseKind::ScrollUp);
    kinds
}

#[test]
fn shifted_character_key() {
    let event = PrimitiveEvent::Key { code: PrimitiveKey::Character('a'), modifiers: 0x01 };
    assert_eq!(
        translate_event(event),
        Ok(NormalizedEvent::Key(KeyEvent {
            code: KeyCode::Character('a'),
            modifiers: ModifierSet::only(Modifier::Shift),
        }))
    );
}

#[test]
fn left_button_down_without_modifiers() {
    let event = PrimitiveEvent::Mouse {
        kind: PrimitiveMouseKind::Down(MouseButton::Left),
        column: 10,
        row: 4,
        modifiers: 0,
    };
    let translated = translate_event(event);
    assert_eq!(
        translated,
        Ok(NormalizedEvent::Mouse(MouseEvent {
            kind: MouseKind::Down,
            button: Some(MouseButton::Left),
            column: 10,
            row: 4,
            modifiers: ModifierSet::empty(),
        }))
    );
    match translated {
        Ok(NormalizedEvent::Mouse(mouse)) => assert!(mouse.modifiers.is_empty()),
        _ => panic!("a mouse event was expected"),
    }
}

#[test]
fn resize_keeps_columns_and_rows() {
    assert_eq!(
        translate_event(PrimitiveEvent::Resize { columns: 120, rows: 40 }),
        Ok(NormalizedEvent::Resize(ResizeEvent { columns: 120, rows: 40 }))
    );
    assert_eq!(
        translate_event(PrimitiveEvent::Resize { columns: 0, rows: 65535 }),
        Ok(NormalizedEvent::Resize(ResizeEvent { columns: 0, rows: 65535 }))
    );
}

#[test]
fn mouse_kind_and_button_cross_product() {
    for button in BUTTONS {
        assert_eq!(
            split_mouse_kind(PrimitiveMouseKind::Down(button)),
            (MouseKind::Down, Some(button))
        );
        assert_eq!(split_mouse_kind(PrimitiveMouseKind::Up(button)), (MouseKind::Up, Some(button)));
        assert_eq!(
            split_mouse_kind(PrimitiveMouseKind::Drag(button)),
            (MouseKind::Drag, Some(button))
        );
    }
    assert_eq!(split_mouse_kind(PrimitiveMouseKind::Moved), (MouseKind::Moved, None));
    assert_eq!(split_mouse_kind(PrimitiveMouseKind::ScrollDown), (MouseKind::ScrollDown, None));
    assert_eq!(split_mouse_kind(PrimitiveMouseKind::ScrollUp), (MouseKind::ScrollUp, None));
}

#[test]
fn button_is_absent_exactly_for_moving_and_scrolling() {
    for kind in all_mouse_kinds() {
        let event = PrimitiveEvent::Mouse { kind, column: 1, row: 2, modifiers: 0x06 };
        match translate_event(event) {
            Ok(NormalizedEvent::Mouse(mouse)) => {
                let without_button = matches!(
                    mouse.kind,
                    MouseKind::Moved | MouseKind::ScrollDown | MouseKind::ScrollUp
                );
                assert_eq!(mouse.button.is_none(), without_button);
                assert_eq!(mouse.column, 1);
                assert_eq!(mouse.row, 2);
                assert_eq!(
                    mouse.modifiers,
                    ModifierSet::only(Modifier::Control).union(ModifierSet::only(Modifier::Alt))
                );
            },
            other => panic!("a mouse event was expected, not {:?}", other),
        }
    }
}

#[test]
fn mouse_cell_is_kept_at_the_bounds() {
    let event = PrimitiveEvent::Mouse {
        kind: PrimitiveMouseKind::ScrollUp,
        column: 65535,
        row: 0,
        modifiers: 0x04,
    };
    assert_eq!(
        translate_event(event),
        Ok(NormalizedEvent::Mouse(MouseEvent {
            kind: MouseKind::ScrollUp,
            button: None,
            column: 65535,
            row: 0,
            modifiers: ModifierSet::only(Modifier::Alt),
        }))
    );
}

#[test]
fn named_key_event_with_modifiers() {
    let event = PrimitiveEvent::Key { code: PrimitiveKey::Up, modifiers: 0x03 };
    match translate_event(event) {
        Ok(NormalizedEvent::Key(key)) => {
            assert_eq!(key.code, KeyCode::Named(Key::Up));
            assert_eq!(key.modifiers.bits(), 3);
            match key.code {
                KeyCode::Named(named) => assert_eq!(named.code(), 259),
                KeyCode::Character(_) => panic!("a named key was expected"),
            }
        },
        other => panic!("a key event was expected, not {:?}", other),
    }
}

#[test]
fn function_key_event() {
    assert_eq!(
        translate_event(PrimitiveEvent::Key { code: PrimitiveKey::Function(5), modifiers: 0 }),
        Ok(NormalizedEvent::Key(KeyEvent {
            code: KeyCode::Named(Key::F5),
            modifiers: ModifierSet::empty(),
        }))
    );
}

#[test]
fn unmapped_keys_are_reported() {
    assert_eq!(
        translate_event(PrimitiveEvent::Key { code: PrimitiveKey::Function(24), modifiers: 0 }),
        Err(InputError::UnrecognizedInput)
    );
    assert_eq!(
        translate_event(PrimitiveEvent::Key { code: PrimitiveKey::Null, modifiers: 0x02 }),
        Err(InputError::UnrecognizedInput)
    );
}

#[test]
fn control_c_translates_like_any_key_outside_a_session() {
    assert_eq!(
        translate_event(PrimitiveEvent::Key { code: PrimitiveKey::Character('c'), modifiers: 0x02 }),
        Ok(NormalizedEvent::Key(KeyEvent {
            code: KeyCode::Character('c'),
            modifiers: ModifierSet::only(Modifier::Control),
        }))
    );
}
