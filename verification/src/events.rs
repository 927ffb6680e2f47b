//! The normalised event model, the primitive events of the terminal driver,
//! and how a primitive event becomes a normalised one.

use vstd::prelude::*;
use crate::error::InputError;
use crate::keys::{spec_translate_key, translate_key, KeyCode, PrimitiveKey};
use crate::modifiers::{encode_modifiers, platform_modifiers, ModifierSet};

verus! {

/// A mouse button.
#[derive(Clone, Copy, Debug, PartialEq, Eq, Structural)]
pub enum MouseButton {
    Left,
    Right,
    Middle,
}

/// What the mouse did.
#[derive(Clone, Copy, Debug, PartialEq, Eq, Structural)]
pub enum MouseKind {
    Down,
    Up,
    Drag,
    Moved,
    ScrollDown,
    ScrollUp,
}

/// A key with the modifiers held while it was pressed.
#[derive(Clone, Copy, Debug, PartialEq, Eq)]
pub struct KeyEvent {
    pub code: KeyCode,
    pub modifiers: ModifierSet,
}

/// A mouse action at a cell of the terminal.
#[derive(Clone, Copy, Debug, PartialEq, Eq)]
pub struct MouseEvent {
    pub kind: MouseKind,
    pub button: Option<MouseButton>,
    pub column: u16,
    pub row: u16,
    pub modifiers: ModifierSet,
}

impl MouseEvent {
    /// A mouse event is without a button exactly when its kind is moving or
    /// scrolling; pressing, releasing and dragging name their button.
    pub open spec fn well_formed(self) -> bool {
        (self.button is None) == (self.kind is Moved || self.kind is ScrollDown
            || self.kind is ScrollUp)
    }
}

/// The new size of the terminal.
#[derive(Clone, Copy, Debug, PartialEq, Eq)]
pub struct ResizeEvent {
    pub columns: u16,
    pub rows: u16,
}

/// One event of the normalised model.
#[derive(Clone, Copy, Debug, PartialEq, Eq)]
pub enum NormalizedEvent {
    Key(KeyEvent),
    Mouse(MouseEvent),
    Resize(ResizeEvent),
}

impl NormalizedEvent {
    /// Whether the event keeps to the rules of the model: a mouse event in it
    /// is well formed.
    pub open spec fn well_formed(self) -> bool {
        self matches NormalizedEvent::Mouse(mouse) ==> mouse.well_formed()
    }
}

/// A mouse action as the terminal driver reports it: the button is part of
/// the kinds that have one.
#[derive(Clone, Copy, Debug, PartialEq, Eq, Structural)]
pub enum PrimitiveMouseKind {
    Down(MouseButton),
    Up(MouseButton),
    Drag(MouseButton),
    Moved,
    ScrollDown,
    ScrollUp,
}

/// An event as the terminal driver reports it. `modifiers` is the driver's
/// bitset, whose bits [`crate::modifiers::PLATFORM_SHIFT`],
/// [`crate::modifiers::PLATFORM_CONTROL`] and
/// [`crate::modifiers::PLATFORM_ALT`] name.
#[derive(Clone, Copy, Debug, PartialEq, Eq, Structural)]
pub enum PrimitiveEvent {
    Key { code: PrimitiveKey, modifiers: u8 },
    Mouse { kind: PrimitiveMouseKind, column: u16, row: u16, modifiers: u8 },
    Resize { columns: u16, rows: u16 },
}

/// The kind and the button of a driver mouse action.
pub open spec fn spec_split_mouse_kind(kind: PrimitiveMouseKind) -> (MouseKind, Option<
    MouseButton,
>) {
    match kind {
        PrimitiveMouseKind::Down(button) => (MouseKind::Down, Some(button)),
        PrimitiveMouseKind::Up(button) => (MouseKind::Up, Some(button)),
        PrimitiveMouseKind::Drag(button) => (MouseKind::Drag, Some(button)),
        PrimitiveMouseKind::Moved => (MouseKind::Moved, None),
        PrimitiveMouseKind::ScrollDown => (MouseKind::ScrollDown, None),
        PrimitiveMouseKind::ScrollUp => (MouseKind::ScrollUp, None),
    }
}

/// Splits a driver mouse action into its kind and its button. The button is
/// absent exactly for moving and scrolling.
#[verifier::when_used_as_spec(spec_split_mouse_kind)]
pub fn split_mouse_kind(kind: PrimitiveMouseKind) -> (split: (MouseKind, Option<MouseButton>))
    ensures
        split == spec_split_mouse_kind(kind),
        (split.1 is None) == (split.0 is Moved || split.0 is ScrollDown || split.0 is ScrollUp),
{
    match kind {
        PrimitiveMouseKind::Down(button) => (MouseKind::Down, Some(button)),
        PrimitiveMouseKind::Up(button) => (MouseKind::Up, Some(button)),
        PrimitiveMouseKind::Drag(button) => (MouseKind::Drag, Some(button)),
        PrimitiveMouseKind::Moved => (MouseKind::Moved, None),
        PrimitiveMouseKind::ScrollDown => (MouseKind::ScrollDown, None),
        PrimitiveMouseKind::ScrollUp => (MouseKind::ScrollUp, None),
    }
}

/// What a driver event translates to. The modifiers are encoded from the
/// driver's bitset; a key goes through the key table and is the only thing
/// that can fail; a mouse action is split into kind and button, its cell
/// kept; a resize keeps its columns and rows as they are.
pub open spec fn spec_translate_event(event: PrimitiveEvent) -> Result<
    NormalizedEvent,
    InputError,
> {
    match event {
        PrimitiveEvent::Key { code, modifiers } => match spec_translate_key(code) {
            Ok(code) => Ok(
                NormalizedEvent::Key(
                    KeyEvent { code, modifiers: ModifierSet::of(platform_modifiers(modifiers)) },
                ),
            ),
            Err(error) => Err(error),
        },
        PrimitiveEvent::Mouse { kind, column, row, modifiers } => Ok(
            NormalizedEvent::Mouse(
                MouseEvent {
                    kind: spec_split_mouse_kind(kind).0,
                    button: spec_split_mouse_kind(kind).1,
                    column,
                    row,
                    modifiers: ModifierSet::of(platform_modifiers(modifiers)),
                },
            ),
        ),
        PrimitiveEvent::Resize { columns, rows } => Ok(
            NormalizedEvent::Resize(ResizeEvent { columns, rows }),
        ),
    }
}

/// Translates one driver event into one normalised event. Only a key event
/// can fail, and only with [`InputError::UnrecognizedInput`]: when its code
/// is a function key index above 23 or the null key.
#[verifier::when_used_as_spec(spec_translate_event)]
pub fn translate_event(event: PrimitiveEvent) -> (translated: Result<NormalizedEvent, InputError>)
    ensures
        translated == spec_translate_event(event),
        translated is Err <==> (event matches PrimitiveEvent::Key { code, .. }
            && spec_translate_key(code) is Err),
        translated matches Err(error) ==> error == InputError::UnrecognizedInput,
        translated matches Ok(normalized) ==> normalized.well_formed(),
{
    match event {
        PrimitiveEvent::Key { code, modifiers } => {
            let modifiers = encode_modifiers(modifiers);
            match translate_key(code) {
                Ok(code) => Ok(NormalizedEvent::Key(KeyEvent { code, modifiers })),
                Err(error) => Err(error),
            }
        },
        PrimitiveEvent::Mouse { kind, column, row, modifiers } => {
            let modifiers = encode_modifiers(modifiers);
            let (kind, button) = split_mouse_kind(kind);
            Ok(NormalizedEvent::Mouse(MouseEvent { kind, button, column, row, modifiers }))
        },
        PrimitiveEvent::Resize { columns, rows } => Ok(
            NormalizedEvent::Resize(ResizeEvent { columns, rows }),
        ),
    }
}

/// Every translated mouse event has a button exactly when its kind is
/// pressing, releasing or dragging, whatever the driver reported.
pub proof fn lemma_button_follows_kind(event: PrimitiveEvent)
    ensures
        spec_translate_event(event) matches Ok(NormalizedEvent::Mouse(mouse)) ==> (mouse.button
            is None) == (mouse.kind is Moved || mouse.kind is ScrollDown || mouse.kind
            is ScrollUp),
        event is Mouse ==> spec_translate_event(event) matches Ok(NormalizedEvent::Mouse(_)),
{
}

} // verus!
