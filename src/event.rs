use vstd::prelude::*;

verus! {

/// Relies on egui::Key only as the vocabulary of keyboard keys; nothing is
/// assumed of its values.
#[verifier::external_type_specification]
#[verifier::external_body]
pub struct ExKey(egui::Key);

#[derive(Clone, Copy, Debug, PartialEq, Eq, Structural)]
pub enum Action {
    Press,
    Release,
    Repeat,
}

#[derive(Clone, Copy, Debug, PartialEq, Eq, Structural)]
pub enum MouseButton {
    Left,
    Right,
    Middle,
    X1,
    X2,
    X3,
    X4,
    X5,
}

/// A window event. Cursor positions and scroll offsets are 64-bit floats,
/// each carried as its bit pattern.
#[derive(Clone, Copy, Debug, PartialEq)]
pub enum Event {
    Close,
    Resize(u32, u32),
    Move(i32, i32),
    Focus,
    UnFocus,
    Button(MouseButton, Action),
    CursorMove(u64, u64),
    Scroll(u64, u64),
    Char(char),
    Key(egui::Key, Action),
}

} // verus!
