//! Keyboard actions as exchanged with the Java side.

use vstd::prelude::*;

verus! {

/// Keyboard keymap specifier (rules, model, layout, variant, options).
#[derive(Debug, Clone, Default)]
pub struct RMLVO {
    pub rules: String,
    pub model: String,
    pub layout: String,
    pub variant: String,
    pub options: String,
}

/// Three-state keyboard action, as sent by the Java bridge:
/// `0 = release`, `1 = press`, `2 = repeat`.
#[derive(Clone, Copy, Debug, PartialEq, Eq, Structural)]
pub enum KeyboardAction {
    Release,
    Press,
    Repeat,
}

/// The `wl_keyboard.key` state that an action is sent as.
#[derive(Clone, Copy, Debug, PartialEq, Eq, Structural)]
pub enum KeyState {
    Released,
    Pressed,
}

/// The action that a Java `jint` code stands for, if any.
pub open spec fn action_of_code(code: int) -> Option<KeyboardAction> {
    if code == 0 {
        Some(KeyboardAction::Release)
    } else if code == 1 {
        Some(KeyboardAction::Press)
    } else if code == 2 {
        Some(KeyboardAction::Repeat)
    } else {
        None
    }
}

impl KeyboardAction {
    /// Restores the action from the bridge's integer code; unknown codes give `None`.
    pub fn from_i32(action: i32) -> (res: Option<Self>)
        ensures
            res == action_of_code(action as int),
    {
        match action {
            0 => Some(KeyboardAction::Release),
            1 => Some(KeyboardAction::Press),
            2 => Some(KeyboardAction::Repeat),
            _ => None,
        }
    }

    /// The wire key state: a repeat is sent as a held (pressed) key.
    pub fn key_state(self) -> (res: KeyState)
        ensures
            res == (if self == KeyboardAction::Release { KeyState::Released } else { KeyState::Pressed }),
    {
        match self {
            KeyboardAction::Release => KeyState::Released,
            KeyboardAction::Press => KeyState::Pressed,
            KeyboardAction::Repeat => KeyState::Pressed,
        }
    }
}

} // verus!
