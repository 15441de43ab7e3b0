//! Keyboard input: the keys the visualizer reacts to and the actions they
//! trigger in the main view.

use vstd::prelude::*;

verus! {

/// A key as the visualizer sees it; keys it never reacts to are `Other`.
#[derive(Clone, Copy, Debug, PartialEq, Eq, Structural)]
pub enum Key {
    Char(char),
    Up,
    Down,
    Left,
    Right,
    Enter,
    Esc,
    Other,
}

/// Action returned from input polling in the main view.
#[derive(Clone, Copy, Debug, PartialEq, Eq, Structural)]
pub enum Action {
    Idle,
    Quit,
    SelectDevice,
    Settings,
    Help,
    CycleMode,
    /// Select the next color theme.
    CycleTheme,
    SensUp,
    SensDown,
    MoreBars,
    FewerBars,
}

/// Whether a key event asks to quit: `q`, Esc, or Ctrl+C.
pub open spec fn is_quit_key(key: Key, ctrl: bool) -> bool {
    key == Key::Char('q') || key == Key::Esc || (key == Key::Char('c') && ctrl)
}

/// The action a key event triggers in the main view.  Releases and repeats
/// do nothing; `t` selects the next color theme; Up/Down change the
/// sensitivity; Left and `+` narrow the bars
/// (more of them fit), Right and `-` widen them.
pub open spec fn key_action(key: Key, ctrl: bool, is_press: bool) -> Action {
    if !is_press {
        Action::Idle
    } else if is_quit_key(key, ctrl) {
        Action::Quit
    } else {
        match key {
            Key::Char('d') => Action::SelectDevice,
            Key::Char('s') => Action::Settings,
            Key::Char('m') => Action::CycleMode,
            Key::Char('t') => Action::CycleTheme,
            Key::Char('?') => Action::Help,
            Key::Char('+') => Action::MoreBars,
            Key::Char('-') => Action::FewerBars,
            Key::Up => Action::SensUp,
            Key::Down => Action::SensDown,
            Key::Left => Action::MoreBars,
            Key::Right => Action::FewerBars,
            _ => Action::Idle,
        }
    }
}

/// Map a key event of the main view to its action.
pub fn action_for_key(key: Key, ctrl: bool, is_press: bool) -> (a: Action)
    ensures
        a == key_action(key, ctrl, is_press),
{
    if !is_press {
        return Action::Idle;
    }
    let quit = match key {
        Key::Char(c) => c == 'q' || (c == 'c' && ctrl),
        Key::Esc => true,
        _ => false,
    };
    if quit {
        return Action::Quit;
    }
    match key {
        Key::Char(c) => {
            if c == 'd' {
                Action::SelectDevice
            } else if c == 's' {
                Action::Settings
            } else if c == 'm' {
                Action::CycleMode
            } else if c == 't' {
                Action::CycleTheme
            } else if c == '?' {
                Action::Help
            } else if c == '+' {
                Action::MoreBars
            } else if c == '-' {
                Action::FewerBars
            } else {
                Action::Idle
            }
        },
        Key::Up => Action::SensUp,
        Key::Down => Action::SensDown,
        Key::Left => Action::MoreBars,
        Key::Right => Action::FewerBars,
        _ => Action::Idle,
    }
}

/// The key an overlay receives from a key event: presses only, with Ctrl+C
/// delivered as `q`.
pub open spec fn overlay_key(key: Key, ctrl: bool, is_press: bool) -> Option<Key> {
    if !is_press {
        None
    } else if key == Key::Char('c') && ctrl {
        Some(Key::Char('q'))
    } else {
        Some(key)
    }
}

/// Filter a key event for an overlay (settings menu): releases are dropped
/// and Ctrl+C becomes `q`.
pub fn key_for_overlay(key: Key, ctrl: bool, is_press: bool) -> (k: Option<Key>)
    ensures
        k == overlay_key(key, ctrl, is_press),
{
    if !is_press {
        return None;
    }
    match key {
        Key::Char(c) => {
            if c == 'c' && ctrl {
                Some(Key::Char('q'))
            } else {
                Some(key)
            }
        },
        _ => Some(key),
    }
}

/// Every quit key quits, and nothing but a pressed quit key does.
pub proof fn lemma_quit_keys(key: Key, ctrl: bool, is_press: bool)
    ensures
        key_action(key, ctrl, is_press) == Action::Quit <==> (is_press && is_quit_key(key, ctrl)),
{
}

} // verus!
