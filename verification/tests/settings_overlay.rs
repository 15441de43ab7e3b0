use termwave::keys::Key;
use termwave::settings::{FloatStep, Settings, SettingsAction, SettingsState, NUM_SETTINGS};

fn base() -> Settings {
    Settings {
        monstercat: false,
        theme_idx: 0,
        gradient_by_position: false,
        bar_width: 2,
        bar_spacing: 1,
        sensitivity: 100,
    }
}

fn at(row: usize) -> SettingsState {
    SettingsState { selected: row, num_items: NUM_SETTINGS }
}

#[test]
fn new_state_starts_on_first_row() {
    let st = SettingsState::new();
    assert_eq!(st.selected, 0);
    assert_eq!(st.num_items, 8);
}

#[test]
fn cursor_moves_within_rows() {
    let mut st = SettingsState::new();
    let mut s = base();
    st.handle_key(Key::Up, &mut s, 6);
    assert_eq!(st.selected, 0);
    for _ in 0..20 {
        st.handle_key(Key::Char('j'), &mut s, 6);
    }
    assert_eq!(st.selected, 7);
    st.handle_key(Key::Char('k'), &mut s, 6);
    assert_eq!(st.selected, 6);
    assert_eq!(s, base());
}

#[test]
fn theme_row_cycles() {
    let mut st = at(0);
    let mut s = base();
    st.handle_key(Key::Left, &mut s, 6);
    assert_eq!(s.theme_idx, 5);
    st.handle_key(Key::Right, &mut s, 6);
    assert_eq!(s.theme_idx, 0);
    s.theme_idx = 5;
    st.handle_key(Key::Char('l'), &mut s, 6);
    assert_eq!(s.theme_idx, 0);
    s.theme_idx = 3;
    st.handle_key(Key::Char('h'), &mut s, 6);
    assert_eq!(s.theme_idx, 2);
}

#[test]
fn theme_right_then_left_is_undone() {
    for start in 0..6 {
        let mut st = at(0);
        let mut s = Settings { theme_idx: start, ..base() };
        st.handle_key(Key::Right, &mut s, 6);
        st.handle_key(Key::Left, &mut s, 6);
        assert_eq!(s.theme_idx, start);
    }
}

#[test]
fn float_rows_hand_back_steps() {
    let mut s = base();
    let out = at(1).handle_key(Key::Right, &mut s, 6);
    assert_eq!(out.float_step, FloatStep::Smoothing(1));
    assert_eq!(out.action, SettingsAction::KeepOpen);
    let out = at(3).handle_key(Key::Left, &mut s, 6);
    assert_eq!(out.float_step, FloatStep::NoiseFloor(-1));
    let out = at(5).handle_key(Key::Left, &mut s, 6);
    assert_eq!(out.float_step, FloatStep::Keep);
    assert_eq!(s.bar_width, 1);
}

#[test]
fn toggles() {
    let mut s = base();
    at(2).handle_key(Key::Right, &mut s, 6);
    assert!(s.monstercat);
    at(2).handle_key(Key::Enter, &mut s, 6);
    assert!(!s.monstercat);
    at(4).handle_key(Key::Char(' '), &mut s, 6);
    assert!(s.gradient_by_position);
    at(4).handle_key(Key::Left, &mut s, 6);
    assert!(!s.gradient_by_position);
    // Enter on a non-toggle row changes nothing
    at(5).handle_key(Key::Enter, &mut s, 6);
    assert_eq!(s, base());
}

#[test]
fn integer_rows_clamp() {
    let mut s = Settings { bar_width: 8, bar_spacing: 4, sensitivity: 500, ..base() };
    at(5).handle_key(Key::Right, &mut s, 6);
    at(6).handle_key(Key::Right, &mut s, 6);
    at(7).handle_key(Key::Right, &mut s, 6);
    assert_eq!((s.bar_width, s.bar_spacing, s.sensitivity), (8, 4, 500));
    let mut s = Settings { bar_width: 1, bar_spacing: 0, sensitivity: 10, ..base() };
    at(5).handle_key(Key::Left, &mut s, 6);
    at(6).handle_key(Key::Left, &mut s, 6);
    at(7).handle_key(Key::Left, &mut s, 6);
    assert_eq!((s.bar_width, s.bar_spacing, s.sensitivity), (1, 0, 10));
    let mut s = Settings { bar_width: 20, bar_spacing: 9, sensitivity: 1000, ..base() };
    at(5).handle_key(Key::Left, &mut s, 6);
    at(6).handle_key(Key::Left, &mut s, 6);
    at(7).handle_key(Key::Left, &mut s, 6);
    assert_eq!((s.bar_width, s.bar_spacing, s.sensitivity), (8, 4, 500));
    let mut s = Settings { sensitivity: 495, ..base() };
    at(7).handle_key(Key::Right, &mut s, 6);
    assert_eq!(s.sensitivity, 500);
}

#[test]
fn integer_step_undone_inside_range() {
    let mut s = Settings { bar_width: 4, bar_spacing: 2, sensitivity: 250, ..base() };
    for row in 5..8 {
        at(row).handle_key(Key::Right, &mut s, 6);
        at(row).handle_key(Key::Left, &mut s, 6);
    }
    assert_eq!((s.bar_width, s.bar_spacing, s.sensitivity), (4, 2, 250));
}

#[test]
fn close_and_quit() {
    let mut s = base();
    assert_eq!(at(3).handle_key(Key::Esc, &mut s, 6).action, SettingsAction::Close);
    assert_eq!(at(3).handle_key(Key::Char('s'), &mut s, 6).action, SettingsAction::Close);
    assert_eq!(at(3).handle_key(Key::Char('q'), &mut s, 6).action, SettingsAction::Quit);
    assert_eq!(at(3).handle_key(Key::Other, &mut s, 6).action, SettingsAction::KeepOpen);
}

#[test]
fn guard_rejects_failing_keys() {
    let s = base();
    assert!(!at(0).accepts(Key::Right, &s, 0));
    assert!(!at(0).accepts(Key::Left, &s, 0));
    let s1 = Settings { theme_idx: 2, ..base() };
    assert!(at(0).accepts(Key::Left, &s1, 0));
    assert!(at(0).accepts(Key::Right, &s, 6));
    let huge = SettingsState { selected: usize::MAX, num_items: NUM_SETTINGS };
    assert!(!huge.accepts(Key::Down, &s, 6));
    assert!(huge.accepts(Key::Up, &s, 6));
}
