use termwave::controls::{
    action_accepted, bar_count, clamp_bar_spacing, clamp_bar_width, frame_millis,
    handle_normal_action, handle_settings_input, initial_settings, LoopAction, Request, MIN_BARS,
};
use termwave::keys::{Action, Key};
use termwave::modes::Mode;
use termwave::settings::{FloatStep, Settings, SettingsState};

fn base() -> Settings {
    Settings {
        monstercat: false,
        theme_idx: 0,
        gradient_by_position: false,
        bar_width: 2,
        bar_spacing: 1,
        sensitivity: 100,
    }
}

#[test]
fn cycle_mode_saves_and_resets() {
    let mut mode = Mode::Scope;
    let mut s = base();
    let mut st = None;
    let step = handle_normal_action(Action::CycleMode, &mut mode, &mut s, &mut st, 6);
    assert_eq!(mode, Mode::Stereo);
    assert_eq!(step.flow, LoopAction::Skip);
    assert!(step.save && step.reset_bars);
    assert_eq!(step.request, Request::Nothing);
}

#[test]
fn sensitivity_keys_clamp() {
    let mut mode = Mode::Spectrum;
    let mut st = None;
    let mut s = Settings { sensitivity: 495, ..base() };
    handle_normal_action(Action::SensUp, &mut mode, &mut s, &mut st, 6);
    assert_eq!(s.sensitivity, 500);
    handle_normal_action(Action::SensUp, &mut mode, &mut s, &mut st, 6);
    assert_eq!(s.sensitivity, 500);
    let mut s = Settings { sensitivity: 15, ..base() };
    let step = handle_normal_action(Action::SensDown, &mut mode, &mut s, &mut st, 6);
    assert_eq!(s.sensitivity, 10);
    assert!(step.save);
    let mut s = Settings { sensitivity: 100, ..base() };
    handle_normal_action(Action::SensDown, &mut mode, &mut s, &mut st, 6);
    assert_eq!(s.sensitivity, 90);
}

#[test]
fn bar_width_keys_clamp() {
    let mut mode = Mode::Spectrum;
    let mut st = None;
    let mut s = Settings { bar_width: 1, ..base() };
    handle_normal_action(Action::MoreBars, &mut mode, &mut s, &mut st, 6);
    assert_eq!(s.bar_width, 1);
    let mut s = Settings { bar_width: 8, ..base() };
    handle_normal_action(Action::FewerBars, &mut mode, &mut s, &mut st, 6);
    assert_eq!(s.bar_width, 8);
    let mut s = Settings { bar_width: 3, ..base() };
    handle_normal_action(Action::FewerBars, &mut mode, &mut s, &mut st, 6);
    assert_eq!(s.bar_width, 4);
    handle_normal_action(Action::MoreBars, &mut mode, &mut s, &mut st, 6);
    assert_eq!(s.bar_width, 3);
}

#[test]
fn overlay_and_menus() {
    let mut mode = Mode::Spectrum;
    let mut s = base();
    let mut st = None;
    let step = handle_normal_action(Action::Settings, &mut mode, &mut s, &mut st, 6);
    assert_eq!(step.flow, LoopAction::Continue);
    assert_eq!(st, Some(SettingsState::new()));
    let step = handle_normal_action(Action::SelectDevice, &mut mode, &mut s, &mut st, 6);
    assert_eq!(step.request, Request::DeviceMenu);
    assert_eq!(step.flow, LoopAction::Skip);
    let step = handle_normal_action(Action::Help, &mut mode, &mut s, &mut st, 6);
    assert_eq!(step.request, Request::Help);
    let step = handle_normal_action(Action::Quit, &mut mode, &mut s, &mut st, 6);
    assert_eq!(step.flow, LoopAction::Quit);
    let step = handle_normal_action(Action::Idle, &mut mode, &mut s, &mut st, 6);
    assert_eq!(step.flow, LoopAction::Continue);
    assert!(!step.save);
    assert_eq!(s, base());
}

#[test]
fn action_guard() {
    let s = Settings { sensitivity: u32::MAX, bar_width: usize::MAX, ..base() };
    assert!(!action_accepted(Action::SensUp, &s, 6));
    assert!(!action_accepted(Action::FewerBars, &s, 6));
    assert!(action_accepted(Action::SensDown, &s, 6));
    assert!(action_accepted(Action::SensUp, &base(), 6));
}

#[test]
fn settings_input_close_saves_theme() {
    let mut st = Some(SettingsState { selected: 0, num_items: 8 });
    let mut s = base();
    let mut theme_idx = 0usize;
    let step = handle_settings_input(&mut st, &mut s, &mut theme_idx, Some(Key::Right), 6);
    assert_eq!(theme_idx, 1);
    assert!(!step.save);
    assert_eq!(step.flow, LoopAction::Continue);
    let step = handle_settings_input(&mut st, &mut s, &mut theme_idx, Some(Key::Esc), 6);
    assert!(step.save);
    assert_eq!(st, None);
    assert_eq!(theme_idx, 1);
}

#[test]
fn settings_input_quit_and_idle() {
    let mut st = Some(SettingsState { selected: 1, num_items: 8 });
    let mut s = base();
    let mut theme_idx = 4usize;
    let step = handle_settings_input(&mut st, &mut s, &mut theme_idx, Some(Key::Right), 6);
    assert_eq!(step.float_step, FloatStep::Smoothing(1));
    assert_eq!(theme_idx, 0);
    let step = handle_settings_input(&mut st, &mut s, &mut theme_idx, None, 6);
    assert_eq!(step.flow, LoopAction::Continue);
    assert_eq!(step.float_step, FloatStep::Keep);
    let mut theme_idx = 3usize;
    let step = handle_settings_input(&mut st, &mut s, &mut theme_idx, Some(Key::Char('q')), 6);
    assert_eq!(step.flow, LoopAction::Quit);
    assert_eq!(theme_idx, 3);
    assert!(st.is_some());
    let mut closed = None;
    let step = handle_settings_input(&mut closed, &mut s, &mut theme_idx, Some(Key::Char('q')), 6);
    assert_eq!(step.flow, LoopAction::Continue);
}

#[test]
fn bar_counts() {
    // 80 columns: 78 inside the border, stride 3, (78 + 1) / 3 = 26 bars
    assert_eq!(bar_count(80, 2, 1, 0), 26);
    // 26 bars of 2 with 25 gaps of 1 take 77 of 78 columns
    assert!(26 * 2 + 25 <= 78);
    assert_eq!(bar_count(0, 2, 1, 0), MIN_BARS);
    assert_eq!(bar_count(10, 2, 1, 0), MIN_BARS);
    assert_eq!(bar_count(100, 0, 0, 0), 98);
    assert_eq!(bar_count(202, 1, 0, 0), 200);
    assert_eq!(bar_count(2, 0, 0, 0), MIN_BARS);
}

#[test]
fn configured_bar_counts() {
    assert_eq!(bar_count(80, 2, 1, 128), 128);
    assert_eq!(bar_count(80, 2, 1, 2), MIN_BARS);
    assert_eq!(bar_count(0, usize::MAX, usize::MAX, 64), 64);
    // the border is not part of the sum: the widest spacing still works
    assert_eq!(bar_count(1, 0, usize::MAX, 0), MIN_BARS);
}

#[test]
fn theme_key_cycles_themes() {
    let mut mode = Mode::Spectrum;
    let mut st = None;
    let mut s = Settings { theme_idx: 5, ..base() };
    let step = handle_normal_action(Action::CycleTheme, &mut mode, &mut s, &mut st, 7);
    assert_eq!(s.theme_idx, 6);
    assert!(step.save);
    assert_eq!(step.flow, LoopAction::Skip);
    assert_eq!(mode, Mode::Spectrum);
    handle_normal_action(Action::CycleTheme, &mut mode, &mut s, &mut st, 7);
    assert_eq!(s.theme_idx, 0);
    let mut seen = Vec::new();
    for _ in 0..7 {
        handle_normal_action(Action::CycleTheme, &mut mode, &mut s, &mut st, 7);
        seen.push(s.theme_idx);
    }
    assert_eq!(seen, vec![1, 2, 3, 4, 5, 6, 0]);
    assert!(!action_accepted(Action::CycleTheme, &base(), 0));
    assert!(action_accepted(Action::CycleTheme, &base(), 7));
}

#[test]
fn startup_clamps() {
    assert_eq!(clamp_bar_width(0), 1);
    assert_eq!(clamp_bar_width(5), 5);
    assert_eq!(clamp_bar_width(99), 8);
    assert_eq!(clamp_bar_spacing(0), 0);
    assert_eq!(clamp_bar_spacing(7), 4);
    let s = initial_settings(true, 3, true, 0, 10, 5000);
    assert_eq!(
        s,
        Settings {
            monstercat: true,
            theme_idx: 3,
            gradient_by_position: true,
            bar_width: 1,
            bar_spacing: 4,
            sensitivity: 500,
        }
    );
    assert_eq!(initial_settings(false, 0, false, 2, 1, 3).sensitivity, 10);
}

#[test]
fn frame_timing() {
    assert_eq!(frame_millis(60), 16);
    assert_eq!(frame_millis(0), 1000);
    assert_eq!(frame_millis(1), 1000);
    assert_eq!(frame_millis(2000), 0);
}
