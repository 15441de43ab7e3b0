use termwave::keys::{action_for_key, key_for_overlay, Action, Key};
use termwave::menu::{device_menu_step, menu_accepts, DeviceMenuResult};
use termwave::modes::Mode;

#[test]
fn mode_names_parse_and_print() {
    assert_eq!(Mode::from_str("wave"), Mode::Wave);
    assert_eq!(Mode::from_str("scope"), Mode::Scope);
    assert_eq!(Mode::from_str("stereo"), Mode::Stereo);
    assert_eq!(Mode::from_str("spectrum"), Mode::Spectrum);
    assert_eq!(Mode::from_str("bogus"), Mode::Spectrum);
    assert_eq!(Mode::from_str(""), Mode::Spectrum);
    assert_eq!(Mode::from_str("Wave"), Mode::Spectrum);
    assert_eq!(Mode::Spectrum.as_str(), "spectrum");
    assert_eq!(Mode::Wave.as_str(), "wave");
    assert_eq!(Mode::Scope.as_str(), "scope");
    assert_eq!(Mode::Stereo.as_str(), "stereo");
}

#[test]
fn mode_name_round_trip() {
    for m in [Mode::Spectrum, Mode::Wave, Mode::Scope, Mode::Stereo] {
        assert_eq!(Mode::from_str(m.as_str()), m);
    }
}

#[test]
fn mode_cycle_order() {
    assert_eq!(Mode::Spectrum.next(), Mode::Wave);
    assert_eq!(Mode::Wave.next(), Mode::Scope);
    assert_eq!(Mode::Scope.next(), Mode::Stereo);
    assert_eq!(Mode::Stereo.next(), Mode::Spectrum);
    for m in [Mode::Spectrum, Mode::Wave, Mode::Scope, Mode::Stereo] {
        assert_eq!(m.next().next().next().next(), m);
        assert_ne!(m.next(), m);
    }
}

#[test]
fn main_view_keys() {
    assert_eq!(action_for_key(Key::Char('q'), false, true), Action::Quit);
    assert_eq!(action_for_key(Key::Esc, false, true), Action::Quit);
    assert_eq!(action_for_key(Key::Char('c'), true, true), Action::Quit);
    assert_eq!(action_for_key(Key::Char('c'), false, true), Action::Idle);
    assert_eq!(action_for_key(Key::Char('d'), false, true), Action::SelectDevice);
    assert_eq!(action_for_key(Key::Char('s'), false, true), Action::Settings);
    assert_eq!(action_for_key(Key::Char('m'), false, true), Action::CycleMode);
    assert_eq!(action_for_key(Key::Char('?'), false, true), Action::Help);
    assert_eq!(action_for_key(Key::Char('t'), false, true), Action::CycleTheme);
    assert_eq!(action_for_key(Key::Up, false, true), Action::SensUp);
    assert_eq!(action_for_key(Key::Down, false, true), Action::SensDown);
    assert_eq!(action_for_key(Key::Right, false, true), Action::FewerBars);
    assert_eq!(action_for_key(Key::Left, false, true), Action::MoreBars);
    assert_eq!(action_for_key(Key::Char('+'), false, true), Action::MoreBars);
    assert_eq!(action_for_key(Key::Char('-'), false, true), Action::FewerBars);
    assert_eq!(action_for_key(Key::Enter, false, true), Action::Idle);
    assert_eq!(action_for_key(Key::Other, true, true), Action::Idle);
}

#[test]
fn releases_do_nothing() {
    assert_eq!(action_for_key(Key::Char('q'), false, false), Action::Idle);
    assert_eq!(action_for_key(Key::Char('c'), true, false), Action::Idle);
    assert_eq!(key_for_overlay(Key::Up, false, false), None);
}

#[test]
fn overlay_keys() {
    assert_eq!(key_for_overlay(Key::Char('c'), true, true), Some(Key::Char('q')));
    assert_eq!(key_for_overlay(Key::Char('c'), false, true), Some(Key::Char('c')));
    assert_eq!(key_for_overlay(Key::Left, true, true), Some(Key::Left));
    assert_eq!(key_for_overlay(Key::Esc, false, true), Some(Key::Esc));
}

fn devices() -> Vec<String> {
    vec!["Mic".to_string(), "BlackHole 2ch".to_string()]
}

#[test]
fn device_menu_navigation() {
    let devs = devices();
    let mut sel = 0usize;
    assert!(device_menu_step(&mut sel, &devs, Key::Up, false, true).is_none());
    assert_eq!(sel, 0);
    assert!(device_menu_step(&mut sel, &devs, Key::Down, false, true).is_none());
    assert_eq!(sel, 1);
    assert!(device_menu_step(&mut sel, &devs, Key::Char('j'), false, true).is_none());
    assert_eq!(sel, 2);
    // the last row stays selected
    assert!(device_menu_step(&mut sel, &devs, Key::Down, false, true).is_none());
    assert_eq!(sel, 2);
    assert!(device_menu_step(&mut sel, &devs, Key::Char('k'), false, true).is_none());
    assert_eq!(sel, 1);
    // releases are ignored
    assert!(device_menu_step(&mut sel, &devs, Key::Down, false, false).is_none());
    assert_eq!(sel, 1);
}

#[test]
fn device_menu_results() {
    let devs = devices();
    let mut sel = 0usize;
    match device_menu_step(&mut sel, &devs, Key::Enter, false, true) {
        Some(DeviceMenuResult::Selected(None)) => {}
        other => panic!("unexpected {:?}", other),
    }
    let mut sel = 2usize;
    match device_menu_step(&mut sel, &devs, Key::Enter, false, true) {
        Some(DeviceMenuResult::Selected(Some(name))) => assert_eq!(name, "BlackHole 2ch"),
        other => panic!("unexpected {:?}", other),
    }
    assert!(matches!(
        device_menu_step(&mut sel, &devs, Key::Esc, false, true),
        Some(DeviceMenuResult::Cancelled)
    ));
    assert!(matches!(
        device_menu_step(&mut sel, &devs, Key::Char('d'), false, true),
        Some(DeviceMenuResult::Cancelled)
    ));
    assert!(matches!(
        device_menu_step(&mut sel, &devs, Key::Char('q'), false, true),
        Some(DeviceMenuResult::Quit)
    ));
    assert!(matches!(
        device_menu_step(&mut sel, &devs, Key::Char('c'), true, true),
        Some(DeviceMenuResult::Quit)
    ));
    assert!(device_menu_step(&mut sel, &devs, Key::Char('c'), false, true).is_none());
}

#[test]
fn device_menu_guard() {
    assert!(menu_accepts(2, 2, Key::Enter, true));
    assert!(!menu_accepts(3, 2, Key::Enter, true));
    assert!(menu_accepts(3, 2, Key::Enter, false));
    assert!(!menu_accepts(usize::MAX, 2, Key::Down, true));
}
