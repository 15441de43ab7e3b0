//! The settings overlay: cursor movement and live adjustment of the
//! visualizer's settings.
//!
//! The two floating-point settings (temporal smoothing and the noise floor)
//! are held by the caller; an adjustment of one of them is handed back as a
//! [`FloatStep`] for the caller to apply with its own clamping.

use vstd::prelude::*;
use crate::keys::Key;

verus! {

/// Number of rows in the settings overlay.
pub const NUM_SETTINGS: usize = 8;

/// The integer and boolean settings that can be changed at runtime.
#[derive(Clone, Copy, Debug, PartialEq, Eq, Structural)]
pub struct Settings {
    /// Monstercat-style smoothing of bar tops.
    pub monstercat: bool,
    /// Index of the current color theme.
    pub theme_idx: usize,
    /// If true, color by bar position; if false, color by amplitude.
    pub gradient_by_position: bool,
    /// Width of each bar in terminal columns (1–8).
    pub bar_width: usize,
    /// Spacing between bars in terminal columns (0–4).
    pub bar_spacing: usize,
    /// Sensitivity in percent (100 = normal).
    pub sensitivity: u32,
}

/// A step of one of the floating-point settings, in the given direction
/// (`1` up, `-1` down).
#[derive(Clone, Copy, Debug, PartialEq, Eq, Structural)]
pub enum FloatStep {
    Keep,
    Smoothing(i32),
    NoiseFloor(i32),
}

/// Non-blocking settings overlay state.
#[derive(Clone, Copy, Debug, PartialEq, Eq, Structural)]
pub struct SettingsState {
    pub selected: usize,
    pub num_items: usize,
}

/// Result of handling a key in the settings overlay.
#[derive(Clone, Copy, Debug, PartialEq, Eq, Structural)]
pub enum SettingsAction {
    /// Keep the overlay open.
    KeepOpen,
    /// Close the overlay (Esc/s).
    Close,
    /// Quit the application.
    Quit,
}

/// What a key did in the settings overlay.
#[derive(Clone, Copy, Debug, PartialEq, Eq, Structural)]
pub struct KeyOutcome {
    pub action: SettingsAction,
    pub float_step: FloatStep,
}

pub open spec fn clamp_int(v: int, lo: int, hi: int) -> int {
    if v < lo { lo } else if v > hi { hi } else { v }
}

pub open spec fn fits_i32(v: int) -> bool {
    i32::MIN <= v <= i32::MAX
}

/// The inputs on which adjusting row `idx` in direction `dir` is defined:
/// the theme row needs a theme to move to, the integer rows must not leave
/// the `i32` range they are computed in.
pub open spec fn adjust_defined(s: Settings, idx: usize, dir: int, num_themes: usize) -> bool {
    if idx == 0 {
        if dir > 0 {
            num_themes > 0 && s.theme_idx < usize::MAX
        } else {
            s.theme_idx > 0 || num_themes > 0
        }
    } else if idx == 5 {
        fits_i32((s.bar_width as i32) + dir)
    } else if idx == 6 {
        fits_i32((s.bar_spacing as i32) + dir)
    } else if idx == 7 {
        fits_i32((s.sensitivity as i32) + dir * 10)
    } else {
        true
    }
}

/// The settings after adjusting row `idx` in direction `dir`: the theme
/// cycles, toggles flip, bar width stays in 1–8, spacing in 0–4 and
/// sensitivity moves by 10 within 10–500.
pub open spec fn adjusted(s: Settings, idx: usize, dir: int, num_themes: usize) -> Settings {
    if idx == 0 {
        Settings {
            theme_idx: if dir > 0 {
                ((s.theme_idx + 1) % (num_themes as int)) as usize
            } else if s.theme_idx == 0 {
                (num_themes - 1) as usize
            } else {
                (s.theme_idx - 1) as usize
            },
            ..s
        }
    } else if idx == 2 {
        Settings { monstercat: !s.monstercat, ..s }
    } else if idx == 4 {
        Settings { gradient_by_position: !s.gradient_by_position, ..s }
    } else if idx == 5 {
        Settings { bar_width: clamp_int((s.bar_width as i32) + dir, 1, 8) as usize, ..s }
    } else if idx == 6 {
        Settings { bar_spacing: clamp_int((s.bar_spacing as i32) + dir, 0, 4) as usize, ..s }
    } else if idx == 7 {
        Settings {
            sensitivity: clamp_int((s.sensitivity as i32) + dir * 10, 10, 500) as u32,
            ..s
        }
    } else {
        s
    }
}

/// The floating-point step that adjusting row `idx` asks for.
pub open spec fn float_step_for(idx: usize, dir: int) -> FloatStep {
    if idx == 1 {
        FloatStep::Smoothing(dir as i32)
    } else if idx == 3 {
        FloatStep::NoiseFloor(dir as i32)
    } else {
        FloatStep::Keep
    }
}

fn adjust_setting(settings: &mut Settings, idx: usize, direction: i32, num_themes: usize) -> (step:
    FloatStep)
    requires
        direction == 1 || direction == -1,
        adjust_defined(*old(settings), idx, direction as int, num_themes),
    ensures
        *final(settings) == adjusted(*old(settings), idx, direction as int, num_themes),
        step == float_step_for(idx, direction as int),
{
    if idx == 0 {
        if direction > 0 {
            settings.theme_idx = (settings.theme_idx + 1) % num_themes;
        } else if settings.theme_idx == 0 {
            settings.theme_idx = num_themes - 1;
        } else {
            settings.theme_idx = settings.theme_idx - 1;
        }
        FloatStep::Keep
    } else if idx == 1 {
        FloatStep::Smoothing(direction)
    } else if idx == 2 {
        settings.monstercat = !settings.monstercat;
        FloatStep::Keep
    } else if idx == 3 {
        FloatStep::NoiseFloor(direction)
    } else if idx == 4 {
        settings.gradient_by_position = !settings.gradient_by_position;
        FloatStep::Keep
    } else if idx == 5 {
        let w: i32 = (settings.bar_width as i32) + direction;
        settings.bar_width = if w < 1 { 1 } else if w > 8 { 8 } else { w as usize };
        FloatStep::Keep
    } else if idx == 6 {
        let w: i32 = (settings.bar_spacing as i32) + direction;
        settings.bar_spacing = if w < 0 { 0 } else if w > 4 { 4 } else { w as usize };
        FloatStep::Keep
    } else if idx == 7 {
        let v: i32 = (settings.sensitivity as i32) + direction * 10;
        settings.sensitivity = if v < 10 { 10 } else if v > 500 { 500 } else { v as u32 };
        FloatStep::Keep
    } else {
        FloatStep::Keep
    }
}

pub open spec fn is_up_key(key: Key) -> bool {
    key == Key::Up || key == Key::Char('k')
}

pub open spec fn is_down_key(key: Key) -> bool {
    key == Key::Down || key == Key::Char('j')
}

pub open spec fn is_left_key(key: Key) -> bool {
    key == Key::Left || key == Key::Char('h')
}

pub open spec fn is_right_key(key: Key) -> bool {
    key == Key::Right || key == Key::Char('l')
}

pub open spec fn is_toggle_key(key: Key) -> bool {
    key == Key::Enter || key == Key::Char(' ')
}

pub open spec fn is_close_key(key: Key) -> bool {
    key == Key::Esc || key == Key::Char('s')
}

/// The inputs on which a key is handled without arithmetic failure.
pub open spec fn key_defined(st: SettingsState, key: Key, s: Settings, num_themes: usize) -> bool {
    if is_down_key(key) {
        st.selected < usize::MAX
    } else if is_left_key(key) {
        adjust_defined(s, st.selected, -1, num_themes)
    } else if is_right_key(key) {
        adjust_defined(s, st.selected, 1, num_themes)
    } else {
        true
    }
}

/// The overlay state after a key.
pub open spec fn state_after(st: SettingsState, key: Key) -> SettingsState {
    if is_up_key(key) {
        SettingsState { selected: if st.selected > 0 { (st.selected - 1) as usize } else { 0 }, ..st }
    } else if is_down_key(key) && st.selected + 1 < st.num_items {
        SettingsState { selected: (st.selected + 1) as usize, ..st }
    } else {
        st
    }
}

/// The settings after a key.
pub open spec fn settings_after(st: SettingsState, key: Key, s: Settings, num_themes: usize) -> Settings {
    if is_up_key(key) || is_down_key(key) {
        s
    } else if is_left_key(key) {
        adjusted(s, st.selected, -1, num_themes)
    } else if is_right_key(key) {
        adjusted(s, st.selected, 1, num_themes)
    } else if is_toggle_key(key) {
        if st.selected == 2 {
            Settings { monstercat: !s.monstercat, ..s }
        } else if st.selected == 4 {
            Settings { gradient_by_position: !s.gradient_by_position, ..s }
        } else {
            s
        }
    } else {
        s
    }
}

/// What a key tells the caller.
pub open spec fn outcome_of(st: SettingsState, key: Key) -> KeyOutcome {
    if is_up_key(key) || is_down_key(key) {
        KeyOutcome { action: SettingsAction::KeepOpen, float_step: FloatStep::Keep }
    } else if is_left_key(key) {
        KeyOutcome { action: SettingsAction::KeepOpen, float_step: float_step_for(st.selected, -1) }
    } else if is_right_key(key) {
        KeyOutcome { action: SettingsAction::KeepOpen, float_step: float_step_for(st.selected, 1) }
    } else if is_toggle_key(key) {
        KeyOutcome { action: SettingsAction::KeepOpen, float_step: FloatStep::Keep }
    } else if is_close_key(key) {
        KeyOutcome { action: SettingsAction::Close, float_step: FloatStep::Keep }
    } else if key == Key::Char('q') {
        KeyOutcome { action: SettingsAction::Quit, float_step: FloatStep::Keep }
    } else {
        KeyOutcome { action: SettingsAction::KeepOpen, float_step: FloatStep::Keep }
    }
}

fn adjust_is_defined(s: &Settings, idx: usize, dir: i32, num_themes: usize) -> (b: bool)
    requires
        dir == 1 || dir == -1,
    ensures
        b == adjust_defined(*s, idx, dir as int, num_themes),
{
    if idx == 0 {
        if dir > 0 {
            num_themes > 0 && s.theme_idx < usize::MAX
        } else {
            s.theme_idx > 0 || num_themes > 0
        }
    } else if idx == 5 {
        let w = s.bar_width as i32;
        if dir > 0 { w < i32::MAX } else { w > i32::MIN }
    } else if idx == 6 {
        let w = s.bar_spacing as i32;
        if dir > 0 { w < i32::MAX } else { w > i32::MIN }
    } else if idx == 7 {
        let v = s.sensitivity as i32;
        if dir > 0 { v <= i32::MAX - 10 } else { v >= i32::MIN + 10 }
    } else {
        true
    }
}

impl SettingsState {
    /// Whether `handle_key` can take this key without an arithmetic failure.
    pub fn accepts(&self, key: Key, settings: &Settings, num_themes: usize) -> (b: bool)
        ensures
            b == key_defined(*self, key, *settings, num_themes),
    {
        let down = match key {
            Key::Down => true,
            Key::Char(c) => c == 'j',
            _ => false,
        };
        let left = match key {
            Key::Left => true,
            Key::Char(c) => c == 'h',
            _ => false,
        };
        let right = match key {
            Key::Right => true,
            Key::Char(c) => c == 'l',
            _ => false,
        };
        if down {
            self.selected < usize::MAX
        } else if left {
            adjust_is_defined(settings, self.selected, -1, num_themes)
        } else if right {
            adjust_is_defined(settings, self.selected, 1, num_themes)
        } else {
            true
        }
    }

    /// A fresh overlay with the cursor on the first row.
    pub fn new() -> (s: Self)
        ensures
            s.selected == 0,
            s.num_items == NUM_SETTINGS,
    {
        SettingsState { selected: 0, num_items: NUM_SETTINGS }
    }

    /// Handle a key: move the cursor (Up/Down, k/j), adjust the selected
    /// setting (Left/Right, h/l), toggle it (Enter/Space), close (Esc/s) or
    /// quit (q).
    pub fn handle_key(&mut self, key: Key, settings: &mut Settings, num_themes: usize) -> (out:
        KeyOutcome)
        requires
            key_defined(*old(self), key, *old(settings), num_themes),
        ensures
            *final(self) == state_after(*old(self), key),
            *final(settings) == settings_after(*old(self), key, *old(settings), num_themes),
            out == outcome_of(*old(self), key),
            // the floating-point rows step in the direction of the key
            (key == Key::Left || key == Key::Char('h')) && old(self).selected == 1 ==> out.float_step
                == FloatStep::Smoothing(-1i32),
            (key == Key::Right || key == Key::Char('l')) && old(self).selected == 1 ==> out.float_step
                == FloatStep::Smoothing(1i32),
            (key == Key::Left || key == Key::Char('h')) && old(self).selected == 3 ==> out.float_step
                == FloatStep::NoiseFloor(-1i32),
            (key == Key::Right || key == Key::Char('l')) && old(self).selected == 3 ==> out.float_step
                == FloatStep::NoiseFloor(1i32),
            old(self).selected != 1 && old(self).selected != 3 ==> out.float_step == FloatStep::Keep,
            // the integer rows move by one step within their ranges
            (key == Key::Right || key == Key::Char('l')) && old(self).selected == 5 && 1 <= old(settings).bar_width < 8 ==> final(settings).bar_width == old(settings).bar_width + 1,
            (key == Key::Left || key == Key::Char('h')) && old(self).selected == 5 && 1 < old(settings).bar_width <= 8 ==> final(settings).bar_width == old(settings).bar_width - 1,
            (key == Key::Right || key == Key::Char('l')) && old(self).selected == 6 && old(settings).bar_spacing < 4 ==> final(settings).bar_spacing == old(settings).bar_spacing + 1,
            (key == Key::Left || key == Key::Char('h')) && old(self).selected == 6 && 0 < old(settings).bar_spacing <= 4 ==> final(settings).bar_spacing == old(settings).bar_spacing - 1,
            (key == Key::Right || key == Key::Char('l')) && old(self).selected == 7 && 10 <= old(settings).sensitivity <= 490 ==> final(settings).sensitivity == old(settings).sensitivity + 10,
            (key == Key::Left || key == Key::Char('h')) && old(self).selected == 7 && 20 <= old(settings).sensitivity <= 500 ==> final(settings).sensitivity == old(settings).sensitivity - 10,
            // the theme row moves to the neighbouring theme, wrapping around
            (key == Key::Right || key == Key::Char('l')) && old(self).selected == 0 && old(settings).theme_idx + 1 < num_themes ==> final(settings).theme_idx == old(settings).theme_idx + 1,
            (key == Key::Right || key == Key::Char('l')) && old(self).selected == 0 && old(settings).theme_idx + 1 == num_themes ==> final(settings).theme_idx == 0,
            (key == Key::Left || key == Key::Char('h')) && old(self).selected == 0 && old(settings).theme_idx > 0 ==> final(settings).theme_idx == old(settings).theme_idx - 1,
            (key == Key::Left || key == Key::Char('h')) && old(self).selected == 0 && old(settings).theme_idx == 0 ==> final(settings).theme_idx == num_themes - 1,
            // the switches flip on Enter/Space and on Left/Right
            old(self).selected == 2 && (key == Key::Enter || key == Key::Char(' ') || key
                == Key::Left || key == Key::Right) ==> final(settings).monstercat
                == !old(settings).monstercat,
            old(self).selected == 4 && (key == Key::Enter || key == Key::Char(' ') || key
                == Key::Left || key == Key::Right) ==> final(settings).gradient_by_position
                == !old(settings).gradient_by_position,
            // the cursor moves by one row, within the rows
            (key == Key::Down || key == Key::Char('j')) && old(self).selected + 1 < old(self).num_items ==> final(self).selected == old(self).selected + 1,
            (key == Key::Up || key == Key::Char('k')) && old(self).selected > 0 ==> final(self).selected == old(self).selected - 1,
            // closing and quitting
            key == Key::Esc || key == Key::Char('s') ==> out.action == SettingsAction::Close,
            key == Key::Char('q') ==> out.action == SettingsAction::Quit,
            key != Key::Esc && key != Key::Char('s') && key != Key::Char('q') ==> out.action
                == SettingsAction::KeepOpen,
    {
        proof {
            if settings.theme_idx + 1 < num_themes {
                vstd::arithmetic::div_mod::lemma_small_mod(
                    (settings.theme_idx + 1) as nat,
                    num_themes as nat,
                );
            } else if settings.theme_idx + 1 == num_themes {
                vstd::arithmetic::div_mod::lemma_mod_self_0(num_themes as int);
            }
        }
        let up = match key {
            Key::Up => true,
            Key::Char(c) => c == 'k',
            _ => false,
        };
        let down = match key {
            Key::Down => true,
            Key::Char(c) => c == 'j',
            _ => false,
        };
        let left = match key {
            Key::Left => true,
            Key::Char(c) => c == 'h',
            _ => false,
        };
        let right = match key {
            Key::Right => true,
            Key::Char(c) => c == 'l',
            _ => false,
        };
        let toggle = match key {
            Key::Enter => true,
            Key::Char(c) => c == ' ',
            _ => false,
        };
        let close = match key {
            Key::Esc => true,
            Key::Char(c) => c == 's',
            _ => false,
        };
        let quit = match key {
            Key::Char(c) => c == 'q',
            _ => false,
        };
        let keep = KeyOutcome { action: SettingsAction::KeepOpen, float_step: FloatStep::Keep };
        if up {
            self.selected = if self.selected > 0 { self.selected - 1 } else { 0 };
            keep
        } else if down {
            if self.selected + 1 < self.num_items {
                self.selected = self.selected + 1;
            }
            keep
        } else if left {
            let step = adjust_setting(settings, self.selected, -1, num_themes);
            KeyOutcome { action: SettingsAction::KeepOpen, float_step: step }
        } else if right {
            let step = adjust_setting(settings, self.selected, 1, num_themes);
            KeyOutcome { action: SettingsAction::KeepOpen, float_step: step }
        } else if toggle {
            if self.selected == 2 {
                settings.monstercat = !settings.monstercat;
            } else if self.selected == 4 {
                settings.gradient_by_position = !settings.gradient_by_position;
            }
            keep
        } else if close {
            KeyOutcome { action: SettingsAction::Close, float_step: FloatStep::Keep }
        } else if quit {
            KeyOutcome { action: SettingsAction::Quit, float_step: FloatStep::Keep }
        } else {
            keep
        }
    }
}

/// The overlay cursor never leaves the rows: a key keeps it on a row when
/// it starts on one.
pub proof fn lemma_cursor_stays_on_rows(st: SettingsState, key: Key)
    requires
        st.selected < st.num_items,
    ensures
        state_after(st, key).selected < state_after(st, key).num_items,
        state_after(st, key).num_items == st.num_items,
{
}

/// Adjusting a row keeps the integer settings in their ranges: the theme
/// index below the number of themes (when it starts there), bar width in
/// 1–8, spacing in 0–4 and sensitivity in 10–500.
pub proof fn lemma_adjust_keeps_ranges(s: Settings, idx: usize, dir: int, num_themes: usize)
    requires
        dir == 1 || dir == -1,
        adjust_defined(s, idx, dir, num_themes),
        s.theme_idx < num_themes,
    ensures
        adjusted(s, idx, dir, num_themes).theme_idx < num_themes,
        idx == 5 ==> 1 <= adjusted(s, idx, dir, num_themes).bar_width <= 8,
        idx == 6 ==> adjusted(s, idx, dir, num_themes).bar_spacing <= 4,
        idx == 7 ==> 10 <= adjusted(s, idx, dir, num_themes).sensitivity <= 500,
{
}

/// Right then Left on the theme row gives back the theme one started with.
pub proof fn lemma_theme_step_undone(s: Settings, num_themes: usize)
    requires
        s.theme_idx < num_themes,
    ensures
        adjust_defined(s, 0, 1, num_themes),
        adjust_defined(adjusted(s, 0, 1, num_themes), 0, -1, num_themes),
        adjusted(adjusted(s, 0, 1, num_themes), 0, -1, num_themes) == s,
{
    let t = adjusted(s, 0, 1, num_themes);
    if s.theme_idx + 1 < num_themes {
        assert((s.theme_idx + 1) % (num_themes as int) == s.theme_idx + 1) by {
            vstd::arithmetic::div_mod::lemma_small_mod((s.theme_idx + 1) as nat, num_themes as nat);
        }
    } else {
        assert((s.theme_idx + 1) % (num_themes as int) == 0) by {
            vstd::arithmetic::div_mod::lemma_mod_self_0(num_themes as int);
        }
    }
}

/// Right then Left on an integer row strictly inside its range gives back
/// the value one started with; toggling a switch twice does too.
pub proof fn lemma_step_undone(s: Settings, idx: usize)
    requires
        idx == 2 || idx == 4 || (idx == 5 && 1 <= s.bar_width < 8) || (idx == 6 && s.bar_spacing < 4)
            || (idx == 7 && 10 <= s.sensitivity <= 490),
    ensures
        adjusted(adjusted(s, idx, 1, 1), idx, -1, 1) == s,
        idx == 2 || idx == 4 ==> adjusted(adjusted(s, idx, 1, 1), idx, 1, 1) == s,
{
    assert(s.bar_width < 8 ==> (s.bar_width as i32) == s.bar_width);
    assert(s.bar_spacing < 4 ==> (s.bar_spacing as i32) == s.bar_spacing);
    assert(s.sensitivity < 500 ==> (s.sensitivity as i32) == s.sensitivity);
    let t = adjusted(s, idx, 1, 1);
    assert(t.bar_width <= 8 ==> (t.bar_width as i32) == t.bar_width);
    assert(t.bar_spacing <= 4 ==> (t.bar_spacing as i32) == t.bar_spacing);
    assert(t.sensitivity <= 500 ==> (t.sensitivity as i32) == t.sensitivity);
}

/// Left and Right on the smoothing and noise-floor rows step those values
/// in the key's direction (Left down, Right up), so Right then Left
/// cancels; no other row asks for a floating-point step.
pub proof fn lemma_float_steps_follow_keys(st: SettingsState, key: Key)
    ensures
        st.selected == 1 ==> outcome_of(st, Key::Left).float_step == FloatStep::Smoothing(-1i32)
            && outcome_of(st, Key::Char('h')).float_step == FloatStep::Smoothing(-1i32)
            && outcome_of(st, Key::Right).float_step == FloatStep::Smoothing(1i32)
            && outcome_of(st, Key::Char('l')).float_step == FloatStep::Smoothing(1i32),
        st.selected == 3 ==> outcome_of(st, Key::Left).float_step == FloatStep::NoiseFloor(-1i32)
            && outcome_of(st, Key::Char('h')).float_step == FloatStep::NoiseFloor(-1i32)
            && outcome_of(st, Key::Right).float_step == FloatStep::NoiseFloor(1i32)
            && outcome_of(st, Key::Char('l')).float_step == FloatStep::NoiseFloor(1i32),
        st.selected != 1 && st.selected != 3 ==> outcome_of(st, key).float_step == FloatStep::Keep,
        key != Key::Left && key != Key::Right && key != Key::Char('h') && key != Key::Char('l')
            ==> outcome_of(st, key).float_step == FloatStep::Keep,
{
}

} // verus!
