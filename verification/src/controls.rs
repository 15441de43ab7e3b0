//! Decisions of the main loop: what a key does in the main view and in the
//! settings overlay, how many bars fit the terminal, and the startup clamps.

use vstd::prelude::*;
use crate::keys::Action;
use crate::modes::{Mode, next_mode};
use crate::settings::{
    Settings,
    SettingsState,
    SettingsAction,
    FloatStep,
    key_defined,
    outcome_of,
    settings_after,
    state_after,
    NUM_SETTINGS,
};
use crate::keys::{Key, key_action};

verus! {

/// Fewest bars ever drawn.
pub const MIN_BARS: usize = 4;

/// Step of the sensitivity keys, in percent.
pub const SENS_STEP: u32 = 10;

/// What the main loop does after handling input.
#[derive(Clone, Copy, Debug, PartialEq, Eq, Structural)]
pub enum LoopAction {
    /// Go on to draw this frame.
    Continue,
    /// Skip the rest of this frame.
    Skip,
    /// Leave the main loop.
    Quit,
}

/// Interactive work the caller performs for an action.
#[derive(Clone, Copy, Debug, PartialEq, Eq, Structural)]
pub enum Request {
    Nothing,
    /// Show the device menu and act on its result.
    DeviceMenu,
    /// Show the help overlay until a key is pressed.
    Help,
}

/// The outcome of an action in the main view.
#[derive(Clone, Copy, Debug, PartialEq, Eq, Structural)]
pub struct NormalStep {
    pub flow: LoopAction,
    /// Persist the settings and mode.
    pub save: bool,
    /// Clear the bar history.
    pub reset_bars: bool,
    pub request: Request,
}

pub open spec fn step(flow: LoopAction, save: bool, reset_bars: bool, request: Request) -> NormalStep {
    NormalStep { flow, save, reset_bars, request }
}

/// The inputs on which an action is handled without overflow.
pub open spec fn action_defined(action: Action, s: Settings, num_themes: usize) -> bool {
    &&& action == Action::CycleTheme ==> num_themes > 0 && s.theme_idx < usize::MAX
    &&& action == Action::SensUp ==> s.sensitivity + SENS_STEP <= u32::MAX
    &&& action == Action::FewerBars ==> s.bar_width < usize::MAX
}

/// Whether `handle_normal_action` can take this action without overflow.
pub fn action_accepted(action: Action, s: &Settings, num_themes: usize) -> (b: bool)
    ensures
        b == action_defined(action, *s, num_themes),
{
    match action {
        Action::CycleTheme => num_themes > 0 && s.theme_idx < usize::MAX,
        Action::SensUp => s.sensitivity <= u32::MAX - SENS_STEP,
        Action::FewerBars => s.bar_width < usize::MAX,
        _ => true,
    }
}

/// The settings after an action of the main view: the theme key moves to
/// the next theme (after the last comes the first), the sensitivity keys
/// move it by 10 within 10–500, the bar keys move the bar width by one
/// within 1–8.
pub open spec fn settings_after_action(action: Action, s: Settings, num_themes: usize) -> Settings {
    match action {
        Action::CycleTheme => Settings {
            theme_idx: ((s.theme_idx + 1) % (num_themes as int)) as usize,
            ..s
        },
        Action::SensUp => Settings {
            sensitivity: if s.sensitivity + SENS_STEP < 500 {
                (s.sensitivity + SENS_STEP) as u32
            } else {
                500
            },
            ..s
        },
        Action::SensDown => Settings {
            sensitivity: if s.sensitivity >= 20 { (s.sensitivity - SENS_STEP) as u32 } else { 10 },
            ..s
        },
        Action::MoreBars => Settings {
            bar_width: if s.bar_width >= 2 { (s.bar_width - 1) as usize } else { 1 },
            ..s
        },
        Action::FewerBars => Settings {
            bar_width: if s.bar_width + 1 < 8 { (s.bar_width + 1) as usize } else { 8 },
            ..s
        },
        _ => s,
    }
}

/// What the main loop does for an action.
pub open spec fn normal_step_of(action: Action) -> NormalStep {
    match action {
        Action::Idle => step(LoopAction::Continue, false, false, Request::Nothing),
        Action::Quit => step(LoopAction::Quit, false, false, Request::Nothing),
        Action::CycleMode => step(LoopAction::Skip, true, true, Request::Nothing),
        Action::SelectDevice => step(LoopAction::Skip, false, false, Request::DeviceMenu),
        Action::Settings => step(LoopAction::Continue, false, false, Request::Nothing),
        Action::Help => step(LoopAction::Skip, false, false, Request::Help),
        _ => step(LoopAction::Skip, true, false, Request::Nothing),
    }
}

/// Handle an action of the main view: cycle the mode, open the settings
/// overlay, change sensitivity or bar width, or ask for a menu.
pub fn handle_normal_action(
    action: Action,
    mode: &mut Mode,
    settings: &mut Settings,
    settings_state: &mut Option<SettingsState>,
    num_themes: usize,
) -> (r: NormalStep)
    requires
        action_defined(action, *old(settings), num_themes),
    ensures
        r == normal_step_of(action),
        *final(mode) == if action == Action::CycleMode { next_mode(*old(mode)) } else { *old(mode) },
        *final(settings) == settings_after_action(action, *old(settings), num_themes),
        *final(settings_state) == if action == Action::Settings {
            Some(SettingsState { selected: 0, num_items: NUM_SETTINGS })
        } else {
            *old(settings_state)
        },
        // Up raises the sensitivity by one step, capped at 500
        action == Action::SensUp ==> final(settings).sensitivity == if old(settings).sensitivity
            + 10 <= 500 {
            old(settings).sensitivity + 10
        } else {
            500
        },
        // Down lowers it by one step, but not below 10
        action == Action::SensDown ==> final(settings).sensitivity == if old(settings).sensitivity
            >= 20 {
            old(settings).sensitivity - 10
        } else {
            10
        },
        // narrower bars (one column less, at least one), wider bars (one
        // column more, at most eight)
        action == Action::MoreBars ==> final(settings).bar_width == if old(settings).bar_width
            >= 2 {
            old(settings).bar_width - 1
        } else {
            1
        },
        action == Action::FewerBars ==> final(settings).bar_width == if old(settings).bar_width
            + 1 <= 8 {
            old(settings).bar_width + 1
        } else {
            8
        },
        // the theme key moves to the next theme, after the last to the first
        action == Action::CycleTheme && old(settings).theme_idx + 1 < num_themes ==> final(settings).theme_idx
            == old(settings).theme_idx + 1,
        action == Action::CycleTheme && old(settings).theme_idx + 1 == num_themes ==> final(settings).theme_idx
            == 0,
        // every action that changes a setting or the mode asks for a save
        *final(settings) != *old(settings) || *final(mode) != *old(mode) ==> r.save,
{
    proof {
        if settings.theme_idx + 1 < num_themes {
            vstd::arithmetic::div_mod::lemma_small_mod((settings.theme_idx + 1) as nat, num_themes as nat);
        } else if settings.theme_idx + 1 == num_themes {
            vstd::arithmetic::div_mod::lemma_mod_self_0(num_themes as int);
        }
    }
    match action {
        Action::Idle => NormalStep {
            flow: LoopAction::Continue,
            save: false,
            reset_bars: false,
            request: Request::Nothing,
        },
        Action::Quit => NormalStep {
            flow: LoopAction::Quit,
            save: false,
            reset_bars: false,
            request: Request::Nothing,
        },
        Action::CycleMode => {
            *mode = mode.next();
            NormalStep { flow: LoopAction::Skip, save: true, reset_bars: true, request: Request::Nothing }
        },
        Action::CycleTheme => {
            settings.theme_idx = (settings.theme_idx + 1) % num_themes;
            NormalStep { flow: LoopAction::Skip, save: true, reset_bars: false, request: Request::Nothing }
        },
        Action::SelectDevice => NormalStep {
            flow: LoopAction::Skip,
            save: false,
            reset_bars: false,
            request: Request::DeviceMenu,
        },
        Action::Settings => {
            *settings_state = Some(SettingsState::new());
            NormalStep {
                flow: LoopAction::Continue,
                save: false,
                reset_bars: false,
                request: Request::Nothing,
            }
        },
        Action::Help => NormalStep {
            flow: LoopAction::Skip,
            save: false,
            reset_bars: false,
            request: Request::Help,
        },
        Action::SensUp => {
            let v = settings.sensitivity + SENS_STEP;
            settings.sensitivity = if v < 500 { v } else { 500 };
            NormalStep { flow: LoopAction::Skip, save: true, reset_bars: false, request: Request::Nothing }
        },
        Action::SensDown => {
            let v = if settings.sensitivity >= SENS_STEP { settings.sensitivity - SENS_STEP } else { 0 };
            settings.sensitivity = if v > 10 { v } else { 10 };
            NormalStep { flow: LoopAction::Skip, save: true, reset_bars: false, request: Request::Nothing }
        },
        Action::MoreBars => {
            let w = if settings.bar_width >= 1 { settings.bar_width - 1 } else { 0 };
            settings.bar_width = if w > 1 { w } else { 1 };
            NormalStep { flow: LoopAction::Skip, save: true, reset_bars: false, request: Request::Nothing }
        },
        Action::FewerBars => {
            let w = settings.bar_width + 1;
            settings.bar_width = if w < 8 { w } else { 8 };
            NormalStep { flow: LoopAction::Skip, save: true, reset_bars: false, request: Request::Nothing }
        },
    }
}

/// Up raises and Down lowers the sensitivity by one step while it is inside
/// 10–500, and one step up followed by one step down gives it back; the bar
/// keys do the same for the bar width inside 1–8.
pub proof fn lemma_sensitivity_and_width_steps(s: Settings, num_themes: usize)
    ensures
        s.sensitivity < 500 ==> settings_after_action(Action::SensUp, s, num_themes).sensitivity
            > s.sensitivity,
        s.sensitivity < 500 ==> settings_after_action(Action::SensUp, s, num_themes).sensitivity
            <= s.sensitivity + 10,
        s.sensitivity > 10 ==> settings_after_action(Action::SensDown, s, num_themes).sensitivity
            < s.sensitivity,
        s.sensitivity >= 10 ==> settings_after_action(Action::SensDown, s, num_themes).sensitivity
            >= s.sensitivity - 10,
        10 <= s.sensitivity <= 490 ==> settings_after_action(
            Action::SensDown,
            settings_after_action(Action::SensUp, s, num_themes),
            num_themes,
        ) == s,
        s.bar_width < 8 ==> settings_after_action(Action::FewerBars, s, num_themes).bar_width
            == s.bar_width + 1,
        s.bar_width > 1 ==> settings_after_action(Action::MoreBars, s, num_themes).bar_width
            == s.bar_width - 1,
        1 <= s.bar_width < 8 ==> settings_after_action(
            Action::MoreBars,
            settings_after_action(Action::FewerBars, s, num_themes),
            num_themes,
        ) == s,
{
}

/// The keys of the main view keep the bar width in 1–8, the sensitivity
/// in 10–500 and the theme index among the themes once they are there.
pub proof fn lemma_main_keys_keep_ranges(action: Action, s: Settings, num_themes: usize)
    requires
        1 <= s.bar_width <= 8,
        10 <= s.sensitivity <= 500,
        s.theme_idx < num_themes,
    ensures
        1 <= settings_after_action(action, s, num_themes).bar_width <= 8,
        10 <= settings_after_action(action, s, num_themes).sensitivity <= 500,
        settings_after_action(action, s, num_themes).theme_idx < num_themes,
{
}

/// What the keys of the main view do: Right and `-` widen the bars by one
/// column and Left and `+` narrow them, Up raises and Down lowers the
/// sensitivity, `t` moves to the next theme, `m` to the next mode; `d`, `?`
/// and `s` open the device menu, the help and the settings; a release does
/// nothing.
pub proof fn lemma_main_view_keys(s: Settings, num_themes: usize, ctrl: bool, key: Key)
    ensures
        1 <= s.bar_width < 8 ==> settings_after_action(key_action(Key::Right, ctrl, true), s, num_themes).bar_width
            == s.bar_width + 1 && settings_after_action(key_action(Key::Char('-'), ctrl, true), s, num_themes).bar_width
            == s.bar_width + 1,
        1 < s.bar_width <= 8 ==> settings_after_action(key_action(Key::Left, ctrl, true), s, num_themes).bar_width
            == s.bar_width - 1 && settings_after_action(key_action(Key::Char('+'), ctrl, true), s, num_themes).bar_width
            == s.bar_width - 1,
        10 <= s.sensitivity <= 490 ==> settings_after_action(key_action(Key::Up, ctrl, true), s, num_themes).sensitivity
            == s.sensitivity + 10,
        20 <= s.sensitivity <= 500 ==> settings_after_action(key_action(Key::Down, ctrl, true), s, num_themes).sensitivity
            == s.sensitivity - 10,
        s.theme_idx + 1 < num_themes ==> settings_after_action(key_action(Key::Char('t'), ctrl, true), s, num_themes).theme_idx
            == s.theme_idx + 1,
        s.theme_idx + 1 == num_themes ==> settings_after_action(key_action(Key::Char('t'), ctrl, true), s, num_themes).theme_idx
            == 0,
        key_action(Key::Char('m'), ctrl, true) == Action::CycleMode,
        normal_step_of(key_action(Key::Char('m'), ctrl, true)).reset_bars,
        normal_step_of(key_action(Key::Char('d'), ctrl, true)).request == Request::DeviceMenu,
        normal_step_of(key_action(Key::Char('?'), ctrl, true)).request == Request::Help,
        key_action(Key::Char('s'), ctrl, true) == Action::Settings,
        normal_step_of(key_action(key, ctrl, false)) == step(LoopAction::Continue, false, false, Request::Nothing),
        settings_after_action(key_action(key, ctrl, false), s, num_themes) == s,
{
    if s.theme_idx + 1 < num_themes {
        vstd::arithmetic::div_mod::lemma_small_mod((s.theme_idx + 1) as nat, num_themes as nat);
    } else if s.theme_idx + 1 == num_themes {
        vstd::arithmetic::div_mod::lemma_mod_self_0(num_themes as int);
    }
}

/// The settings after `k` presses of the theme key.
pub open spec fn theme_presses(s: Settings, num_themes: usize, k: nat) -> Settings
    decreases k,
{
    if k == 0 {
        s
    } else {
        settings_after_action(Action::CycleTheme, theme_presses(s, num_themes, (k - 1) as nat), num_themes)
    }
}

proof fn lemma_theme_presses(s: Settings, num_themes: usize, k: nat)
    requires
        s.theme_idx < num_themes,
    ensures
        theme_presses(s, num_themes, k) == (Settings {
            theme_idx: ((s.theme_idx + k) % (num_themes as int)) as usize,
            ..s
        }),
    decreases k,
{
    let n = num_themes as int;
    if k > 0 {
        lemma_theme_presses(s, num_themes, (k - 1) as nat);
        vstd::arithmetic::div_mod::lemma_mod_pos_bound(s.theme_idx + k - 1, n);
        vstd::arithmetic::div_mod::lemma_add_mod_noop_right(1, s.theme_idx + k - 1, n);
        assert(1 + (s.theme_idx + k - 1) == s.theme_idx + k);
    } else {
        vstd::arithmetic::div_mod::lemma_small_mod(s.theme_idx as nat, num_themes as nat);
    }
}

/// Pressing the theme key once per theme comes back to the theme one
/// started with; every press in between shows another theme.
pub proof fn lemma_theme_key_cycles(s: Settings, num_themes: usize, k: nat)
    requires
        s.theme_idx < num_themes,
    ensures
        theme_presses(s, num_themes, num_themes as nat) == s,
        0 < k < num_themes ==> theme_presses(s, num_themes, k).theme_idx != s.theme_idx,
{
    let n = num_themes as int;
    lemma_theme_presses(s, num_themes, num_themes as nat);
    vstd::arithmetic::div_mod::lemma_mod_add_multiples_vanish(s.theme_idx as int, n);
    vstd::arithmetic::div_mod::lemma_small_mod(s.theme_idx as nat, num_themes as nat);
    assert(s.theme_idx + n == n + s.theme_idx);
    lemma_theme_presses(s, num_themes, k);
    if 0 < k < num_themes {
        if s.theme_idx + k < n {
            vstd::arithmetic::div_mod::lemma_small_mod((s.theme_idx + k) as nat, num_themes as nat);
        } else {
            vstd::arithmetic::div_mod::lemma_mod_add_multiples_vanish(s.theme_idx + k - n, n);
            vstd::arithmetic::div_mod::lemma_small_mod((s.theme_idx + k - n) as nat, num_themes as nat);
            assert(n + (s.theme_idx + k - n) == s.theme_idx + k);
        }
    }
}

/// Every action of the main view that changes a setting or the mode asks
/// for the configuration to be saved.
pub proof fn lemma_changes_are_saved(action: Action, s: Settings, num_themes: usize)
    ensures
        settings_after_action(action, s, num_themes) != s || action == Action::CycleMode ==> normal_step_of(
            action,
        ).save,
{
}

/// The outcome of a key in the settings overlay.
#[derive(Clone, Copy, Debug, PartialEq, Eq, Structural)]
pub struct SettingsStep {
    pub flow: LoopAction,
    /// Persist the settings and mode.
    pub save: bool,
    /// A step of a floating-point setting for the caller to apply.
    pub float_step: FloatStep,
}

/// Whether the settings overlay is open and a key arrived for it.
pub open spec fn overlay_has_key(settings_state: Option<SettingsState>, key: Option<Key>) -> bool {
    settings_state is Some && key is Some
}

/// Handle input while the settings overlay may be open.  Closing the overlay
/// saves; every key that keeps it open or closes it makes the selected
/// theme current; `q` quits.
pub fn handle_settings_input(
    settings_state: &mut Option<SettingsState>,
    settings: &mut Settings,
    theme_idx: &mut usize,
    key: Option<Key>,
    num_themes: usize,
) -> (r: SettingsStep)
    requires
        overlay_has_key(*old(settings_state), key) ==> key_defined(
            old(settings_state)->0,
            key->0,
            *old(settings),
            num_themes,
        ),
    ensures
        !overlay_has_key(*old(settings_state), key) ==> {
            &&& r == (SettingsStep { flow: LoopAction::Continue, save: false, float_step: FloatStep::Keep })
            &&& *final(settings_state) == *old(settings_state)
            &&& *final(settings) == *old(settings)
            &&& *final(theme_idx) == *old(theme_idx)
        },
        overlay_has_key(*old(settings_state), key) ==> {
            let st = old(settings_state)->0;
            let k = key->0;
            let out = outcome_of(st, k);
            &&& *final(settings) == settings_after(st, k, *old(settings), num_themes)
            &&& r.float_step == out.float_step
            &&& out.action == SettingsAction::Quit ==> {
                &&& r.flow == LoopAction::Quit
                &&& !r.save
                &&& *final(theme_idx) == *old(theme_idx)
                &&& *final(settings_state) == Some(state_after(st, k))
            }
            &&& out.action == SettingsAction::Close ==> {
                &&& r.flow == LoopAction::Continue
                &&& r.save
                &&& *final(theme_idx) == final(settings).theme_idx
                &&& *final(settings_state) == None::<SettingsState>
            }
            &&& out.action == SettingsAction::KeepOpen ==> {
                &&& r.flow == LoopAction::Continue
                &&& !r.save
                &&& *final(theme_idx) == final(settings).theme_idx
                &&& *final(settings_state) == Some(state_after(st, k))
            }
        },
{
    let keep = SettingsStep { flow: LoopAction::Continue, save: false, float_step: FloatStep::Keep };
    match key {
        None => keep,
        Some(k) => {
            match settings_state {
                None => keep,
                Some(st) => {
                    let out = st.handle_key(k, settings, num_themes);
                    match out.action {
                        SettingsAction::Close => {
                            *theme_idx = settings.theme_idx;
                            *settings_state = None;
                            SettingsStep {
                                flow: LoopAction::Continue,
                                save: true,
                                float_step: out.float_step,
                            }
                        },
                        SettingsAction::Quit => SettingsStep {
                            flow: LoopAction::Quit,
                            save: false,
                            float_step: out.float_step,
                        },
                        SettingsAction::KeepOpen => {
                            *theme_idx = settings.theme_idx;
                            SettingsStep {
                                flow: LoopAction::Continue,
                                save: false,
                                float_step: out.float_step,
                            }
                        },
                    }
                },
            }
        },
    }
}

/// The number of bars that fill a terminal of `term_width` columns (minus
/// the border) with bars of `bar_width` columns `bar_spacing` apart, but at
/// least `MIN_BARS`.
pub open spec fn bars_for_width(term_width: u16, bar_width: usize, bar_spacing: usize) -> int {
    let inner: int = if term_width >= 2 { term_width - 2 } else { 0 };
    let stride: int = bar_width + bar_spacing;
    let fit: int = if stride > 0 { (inner + bar_spacing) / stride } else { inner };
    if fit > MIN_BARS { fit } else { MIN_BARS as int }
}

/// Columns inside the border of a terminal `term_width` columns wide.
pub open spec fn inner_width(term_width: u16) -> int {
    if term_width >= 2 { term_width - 2 } else { 0 }
}

/// The number of bars to draw: a configured count (at least `MIN_BARS`),
/// or, when the configured count is 0, as many as fill the terminal.
pub open spec fn bars_to_draw(term_width: u16, bar_width: usize, bar_spacing: usize, configured: usize) -> int {
    if configured > 0 {
        if configured > MIN_BARS { configured as int } else { MIN_BARS as int }
    } else {
        bars_for_width(term_width, bar_width, bar_spacing)
    }
}

/// Compute how many bars to draw: the configured count, or for a count of 0
/// as many as the terminal width holds.
pub fn bar_count(term_width: u16, bar_width: usize, bar_spacing: usize, configured: usize) -> (n: usize)
    requires
        configured == 0 ==> bar_width + bar_spacing <= usize::MAX,
        configured == 0 && bar_width + bar_spacing > 0 ==> inner_width(term_width) + bar_spacing
            <= usize::MAX,
    ensures
        n == bars_to_draw(term_width, bar_width, bar_spacing, configured),
        n >= MIN_BARS,
{
    if configured > 0 {
        return if configured > MIN_BARS { configured } else { MIN_BARS };
    }
    let inner: usize = if term_width >= 2 { (term_width - 2) as usize } else { 0 };
    let stride = bar_width + bar_spacing;
    let fit = if stride > 0 { (inner + bar_spacing) / stride } else { inner };
    if fit > MIN_BARS { fit } else { MIN_BARS }
}

/// Bars never overflow the terminal and fill it: whenever more than
/// `MIN_BARS` bars fit, the `n` bars of `bar_width` columns with `n - 1`
/// gaps of `bar_spacing` columns take at most the inner width, and one bar
/// more would not fit.
pub proof fn lemma_bars_fit(term_width: u16, bar_width: usize, bar_spacing: usize)
    requires
        bars_for_width(term_width, bar_width, bar_spacing) > MIN_BARS,
    ensures
        ({
            let n = bars_for_width(term_width, bar_width, bar_spacing);
            let inner: int = if term_width >= 2 { term_width - 2 } else { 0 };
            n * bar_width + (n - 1) * bar_spacing <= inner
        }),
        bar_width + bar_spacing > 0 ==> ({
            let n = bars_for_width(term_width, bar_width, bar_spacing);
            let inner: int = if term_width >= 2 { term_width - 2 } else { 0 };
            (n + 1) * bar_width + n * bar_spacing > inner
        }),
{
    let n = bars_for_width(term_width, bar_width, bar_spacing);
    let inner: int = if term_width >= 2 { term_width - 2 } else { 0 };
    let stride: int = bar_width + bar_spacing;
    if stride > 0 {
        assert(n == (inner + bar_spacing) / stride);
        vstd::arithmetic::div_mod::lemma_fundamental_div_mod(inner + bar_spacing, stride);
        assert(n * stride <= inner + bar_spacing < n * stride + stride) by {
            vstd::arithmetic::div_mod::lemma_mod_pos_bound(inner + bar_spacing, stride);
        }
        assert((n + 1) * bar_width + n * bar_spacing == n * stride + stride - bar_spacing) by (nonlinear_arith)
            requires
                stride == bar_width + bar_spacing,
        ;
        assert(n * bar_width + (n - 1) * bar_spacing == n * stride - bar_spacing) by (nonlinear_arith)
            requires
                stride == bar_width + bar_spacing,
        ;
    } else {
        assert(n * bar_width + (n - 1) * bar_spacing == 0) by (nonlinear_arith)
            requires
                bar_width == 0,
                bar_spacing == 0,
        ;
    }
}

/// Clamp a bar width to 1–8 columns.
pub fn clamp_bar_width(w: usize) -> (r: usize)
    ensures
        r == clamp_usize(w, 1, 8),
{
    if w < 1 { 1 } else if w > 8 { 8 } else { w }
}

/// Clamp a bar spacing to 0–4 columns.
pub fn clamp_bar_spacing(s: usize) -> (r: usize)
    ensures
        r == clamp_usize(s, 0, 4),
{
    if s > 4 { 4 } else { s }
}

pub open spec fn clamp_usize(v: usize, lo: usize, hi: usize) -> usize {
    if v < lo { lo } else if v > hi { hi } else { v }
}

/// The runtime settings built from the saved configuration: bar width,
/// spacing and sensitivity are clamped to their ranges.
pub fn initial_settings(
    monstercat: bool,
    theme_idx: usize,
    gradient_by_position: bool,
    bar_width: usize,
    bar_spacing: usize,
    sensitivity: u32,
) -> (s: Settings)
    ensures
        s == (Settings {
            monstercat,
            theme_idx,
            gradient_by_position,
            bar_width: clamp_usize(bar_width, 1, 8),
            bar_spacing: clamp_usize(bar_spacing, 0, 4),
            sensitivity: if sensitivity < 10 { 10 } else if sensitivity > 500 { 500 } else { sensitivity },
        }),
{
    Settings {
        monstercat,
        theme_idx,
        gradient_by_position,
        bar_width: clamp_bar_width(bar_width),
        bar_spacing: clamp_bar_spacing(bar_spacing),
        sensitivity: if sensitivity < 10 { 10 } else if sensitivity > 500 { 500 } else { sensitivity },
    }
}

/// Milliseconds per frame for a target frame rate (at least one frame per
/// second).
pub fn frame_millis(fps: u64) -> (ms: u64)
    ensures
        ms == 1000u64 / (if fps > 0 { fps } else { 1u64 }),
{
    let f = if fps > 0 { fps } else { 1 };
    1000 / f
}

} // verus!
