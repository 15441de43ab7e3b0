//! The audio device selection menu.

use vstd::prelude::*;
use crate::keys::Key;

verus! {

/// Result of the device menu interaction.
#[derive(Clone, Debug)]
pub enum DeviceMenuResult {
    /// User selected a device (`None` = default device).
    Selected(Option<String>),
    /// User cancelled (Esc/d) — go back to the visualizer.
    Cancelled,
    /// User wants to quit entirely.
    Quit,
}

/// The inputs on which a menu key is handled without failure: the list must
/// leave room for the extra "default device" row, a move down must not
/// overflow the cursor, and Enter needs the cursor on an existing row.
pub open spec fn menu_key_defined(selected: usize, num_devices: nat, key: Key, is_press: bool) -> bool {
    &&& num_devices < usize::MAX
    &&& is_press && (key == Key::Down || key == Key::Char('j')) ==> selected < usize::MAX
    &&& is_press && key == Key::Enter ==> selected <= num_devices
}

/// Whether `device_menu_step` can take this key without failure.
pub fn menu_accepts(selected: usize, num_devices: usize, key: Key, is_press: bool) -> (b: bool)
    ensures
        b == menu_key_defined(selected, num_devices as nat, key, is_press),
{
    let down = match key {
        Key::Down => true,
        Key::Char(c) => c == 'j',
        _ => false,
    };
    let enter = match key {
        Key::Enter => true,
        _ => false,
    };
    num_devices < usize::MAX && (!(is_press && down) || selected < usize::MAX) && (!(is_press
        && enter) || selected <= num_devices)
}

/// The cursor after a key: rows are the default device followed by the
/// listed devices.
pub open spec fn menu_cursor_after(selected: usize, num_devices: nat, key: Key, is_press: bool) -> usize {
    if !is_press {
        selected
    } else if key == Key::Up || key == Key::Char('k') {
        if selected > 0 { (selected - 1) as usize } else { 0 }
    } else if (key == Key::Down || key == Key::Char('j')) && selected + 1 < num_devices + 1 {
        (selected + 1) as usize
    } else {
        selected
    }
}

/// How a key ends the menu, if it does.
pub open spec fn menu_result(selected: usize, devices: Seq<String>, key: Key, ctrl: bool, is_press: bool) -> Option<
    DeviceMenuResult,
> {
    if !is_press || key == Key::Up || key == Key::Char('k') || key == Key::Down || key == Key::Char(
        'j',
    ) {
        None
    } else if key == Key::Enter {
        if selected == 0 {
            Some(DeviceMenuResult::Selected(None))
        } else {
            Some(DeviceMenuResult::Selected(Some(devices[selected - 1])))
        }
    } else if key == Key::Esc || key == Key::Char('d') {
        Some(DeviceMenuResult::Cancelled)
    } else if key == Key::Char('q') || (key == Key::Char('c') && ctrl) {
        Some(DeviceMenuResult::Quit)
    } else {
        None
    }
}

/// Handle one key event in the device menu: move the cursor (Up/Down, k/j),
/// select (Enter), cancel (Esc/d) or quit (q, Ctrl+C).
pub fn device_menu_step(selected: &mut usize, devices: &[String], key: Key, ctrl: bool, is_press: bool) -> (r:
    Option<DeviceMenuResult>)
    requires
        menu_key_defined(*old(selected), devices@.len(), key, is_press),
    ensures
        *final(selected) == menu_cursor_after(*old(selected), devices@.len(), key, is_press),
        r == menu_result(*old(selected), devices@, key, ctrl, is_press),
        // Enter picks the row under the cursor: the default device on row 0,
        // the device listed on row k otherwise
        is_press && key == Key::Enter && *old(selected) == 0 ==> r == Some(
            DeviceMenuResult::Selected(None),
        ),
        is_press && key == Key::Enter && *old(selected) >= 1 ==> r == Some(
            DeviceMenuResult::Selected(Some(devices@[*old(selected) - 1])),
        ),
        is_press && key == Key::Enter ==> *final(selected) == *old(selected),
        // the cursor moves one row, and not past the last device
        is_press && (key == Key::Down || key == Key::Char('j')) && *old(selected) < devices@.len()
            ==> *final(selected) == *old(selected) + 1 && r is None,
        is_press && (key == Key::Up || key == Key::Char('k')) && *old(selected) > 0 ==> *final(selected) == *old(selected) - 1 && r is None,
        is_press && (key == Key::Down || key == Key::Char('j')) && *old(selected) == devices@.len()
            ==> *final(selected) == *old(selected),
        // Esc and `d` go back, `q` and Ctrl+C quit
        is_press && (key == Key::Esc || key == Key::Char('d')) ==> r == Some(
            DeviceMenuResult::Cancelled,
        ),
        is_press && (key == Key::Char('q') || (key == Key::Char('c') && ctrl)) ==> r == Some(
            DeviceMenuResult::Quit,
        ),
        !is_press ==> r is None && *final(selected) == *old(selected),
{
    if !is_press {
        return None;
    }
    let total = devices.len() + 1;
    match key {
        Key::Up => {
            *selected = if *selected > 0 { *selected - 1 } else { 0 };
            None
        },
        Key::Down => {
            if *selected + 1 < total {
                *selected = *selected + 1;
            }
            None
        },
        Key::Enter => {
            if *selected == 0 {
                Some(DeviceMenuResult::Selected(None))
            } else {
                Some(DeviceMenuResult::Selected(Some(devices[*selected - 1].clone())))
            }
        },
        Key::Esc => Some(DeviceMenuResult::Cancelled),
        Key::Char(c) => {
            if c == 'k' {
                *selected = if *selected > 0 { *selected - 1 } else { 0 };
                None
            } else if c == 'j' {
                if *selected + 1 < total {
                    *selected = *selected + 1;
                }
                None
            } else if c == 'd' {
                Some(DeviceMenuResult::Cancelled)
            } else if c == 'q' || (c == 'c' && ctrl) {
                Some(DeviceMenuResult::Quit)
            } else {
                None
            }
        },
        _ => None,
    }
}

/// The menu cursor stays on a row: the default device or a listed device.
pub proof fn lemma_menu_cursor_in_rows(selected: usize, num_devices: nat, key: Key, is_press: bool)
    requires
        selected <= num_devices,
        num_devices < usize::MAX,
    ensures
        menu_cursor_after(selected, num_devices, key, is_press) <= num_devices,
{
}

/// Enter selects the device on the cursor's row: row 0 is the default
/// device and row `k` the `k`-th listed device, so different rows give
/// different devices whenever the listed names differ.
pub proof fn lemma_enter_selects_row(devices: Seq<String>, row: usize, other: usize, ctrl: bool)
    requires
        row <= devices.len(),
        other <= devices.len(),
    ensures
        row == 0 ==> menu_result(row, devices, Key::Enter, ctrl, true) == Some(
            DeviceMenuResult::Selected(None),
        ),
        row >= 1 ==> menu_result(row, devices, Key::Enter, ctrl, true) == Some(
            DeviceMenuResult::Selected(Some(devices[row - 1])),
        ),
        row >= 1 && other >= 1 && devices[row - 1] != devices[other - 1] ==> menu_result(
            row,
            devices,
            Key::Enter,
            ctrl,
            true,
        ) != menu_result(other, devices, Key::Enter, ctrl, true),
{
}

} // verus!
