//! Choice of the audio source: the system-audio tap or an input device.

use vstd::prelude::*;

verus! {

/// Label used in the device menu for system audio capture.
pub const SYSTEM_AUDIO_LABEL: &'static str = "System Audio (ScreenCaptureKit)";

/// Sample rate requested from the system-audio tap.
pub const DEFAULT_SAMPLE_RATE: u32 = 48000;

/// Which capture to start.
#[derive(Clone, Debug)]
pub enum CaptureRequest {
    /// Start the system-audio tap at this sample rate.
    Tap { sample_rate: u32 },
    /// Open the named input device.
    Device(String),
}

/// Whether a device choice means the system-audio tap: no choice, the
/// system-audio menu label, or the word `system`.
pub open spec fn means_system_audio(device: Option<Seq<char>>) -> bool {
    match device {
        None => true,
        Some(d) => d == SYSTEM_AUDIO_LABEL@ || d == "system"@,
    }
}

pub open spec fn option_view(device: Option<&str>) -> Option<Seq<char>> {
    match device {
        None => None,
        Some(d) => Some(d@),
    }
}

/// Decide how to capture audio for a device choice.
pub fn capture_request(device: Option<&str>) -> (r: CaptureRequest)
    ensures
        means_system_audio(option_view(device)) ==> r == (CaptureRequest::Tap {
            sample_rate: 48000,
        }),
        !means_system_audio(option_view(device)) ==> (r matches CaptureRequest::Device(name)
            && Some(name@) == option_view(device)),
{
    match device {
        None => CaptureRequest::Tap { sample_rate: DEFAULT_SAMPLE_RATE },
        Some(d) => {
            let owned = d.to_owned();
            if owned == SYSTEM_AUDIO_LABEL.to_owned() || owned == "system".to_owned() {
                CaptureRequest::Tap { sample_rate: DEFAULT_SAMPLE_RATE }
            } else {
                CaptureRequest::Device(owned)
            }
        },
    }
}

/// The name shown for a device chosen in the menu: the device, or the
/// system-audio label for the default choice.
pub fn device_display_name(choice: Option<String>) -> (name: String)
    ensures
        name@ == match choice {
            Some(d) => d@,
            None => SYSTEM_AUDIO_LABEL@,
        },
{
    match choice {
        Some(d) => d,
        None => SYSTEM_AUDIO_LABEL.to_owned(),
    }
}

/// The device list offered to the user: the input devices, preceded by the
/// system-audio entry when the tap is available.
pub fn with_system_audio(devices: Vec<String>, tap_available: bool) -> (list: Vec<String>)
    ensures
        tap_available ==> list@.len() == devices@.len() + 1 && list@[0]@ == SYSTEM_AUDIO_LABEL@
            && list@.skip(1) == devices@,
        !tap_available ==> list@ == devices@,
{
    if tap_available {
        let mut list: Vec<String> = Vec::new();
        list.push(SYSTEM_AUDIO_LABEL.to_owned());
        let mut i: usize = 0;
        while i < devices.len()
            invariant
                i <= devices@.len(),
                list@.len() == i + 1,
                list@[0]@ == SYSTEM_AUDIO_LABEL@,
                forall|k: int| 0 <= k < i ==> list@[k + 1] == devices@[k],
            decreases devices@.len() - i,
        {
            list.push(devices[i].clone());
            i += 1;
        }
        assert(list@.skip(1) =~= devices@);
        list
    } else {
        devices
    }
}

/// Audio is considered stale after this long without new samples (100 ms).
pub const STALE_AUDIO_NANOS: u128 = 100_000_000;

/// Cooldown between tap restart attempts (2 s).
pub const RESTART_COOLDOWN_NANOS: u128 = 2_000_000_000;

/// What the health check of the audio capture asks for.
#[derive(Clone, Copy, Debug, PartialEq, Eq, Structural)]
pub struct HealthStep {
    /// Zero the sample windows: no samples arrived for too long.
    pub zero_buffers: bool,
    /// Restart the capture: the tap exited and the cooldown has passed.
    pub restart: bool,
}

/// Decide on stale audio and a dead tap, from the time since the last
/// samples arrived, whether the tap process exited, and the time since the
/// last restart attempt (none yet: `None`), all in nanoseconds.
pub fn audio_health(since_write_nanos: u128, tap_exited: bool, since_restart_nanos: Option<u128>) -> (h:
    HealthStep)
    ensures
        // stale after 100 ms without samples
        h.zero_buffers == (since_write_nanos > 100_000_000),
        // a dead tap is restarted at most once every 2 s
        h.restart == (tap_exited && match since_restart_nanos {
            None => true,
            Some(t) => t >= 2_000_000_000,
        }),
{
    let cooled = match since_restart_nanos {
        None => true,
        Some(t) => t >= RESTART_COOLDOWN_NANOS,
    };
    HealthStep { zero_buffers: since_write_nanos > STALE_AUDIO_NANOS, restart: tap_exited && cooled }
}

} // verus!
