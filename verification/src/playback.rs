//! Decisions of the radio replay feature: how long a finished clip lasts, what a seek request
//! does to the playing clip, and when the recorder runs.

use vstd::prelude::*;
use crate::radio::RadioState;

verus! {

/// The length recorded for a finished clip: the length the recording logic reports unless it
/// reports none (or zero), then the length the writer measured.
pub fn clip_duration_ms(measured_ms: u64, reported_ms: Option<u64>) -> (r: u64)
    ensures
        r == match reported_ms {
            Some(d) if d != 0 => d,
            _ => measured_ms,
        },
{
    match reported_ms {
        Some(d) if d != 0 => d,
        _ => measured_ms,
    }
}

/// What a seek request does to the playing clip.
#[derive(Debug, Clone, Copy, PartialEq, Eq, Structural)]
pub enum Seek {
    Skip { millis: u64 },
    Rewind { millis: u64 },
}

/// A seek of `millis` milliseconds: forward when positive, back when negative, nothing at zero.
pub fn seek_action(millis: i64) -> (r: Option<Seek>)
    ensures
        millis == 0 ==> r is None,
        millis > 0 ==> r == Some(Seek::Skip { millis: millis as u64 }),
        millis < 0 ==> r == Some(Seek::Rewind { millis: (-millis) as u64 }),
{
    if millis == 0 {
        None
    } else if millis > 0 {
        Some(Seek::Skip { millis: millis as u64 })
    } else {
        let magnitude: u64 = if millis == i64::MIN {
            9_223_372_036_854_775_808u64
        } else {
            (-millis) as u64
        };
        Some(Seek::Rewind { millis: magnitude })
    }
}

/// Whether a radio integration in `state` is up, so that an enabled recorder can start on it.
pub fn radio_is_up(state: RadioState) -> (r: bool)
    ensures
        r == !(state is NotConfigured || state is Disconnected),
{
    !matches!(state, RadioState::NotConfigured | RadioState::Disconnected)
}

/// What turning replay on or off does.
#[derive(Debug, Clone, Copy, PartialEq, Eq, Structural)]
pub enum ReplaySwitch {
    /// The setting already has this value: nothing is saved or started.
    Unchanged,
    /// Save the setting and start the recorder on the running radio.
    StartRecorder,
    /// Save the setting; the recorder starts once a radio comes up.
    WaitForRadio,
    /// Save the setting and shut the running recorder down.
    StopRecorder,
}

/// Turning replay to `enabled` when it was `current`, with the radio in `radio` (if any).
pub fn replay_switch(current: bool, enabled: bool, radio: Option<RadioState>) -> (r: ReplaySwitch)
    ensures
        current == enabled ==> r == ReplaySwitch::Unchanged,
        current != enabled && !enabled ==> r == ReplaySwitch::StopRecorder,
        current != enabled && enabled ==> r == (match radio {
            Some(s) if !(s is NotConfigured || s is Disconnected) => ReplaySwitch::StartRecorder,
            _ => ReplaySwitch::WaitForRadio,
        }),
{
    if current == enabled {
        ReplaySwitch::Unchanged
    } else if !enabled {
        ReplaySwitch::StopRecorder
    } else {
        match radio {
            Some(s) => {
                if radio_is_up(s) {
                    ReplaySwitch::StartRecorder
                } else {
                    ReplaySwitch::WaitForRadio
                }
            },
            None => ReplaySwitch::WaitForRadio,
        }
    }
}

} // verus!
