//! Change detection over the three polled audio signals: render-device
//! volume, render-device mute, capture-device mute.
//!
//! The manager keeps a `{previous, current}` pair for each signal, mutated
//! only by an explicit refresh that moves `current` to `previous` and takes
//! the freshly queried values. Querying the audio backend itself happens
//! outside the library; a refresh is handed the result as an
//! `AudioSnapshot`. A signal whose query failed is absent (`None`), a
//! recoverable condition, never a hard failure.

use vstd::prelude::*;

verus! {

/// One round of audio-backend queries: the render device's volume (0-100)
/// and mute state and the capture device's mute state, each absent when the
/// query failed.
#[derive(Clone, Copy, PartialEq, Eq, Structural, Debug)]
pub struct AudioSnapshot {
    pub volume: Option<u8>,
    pub output_mute: Option<bool>,
    pub input_mute: Option<bool>,
}

/// The `{previous, current}` pairs for the three polled signals.
#[derive(Clone, Copy, PartialEq, Eq, Structural, Debug)]
pub struct VolumeManager {
    pub previous_vol: Option<u8>,
    pub current_vol: Option<u8>,
    pub prev_mute: Option<bool>,
    pub curr_mute: Option<bool>,
    pub prev_mic_mute: Option<bool>,
    pub curr_mic_mute: Option<bool>,
}

/// A signal changed iff both samples are present and unequal; the changed
/// query then yields the current value. The first sample of a signal
/// (previous absent) is never reported as a change.
pub open spec fn changed_u8(prev: Option<u8>, curr: Option<u8>) -> Option<u8> {
    if prev is Some && curr is Some && prev != curr {
        curr
    } else {
        None
    }
}

/// See `changed_u8`; the same rule for a boolean signal.
pub open spec fn changed_bool(prev: Option<bool>, curr: Option<bool>) -> Option<bool> {
    if prev is Some && curr is Some && prev != curr {
        curr
    } else {
        None
    }
}

/// A manager with no samples yet.
pub open spec fn spec_fresh_manager() -> VolumeManager {
    VolumeManager {
        previous_vol: None,
        current_vol: None,
        prev_mute: None,
        curr_mute: None,
        prev_mic_mute: None,
        curr_mic_mute: None,
    }
}

/// The manager after one refresh: every `current` moves to `previous`, the
/// snapshot's values become `current`.
pub open spec fn spec_refreshed(vm: VolumeManager, s: AudioSnapshot) -> VolumeManager {
    VolumeManager {
        previous_vol: vm.current_vol,
        current_vol: s.volume,
        prev_mute: vm.curr_mute,
        curr_mute: s.output_mute,
        prev_mic_mute: vm.curr_mic_mute,
        curr_mic_mute: s.input_mute,
    }
}

impl VolumeManager {
    /// A manager with no samples yet.
    pub fn new() -> (vm: VolumeManager)
        ensures
            vm == spec_fresh_manager(),
    {
        VolumeManager {
            previous_vol: None,
            current_vol: None,
            prev_mute: None,
            curr_mute: None,
            prev_mic_mute: None,
            curr_mic_mute: None,
        }
    }

    /// Take one round of freshly queried values: each `current` becomes
    /// `previous`, the snapshot fills `current`.
    pub fn refresh(&mut self, s: &AudioSnapshot)
        ensures
            *final(self) == spec_refreshed(*old(self), *s),
    {
        self.previous_vol = self.current_vol;
        self.current_vol = s.volume;
        self.prev_mute = self.curr_mute;
        self.curr_mute = s.output_mute;
        self.prev_mic_mute = self.curr_mic_mute;
        self.curr_mic_mute = s.input_mute;
    }

    /// The render volume, if it changed between the last two samples.
    pub fn get_vol_if_changed(&self) -> (r: Option<u8>)
        ensures
            r == changed_u8(self.previous_vol, self.current_vol),
    {
        match (self.previous_vol, self.current_vol) {
            (Some(prev), Some(curr)) if prev != curr => Some(curr),
            _ => None,
        }
    }

    /// The render mute state, if it changed between the last two samples.
    pub fn get_mute_if_changed(&self) -> (r: Option<bool>)
        ensures
            r == changed_bool(self.prev_mute, self.curr_mute),
    {
        match (self.prev_mute, self.curr_mute) {
            (Some(prev), Some(curr)) if prev != curr => Some(curr),
            _ => None,
        }
    }

    /// The capture mute state, if it changed between the last two samples.
    pub fn get_mic_mute_if_changed(&self) -> (r: Option<bool>)
        ensures
            r == changed_bool(self.prev_mic_mute, self.curr_mic_mute),
    {
        match (self.prev_mic_mute, self.curr_mic_mute) {
            (Some(prev), Some(curr)) if prev != curr => Some(curr),
            _ => None,
        }
    }

    /// The capture mute state the backend should now be set to, to toggle
    /// it: the negation of the current sample. Without a current sample the
    /// manager first refreshes from `fresh`; if the capture mute state is
    /// still unknown there is no target, a recoverable condition.
    pub fn toggle_mic_mute(&mut self, fresh: &AudioSnapshot) -> (target: Option<bool>)
        ensures
            old(self).curr_mic_mute matches Some(m) ==> *final(self) == *old(self) && target
                == Some(!m),
            old(self).curr_mic_mute is None ==> *final(self) == spec_refreshed(*old(self), *fresh)
                && target == (match fresh.input_mute {
                Some(m) => Some(!m),
                None => None,
            }),
    {
        match self.curr_mic_mute {
            Some(m) => Some(!m),
            None => {
                self.refresh(fresh);
                match self.curr_mic_mute {
                    Some(m) => Some(!m),
                    None => None,
                }
            },
        }
    }
}

/// After the first refresh of a fresh manager no signal reports a change,
/// whatever the snapshot holds: absence of a previous sample is never a
/// change.
pub proof fn lemma_first_sample_is_no_change(s: AudioSnapshot)
    ensures
        changed_u8(
            spec_refreshed(spec_fresh_manager(), s).previous_vol,
            spec_refreshed(spec_fresh_manager(), s).current_vol,
        ) is None,
        changed_bool(
            spec_refreshed(spec_fresh_manager(), s).prev_mute,
            spec_refreshed(spec_fresh_manager(), s).curr_mute,
        ) is None,
        changed_bool(
            spec_refreshed(spec_fresh_manager(), s).prev_mic_mute,
            spec_refreshed(spec_fresh_manager(), s).curr_mic_mute,
        ) is None,
{
}

} // verus!
