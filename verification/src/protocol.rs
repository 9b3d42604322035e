//! Messages exchanged between the phone remote, the daemon and the browser
//! extension.
//!
//! Positions and durations travel as 64-bit floating point numbers on the
//! wire. The library never computes with them, so it carries each one as
//! the bit pattern of that number (`f64::to_bits`), which the JSON layer
//! turns back into the number unchanged.

use vstd::prelude::*;

verus! {

/// Commands sent from the phone remote to the extension through the daemon.
#[derive(Debug, Clone, PartialEq, Eq, Structural)]
pub enum Command {
    PlayPause,
    Next,
    /// Seek forward by a number of seconds (bit pattern of an `f64`).
    SeekForward { seconds_bits: u64 },
    /// Seek backward by a number of seconds (bit pattern of an `f64`).
    SeekBackward { seconds_bits: u64 },
    VolumeUp,
    VolumeDown,
    SetVolume { level: u8 },
}

/// Playback state sent from the extension to the daemon, and forwarded by
/// the daemon to every connected phone remote.
#[derive(Debug, Clone)]
pub struct MediaState {
    /// Which site is currently active, e.g. "netflix", "youtube".
    pub site: String,
    /// Whether media is currently playing.
    pub is_playing: bool,
    /// Title of the current content.
    pub title: String,
    /// Current playback position in seconds (bit pattern of an `f64`).
    pub current_time_bits: u64,
    /// Total duration in seconds (bit pattern of an `f64`).
    pub duration_bits: u64,
    /// Volume level 0-100.
    pub volume: u8,
}

/// The state shown before the extension has reported anything.
pub open spec fn is_default_media_state(s: MediaState) -> bool {
    &&& s.site@ == "unknown"@
    &&& !s.is_playing
    &&& s.title@ == "Nothing playing"@
    &&& s.current_time_bits == 0
    &&& s.duration_bits == 0
    &&& s.volume == 50
}

impl MediaState {
    /// A copy of this state, field for field.
    pub fn duplicate(&self) -> (copy: MediaState)
        ensures
            copy == *self,
    {
        MediaState {
            site: self.site.clone(),
            is_playing: self.is_playing,
            title: self.title.clone(),
            current_time_bits: self.current_time_bits,
            duration_bits: self.duration_bits,
            volume: self.volume,
        }
    }
}

impl Default for MediaState {
    /// Nothing playing on an unknown site, at position zero, volume 50.
    /// (The bit pattern 0 is the number 0.0.)
    fn default() -> (s: MediaState)
        ensures
            is_default_media_state(s),
    {
        MediaState {
            site: String::from_str("unknown"),
            is_playing: false,
            title: String::from_str("Nothing playing"),
            current_time_bits: 0,
            duration_bits: 0,
            volume: 50,
        }
    }
}

} // verus!
