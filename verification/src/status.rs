//! Playback status as one immutable snapshot per successful poll.

use vstd::prelude::*;

verus! {

/// Playback state of the daemon.
#[derive(Clone, Copy, Debug, PartialEq, Eq, Structural)]
pub enum PlayState {
    /// A track is playing.
    Play,
    /// Playback is paused.
    Pause,
    /// Playback is stopped.
    Stop,
}

/// One read of the daemon's playback status. A snapshot is immutable: a
/// successful poll supersedes it wholesale, a failed poll leaves it as it is.
#[derive(Clone, Copy, Debug)]
pub struct PlaybackSnapshot {
    /// Playback state.
    pub state: PlayState,
    /// Queue position of the current song, when there is one.
    pub song: Option<usize>,
    /// Queue position of the next song to play, when one is queued.
    pub nextsong: Option<usize>,
    /// Elapsed play time of the current song, in milliseconds.
    pub elapsed: Option<i64>,
    /// Total duration of the current song, in milliseconds.
    pub duration: Option<i64>,
    /// Volume, 0 to 100, or -1 when unavailable.
    pub volume: i8,
    /// Repeat toggle.
    pub repeat: bool,
    /// Random toggle.
    pub random: bool,
    /// Single toggle.
    pub single: bool,
    /// Consume toggle.
    pub consume: bool,
}

/// The rotator phase that follows the current one when nothing special is
/// shown: the next-up preview when a next song exists, else the status
/// summary.
pub open spec fn more_of(s: PlaybackSnapshot) -> int {
    if s.nextsong is Some {
        2
    } else {
        3
    }
}

/// A snapshot the core can act on: it names a current song, and every
/// position it reports lies inside the queue.
pub open spec fn snap_ok(s: PlaybackSnapshot, qlen: int) -> bool {
    &&& s.song is Some
    &&& s.song->0 < qlen
    &&& (s.nextsong is Some ==> s.nextsong->0 < qlen)
}

/// Resolve the `more` phase of a snapshot.
pub fn more_phase(s: &PlaybackSnapshot) -> (m: u8)
    ensures
        m as int == more_of(*s),
{
    if s.nextsong.is_some() {
        2
    } else {
        3
    }
}

} // verus!
