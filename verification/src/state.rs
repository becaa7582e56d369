//! What a session shows: the transport, the volume, the tags of the current
//! track and the listing of the queue.

use crate::queue::{Queue, QueueView};
use crate::track::{shown, Lilac, LilacView};
use vstd::prelude::*;

verus! {

/// Loudest volume, in percent.
pub const MAX_VOLUME: u16 = 100;

/// Percent by which one press changes the volume.
pub const VOLUME_STEP: u16 = 1;

/// The volume `step` percent above `level`, held at the loudest.
pub open spec fn louder(level: nat, step: nat) -> nat {
    if level + step > MAX_VOLUME {
        MAX_VOLUME as nat
    } else {
        level + step
    }
}

/// The volume `step` percent below `level`, held at silence.
pub open spec fn quieter(level: nat, step: nat) -> nat {
    if step > level {
        0
    } else {
        (level - step) as nat
    }
}

/// Volume in percent, never above `MAX_VOLUME`.
#[derive(Debug, Clone, Copy, PartialEq, Eq)]
pub struct VolumeState(pub u16);

impl VolumeState {
    /// The volume is no louder than the loudest.
    pub open spec fn wf(self) -> bool {
        self.0 <= MAX_VOLUME
    }

    /// Turns the volume up by `step` percent, no further than the loudest.
    pub fn raise(&mut self, step: u16)
        ensures
            final(self).0 == louder(old(self).0 as nat, step as nat),
            final(self).wf(),
    {
        if self.0 >= MAX_VOLUME || step > MAX_VOLUME - self.0 {
            self.0 = MAX_VOLUME;
        } else {
            self.0 = self.0 + step;
        }
    }

    /// Turns the volume down by `step` percent, no further than silence.
    pub fn lower(&mut self, step: u16)
        ensures
            final(self).0 == quieter(old(self).0 as nat, step as nat),
            old(self).wf() ==> final(self).wf(),
    {
        if step > self.0 {
            self.0 = 0;
        } else {
            self.0 = self.0 - step;
        }
    }
}

/// The volume after `presses` presses upward of `step` percent each.
pub open spec fn raised_by(level: nat, step: nat, presses: nat) -> nat
    decreases presses,
{
    if presses == 0 {
        level
    } else {
        louder(raised_by(level, step, (presses - 1) as nat), step)
    }
}

/// The volume after `presses` presses downward of `step` percent each.
pub open spec fn lowered_by(level: nat, step: nat, presses: nat) -> nat
    decreases presses,
{
    if presses == 0 {
        level
    } else {
        quieter(lowered_by(level, step, (presses - 1) as nat), step)
    }
}

/// However often it is turned up, the volume stays at or below the loudest,
/// and never falls.
pub proof fn raising_stays_in_range(level: nat, step: nat, presses: nat)
    requires
        level <= MAX_VOLUME,
    ensures
        level <= raised_by(level, step, presses) <= MAX_VOLUME,
    decreases presses,
{
    if presses > 0 {
        raising_stays_in_range(level, step, (presses - 1) as nat);
    }
}

/// However often it is turned down, the volume stays at or above silence,
/// and never rises.
pub proof fn lowering_stays_in_range(level: nat, step: nat, presses: nat)
    ensures
        0 <= lowered_by(level, step, presses) <= level,
    decreases presses,
{
    if presses > 0 {
        lowering_stays_in_range(level, step, (presses - 1) as nat);
    }
}

/// Whether the session plays, how far it showed the track played at the
/// last tick, and how long the track is; both in nanoseconds.
#[derive(Debug, Clone, Copy, PartialEq, Eq)]
pub struct PlaybackState {
    pub playing: bool,
    pub played: u128,
    pub duration: u128,
}

/// Transport and volume.
#[derive(Debug, Clone, Copy, PartialEq, Eq)]
pub struct ControlsState {
    pub playback: PlaybackState,
    pub volume: VolumeState,
}

/// Tags and sample format of a track, as shown.
#[derive(Debug, Clone, PartialEq, Eq)]
pub struct MetadataState {
    pub title: String,
    pub artist: String,
    pub album: String,
    pub channels: u16,
    pub sample_rate: u32,
    pub bit_depth: u32,
}

/// The listing of the queue and the place of the current song in it.
#[derive(Debug, Clone, PartialEq, Eq)]
pub struct QueueState {
    pub queue: Vec<String>,
    pub current: usize,
}

/// The current track and the queue.
#[derive(Debug, Clone, PartialEq, Eq)]
pub struct InfoState {
    pub metadata: MetadataState,
    pub queue: QueueState,
}

/// All that a session shows.
#[derive(Debug, Clone, PartialEq, Eq)]
pub struct State {
    pub controls: ControlsState,
    pub info: InfoState,
}

impl MetadataState {
    /// The tags shown are those of `track`, "Unknown" standing for a tag
    /// that the track lacks.
    pub open spec fn shows(self, track: LilacView) -> bool {
        &&& self.title@ == shown(track.title)
        &&& self.artist@ == shown(track.artist)
        &&& self.album@ == shown(track.album)
        &&& self.channels == track.channels
        &&& self.sample_rate == track.sample_rate
        &&& self.bit_depth == track.bit_depth
    }

    /// The tags and the sample format of `l`, as shown.
    pub fn read(l: &Lilac) -> (m: MetadataState)
        ensures
            m.shows(l@),
    {
        MetadataState {
            title: l.title().to_owned(),
            artist: l.artist().to_owned(),
            album: l.album().to_owned(),
            channels: l.channels,
            sample_rate: l.sample_rate,
            bit_depth: l.bit_depth,
        }
    }
}

impl QueueState {
    /// The names of the entries, in order.
    pub open spec fn names(self) -> Seq<Seq<char>> {
        Seq::new(self.queue@.len(), |i: int| self.queue@[i]@)
    }
}

impl InfoState {
    /// The tags are those of the current song of `q`, the listing names
    /// every song of `q` in order, and the place marked is the cursor's.
    pub open spec fn shows(self, q: QueueView) -> bool {
        &&& self.metadata.shows(q.songs[q.cursor as int].track)
        &&& self.queue.names() == q.names()
        &&& self.queue.current == q.cursor
    }

    /// The current track of `q` and its listing.
    pub fn read(q: &Queue) -> (info: InfoState)
        requires
            q@.wf(),
            q@.songs.len() > 0,
        ensures
            info.shows(q@),
    {
        let el = q.current();
        let info = InfoState {
            metadata: MetadataState::read(el.lilac),
            queue: QueueState { queue: q.files(), current: el.idx },
        };
        assert(info.queue.names() =~= q@.names());
        info
    }
}

} // verus!
