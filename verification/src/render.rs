//! What stands on the screen for a state of the session: one value for each
//! panel, made of the state alone. Drawing these values leaves the state as
//! it is.

use crate::session::NANOS_PER_SECOND;
use crate::state::{
    ControlsState, InfoState, MetadataState, PlaybackState, QueueState, State, VolumeState,
};
use crate::text::{decimal, digits, pad_left, padded};
use crate::track::{shown, Lilac, LilacView};
use vstd::prelude::*;
use vstd::string::StringExecFns;

verus! {

/// The transport row: whether the session plays, how much of the progress
/// gauge is filled (`filled` parts of `span`), and the time played.
#[derive(Debug, Clone, PartialEq, Eq)]
pub struct PlaybackPanel {
    pub label: String,
    pub filled: u128,
    pub span: u128,
    pub timestamp: String,
}

/// The volume gauge and the number beside it.
#[derive(Debug, Clone, PartialEq, Eq)]
pub struct VolumePanel {
    pub percent: u16,
    pub level: String,
}

/// The row of controls: transport and volume.
#[derive(Debug, Clone, PartialEq, Eq)]
pub struct ControlsPanel {
    pub playback: PlaybackPanel,
    pub volume: VolumePanel,
}

/// The tags of the current track, one text for each piece of the panel.
/// Each piece after the first begins with the line breaks that part it
/// from the piece before.
#[derive(Debug, Clone, PartialEq, Eq)]
pub struct MetadataPanel {
    pub title: String,
    pub artist: String,
    pub album: String,
    pub format: String,
}

/// The listing of the queue and the entry that is lit.
#[derive(Debug, Clone, PartialEq, Eq)]
pub struct QueuePanel {
    pub items: Vec<String>,
    pub selected: usize,
}

/// The panels on the current track and on the queue.
#[derive(Debug, Clone, PartialEq, Eq)]
pub struct InfoPanel {
    pub metadata: MetadataPanel,
    pub queue: QueuePanel,
}

/// A whole screen.
#[derive(Debug, Clone, PartialEq, Eq)]
pub struct Frame {
    pub controls: ControlsPanel,
    pub info: InfoPanel,
}

/// The label of the transport row.
pub open spec fn label_text(playing: bool) -> Seq<char> {
    if playing {
        "PLAY  "@
    } else {
        "PAUSE "@
    }
}

/// How much of the progress gauge is filled, as parts of a span that is
/// never zero: the time played out of the length of the track, and all of
/// it once the track has played to its end.
pub open spec fn gauge(played: nat, duration: nat) -> (nat, nat) {
    if played >= duration {
        (1, 1)
    } else {
        (played, duration)
    }
}

/// Minutes and seconds played, each with two digits at least.
pub open spec fn timestamp_text(played: nat) -> Seq<char> {
    let seconds = played / (NANOS_PER_SECOND as nat);
    " "@ + padded(digits(seconds / 60), 2, '0') + ":"@ + padded(digits(seconds % 60), 2, '0')
}

/// The volume as a number of three characters at least.
pub open spec fn level_text(level: nat) -> Seq<char> {
    " "@ + padded(digits(level), 3, ' ')
}

/// The word for a number of channels.
pub open spec fn layout_text(channels: u16) -> Seq<char> {
    if channels == 1 {
        "mono"@
    } else if channels == 2 {
        "stereo"@
    } else {
        "polyphonic"@
    }
}

/// The line on the sample format.
pub open spec fn format_text(bit_depth: u32, channels: u16, sample_rate: u32) -> Seq<char> {
    "\n\n"@ + digits(bit_depth as nat) + " bits "@ + layout_text(channels) + " at "@ + digits(
        sample_rate as nat,
    ) + " Hz"@
}

/// The line that says which track begins to play.
pub open spec fn announcement_text(track: LilacView) -> Seq<char> {
    "Now playing "@ + shown(track.title) + " by "@ + shown(track.artist) + " on "@ + shown(
        track.album,
    )
}

/// The line that says that `lilac` begins to play.
pub fn announcement(lilac: &Lilac) -> (line: String)
    ensures
        line@ == announcement_text(lilac@),
{
    let mut line = String::from_str("Now playing ");
    line.append(lilac.title());
    line.append(" by ");
    line.append(lilac.artist());
    line.append(" on ");
    line.append(lilac.album());
    line
}

/// The gauge is filled between nothing and all of it.
pub proof fn gauge_is_a_fraction(played: nat, duration: nat)
    ensures
        0 <= gauge(played, duration).0 <= gauge(played, duration).1,
        gauge(played, duration).1 > 0,
        played < duration ==> gauge(played, duration) == (played, duration),
        played >= duration ==> gauge(played, duration).0 == gauge(played, duration).1,
{
}

impl PlaybackPanel {
    /// The row shows `s`: the label says whether it plays, the gauge and
    /// the timestamp say how far.
    pub open spec fn shows(self, s: PlaybackState) -> bool {
        &&& self.label@ == label_text(s.playing)
        &&& (self.filled as nat, self.span as nat) == gauge(s.played as nat, s.duration as nat)
        &&& self.timestamp@ == timestamp_text(s.played as nat)
    }
}

impl VolumePanel {
    /// The gauge is filled to the volume, and the number beside it says
    /// it.
    pub open spec fn shows(self, s: VolumeState) -> bool {
        &&& self.percent == s.0
        &&& self.level@ == level_text(s.0 as nat)
    }
}

impl ControlsPanel {
    /// Transport and volume each show their part of `s`.
    pub open spec fn shows(self, s: ControlsState) -> bool {
        &&& self.playback.shows(s.playback)
        &&& self.volume.shows(s.volume)
    }
}

impl MetadataPanel {
    /// The title as it is, artist and album each on a line of its own, and
    /// the line on the sample format after an empty line.
    pub open spec fn shows(self, s: MetadataState) -> bool {
        &&& self.title@ == s.title@
        &&& self.artist@ == "\n"@ + s.artist@
        &&& self.album@ == "\n"@ + s.album@
        &&& self.format@ == format_text(s.bit_depth, s.channels, s.sample_rate)
    }
}

impl QueuePanel {
    /// Every entry of the listing in order, and the current one lit.
    pub open spec fn shows(self, s: QueueState) -> bool {
        &&& self.items@.len() == s.queue@.len()
        &&& forall|i: int| 0 <= i < self.items@.len() ==> (#[trigger] self.items@[i])@ == s.queue@[i]@
        &&& self.selected == s.current
    }
}

impl InfoPanel {
    /// Tags and listing each show their part of `s`.
    pub open spec fn shows(self, s: InfoState) -> bool {
        &&& self.metadata.shows(s.metadata)
        &&& self.queue.shows(s.queue)
    }
}

impl Frame {
    /// Every panel shows its part of `s`.
    pub open spec fn shows(self, s: State) -> bool {
        &&& self.controls.shows(s.controls)
        &&& self.info.shows(s.info)
    }
}

/// The screen for the state `s`.
pub fn draw(s: &State) -> (frame: Frame)
    ensures
        frame.shows(*s),
{
    Frame { controls: draw_controls(&s.controls), info: draw_info(&s.info) }
}

/// The row of controls for `s`.
pub fn draw_controls(s: &ControlsState) -> (panel: ControlsPanel)
    ensures
        panel.shows(*s),
{
    ControlsPanel { playback: draw_playback(&s.playback), volume: draw_volume(&s.volume) }
}

/// The transport row for `s`.
pub fn draw_playback(s: &PlaybackState) -> (panel: PlaybackPanel)
    ensures
        panel.shows(*s),
{
    let label = if s.playing {
        String::from_str("PLAY  ")
    } else {
        String::from_str("PAUSE ")
    };
    let (filled, span) = if s.played >= s.duration {
        (1, 1)
    } else {
        (s.played, s.duration)
    };
    let played = s.played / NANOS_PER_SECOND;
    let minutes = pad_left(decimal(played / 60).as_str(), 2, '0');
    let seconds = pad_left(decimal(played % 60).as_str(), 2, '0');
    let mut timestamp = String::from_str(" ");
    timestamp.append(minutes.as_str());
    timestamp.append(":");
    timestamp.append(seconds.as_str());
    PlaybackPanel { label, filled, span, timestamp }
}

/// The volume gauge and its number for `s`.
pub fn draw_volume(s: &VolumeState) -> (panel: VolumePanel)
    ensures
        panel.shows(*s),
{
    let number = pad_left(decimal(s.0 as u128).as_str(), 3, ' ');
    let mut level = String::from_str(" ");
    level.append(number.as_str());
    VolumePanel { percent: s.0, level }
}

/// The panels on the track and the queue for `s`.
pub fn draw_info(s: &InfoState) -> (panel: InfoPanel)
    ensures
        panel.shows(*s),
{
    InfoPanel { metadata: draw_metadata(&s.metadata), queue: draw_queue(&s.queue) }
}

/// The word for a number of channels.
pub fn layout(channels: u16) -> (word: &'static str)
    ensures
        word@ == layout_text(channels),
{
    if channels == 1 {
        "mono"
    } else if channels == 2 {
        "stereo"
    } else {
        "polyphonic"
    }
}

/// The texts on the tags and the sample format for `s`.
pub fn draw_metadata(s: &MetadataState) -> (panel: MetadataPanel)
    ensures
        panel.shows(*s),
{
    let mut artist = String::from_str("\n");
    artist.append(s.artist.as_str());
    let mut album = String::from_str("\n");
    album.append(s.album.as_str());
    let mut format = String::from_str("\n\n");
    format.append(decimal(s.bit_depth as u128).as_str());
    format.append(" bits ");
    format.append(layout(s.channels));
    format.append(" at ");
    format.append(decimal(s.sample_rate as u128).as_str());
    format.append(" Hz");
    MetadataPanel { title: s.title.clone(), artist, album, format }
}

/// The listing for `s`, with the current entry lit.
pub fn draw_queue(s: &QueueState) -> (panel: QueuePanel)
    ensures
        panel.shows(*s),
{
    let mut items: Vec<String> = Vec::new();
    let mut i: usize = 0;
    while i < s.queue.len()
        invariant
            i <= s.queue.len(),
            items@.len() == i,
            forall|k: int| 0 <= k < i ==> (#[trigger] items@[k])@ == s.queue@[k]@,
        decreases s.queue.len() - i,
    {
        items.push(s.queue[i].clone());
        i = i + 1;
    }
    QueuePanel { items, selected: s.current }
}

} // verus!
