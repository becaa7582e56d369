//! The transport of a playback session: what each key press and each tick
//! does to the queue, the clock and the controls, and what the audio sink
//! is to be told.

use crate::clock::Clock;
use crate::queue::{Queue, QueueView};
use crate::state::{
    louder, quieter, ControlsState, InfoState, PlaybackState, State, VolumeState, MAX_VOLUME,
    VOLUME_STEP,
};
use crate::stopwatch::{Stopwatch, StopwatchView};
use crate::track::LilacView;
use vstd::prelude::*;

verus! {

/// Nanoseconds in a millisecond.
pub const NANOS_PER_MILLI: u128 = 1_000_000;

/// Nanoseconds in a second.
pub const NANOS_PER_SECOND: u128 = 1_000_000_000;

/// A press of the back key this soon into a track goes to the track before;
/// a later one starts the track over.
pub const RESTART_AFTER: u128 = 2_000_000_000;

/// A key of the keyboard, as far as a session tells keys apart.
#[derive(Debug, Clone, Copy, PartialEq, Eq)]
pub enum Key {
    Space,
    Right,
    Left,
    Up,
    Down,
    Esc,
    Other,
}

impl Key {
    /// The key that types `c`: the space bar for a space, and a key without
    /// meaning to a session for anything else.
    pub fn from_char(c: char) -> (key: Key)
        ensures
            key == (if c == ' ' {
                Key::Space
            } else {
                Key::Other
            }),
    {
        if c == ' ' {
            Key::Space
        } else {
            Key::Other
        }
    }
}

/// What a session waits for: a key press, or the tick of the timer.
#[derive(Debug, Clone, Copy, PartialEq, Eq)]
pub enum Event {
    Input(Key),
    Tick,
}

/// What is to be done to the audio sink after an event.
#[derive(Debug, Clone, Copy, PartialEq, Eq)]
pub enum Command {
    /// Leave the sink as it is.
    Nothing,
    /// Let the sink go on playing.
    Play,
    /// Hold the sink.
    Pause,
    /// Set the sink to this volume, in percent.
    Volume(u16),
    /// Stop the sink and make a new one: at the session's volume, with the
    /// stream of the current track, playing or held as the session is.
    Reload,
    /// End the session.
    Quit,
}

/// Why a session cannot begin on a queue.
#[derive(Debug, Clone, Copy, PartialEq, Eq)]
pub enum Refusal {
    /// The queue holds no song.
    Empty,
    /// No stream can be made of one of the songs.
    Unplayable,
}

/// Length of a track's stream in nanoseconds.
pub open spec fn length_of(track: LilacView) -> nat {
    track.millis() * (NANOS_PER_MILLI as nat)
}

/// A session as plain values.
pub struct SessionView {
    pub queue: QueueView,
    pub clock: StopwatchView,
    pub playing: bool,
    pub played: nat,
    pub duration: nat,
    pub volume: nat,
}

impl SessionView {
    /// The cursor is on a song, a stream can be made of every song, the
    /// clock runs exactly while the session plays, the volume is in range,
    /// and the length is that of the current track.
    pub open spec fn wf(self) -> bool {
        &&& self.queue.wf()
        &&& self.queue.songs.len() > 0
        &&& self.queue.playable()
        &&& self.clock.wf()
        &&& self.clock.running == self.playing
        &&& self.volume <= MAX_VOLUME
        &&& self.duration == length_of(self.current())
    }

    /// The track under the cursor.
    pub open spec fn current(self) -> LilacView {
        self.queue.songs[self.queue.cursor as int].track
    }

    /// The session as it begins on `queue`: held, at the start of the
    /// current track, at full volume.
    pub open spec fn begin(queue: QueueView, now: nat) -> SessionView {
        SessionView {
            queue,
            clock: StopwatchView { time: 0, started: now, running: false },
            playing: false,
            played: 0,
            duration: length_of(queue.songs[queue.cursor as int].track),
            volume: MAX_VOLUME as nat,
        }
    }

    /// The session at the start of the track that the cursor is on: nothing
    /// played, the clock at zero, playing or held as before.
    pub open spec fn reloaded(self, now: nat) -> SessionView {
        SessionView {
            queue: self.queue,
            clock: self.clock.reset(now),
            playing: self.playing,
            played: 0,
            duration: length_of(self.current()),
            volume: self.volume,
        }
    }

    /// Play becomes pause and pause becomes play, the clock with it.
    pub open spec fn toggled(self, now: nat) -> SessionView {
        SessionView {
            clock: if self.playing {
                self.clock.stop(now)
            } else {
                self.clock.start(now)
            },
            playing: !self.playing,
            ..self
        }
    }

    /// There is a song after the current one.
    pub open spec fn has_next(self) -> bool {
        self.queue.cursor + 1 < self.queue.songs.len()
    }

    /// On to the next song, where there is one.
    pub open spec fn skipped_forward(self, now: nat) -> SessionView {
        if self.has_next() {
            (SessionView { queue: self.queue.next(), ..self }).reloaded(now)
        } else {
            self
        }
    }

    /// Back to the song before where the current one has played for less
    /// than `RESTART_AFTER`; to the start of the current one otherwise, and
    /// on the first song.
    pub open spec fn skipped_back(self, now: nat) -> SessionView {
        if self.clock.elapsed(now) < RESTART_AFTER {
            (SessionView { queue: self.queue.prev(), ..self }).reloaded(now)
        } else {
            self.reloaded(now)
        }
    }

    /// The current track has played to its end.
    pub open spec fn track_over(self, now: nat) -> bool {
        self.playing && self.clock.elapsed(now) >= self.duration
    }

    /// The tick of the timer: the time played is read off the clock. Where
    /// the track is over, the next one begins; after the last one the
    /// session is held at the start of the first.
    pub open spec fn ticked(self, now: nat) -> SessionView {
        if !self.track_over(now) {
            SessionView { played: self.clock.elapsed(now), ..self }
        } else if self.has_next() {
            (SessionView { queue: self.queue.next(), ..self }).reloaded(now)
        } else {
            (SessionView {
                queue: self.queue.rewound(),
                clock: self.clock.stop(now),
                playing: false,
                ..self
            }).reloaded(now)
        }
    }

    /// The session after `event` at the clock reading `now`.
    pub open spec fn after(self, event: Event, now: nat) -> SessionView {
        match event {
            Event::Input(Key::Space) => self.toggled(now),
            Event::Input(Key::Right) => self.skipped_forward(now),
            Event::Input(Key::Left) => self.skipped_back(now),
            Event::Input(Key::Up) => SessionView {
                volume: louder(self.volume, VOLUME_STEP as nat),
                ..self
            },
            Event::Input(Key::Down) => SessionView {
                volume: quieter(self.volume, VOLUME_STEP as nat),
                ..self
            },
            Event::Input(Key::Esc) => self,
            Event::Input(Key::Other) => self,
            Event::Tick => self.ticked(now),
        }
    }

    /// What the sink is to be told after `event` at the clock reading `now`.
    pub open spec fn command(self, event: Event, now: nat) -> Command {
        match event {
            Event::Input(Key::Space) => if self.playing {
                Command::Pause
            } else {
                Command::Play
            },
            Event::Input(Key::Right) => if self.has_next() {
                Command::Reload
            } else {
                Command::Nothing
            },
            Event::Input(Key::Left) => Command::Reload,
            Event::Input(Key::Up) => Command::Volume(louder(self.volume, VOLUME_STEP as nat) as u16),
            Event::Input(Key::Down) => Command::Volume(
                quieter(self.volume, VOLUME_STEP as nat) as u16,
            ),
            Event::Input(Key::Esc) => Command::Quit,
            Event::Input(Key::Other) => Command::Nothing,
            Event::Tick => if self.track_over(now) {
                Command::Reload
            } else {
                Command::Nothing
            },
        }
    }
}

impl SessionView {
    /// Whatever the event and whenever it comes, a session stays a session:
    /// the cursor on a playable song, the clock running exactly while
    /// playing, the volume in range, the length that of the current track.
    pub proof fn stays_well_formed(self, event: Event, now: nat)
        requires
            self.wf(),
        ensures
            self.after(event, now).wf(),
    {
    }

    /// Two presses of the play key leave the session playing or held as it
    /// was, on the same song at the same volume. With no time between them
    /// the clock has gathered what it showed at the first press, which for
    /// a held session is what it had gathered before. Where the session was
    /// playing, the time between the presses is not counted: the clock goes
    /// on from what it showed at the first press.
    pub proof fn toggle_twice_round_trip(self, first: nat, second: nat, later: nat)
        requires
            self.wf(),
        ensures
            self.toggled(first).toggled(second).playing == self.playing,
            self.toggled(first).toggled(second).queue == self.queue,
            self.toggled(first).toggled(second).volume == self.volume,
            self.toggled(first).toggled(second).played == self.played,
            self.toggled(first).toggled(second).duration == self.duration,
            self.toggled(first).toggled(second).clock.running == self.clock.running,
            self.toggled(first).toggled(first).clock.time == self.clock.elapsed(first),
            !self.playing ==> self.toggled(first).toggled(first).clock.elapsed(later)
                == self.clock.elapsed(later),
            self.playing ==> self.toggled(first).toggled(second).clock.elapsed(second)
                == self.clock.elapsed(first),
    {
    }

    /// A held session that is set playing at `first` and held again at
    /// `second` is held as before, on the same song at the same volume, and
    /// its clock has gathered the time between the two presses and no
    /// more, where the sum is a span that can be counted.
    pub proof fn play_then_pause_adds_the_interval(self, first: nat, second: nat)
        requires
            self.wf(),
            !self.playing,
            first <= second,
            self.clock.time + (second - first) <= u128::MAX,
        ensures
            self.toggled(first).toggled(second) == (SessionView {
                clock: self.toggled(first).toggled(second).clock,
                ..self
            }),
            !self.toggled(first).toggled(second).clock.running,
            self.toggled(first).toggled(second).clock.time == self.clock.time + (second - first),
    {
    }

    /// A tick at the end of a track, with a song after it: the cursor moves
    /// on, nothing has played, the clock shows zero, and the session plays
    /// on.
    pub proof fn track_end_moves_on(self, now: nat)
        requires
            self.wf(),
            self.track_over(now),
            self.has_next(),
        ensures
            self.ticked(now).queue.cursor == self.queue.cursor + 1,
            self.ticked(now).queue.songs == self.queue.songs,
            self.ticked(now).played == 0,
            self.ticked(now).clock.elapsed(now) == 0,
            self.ticked(now).playing,
            self.command(Event::Tick, now) == Command::Reload,
    {
    }

    /// A tick at the end of the last track: the cursor is back on the first
    /// song, nothing has played, and the session is held with its clock
    /// stopped at zero.
    pub proof fn queue_end_rewinds_and_holds(self, now: nat, later: nat)
        requires
            self.wf(),
            self.track_over(now),
            !self.has_next(),
        ensures
            self.ticked(now).queue.cursor == 0,
            self.ticked(now).queue.songs == self.queue.songs,
            self.ticked(now).played == 0,
            !self.ticked(now).playing,
            !self.ticked(now).clock.running,
            self.ticked(now).clock.elapsed(later) == 0,
            self.command(Event::Tick, now) == Command::Reload,
    {
    }

    /// A tick before the end of the track, or while held, only reads the
    /// clock.
    pub proof fn tick_reads_the_clock(self, now: nat)
        requires
            self.wf(),
            !self.track_over(now),
        ensures
            self.ticked(now) == (SessionView { played: self.clock.elapsed(now), ..self }),
            self.command(Event::Tick, now) == Command::Nothing,
    {
    }

    /// While a track plays on, the time played that a later tick shows is
    /// no less than what an earlier one shows.
    pub proof fn played_never_goes_back(self, now: nat, later: nat)
        requires
            self.wf(),
            now <= later,
            !self.track_over(later),
        ensures
            !self.track_over(now),
            self.ticked(now).played <= self.ticked(later).played,
    {
    }

    /// The back key early in a track goes one song back, and stays on the
    /// first song; later in a track it stays on the song. Either way the
    /// track begins anew: nothing played, the clock at zero.
    pub proof fn back_goes_back_or_restarts(self, now: nat)
        requires
            self.wf(),
        ensures
            self.clock.elapsed(now) < RESTART_AFTER && self.queue.cursor > 0
                ==> self.skipped_back(now).queue.cursor == self.queue.cursor - 1,
            self.clock.elapsed(now) >= RESTART_AFTER || self.queue.cursor == 0
                ==> self.skipped_back(now).queue.cursor == self.queue.cursor,
            self.skipped_back(now).played == 0,
            self.skipped_back(now).clock.elapsed(now) == 0,
            self.skipped_back(now).playing == self.playing,
            self.skipped_back(now).volume == self.volume,
    {
    }

    /// The forward key on the last song does nothing; elsewhere it goes one
    /// song on and begins it.
    pub proof fn forward_stops_at_the_last(self, now: nat)
        requires
            self.wf(),
        ensures
            !self.has_next() ==> self.skipped_forward(now) == self,
            self.has_next() ==> self.skipped_forward(now).queue.cursor == self.queue.cursor + 1
                && self.skipped_forward(now).played == 0
                && self.skipped_forward(now).clock.elapsed(now) == 0,
    {
    }

    /// Whenever an event moves the cursor, the time played and the clock
    /// are back at zero.
    pub proof fn track_change_resets_time(self, event: Event, now: nat)
        requires
            self.wf(),
            self.after(event, now).queue.cursor != self.queue.cursor,
        ensures
            self.after(event, now).played == 0,
            self.after(event, now).clock.elapsed(now) == 0,
    {
    }

    /// The volume keys change the volume alone, and by no more than a step.
    pub proof fn volume_keys_change_volume_only(self, now: nat)
        requires
            self.wf(),
        ensures
            self.after(Event::Input(Key::Up), now) == (SessionView {
                volume: self.after(Event::Input(Key::Up), now).volume,
                ..self
            }),
            self.after(Event::Input(Key::Down), now) == (SessionView {
                volume: self.after(Event::Input(Key::Down), now).volume,
                ..self
            }),
            self.volume <= self.after(Event::Input(Key::Up), now).volume <= MAX_VOLUME,
            self.after(Event::Input(Key::Down), now).volume <= self.volume,
    {
    }
}

/// A playback session: the queue, the playback clock and the controls.
pub struct Session {
    queue: Queue,
    stopwatch: Stopwatch,
    controls: ControlsState,
}

impl View for Session {
    type V = SessionView;

    closed spec fn view(&self) -> SessionView {
        SessionView {
            queue: self.queue@,
            clock: self.stopwatch@,
            playing: self.controls.playback.playing,
            played: self.controls.playback.played as nat,
            duration: self.controls.playback.duration as nat,
            volume: self.controls.volume.0 as nat,
        }
    }
}

impl Session {
    /// Length in nanoseconds of the track under the cursor.
    fn current_length(queue: &Queue) -> (nanos: u128)
        requires
            queue@.wf(),
            queue@.songs.len() > 0,
            queue@.playable(),
        ensures
            nanos == length_of(queue@.songs[queue@.cursor as int].track),
    {
        let el = queue.current();
        assert(queue@.songs[queue@.cursor as int].track.playable());
        let millis: u64 = el.lilac.duration_millis();
        assert(millis as nat * (NANOS_PER_MILLI as nat) <= u128::MAX) by (nonlinear_arith)
            requires
                millis <= u64::MAX,
                NANOS_PER_MILLI == 1_000_000,
        ;
        millis as u128 * NANOS_PER_MILLI
    }

    /// A session on `queue`, held at the start of the current track and at
    /// full volume.
    pub fn new(queue: Queue, now: u128) -> (s: Session)
        requires
            queue@.wf(),
            queue@.songs.len() > 0,
            queue@.playable(),
        ensures
            s@ == SessionView::begin(queue@, now as nat),
            s@.wf(),
    {
        let duration = Session::current_length(&queue);
        let stopwatch = Stopwatch::new(now);
        Session {
            queue,
            stopwatch,
            controls: ControlsState {
                playback: PlaybackState { playing: false, played: 0, duration },
                volume: VolumeState(MAX_VOLUME),
            },
        }
    }

    /// A session on `queue`, where one can begin: the queue holds a song,
    /// and a stream can be made of each.
    pub fn open(queue: Queue, now: u128) -> (r: Result<Session, Refusal>)
        requires
            queue@.wf(),
        ensures
            match r {
                Ok(s) => {
                    &&& queue@.songs.len() > 0
                    &&& queue@.playable()
                    &&& s@ == SessionView::begin(queue@, now as nat)
                    &&& s@.wf()
                },
                Err(Refusal::Empty) => queue@.songs.len() == 0,
                Err(Refusal::Unplayable) => queue@.songs.len() > 0 && !queue@.playable(),
            },
    {
        if queue.is_empty() {
            Err(Refusal::Empty)
        } else if !queue.playable() {
            Err(Refusal::Unplayable)
        } else {
            Ok(Session::new(queue, now))
        }
    }

    /// The queue of the session.
    pub fn queue(&self) -> (q: &Queue)
        ensures
            q@ == self@.queue,
    {
        &self.queue
    }

    /// Transport and volume as the session has them.
    pub fn controls(&self) -> (c: ControlsState)
        ensures
            c.playback.playing == self@.playing,
            c.playback.played == self@.played,
            c.playback.duration == self@.duration,
            c.volume.0 == self@.volume,
    {
        self.controls
    }

    /// What the session shows.
    pub fn state(&self) -> (st: State)
        requires
            self@.wf(),
        ensures
            st.controls.playback.playing == self@.playing,
            st.controls.playback.played == self@.played,
            st.controls.playback.duration == self@.duration,
            st.controls.volume.0 == self@.volume,
            st.info.shows(self@.queue),
    {
        State { controls: self.controls, info: InfoState::read(&self.queue) }
    }

    /// Begins the track under the cursor: nothing played, the clock at zero.
    fn reload(&mut self, now: u128)
        requires
            old(self)@.queue.wf(),
            old(self)@.queue.songs.len() > 0,
            old(self)@.queue.playable(),
        ensures
            final(self)@ == old(self)@.reloaded(now as nat),
    {
        self.controls.playback.played = 0;
        self.controls.playback.duration = Session::current_length(&self.queue);
        self.stopwatch.reset(now);
    }

    /// Takes `event` at the time that `clock` shows, and says what the sink
    /// is to be told.
    pub fn handle(&mut self, event: Event, clock: &Clock) -> (cmd: Command)
        requires
            old(self)@.wf(),
        ensures
            exists|now: nat|
                {
                    &&& final(self)@ == #[trigger] old(self)@.after(event, now)
                    &&& cmd == old(self)@.command(event, now)
                },
            final(self)@.wf(),
    {
        let now = clock.now();
        self.apply(event, now)
    }

    /// Takes `event` at the clock reading `now`, and says what the sink is
    /// to be told.
    pub fn apply(&mut self, event: Event, now: u128) -> (cmd: Command)
        requires
            old(self)@.wf(),
        ensures
            final(self)@ == old(self)@.after(event, now as nat),
            cmd == old(self)@.command(event, now as nat),
            final(self)@.wf(),
    {
        proof {
            old(self)@.stays_well_formed(event, now as nat);
        }
        match event {
            Event::Input(Key::Space) => {
                self.controls.playback.playing = !self.controls.playback.playing;
                if self.controls.playback.playing {
                    self.stopwatch.start(now);
                    Command::Play
                } else {
                    self.stopwatch.stop(now);
                    Command::Pause
                }
            },
            Event::Input(Key::Right) => {
                if !self.queue.next() {
                    return Command::Nothing;
                }
                self.reload(now);
                Command::Reload
            },
            Event::Input(Key::Left) => {
                if self.stopwatch.time(now) < RESTART_AFTER {
                    self.queue.prev();
                }
                self.reload(now);
                Command::Reload
            },
            Event::Input(Key::Up) => {
                self.controls.volume.raise(VOLUME_STEP);
                Command::Volume(self.controls.volume.0)
            },
            Event::Input(Key::Down) => {
                self.controls.volume.lower(VOLUME_STEP);
                Command::Volume(self.controls.volume.0)
            },
            Event::Input(Key::Esc) => Command::Quit,
            Event::Input(Key::Other) => Command::Nothing,
            Event::Tick => {
                self.controls.playback.played = self.stopwatch.time(now);
                if self.controls.playback.played >= self.controls.playback.duration
                    && self.controls.playback.playing {
                    if !self.queue.next() {
                        self.queue.rewind();
                        self.controls.playback.playing = false;
                        self.stopwatch.stop(now);
                    }
                    self.reload(now);
                    Command::Reload
                } else {
                    Command::Nothing
                }
            },
        }
    }
}

} // verus!
