//! The queue of a session: the tracks that loaded, the files they came
//! from, and a cursor on the current one.

use crate::path::{file_stem, stem_of};
use crate::track::{Lilac, LilacView};
use vstd::prelude::*;

verus! {

/// One file handed to a queue: the track, where it could be loaded, and the
/// path it was read from.
pub type Load = (Option<Lilac>, String);

/// One entry of a queue as plain values.
pub struct SongView {
    pub track: LilacView,
    pub path: Seq<char>,
    pub name: Seq<char>,
}

/// A queue as plain values.
pub struct QueueView {
    pub songs: Seq<SongView>,
    pub cursor: nat,
}

/// The loads as plain values.
pub open spec fn loads_view(loads: Seq<Load>) -> Seq<(Option<LilacView>, Seq<char>)> {
    Seq::new(
        loads.len(),
        |i: int|
            (
                match loads[i].0 {
                    Some(l) => Some(l@),
                    None => None,
                },
                loads[i].1@,
            ),
    )
}

/// Every file that loaded has a stem to show.
pub open spec fn all_named(loads: Seq<(Option<LilacView>, Seq<char>)>) -> bool {
    forall|i: int| 0 <= i < loads.len() && (#[trigger] loads[i]).0 is Some ==> stem_of(loads[i].1) is Some
}

/// The songs of a queue made from `loads`: the files that loaded, in the
/// order given, each under the stem of its path.
pub open spec fn kept(loads: Seq<(Option<LilacView>, Seq<char>)>) -> Seq<SongView>
    decreases loads.len(),
{
    if loads.len() == 0 {
        Seq::empty()
    } else {
        let before = kept(loads.drop_last());
        match loads.last().0 {
            Some(track) => before.push(
                SongView { track, path: loads.last().1, name: stem_of(loads.last().1).unwrap() },
            ),
            None => before,
        }
    }
}

impl QueueView {
    /// The cursor is on a song, or on the first place of an empty queue.
    pub open spec fn wf(self) -> bool {
        self.cursor < self.songs.len() || (self.songs.len() == 0 && self.cursor == 0)
    }

    /// The queue after a step forward: one place on, unless on the last.
    pub open spec fn next(self) -> QueueView {
        if self.cursor + 1 < self.songs.len() {
            QueueView { songs: self.songs, cursor: self.cursor + 1 }
        } else {
            self
        }
    }

    /// The queue after a step back: one place back, unless on the first.
    pub open spec fn prev(self) -> QueueView {
        if self.cursor > 0 {
            QueueView { songs: self.songs, cursor: (self.cursor - 1) as nat }
        } else {
            self
        }
    }

    /// The queue with the cursor back on the first song.
    pub open spec fn rewound(self) -> QueueView {
        QueueView { songs: self.songs, cursor: 0 }
    }

    /// A stream can be made of every song.
    pub open spec fn playable(self) -> bool {
        forall|i: int| 0 <= i < self.songs.len() ==> (#[trigger] self.songs[i]).track.playable()
    }

    /// The names of the songs, in order.
    pub open spec fn names(self) -> Seq<Seq<char>> {
        Seq::new(self.songs.len(), |i: int| self.songs[i].name)
    }
}

/// One entry: the track, the path of its file, and the name it is listed
/// under.
struct Song {
    lilac: Lilac,
    path: String,
    name: String,
}

/// The songs of a session in order, and the cursor on the current one.
pub struct Queue {
    songs: Vec<Song>,
    cursor: usize,
}

/// The current entry of a queue.
pub struct QueueEl<'a> {
    pub idx: usize,
    pub lilac: &'a Lilac,
}

impl View for Queue {
    type V = QueueView;

    closed spec fn view(&self) -> QueueView {
        QueueView {
            songs: Seq::new(
                self.songs.len() as nat,
                |i: int|
                    SongView {
                        track: self.songs[i].lilac@,
                        path: self.songs[i].path@,
                        name: self.songs[i].name@,
                    },
            ),
            cursor: self.cursor as nat,
        }
    }
}

impl Queue {
    /// The queue of the files that loaded, with the cursor on the first.
    /// Each of them needs a path with a stem, to be listed under.
    pub fn new(loads: Vec<Load>) -> (q: Queue)
        requires
            all_named(loads_view(loads@)),
        ensures
            q@.songs == kept(loads_view(loads@)),
            q@.cursor == 0,
            q@.wf(),
    {
        let ghost all = loads_view(loads@);
        let mut songs: Vec<Song> = Vec::new();
        let ghost mut done: int = 0;
        for load in it: loads
            invariant
                all == loads_view(it.seq()),
                all_named(all),
                done == it.index(),
                songs@.len() == kept(all.take(done)).len(),
                forall|i: int|
                    0 <= i < songs@.len() ==> (SongView {
                        track: (#[trigger] songs@[i]).lilac@,
                        path: songs@[i].path@,
                        name: songs@[i].name@,
                    }) == kept(all.take(done))[i],
        {
            proof {
                assert(all.take(done + 1).drop_last() =~= all.take(done));
                assert(all.take(done + 1).last() == all[done]);
                done = done + 1;
            }
            let (track, path) = load;
            match track {
                Some(lilac) => {
                    let stem = file_stem(path.as_str());
                    let name = stem.unwrap();
                    songs.push(Song { lilac, path, name });
                },
                None => {},
            }
        }
        proof {
            assert(all.take(done) =~= all);
        }
        let q = Queue { songs, cursor: 0 };
        assert(q@.songs =~= kept(all));
        q
    }

    /// The queue of the files that loaded, or nothing where one of them has
    /// a path without a stem to list it under.
    pub fn try_new(loads: Vec<Load>) -> (made: Option<Queue>)
        ensures
            made is Some <==> all_named(loads_view(loads@)),
            made matches Some(q) ==> {
                &&& q@.songs == kept(loads_view(loads@))
                &&& q@.cursor == 0
                &&& q@.wf()
            },
    {
        let ghost all = loads_view(loads@);
        let mut i: usize = 0;
        while i < loads.len()
            invariant
                i <= loads.len(),
                all == loads_view(loads@),
                forall|k: int| 0 <= k < i && (#[trigger] all[k]).0 is Some ==> stem_of(all[k].1) is Some,
            decreases loads.len() - i,
        {
            if loads[i].0.is_some() {
                let stem = file_stem(loads[i].1.as_str());
                if stem.is_none() {
                    assert(all[i as int].0 is Some && stem_of(all[i as int].1) is None);
                    return None;
                }
            }
            i = i + 1;
        }
        Some(Queue::new(loads))
    }

    /// Whether the queue holds no song.
    pub fn is_empty(&self) -> (b: bool)
        ensures
            b == (self@.songs.len() == 0),
    {
        self.songs.len() == 0
    }

    /// Number of songs.
    pub fn len(&self) -> (n: usize)
        ensures
            n == self@.songs.len(),
    {
        self.songs.len()
    }

    /// The song under the cursor and its place.
    pub fn current(&self) -> (el: QueueEl<'_>)
        requires
            self@.wf(),
            self@.songs.len() > 0,
        ensures
            el.idx == self@.cursor,
            el.lilac@ == self@.songs[self@.cursor as int].track,
    {
        QueueEl { idx: self.cursor, lilac: &self.songs[self.cursor].lilac }
    }

    /// The names under which the songs are listed, in order.
    pub fn files(&self) -> (names: Vec<String>)
        ensures
            names@.len() == self@.songs.len(),
            forall|i: int| 0 <= i < names@.len() ==> (#[trigger] names@[i])@ == self@.songs[i].name,
    {
        let mut names: Vec<String> = Vec::new();
        let mut i: usize = 0;
        while i < self.songs.len()
            invariant
                i <= self.songs.len(),
                names@.len() == i,
                forall|k: int| 0 <= k < i ==> (#[trigger] names@[k])@ == self@.songs[k].name,
            decreases self.songs.len() - i,
        {
            names.push(self.songs[i].name.clone());
            i = i + 1;
        }
        names
    }

    /// Whether a stream can be made of every song.
    pub fn playable(&self) -> (b: bool)
        ensures
            b == self@.playable(),
    {
        let mut i: usize = 0;
        while i < self.songs.len()
            invariant
                i <= self.songs.len(),
                forall|k: int| 0 <= k < i ==> (#[trigger] self@.songs[k]).track.playable(),
            decreases self.songs.len() - i,
        {
            if !self.songs[i].lilac.playable() {
                assert(!self@.songs[i as int].track.playable());
                return false;
            }
            i = i + 1;
        }
        true
    }

    /// Moves the cursor one song on; says whether it moved.
    pub fn next(&mut self) -> (moved: bool)
        requires
            old(self)@.wf(),
            old(self)@.songs.len() > 0,
        ensures
            final(self)@ == old(self)@.next(),
            moved == (old(self)@.cursor + 1 < old(self)@.songs.len()),
    {
        if self.cursor == self.songs.len() - 1 {
            return false;
        }
        self.cursor += 1;
        true
    }

    /// Moves the cursor one song back; says whether it moved.
    pub fn prev(&mut self) -> (moved: bool)
        ensures
            final(self)@ == old(self)@.prev(),
            moved == (old(self)@.cursor > 0),
    {
        if self.cursor == 0 {
            return false;
        }
        self.cursor -= 1;
        true
    }

    /// Steps back until the cursor is on the first song.
    pub fn rewind(&mut self)
        ensures
            final(self)@ == old(self)@.rewound(),
    {
        while self.prev()
            invariant
                self@.songs == old(self)@.songs,
            decreases self@.cursor,
        {
        }
    }
}

/// Where the cursor stands after a run of steps, `true` for a step forward
/// and `false` for a step back.
pub open spec fn walked(q: QueueView, steps: Seq<bool>) -> QueueView
    decreases steps.len(),
{
    if steps.len() == 0 {
        q
    } else if steps.last() {
        walked(q, steps.drop_last()).next()
    } else {
        walked(q, steps.drop_last()).prev()
    }
}

/// Whatever steps are taken, the cursor stays on a song and the songs stay
/// as they were.
pub proof fn cursor_stays_on_a_song(q: QueueView, steps: Seq<bool>)
    requires
        q.wf(),
        q.songs.len() > 0,
    ensures
        walked(q, steps).songs == q.songs,
        walked(q, steps).cursor < q.songs.len(),
    decreases steps.len(),
{
    if steps.len() > 0 {
        cursor_stays_on_a_song(q, steps.drop_last());
    }
}

/// A step forward from the last song changes nothing, and so does a second
/// one.
pub proof fn next_stops_at_the_last(q: QueueView)
    requires
        q.cursor + 1 == q.songs.len(),
    ensures
        q.next() == q,
        q.next().next() == q,
{
}

/// A step back from the first song changes nothing, and so does a second
/// one.
pub proof fn prev_stops_at_the_first(q: QueueView)
    requires
        q.cursor == 0,
    ensures
        q.prev() == q,
        q.prev().prev() == q,
{
}

/// The names listed are the same wherever the cursor goes.
pub proof fn listing_is_stable(q: QueueView, steps: Seq<bool>)
    ensures
        walked(q, steps).names() == q.names(),
    decreases steps.len(),
{
    if steps.len() > 0 {
        listing_is_stable(q, steps.drop_last());
    }
}

/// A queue is empty exactly when no file loaded.
pub proof fn empty_iff_nothing_loaded(loads: Seq<(Option<LilacView>, Seq<char>)>)
    ensures
        kept(loads).len() == 0 <==> (forall|i: int| 0 <= i < loads.len() ==> (#[trigger] loads[i]).0 is None),
    decreases loads.len(),
{
    if loads.len() > 0 {
        let before = loads.drop_last();
        empty_iff_nothing_loaded(before);
        assert(forall|i: int| 0 <= i < before.len() ==> before[i] == loads[i]);
        if kept(loads).len() == 0 {
            assert(loads.last().0 is None);
            assert forall|i: int| 0 <= i < loads.len() implies (#[trigger] loads[i]).0 is None by {
                if i < before.len() {
                    assert(before[i].0 is None);
                }
            }
        }
        if forall|i: int| 0 <= i < loads.len() ==> (#[trigger] loads[i]).0 is None {
            assert(loads[loads.len() - 1].0 is None);
            assert forall|i: int| 0 <= i < before.len() implies (#[trigger] before[i]).0 is None by {
                assert(loads[i].0 is None);
            }
        }
    }
}

} // verus!
