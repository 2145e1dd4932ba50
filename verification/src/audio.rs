//! The playback state machine: queue, cursor, transport flags,
//! volume, repeat modes, seeking and the previous-threshold rule.
//!
//! The decode loop and the output device live outside the library;
//! they drive this state and obey what it says. Every transition here
//! is a plain function from the old state to the new one, with the
//! exact outcome stated in its contract.

use vstd::prelude::*;
use crate::collection::Collection;
use crate::key::SongKey;
use crate::sort::is_key_ordering;

verus! {

/// Playback volume: a percentage `0..=100`.
#[derive(Clone, Copy, Debug, PartialEq, Eq, Structural)]
pub struct Volume {
    pub percent: u8,
}

/// The default volume of a fresh state.
pub const VOLUME_DEFAULT: u8 = 25;

impl Volume {
    /// A volume never exceeds 100.
    pub open spec fn wf(&self) -> bool {
        self.percent <= 100
    }

    /// Make a volume, clamping anything above 100 down to 100.
    pub fn new(percent: u8) -> (r: Self)
        ensures
            r.percent == if percent > 100 { 100u8 } else { percent },
            r.wf(),
    {
        if percent > 100 {
            Volume { percent: 100 }
        } else {
            Volume { percent }
        }
    }

    /// The default volume.
    pub fn const_default() -> (r: Self)
        ensures
            r.percent == VOLUME_DEFAULT,
            r.wf(),
    {
        Volume { percent: VOLUME_DEFAULT }
    }

    /// The raw percentage.
    pub fn inner(&self) -> (r: u8)
        ensures
            r == self.percent,
    {
        self.percent
    }

    /// Re-clamp a possibly out-of-range volume (one read back from
    /// disk or over IPC).
    pub fn check(&self) -> (r: Self)
        ensures
            r.percent == if self.percent > 100 { 100u8 } else { self.percent },
            r.wf(),
    {
        Volume::new(self.percent)
    }
}

/// What happens when the queue cursor advances past a boundary.
#[derive(Clone, Copy, Debug, PartialEq, Eq, Structural)]
pub enum Repeat {
    /// Advancing past the tail ends the queue.
    Off,
    /// The current song repeats.
    Song,
    /// Advancing past the tail wraps to the front and keeps playing.
    Queue,
    /// Advancing past the tail wraps to the front but pauses.
    QueuePause,
}

/// The three kinds of seek.
#[derive(Clone, Copy, Debug, PartialEq, Eq, Structural)]
pub enum Seek {
    /// Jump to an absolute second, saturating at the track bounds.
    Absolute,
    /// Seek forward by a number of seconds, saturating at the end.
    Forward,
    /// Seek backward by a number of seconds, saturating at zero.
    Backward,
}

/// Where newly enqueued songs go.
#[derive(Clone, Copy, Debug, PartialEq, Eq, Structural)]
pub enum Append {
    /// Before everything already queued.
    Front,
    /// After everything already queued.
    Back,
    /// At the given position, clamped to the queue length.
    Index(usize),
}

/// The whole playback state: the queue and cursor, the current song,
/// the position inside it, transport and repeat flags, and volume.
#[derive(Clone, Debug)]
pub struct AudioState {
    /// The queued songs, in play order.
    pub queue: Vec<SongKey>,
    /// Which queue slot is current, when one is.
    pub queue_idx: Option<usize>,
    /// Whether playback is running (as opposed to paused or idle).
    pub playing: bool,
    /// The current song, mirroring `queue[queue_idx]`.
    pub song: Option<SongKey>,
    /// Seconds elapsed inside the current song.
    pub elapsed: u32,
    /// Total seconds of the current song.
    pub runtime: u32,
    /// The repeat mode.
    pub repeat: Repeat,
    /// The volume.
    pub volume: Volume,
}

impl AudioState {
    /// The cursor is in bounds and the current song mirrors the
    /// queue slot it points at; the volume is in range.
    pub open spec fn wf(&self) -> bool {
        &&& match self.queue_idx {
            Option::Some(i) => i < self.queue@.len() && self.song == Option::Some(self.queue@[i as int]),
            Option::None => self.song is None,
        }
        &&& self.volume.wf()
    }

    /// Everything inside this state resolves in the given collection.
    pub open spec fn resolves_in(&self, c: Collection) -> bool {
        forall|i: int| 0 <= i < self.queue@.len() ==> (#[trigger] self.queue@[i]).idx < c.songs@.len()
    }

    /// The idle state: empty queue, no cursor, no song, stopped,
    /// repeat off, default volume.
    pub fn new() -> (r: Self)
        ensures
            r.wf(),
            r.queue@.len() == 0,
            r.queue_idx is None,
            r.song is None,
            !r.playing,
            r.elapsed == 0,
            r.runtime == 0,
            r.repeat is Off,
            r.volume.percent == VOLUME_DEFAULT,
    {
        AudioState {
            queue: Vec::new(),
            queue_idx: None,
            playing: false,
            song: None,
            elapsed: 0,
            runtime: 0,
            repeat: Repeat::Off,
            volume: Volume::const_default(),
        }
    }

    /// Everything but the queue, repeat mode and volume reset to
    /// idle: the queue has ended.
    fn finish(&mut self)
        requires
            old(self).volume.wf(),
        ensures
            final(self).queue@ == old(self).queue@,
            final(self).queue_idx is None,
            final(self).song is None,
            !final(self).playing,
            final(self).elapsed == 0,
            final(self).runtime == 0,
            final(self).repeat == old(self).repeat,
            final(self).volume == old(self).volume,
            final(self).wf(),
    {
        self.queue_idx = None;
        self.song = None;
        self.playing = false;
        self.elapsed = 0;
        self.runtime = 0;
    }

    /// Point the cursor at a queue slot and restart it from zero,
    /// keeping the playing flag as given.
    fn cue(&mut self, i: usize, playing: bool)
        requires
            i < old(self).queue@.len(),
        ensures
            final(self).queue@ == old(self).queue@,
            final(self).queue_idx == Option::Some(i),
            final(self).song == Option::Some(old(self).queue@[i as int]),
            final(self).playing == playing,
            final(self).elapsed == 0,
            final(self).runtime == old(self).runtime,
            final(self).repeat == old(self).repeat,
            final(self).volume == old(self).volume,
            old(self).volume.wf() ==> final(self).wf(),
    {
        self.queue_idx = Some(i);
        self.song = Some(self.queue[i]);
        self.playing = playing;
        self.elapsed = 0;
    }

    /// Start playback. Idempotent; with no current song it stays
    /// idle.
    pub fn play(&mut self)
        requires
            old(self).wf(),
        ensures
            final(self).wf(),
            final(self).playing == (old(self).song is Some),
            final(self).queue@ == old(self).queue@,
            final(self).queue_idx == old(self).queue_idx,
            final(self).song == old(self).song,
            final(self).elapsed == old(self).elapsed,
            final(self).runtime == old(self).runtime,
            final(self).repeat == old(self).repeat,
            final(self).volume == old(self).volume,
    {
        self.playing = self.song.is_some();
    }

    /// Pause playback. Idempotent.
    pub fn pause(&mut self)
        requires
            old(self).wf(),
        ensures
            final(self).wf(),
            !final(self).playing,
            final(self).queue@ == old(self).queue@,
            final(self).queue_idx == old(self).queue_idx,
            final(self).song == old(self).song,
            final(self).elapsed == old(self).elapsed,
            final(self).runtime == old(self).runtime,
            final(self).repeat == old(self).repeat,
            final(self).volume == old(self).volume,
    {
        self.playing = false;
    }

    /// Flip between playing and paused.
    pub fn toggle(&mut self)
        requires
            old(self).wf(),
        ensures
            final(self).wf(),
            old(self).playing ==> !final(self).playing,
            !old(self).playing ==> final(self).playing == (old(self).song is Some),
            final(self).queue@ == old(self).queue@,
            final(self).queue_idx == old(self).queue_idx,
            final(self).song == old(self).song,
            final(self).elapsed == old(self).elapsed,
            final(self).runtime == old(self).runtime,
            final(self).repeat == old(self).repeat,
            final(self).volume == old(self).volume,
    {
        if self.playing {
            self.pause();
        } else {
            self.play();
        }
    }

    /// Advance the cursor: move to the next slot, or at the tail do
    /// what the repeat mode says — end the queue, repeat the song,
    /// wrap and keep playing, or wrap and pause.
    pub fn next(&mut self)
        requires
            old(self).wf(),
        ensures
            final(self).wf(),
            final(self).queue@ == old(self).queue@,
            final(self).repeat == old(self).repeat,
            final(self).volume == old(self).volume,
            old(self).queue_idx is None ==> final(self).queue_idx is None && final(self).song is None
                && !final(self).playing,
            old(self).queue_idx is Some ==> {
                let i = old(self).queue_idx->0;
                if i + 1 < old(self).queue@.len() {
                    &&& final(self).queue_idx == Option::Some((i + 1) as usize)
                    &&& final(self).song == Option::Some(old(self).queue@[i + 1])
                    &&& final(self).elapsed == 0
                    &&& final(self).playing == old(self).playing
                } else {
                    match old(self).repeat {
                        Repeat::Off => final(self).queue_idx is None && final(self).song is None
                            && !final(self).playing,
                        Repeat::Song => final(self).queue_idx == Option::Some(i) && final(self).elapsed == 0 && final(self).playing == old(self).playing,
                        Repeat::Queue => final(self).queue_idx == Option::Some(0usize) && final(self).song == Option::Some(old(self).queue@[0]) && final(self).elapsed == 0
                            && final(self).playing == old(self).playing,
                        Repeat::QueuePause => final(self).queue_idx == Option::Some(0usize)
                            && final(self).song == Option::Some(old(self).queue@[0]) && final(self).elapsed == 0 && !final(self).playing,
                    }
                }
            },
    {
        match self.queue_idx {
            None => self.finish(),
            Some(i) => {
                let len = self.queue.len();
                if i + 1 < len {
                    let p = self.playing;
                    self.cue(i + 1, p);
                } else {
                    match self.repeat {
                        Repeat::Off => self.finish(),
                        Repeat::Song => {
                            let p = self.playing;
                            self.cue(i, p);
                        },
                        Repeat::Queue => {
                            let p = self.playing;
                            self.cue(0, p);
                        },
                        Repeat::QueuePause => self.cue(0, false),
                    }
                }
            },
        }
    }

    /// The previous-threshold rule: at or past the threshold the
    /// current song restarts; before it the cursor moves to the prior
    /// slot; at slot zero the song restarts regardless.
    pub fn previous(&mut self, threshold: u32)
        requires
            old(self).wf(),
        ensures
            final(self).wf(),
            final(self).queue@ == old(self).queue@,
            final(self).repeat == old(self).repeat,
            final(self).volume == old(self).volume,
            old(self).queue_idx is None ==> *final(self) == *old(self),
            old(self).queue_idx is Some ==> {
                let i = old(self).queue_idx->0;
                if old(self).elapsed >= threshold || i == 0 {
                    &&& final(self).queue_idx == Option::Some(i)
                    &&& final(self).song == old(self).song
                    &&& final(self).elapsed == 0
                    &&& final(self).playing == old(self).playing
                } else {
                    &&& final(self).queue_idx == Option::Some((i - 1) as usize)
                    &&& final(self).song == Option::Some(old(self).queue@[i - 1])
                    &&& final(self).elapsed == 0
                    &&& final(self).playing == old(self).playing
                }
            },
    {
        match self.queue_idx {
            None => {},
            Some(i) => {
                let p = self.playing;
                if self.elapsed >= threshold || i == 0 {
                    self.cue(i, p);
                } else {
                    self.cue(i - 1, p);
                }
            },
        }
    }

    /// Seek inside the current song: absolute and forward seeks
    /// saturate at the end of the track, backward seeks saturate at
    /// zero. With no current song, nothing changes.
    pub fn seek(&mut self, kind: Seek, sec: u32)
        requires
            old(self).wf(),
        ensures
            final(self).wf(),
            final(self).queue@ == old(self).queue@,
            final(self).queue_idx == old(self).queue_idx,
            final(self).song == old(self).song,
            final(self).playing == old(self).playing,
            final(self).runtime == old(self).runtime,
            final(self).repeat == old(self).repeat,
            final(self).volume == old(self).volume,
            old(self).song is None ==> final(self).elapsed == old(self).elapsed,
            old(self).song is Some ==> final(self).elapsed == match kind {
                Seek::Absolute => if sec > old(self).runtime {
                    old(self).runtime
                } else {
                    sec
                },
                Seek::Forward => if old(self).elapsed + sec > old(self).runtime {
                    old(self).runtime
                } else {
                    (old(self).elapsed + sec) as u32
                },
                Seek::Backward => if old(self).elapsed >= sec {
                    (old(self).elapsed - sec) as u32
                } else {
                    0u32
                },
            },
    {
        if self.song.is_none() {
            return ;
        }
        match kind {
            Seek::Absolute => {
                if sec > self.runtime {
                    self.elapsed = self.runtime;
                } else {
                    self.elapsed = sec;
                }
            },
            Seek::Forward => {
                let target: u64 = self.elapsed as u64 + sec as u64;
                if target > self.runtime as u64 {
                    self.elapsed = self.runtime;
                } else {
                    self.elapsed = self.elapsed + sec;
                }
            },
            Seek::Backward => {
                if self.elapsed >= sec {
                    self.elapsed = self.elapsed - sec;
                } else {
                    self.elapsed = 0;
                }
            },
        }
    }

    /// Jump the cursor to a queue slot. An out-of-bounds slot ends
    /// the queue, whatever the repeat mode.
    pub fn set_queue_index(&mut self, i: usize)
        requires
            old(self).wf(),
        ensures
            final(self).wf(),
            final(self).queue@ == old(self).queue@,
            final(self).repeat == old(self).repeat,
            final(self).volume == old(self).volume,
            i < old(self).queue@.len() ==> final(self).queue_idx == Option::Some(i)
                && final(self).song == Option::Some(old(self).queue@[i as int])
                && final(self).elapsed == 0
                && final(self).playing,
            i >= old(self).queue@.len() ==> final(self).queue_idx is None
                && final(self).song is None
                && !final(self).playing,
    {
        if i < self.queue.len() {
            self.cue(i, true);
        } else {
            self.finish();
        }
    }

    /// Skip forward a number of slots; skipping past the tail ends
    /// the queue unless a queue repeat mode wraps it to the front.
    pub fn skip(&mut self, n: usize)
        requires
            old(self).wf(),
        ensures
            final(self).wf(),
            final(self).queue@ == old(self).queue@,
            final(self).repeat == old(self).repeat,
            final(self).volume == old(self).volume,
            old(self).queue_idx is None ==> final(self).queue_idx is None,
            old(self).queue_idx is Some ==> {
                let i = old(self).queue_idx->0;
                if i + n < old(self).queue@.len() {
                    &&& final(self).queue_idx == Option::Some((i + n) as usize)
                    &&& final(self).song == Option::Some(old(self).queue@[i + n])
                    &&& final(self).elapsed == 0
                } else if old(self).queue@.len() > 0 {
                    match old(self).repeat {
                        Repeat::Queue => final(self).queue_idx == Option::Some(0usize),
                        Repeat::QueuePause => final(self).queue_idx == Option::Some(0usize)
                            && !final(self).playing,
                        _ => final(self).queue_idx is None && !final(self).playing,
                    }
                } else {
                    final(self).queue_idx is None && !final(self).playing
                }
            },
    {
        match self.queue_idx {
            None => self.finish(),
            Some(i) => {
                let len = self.queue.len();
                if n < len && i < len - n {
                    let p = self.playing;
                    self.cue(i + n, p);
                } else if len > 0 {
                    match self.repeat {
                        Repeat::Queue => {
                            let p = self.playing;
                            self.cue(0, p);
                        },
                        Repeat::QueuePause => self.cue(0, false),
                        _ => self.finish(),
                    }
                } else {
                    self.finish();
                }
            },
        }
    }

    /// Step back a number of slots, stopping at the front.
    pub fn back(&mut self, n: usize)
        requires
            old(self).wf(),
        ensures
            final(self).wf(),
            final(self).queue@ == old(self).queue@,
            final(self).repeat == old(self).repeat,
            final(self).volume == old(self).volume,
            old(self).queue_idx is None ==> *final(self) == *old(self),
            old(self).queue_idx is Some ==> {
                let i = old(self).queue_idx->0;
                let t = if n > i {
                    0int
                } else {
                    i - n
                };
                &&& final(self).queue_idx == Option::Some(t as usize)
                &&& final(self).song == Option::Some(old(self).queue@[t])
                &&& final(self).elapsed == 0
            },
    {
        match self.queue_idx {
            None => {},
            Some(i) => {
                let p = self.playing;
                if n > i {
                    self.cue(0, p);
                } else {
                    self.cue(i - n, p);
                }
            },
        }
    }

    /// Empty the queue and stop. With `keep_playing`, the playing
    /// flag survives so that newly enqueued songs start at once.
    pub fn clear(&mut self, keep_playing: bool)
        requires
            old(self).wf(),
        ensures
            final(self).wf(),
            final(self).queue@.len() == 0,
            final(self).queue_idx is None,
            final(self).song is None,
            final(self).playing == (keep_playing && old(self).playing),
            final(self).elapsed == 0,
            final(self).repeat == old(self).repeat,
            final(self).volume == old(self).volume,
    {
        let p = self.playing;
        self.queue = Vec::new();
        self.finish();
        self.playing = keep_playing && p;
    }

    /// Set the volume, clamped to 100.
    pub fn set_volume(&mut self, v: Volume)
        requires
            old(self).wf(),
        ensures
            final(self).wf(),
            final(self).volume.percent == if v.percent > 100 { 100u8 } else { v.percent },
            final(self).queue@ == old(self).queue@,
            final(self).queue_idx == old(self).queue_idx,
            final(self).song == old(self).song,
            final(self).playing == old(self).playing,
            final(self).elapsed == old(self).elapsed,
            final(self).runtime == old(self).runtime,
            final(self).repeat == old(self).repeat,
    {
        self.volume = v.check();
    }

    /// Set the repeat mode.
    pub fn set_repeat(&mut self, r: Repeat)
        requires
            old(self).wf(),
        ensures
            final(self).wf(),
            final(self).repeat == r,
            final(self).queue@ == old(self).queue@,
            final(self).queue_idx == old(self).queue_idx,
            final(self).song == old(self).song,
            final(self).playing == old(self).playing,
            final(self).elapsed == old(self).elapsed,
            final(self).runtime == old(self).runtime,
            final(self).volume == old(self).volume,
    {
        self.repeat = r;
    }

    /// Splice songs into the queue — optionally clearing it first —
    /// at the front, the back, or a clamped position; an empty,
    /// play-after enqueue starts at the first new song.
    pub fn add_queue_songs(&mut self, keys: &Vec<SongKey>, append: Append, clear: bool, play: bool)
        requires
            old(self).wf(),
        ensures
            final(self).wf(),
            final(self).repeat == old(self).repeat,
            final(self).volume == old(self).volume,
            ({
                let base: Seq<SongKey> = if clear {
                    Seq::empty()
                } else {
                    old(self).queue@
                };
                let p: int = match append {
                    Append::Front => 0,
                    Append::Back => base.len() as int,
                    Append::Index(at) => if at > base.len() {
                        base.len() as int
                    } else {
                        at as int
                    },
                };
                &&& final(self).queue@ == base.subrange(0, p) + keys@ + base.subrange(
                    p,
                    base.len() as int,
                )
                &&& (clear || old(self).queue_idx is None) && keys@.len() > 0 && play
                    ==> final(self).queue_idx == Option::Some(p as usize)
                    && final(self).song == Option::Some(keys@[0])
                    && final(self).playing
            }),
    {
        if clear {
            let p = play;
            self.clear(p);
        }
        let base_len = self.queue.len();
        let at: usize = match append {
            Append::Front => 0,
            Append::Back => base_len,
            Append::Index(i) => if i > base_len {
                base_len
            } else {
                i
            },
        };
        let ghost base = self.queue@;
        let mut new_queue: Vec<SongKey> = Vec::new();
        let mut i: usize = 0;
        while i < at
            invariant
                i <= at <= base.len(),
                self.queue@ == base,
                new_queue@ =~= base.subrange(0, i as int),
            decreases at - i,
        {
            new_queue.push(self.queue[i]);
            i = i + 1;
        }
        let mut j: usize = 0;
        while j < keys.len()
            invariant
                j <= keys@.len(),
                at <= base.len(),
                self.queue@ == base,
                new_queue@ =~= base.subrange(0, at as int) + keys@.subrange(0, j as int),
            decreases keys@.len() - j,
        {
            new_queue.push(keys[j]);
            j = j + 1;
        }
        let mut t: usize = at;
        while t < base_len
            invariant
                at <= t <= base.len(),
                base_len == base.len(),
                self.queue@ == base,
                new_queue@ =~= base.subrange(0, at as int) + keys@ + base.subrange(
                    at as int,
                    t as int,
                ),
            decreases base_len - t,
        {
            new_queue.push(self.queue[t]);
            t = t + 1;
        }
        proof {
            assert(keys@.subrange(0, keys@.len() as int) =~= keys@);
            assert(new_queue@ =~= base.subrange(0, at as int) + keys@ + base.subrange(
                at as int,
                base.len() as int,
            ));
        }
        let had_cursor = self.queue_idx.is_some();
        let old_cursor: usize = match self.queue_idx {
            Some(c) => c,
            None => 0,
        };
        self.queue = new_queue;
        if had_cursor {
            // Keep the cursor on the song it pointed at.
            if at <= old_cursor {
                let total = self.queue.len();
                let nc = old_cursor + keys.len();
                self.queue_idx = Some(nc);
                proof {
                    assert(self.queue@[nc as int] == base[old_cursor as int]);
                }
            }
        } else {
            if keys.len() > 0 && play {
                self.cue(at, true);
                proof {
                    assert(self.queue@[at as int] == keys@[0]);
                }
            } else {
                self.queue_idx = None;
                self.song = None;
            }
        }
    }

    /// Shuffle the queue by the given permutation and reset the
    /// cursor to the front.
    pub fn shuffle(&mut self, perm: &Vec<usize>)
        requires
            old(self).wf(),
            is_key_ordering(perm@, old(self).queue@.len()),
        ensures
            final(self).wf(),
            final(self).queue@.len() == old(self).queue@.len(),
            forall|k: int|
                0 <= k < final(self).queue@.len() ==> final(self).queue@[k] == old(self).queue@[
                    perm@[k] as int
                ],
            final(self).repeat == old(self).repeat,
            final(self).volume == old(self).volume,
            old(self).queue@.len() > 0 ==> final(self).queue_idx == Option::Some(0usize)
                && final(self).song == Option::Some(old(self).queue@[perm@[0] as int])
                && final(self).elapsed == 0
                && final(self).playing == old(self).playing,
            old(self).queue@.len() == 0 ==> final(self).queue_idx == old(self).queue_idx,
    {
        let ghost base = self.queue@;
        let mut new_queue: Vec<SongKey> = Vec::new();
        let mut k: usize = 0;
        while k < perm.len()
            invariant
                k <= perm@.len(),
                is_key_ordering(perm@, base.len()),
                self.queue@ == base,
                new_queue@.len() == k,
                forall|t: int| 0 <= t < k ==> #[trigger] new_queue@[t] == base[perm@[t] as int],
            decreases perm@.len() - k,
        {
            new_queue.push(self.queue[perm[k]]);
            k = k + 1;
        }
        self.queue = new_queue;
        if self.queue.len() > 0 {
            let p = self.playing;
            self.cue(0, p);
        }
    }

    /// Remove the half-open range `start..end` from the queue
    /// (clamped to its length). A range that swallows the cursor
    /// stops playback; a cursor past the range slides left with its
    /// song.
    pub fn remove_queue_range(&mut self, start: usize, end: usize)
        requires
            old(self).wf(),
            start <= end,
        ensures
            final(self).wf(),
            final(self).repeat == old(self).repeat,
            final(self).volume == old(self).volume,
            ({
                let n = old(self).queue@.len() as int;
                let s = if start > n {
                    n
                } else {
                    start as int
                };
                let e = if end > n {
                    n
                } else {
                    end as int
                };
                &&& final(self).queue@ == old(self).queue@.subrange(0, s) + old(self).queue@.subrange(e, n)
                &&& old(self).queue_idx is Some ==> {
                    let i = old(self).queue_idx->0;
                    if s <= i < e {
                        final(self).queue_idx is None && final(self).song is None && !final(self).playing
                    } else if i < s {
                        final(self).queue_idx == Option::Some(i) && final(self).song == old(self).song
                    } else {
                        final(self).queue_idx == Option::Some((i - (e - s)) as usize) && final(self).song == old(self).song
                    }
                }
            }),
    {
        let n = self.queue.len();
        let s = if start > n {
            n
        } else {
            start
        };
        let e = if end > n {
            n
        } else {
            end
        };
        let ghost base = self.queue@;
        let mut new_queue: Vec<SongKey> = Vec::new();
        let mut i: usize = 0;
        while i < s
            invariant
                i <= s <= base.len(),
                self.queue@ == base,
                new_queue@ =~= base.subrange(0, i as int),
            decreases s - i,
        {
            new_queue.push(self.queue[i]);
            i = i + 1;
        }
        let mut j: usize = e;
        while j < n
            invariant
                s <= base.len(),
                e <= j <= n,
                n == base.len(),
                self.queue@ == base,
                new_queue@ =~= base.subrange(0, s as int) + base.subrange(e as int, j as int),
            decreases n - j,
        {
            new_queue.push(self.queue[j]);
            j = j + 1;
        }
        self.queue = new_queue;
        match self.queue_idx {
            None => {},
            Some(c) => {
                if c >= s && c < e {
                    self.finish();
                } else if c >= e {
                    let nc = c - (e - s);
                    self.queue_idx = Some(nc);
                    proof {
                        assert(self.queue@[nc as int] == base[c as int]);
                    }
                } else {
                    proof {
                        assert(self.queue@[c as int] == base[c as int]);
                    }
                }
            },
        }
    }
}

} // verus!
