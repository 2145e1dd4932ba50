//! Decoding of file signals: the inter-process command channel.
//!
//! A second launch of the player drops sentinel files into a
//! well-known directory; the watcher sees the creation events, reads
//! the directory's state into a [`SignalSnapshot`], and turns it into
//! kernel messages here. Flag signals act by existing; payload
//! signals carry a value. Conflicting transport signals resolve by a
//! fixed priority, and externally 1-based queue indices saturate down
//! to 0-based ones.

use vstd::prelude::*;
use crate::audio::Volume;

verus! {

/// A command decoded from the signal directory.
#[derive(Clone, Copy, Debug, PartialEq, Eq, Structural)]
pub enum WatchToKernel {
    /// Flip play/pause.
    Toggle,
    /// Start playback.
    Play,
    /// Pause playback.
    Pause,
    /// Advance the queue.
    Next,
    /// Restart or step back, per the previous threshold.
    Previous,
    /// Clear the queue and stop.
    Stop,
    /// Shuffle the queue.
    Shuffle,
    /// Repeat the current song.
    RepeatSong,
    /// Repeat the whole queue.
    RepeatQueue,
    /// Stop repeating.
    RepeatOff,
    /// Set the volume.
    Volume(Volume),
    /// Seek to an absolute second.
    Seek(u64),
    /// Seek forward by seconds.
    SeekForward(u64),
    /// Seek backward by seconds.
    SeekBackward(u64),
    /// Jump to a 0-based queue slot.
    Index(usize),
    /// Skip forward by slots.
    Skip(usize),
    /// Step back by slots.
    Back(usize),
    /// Clear the queue, optionally keeping the playing flag.
    Clear(bool),
}

/// What the signal directory held when the watcher woke up: which
/// flag files existed, and what the payload files carried.
#[derive(Clone, Copy, Debug, PartialEq, Eq, Structural)]
pub struct SignalSnapshot {
    /// The `toggle` file existed.
    pub toggle: bool,
    /// The `stop` file existed.
    pub stop: bool,
    /// The `pause` file existed.
    pub pause: bool,
    /// The `play` file existed.
    pub play: bool,
    /// The `next` file existed.
    pub next: bool,
    /// The `previous` file existed.
    pub previous: bool,
    /// The `shuffle` file existed.
    pub shuffle: bool,
    /// The `repeat_song` file existed.
    pub repeat_song: bool,
    /// The `repeat_queue` file existed.
    pub repeat_queue: bool,
    /// The `repeat_off` file existed.
    pub repeat_off: bool,
    /// The `volume` file's payload, if the file was readable.
    pub volume: Option<u8>,
    /// The `skip` file's payload.
    pub skip: Option<usize>,
    /// The `index` file's payload: a 1-based queue position.
    pub index: Option<usize>,
    /// The `clear` file's payload.
    pub clear: Option<bool>,
    /// The `seek` file's payload.
    pub seek: Option<u64>,
    /// The `seek_forward` file's payload.
    pub seek_forward: Option<u64>,
    /// The `seek_backward` file's payload.
    pub seek_backward: Option<u64>,
    /// The `back` file's payload.
    pub back: Option<usize>,
}

/// An empty snapshot: no files, no payloads.
impl SignalSnapshot {
    /// A snapshot with nothing set.
    pub fn none() -> (r: Self)
        ensures
            r == (SignalSnapshot {
                toggle: false,
                stop: false,
                pause: false,
                play: false,
                next: false,
                previous: false,
                shuffle: false,
                repeat_song: false,
                repeat_queue: false,
                repeat_off: false,
                volume: Option::None,
                skip: Option::None,
                index: Option::None,
                clear: Option::None,
                seek: Option::None,
                seek_forward: Option::None,
                seek_backward: Option::None,
                back: Option::None,
            }),
    {
        SignalSnapshot {
            toggle: false,
            stop: false,
            pause: false,
            play: false,
            next: false,
            previous: false,
            shuffle: false,
            repeat_song: false,
            repeat_queue: false,
            repeat_off: false,
            volume: None,
            skip: None,
            index: None,
            clear: None,
            seek: None,
            seek_forward: None,
            seek_backward: None,
            back: None,
        }
    }
}

/// Slot 0: the toggle flag.
pub open spec fn slot_toggle(s: SignalSnapshot) -> Option<WatchToKernel> {
    if s.toggle {
        Option::Some(WatchToKernel::Toggle)
    } else {
        Option::None
    }
}

/// Slot 1: stop, pause or play, in that priority.
pub open spec fn slot_transport(s: SignalSnapshot) -> Option<WatchToKernel> {
    if s.stop {
        Option::Some(WatchToKernel::Stop)
    } else if s.pause {
        Option::Some(WatchToKernel::Pause)
    } else if s.play {
        Option::Some(WatchToKernel::Play)
    } else {
        Option::None
    }
}

/// Slot 2: next and previous cancel each other.
pub open spec fn slot_step(s: SignalSnapshot) -> Option<WatchToKernel> {
    if s.next && !s.previous {
        Option::Some(WatchToKernel::Next)
    } else if s.previous && !s.next {
        Option::Some(WatchToKernel::Previous)
    } else {
        Option::None
    }
}

/// Slot 3: the shuffle flag.
pub open spec fn slot_shuffle(s: SignalSnapshot) -> Option<WatchToKernel> {
    if s.shuffle {
        Option::Some(WatchToKernel::Shuffle)
    } else {
        Option::None
    }
}

/// Slot 4: the repeat-song flag.
pub open spec fn slot_repeat_song(s: SignalSnapshot) -> Option<WatchToKernel> {
    if s.repeat_song {
        Option::Some(WatchToKernel::RepeatSong)
    } else {
        Option::None
    }
}

/// Slot 5: the repeat-queue flag.
pub open spec fn slot_repeat_queue(s: SignalSnapshot) -> Option<WatchToKernel> {
    if s.repeat_queue {
        Option::Some(WatchToKernel::RepeatQueue)
    } else {
        Option::None
    }
}

/// Slot 6: the repeat-off flag.
pub open spec fn slot_repeat_off(s: SignalSnapshot) -> Option<WatchToKernel> {
    if s.repeat_off {
        Option::Some(WatchToKernel::RepeatOff)
    } else {
        Option::None
    }
}

/// Slot 7: the volume payload, clamped to 100.
pub open spec fn slot_volume(s: SignalSnapshot) -> Option<WatchToKernel> {
    match s.volume {
        Option::Some(v) => Option::Some(
            WatchToKernel::Volume(
                Volume { percent: if v > 100 {
                    100u8
                } else {
                    v
                } },
            ),
        ),
        Option::None => Option::None,
    }
}

/// Slot 8: the skip payload.
pub open spec fn slot_skip(s: SignalSnapshot) -> Option<WatchToKernel> {
    match s.skip {
        Option::Some(n) => Option::Some(WatchToKernel::Skip(n)),
        Option::None => Option::None,
    }
}

/// Slot 9: the index payload, saturating from 1-based to 0-based.
pub open spec fn slot_index(s: SignalSnapshot) -> Option<WatchToKernel> {
    match s.index {
        Option::Some(i) => Option::Some(
            WatchToKernel::Index(
                if i > 0 {
                    (i - 1) as usize
                } else {
                    0usize
                },
            ),
        ),
        Option::None => Option::None,
    }
}

/// Slot 10: the clear payload.
pub open spec fn slot_clear(s: SignalSnapshot) -> Option<WatchToKernel> {
    match s.clear {
        Option::Some(b) => Option::Some(WatchToKernel::Clear(b)),
        Option::None => Option::None,
    }
}

/// Slot 11: the absolute seek payload.
pub open spec fn slot_seek(s: SignalSnapshot) -> Option<WatchToKernel> {
    match s.seek {
        Option::Some(v) => Option::Some(WatchToKernel::Seek(v)),
        Option::None => Option::None,
    }
}

/// Slot 12: the forward seek payload.
pub open spec fn slot_seek_forward(s: SignalSnapshot) -> Option<WatchToKernel> {
    match s.seek_forward {
        Option::Some(v) => Option::Some(WatchToKernel::SeekForward(v)),
        Option::None => Option::None,
    }
}

/// Slot 13: the backward seek payload.
pub open spec fn slot_seek_backward(s: SignalSnapshot) -> Option<WatchToKernel> {
    match s.seek_backward {
        Option::Some(v) => Option::Some(WatchToKernel::SeekBackward(v)),
        Option::None => Option::None,
    }
}

/// Slot 14: the back payload.
pub open spec fn slot_back(s: SignalSnapshot) -> Option<WatchToKernel> {
    match s.back {
        Option::Some(n) => Option::Some(WatchToKernel::Back(n)),
        Option::None => Option::None,
    }
}

/// The fifteen signal slots of one snapshot, in emission order.
pub open spec fn spec_signal_slots(s: SignalSnapshot) -> Seq<Option<WatchToKernel>> {
    seq![
        slot_toggle(s), slot_transport(s), slot_step(s), slot_shuffle(s), slot_repeat_song(s),
        slot_repeat_queue(s), slot_repeat_off(s), slot_volume(s), slot_skip(s), slot_index(s),
        slot_clear(s), slot_seek(s), slot_seek_forward(s), slot_seek_backward(s), slot_back(s),
    ]
}

/// Drop the empty slots, keeping order.
pub open spec fn flatten_slots(o: Seq<Option<WatchToKernel>>) -> Seq<WatchToKernel>
    decreases o.len(),
{
    if o.len() == 0 {
        Seq::empty()
    } else {
        flatten_slots(o.drop_last()) + (match o.last() {
            Option::Some(m) => seq![m],
            Option::None => Seq::empty(),
        })
    }
}

/// The messages a snapshot decodes to: its filled slots, in order.
pub open spec fn spec_signal_msgs(s: SignalSnapshot) -> Seq<WatchToKernel> {
    flatten_slots(spec_signal_slots(s))
}


/// Compute [`slot_toggle`].
fn exec_slot_toggle(s: &SignalSnapshot) -> (r: Option<WatchToKernel>)
    ensures
        r == slot_toggle(*s),
{
    if s.toggle {
        Some(WatchToKernel::Toggle)
    } else {
        None
    }
}

/// Compute [`slot_transport`].
fn exec_slot_transport(s: &SignalSnapshot) -> (r: Option<WatchToKernel>)
    ensures
        r == slot_transport(*s),
{
    if s.stop {
        Some(WatchToKernel::Stop)
    } else if s.pause {
        Some(WatchToKernel::Pause)
    } else if s.play {
        Some(WatchToKernel::Play)
    } else {
        None
    }
}

/// Compute [`slot_step`].
fn exec_slot_step(s: &SignalSnapshot) -> (r: Option<WatchToKernel>)
    ensures
        r == slot_step(*s),
{
    if s.next && !s.previous {
        Some(WatchToKernel::Next)
    } else if s.previous && !s.next {
        Some(WatchToKernel::Previous)
    } else {
        None
    }
}

/// Compute [`slot_shuffle`].
fn exec_slot_shuffle(s: &SignalSnapshot) -> (r: Option<WatchToKernel>)
    ensures
        r == slot_shuffle(*s),
{
    if s.shuffle {
        Some(WatchToKernel::Shuffle)
    } else {
        None
    }
}

/// Compute [`slot_repeat_song`].
fn exec_slot_repeat_song(s: &SignalSnapshot) -> (r: Option<WatchToKernel>)
    ensures
        r == slot_repeat_song(*s),
{
    if s.repeat_song {
        Some(WatchToKernel::RepeatSong)
    } else {
        None
    }
}

/// Compute [`slot_repeat_queue`].
fn exec_slot_repeat_queue(s: &SignalSnapshot) -> (r: Option<WatchToKernel>)
    ensures
        r == slot_repeat_queue(*s),
{
    if s.repeat_queue {
        Some(WatchToKernel::RepeatQueue)
    } else {
        None
    }
}

/// Compute [`slot_repeat_off`].
fn exec_slot_repeat_off(s: &SignalSnapshot) -> (r: Option<WatchToKernel>)
    ensures
        r == slot_repeat_off(*s),
{
    if s.repeat_off {
        Some(WatchToKernel::RepeatOff)
    } else {
        None
    }
}

/// Compute [`slot_volume`].
fn exec_slot_volume(s: &SignalSnapshot) -> (r: Option<WatchToKernel>)
    ensures
        r == slot_volume(*s),
{
    match s.volume {
        Some(v) => Some(WatchToKernel::Volume(Volume::new(v))),
        None => None,
    }
}

/// Compute [`slot_skip`].
fn exec_slot_skip(s: &SignalSnapshot) -> (r: Option<WatchToKernel>)
    ensures
        r == slot_skip(*s),
{
    match s.skip {
        Some(n) => Some(WatchToKernel::Skip(n)),
        None => None,
    }
}

/// Compute [`slot_index`].
fn exec_slot_index(s: &SignalSnapshot) -> (r: Option<WatchToKernel>)
    ensures
        r == slot_index(*s),
{
    match s.index {
        Some(i) => Some(WatchToKernel::Index(if i > 0 {
            i - 1
        } else {
            0
        })),
        None => None,
    }
}

/// Compute [`slot_clear`].
fn exec_slot_clear(s: &SignalSnapshot) -> (r: Option<WatchToKernel>)
    ensures
        r == slot_clear(*s),
{
    match s.clear {
        Some(b) => Some(WatchToKernel::Clear(b)),
        None => None,
    }
}

/// Compute [`slot_seek`].
fn exec_slot_seek(s: &SignalSnapshot) -> (r: Option<WatchToKernel>)
    ensures
        r == slot_seek(*s),
{
    match s.seek {
        Some(v) => Some(WatchToKernel::Seek(v)),
        None => None,
    }
}

/// Compute [`slot_seek_forward`].
fn exec_slot_seek_forward(s: &SignalSnapshot) -> (r: Option<WatchToKernel>)
    ensures
        r == slot_seek_forward(*s),
{
    match s.seek_forward {
        Some(v) => Some(WatchToKernel::SeekForward(v)),
        None => None,
    }
}

/// Compute [`slot_seek_backward`].
fn exec_slot_seek_backward(s: &SignalSnapshot) -> (r: Option<WatchToKernel>)
    ensures
        r == slot_seek_backward(*s),
{
    match s.seek_backward {
        Some(v) => Some(WatchToKernel::SeekBackward(v)),
        None => None,
    }
}

/// Compute [`slot_back`].
fn exec_slot_back(s: &SignalSnapshot) -> (r: Option<WatchToKernel>)
    ensures
        r == slot_back(*s),
{
    match s.back {
        Some(n) => Some(WatchToKernel::Back(n)),
        None => None,
    }
}

/// Read the fifteen slots of one snapshot.
#[verifier::rlimit(100)]
fn build_slots(s: &SignalSnapshot) -> (opts: Vec<Option<WatchToKernel>>)
    ensures
        opts@ == spec_signal_slots(*s),
{
    let mut opts: Vec<Option<WatchToKernel>> = Vec::new();
    opts.push(exec_slot_toggle(s));
    opts.push(exec_slot_transport(s));
    opts.push(exec_slot_step(s));
    opts.push(exec_slot_shuffle(s));
    opts.push(exec_slot_repeat_song(s));
    opts.push(exec_slot_repeat_queue(s));
    opts.push(exec_slot_repeat_off(s));
    opts.push(exec_slot_volume(s));
    opts.push(exec_slot_skip(s));
    opts.push(exec_slot_index(s));
    opts.push(exec_slot_clear(s));
    opts.push(exec_slot_seek(s));
    opts.push(exec_slot_seek_forward(s));
    opts.push(exec_slot_seek_backward(s));
    opts.push(exec_slot_back(s));
    proof {
        assert(opts@ =~= spec_signal_slots(*s));
    }
    opts
}

/// The watcher's decode step: turn one snapshot of the signal
/// directory into the exact message sequence it stands for.
pub fn signals_to_msgs(s: &SignalSnapshot) -> (r: Vec<WatchToKernel>)
    ensures
        r@ == spec_signal_msgs(*s),
{
    let opts = build_slots(s);
    let mut r: Vec<WatchToKernel> = Vec::new();
    let mut i: usize = 0;
    proof {
        assert(opts@.subrange(0, 0) =~= Seq::<Option<WatchToKernel>>::empty());
    }
    while i < opts.len()
        invariant
            i <= opts@.len(),
            r@ =~= flatten_slots(opts@.subrange(0, i as int)),
        decreases opts@.len() - i,
    {
        match opts[i] {
            Some(m) => r.push(m),
            None => {},
        }
        proof {
            let pre = opts@.subrange(0, i as int);
            let post = opts@.subrange(0, i as int + 1);
            assert(post.drop_last() =~= pre);
            assert(post.last() == opts@[i as int]);
            assert(r@ =~= flatten_slots(post));
        }
        i = i + 1;
    }
    proof {
        assert(opts@.subrange(0, opts@.len() as int) =~= opts@);
    }
    r
}

/// A signal, named by the file that carries it.
#[derive(Clone, Copy, Debug, PartialEq, Eq, Structural)]
pub enum Signal {
    /// The `toggle` flag file.
    Toggle,
    /// The `play` flag file.
    Play,
    /// The `pause` flag file.
    Pause,
    /// The `next` flag file.
    Next,
    /// The `previous` flag file.
    Previous,
    /// The `stop` flag file.
    Stop,
    /// The `shuffle` flag file.
    Shuffle,
    /// The `repeat_song` flag file.
    RepeatSong,
    /// The `repeat_queue` flag file.
    RepeatQueue,
    /// The `repeat_off` flag file.
    RepeatOff,
    /// The `volume` payload file.
    Volume,
    /// The `seek` payload file.
    Seek,
    /// The `seek_forward` payload file.
    SeekForward,
    /// The `seek_backward` payload file.
    SeekBackward,
    /// The `index` payload file.
    Index,
    /// The `skip` payload file.
    Skip,
    /// The `back` payload file.
    Back,
    /// The `clear` payload file.
    Clear,
}

impl Signal {
    /// The file name that carries this signal.
    pub fn filename(&self) -> (r: &'static str)
        ensures
            *self is Toggle ==> r@ == "toggle"@,
            *self is Play ==> r@ == "play"@,
            *self is Pause ==> r@ == "pause"@,
            *self is Next ==> r@ == "next"@,
            *self is Previous ==> r@ == "previous"@,
            *self is Stop ==> r@ == "stop"@,
            *self is Shuffle ==> r@ == "shuffle"@,
            *self is RepeatSong ==> r@ == "repeat_song"@,
            *self is RepeatQueue ==> r@ == "repeat_queue"@,
            *self is RepeatOff ==> r@ == "repeat_off"@,
            *self is Volume ==> r@ == "volume"@,
            *self is Seek ==> r@ == "seek"@,
            *self is SeekForward ==> r@ == "seek_forward"@,
            *self is SeekBackward ==> r@ == "seek_backward"@,
            *self is Index ==> r@ == "index"@,
            *self is Skip ==> r@ == "skip"@,
            *self is Back ==> r@ == "back"@,
            *self is Clear ==> r@ == "clear"@,
    {
        match self {
            Signal::Toggle => "toggle",
            Signal::Play => "play",
            Signal::Pause => "pause",
            Signal::Next => "next",
            Signal::Previous => "previous",
            Signal::Stop => "stop",
            Signal::Shuffle => "shuffle",
            Signal::RepeatSong => "repeat_song",
            Signal::RepeatQueue => "repeat_queue",
            Signal::RepeatOff => "repeat_off",
            Signal::Volume => "volume",
            Signal::Seek => "seek",
            Signal::SeekForward => "seek_forward",
            Signal::SeekBackward => "seek_backward",
            Signal::Index => "index",
            Signal::Skip => "skip",
            Signal::Back => "back",
            Signal::Clear => "clear",
        }
    }
}

} // verus!
