//! The command-line surface: which signal files a launch with
//! command flags writes before it exits.
//!
//! Argument parsing itself happens outside the library; the parsed
//! flags arrive here as a plain [`Cli`] value, and the decision of
//! which signals to emit — and in what order — is verified.

use vstd::prelude::*;
use crate::watch::Signal;

verus! {

/// A parsed command line: every command flag, and the two switches a
/// full launch keeps for itself.
#[derive(Clone, Copy, Debug, PartialEq, Eq, Structural)]
pub struct Cli {
    /// `--play`
    pub play: bool,
    /// `--pause`
    pub pause: bool,
    /// `--toggle`
    pub toggle: bool,
    /// `--next`
    pub next: bool,
    /// `--previous`
    pub previous: bool,
    /// `--stop`
    pub stop: bool,
    /// `--clear`
    pub clear: bool,
    /// `--shuffle`
    pub shuffle: bool,
    /// `--repeat-song`
    pub repeat_song: bool,
    /// `--repeat-queue`
    pub repeat_queue: bool,
    /// `--repeat-off`
    pub repeat_off: bool,
    /// `--volume <0..=100>`
    pub volume: Option<u8>,
    /// `--seek <sec>`
    pub seek: Option<u64>,
    /// `--seek-forward <sec>`
    pub seek_forward: Option<u64>,
    /// `--seek-backward <sec>`
    pub seek_backward: Option<u64>,
    /// `--index <1..>`
    pub index: Option<usize>,
    /// `--skip <n>`
    pub skip: Option<usize>,
    /// `--back <n>`
    pub back: Option<usize>,
    /// `--disable-watch`
    pub disable_watch: bool,
    /// `--disable-media-controls`
    pub disable_media_controls: bool,
}

/// One signal file write a launch performs: the signal, and the
/// payload value for payload signals.
#[derive(Clone, Copy, Debug, PartialEq, Eq, Structural)]
pub enum SignalWrite {
    /// Touch a flag file.
    Flag(Signal),
    /// Write the volume payload, already clamped to 100.
    VolumeValue(u8),
    /// Write a seconds payload for one of the seek signals.
    Seconds(Signal, u64),
    /// Write a count payload for index, skip or back.
    Count(Signal, usize),
    /// Write the clear payload.
    ClearValue(bool),
}

/// The `toggle` write slot of a command line.
pub open spec fn wslot_toggle(c: Cli) -> Option<SignalWrite> {
    if c.toggle {
        Option::Some(SignalWrite::Flag(Signal::Toggle))
    } else {
        Option::None
    }
}

/// The `pause` write slot of a command line.
pub open spec fn wslot_pause(c: Cli) -> Option<SignalWrite> {
    if c.pause {
        Option::Some(SignalWrite::Flag(Signal::Pause))
    } else {
        Option::None
    }
}

/// The `play` write slot of a command line.
pub open spec fn wslot_play(c: Cli) -> Option<SignalWrite> {
    if c.play {
        Option::Some(SignalWrite::Flag(Signal::Play))
    } else {
        Option::None
    }
}

/// The `next` write slot of a command line.
pub open spec fn wslot_next(c: Cli) -> Option<SignalWrite> {
    if c.next {
        Option::Some(SignalWrite::Flag(Signal::Next))
    } else {
        Option::None
    }
}

/// The `previous` write slot of a command line.
pub open spec fn wslot_previous(c: Cli) -> Option<SignalWrite> {
    if c.previous {
        Option::Some(SignalWrite::Flag(Signal::Previous))
    } else {
        Option::None
    }
}

/// The `stop` write slot of a command line.
pub open spec fn wslot_stop(c: Cli) -> Option<SignalWrite> {
    if c.stop {
        Option::Some(SignalWrite::Flag(Signal::Stop))
    } else {
        Option::None
    }
}

/// The `clear` write slot of a command line.
pub open spec fn wslot_clear(c: Cli) -> Option<SignalWrite> {
    if c.clear {
        Option::Some(SignalWrite::ClearValue(true))
    } else {
        Option::None
    }
}

/// The `shuffle` write slot of a command line.
pub open spec fn wslot_shuffle(c: Cli) -> Option<SignalWrite> {
    if c.shuffle {
        Option::Some(SignalWrite::Flag(Signal::Shuffle))
    } else {
        Option::None
    }
}

/// The `repeat_song` write slot of a command line.
pub open spec fn wslot_repeat_song(c: Cli) -> Option<SignalWrite> {
    if c.repeat_song {
        Option::Some(SignalWrite::Flag(Signal::RepeatSong))
    } else {
        Option::None
    }
}

/// The `repeat_queue` write slot of a command line.
pub open spec fn wslot_repeat_queue(c: Cli) -> Option<SignalWrite> {
    if c.repeat_queue {
        Option::Some(SignalWrite::Flag(Signal::RepeatQueue))
    } else {
        Option::None
    }
}

/// The `repeat_off` write slot of a command line.
pub open spec fn wslot_repeat_off(c: Cli) -> Option<SignalWrite> {
    if c.repeat_off {
        Option::Some(SignalWrite::Flag(Signal::RepeatOff))
    } else {
        Option::None
    }
}

/// The `volume` write slot of a command line.
pub open spec fn wslot_volume(c: Cli) -> Option<SignalWrite> {
    match c.volume {
        Option::Some(v) => Option::Some(
            SignalWrite::VolumeValue(
                if v > 100 {
                    100u8
                } else {
                    v
                },
            ),
        ),
        Option::None => Option::None,
    }
}

/// The `seek` write slot of a command line.
pub open spec fn wslot_seek(c: Cli) -> Option<SignalWrite> {
    match c.seek {
        Option::Some(v) => Option::Some(SignalWrite::Seconds(Signal::Seek, v)),
        Option::None => Option::None,
    }
}

/// The `seek_forward` write slot of a command line.
pub open spec fn wslot_seek_forward(c: Cli) -> Option<SignalWrite> {
    match c.seek_forward {
        Option::Some(v) => Option::Some(SignalWrite::Seconds(Signal::SeekForward, v)),
        Option::None => Option::None,
    }
}

/// The `seek_backward` write slot of a command line.
pub open spec fn wslot_seek_backward(c: Cli) -> Option<SignalWrite> {
    match c.seek_backward {
        Option::Some(v) => Option::Some(SignalWrite::Seconds(Signal::SeekBackward, v)),
        Option::None => Option::None,
    }
}

/// The `index` write slot of a command line.
pub open spec fn wslot_index(c: Cli) -> Option<SignalWrite> {
    match c.index {
        Option::Some(n) => Option::Some(SignalWrite::Count(Signal::Index, n)),
        Option::None => Option::None,
    }
}

/// The `skip` write slot of a command line.
pub open spec fn wslot_skip(c: Cli) -> Option<SignalWrite> {
    match c.skip {
        Option::Some(n) => Option::Some(SignalWrite::Count(Signal::Skip, n)),
        Option::None => Option::None,
    }
}

/// The `back` write slot of a command line.
pub open spec fn wslot_back(c: Cli) -> Option<SignalWrite> {
    match c.back {
        Option::Some(n) => Option::Some(SignalWrite::Count(Signal::Back, n)),
        Option::None => Option::None,
    }
}

/// The eighteen write slots of a command line, in the order the
/// writes are performed.
pub open spec fn spec_write_slots(c: Cli) -> Seq<Option<SignalWrite>> {
    seq![
        wslot_toggle(c),
        wslot_pause(c),
        wslot_play(c),
        wslot_next(c),
        wslot_previous(c),
        wslot_stop(c),
        wslot_clear(c),
        wslot_shuffle(c),
        wslot_repeat_song(c),
        wslot_repeat_queue(c),
        wslot_repeat_off(c),
        wslot_volume(c),
        wslot_seek(c),
        wslot_seek_forward(c),
        wslot_seek_backward(c),
        wslot_index(c),
        wslot_skip(c),
        wslot_back(c),
    ]
}

/// Drop the empty slots, keeping order.
pub open spec fn flatten_writes(o: Seq<Option<SignalWrite>>) -> Seq<SignalWrite>
    decreases o.len(),
{
    if o.len() == 0 {
        Seq::empty()
    } else {
        flatten_writes(o.drop_last()) + (match o.last() {
            Option::Some(m) => seq![m],
            Option::None => Seq::empty(),
        })
    }
}

/// The signal writes a parsed command line asks for, in the order
/// they are performed.
pub open spec fn spec_signal_writes(c: Cli) -> Seq<SignalWrite> {
    flatten_writes(spec_write_slots(c))
}

/// A run of empty slots flattens to nothing.
proof fn lemma_flatten_none(o: Seq<Option<SignalWrite>>)
    requires
        forall|i: int| 0 <= i < o.len() ==> (#[trigger] o[i]) is None,
    ensures
        flatten_writes(o).len() == 0,
    decreases o.len(),
{
    if o.len() > 0 {
        lemma_flatten_none(o.drop_last());
    }
}

/// Compute [`wslot_toggle`].
fn exec_wslot_toggle(s: &Cli) -> (r: Option<SignalWrite>)
    ensures
        r == wslot_toggle(*s),
{
    if s.toggle {
        Some(SignalWrite::Flag(Signal::Toggle))
    } else {
        None
    }
}

/// Compute [`wslot_pause`].
fn exec_wslot_pause(s: &Cli) -> (r: Option<SignalWrite>)
    ensures
        r == wslot_pause(*s),
{
    if s.pause {
        Some(SignalWrite::Flag(Signal::Pause))
    } else {
        None
    }
}

/// Compute [`wslot_play`].
fn exec_wslot_play(s: &Cli) -> (r: Option<SignalWrite>)
    ensures
        r == wslot_play(*s),
{
    if s.play {
        Some(SignalWrite::Flag(Signal::Play))
    } else {
        None
    }
}

/// Compute [`wslot_next`].
fn exec_wslot_next(s: &Cli) -> (r: Option<SignalWrite>)
    ensures
        r == wslot_next(*s),
{
    if s.next {
        Some(SignalWrite::Flag(Signal::Next))
    } else {
        None
    }
}

/// Compute [`wslot_previous`].
fn exec_wslot_previous(s: &Cli) -> (r: Option<SignalWrite>)
    ensures
        r == wslot_previous(*s),
{
    if s.previous {
        Some(SignalWrite::Flag(Signal::Previous))
    } else {
        None
    }
}

/// Compute [`wslot_stop`].
fn exec_wslot_stop(s: &Cli) -> (r: Option<SignalWrite>)
    ensures
        r == wslot_stop(*s),
{
    if s.stop {
        Some(SignalWrite::Flag(Signal::Stop))
    } else {
        None
    }
}

/// Compute [`wslot_clear`].
fn exec_wslot_clear(s: &Cli) -> (r: Option<SignalWrite>)
    ensures
        r == wslot_clear(*s),
{
    if s.clear {
        Some(SignalWrite::ClearValue(true))
    } else {
        None
    }
}

/// Compute [`wslot_shuffle`].
fn exec_wslot_shuffle(s: &Cli) -> (r: Option<SignalWrite>)
    ensures
        r == wslot_shuffle(*s),
{
    if s.shuffle {
        Some(SignalWrite::Flag(Signal::Shuffle))
    } else {
        None
    }
}

/// Compute [`wslot_repeat_song`].
fn exec_wslot_repeat_song(s: &Cli) -> (r: Option<SignalWrite>)
    ensures
        r == wslot_repeat_song(*s),
{
    if s.repeat_song {
        Some(SignalWrite::Flag(Signal::RepeatSong))
    } else {
        None
    }
}

/// Compute [`wslot_repeat_queue`].
fn exec_wslot_repeat_queue(s: &Cli) -> (r: Option<SignalWrite>)
    ensures
        r == wslot_repeat_queue(*s),
{
    if s.repeat_queue {
        Some(SignalWrite::Flag(Signal::RepeatQueue))
    } else {
        None
    }
}

/// Compute [`wslot_repeat_off`].
fn exec_wslot_repeat_off(s: &Cli) -> (r: Option<SignalWrite>)
    ensures
        r == wslot_repeat_off(*s),
{
    if s.repeat_off {
        Some(SignalWrite::Flag(Signal::RepeatOff))
    } else {
        None
    }
}

/// Compute [`wslot_volume`].
fn exec_wslot_volume(s: &Cli) -> (r: Option<SignalWrite>)
    ensures
        r == wslot_volume(*s),
{
    match s.volume {
        Some(v) => Some(SignalWrite::VolumeValue(if v > 100 {
            100
        } else {
            v
        })),
        None => None,
    }
}

/// Compute [`wslot_seek`].
fn exec_wslot_seek(s: &Cli) -> (r: Option<SignalWrite>)
    ensures
        r == wslot_seek(*s),
{
    match s.seek {
        Some(v) => Some(SignalWrite::Seconds(Signal::Seek, v)),
        None => None,
    }
}

/// Compute [`wslot_seek_forward`].
fn exec_wslot_seek_forward(s: &Cli) -> (r: Option<SignalWrite>)
    ensures
        r == wslot_seek_forward(*s),
{
    match s.seek_forward {
        Some(v) => Some(SignalWrite::Seconds(Signal::SeekForward, v)),
        None => None,
    }
}

/// Compute [`wslot_seek_backward`].
fn exec_wslot_seek_backward(s: &Cli) -> (r: Option<SignalWrite>)
    ensures
        r == wslot_seek_backward(*s),
{
    match s.seek_backward {
        Some(v) => Some(SignalWrite::Seconds(Signal::SeekBackward, v)),
        None => None,
    }
}

/// Compute [`wslot_index`].
fn exec_wslot_index(s: &Cli) -> (r: Option<SignalWrite>)
    ensures
        r == wslot_index(*s),
{
    match s.index {
        Some(n) => Some(SignalWrite::Count(Signal::Index, n)),
        None => None,
    }
}

/// Compute [`wslot_skip`].
fn exec_wslot_skip(s: &Cli) -> (r: Option<SignalWrite>)
    ensures
        r == wslot_skip(*s),
{
    match s.skip {
        Some(n) => Some(SignalWrite::Count(Signal::Skip, n)),
        None => None,
    }
}

/// Compute [`wslot_back`].
fn exec_wslot_back(s: &Cli) -> (r: Option<SignalWrite>)
    ensures
        r == wslot_back(*s),
{
    match s.back {
        Some(n) => Some(SignalWrite::Count(Signal::Back, n)),
        None => None,
    }
}

impl Cli {
    /// A command line with nothing set: a plain launch.
    pub fn get() -> (r: Self)
        ensures
            spec_signal_writes(r).len() == 0,
            !r.disable_watch,
            !r.disable_media_controls,
    {
        let r = Cli {
            play: false,
            pause: false,
            toggle: false,
            next: false,
            previous: false,
            stop: false,
            clear: false,
            shuffle: false,
            repeat_song: false,
            repeat_queue: false,
            repeat_off: false,
            volume: None,
            seek: None,
            seek_forward: None,
            seek_backward: None,
            index: None,
            skip: None,
            back: None,
            disable_watch: false,
            disable_media_controls: false,
        };
        proof {
            let o = spec_write_slots(r);
            assert(forall|i: int| 0 <= i < o.len() ==> (#[trigger] o[i]) is None);
            lemma_flatten_none(o);
        }
        r
    }

    /// The signal writes this command line asks for, in order, plus
    /// the two switches a full launch keeps: whether to disable the
    /// watcher and the media controls.
    pub fn handle_args(&self) -> (r: (Vec<SignalWrite>, bool, bool))
        ensures
            r.0@ == spec_signal_writes(*self),
            r.1 == self.disable_watch,
            r.2 == self.disable_media_controls,
    {
        let mut w: Vec<Option<SignalWrite>> = Vec::new();
        w.push(exec_wslot_toggle(self));
        w.push(exec_wslot_pause(self));
        w.push(exec_wslot_play(self));
        w.push(exec_wslot_next(self));
        w.push(exec_wslot_previous(self));
        w.push(exec_wslot_stop(self));
        w.push(exec_wslot_clear(self));
        w.push(exec_wslot_shuffle(self));
        w.push(exec_wslot_repeat_song(self));
        w.push(exec_wslot_repeat_queue(self));
        w.push(exec_wslot_repeat_off(self));
        w.push(exec_wslot_volume(self));
        w.push(exec_wslot_seek(self));
        w.push(exec_wslot_seek_forward(self));
        w.push(exec_wslot_seek_backward(self));
        w.push(exec_wslot_index(self));
        w.push(exec_wslot_skip(self));
        w.push(exec_wslot_back(self));
        proof {
            assert(w@ =~= spec_write_slots(*self));
        }
        let mut out: Vec<SignalWrite> = Vec::new();
        let mut i: usize = 0;
        proof {
            assert(w@.subrange(0, 0) =~= Seq::<Option<SignalWrite>>::empty());
        }
        while i < w.len()
            invariant
                i <= w@.len(),
                out@ =~= flatten_writes(w@.subrange(0, i as int)),
            decreases w@.len() - i,
        {
            match w[i] {
                Some(m) => out.push(m),
                None => {},
            }
            proof {
                let pre = w@.subrange(0, i as int);
                let post = w@.subrange(0, i as int + 1);
                assert(post.drop_last() =~= pre);
                assert(post.last() == w@[i as int]);
                assert(out@ =~= flatten_writes(post));
            }
            i = i + 1;
        }
        proof {
            assert(w@.subrange(0, w@.len() as int) =~= w@);
        }
        (out, self.disable_watch, self.disable_media_controls)
    }
}

} // verus!
