//! The kernel: the single coordinator between front-ends, audio,
//! search, the watcher and the collection builder.
//!
//! The kernel itself is a message loop; what is verified here is
//! every decision it takes — how each inbound message routes, how a
//! rebuild hands collection handles around, and how a persisted
//! playback state is validated against the collection it will play
//! from. The channels and threads around these decisions live
//! outside the library.

use vstd::prelude::*;
use crate::audio::{Append, AudioState, Repeat, Seek, Volume};
use crate::collection::Collection;
use crate::key::{AlbumKey, ArtistKey, Keychain, SongKey};
use crate::phase::Phase;
use crate::search::SearchKind;
use crate::watch::WatchToKernel;

verus! {

/// Commands a front-end sends to the kernel.
#[derive(Clone, Debug)]
pub enum FrontendToKernel {
    /// Flip play/pause.
    Toggle,
    /// Start playback.
    Play,
    /// Pause playback.
    Pause,
    /// Advance the queue.
    Next,
    /// Restart or step back, per the previous threshold.
    Previous,
    /// Clear the queue and stop.
    Stop,
    /// Set the repeat mode.
    Repeat(Repeat),
    /// Set the volume.
    Volume(Volume),
    /// Seek inside the current song.
    Seek(Seek, u64),
    /// Enqueue one song.
    AddQueueSong(SongKey, Append, bool, bool),
    /// Enqueue a whole album.
    AddQueueAlbum(AlbumKey, Append, bool, bool),
    /// Enqueue everything by an artist.
    AddQueueArtist(ArtistKey, Append, bool, bool),
    /// Shuffle the queue.
    Shuffle,
    /// Clear the queue, optionally keeping the playing flag.
    Clear(bool),
    /// Skip forward by slots.
    Skip(usize),
    /// Step back by slots.
    Back(usize),
    /// Jump to a 0-based queue slot.
    SetQueueIndex(usize),
    /// Remove a half-open range of slots.
    RemoveQueueRange(usize, usize),
    /// Re-apply the persisted playback state.
    RestoreAudioState,
    /// Build a new collection from these root paths.
    NewCollection(Vec<String>),
    /// Run a similarity search.
    Search(String, SearchKind),
    /// Save everything and stop responding.
    Exit,
}

/// Commands the kernel sends to the audio engine.
#[derive(Clone, Debug)]
pub enum KernelToAudio {
    /// Flip play/pause.
    Toggle,
    /// Start playback.
    Play,
    /// Pause playback.
    Pause,
    /// Advance the queue.
    Next,
    /// Restart or step back, per the previous threshold.
    Previous,
    /// Set the repeat mode.
    Repeat(Repeat),
    /// Set the volume.
    Volume(Volume),
    /// Seek inside the current song.
    Seek(Seek, u64),
    /// Enqueue one song.
    AddQueueSong(SongKey, Append, bool, bool),
    /// Enqueue a whole album.
    AddQueueAlbum(AlbumKey, Append, bool, bool),
    /// Enqueue everything by an artist.
    AddQueueArtist(ArtistKey, Append, bool, bool),
    /// Shuffle the queue.
    Shuffle,
    /// Clear the queue, optionally keeping the playing flag.
    Clear(bool),
    /// Skip forward by slots.
    Skip(usize),
    /// Step back by slots.
    Back(usize),
    /// Jump to a 0-based queue slot.
    SetQueueIndex(usize),
    /// Remove a half-open range of slots.
    RemoveQueueRange(usize, usize),
    /// Re-apply the persisted playback state.
    RestoreAudioState,
    /// Drop the collection handle before a rebuild.
    DropCollection,
    /// Pick up the new collection handle.
    NewCollection,
}

/// Commands the kernel sends to the search engine.
#[derive(Clone, Debug)]
pub enum KernelToSearch {
    /// Run a similarity search.
    Search(String, SearchKind),
    /// Drop the collection handle before a rebuild.
    DropCollection,
    /// Pick up the new collection handle.
    NewCollection,
}

/// Events the audio engine reports to the kernel.
#[derive(Clone, Debug)]
pub enum AudioToKernel {
    /// The output device failed.
    DeviceError(String),
    /// A song failed to start.
    PlayError(String),
    /// The decoder refused a seek.
    SeekError(String),
    /// A song's file vanished since the scan.
    PathError(SongKey, String),
}

/// Events the kernel sends to front-ends.
#[derive(Clone, Debug)]
pub enum KernelToFrontend {
    /// A new collection is in place.
    NewCollection,
    /// The rebuild failed; the old collection stays, with this
    /// message.
    Failed(String),
    /// A search result.
    SearchResp(Keychain),
    /// The output device failed.
    DeviceError(String),
    /// A song failed to start.
    PlayError(String),
    /// The decoder refused a seek.
    SeekError(String),
    /// A song's file vanished since the scan.
    PathError(SongKey, String),
    /// The kernel saved everything and will now ignore messages; the
    /// payload carries the save error, if saving failed.
    Exit(Option<String>),
}

/// Where the kernel routes one front-end command.
#[derive(Clone, Debug)]
pub enum KernelAction {
    /// Forward to the audio engine.
    ToAudio(KernelToAudio),
    /// Forward to the search engine.
    ToSearch(KernelToSearch),
    /// Start a collection rebuild over these roots.
    StartRebuild(Vec<String>),
    /// Save everything and stop responding.
    SaveAndExit,
}

/// Progress of a rebuild: the phase, a whole-number percentage, and
/// how many files of the parse phase are done.
#[derive(Clone, Debug)]
pub struct ResetState {
    /// Whether a rebuild is running.
    pub resetting: bool,
    /// The current phase.
    pub phase: Phase,
    /// Whole-number percentage, `0..=100`.
    pub percent: u8,
    /// The name of the item being worked on.
    pub current: String,
}

impl ResetState {
    /// The idle progress state.
    pub fn new() -> (r: Self)
        ensures
            !r.resetting,
            r.phase is Idle,
            r.percent == 0,
    {
        ResetState { resetting: false, phase: Phase::Idle, percent: 0, current: String::new() }
    }

    /// A rebuild begins.
    pub fn start(&mut self)
        ensures
            final(self).resetting,
            final(self).phase is Start,
            final(self).percent == 0,
    {
        self.resetting = true;
        self.phase = Phase::Start;
        self.percent = 0;
    }

    /// A new phase begins at a given percentage.
    pub fn new_phase(&mut self, percent: u8, phase: Phase)
        requires
            percent <= 100,
        ensures
            final(self).resetting == old(self).resetting,
            final(self).phase == phase,
            final(self).percent == percent,
    {
        self.phase = phase;
        self.percent = percent;
    }

    /// One more item of the current phase is done: remember its name
    /// and advance the percentage, saturating at 100.
    pub fn new_increment(&mut self, step: u8, current: String)
        ensures
            final(self).resetting == old(self).resetting,
            final(self).phase == old(self).phase,
            final(self).percent == if old(self).percent + step > 100 {
                100u8
            } else {
                (old(self).percent + step) as u8
            },
            final(self).current@ == current@,
    {
        let next: u16 = self.percent as u16 + step as u16;
        self.percent = if next > 100 {
            100
        } else {
            next as u8
        };
        self.current = current;
    }

    /// The rebuild is over.
    pub fn done(&mut self)
        ensures
            !final(self).resetting,
            final(self).phase is Idle,
            final(self).percent == 100,
    {
        self.resetting = false;
        self.phase = Phase::Idle;
        self.percent = 100;
    }
}

/// Which collection snapshot each subsystem currently holds, by
/// generation number. The kernel and the front-ends always hold one;
/// audio and search drop theirs during a rebuild.
#[derive(Clone, Copy, Debug, PartialEq, Eq, Structural)]
pub struct HandleState {
    /// The kernel's handle.
    pub kernel: u64,
    /// The audio engine's handle, dropped during rebuilds.
    pub audio: Option<u64>,
    /// The search engine's handle, dropped during rebuilds.
    pub search: Option<u64>,
    /// The front-ends' handle.
    pub frontend: u64,
}

impl HandleState {
    /// Outside a rebuild, everyone holds the same snapshot.
    pub open spec fn all_hold(&self, id: u64) -> bool {
        &&& self.kernel == id
        &&& self.audio == Option::Some(id)
        &&& self.search == Option::Some(id)
        &&& self.frontend == id
    }

    /// The initial distribution: everyone holds the boot snapshot.
    pub fn boot(id: u64) -> (r: Self)
        ensures
            r.all_hold(id),
    {
        HandleState { kernel: id, audio: Some(id), search: Some(id), frontend: id }
    }

    /// A rebuild starts: audio and search are told to drop their
    /// handles, while the kernel and the front-ends keep the old one
    /// so it survives a failure.
    pub fn start_rebuild(&mut self)
        ensures
            final(self).kernel == old(self).kernel,
            final(self).frontend == old(self).frontend,
            final(self).audio is None,
            final(self).search is None,
    {
        self.audio = None;
        self.search = None;
    }

    /// A rebuild ends. On success, everyone picks up the new
    /// snapshot. On failure, everyone gets the old snapshot back —
    /// the one the kernel kept — and the front-ends are told why.
    pub fn finish_rebuild(&mut self, outcome: Result<u64, String>) -> (ev: KernelToFrontend)
        ensures
            outcome is Ok ==> final(self).all_hold(outcome->Ok_0) && ev is NewCollection,
            outcome is Err ==> final(self).all_hold(old(self).kernel) && ev is Failed
                && ev->Failed_0@ == outcome->Err_0@,
    {
        match outcome {
            Ok(new_id) => {
                self.kernel = new_id;
                self.audio = Some(new_id);
                self.search = Some(new_id);
                self.frontend = new_id;
                KernelToFrontend::NewCollection
            },
            Err(msg) => {
                let id = self.kernel;
                self.audio = Some(id);
                self.search = Some(id);
                self.frontend = id;
                KernelToFrontend::Failed(msg)
            },
        }
    }
}

/// The kernel's decision functions.
pub struct Kernel;

impl Kernel {
    /// Route one front-end command: transport, settings and queue
    /// commands go to audio, searches go to the search engine, and
    /// rebuilds and exit are the kernel's own.
    pub fn msg_frontend(msg: FrontendToKernel) -> (r: KernelAction)
        ensures
            msg is Toggle ==> r == KernelAction::ToAudio(KernelToAudio::Toggle),
            msg is Play ==> r == KernelAction::ToAudio(KernelToAudio::Play),
            msg is Pause ==> r == KernelAction::ToAudio(KernelToAudio::Pause),
            msg is Next ==> r == KernelAction::ToAudio(KernelToAudio::Next),
            msg is Previous ==> r == KernelAction::ToAudio(KernelToAudio::Previous),
            msg is Stop ==> r == KernelAction::ToAudio(KernelToAudio::Clear(false)),
            msg is Repeat ==> r == KernelAction::ToAudio(KernelToAudio::Repeat(msg->Repeat_0)),
            msg is Volume ==> r == KernelAction::ToAudio(KernelToAudio::Volume(msg->Volume_0)),
            msg is Seek ==> r == KernelAction::ToAudio(
                KernelToAudio::Seek(msg->Seek_0, msg->Seek_1),
            ),
            msg is Shuffle ==> r == KernelAction::ToAudio(KernelToAudio::Shuffle),
            msg is Clear ==> r == KernelAction::ToAudio(KernelToAudio::Clear(msg->Clear_0)),
            msg is Skip ==> r == KernelAction::ToAudio(KernelToAudio::Skip(msg->Skip_0)),
            msg is Back ==> r == KernelAction::ToAudio(KernelToAudio::Back(msg->Back_0)),
            msg is SetQueueIndex ==> r == KernelAction::ToAudio(
                KernelToAudio::SetQueueIndex(msg->SetQueueIndex_0),
            ),
            msg is RemoveQueueRange ==> r == KernelAction::ToAudio(
                KernelToAudio::RemoveQueueRange(msg->RemoveQueueRange_0, msg->RemoveQueueRange_1),
            ),
            msg is RestoreAudioState ==> r == KernelAction::ToAudio(
                KernelToAudio::RestoreAudioState,
            ),
            msg is AddQueueSong ==> r is ToAudio && r->ToAudio_0 is AddQueueSong,
            msg is AddQueueAlbum ==> r is ToAudio && r->ToAudio_0 is AddQueueAlbum,
            msg is AddQueueArtist ==> r is ToAudio && r->ToAudio_0 is AddQueueArtist,
            msg is Search ==> r is ToSearch && r->ToSearch_0 is Search,
            msg is NewCollection ==> r is StartRebuild && r->StartRebuild_0@
                == msg->NewCollection_0@,
            msg is Exit ==> r is SaveAndExit,
    {
        match msg {
            FrontendToKernel::Toggle => KernelAction::ToAudio(KernelToAudio::Toggle),
            FrontendToKernel::Play => KernelAction::ToAudio(KernelToAudio::Play),
            FrontendToKernel::Pause => KernelAction::ToAudio(KernelToAudio::Pause),
            FrontendToKernel::Next => KernelAction::ToAudio(KernelToAudio::Next),
            FrontendToKernel::Previous => KernelAction::ToAudio(KernelToAudio::Previous),
            FrontendToKernel::Stop => KernelAction::ToAudio(KernelToAudio::Clear(false)),
            FrontendToKernel::Repeat(m) => KernelAction::ToAudio(KernelToAudio::Repeat(m)),
            FrontendToKernel::Volume(v) => KernelAction::ToAudio(KernelToAudio::Volume(v)),
            FrontendToKernel::Seek(k, n) => KernelAction::ToAudio(KernelToAudio::Seek(k, n)),
            FrontendToKernel::AddQueueSong(k, a, c, p) => KernelAction::ToAudio(
                KernelToAudio::AddQueueSong(k, a, c, p),
            ),
            FrontendToKernel::AddQueueAlbum(k, a, c, p) => KernelAction::ToAudio(
                KernelToAudio::AddQueueAlbum(k, a, c, p),
            ),
            FrontendToKernel::AddQueueArtist(k, a, c, p) => KernelAction::ToAudio(
                KernelToAudio::AddQueueArtist(k, a, c, p),
            ),
            FrontendToKernel::Shuffle => KernelAction::ToAudio(KernelToAudio::Shuffle),
            FrontendToKernel::Clear(p) => KernelAction::ToAudio(KernelToAudio::Clear(p)),
            FrontendToKernel::Skip(n) => KernelAction::ToAudio(KernelToAudio::Skip(n)),
            FrontendToKernel::Back(n) => KernelAction::ToAudio(KernelToAudio::Back(n)),
            FrontendToKernel::SetQueueIndex(i) => KernelAction::ToAudio(
                KernelToAudio::SetQueueIndex(i),
            ),
            FrontendToKernel::RemoveQueueRange(s, e) => KernelAction::ToAudio(
                KernelToAudio::RemoveQueueRange(s, e),
            ),
            FrontendToKernel::RestoreAudioState => KernelAction::ToAudio(
                KernelToAudio::RestoreAudioState,
            ),
            FrontendToKernel::NewCollection(paths) => KernelAction::StartRebuild(paths),
            FrontendToKernel::Search(q, k) => KernelAction::ToSearch(KernelToSearch::Search(q, k)),
            FrontendToKernel::Exit => KernelAction::SaveAndExit,
        }
    }

    /// Route one watcher command to the audio engine. Stop becomes a
    /// full clear, and the repeat signals pick their mode.
    pub fn msg_watch(msg: WatchToKernel) -> (r: KernelToAudio)
        ensures
            msg is Toggle ==> r is Toggle,
            msg is Play ==> r is Play,
            msg is Pause ==> r is Pause,
            msg is Next ==> r is Next,
            msg is Previous ==> r is Previous,
            msg is Stop ==> r == KernelToAudio::Clear(false),
            msg is Shuffle ==> r is Shuffle,
            msg is RepeatSong ==> r == KernelToAudio::Repeat(Repeat::Song),
            msg is RepeatQueue ==> r == KernelToAudio::Repeat(Repeat::Queue),
            msg is RepeatOff ==> r == KernelToAudio::Repeat(Repeat::Off),
            msg is Volume ==> r == KernelToAudio::Volume(msg->Volume_0),
            msg is Seek ==> r == KernelToAudio::Seek(Seek::Absolute, msg->Seek_0),
            msg is SeekForward ==> r == KernelToAudio::Seek(Seek::Forward, msg->SeekForward_0),
            msg is SeekBackward ==> r == KernelToAudio::Seek(Seek::Backward, msg->SeekBackward_0),
            msg is Index ==> r == KernelToAudio::SetQueueIndex(msg->Index_0),
            msg is Skip ==> r == KernelToAudio::Skip(msg->Skip_0),
            msg is Back ==> r == KernelToAudio::Back(msg->Back_0),
            msg is Clear ==> r == KernelToAudio::Clear(msg->Clear_0),
    {
        match msg {
            WatchToKernel::Toggle => KernelToAudio::Toggle,
            WatchToKernel::Play => KernelToAudio::Play,
            WatchToKernel::Pause => KernelToAudio::Pause,
            WatchToKernel::Next => KernelToAudio::Next,
            WatchToKernel::Previous => KernelToAudio::Previous,
            WatchToKernel::Stop => KernelToAudio::Clear(false),
            WatchToKernel::Shuffle => KernelToAudio::Shuffle,
            WatchToKernel::RepeatSong => KernelToAudio::Repeat(Repeat::Song),
            WatchToKernel::RepeatQueue => KernelToAudio::Repeat(Repeat::Queue),
            WatchToKernel::RepeatOff => KernelToAudio::Repeat(Repeat::Off),
            WatchToKernel::Volume(v) => KernelToAudio::Volume(v),
            WatchToKernel::Seek(n) => KernelToAudio::Seek(Seek::Absolute, n),
            WatchToKernel::SeekForward(n) => KernelToAudio::Seek(Seek::Forward, n),
            WatchToKernel::SeekBackward(n) => KernelToAudio::Seek(Seek::Backward, n),
            WatchToKernel::Index(i) => KernelToAudio::SetQueueIndex(i),
            WatchToKernel::Skip(n) => KernelToAudio::Skip(n),
            WatchToKernel::Back(n) => KernelToAudio::Back(n),
            WatchToKernel::Clear(b) => KernelToAudio::Clear(b),
        }
    }

    /// Pass one audio event up to the front-ends unchanged.
    pub fn msg_audio(msg: AudioToKernel) -> (r: KernelToFrontend)
        ensures
            msg is DeviceError ==> r is DeviceError && r->DeviceError_0@ == msg->DeviceError_0@,
            msg is PlayError ==> r is PlayError && r->PlayError_0@ == msg->PlayError_0@,
            msg is SeekError ==> r is SeekError && r->SeekError_0@ == msg->SeekError_0@,
            msg is PathError ==> r is PathError && r->PathError_0 == msg->PathError_0
                && r->PathError_1@ == msg->PathError_1@,
    {
        match msg {
            AudioToKernel::DeviceError(s) => KernelToFrontend::DeviceError(s),
            AudioToKernel::PlayError(s) => KernelToFrontend::PlayError(s),
            AudioToKernel::SeekError(s) => KernelToFrontend::SeekError(s),
            AudioToKernel::PathError(k, s) => KernelToFrontend::PathError(k, s),
        }
    }

    /// Validate a restored playback state against the collection it
    /// will play from: if it has a current song that does not
    /// resolve, fall back to the idle state; a state with no current
    /// song is kept as it is.
    pub fn validate_audio_state(state: AudioState, c: &Collection) -> (r: AudioState)
        requires
            state.wf(),
        ensures
            r.wf(),
            state.song is None ==> r == state,
            state.song is Some && state.song->0.idx < c.songs@.len() ==> r == state,
            state.song is Some && state.song->0.idx >= c.songs@.len() ==> r.queue@.len() == 0
                && r.queue_idx is None && r.song is None && !r.playing,
    {
        match state.song {
            None => state,
            Some(k) => {
                if k.idx < c.songs.len() {
                    state
                } else {
                    AudioState::new()
                }
            },
        }
    }
}

} // verus!
