//! Tests of the playback state machine, the on-disk state codec,
//! the kernel's decisions and the signal decoding.

use shukusai::audio::{Append, AudioState, Repeat, Seek, Volume};
use shukusai::cli::{Cli, SignalWrite};
use shukusai::kernel::{AudioToKernel, HandleState, Kernel, KernelToAudio, KernelToFrontend};
use shukusai::key::SongKey;
use shukusai::persist::{decode_audio_state, encode_audio_state};
use shukusai::watch::{Signal, SignalSnapshot, WatchToKernel};

fn keyed(idxs: &[usize]) -> Vec<SongKey> {
    idxs.iter().map(|i| SongKey::new(*i)).collect()
}

fn playing_state(queue: &[usize], cursor: usize) -> AudioState {
    let mut s = AudioState::new();
    s.add_queue_songs(&keyed(queue), Append::Back, false, true);
    s.set_queue_index(cursor);
    s
}

#[test]
fn volume_clamps_to_100() {
    assert_eq!(Volume::new(187).inner(), 100);
    assert_eq!(Volume::new(101).inner(), 100);
    assert_eq!(Volume::new(100).inner(), 100);
    assert_eq!(Volume::new(55).inner(), 55);
    assert_eq!(Volume::new(0).inner(), 0);
}

#[test]
fn volume_zero_does_not_pause() {
    let mut s = playing_state(&[0, 1, 2], 0);
    assert!(s.playing);
    s.set_volume(Volume::new(0));
    assert!(s.playing);
    assert_eq!(s.volume.inner(), 0);
}

#[test]
fn repeat_queue_wraps_on_next() {
    let mut s = playing_state(&[10, 11, 12], 2);
    s.set_repeat(Repeat::Queue);
    s.next();
    assert_eq!(s.queue_idx, Some(0));
    assert_eq!(s.song, Some(SongKey::new(10)));
    assert!(s.playing);
}

#[test]
fn repeat_off_ends_on_next() {
    let mut s = playing_state(&[10, 11, 12], 2);
    s.next();
    assert_eq!(s.queue_idx, None);
    assert_eq!(s.song, None);
    assert!(!s.playing);
}

#[test]
fn previous_threshold_rule() {
    // Song length 100s, threshold 5s, position 10s: previous
    // restarts the current song.
    let mut s = playing_state(&[10, 11, 12], 1);
    s.runtime = 100;
    s.seek(Seek::Absolute, 10);
    s.previous(5);
    assert_eq!(s.queue_idx, Some(1));
    assert_eq!(s.elapsed, 0);

    // Position 3s, before the threshold: previous moves to the
    // prior slot.
    let mut s = playing_state(&[10, 11, 12], 1);
    s.runtime = 100;
    s.seek(Seek::Absolute, 3);
    s.previous(5);
    assert_eq!(s.queue_idx, Some(0));

    // At slot zero, the song restarts regardless.
    let mut s = playing_state(&[10, 11, 12], 0);
    s.runtime = 100;
    s.seek(Seek::Absolute, 3);
    s.previous(5);
    assert_eq!(s.queue_idx, Some(0));
}

#[test]
fn seek_saturates_at_track_bounds() {
    let mut s = playing_state(&[7], 0);
    s.runtime = 100;
    s.seek(Seek::Absolute, 500);
    assert_eq!(s.elapsed, 100);
    s.seek(Seek::Backward, 7);
    assert_eq!(s.elapsed, 93);
    s.seek(Seek::Backward, 500);
    assert_eq!(s.elapsed, 0);
    s.seek(Seek::Forward, 42);
    assert_eq!(s.elapsed, 42);
    s.seek(Seek::Forward, 1000);
    assert_eq!(s.elapsed, 100);
}

#[test]
fn set_queue_index_out_of_bounds_ends_queue() {
    let mut s = playing_state(&[1, 2, 3], 0);
    s.set_repeat(Repeat::Queue);
    s.set_queue_index(3);
    // Out of bounds ends the queue even under queue repeat.
    assert_eq!(s.queue_idx, None);
    assert!(!s.playing);
    // The queue itself survives.
    assert_eq!(s.queue.len(), 3);
}

#[test]
fn toggle_flips_play_pause() {
    let mut s = playing_state(&[1], 0);
    assert!(s.playing);
    s.toggle();
    assert!(!s.playing);
    s.toggle();
    assert!(s.playing);
    // Play and pause are idempotent.
    s.play();
    s.play();
    assert!(s.playing);
    s.pause();
    s.pause();
    assert!(!s.playing);
}

#[test]
fn remove_queue_range_moves_or_stops_cursor() {
    // Removing a range past the cursor keeps it in place.
    let mut s = playing_state(&[1, 2, 3, 4], 0);
    s.remove_queue_range(2, 4);
    assert_eq!(s.queue, keyed(&[1, 2]));
    assert_eq!(s.queue_idx, Some(0));

    // Removing a range that swallows the cursor stops playback.
    let mut s = playing_state(&[1, 2, 3, 4], 1);
    s.remove_queue_range(0, 2);
    assert_eq!(s.queue, keyed(&[3, 4]));
    assert_eq!(s.queue_idx, None);
    assert!(!s.playing);

    // A cursor past the range slides left with its song.
    let mut s = playing_state(&[1, 2, 3, 4], 3);
    s.remove_queue_range(0, 2);
    assert_eq!(s.queue_idx, Some(1));
    assert_eq!(s.song, Some(SongKey::new(4)));
}

#[test]
fn add_queue_songs_splices() {
    let mut s = AudioState::new();
    s.add_queue_songs(&keyed(&[5, 6]), Append::Back, false, true);
    assert_eq!(s.queue, keyed(&[5, 6]));
    assert_eq!(s.queue_idx, Some(0));
    assert!(s.playing);
    s.add_queue_songs(&keyed(&[7]), Append::Front, false, false);
    assert_eq!(s.queue, keyed(&[7, 5, 6]));
    // The cursor followed its song.
    assert_eq!(s.queue_idx, Some(1));
    assert_eq!(s.song, Some(SongKey::new(5)));
    s.add_queue_songs(&keyed(&[8]), Append::Index(1), false, false);
    assert_eq!(s.queue, keyed(&[7, 8, 5, 6]));
    // Clearing first replaces everything.
    s.add_queue_songs(&keyed(&[9]), Append::Back, true, true);
    assert_eq!(s.queue, keyed(&[9]));
    assert_eq!(s.queue_idx, Some(0));
}

#[test]
fn shuffle_applies_permutation_and_resets_cursor() {
    let mut s = playing_state(&[1, 2, 3], 2);
    s.shuffle(&vec![2, 0, 1]);
    assert_eq!(s.queue, keyed(&[3, 1, 2]));
    assert_eq!(s.queue_idx, Some(0));
    assert_eq!(s.song, Some(SongKey::new(3)));
}

#[test]
fn skip_and_back() {
    let mut s = playing_state(&[1, 2, 3, 4], 0);
    s.skip(2);
    assert_eq!(s.queue_idx, Some(2));
    s.back(1);
    assert_eq!(s.queue_idx, Some(1));
    // Backing past the front stops at the front.
    s.back(10);
    assert_eq!(s.queue_idx, Some(0));
    // Skipping past the tail without repeat ends the queue.
    s.skip(10);
    assert_eq!(s.queue_idx, None);
}

#[test]
fn audio_state_round_trip() {
    let mut s = playing_state(&[4, 9, 2], 1);
    s.set_repeat(Repeat::QueuePause);
    s.set_volume(Volume::new(77));
    s.runtime = 300;
    s.seek(Seek::Absolute, 123);
    let bytes = encode_audio_state(&s);
    // The header spells out the project name.
    assert_eq!(&bytes[0..24], b"-----BEGIN FESTIVAL-----");
    let restored = decode_audio_state(&bytes).unwrap();
    assert_eq!(restored.queue, s.queue);
    assert_eq!(restored.queue_idx, s.queue_idx);
    assert_eq!(restored.playing, s.playing);
    assert_eq!(restored.song, s.song);
    assert_eq!(restored.elapsed, 123);
    assert_eq!(restored.runtime, 300);
    assert_eq!(restored.repeat, s.repeat);
    assert_eq!(restored.volume, s.volume);
    // Re-saving what was restored writes the same bytes, so a second
    // restore gives the same state again.
    let bytes2 = encode_audio_state(&restored);
    assert_eq!(bytes, bytes2);
    let restored2 = decode_audio_state(&bytes2).unwrap();
    assert_eq!(restored2.queue, restored.queue);
    assert_eq!(restored2.queue_idx, restored.queue_idx);
}

#[test]
fn decode_rejects_garbage() {
    assert!(decode_audio_state(&vec![]).is_none());
    assert!(decode_audio_state(&vec![0u8; 59]).is_none());
    let mut bytes = encode_audio_state(&AudioState::new());
    // Flip a header byte.
    bytes[0] = 88;
    assert!(decode_audio_state(&bytes).is_none());
    // Truncate the queue.
    let s = playing_state(&[1, 2], 0);
    let mut bytes = encode_audio_state(&s);
    bytes.pop();
    assert!(decode_audio_state(&bytes).is_none());
}

#[test]
fn signals() {
    // A toggle file alone decodes to exactly one toggle command.
    let mut snap = SignalSnapshot::none();
    snap.toggle = true;
    assert_eq!(shukusai::watch::signals_to_msgs(&snap), vec![WatchToKernel::Toggle]);

    // Transport priority is stop over pause over play.
    let mut snap = SignalSnapshot::none();
    snap.stop = true;
    snap.pause = true;
    snap.play = true;
    assert_eq!(shukusai::watch::signals_to_msgs(&snap), vec![WatchToKernel::Stop]);

    // Next and previous cancel each other.
    let mut snap = SignalSnapshot::none();
    snap.next = true;
    snap.previous = true;
    assert!(shukusai::watch::signals_to_msgs(&snap).is_empty());

    // Payload signals come through with their values; volume clamps.
    let mut snap = SignalSnapshot::none();
    snap.volume = Some(187);
    snap.seek = Some(42);
    assert_eq!(
        shukusai::watch::signals_to_msgs(&snap),
        vec![WatchToKernel::Volume(Volume::new(100)), WatchToKernel::Seek(42)]
    );
}

#[test]
fn signal_index_is_one_based() {
    let mut snap = SignalSnapshot::none();
    snap.index = Some(1);
    assert_eq!(shukusai::watch::signals_to_msgs(&snap), vec![WatchToKernel::Index(0)]);
    snap.index = Some(5);
    assert_eq!(shukusai::watch::signals_to_msgs(&snap), vec![WatchToKernel::Index(4)]);
    // Zero saturates to the internal zero instead of wrapping.
    snap.index = Some(0);
    assert_eq!(shukusai::watch::signals_to_msgs(&snap), vec![WatchToKernel::Index(0)]);
}

#[test]
fn rebuild_preserves_old_on_failure() {
    let mut h = HandleState::boot(7);
    h.start_rebuild();
    assert_eq!(h.audio, None);
    assert_eq!(h.search, None);
    assert_eq!(h.kernel, 7);
    let ev = h.finish_rebuild(Err("walk failed".to_string()));
    // Everyone holds exactly the old snapshot again, and the
    // front-ends get the failure message.
    assert_eq!(h.kernel, 7);
    assert_eq!(h.audio, Some(7));
    assert_eq!(h.search, Some(7));
    assert_eq!(h.frontend, 7);
    assert!(matches!(ev, KernelToFrontend::Failed(msg) if msg == "walk failed"));

    // A successful rebuild swaps everyone to the new snapshot.
    let mut h = HandleState::boot(7);
    h.start_rebuild();
    let ev = h.finish_rebuild(Ok(8));
    assert_eq!(h.kernel, 8);
    assert_eq!(h.audio, Some(8));
    assert!(matches!(ev, KernelToFrontend::NewCollection));
}

#[test]
fn kernel_routing() {
    assert!(matches!(
        Kernel::msg_watch(WatchToKernel::Stop),
        KernelToAudio::Clear(false)
    ));
    assert!(matches!(
        Kernel::msg_watch(WatchToKernel::RepeatQueue),
        KernelToAudio::Repeat(Repeat::Queue)
    ));
    assert!(matches!(
        Kernel::msg_watch(WatchToKernel::SeekForward(9)),
        KernelToAudio::Seek(Seek::Forward, 9)
    ));
    assert!(matches!(
        Kernel::msg_audio(AudioToKernel::SeekError("x".to_string())),
        KernelToFrontend::SeekError(msg) if msg == "x"
    ));
}

#[test]
fn validate_audio_state_resets_dangling_song() {
    let c = shukusai::collection::Collection::new();
    let s = playing_state(&[3], 0);
    // The current song does not resolve in an empty collection.
    let r = Kernel::validate_audio_state(s, &c);
    assert_eq!(r.queue.len(), 0);
    assert_eq!(r.song, None);

    // A state with no current song is kept as it is — the persisted
    // volume and repeat mode survive an empty collection.
    let mut idle = AudioState::new();
    idle.set_volume(Volume::new(80));
    idle.set_repeat(Repeat::Queue);
    let r = Kernel::validate_audio_state(idle, &c);
    assert_eq!(r.volume.inner(), 80);
    assert_eq!(r.repeat, Repeat::Queue);
}

#[test]
fn cli_signal_writes() {
    let mut cli = Cli::get();
    assert!(cli.handle_args().0.is_empty());
    cli.toggle = true;
    cli.volume = Some(187);
    cli.index = Some(3);
    let (writes, watch, media) = cli.handle_args();
    assert_eq!(
        writes,
        vec![
            SignalWrite::Flag(Signal::Toggle),
            SignalWrite::VolumeValue(100),
            SignalWrite::Count(Signal::Index, 3),
        ]
    );
    assert!(!watch && !media);
    assert_eq!(Signal::Toggle.filename(), "toggle");
    assert_eq!(Signal::RepeatQueue.filename(), "repeat_queue");
}
