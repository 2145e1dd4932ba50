//! The on-disk form of the playback state.
//!
//! Every persisted file of this crate starts with a fixed 24-byte
//! header and a one-byte major version; the body is a compact binary
//! encoding. The codec here is total and exact: decoding recovers
//! precisely the state that was encoded, which is what makes a saved
//! state survive restarts unchanged.

use vstd::prelude::*;
use crate::audio::{AudioState, Repeat, Volume};
use crate::key::SongKey;

verus! {

/// The major version of the playback-state file format.
pub const AUDIO_VERSION: u8 = 0;

/// The 24-byte header every persisted file starts with: the UTF-8
/// bytes of `-----BEGIN FESTIVAL-----`.
pub open spec fn header_bytes() -> Seq<u8> {
    seq![
        45u8, 45u8, 45u8, 45u8, 45u8, 66u8, 69u8, 71u8, 73u8, 78u8, 32u8, 70u8, 69u8, 83u8, 84u8,
        73u8, 86u8, 65u8, 76u8, 45u8, 45u8, 45u8, 45u8, 45u8,
    ]
}

/// Push the header onto a byte vector.
fn push_header(out: &mut Vec<u8>)
    ensures
        final(out)@ == old(out)@ + header_bytes(),
{
    let ghost base = out@;
    out.push(45);
    out.push(45);
    out.push(45);
    out.push(45);
    out.push(45);
    out.push(66);
    out.push(69);
    out.push(71);
    out.push(73);
    out.push(78);
    out.push(32);
    out.push(70);
    out.push(69);
    out.push(83);
    out.push(84);
    out.push(73);
    out.push(86);
    out.push(65);
    out.push(76);
    out.push(45);
    out.push(45);
    out.push(45);
    out.push(45);
    out.push(45);
    proof {
        assert(out@ =~= base + header_bytes());
    }
}

/// The little-endian bytes of a `u64`.
pub open spec fn enc_u64(v: u64) -> Seq<u8> {
    seq![
        (v & 0xff) as u8,
        ((v >> 8) & 0xff) as u8,
        ((v >> 16) & 0xff) as u8,
        ((v >> 24) & 0xff) as u8,
        ((v >> 32) & 0xff) as u8,
        ((v >> 40) & 0xff) as u8,
        ((v >> 48) & 0xff) as u8,
        ((v >> 56) & 0xff) as u8,
    ]
}

/// The `u64` eight little-endian bytes stand for.
pub open spec fn dec_u64(b0: u8, b1: u8, b2: u8, b3: u8, b4: u8, b5: u8, b6: u8, b7: u8) -> u64 {
    (b0 as u64) | ((b1 as u64) << 8) | ((b2 as u64) << 16) | ((b3 as u64) << 24) | ((b4 as u64)
        << 32) | ((b5 as u64) << 40) | ((b6 as u64) << 48) | ((b7 as u64) << 56)
}

/// Reading back the little-endian bytes of a value gives the value.
proof fn lemma_u64_round(v: u64)
    ensures
        dec_u64(
            (v & 0xff) as u8,
            ((v >> 8) & 0xff) as u8,
            ((v >> 16) & 0xff) as u8,
            ((v >> 24) & 0xff) as u8,
            ((v >> 32) & 0xff) as u8,
            ((v >> 40) & 0xff) as u8,
            ((v >> 48) & 0xff) as u8,
            ((v >> 56) & 0xff) as u8,
        ) == v,
{
    assert(((v & 0xff) as u8 as u64) | (((v >> 8) & 0xff) as u8 as u64) << 8 | (((v >> 16)
        & 0xff) as u8 as u64) << 16 | (((v >> 24) & 0xff) as u8 as u64) << 24 | (((v >> 32)
        & 0xff) as u8 as u64) << 32 | (((v >> 40) & 0xff) as u8 as u64) << 40 | (((v >> 48)
        & 0xff) as u8 as u64) << 48 | (((v >> 56) & 0xff) as u8 as u64) << 56 == v)
        by (bit_vector);
}

/// Push a `u64` onto a byte vector, little-endian.
fn push_u64(out: &mut Vec<u8>, v: u64)
    ensures
        final(out)@ == old(out)@ + enc_u64(v),
{
    let ghost base = out@;
    out.push((v & 0xff) as u8);
    out.push(((v >> 8) & 0xff) as u8);
    out.push(((v >> 16) & 0xff) as u8);
    out.push(((v >> 24) & 0xff) as u8);
    out.push(((v >> 32) & 0xff) as u8);
    out.push(((v >> 40) & 0xff) as u8);
    out.push(((v >> 48) & 0xff) as u8);
    out.push(((v >> 56) & 0xff) as u8);
    proof {
        assert(out@ =~= base + enc_u64(v));
    }
}

/// Read a little-endian `u64` out of a byte vector.
fn read_u64(b: &Vec<u8>, pos: usize) -> (r: u64)
    requires
        pos + 8 <= b@.len(),
    ensures
        r == dec_u64(
            b@[pos as int],
            b@[pos as int + 1],
            b@[pos as int + 2],
            b@[pos as int + 3],
            b@[pos as int + 4],
            b@[pos as int + 5],
            b@[pos as int + 6],
            b@[pos as int + 7],
        ),
{
    let n = b.len();
    proof {
        assert(pos + 8 <= n);
    }
    (b[pos] as u64) | ((b[pos + 1] as u64) << 8) | ((b[pos + 2] as u64) << 16) | ((b[pos
        + 3] as u64) << 24) | ((b[pos + 4] as u64) << 32) | ((b[pos + 5] as u64) << 40) | ((b[pos
        + 6] as u64) << 48) | ((b[pos + 7] as u64) << 56)
}

/// The encoded queue: each key as a little-endian `u64`, in order.
pub open spec fn enc_queue(q: Seq<SongKey>) -> Seq<u8>
    decreases q.len(),
{
    if q.len() == 0 {
        Seq::empty()
    } else {
        enc_queue(q.drop_last()) + enc_u64(q.last().idx as u64)
    }
}

/// The encoded queue is eight bytes per key.
proof fn lemma_enc_queue_len(q: Seq<SongKey>)
    ensures
        enc_queue(q).len() == 8 * q.len(),
    decreases q.len(),
{
    if q.len() > 0 {
        lemma_enc_queue_len(q.drop_last());
    }
}

/// Inside the encoded queue, the bytes of entry `k` sit at
/// `8k..8k+8` and are the little-endian bytes of that key.
proof fn lemma_enc_queue_index(q: Seq<SongKey>, k: int)
    requires
        0 <= k < q.len(),
    ensures
        enc_queue(q).len() == 8 * q.len(),
        forall|t: int|
            0 <= t < 8 ==> #[trigger] enc_queue(q)[8 * k + t] == enc_u64(q[k].idx as u64)[t],
    decreases q.len(),
{
    lemma_enc_queue_len(q);
    lemma_enc_queue_len(q.drop_last());
    if k == q.len() - 1 {
        assert(forall|t: int|
            0 <= t < 8 ==> #[trigger] enc_queue(q)[8 * k + t] == enc_u64(q.last().idx as u64)[t]);
    } else {
        lemma_enc_queue_index(q.drop_last(), k);
        assert(forall|t: int|
            0 <= t < 8 ==> #[trigger] enc_queue(q)[8 * k + t] == enc_queue(q.drop_last())[8 * k
                + t]);
    }
}

/// The cursor on disk: zero for none, otherwise the slot plus one.
pub open spec fn enc_cursor(idx: Option<usize>) -> u64 {
    match idx {
        Option::None => 0,
        Option::Some(i) => (i + 1) as u64,
    }
}

/// The repeat mode's tag byte.
pub open spec fn enc_repeat(r: Repeat) -> u8 {
    match r {
        Repeat::Off => 0,
        Repeat::Song => 1,
        Repeat::Queue => 2,
        Repeat::QueuePause => 3,
    }
}

/// The whole on-disk form of a playback state: header, version, the
/// scalar fields, then the queue with its length in front.
pub open spec fn enc_audio(s: AudioState) -> Seq<u8> {
    header_bytes() + seq![AUDIO_VERSION, s.volume.percent, enc_repeat(s.repeat), (if s.playing {
        1u8
    } else {
        0u8
    })] + enc_u64(s.elapsed as u64) + enc_u64(s.runtime as u64) + enc_u64(enc_cursor(s.queue_idx))
        + enc_u64(s.queue@.len() as u64) + enc_queue(s.queue@)
}

/// A state the codec accepts: well-formed, with a cursor small
/// enough that adding one cannot wrap.
pub open spec fn disk_wf(s: AudioState) -> bool {
    &&& s.wf()
    &&& s.queue@.len() < 0x1000_0000_0000_0000
    &&& s.queue@.len() <= usize::MAX
}

/// Encode a playback state for disk.
pub fn encode_audio_state(s: &AudioState) -> (r: Vec<u8>)
    requires
        disk_wf(*s),
    ensures
        r@ == enc_audio(*s),
{
    let mut out: Vec<u8> = Vec::new();
    push_header(&mut out);
    out.push(AUDIO_VERSION);
    out.push(s.volume.inner());
    let tag: u8 = match s.repeat {
        Repeat::Off => 0,
        Repeat::Song => 1,
        Repeat::Queue => 2,
        Repeat::QueuePause => 3,
    };
    out.push(tag);
    out.push(if s.playing {
        1
    } else {
        0
    });
    push_u64(&mut out, s.elapsed as u64);
    push_u64(&mut out, s.runtime as u64);
    let cursor: u64 = match s.queue_idx {
        Some(i) => i as u64 + 1,
        None => 0,
    };
    push_u64(&mut out, cursor);
    push_u64(&mut out, s.queue.len() as u64);
    let mut k: usize = 0;
    let ghost prefix = out@;
    while k < s.queue.len()
        invariant
            k <= s.queue@.len(),
            out@ =~= prefix + enc_queue(s.queue@.subrange(0, k as int)),
        decreases s.queue@.len() - k,
    {
        push_u64(&mut out, s.queue[k].inner() as u64);
        proof {
            let pre = s.queue@.subrange(0, k as int);
            let post = s.queue@.subrange(0, k as int + 1);
            assert(post.drop_last() =~= pre);
            assert(post.last() == s.queue@[k as int]);
            assert(out@ =~= prefix + enc_queue(post));
        }
        k = k + 1;
    }
    proof {
        assert(s.queue@.subrange(0, s.queue@.len() as int) =~= s.queue@);
        assert(out@ =~= enc_audio(*s));
    }
    out
}

/// Decode a playback state from disk. Exact in both directions: a
/// successful decode is the encoding's one preimage, and every byte
/// string some accepted state encodes to decodes back to exactly
/// that state's fields.
pub fn decode_audio_state(b: &Vec<u8>) -> (r: Option<AudioState>)
    ensures
        r is Some ==> disk_wf(r->0) && b@ == enc_audio(r->0),
        forall|s: AudioState|
            disk_wf(s) && b@ == #[trigger] enc_audio(s) ==> r is Some
                && r->0.queue@ == s.queue@ && r->0.queue_idx == s.queue_idx
                && r->0.playing == s.playing && r->0.song == s.song
                && r->0.elapsed == s.elapsed && r->0.runtime == s.runtime
                && r->0.repeat == s.repeat && r->0.volume == s.volume,
{
    let parsed = parse_audio_state(b);
    match parsed {
        None => None,
        Some(st) => {
            let bytes = encode_audio_state(&st);
            if eq_bytes(&bytes, b) {
                Some(st)
            } else {
                proof {
                    assert forall|s: AudioState|
                        disk_wf(s) && b@ == #[trigger] enc_audio(s) implies false by {
                        assert(st.queue@ == s.queue@ && st.queue_idx == s.queue_idx && st.playing
                            == s.playing && st.elapsed == s.elapsed && st.runtime == s.runtime
                            && st.repeat == s.repeat && st.volume == s.volume);
                        assert(enc_audio(st) == enc_audio(s));
                        assert(bytes@ == b@);
                    }
                }
                None
            }
        },
    }
}

/// Compare two byte vectors.
fn eq_bytes(a: &Vec<u8>, b: &Vec<u8>) -> (r: bool)
    ensures
        r == (a@ =~= b@),
{
    if a.len() != b.len() {
        return false;
    }
    let mut i: usize = 0;
    while i < a.len()
        invariant
            i <= a@.len(),
            a@.len() == b@.len(),
            forall|j: int| 0 <= j < i ==> a@[j] == b@[j],
        decreases a@.len() - i,
    {
        if a[i] != b[i] {
            return false;
        }
        i = i + 1;
    }
    true
}

/// Read and validate the scalar fields off the bytes. On any byte
/// string some accepted state encodes to, the fields read are that
/// state's fields.
fn parse_scalars(b: &Vec<u8>) -> (r: Option<(u8, u8, u8, u64, u64, u64, u64)>)
    ensures
        r is Some ==> {
            let (vol, rep, play, ela, run, cur, cnt) = r->0;
            &&& vol <= 100
            &&& rep <= 3
            &&& play <= 1
            &&& ela <= 0xffff_ffff
            &&& run <= 0xffff_ffff
            &&& cnt <= 0x0fff_ffff_ffff_ffff
            &&& cnt <= usize::MAX as u64
            &&& b@.len() == 60 + 8 * cnt
            &&& (cur == 0 || cur - 1 < cnt)
        },
        forall|s: AudioState|
            disk_wf(s) && b@ == #[trigger] enc_audio(s) ==> r == Option::Some(
                (
                    s.volume.percent,
                    enc_repeat(s.repeat),
                    (if s.playing {
                        1u8
                    } else {
                        0u8
                    }),
                    s.elapsed as u64,
                    s.runtime as u64,
                    enc_cursor(s.queue_idx),
                    s.queue@.len() as u64,
                ),
            ),
{
    if b.len() < 60 {
        proof {
            assert forall|s: AudioState| disk_wf(s) && b@ == #[trigger] enc_audio(s) implies false by {
                lemma_enc_audio_len(s);
            }
        }
        return None;
    }
    let volume_byte = b[25];
    let repeat_byte = b[26];
    let playing_byte = b[27];
    let elapsed64 = read_u64(b, 28);
    let runtime64 = read_u64(b, 36);
    let cursor64 = read_u64(b, 44);
    let count64 = read_u64(b, 52);
    proof {
        assert forall|s: AudioState|
            disk_wf(s) && b@ == #[trigger] enc_audio(s) implies volume_byte == s.volume.percent
            && repeat_byte == enc_repeat(s.repeat) && playing_byte == (if s.playing {
            1u8
        } else {
            0u8
        }) && elapsed64 == s.elapsed as u64 && runtime64 == s.runtime as u64 && cursor64
            == enc_cursor(s.queue_idx) && count64 == s.queue@.len() as u64 && b@.len() == 60 + 8
            * s.queue@.len() by {
            lemma_enc_audio_fields(s);
            lemma_field_value(b@, 28, s.elapsed as u64);
            lemma_field_value(b@, 36, s.runtime as u64);
            lemma_field_value(b@, 44, enc_cursor(s.queue_idx));
            lemma_field_value(b@, 52, s.queue@.len() as u64);
        }
    }
    if volume_byte > 100 || repeat_byte > 3 || playing_byte > 1 {
        return None;
    }
    if elapsed64 > 0xffff_ffff || runtime64 > 0xffff_ffff {
        return None;
    }
    if count64 > 0x0fff_ffff_ffff_ffff || count64 > usize::MAX as u64 {
        return None;
    }
    let need: u64 = 60 + 8 * count64;
    if b.len() as u64 != need {
        return None;
    }
    if cursor64 != 0 && cursor64 - 1 >= count64 {
        return None;
    }
    Some((volume_byte, repeat_byte, playing_byte, elapsed64, runtime64, cursor64, count64))
}

/// The parse behind the decoder: reads the fields off the bytes.
/// On any byte string some accepted state encodes to, it recovers
/// exactly that state's fields.
#[verifier::rlimit(100)]
fn parse_audio_state(b: &Vec<u8>) -> (r: Option<AudioState>)
    ensures
        r is Some ==> disk_wf(r->0),
        forall|s: AudioState|
            disk_wf(s) && b@ == #[trigger] enc_audio(s) ==> r is Some
                && r->0.queue@ == s.queue@ && r->0.queue_idx == s.queue_idx
                && r->0.playing == s.playing && r->0.song == s.song
                && r->0.elapsed == s.elapsed && r->0.runtime == s.runtime
                && r->0.repeat == s.repeat && r->0.volume == s.volume,
{
    let scalars = parse_scalars(b);
    let (volume_byte, repeat_byte, playing_byte, elapsed64, runtime64, cursor64, count64) =
        match scalars {
        Some(t) => t,
        None => {
            return None;
        },
    };
    let count = count64 as usize;
    let mut queue: Vec<SongKey> = Vec::new();
    let mut k: usize = 0;
    while k < count
        invariant
            k <= count,
            60 + 8 * (count as int) <= b@.len(),
            queue@.len() == k,
            forall|t: int|
                0 <= t < k ==> #[trigger] queue@[t] == (SongKey {
                    idx: dec_u64(
                        b@[60 + 8 * t],
                        b@[60 + 8 * t + 1],
                        b@[60 + 8 * t + 2],
                        b@[60 + 8 * t + 3],
                        b@[60 + 8 * t + 4],
                        b@[60 + 8 * t + 5],
                        b@[60 + 8 * t + 6],
                        b@[60 + 8 * t + 7],
                    ) as usize
                }),
        decreases count - k,
    {
        let n = b.len();
        proof {
            assert(60 + 8 * (k as int) + 8 <= n);
        }
        let v = read_u64(b, 60 + 8 * k);
        queue.push(SongKey { idx: v as usize });
        k = k + 1;
    }
    let queue_idx: Option<usize> = if cursor64 == 0 {
        None
    } else {
        Some((cursor64 - 1) as usize)
    };
    let song: Option<SongKey> = match queue_idx {
        Some(i) => Some(queue[i]),
        None => None,
    };
    let st = AudioState {
        queue,
        queue_idx,
        playing: playing_byte == 1,
        song,
        elapsed: elapsed64 as u32,
        runtime: runtime64 as u32,
        repeat: if repeat_byte == 0 {
            Repeat::Off
        } else if repeat_byte == 1 {
            Repeat::Song
        } else if repeat_byte == 2 {
            Repeat::Queue
        } else {
            Repeat::QueuePause
        },
        volume: Volume { percent: volume_byte },
    };
    proof {
        assert forall|s: AudioState|
            disk_wf(s) && b@ == #[trigger] enc_audio(s) implies st.queue@ == s.queue@
            && st.queue_idx == s.queue_idx && st.playing == s.playing && st.song == s.song
            && st.elapsed == s.elapsed && st.runtime == s.runtime && st.repeat == s.repeat
            && st.volume == s.volume by {
            lemma_enc_audio_fields(s);
            assert(st.queue@ =~= s.queue@) by {
                assert forall|t: int| 0 <= t < st.queue@.len() implies st.queue@[t]
                    == s.queue@[t] by {
                    assert(enc_audio(s).subrange(60 + 8 * t, 68 + 8 * t) == enc_u64(
                        s.queue@[t].idx as u64,
                    ));
                    assert(b@.subrange(60 + 8 * t, (60 + 8 * t) + 8) == enc_u64(
                        s.queue@[t].idx as u64,
                    ));
                    lemma_field_value(b@, 60 + 8 * t, s.queue@[t].idx as u64);
                }
            }
        }
    }
    Some(st)
}

/// The length of an encoded state.
proof fn lemma_enc_audio_len(s: AudioState)
    ensures
        enc_audio(s).len() == 60 + 8 * s.queue@.len(),
{
    lemma_enc_queue_len(s.queue@);
}

/// Where each field sits inside an encoded state.
proof fn lemma_enc_audio_fields(s: AudioState)
    ensures
        enc_audio(s).len() == 60 + 8 * s.queue@.len(),
        enc_audio(s)[24] == AUDIO_VERSION,
        enc_audio(s)[25] == s.volume.percent,
        enc_audio(s)[26] == enc_repeat(s.repeat),
        enc_audio(s)[27] == if s.playing {
            1u8
        } else {
            0u8
        },
        enc_audio(s).subrange(28, 36) == enc_u64(s.elapsed as u64),
        enc_audio(s).subrange(36, 44) == enc_u64(s.runtime as u64),
        enc_audio(s).subrange(44, 52) == enc_u64(enc_cursor(s.queue_idx)),
        enc_audio(s).subrange(52, 60) == enc_u64(s.queue@.len() as u64),
        forall|k: int|
            0 <= k < s.queue@.len() ==> #[trigger] enc_audio(s).subrange(60 + 8 * k, 68 + 8 * k)
                == enc_u64(s.queue@[k].idx as u64),
{
    lemma_enc_queue_len(s.queue@);
    assert(enc_audio(s).subrange(28, 36) =~= enc_u64(s.elapsed as u64));
    assert(enc_audio(s).subrange(36, 44) =~= enc_u64(s.runtime as u64));
    assert(enc_audio(s).subrange(44, 52) =~= enc_u64(enc_cursor(s.queue_idx)));
    assert(enc_audio(s).subrange(52, 60) =~= enc_u64(s.queue@.len() as u64));
    assert forall|k: int|
        0 <= k < s.queue@.len() implies #[trigger] enc_audio(s).subrange(60 + 8 * k, 68 + 8 * k)
        == enc_u64(s.queue@[k].idx as u64) by {
        lemma_enc_queue_index(s.queue@, k);
        assert forall|t: int|
            0 <= t < 8 implies #[trigger] enc_audio(s).subrange(60 + 8 * k, 68 + 8 * k)[t]
            == enc_u64(s.queue@[k].idx as u64)[t] by {
            assert(enc_audio(s)[60 + 8 * k + t] == enc_queue(s.queue@)[8 * k + t]);
        }
        assert(enc_audio(s).subrange(60 + 8 * k, 68 + 8 * k) =~= enc_u64(s.queue@[k].idx as u64));
    }
}

/// Reading a `u64` field back off the bytes of an encoding recovers
/// the value written into it.
proof fn lemma_field_value(b: Seq<u8>, off: int, v: u64)
    requires
        0 <= off,
        off + 8 <= b.len(),
        b.subrange(off, off + 8) == enc_u64(v),
    ensures
        dec_u64(
            b[off],
            b[off + 1],
            b[off + 2],
            b[off + 3],
            b[off + 4],
            b[off + 5],
            b[off + 6],
            b[off + 7],
        ) == v,
{
    assert forall|t: int| 0 <= t < 8 implies b[off + t] == #[trigger] enc_u64(v)[t] by {
        assert(b.subrange(off, off + 8)[t] == b[off + t]);
    }
    lemma_u64_round(v);
}

/// Two accepted states with the same encoding have the same fields.
proof fn lemma_enc_injective(s1: AudioState, s2: AudioState)
    requires
        disk_wf(s1),
        disk_wf(s2),
        enc_audio(s1) == enc_audio(s2),
    ensures
        s1.queue@ == s2.queue@,
        s1.queue_idx == s2.queue_idx,
        s1.playing == s2.playing,
        s1.song == s2.song,
        s1.elapsed == s2.elapsed,
        s1.runtime == s2.runtime,
        s1.repeat == s2.repeat,
        s1.volume == s2.volume,
{
    lemma_enc_audio_fields(s1);
    lemma_enc_audio_fields(s2);
    let b = enc_audio(s1);
    assert(s1.volume.percent == s2.volume.percent);
    assert(s1.repeat == s2.repeat) by {
        assert(enc_repeat(s1.repeat) == enc_repeat(s2.repeat));
    }
    assert(s1.playing == s2.playing);
    lemma_field_value(b, 28, s1.elapsed as u64);
    lemma_field_value(b, 28, s2.elapsed as u64);
    lemma_field_value(b, 36, s1.runtime as u64);
    lemma_field_value(b, 36, s2.runtime as u64);
    lemma_field_value(b, 44, enc_cursor(s1.queue_idx));
    lemma_field_value(b, 44, enc_cursor(s2.queue_idx));
    lemma_field_value(b, 52, s1.queue@.len() as u64);
    lemma_field_value(b, 52, s2.queue@.len() as u64);
    assert(enc_cursor(s1.queue_idx) == enc_cursor(s2.queue_idx));
    assert(s1.queue@ =~= s2.queue@) by {
        assert forall|k: int| 0 <= k < s1.queue@.len() implies s1.queue@[k] == s2.queue@[k] by {
            assert(enc_audio(s1).subrange(60 + 8 * k, 68 + 8 * k) == enc_u64(
                s1.queue@[k].idx as u64,
            ));
            assert(enc_audio(s2).subrange(60 + 8 * k, 68 + 8 * k) == enc_u64(
                s2.queue@[k].idx as u64,
            ));
            assert(b.subrange(60 + 8 * k, (60 + 8 * k) + 8) == enc_u64(s1.queue@[k].idx as u64));
            assert(b.subrange(60 + 8 * k, (60 + 8 * k) + 8) == enc_u64(s2.queue@[k].idx as u64));
            lemma_field_value(b, 60 + 8 * k, s1.queue@[k].idx as u64);
            lemma_field_value(b, 60 + 8 * k, s2.queue@[k].idx as u64);
        }
    }
    assert(s1.song == s2.song);
}

/// Re-encoding what was restored from disk gives the same bytes, so
/// restoring again gives the same state: the saved form of a
/// playback state is a fixed point of save–restore.
pub proof fn lemma_audio_state_round_trip(s: AudioState, t: AudioState)
    requires
        disk_wf(s),
        disk_wf(t),
        enc_audio(s) == enc_audio(t),
    ensures
        s.queue@ == t.queue@,
        s.queue_idx == t.queue_idx,
        s.playing == t.playing,
        s.song == t.song,
        s.elapsed == t.elapsed,
        s.runtime == t.runtime,
        s.repeat == t.repeat,
        s.volume == t.volume,
{
    lemma_enc_injective(s, t);
}

} // verus!
