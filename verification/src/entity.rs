//! The three entities of the library graph — artists, albums and
//! songs — and album art.
//!
//! All cross-references go through the dense keys of [`crate::key`];
//! the entities themselves are immutable once a `Collection` is
//! built.

use vstd::prelude::*;
use crate::date::Date;
use crate::key::{AlbumKey, ArtistKey, SongKey};

verus! {

/// The square pixel size album art is always resized to.
pub const ALBUM_ART_SIZE: u32 = 600;

/// Album art. The decoded form exists only in memory; on disk only
/// raw bytes or the unknown placeholder are ever written.
#[derive(Clone, Debug)]
pub enum Art {
    /// Art already decoded to a square RGBA image of
    /// [`ALBUM_ART_SIZE`] pixels, identified by the handle the
    /// front-end registered for it.
    Known { handle: u64 },
    /// Raw, still-encoded image bytes found during the scan.
    Bytes(Vec<u8>),
    /// No art was found for this album.
    Unknown,
}

impl Art {
    /// A fresh, unknown piece of art.
    pub fn new() -> (r: Self)
        ensures
            r is Unknown,
    {
        Art::Unknown
    }

    /// The pixel size of this art when drawn: decoded art and the
    /// unknown placeholder are both exactly
    /// [`ALBUM_ART_SIZE`]×[`ALBUM_ART_SIZE`].
    pub fn size(&self) -> (r: (u32, u32))
        ensures
            r.0 == ALBUM_ART_SIZE,
            r.1 == ALBUM_ART_SIZE,
    {
        (ALBUM_ART_SIZE, ALBUM_ART_SIZE)
    }

    /// An exact copy of this art.
    pub fn duplicate(&self) -> (r: Self)
        ensures
            r is Known <==> self is Known,
            r is Bytes <==> self is Bytes,
            r is Known ==> r == *self,
            r is Bytes ==> r->0@ == self->0@,
    {
        match self {
            Art::Known { handle } => Art::Known { handle: *handle },
            Art::Bytes(b) => {
                let c = b.clone();
                proof {
                    assert forall|i: int| 0 <= i < b@.len() implies c@[i] == b@[i] by {
                        assert(vstd::pervasive::cloned::<u8>(b@[i], c@[i]));
                    }
                    assert(c@ =~= b@);
                }
                Art::Bytes(c)
            },
            Art::Unknown => Art::Unknown,
        }
    }

    /// The form of this art that persists: decoded art never
    /// serializes, so it falls back to the unknown placeholder, while
    /// raw bytes are kept.
    pub fn to_disk(&self) -> (r: Self)
        ensures
            !(r is Known),
            self is Bytes ==> r is Bytes && r->0@ == self->0@,
            !(self is Bytes) ==> r is Unknown,
    {
        match self {
            Art::Bytes(b) => {
                let c = b.clone();
                proof {
                    assert forall|i: int| 0 <= i < b@.len() implies c@[i] == b@[i] by {
                        assert(vstd::pervasive::cloned::<u8>(b@[i], c@[i]));
                    }
                    assert(c@ =~= b@);
                }
                Art::Bytes(c)
            },
            _ => Art::Unknown,
        }
    }
}

/// An artist: display name, case-folded name, aggregate runtime, and
/// the keys of its albums (release order) and songs (album order,
/// then track order).
#[derive(Clone, Debug)]
pub struct Artist {
    /// The artist's display name.
    pub name: String,
    /// UTF-8 bytes of the display name, case-folded for comparisons.
    pub name_lowercase: Vec<u8>,
    /// This artist's own key.
    pub key: ArtistKey,
    /// Total runtime of every owned song, in whole seconds,
    /// saturating at `u32::MAX`.
    pub runtime: u32,
    /// Keys of the owned albums, sorted by release date.
    pub albums: Vec<AlbumKey>,
    /// Keys of every owned song, album order then track order.
    pub songs: Vec<SongKey>,
}

/// An album: title, parent artist, release date, aggregates, and the
/// keys of its songs sorted by `(disc, track)`.
#[derive(Clone, Debug)]
pub struct Album {
    /// The album's title.
    pub title: String,
    /// UTF-8 bytes of the title, case-folded for comparisons.
    pub title_lowercase: Vec<u8>,
    /// This album's own key.
    pub key: AlbumKey,
    /// Key of the owning artist.
    pub artist: ArtistKey,
    /// Release date, unknown when no tag gave one.
    pub release: Date,
    /// Total runtime of the album's songs, in whole seconds,
    /// saturating at `u32::MAX`.
    pub runtime: u32,
    /// How many songs the album holds.
    pub song_count: usize,
    /// Keys of the songs, sorted by `(disc, track)`.
    pub songs: Vec<SongKey>,
    /// How many distinct disc values the songs carry.
    pub discs: u32,
    /// The parent directory of the first song scanned into this
    /// album.
    pub path: String,
    /// Genre, when a tag gave one.
    pub genre: Option<String>,
    /// The album art.
    pub art: Art,
}

/// A song: title, parent album, runtime and format facts, and the
/// path it was scanned from.
#[derive(Clone, Debug)]
pub struct Song {
    /// The song's title.
    pub title: String,
    /// UTF-8 bytes of the title, case-folded for comparisons.
    pub title_lowercase: Vec<u8>,
    /// This song's own key.
    pub key: SongKey,
    /// Key of the owning album.
    pub album: AlbumKey,
    /// Runtime in whole seconds.
    pub runtime: u32,
    /// Sample rate in Hz.
    pub sample_rate: u32,
    /// Track number, when a tag gave one.
    pub track: Option<u32>,
    /// Disc number, when a tag gave one.
    pub disc: Option<u32>,
    /// The MIME type of the underlying file.
    pub mime: String,
    /// The file extension of the underlying file.
    pub extension: String,
    /// The absolute path of the underlying file.
    pub path: String,
}

/// The rank a song's disc number sorts by: songs without a disc
/// number come first.
pub open spec fn disc_code(d: Option<u32>) -> u64 {
    match d {
        Option::None => 0,
        Option::Some(n) => (n + 1) as u64,
    }
}

/// The rank a song's track number sorts by: songs without a track
/// number come first.
pub open spec fn track_code(t: Option<u32>) -> u64 {
    match t {
        Option::None => 0,
        Option::Some(n) => (n + 1) as u64,
    }
}

/// The `(disc, track)` order of songs inside an album.
pub open spec fn song_disc_track_le(a: Song, b: Song) -> bool {
    if disc_code(a.disc) != disc_code(b.disc) {
        disc_code(a.disc) < disc_code(b.disc)
    } else {
        track_code(a.track) <= track_code(b.track)
    }
}

} // verus!
