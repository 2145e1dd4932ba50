//! Dense integer keys into the three arenas of a `Collection`.
//!
//! Artists, albums and songs are always referenced by key, never by
//! pointer, so that cross-entity references stay serializable and the
//! graph shape is decoupled from lifetimes.

use vstd::prelude::*;

verus! {

/// A dense index into the artist arena of a `Collection`.
#[derive(Clone, Copy, Debug, Hash, PartialEq, Eq, Structural)]
pub struct ArtistKey {
    pub idx: usize,
}

/// A dense index into the album arena of a `Collection`.
#[derive(Clone, Copy, Debug, Hash, PartialEq, Eq, Structural)]
pub struct AlbumKey {
    pub idx: usize,
}

/// A dense index into the song arena of a `Collection`.
#[derive(Clone, Copy, Debug, Hash, PartialEq, Eq, Structural)]
pub struct SongKey {
    pub idx: usize,
}

impl ArtistKey {
    /// Wrap a raw index as an `ArtistKey`.
    pub fn new(idx: usize) -> (r: Self)
        ensures
            r.idx == idx,
    {
        ArtistKey { idx }
    }

    /// The raw index inside this key.
    pub fn inner(&self) -> (r: usize)
        ensures
            r == self.idx,
    {
        self.idx
    }

    /// The key of the first arena slot.
    pub fn zero() -> (r: Self)
        ensures
            r.idx == 0,
    {
        ArtistKey { idx: 0 }
    }
}

impl AlbumKey {
    /// Wrap a raw index as an `AlbumKey`.
    pub fn new(idx: usize) -> (r: Self)
        ensures
            r.idx == idx,
    {
        AlbumKey { idx }
    }

    /// The raw index inside this key.
    pub fn inner(&self) -> (r: usize)
        ensures
            r == self.idx,
    {
        self.idx
    }

    /// The key of the first arena slot.
    pub fn zero() -> (r: Self)
        ensures
            r.idx == 0,
    {
        AlbumKey { idx: 0 }
    }
}

impl SongKey {
    /// Wrap a raw index as a `SongKey`.
    pub fn new(idx: usize) -> (r: Self)
        ensures
            r.idx == idx,
    {
        SongKey { idx }
    }

    /// The raw index inside this key.
    pub fn inner(&self) -> (r: usize)
        ensures
            r == self.idx,
    {
        self.idx
    }

    /// The key of the first arena slot.
    pub fn zero() -> (r: Self)
        ensures
            r.idx == 0,
    {
        SongKey { idx: 0 }
    }
}

/// One key of each kind, pointing at a song together with the album
/// and artist it belongs to.
#[derive(Clone, Copy, Debug, PartialEq, Eq, Structural)]
pub struct Key {
    pub artist: ArtistKey,
    pub album: AlbumKey,
    pub song: SongKey,
}

impl Key {
    /// Bundle three keys.
    pub fn new(artist: ArtistKey, album: AlbumKey, song: SongKey) -> (r: Self)
        ensures
            r.artist == artist,
            r.album == album,
            r.song == song,
    {
        Key { artist, album, song }
    }

    /// The three raw indices `(artist, album, song)`.
    pub fn inner_usize(&self) -> (r: (usize, usize, usize))
        ensures
            r.0 == self.artist.idx,
            r.1 == self.album.idx,
            r.2 == self.song.idx,
    {
        (self.artist.idx, self.album.idx, self.song.idx)
    }
}

/// A search result: keys of each kind, ordered by decreasing
/// similarity to the query.
#[derive(Clone, Debug, PartialEq, Eq)]
pub struct Keychain {
    pub artists: Vec<ArtistKey>,
    pub albums: Vec<AlbumKey>,
    pub songs: Vec<SongKey>,
}

impl Keychain {
    /// An empty keychain.
    pub fn new() -> (r: Self)
        ensures
            r.artists@.len() == 0,
            r.albums@.len() == 0,
            r.songs@.len() == 0,
    {
        Keychain { artists: Vec::new(), albums: Vec::new(), songs: Vec::new() }
    }
}

} // verus!
