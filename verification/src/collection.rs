//! The `Collection`: the immutable, fully indexed music library.
//!
//! Three parallel arenas hold every artist, album and song; ten
//! precomputed orderings hold the arena keys in useful orders. The
//! well-formedness predicate [`Collection::wf`] pins down the whole
//! shape: every cross-reference resolves, every aggregate matches
//! what it aggregates, song lists are sorted by `(disc, track)`, and
//! every ordering is a permutation of its arena.

use vstd::prelude::*;
use crate::date::Date;
use crate::entity::{disc_code, song_disc_track_le, Album, Artist, Song};
use crate::key::{AlbumKey, ArtistKey, Key, SongKey};
use crate::sort::is_key_ordering;
use crate::strings::{bytes_lt, lower_bytes_of};

verus! {

/// Saturate an integer at `u32::MAX`.
pub open spec fn sat32(x: int) -> int {
    if x > u32::MAX as int {
        u32::MAX as int
    } else {
        x
    }
}

/// The sum of a sequence of `u32` values, as an unbounded integer.
pub open spec fn sum_u32(vals: Seq<u32>) -> int
    decreases vals.len(),
{
    if vals.len() == 0 {
        0
    } else {
        sum_u32(vals.drop_last()) + vals.last()
    }
}

/// How many distinct values a sequence holds.
pub open spec fn distinct_count(vals: Seq<u64>) -> nat
    decreases vals.len(),
{
    if vals.len() == 0 {
        0
    } else if vals.drop_last().contains(vals.last()) {
        distinct_count(vals.drop_last())
    } else {
        distinct_count(vals.drop_last()) + 1
    }
}

/// Order two arena slots by a byte string and break ties by index.
pub open spec fn bytes_idx_le(a: Seq<u8>, ai: int, b: Seq<u8>, bi: int) -> bool {
    if a != b {
        bytes_lt(a, b)
    } else {
        ai <= bi
    }
}

/// Order two arena slots by an integer rank and break ties by index.
pub open spec fn rank_idx_le(a: u64, ai: int, b: u64, bi: int) -> bool {
    if a != b {
        a < b
    } else {
        ai <= bi
    }
}

/// The raw indices inside a list of artist keys.
pub open spec fn artist_key_idxs(s: Seq<ArtistKey>) -> Seq<usize> {
    s.map_values(|k: ArtistKey| k.idx)
}

/// The raw indices inside a list of album keys.
pub open spec fn album_key_idxs(s: Seq<AlbumKey>) -> Seq<usize> {
    s.map_values(|k: AlbumKey| k.idx)
}

/// The raw indices inside a list of song keys.
pub open spec fn song_key_idxs(s: Seq<SongKey>) -> Seq<usize> {
    s.map_values(|k: SongKey| k.idx)
}

/// Which precomputed artist ordering to read.
#[derive(Clone, Copy, Debug, PartialEq, Eq, Structural)]
pub enum ArtistSort {
    /// Artist name, lexicographically.
    Lexi,
    /// Fewest albums to most.
    AlbumCount,
    /// Fewest songs to most.
    SongCount,
}

/// Which precomputed album ordering to read.
#[derive(Clone, Copy, Debug, PartialEq, Eq, Structural)]
pub enum AlbumSort {
    /// Artist name, then release date.
    ReleaseArtistLexi,
    /// Artist name, then album title.
    LexiArtistLexi,
    /// Album title, lexicographically.
    Lexi,
    /// Oldest release to latest.
    Release,
    /// Shortest runtime to longest.
    Runtime,
}

/// Which precomputed song ordering to read.
#[derive(Clone, Copy, Debug, PartialEq, Eq, Structural)]
pub enum SongSort {
    /// Artist name, then album release, then track.
    AlbumReleaseArtistLexi,
    /// Artist name, then album title, then track.
    AlbumLexiArtistLexi,
    /// Song title, lexicographically.
    Lexi,
    /// Oldest release to latest.
    Release,
    /// Shortest runtime to longest.
    Runtime,
}

/// The music library: three arenas, ten orderings, and counts.
#[derive(Clone, Debug)]
pub struct Collection {
    /// All artists, in scan order.
    pub artists: Vec<Artist>,
    /// All albums, in scan order.
    pub albums: Vec<Album>,
    /// All songs, in scan order.
    pub songs: Vec<Song>,
    /// Artists by name.
    pub sort_artist_lexi: Vec<ArtistKey>,
    /// Artists by album count.
    pub sort_artist_album_count: Vec<ArtistKey>,
    /// Artists by song count.
    pub sort_artist_song_count: Vec<ArtistKey>,
    /// Albums grouped by artist name, then by release.
    pub sort_album_release_artist_lexi: Vec<AlbumKey>,
    /// Albums grouped by artist name, then by title.
    pub sort_album_lexi_artist_lexi: Vec<AlbumKey>,
    /// Albums by title.
    pub sort_album_lexi: Vec<AlbumKey>,
    /// Albums by release.
    pub sort_album_release: Vec<AlbumKey>,
    /// Albums by runtime.
    pub sort_album_runtime: Vec<AlbumKey>,
    /// Songs grouped by artist name, then album release, then track.
    pub sort_song_album_release_artist_lexi: Vec<SongKey>,
    /// Songs grouped by artist name, then album title, then track.
    pub sort_song_album_lexi_artist_lexi: Vec<SongKey>,
    /// Songs by title.
    pub sort_song_lexi: Vec<SongKey>,
    /// Songs by their album's release.
    pub sort_song_release: Vec<SongKey>,
    /// Songs by runtime.
    pub sort_song_runtime: Vec<SongKey>,
    /// Whether the library holds nothing at all.
    pub empty: bool,
    /// UNIX timestamp of this library's creation.
    pub timestamp: u64,
    /// How many artists the library holds.
    pub count_artist: usize,
    /// How many albums the library holds.
    pub count_album: usize,
    /// How many songs the library holds.
    pub count_song: usize,
}

/// The linkage discipline of the three arenas: every entity records
/// its own slot, every stored key resolves, parent and child links
/// agree, and every case-folded field matches its display field.
pub open spec fn arenas_linked(artists: Seq<Artist>, albums: Seq<Album>, songs: Seq<Song>) -> bool {
    &&& forall|i: int| 0 <= i < songs.len() ==> (#[trigger] songs[i]).key.idx == i
    &&& forall|i: int| 0 <= i < albums.len() ==> (#[trigger] albums[i]).key.idx == i
    &&& forall|i: int| 0 <= i < artists.len() ==> (#[trigger] artists[i]).key.idx == i
    &&& forall|i: int| 0 <= i < songs.len() ==> (#[trigger] songs[i]).album.idx < albums.len()
    &&& forall|a: int| 0 <= a < albums.len() ==> (#[trigger] albums[a]).artist.idx < artists.len()
    &&& forall|a: int, j: int|
        0 <= a < albums.len() && 0 <= j < albums[a].songs@.len()
            ==> (#[trigger] albums[a].songs@[j]).idx < songs.len()
            && songs[albums[a].songs@[j].idx as int].album.idx == a
    &&& forall|x: int, j: int|
        0 <= x < artists.len() && 0 <= j < artists[x].albums@.len()
            ==> (#[trigger] artists[x].albums@[j]).idx < albums.len()
            && albums[artists[x].albums@[j].idx as int].artist.idx == x
    &&& forall|x: int, j: int|
        0 <= x < artists.len() && 0 <= j < artists[x].songs@.len()
            ==> (#[trigger] artists[x].songs@[j]).idx < songs.len()
    &&& forall|i: int|
        0 <= i < songs.len() ==> (#[trigger] songs[i]).title_lowercase@ == lower_bytes_of(
            songs[i].title@,
        )
    &&& forall|i: int|
        0 <= i < albums.len() ==> (#[trigger] albums[i]).title_lowercase@ == lower_bytes_of(
            albums[i].title@,
        )
    &&& forall|i: int|
        0 <= i < artists.len() ==> (#[trigger] artists[i]).name_lowercase@ == lower_bytes_of(
            artists[i].name@,
        )
}

/// Every song is listed by the album it points at, and no album
/// lists a song twice: together with the linkage discipline, each
/// album's song list holds exactly the songs that belong to it.
pub open spec fn songs_covered_in(albums: Seq<Album>, songs: Seq<Song>) -> bool {
    &&& forall|s: int|
        0 <= s < songs.len() && (#[trigger] songs[s]).album.idx < albums.len()
            ==> albums[songs[s].album.idx as int].songs@.contains(songs[s].key)
    &&& forall|a: int| 0 <= a < albums.len() ==> (#[trigger] albums[a]).songs@.no_duplicates()
}

/// Every album is listed by the artist it points at, and no artist
/// lists an album twice: together with the linkage discipline, each
/// artist's album list holds exactly the albums that belong to it.
pub open spec fn albums_covered_in(artists: Seq<Artist>, albums: Seq<Album>) -> bool {
    &&& forall|a: int|
        0 <= a < albums.len() && (#[trigger] albums[a]).artist.idx < artists.len()
            ==> artists[albums[a].artist.idx as int].albums@.contains(albums[a].key)
    &&& forall|x: int| 0 <= x < artists.len() ==> (#[trigger] artists[x]).albums@.no_duplicates()
}

/// No entity is empty: every artist owns at least one album, every
/// album at least one song. The builder only ever creates an entity
/// for a song that exists.
pub open spec fn arenas_populated(artists: Seq<Artist>, albums: Seq<Album>) -> bool {
    &&& forall|x: int| 0 <= x < artists.len() ==> (#[trigger] artists[x]).albums@.len() > 0
    &&& forall|a: int| 0 <= a < albums.len() ==> (#[trigger] albums[a]).songs@.len() > 0
}

/// One album's aggregate facts: the counts, runtime and disc count
/// match its song list, the release date is well-formed, and the
/// song list is sorted by `(disc, track)`.
pub open spec fn album_aggregated(al: Album, songs: Seq<Song>) -> bool {
    &&& forall|j: int| 0 <= j < al.songs@.len() ==> (#[trigger] al.songs@[j]).idx < songs.len()
    &&& al.song_count == al.songs@.len()
    &&& al.runtime as int == sat32(
        sum_u32(al.songs@.map_values(|k: SongKey| songs[k.idx as int].runtime)),
    )
    &&& al.discs as int == sat32(
        distinct_count(al.songs@.map_values(|k: SongKey| disc_code(songs[k.idx as int].disc))) as int,
    )
    &&& al.release.wf()
    &&& forall|i: int, j: int|
        0 <= i < j < al.songs@.len() ==> song_disc_track_le(
            songs[al.songs@[i].idx as int],
            songs[al.songs@[j].idx as int],
        )
}

/// Every album's aggregates are in place.
pub open spec fn albums_aggregated(albums: Seq<Album>, songs: Seq<Song>) -> bool {
    forall|a: int| 0 <= a < albums.len() ==> album_aggregated(#[trigger] albums[a], songs)
}

/// The concatenation of the song lists of the given albums, in order.
pub open spec fn flat_songs_in(albums: Seq<Album>, albs: Seq<AlbumKey>) -> Seq<SongKey>
    decreases albs.len(),
{
    if albs.len() == 0 {
        Seq::empty()
    } else {
        flat_songs_in(albums, albs.drop_last()) + albums[albs.last().idx as int].songs@
    }
}

/// One artist's aggregate facts: the runtime aggregates its albums,
/// the album list is sorted by release (unknowns last, ties by key),
/// and the song list is the albums' song lists laid end to end.
pub open spec fn artist_aggregated(ar: Artist, albums: Seq<Album>) -> bool {
    &&& forall|j: int| 0 <= j < ar.albums@.len() ==> (#[trigger] ar.albums@[j]).idx < albums.len()
    &&& ar.runtime as int == sat32(
        sum_u32(ar.albums@.map_values(|k: AlbumKey| albums[k.idx as int].runtime)),
    )
    &&& ar.songs@ == flat_songs_in(albums, ar.albums@)
    &&& forall|i: int, j: int|
        0 <= i < j < ar.albums@.len() ==> rank_idx_le(
            albums[ar.albums@[i].idx as int].release.spec_code(),
            ar.albums@[i].idx as int,
            albums[ar.albums@[j].idx as int].release.spec_code(),
            ar.albums@[j].idx as int,
        )
}

/// Every artist's aggregates are in place.
pub open spec fn artists_aggregated(artists: Seq<Artist>, albums: Seq<Album>) -> bool {
    forall|x: int| 0 <= x < artists.len() ==> artist_aggregated(#[trigger] artists[x], albums)
}

impl Collection {
    /// Every key stored anywhere in the arenas resolves; see
    /// [`arenas_linked`].
    pub open spec fn linkage_wf(&self) -> bool {
        arenas_linked(self.artists@, self.albums@, self.songs@)
    }

    /// Each album's song list holds exactly its own songs; see
    /// [`songs_covered_in`].
    pub open spec fn songs_covered(&self) -> bool {
        songs_covered_in(self.albums@, self.songs@)
    }

    /// Each artist's album list holds exactly its own albums; see
    /// [`albums_covered_in`].
    pub open spec fn albums_covered(&self) -> bool {
        albums_covered_in(self.artists@, self.albums@)
    }

    /// No artist and no album is empty; see [`arenas_populated`].
    pub open spec fn populated(&self) -> bool {
        arenas_populated(self.artists@, self.albums@)
    }

    /// Per-album facts; see [`albums_aggregated`].
    pub open spec fn albums_wf(&self) -> bool {
        albums_aggregated(self.albums@, self.songs@)
    }

    /// Per-artist facts; see [`artists_aggregated`].
    pub open spec fn artists_wf(&self) -> bool {
        artists_aggregated(self.artists@, self.albums@)
    }

    /// The counts and the emptiness flag agree with the arenas.
    pub open spec fn counts_wf(&self) -> bool {
        &&& self.count_artist == self.artists@.len()
        &&& self.count_album == self.albums@.len()
        &&& self.count_song == self.songs@.len()
        &&& self.empty == (self.artists@.len() == 0 && self.albums@.len() == 0
            && self.songs@.len() == 0)
    }

    /// Every one of the ten orderings holds exactly the keys of its
    /// arena, each exactly once.
    pub open spec fn orderings_are_permutations(&self) -> bool {
        &&& is_key_ordering(artist_key_idxs(self.sort_artist_lexi@), self.artists@.len())
        &&& is_key_ordering(artist_key_idxs(self.sort_artist_album_count@), self.artists@.len())
        &&& is_key_ordering(artist_key_idxs(self.sort_artist_song_count@), self.artists@.len())
        &&& is_key_ordering(
            album_key_idxs(self.sort_album_release_artist_lexi@),
            self.albums@.len(),
        )
        &&& is_key_ordering(album_key_idxs(self.sort_album_lexi_artist_lexi@), self.albums@.len())
        &&& is_key_ordering(album_key_idxs(self.sort_album_lexi@), self.albums@.len())
        &&& is_key_ordering(album_key_idxs(self.sort_album_release@), self.albums@.len())
        &&& is_key_ordering(album_key_idxs(self.sort_album_runtime@), self.albums@.len())
        &&& is_key_ordering(
            song_key_idxs(self.sort_song_album_release_artist_lexi@),
            self.songs@.len(),
        )
        &&& is_key_ordering(
            song_key_idxs(self.sort_song_album_lexi_artist_lexi@),
            self.songs@.len(),
        )
        &&& is_key_ordering(song_key_idxs(self.sort_song_lexi@), self.songs@.len())
        &&& is_key_ordering(song_key_idxs(self.sort_song_release@), self.songs@.len())
        &&& is_key_ordering(song_key_idxs(self.sort_song_runtime@), self.songs@.len())
    }

    /// The orderings ranked by a single per-slot value are sorted by
    /// it, ties broken by key. The four orderings grouped under the
    /// artist orderings state their order in the contracts of the
    /// functions that build them.
    pub open spec fn orderings_sorted(&self) -> bool {
        &&& forall|i: int, j: int|
            0 <= i < j < self.sort_artist_lexi@.len() ==> bytes_idx_le(
                self.artists@[(#[trigger] self.sort_artist_lexi@[i]).idx as int].name_lowercase@,
                self.sort_artist_lexi@[i].idx as int,
                self.artists@[(#[trigger] self.sort_artist_lexi@[j]).idx as int].name_lowercase@,
                self.sort_artist_lexi@[j].idx as int,
            )
        &&& forall|i: int, j: int|
            0 <= i < j < self.sort_artist_album_count@.len() ==> rank_idx_le(
                self.artists@[(#[trigger] self.sort_artist_album_count@[i]).idx as int].albums@.len() as u64,
                self.sort_artist_album_count@[i].idx as int,
                self.artists@[(#[trigger] self.sort_artist_album_count@[j]).idx as int].albums@.len() as u64,
                self.sort_artist_album_count@[j].idx as int,
            )
        &&& forall|i: int, j: int|
            0 <= i < j < self.sort_artist_song_count@.len() ==> rank_idx_le(
                self.artists@[(#[trigger] self.sort_artist_song_count@[i]).idx as int].songs@.len() as u64,
                self.sort_artist_song_count@[i].idx as int,
                self.artists@[(#[trigger] self.sort_artist_song_count@[j]).idx as int].songs@.len() as u64,
                self.sort_artist_song_count@[j].idx as int,
            )
        &&& forall|i: int, j: int|
            0 <= i < j < self.sort_album_lexi@.len() ==> bytes_idx_le(
                self.albums@[(#[trigger] self.sort_album_lexi@[i]).idx as int].title_lowercase@,
                self.sort_album_lexi@[i].idx as int,
                self.albums@[(#[trigger] self.sort_album_lexi@[j]).idx as int].title_lowercase@,
                self.sort_album_lexi@[j].idx as int,
            )
        &&& forall|i: int, j: int|
            0 <= i < j < self.sort_album_release@.len() ==> rank_idx_le(
                self.albums@[(#[trigger] self.sort_album_release@[i]).idx as int].release.spec_code(),
                self.sort_album_release@[i].idx as int,
                self.albums@[(#[trigger] self.sort_album_release@[j]).idx as int].release.spec_code(),
                self.sort_album_release@[j].idx as int,
            )
        &&& forall|i: int, j: int|
            0 <= i < j < self.sort_album_runtime@.len() ==> rank_idx_le(
                self.albums@[(#[trigger] self.sort_album_runtime@[i]).idx as int].runtime as u64,
                self.sort_album_runtime@[i].idx as int,
                self.albums@[(#[trigger] self.sort_album_runtime@[j]).idx as int].runtime as u64,
                self.sort_album_runtime@[j].idx as int,
            )
        &&& forall|i: int, j: int|
            0 <= i < j < self.sort_song_lexi@.len() ==> bytes_idx_le(
                self.songs@[(#[trigger] self.sort_song_lexi@[i]).idx as int].title_lowercase@,
                self.sort_song_lexi@[i].idx as int,
                self.songs@[(#[trigger] self.sort_song_lexi@[j]).idx as int].title_lowercase@,
                self.sort_song_lexi@[j].idx as int,
            )
        &&& forall|i: int, j: int|
            0 <= i < j < self.sort_song_release@.len() ==> rank_idx_le(
                self.albums@[self.songs@[(#[trigger] self.sort_song_release@[i]).idx as int].album.idx as int].release.spec_code(),
                self.sort_song_release@[i].idx as int,
                self.albums@[self.songs@[(#[trigger] self.sort_song_release@[j]).idx as int].album.idx as int].release.spec_code(),
                self.sort_song_release@[j].idx as int,
            )
        &&& forall|i: int, j: int|
            0 <= i < j < self.sort_song_runtime@.len() ==> rank_idx_le(
                self.songs@[(#[trigger] self.sort_song_runtime@[i]).idx as int].runtime as u64,
                self.sort_song_runtime@[i].idx as int,
                self.songs@[(#[trigger] self.sort_song_runtime@[j]).idx as int].runtime as u64,
                self.sort_song_runtime@[j].idx as int,
            )
    }

    /// Full well-formedness of a built library.
    pub open spec fn wf(&self) -> bool {
        &&& self.linkage_wf()
        &&& self.songs_covered()
        &&& self.albums_covered()
        &&& self.populated()
        &&& self.albums_wf()
        &&& self.artists_wf()
        &&& self.counts_wf()
        &&& self.orderings_are_permutations()
        &&& self.orderings_sorted()
    }

    /// An empty library: no entities, empty orderings, zero counts,
    /// timestamp zero.
    pub fn new() -> (r: Self)
        ensures
            r.wf(),
            r.empty,
            r.artists@.len() == 0,
            r.albums@.len() == 0,
            r.songs@.len() == 0,
            r.timestamp == 0,
    {
        Collection {
            artists: Vec::new(),
            albums: Vec::new(),
            songs: Vec::new(),
            sort_artist_lexi: Vec::new(),
            sort_artist_album_count: Vec::new(),
            sort_artist_song_count: Vec::new(),
            sort_album_release_artist_lexi: Vec::new(),
            sort_album_lexi_artist_lexi: Vec::new(),
            sort_album_lexi: Vec::new(),
            sort_album_release: Vec::new(),
            sort_album_runtime: Vec::new(),
            sort_song_album_release_artist_lexi: Vec::new(),
            sort_song_album_lexi_artist_lexi: Vec::new(),
            sort_song_lexi: Vec::new(),
            sort_song_release: Vec::new(),
            sort_song_runtime: Vec::new(),
            empty: true,
            timestamp: 0,
            count_artist: 0,
            count_album: 0,
            count_song: 0,
        }
    }

    /// Index the three arenas at once. The keys must be in bounds.
    pub fn index(&self, key: &Key) -> (r: (&Artist, &Album, &Song))
        requires
            key.artist.idx < self.artists@.len(),
            key.album.idx < self.albums@.len(),
            key.song.idx < self.songs@.len(),
        ensures
            *r.0 == self.artists@[key.artist.idx as int],
            *r.1 == self.albums@[key.album.idx as int],
            *r.2 == self.songs@[key.song.idx as int],
    {
        (&self.artists[key.artist.idx], &self.albums[key.album.idx], &self.songs[key.song.idx])
    }

    /// Index the three arenas at once, returning `None` when any of
    /// the keys is out of bounds.
    pub fn get(&self, key: &Key) -> (r: Option<(&Artist, &Album, &Song)>)
        ensures
            r is Some <==> key.artist.idx < self.artists@.len() && key.album.idx
                < self.albums@.len() && key.song.idx < self.songs@.len(),
            r is Some ==> {
                let t = r->0;
                &&& *t.0 == self.artists@[key.artist.idx as int]
                &&& *t.1 == self.albums@[key.album.idx as int]
                &&& *t.2 == self.songs@[key.song.idx as int]
            },
    {
        if key.artist.idx < self.artists.len() && key.album.idx < self.albums.len()
            && key.song.idx < self.songs.len() {
            Some(
                (
                    &self.artists[key.artist.idx],
                    &self.albums[key.album.idx],
                    &self.songs[key.song.idx],
                ),
            )
        } else {
            None
        }
    }

    /// The artist an album belongs to. The key must be in bounds.
    pub fn artist_from_album(&self, key: AlbumKey) -> (r: &Artist)
        requires
            self.linkage_wf(),
            key.idx < self.albums@.len(),
        ensures
            *r == self.artists@[self.albums@[key.idx as int].artist.idx as int],
    {
        &self.artists[self.albums[key.idx].artist.idx]
    }

    /// The album a song belongs to. The key must be in bounds.
    pub fn album_from_song(&self, key: SongKey) -> (r: &Album)
        requires
            self.linkage_wf(),
            key.idx < self.songs@.len(),
        ensures
            *r == self.albums@[self.songs@[key.idx as int].album.idx as int],
    {
        &self.albums[self.songs[key.idx].album.idx]
    }

    /// The artist a song belongs to. The key must be in bounds.
    pub fn artist_from_song(&self, key: SongKey) -> (r: &Artist)
        requires
            self.linkage_wf(),
            key.idx < self.songs@.len(),
        ensures
            *r == self.artists@[self.albums@[self.songs@[key.idx as int].album.idx as int].artist.idx as int],
    {
        self.artist_from_album(self.songs[key.idx].album)
    }

    /// The artist an album belongs to, or `None` when the key is out
    /// of bounds.
    pub fn get_artist_from_album(&self, key: AlbumKey) -> (r: Option<&Artist>)
        requires
            self.linkage_wf(),
        ensures
            r is Some <==> key.idx < self.albums@.len(),
            r is Some ==> *r->0 == self.artists@[self.albums@[key.idx as int].artist.idx as int],
    {
        if key.idx < self.albums.len() {
            Some(self.artist_from_album(key))
        } else {
            None
        }
    }

    /// The album a song belongs to, or `None` when the key is out of
    /// bounds.
    pub fn get_album_from_song(&self, key: SongKey) -> (r: Option<&Album>)
        requires
            self.linkage_wf(),
        ensures
            r is Some <==> key.idx < self.songs@.len(),
            r is Some ==> *r->0 == self.albums@[self.songs@[key.idx as int].album.idx as int],
    {
        if key.idx < self.songs.len() {
            Some(self.album_from_song(key))
        } else {
            None
        }
    }

    /// The artist a song belongs to, or `None` when the key is out of
    /// bounds.
    pub fn get_artist_from_song(&self, key: SongKey) -> (r: Option<&Artist>)
        requires
            self.linkage_wf(),
        ensures
            r is Some <==> key.idx < self.songs@.len(),
            r is Some ==> *r->0
                == self.artists@[self.albums@[self.songs@[key.idx as int].album.idx as int].artist.idx as int],
    {
        if key.idx < self.songs.len() {
            Some(self.artist_from_song(key))
        } else {
            None
        }
    }

    /// The precomputed artist ordering a sort choice names.
    pub fn artist_sort(&self, sort: &ArtistSort) -> (r: &Vec<ArtistKey>)
        ensures
            *sort is Lexi ==> r == &self.sort_artist_lexi,
            *sort is AlbumCount ==> r == &self.sort_artist_album_count,
            *sort is SongCount ==> r == &self.sort_artist_song_count,
    {
        match sort {
            ArtistSort::Lexi => &self.sort_artist_lexi,
            ArtistSort::AlbumCount => &self.sort_artist_album_count,
            ArtistSort::SongCount => &self.sort_artist_song_count,
        }
    }

    /// The precomputed album ordering a sort choice names.
    pub fn album_sort(&self, sort: &AlbumSort) -> (r: &Vec<AlbumKey>)
        ensures
            *sort is ReleaseArtistLexi ==> r == &self.sort_album_release_artist_lexi,
            *sort is LexiArtistLexi ==> r == &self.sort_album_lexi_artist_lexi,
            *sort is Lexi ==> r == &self.sort_album_lexi,
            *sort is Release ==> r == &self.sort_album_release,
            *sort is Runtime ==> r == &self.sort_album_runtime,
    {
        match sort {
            AlbumSort::ReleaseArtistLexi => &self.sort_album_release_artist_lexi,
            AlbumSort::LexiArtistLexi => &self.sort_album_lexi_artist_lexi,
            AlbumSort::Lexi => &self.sort_album_lexi,
            AlbumSort::Release => &self.sort_album_release,
            AlbumSort::Runtime => &self.sort_album_runtime,
        }
    }

    /// The precomputed song ordering a sort choice names.
    pub fn song_sort(&self, sort: &SongSort) -> (r: &Vec<SongKey>)
        ensures
            *sort is AlbumReleaseArtistLexi ==> r == &self.sort_song_album_release_artist_lexi,
            *sort is AlbumLexiArtistLexi ==> r == &self.sort_song_album_lexi_artist_lexi,
            *sort is Lexi ==> r == &self.sort_song_lexi,
            *sort is Release ==> r == &self.sort_song_release,
            *sort is Runtime ==> r == &self.sort_song_runtime,
    {
        match sort {
            SongSort::AlbumReleaseArtistLexi => &self.sort_song_album_release_artist_lexi,
            SongSort::AlbumLexiArtistLexi => &self.sort_song_album_lexi_artist_lexi,
            SongSort::Lexi => &self.sort_song_lexi,
            SongSort::Release => &self.sort_song_release,
            SongSort::Runtime => &self.sort_song_runtime,
        }
    }
}

/// In a well-formed collection, every `SongKey` inside any album
/// resolves to a song whose `album` field points back at that very
/// album — and conversely, every song is listed by its own album,
/// exactly once.
pub proof fn lemma_album_songs_point_back(c: &Collection, a: int, j: int)
    requires
        c.wf(),
        0 <= a < c.albums@.len(),
        0 <= j < c.albums@[a].songs@.len(),
    ensures
        c.albums@[a].songs@[j].idx < c.songs@.len(),
        c.songs@[c.albums@[a].songs@[j].idx as int].album.idx == a,
        c.songs@[c.albums@[a].songs@[j].idx as int].album == c.albums@[a].key,
        forall|s: int|
            0 <= s < c.songs@.len() ==> c.albums@[(#[trigger] c.songs@[s]).album.idx as int].songs@.contains(
                c.songs@[s].key,
            ),
        c.albums@[a].songs@.no_duplicates(),
{
}

/// In a well-formed collection, an album's song list is sorted by
/// `(disc, track)` and its disc count is the number of distinct disc
/// values among its songs (saturating at `u32::MAX`).
pub proof fn lemma_album_songs_sorted(c: &Collection, a: int)
    requires
        c.wf(),
        0 <= a < c.albums@.len(),
    ensures
        forall|i: int, j: int|
            0 <= i < j < c.albums@[a].songs@.len() ==> song_disc_track_le(
                c.songs@[c.albums@[a].songs@[i].idx as int],
                c.songs@[c.albums@[a].songs@[j].idx as int],
            ),
        c.albums@[a].discs as int == sat32(
            distinct_count(
                c.albums@[a].songs@.map_values(
                    |k: SongKey| disc_code(c.songs@[k.idx as int].disc),
                ),
            ) as int,
        ),
{
}

/// In a well-formed collection, an artist's runtime is exactly the
/// sum of its albums' runtimes whenever that sum fits in `u32`.
pub proof fn lemma_artist_runtime_is_album_sum(c: &Collection, x: int)
    requires
        c.wf(),
        0 <= x < c.artists@.len(),
        sum_u32(c.artists@[x].albums@.map_values(|k: AlbumKey| c.albums@[k.idx as int].runtime))
            <= u32::MAX as int,
    ensures
        c.artists@[x].runtime as int == sum_u32(
            c.artists@[x].albums@.map_values(|k: AlbumKey| c.albums@[k.idx as int].runtime),
        ),
{
}

/// Every one of the ten precomputed orderings of a well-formed
/// collection holds exactly the keys of its arena, each exactly once.
pub proof fn lemma_orderings_are_permutations(c: &Collection)
    requires
        c.wf(),
    ensures
        is_key_ordering(artist_key_idxs(c.sort_artist_lexi@), c.artists@.len()),
        is_key_ordering(artist_key_idxs(c.sort_artist_album_count@), c.artists@.len()),
        is_key_ordering(artist_key_idxs(c.sort_artist_song_count@), c.artists@.len()),
        is_key_ordering(album_key_idxs(c.sort_album_release_artist_lexi@), c.albums@.len()),
        is_key_ordering(album_key_idxs(c.sort_album_lexi_artist_lexi@), c.albums@.len()),
        is_key_ordering(album_key_idxs(c.sort_album_lexi@), c.albums@.len()),
        is_key_ordering(album_key_idxs(c.sort_album_release@), c.albums@.len()),
        is_key_ordering(album_key_idxs(c.sort_album_runtime@), c.albums@.len()),
        is_key_ordering(song_key_idxs(c.sort_song_album_release_artist_lexi@), c.songs@.len()),
        is_key_ordering(song_key_idxs(c.sort_song_album_lexi_artist_lexi@), c.songs@.len()),
        is_key_ordering(song_key_idxs(c.sort_song_lexi@), c.songs@.len()),
        is_key_ordering(song_key_idxs(c.sort_song_release@), c.songs@.len()),
        is_key_ordering(song_key_idxs(c.sort_song_runtime@), c.songs@.len()),
{
}

} // verus!
