//! The collection builder: from a list of per-file metadata records
//! to a fully linked, aggregated, sorted [`Collection`].
//!
//! The caller walks the directories, probes each audio file and hands
//! the validated metadata in as plain [`TagRecord`] values; everything
//! from there on — deduplication into the artist/album/song graph,
//! aggregate fix-up, and the ten orderings — is verified here.

use vstd::prelude::*;
use crate::collection::{
    album_aggregated, album_key_idxs, albums_aggregated, albums_covered_in, arenas_linked,
    arenas_populated, artist_aggregated, artist_key_idxs, artists_aggregated, bytes_idx_le,
    distinct_count, flat_songs_in, rank_idx_le, sat32, song_key_idxs, songs_covered_in, sum_u32,
    Collection,
};
use crate::date::Date;
use crate::entity::{disc_code, song_disc_track_le, track_code, Album, Art, Artist, Song};
use crate::key::{AlbumKey, ArtistKey, SongKey};
use crate::sort::{entry_le, is_key_ordering, sorted_indices, SortEntry};
use crate::strings::{bytes_three_way, lower_bytes_of, lowercase_bytes};

verus! {

/// The collection builder. Its functions are the sequential phases
/// that turn scanned metadata into a [`Collection`].
pub struct Ccd;

/// Validated metadata for one audio file, as extracted by the caller
/// during the parse phase. Files that lacked an artist, album, title,
/// runtime or sample rate, or that were marked as compilations, never
/// become records.
#[derive(Clone, Debug)]
pub struct TagRecord {
    /// The artist name (album artist when present).
    pub artist: String,
    /// The album title.
    pub album: String,
    /// The song title, falling back to the file name stem.
    pub title: String,
    /// Runtime in whole seconds.
    pub runtime: u32,
    /// Sample rate in Hz.
    pub sample_rate: u32,
    /// Track number, when tagged.
    pub track: Option<u32>,
    /// Disc number, when tagged.
    pub disc: Option<u32>,
    /// Embedded picture bytes, or the first image file found beside
    /// the audio file.
    pub art: Option<Vec<u8>>,
    /// Release date string, when tagged.
    pub release: Option<String>,
    /// Genre, when tagged.
    pub genre: Option<String>,
    /// MIME type of the file.
    pub mime: String,
    /// File extension of the file.
    pub extension: String,
    /// Absolute path of the file.
    pub path: String,
    /// Parent directory of the file.
    pub path_parent: String,
}

/// No two artists share a case-folded name, and no artist holds two
/// albums of the same case-folded title: the builder's working
/// memory deduplicates on lowercased names.
pub open spec fn arenas_deduped(artists: Seq<Artist>, albums: Seq<Album>) -> bool {
    &&& forall|x: int, y: int|
        0 <= x < y < artists.len() ==> lower_bytes_of((#[trigger] artists[x]).name@)
            != lower_bytes_of((#[trigger] artists[y]).name@)
    &&& forall|a: int, b: int|
        0 <= a < b < albums.len() && (#[trigger] albums[a]).artist == (#[trigger] albums[b]).artist
            ==> lower_bytes_of(albums[a].title@) != lower_bytes_of(albums[b].title@)
}

/// A song carries exactly the fields of the record it came from.
pub open spec fn song_matches_record(s: Song, r: TagRecord) -> bool {
    &&& s.title@ == r.title@
    &&& s.title_lowercase@ == lower_bytes_of(r.title@)
    &&& s.runtime == r.runtime
    &&& s.sample_rate == r.sample_rate
    &&& s.track == r.track
    &&& s.disc == r.disc
    &&& s.mime@ == r.mime@
    &&& s.extension@ == r.extension@
    &&& s.path@ == r.path@
}

/// Songs sit in record order, and each one's album and artist carry
/// the names its record carried, up to case folding (the display
/// name is the first spelling seen).
pub open spec fn songs_match_records(
    artists: Seq<Artist>,
    albums: Seq<Album>,
    songs: Seq<Song>,
    records: Seq<TagRecord>,
) -> bool {
    &&& songs.len() == records.len()
    &&& forall|i: int| 0 <= i < songs.len() ==> song_matches_record(#[trigger] songs[i], records[i])
    &&& forall|i: int|
        0 <= i < songs.len() ==> (#[trigger] songs[i]).album.idx < albums.len()
            && lower_bytes_of(albums[songs[i].album.idx as int].title@) == lower_bytes_of(
            records[i].album@,
        ) && albums[songs[i].album.idx as int].artist.idx < artists.len() && lower_bytes_of(
            artists[albums[songs[i].album.idx as int].artist.idx as int].name@,
        ) == lower_bytes_of(records[i].artist@)
}

/// Every album's release date is well-formed.
pub open spec fn albums_release_wf(albums: Seq<Album>) -> bool {
    forall|a: int| 0 <= a < albums.len() ==> (#[trigger] albums[a]).release.wf()
}

/// Every key in a song-key list stays below the arena size.
pub open spec fn song_keys_resolve(s: Seq<SongKey>, n: nat) -> bool {
    forall|j: int| 0 <= j < s.len() ==> (#[trigger] s[j]).idx < n
}

/// Pushing onto a sequence keeps everything it already contained.
proof fn lemma_push_contains<T>(s: Seq<T>, x: T, y: T)
    requires
        s.contains(y),
    ensures
        s.push(x).contains(y),
{
    let w = choose|w: int| 0 <= w < s.len() && s[w] == y;
    assert(s.push(x)[w] == y);
}

impl Ccd {
    /// Find an artist by case-folded name.
    fn find_artist(artists: &Vec<Artist>, name_lower: &Vec<u8>) -> (r: Option<usize>)
        ensures
            r is Some ==> r->0 < artists@.len() && artists@[r->0 as int].name_lowercase@
                == name_lower@,
            r is None ==> forall|i: int|
                0 <= i < artists@.len() ==> (#[trigger] artists@[i]).name_lowercase@
                    != name_lower@,
    {
        let mut i: usize = 0;
        while i < artists.len()
            invariant
                i <= artists@.len(),
                forall|j: int|
                    0 <= j < i ==> (#[trigger] artists@[j]).name_lowercase@ != name_lower@,
            decreases artists@.len() - i,
        {
            let c = bytes_three_way(artists[i].name_lowercase.as_slice(), name_lower.as_slice());
            if c == 0 {
                return Some(i);
            }
            i = i + 1;
        }
        None
    }

    /// Find an album of a given artist by case-folded title.
    fn find_album(albums: &Vec<Album>, artist_idx: usize, title_lower: &Vec<u8>) -> (r: Option<
        usize,
    >)
        ensures
            r is Some ==> r->0 < albums@.len() && albums@[r->0 as int].title_lowercase@
                == title_lower@ && albums@[r->0 as int].artist.idx == artist_idx,
            r is None ==> forall|a: int|
                0 <= a < albums@.len() && (#[trigger] albums@[a]).artist.idx == artist_idx
                    ==> albums@[a].title_lowercase@ != title_lower@,
    {
        let mut a: usize = 0;
        while a < albums.len()
            invariant
                a <= albums@.len(),
                forall|j: int|
                    0 <= j < a && (#[trigger] albums@[j]).artist.idx == artist_idx ==> albums@[j].title_lowercase@
                        != title_lower@,
            decreases albums@.len() - a,
        {
            if albums[a].artist.idx == artist_idx {
                let c = bytes_three_way(albums[a].title_lowercase.as_slice(), title_lower.as_slice());
                if c == 0 {
                    return Some(a);
                }
            }
            a = a + 1;
        }
        None
    }

    /// Copy a byte vector.
    pub(crate) fn clone_bytes(v: &Vec<u8>) -> (r: Vec<u8>)
        ensures
            r@ == v@,
    {
        let mut r: Vec<u8> = Vec::new();
        let mut i: usize = 0;
        while i < v.len()
            invariant
                i <= v@.len(),
                r@ =~= v@.subrange(0, i as int),
            decreases v@.len() - i,
        {
            r.push(v[i]);
            i = i + 1;
        }
        proof {
            assert(r@ =~= v@);
        }
        r
    }

    /// Build the art of a fresh album from its record.
    fn record_art(art: &Option<Vec<u8>>) -> (r: Art)
        ensures
            art is Some ==> r is Bytes && r->0@ == art->0@,
            art is None ==> r is Unknown,
    {
        match art {
            Some(b) => Art::Bytes(Self::clone_bytes(b)),
            None => Art::Unknown,
        }
    }

    /// Build the release date of a fresh album from its record.
    fn record_release(release: &Option<String>) -> (r: Date)
        ensures
            r.wf(),
    {
        match release {
            Some(s) => Date::from_str_silent(s.as_str()),
            None => Date::unknown(),
        }
    }

    /// Copy an optional genre string.
    fn clone_genre(genre: &Option<String>) -> (r: Option<String>)
        ensures
            r is Some <==> genre is Some,
            r is Some ==> r->0@ == genre->0@,
    {
        match genre {
            Some(s) => Some(s.clone()),
            None => None,
        }
    }

    /// The deduplication loop: each record becomes one song; albums
    /// and artists are created the first time their case-folded
    /// names appear and reused afterwards (the display name keeps
    /// the first spelling seen). Aggregates, artist song lists and
    /// sorting are left to [`Ccd::fix_metadata`]. The returned count
    /// is the number of albums that came with art bytes.
    #[verifier::rlimit(80)]
    pub fn the_loop(records: &Vec<TagRecord>) -> (r: (Vec<Artist>, Vec<Album>, Vec<Song>, usize))
        ensures
            arenas_linked(r.0@, r.1@, r.2@),
            songs_covered_in(r.1@, r.2@),
            albums_covered_in(r.0@, r.1@),
            arenas_populated(r.0@, r.1@),
            arenas_deduped(r.0@, r.1@),
            songs_match_records(r.0@, r.1@, r.2@, records@),
            albums_release_wf(r.1@),
            forall|x: int| 0 <= x < r.0@.len() ==> (#[trigger] r.0@[x]).songs@.len() == 0,
            r.3 <= r.1@.len(),
    {
        let mut artists: Vec<Artist> = Vec::new();
        let mut albums: Vec<Album> = Vec::new();
        let mut songs: Vec<Song> = Vec::new();
        let mut count_art: usize = 0;
        let mut i: usize = 0;
        while i < records.len()
            invariant
                i <= records@.len(),
                arenas_linked(artists@, albums@, songs@),
                songs_covered_in(albums@, songs@),
                albums_covered_in(artists@, albums@),
                arenas_populated(artists@, albums@),
                arenas_deduped(artists@, albums@),
                songs@.len() == i,
                forall|k: int|
                    0 <= k < songs@.len() ==> song_matches_record(#[trigger] songs@[k], records@[k]),
                forall|k: int|
                    0 <= k < songs@.len() ==> (#[trigger] songs@[k]).album.idx < albums@.len()
                        && lower_bytes_of(albums@[songs@[k].album.idx as int].title@)
                            == lower_bytes_of(records@[k].album@)
                        && albums@[songs@[k].album.idx as int].artist.idx < artists@.len()
                        && lower_bytes_of(
                        artists@[albums@[songs@[k].album.idx as int].artist.idx as int].name@,
                    ) == lower_bytes_of(records@[k].artist@),
                albums_release_wf(albums@),
                forall|x: int| 0 <= x < artists@.len() ==> (#[trigger] artists@[x]).songs@.len() == 0,
                count_art <= albums@.len(),
            decreases records@.len() - i,
        {
            let rec = &records[i];
            let title_lowercase = lowercase_bytes(rec.title.as_str());
            let artist_lower = lowercase_bytes(rec.artist.as_str());
            let album_lower = lowercase_bytes(rec.album.as_str());
            let song_key = SongKey::new(songs.len());
            let found_artist = Self::find_artist(&artists, &artist_lower);
            match found_artist {
                Some(x) => {
                    let found_album = Self::find_album(&albums, x, &album_lower);
                    match found_album {
                        Some(a) => {
                            // Artist and album both exist: append the song
                            // and link it into the album.
                            let song = Song {
                                title: rec.title.clone(),
                                title_lowercase,
                                key: song_key,
                                album: AlbumKey::new(a),
                                runtime: rec.runtime,
                                sample_rate: rec.sample_rate,
                                track: rec.track,
                                disc: rec.disc,
                                mime: rec.mime.clone(),
                                extension: rec.extension.clone(),
                                path: rec.path.clone(),
                            };
                            let ghost old_songs = songs@;
                            songs.push(song);
                            let ghost old_albums = albums@;
                            let mut al = albums.remove(a);
                            al.songs.push(song_key);
                            albums.insert(a, al);
                            proof {
                                assert(albums@.len() == old_albums.len());
                                assert(forall|j: int|
                                    0 <= j < albums@.len() && j != a ==> albums@[j]
                                        == old_albums[j]);
                                assert(albums@[a as int].songs@ == old_albums[a as int].songs@.push(
                                    song_key,
                                ));
                                let ol = old_albums[a as int].songs@;
                                assert(!ol.contains(song_key)) by {
                                    if ol.contains(song_key) {
                                        let w = choose|w: int|
                                            0 <= w < ol.len() && ol[w] == song_key;
                                        assert(ol[w].idx < old_songs.len());
                                    }
                                }
                                assert(albums@[a as int].songs@.no_duplicates());
                                assert forall|t: int|
                                    0 <= t < songs@.len() && (#[trigger] songs@[t]).album.idx
                                        < albums@.len() implies albums@[songs@[t].album.idx as int].songs@.contains(
                                    songs@[t].key,
                                ) by {
                                    let ai = songs@[t].album.idx as int;
                                    if t < old_songs.len() {
                                        if ai == a {
                                            lemma_push_contains(ol, song_key, old_songs[t].key);
                                        }
                                    } else {
                                        assert(songs@[t] == song);
                                        assert(albums@[a as int].songs@.last() == song_key);
                                    }
                                }
                                // The album keeps its key and artist, so it is
                                // still listed by its artist.
                                assert forall|a2: int|
                                    0 <= a2 < albums@.len() && (#[trigger] albums@[a2]).artist.idx
                                        < artists@.len() implies artists@[albums@[a2].artist.idx as int].albums@.contains(
                                    albums@[a2].key,
                                ) by {
                                    assert(albums@[a2].key == old_albums[a2].key);
                                    assert(albums@[a2].artist == old_albums[a2].artist);
                                }
                            }
                        },
                        None => {
                            // Artist exists, album is new: append album and
                            // song, link the album into the artist.
                            let album_key = AlbumKey::new(albums.len());
                            let song = Song {
                                title: rec.title.clone(),
                                title_lowercase,
                                key: song_key,
                                album: album_key,
                                runtime: rec.runtime,
                                sample_rate: rec.sample_rate,
                                track: rec.track,
                                disc: rec.disc,
                                mime: rec.mime.clone(),
                                extension: rec.extension.clone(),
                                path: rec.path.clone(),
                            };
                            let art = Self::record_art(&rec.art);
                            let has_art = rec.art.is_some();
                            let album = Album {
                                title: rec.album.clone(),
                                title_lowercase: album_lower,
                                key: album_key,
                                artist: ArtistKey::new(x),
                                release: Self::record_release(&rec.release),
                                runtime: 0,
                                song_count: 0,
                                songs: {
                                    let mut s: Vec<SongKey> = Vec::new();
                                    s.push(song_key);
                                    s
                                },
                                discs: 0,
                                path: rec.path_parent.clone(),
                                genre: Self::clone_genre(&rec.genre),
                                art,
                            };
                            let ghost old_songs = songs@;
                            let ghost old_albums = albums@;
                            songs.push(song);
                            albums.push(album);
                            proof {
                                assert forall|t: int|
                                    0 <= t < songs@.len() && (#[trigger] songs@[t]).album.idx
                                        < albums@.len() implies albums@[songs@[t].album.idx as int].songs@.contains(
                                    songs@[t].key,
                                ) by {
                                    let ai = songs@[t].album.idx as int;
                                    if t >= old_songs.len() {
                                        assert(songs@[t] == song);
                                        assert(ai == old_albums.len());
                                        assert(albums@[ai].songs@[0] == song_key);
                                    }
                                }
                                assert forall|a2: int|
                                    0 <= a2 < albums@.len() implies (#[trigger] albums@[a2]).songs@.no_duplicates() by {
                                    if a2 == old_albums.len() {
                                        assert(albums@[a2].songs@.len() == 1);
                                    }
                                }
                            }
                            if has_art {
                                let n = albums.len();
                                proof {
                                    assert(count_art < n);
                                }
                                count_art = count_art + 1;
                            }
                            let ghost old_artists = artists@;
                            let mut ar = artists.remove(x);
                            ar.albums.push(album_key);
                            artists.insert(x, ar);
                            proof {
                                assert(artists@.len() == old_artists.len());
                                assert(forall|j: int|
                                    0 <= j < artists@.len() && j != x ==> artists@[j]
                                        == old_artists[j]);
                                let oal = old_artists[x as int].albums@;
                                assert(artists@[x as int].albums@ == oal.push(album_key));
                                // The fresh key was not in the old list.
                                assert(!oal.contains(album_key)) by {
                                    if oal.contains(album_key) {
                                        let w = choose|w: int|
                                            0 <= w < oal.len() && oal[w] == album_key;
                                        assert(oal[w].idx < old_albums.len());
                                    }
                                }
                                assert forall|x2: int|
                                    0 <= x2 < artists@.len() implies (#[trigger] artists@[x2]).albums@.no_duplicates() by {
                                    if x2 == x {
                                        assert(artists@[x2].albums@ == oal.push(album_key));
                                    }
                                }
                                // Every album is still listed by its artist,
                                // and the new one is listed last.
                                assert forall|a2: int|
                                    0 <= a2 < albums@.len() && (#[trigger] albums@[a2]).artist.idx
                                        < artists@.len() implies artists@[albums@[a2].artist.idx as int].albums@.contains(
                                    albums@[a2].key,
                                ) by {
                                    let xi = albums@[a2].artist.idx as int;
                                    if a2 < old_albums.len() {
                                        assert(old_artists[xi].albums@.contains(old_albums[a2].key));
                                        if xi == x {
                                            lemma_push_contains(oal, album_key, old_albums[a2].key);
                                        }
                                    } else {
                                        assert(albums@[a2].key == album_key);
                                        assert(xi == x);
                                        assert(artists@[x as int].albums@.last() == album_key);
                                    }
                                }
                            }
                        },
                    }
                },
                None => {
                    // Artist, album and song are all new.
                    let artist_key = ArtistKey::new(artists.len());
                    let album_key = AlbumKey::new(albums.len());
                    let song = Song {
                        title: rec.title.clone(),
                        title_lowercase,
                        key: song_key,
                        album: album_key,
                        runtime: rec.runtime,
                        sample_rate: rec.sample_rate,
                        track: rec.track,
                        disc: rec.disc,
                        mime: rec.mime.clone(),
                        extension: rec.extension.clone(),
                        path: rec.path.clone(),
                    };
                    let art = Self::record_art(&rec.art);
                    let has_art = rec.art.is_some();
                    let album = Album {
                        title: rec.album.clone(),
                        title_lowercase: album_lower,
                        key: album_key,
                        artist: artist_key,
                        release: Self::record_release(&rec.release),
                        runtime: 0,
                        song_count: 0,
                        songs: {
                            let mut s: Vec<SongKey> = Vec::new();
                            s.push(song_key);
                            s
                        },
                        discs: 0,
                        path: rec.path_parent.clone(),
                        genre: Self::clone_genre(&rec.genre),
                        art,
                    };
                    let artist = Artist {
                        name: rec.artist.clone(),
                        name_lowercase: artist_lower,
                        key: artist_key,
                        runtime: 0,
                        albums: {
                            let mut s: Vec<AlbumKey> = Vec::new();
                            s.push(album_key);
                            s
                        },
                        songs: Vec::new(),
                    };
                    let ghost old_songs = songs@;
                    let ghost old_albums = albums@;
                    let ghost old_artists = artists@;
                    songs.push(song);
                    albums.push(album);
                    proof {
                        assert forall|t: int|
                            0 <= t < songs@.len() && (#[trigger] songs@[t]).album.idx
                                < albums@.len() implies albums@[songs@[t].album.idx as int].songs@.contains(
                            songs@[t].key,
                        ) by {
                            let ai = songs@[t].album.idx as int;
                            if t >= old_songs.len() {
                                assert(songs@[t] == song);
                                assert(ai == old_albums.len());
                                assert(albums@[ai].songs@[0] == song_key);
                            }
                        }
                        assert forall|a2: int|
                            0 <= a2 < albums@.len() implies (#[trigger] albums@[a2]).songs@.no_duplicates() by {
                            if a2 == old_albums.len() {
                                assert(albums@[a2].songs@.len() == 1);
                            }
                        }
                    }
                    if has_art {
                        let n = albums.len();
                        proof {
                            assert(count_art < n);
                        }
                        count_art = count_art + 1;
                    }
                    artists.push(artist);
                    proof {
                        // The new album is listed by the new artist; every
                        // old album is still listed by its (unchanged)
                        // artist.
                        assert forall|a2: int|
                            0 <= a2 < albums@.len() && (#[trigger] albums@[a2]).artist.idx
                                < artists@.len() implies artists@[albums@[a2].artist.idx as int].albums@.contains(
                            albums@[a2].key,
                        ) by {
                            let xi = albums@[a2].artist.idx as int;
                            if a2 < old_albums.len() {
                                assert(albums@[a2] == old_albums[a2]);
                                assert(xi < old_artists.len());
                                assert(artists@[xi] == old_artists[xi]);
                            } else {
                                assert(albums@[a2].key == album_key);
                                assert(xi == old_artists.len());
                                assert(artists@[xi].albums@[0] == album_key);
                            }
                        }
                        assert forall|x2: int|
                            0 <= x2 < artists@.len() implies (#[trigger] artists@[x2]).albums@.no_duplicates() by {
                            if x2 == old_artists.len() {
                                assert(artists@[x2].albums@.len() == 1);
                            }
                        }
                    }
                },
            }
            proof {
                assert(forall|t: int|
                    0 <= t < songs@.len() ==> (#[trigger] songs@[t]).key.idx == t);
                assert(forall|t: int|
                    0 <= t < albums@.len() ==> (#[trigger] albums@[t]).key.idx == t);
                assert(forall|t: int|
                    0 <= t < artists@.len() ==> (#[trigger] artists@[t]).key.idx == t);
                assert(forall|t: int|
                    0 <= t < songs@.len() ==> (#[trigger] songs@[t]).album.idx < albums@.len());
                assert(forall|t: int|
                    0 <= t < albums@.len() ==> (#[trigger] albums@[t]).artist.idx
                        < artists@.len());
                assert(forall|a2: int, j: int|
                    0 <= a2 < albums@.len() && 0 <= j < albums@[a2].songs@.len()
                        ==> (#[trigger] albums@[a2].songs@[j]).idx < songs@.len()
                        && songs@[albums@[a2].songs@[j].idx as int].album.idx == a2);
                assert(forall|x2: int, j: int|
                    0 <= x2 < artists@.len() && 0 <= j < artists@[x2].albums@.len()
                        ==> (#[trigger] artists@[x2].albums@[j]).idx < albums@.len()
                        && albums@[artists@[x2].albums@[j].idx as int].artist.idx == x2);
                assert(forall|x2: int, j: int|
                    0 <= x2 < artists@.len() && 0 <= j < artists@[x2].songs@.len()
                        ==> (#[trigger] artists@[x2].songs@[j]).idx < songs@.len());
                assert(forall|t: int|
                    0 <= t < songs@.len() ==> (#[trigger] songs@[t]).title_lowercase@
                        == lower_bytes_of(songs@[t].title@));
                assert(forall|t: int|
                    0 <= t < albums@.len() ==> (#[trigger] albums@[t]).title_lowercase@
                        == lower_bytes_of(albums@[t].title@));
                assert(forall|t: int|
                    0 <= t < artists@.len() ==> (#[trigger] artists@[t]).name_lowercase@
                        == lower_bytes_of(artists@[t].name@));
                assert(arenas_linked(artists@, albums@, songs@));
                assert(forall|x2: int|
                    0 <= x2 < artists@.len() ==> (#[trigger] artists@[x2]).albums@.len() > 0);
                assert(forall|a2: int|
                    0 <= a2 < albums@.len() ==> (#[trigger] albums@[a2]).songs@.len() > 0);
            }
            i = i + 1;
        }
        (artists, albums, songs, count_art)
    }
}

/// The fields of an album that the fix-up pass must not touch, plus
/// the fact that its song list keeps exactly the same members.
pub open spec fn album_same_identity(n: Album, o: Album) -> bool {
    &&& n.title@ == o.title@
    &&& n.title_lowercase@ == o.title_lowercase@
    &&& n.key == o.key
    &&& n.artist == o.artist
    &&& n.release == o.release
    &&& n.path@ == o.path@
    &&& (n.genre is Some <==> o.genre is Some)
    &&& (n.genre is Some ==> n.genre->0@ == o.genre->0@)
    &&& (n.art is Known <==> o.art is Known)
    &&& (n.art is Bytes <==> o.art is Bytes)
    &&& (n.art is Bytes ==> n.art->0@ == o.art->0@)
    &&& forall|j: int| 0 <= j < n.songs@.len() ==> o.songs@.contains(#[trigger] n.songs@[j])
    &&& forall|j: int| 0 <= j < o.songs@.len() ==> n.songs@.contains(#[trigger] o.songs@[j])
    &&& n.songs@.len() == o.songs@.len()
}

/// The fields of an artist that the fix-up pass must not touch, plus
/// the fact that its album list keeps exactly the same members.
pub open spec fn artist_same_identity(n: Artist, o: Artist) -> bool {
    &&& n.name@ == o.name@
    &&& n.name_lowercase@ == o.name_lowercase@
    &&& n.key == o.key
    &&& forall|j: int| 0 <= j < n.albums@.len() ==> o.albums@.contains(#[trigger] n.albums@[j])
    &&& forall|j: int| 0 <= j < o.albums@.len() ==> n.albums@.contains(#[trigger] o.albums@[j])
    &&& n.albums@.len() == o.albums@.len()
}

/// Every key inside the flattening of well-linked album song lists
/// resolves.
proof fn lemma_flat_resolves(albums: Seq<Album>, albs: Seq<AlbumKey>, n_songs: nat)
    requires
        forall|j: int| 0 <= j < albs.len() ==> (#[trigger] albs[j]).idx < albums.len(),
        forall|a: int, j: int|
            0 <= a < albums.len() && 0 <= j < albums[a].songs@.len()
                ==> (#[trigger] albums[a].songs@[j]).idx < n_songs,
    ensures
        forall|j: int|
            0 <= j < flat_songs_in(albums, albs).len()
                ==> (#[trigger] flat_songs_in(albums, albs)[j]).idx < n_songs,
    decreases albs.len(),
{
    if albs.len() > 0 {
        lemma_flat_resolves(albums, albs.drop_last(), n_songs);
        let fl = flat_songs_in(albums, albs);
        let fd = flat_songs_in(albums, albs.drop_last());
        let tail = albums[albs.last().idx as int].songs@;
        assert(albs[albs.len() - 1].idx < albums.len());
        assert(fl =~= fd + tail);
        assert forall|j: int| 0 <= j < fl.len() implies (#[trigger] fl[j]).idx < n_songs by {
            if j < fd.len() {
                assert(fl[j] == fd[j]);
            } else {
                assert(fl[j] == tail[j - fd.len()]);
            }
        }
    }
}

impl Ccd {
    /// Sort one album's song list by `(disc, track)`, ties kept in
    /// key order of the list.
    fn sort_album_songs(list: &Vec<SongKey>, songs: &Vec<Song>) -> (r: Vec<SongKey>)
        requires
            forall|j: int| 0 <= j < list@.len() ==> (#[trigger] list@[j]).idx < songs@.len(),
        ensures
            r@.len() == list@.len(),
            forall|k: int| 0 <= k < r@.len() ==> list@.contains(#[trigger] r@[k]),
            forall|k: int| 0 <= k < list@.len() ==> r@.contains(#[trigger] list@[k]),
            list@.no_duplicates() ==> r@.no_duplicates(),
            forall|k: int| 0 <= k < r@.len() ==> (#[trigger] r@[k]).idx < songs@.len(),
            forall|i: int, j: int|
                0 <= i < j < r@.len() ==> song_disc_track_le(
                    songs@[r@[i].idx as int],
                    songs@[r@[j].idx as int],
                ),
    {
        let n = list.len();
        let mut entries: Vec<SortEntry> = Vec::new();
        let mut p: usize = 0;
        while p < n
            invariant
                p <= n,
                n == list@.len(),
                forall|j: int| 0 <= j < list@.len() ==> (#[trigger] list@[j]).idx < songs@.len(),
                entries@.len() == p,
                forall|t: int|
                    0 <= t < p ==> {
                        let e = #[trigger] entries@[t];
                        &&& e.idx == t
                        &&& e.rank == disc_code(songs@[list@[t].idx as int].disc)
                        &&& e.rank2 == track_code(songs@[list@[t].idx as int].track)
                        &&& e.name@.len() == 0
                    },
            decreases n - p,
        {
            let k = list[p];
            let song = &songs[k.idx];
            let rank: u64 = match song.disc {
                Some(d) => d as u64 + 1,
                None => 0,
            };
            let rank2: u64 = match song.track {
                Some(t) => t as u64 + 1,
                None => 0,
            };
            entries.push(SortEntry { rank, rank2, name: Vec::new(), idx: p });
            p = p + 1;
        }
        let ghost ge = entries@;
        let perm = sorted_indices(entries);
        let mut r: Vec<SongKey> = Vec::new();
        let mut k: usize = 0;
        while k < perm.len()
            invariant
                k <= perm@.len(),
                n == list@.len(),
                is_key_ordering(perm@, n as nat),
                r@.len() == k,
                forall|t: int| 0 <= t < k ==> #[trigger] r@[t] == list@[perm@[t] as int],
            decreases perm@.len() - k,
        {
            let p0 = perm[k];
            r.push(list[p0]);
            k = k + 1;
        }
        proof {
            assert forall|k2: int| 0 <= k2 < list@.len() implies r@.contains(
                #[trigger] list@[k2],
            ) by {
                assert(perm@.contains(k2 as usize));
                let w = choose|w: int| 0 <= w < perm@.len() && perm@[w] == k2 as usize;
                assert(r@[w] == list@[k2]);
            }
            if list@.no_duplicates() {
                assert forall|i: int, j: int|
                    0 <= i < r@.len() && 0 <= j < r@.len() && i != j implies r@[i] != r@[j] by {
                    if r@[i] == r@[j] {
                        assert(list@[perm@[i] as int] == list@[perm@[j] as int]);
                        assert(perm@[i] != perm@[j]);
                    }
                }
            }
            assert forall|i: int, j: int| 0 <= i < j < r@.len() implies song_disc_track_le(
                songs@[r@[i].idx as int],
                songs@[r@[j].idx as int],
            ) by {
                assert(entry_le(ge[perm@[i] as int], ge[perm@[j] as int]));
            }
        }
        r
    }

    /// Sort one artist's album list by release date, unknown dates
    /// last, ties broken by album key.
    fn sort_artist_albums(list: &Vec<AlbumKey>, albums: &Vec<Album>) -> (r: Vec<AlbumKey>)
        requires
            forall|j: int| 0 <= j < list@.len() ==> (#[trigger] list@[j]).idx < albums@.len(),
        ensures
            r@.len() == list@.len(),
            forall|k: int| 0 <= k < r@.len() ==> list@.contains(#[trigger] r@[k]),
            forall|k: int| 0 <= k < list@.len() ==> r@.contains(#[trigger] list@[k]),
            forall|k: int| 0 <= k < r@.len() ==> (#[trigger] r@[k]).idx < albums@.len(),
            list@.no_duplicates() ==> r@.no_duplicates(),
            forall|i: int, j: int|
                0 <= i < j < r@.len() ==> rank_idx_le(
                    albums@[r@[i].idx as int].release.spec_code(),
                    r@[i].idx as int,
                    albums@[r@[j].idx as int].release.spec_code(),
                    r@[j].idx as int,
                ),
    {
        let n = list.len();
        let mut entries: Vec<SortEntry> = Vec::new();
        let mut p: usize = 0;
        while p < n
            invariant
                p <= n,
                n == list@.len(),
                forall|j: int| 0 <= j < list@.len() ==> (#[trigger] list@[j]).idx < albums@.len(),
                entries@.len() == p,
                forall|t: int|
                    0 <= t < p ==> {
                        let e = #[trigger] entries@[t];
                        &&& e.idx == t
                        &&& e.rank == albums@[list@[t].idx as int].release.spec_code()
                        &&& e.rank2 == list@[t].idx as u64
                        &&& e.name@.len() == 0
                    },
            decreases n - p,
        {
            let k = list[p];
            let rank = albums[k.idx].release.code();
            entries.push(SortEntry { rank, rank2: k.idx as u64, name: Vec::new(), idx: p });
            p = p + 1;
        }
        let ghost ge = entries@;
        let perm = sorted_indices(entries);
        let mut r: Vec<AlbumKey> = Vec::new();
        let mut k: usize = 0;
        while k < perm.len()
            invariant
                k <= perm@.len(),
                n == list@.len(),
                is_key_ordering(perm@, n as nat),
                r@.len() == k,
                forall|t: int| 0 <= t < k ==> #[trigger] r@[t] == list@[perm@[t] as int],
            decreases perm@.len() - k,
        {
            let p0 = perm[k];
            r.push(list[p0]);
            k = k + 1;
        }
        proof {
            assert forall|k2: int| 0 <= k2 < list@.len() implies r@.contains(
                #[trigger] list@[k2],
            ) by {
                assert(perm@.contains(k2 as usize));
                let w = choose|w: int| 0 <= w < perm@.len() && perm@[w] == k2 as usize;
                assert(r@[w] == list@[k2]);
            }
            if list@.no_duplicates() {
                assert forall|i: int, j: int|
                    0 <= i < r@.len() && 0 <= j < r@.len() && i != j implies r@[i] != r@[j] by {
                    if r@[i] == r@[j] {
                        assert(list@[perm@[i] as int] == list@[perm@[j] as int]);
                        assert(perm@[i] != perm@[j]);
                    }
                }
            }
            assert forall|i: int, j: int| 0 <= i < j < r@.len() implies rank_idx_le(
                albums@[r@[i].idx as int].release.spec_code(),
                r@[i].idx as int,
                albums@[r@[j].idx as int].release.spec_code(),
                r@[j].idx as int,
            ) by {
                assert(entry_le(ge[perm@[i] as int], ge[perm@[j] as int]));
            }
        }
        r
    }

    /// Sum song runtimes, saturating at `u32::MAX`.
    fn sum_song_runtimes(list: &Vec<SongKey>, songs: &Vec<Song>) -> (r: u32)
        requires
            forall|j: int| 0 <= j < list@.len() ==> (#[trigger] list@[j]).idx < songs@.len(),
        ensures
            r as int == sat32(
                sum_u32(list@.map_values(|k: SongKey| songs@[k.idx as int].runtime)),
            ),
    {
        let mut acc: u32 = 0;
        let mut i: usize = 0;
        while i < list.len()
            invariant
                i <= list@.len(),
                forall|j: int| 0 <= j < list@.len() ==> (#[trigger] list@[j]).idx < songs@.len(),
                acc as int == sat32(
                    sum_u32(
                        list@.subrange(0, i as int).map_values(
                            |k: SongKey| songs@[k.idx as int].runtime,
                        ),
                    ),
                ),
            decreases list@.len() - i,
        {
            let v = songs[list[i].idx].runtime;
            proof {
                let f = |k: SongKey| songs@[k.idx as int].runtime;
                let pre = list@.subrange(0, i as int).map_values(f);
                let post = list@.subrange(0, i as int + 1).map_values(f);
                assert(post.drop_last() =~= pre);
                assert(post.last() == v);
            }
            let sum: u64 = acc as u64 + v as u64;
            if sum > 0xffff_ffff {
                acc = 0xffff_ffff;
            } else {
                acc = acc + v;
            }
            i = i + 1;
        }
        proof {
            assert(list@.subrange(0, list@.len() as int) =~= list@);
        }
        acc
    }

    /// Sum album runtimes, saturating at `u32::MAX`.
    fn sum_album_runtimes(list: &Vec<AlbumKey>, albums: &Vec<Album>) -> (r: u32)
        requires
            forall|j: int| 0 <= j < list@.len() ==> (#[trigger] list@[j]).idx < albums@.len(),
        ensures
            r as int == sat32(
                sum_u32(list@.map_values(|k: AlbumKey| albums@[k.idx as int].runtime)),
            ),
    {
        let mut acc: u32 = 0;
        let mut i: usize = 0;
        while i < list.len()
            invariant
                i <= list@.len(),
                forall|j: int| 0 <= j < list@.len() ==> (#[trigger] list@[j]).idx < albums@.len(),
                acc as int == sat32(
                    sum_u32(
                        list@.subrange(0, i as int).map_values(
                            |k: AlbumKey| albums@[k.idx as int].runtime,
                        ),
                    ),
                ),
            decreases list@.len() - i,
        {
            let v = albums[list[i].idx].runtime;
            proof {
                let f = |k: AlbumKey| albums@[k.idx as int].runtime;
                let pre = list@.subrange(0, i as int).map_values(f);
                let post = list@.subrange(0, i as int + 1).map_values(f);
                assert(post.drop_last() =~= pre);
                assert(post.last() == v);
            }
            let sum: u64 = acc as u64 + v as u64;
            if sum > 0xffff_ffff {
                acc = 0xffff_ffff;
            } else {
                acc = acc + v;
            }
            i = i + 1;
        }
        proof {
            assert(list@.subrange(0, list@.len() as int) =~= list@);
        }
        acc
    }

    /// Count the distinct disc values among the listed songs,
    /// saturating at `u32::MAX`.
    fn count_discs(list: &Vec<SongKey>, songs: &Vec<Song>) -> (r: u32)
        requires
            forall|j: int| 0 <= j < list@.len() ==> (#[trigger] list@[j]).idx < songs@.len(),
        ensures
            r as int == sat32(
                distinct_count(
                    list@.map_values(|k: SongKey| disc_code(songs@[k.idx as int].disc)),
                ) as int,
            ),
    {
        let mut acc: u32 = 0;
        let mut i: usize = 0;
        while i < list.len()
            invariant
                i <= list@.len(),
                forall|j: int| 0 <= j < list@.len() ==> (#[trigger] list@[j]).idx < songs@.len(),
                acc as int == sat32(
                    distinct_count(
                        list@.subrange(0, i as int).map_values(
                            |k: SongKey| disc_code(songs@[k.idx as int].disc),
                        ),
                    ) as int,
                ),
            decreases list@.len() - i,
        {
            let ghost g = |k: SongKey| disc_code(songs@[k.idx as int].disc);
            let c: u64 = match songs[list[i].idx].disc {
                Some(d) => d as u64 + 1,
                None => 0,
            };
            let mut found = false;
            let mut j: usize = 0;
            while j < i
                invariant
                    j <= i <= list@.len(),
                    forall|t: int| 0 <= t < list@.len() ==> (#[trigger] list@[t]).idx < songs@.len(),
                    c == disc_code(songs@[list@[i as int].idx as int].disc),
                    i < list@.len(),
                    found ==> exists|t: int|
                        0 <= t < i && disc_code(songs@[(#[trigger] list@[t]).idx as int].disc) == c,
                    !found ==> forall|t: int|
                        0 <= t < j ==> disc_code(songs@[(#[trigger] list@[t]).idx as int].disc) != c,
                decreases i - j,
            {
                let cj: u64 = match songs[list[j].idx].disc {
                    Some(d) => d as u64 + 1,
                    None => 0,
                };
                if cj == c {
                    found = true;
                }
                j = j + 1;
            }
            proof {
                let pre = list@.subrange(0, i as int).map_values(g);
                let post = list@.subrange(0, i as int + 1).map_values(g);
                assert(post.drop_last() =~= pre);
                assert(post.last() == c);
                if found {
                    let t = choose|t: int|
                        0 <= t < i && disc_code(songs@[(list@[t]).idx as int].disc) == c;
                    assert(pre[t] == c);
                    assert(pre.contains(c));
                } else {
                    assert forall|w: int| 0 <= w < pre.len() implies pre[w] != c by {
                        assert(pre[w] == disc_code(songs@[list@[w].idx as int].disc));
                    }
                    assert(!pre.contains(c));
                }
            }
            if !found {
                if acc < 0xffff_ffff {
                    acc = acc + 1;
                }
            }
            i = i + 1;
        }
        proof {
            assert(list@.subrange(0, list@.len() as int) =~= list@);
        }
        acc
    }

    /// Lay the song lists of the given albums end to end.
    fn flat_songs(list: &Vec<AlbumKey>, albums: &Vec<Album>) -> (r: Vec<SongKey>)
        requires
            forall|j: int| 0 <= j < list@.len() ==> (#[trigger] list@[j]).idx < albums@.len(),
        ensures
            r@ == flat_songs_in(albums@, list@),
    {
        let mut r: Vec<SongKey> = Vec::new();
        let mut i: usize = 0;
        proof {
            assert(list@.subrange(0, 0) =~= Seq::<AlbumKey>::empty());
        }
        while i < list.len()
            invariant
                i <= list@.len(),
                forall|j: int| 0 <= j < list@.len() ==> (#[trigger] list@[j]).idx < albums@.len(),
                r@ =~= flat_songs_in(albums@, list@.subrange(0, i as int)),
            decreases list@.len() - i,
        {
            let k = list[i];
            let al_songs = &albums[k.idx].songs;
            let mut j: usize = 0;
            while j < al_songs.len()
                invariant
                    j <= al_songs@.len(),
                    al_songs@ == albums@[k.idx as int].songs@,
                    k.idx < albums@.len(),
                    r@ =~= flat_songs_in(albums@, list@.subrange(0, i as int)) + al_songs@.subrange(
                        0,
                        j as int,
                    ),
                decreases al_songs@.len() - j,
            {
                r.push(al_songs[j]);
                proof {
                    assert(al_songs@.subrange(0, j as int).push(al_songs@[j as int]) =~= al_songs@.subrange(
                        0,
                        j as int + 1,
                    ));
                }
                j = j + 1;
            }
            proof {
                let pre = list@.subrange(0, i as int);
                let post = list@.subrange(0, i as int + 1);
                assert(post.drop_last() =~= pre);
                assert(post.last() == k);
                assert(al_songs@.subrange(0, al_songs@.len() as int) =~= al_songs@);
                assert(r@ =~= flat_songs_in(albums@, post));
            }
            i = i + 1;
        }
        proof {
            assert(list@.subrange(0, list@.len() as int) =~= list@);
        }
        r
    }

    /// The fix-up pass: sort every album's song list by
    /// `(disc, track)`, sort every artist's album list by release,
    /// and compute every aggregate field from what it aggregates.
    pub fn fix_metadata(artists: &Vec<Artist>, albums: &Vec<Album>, songs: &Vec<Song>) -> (r: (
        Vec<Artist>,
        Vec<Album>,
    ))
        requires
            arenas_linked(artists@, albums@, songs@),
            songs_covered_in(albums@, songs@),
            albums_covered_in(artists@, albums@),
            arenas_populated(artists@, albums@),
            albums_release_wf(albums@),
        ensures
            r.0@.len() == artists@.len(),
            r.1@.len() == albums@.len(),
            arenas_linked(r.0@, r.1@, songs@),
            songs_covered_in(r.1@, songs@),
            albums_covered_in(r.0@, r.1@),
            arenas_populated(r.0@, r.1@),
            albums_aggregated(r.1@, songs@),
            artists_aggregated(r.0@, r.1@),
            forall|a: int|
                0 <= a < albums@.len() ==> album_same_identity(#[trigger] r.1@[a], albums@[a]),
            forall|x: int|
                0 <= x < artists@.len() ==> artist_same_identity(#[trigger] r.0@[x], artists@[x]),
    {
        let mut new_albums: Vec<Album> = Vec::new();
        let mut a: usize = 0;
        while a < albums.len()
            invariant
                a <= albums@.len(),
                arenas_linked(artists@, albums@, songs@),
                songs_covered_in(albums@, songs@),
                albums_covered_in(artists@, albums@),
                arenas_populated(artists@, albums@),
                albums_release_wf(albums@),
                new_albums@.len() == a,
                forall|t: int|
                    0 <= t < a ==> album_same_identity(#[trigger] new_albums@[t], albums@[t]),
                forall|t: int| 0 <= t < a ==> album_aggregated(#[trigger] new_albums@[t], songs@),
                forall|t: int| 0 <= t < a ==> (#[trigger] new_albums@[t]).songs@.no_duplicates(),
            decreases albums@.len() - a,
        {
            let al = &albums[a];
            let sorted_songs = Self::sort_album_songs(&al.songs, songs);
            let runtime = Self::sum_song_runtimes(&sorted_songs, songs);
            let discs = Self::count_discs(&sorted_songs, songs);
            let song_count = sorted_songs.len();
            let new_al = Album {
                title: al.title.clone(),
                title_lowercase: Self::clone_bytes(&al.title_lowercase),
                key: al.key,
                artist: al.artist,
                release: al.release,
                runtime,
                song_count,
                songs: sorted_songs,
                discs,
                path: al.path.clone(),
                genre: Self::clone_genre(&al.genre),
                art: al.art.duplicate(),
            };
            new_albums.push(new_al);
            a = a + 1;
        }
        let mut new_artists: Vec<Artist> = Vec::new();
        let mut x: usize = 0;
        while x < artists.len()
            invariant
                x <= artists@.len(),
                arenas_linked(artists@, albums@, songs@),
                albums_covered_in(artists@, albums@),
                arenas_populated(artists@, albums@),
                new_albums@.len() == albums@.len(),
                forall|t: int|
                    0 <= t < albums@.len() ==> album_same_identity(
                        #[trigger] new_albums@[t],
                        albums@[t],
                    ),
                forall|t: int|
                    0 <= t < albums@.len() ==> album_aggregated(#[trigger] new_albums@[t], songs@),
                new_artists@.len() == x,
                forall|t: int|
                    0 <= t < x ==> artist_same_identity(#[trigger] new_artists@[t], artists@[t]),
                forall|t: int|
                    0 <= t < x ==> artist_aggregated(#[trigger] new_artists@[t], new_albums@),
                forall|t: int|
                    0 <= t < x ==> (#[trigger] new_artists@[t]).albums@.no_duplicates(),
                forall|t: int| 0 <= t < albums@.len() ==> (#[trigger] new_albums@[t]).songs@.no_duplicates(),
                forall|t: int|
                    0 <= t < x ==> song_keys_resolve(
                        (#[trigger] new_artists@[t]).songs@,
                        songs@.len(),
                    ),
            decreases artists@.len() - x,
        {
            let ar = &artists[x];
            let sorted_albums = Self::sort_artist_albums(&ar.albums, &new_albums);
            let runtime = Self::sum_album_runtimes(&sorted_albums, &new_albums);
            let songs_flat = Self::flat_songs(&sorted_albums, &new_albums);
            proof {
                lemma_flat_resolves(new_albums@, sorted_albums@, songs@.len());
                assert(songs_flat@ == flat_songs_in(new_albums@, sorted_albums@));
                assert(forall|j: int|
                    0 <= j < songs_flat@.len() ==> (#[trigger] songs_flat@[j]).idx
                        < songs@.len());
            }
            let new_ar = Artist {
                name: ar.name.clone(),
                name_lowercase: Self::clone_bytes(&ar.name_lowercase),
                key: ar.key,
                runtime,
                albums: sorted_albums,
                songs: songs_flat,
            };
            new_artists.push(new_ar);
            proof {
                assert(new_artists@[x as int].songs@ == songs_flat@);
                assert(song_keys_resolve(songs_flat@, songs@.len()));
            }
            x = x + 1;
        }
        proof {
            assert forall|a2: int, j: int|
                0 <= a2 < new_albums@.len() && 0 <= j < new_albums@[a2].songs@.len()
                    implies (#[trigger] new_albums@[a2].songs@[j]).idx < songs@.len()
                    && songs@[new_albums@[a2].songs@[j].idx as int].album.idx == a2 by {
                assert(albums@[a2].songs@.contains(new_albums@[a2].songs@[j]));
                let w = choose|w: int|
                    0 <= w < albums@[a2].songs@.len() && albums@[a2].songs@[w]
                        == new_albums@[a2].songs@[j];
                assert(albums@[a2].songs@[w].idx < songs@.len());
            }
            assert forall|x2: int, j: int|
                0 <= x2 < new_artists@.len() && 0 <= j < new_artists@[x2].albums@.len()
                    implies (#[trigger] new_artists@[x2].albums@[j]).idx < new_albums@.len()
                    && new_albums@[new_artists@[x2].albums@[j].idx as int].artist.idx == x2 by {
                assert(artists@[x2].albums@.contains(new_artists@[x2].albums@[j]));
                let w = choose|w: int|
                    0 <= w < artists@[x2].albums@.len() && artists@[x2].albums@[w]
                        == new_artists@[x2].albums@[j];
                assert(artists@[x2].albums@[w].idx < albums@.len());
            }
            assert forall|s2: int|
                0 <= s2 < songs@.len() && (#[trigger] songs@[s2]).album.idx < new_albums@.len()
                    implies new_albums@[songs@[s2].album.idx as int].songs@.contains(
                songs@[s2].key,
            ) by {
                let ai = songs@[s2].album.idx as int;
                assert(albums@[ai].songs@.contains(songs@[s2].key));
            }
            assert forall|x2: int, j: int|
                0 <= x2 < new_artists@.len() && 0 <= j < new_artists@[x2].songs@.len()
                    implies (#[trigger] new_artists@[x2].songs@[j]).idx < songs@.len() by {
                assert(song_keys_resolve(new_artists@[x2].songs@, songs@.len()));
            }
            assert(forall|i: int|
                0 <= i < new_albums@.len() ==> (#[trigger] new_albums@[i]).key.idx == i);
            assert(forall|i: int|
                0 <= i < new_artists@.len() ==> (#[trigger] new_artists@[i]).key.idx == i);
            // Each album keeps its key and artist, and each artist's
            // album list keeps its members, so coverage carries over.
            assert forall|a2: int|
                0 <= a2 < new_albums@.len() && (#[trigger] new_albums@[a2]).artist.idx
                    < new_artists@.len() implies new_artists@[new_albums@[a2].artist.idx as int].albums@.contains(
                new_albums@[a2].key,
            ) by {
                let xi = new_albums@[a2].artist.idx as int;
                assert(album_same_identity(new_albums@[a2], albums@[a2]));
                assert(artist_same_identity(new_artists@[xi], artists@[xi]));
                assert(artists@[xi].albums@.contains(albums@[a2].key));
                let w = choose|w: int|
                    0 <= w < artists@[xi].albums@.len() && artists@[xi].albums@[w]
                        == albums@[a2].key;
                assert(new_artists@[xi].albums@.contains(artists@[xi].albums@[w]));
            }
            assert(forall|x2: int|
                0 <= x2 < new_artists@.len() ==> (#[trigger] new_artists@[x2]).albums@.len() > 0);
            assert(forall|a2: int|
                0 <= a2 < new_albums@.len() ==> (#[trigger] new_albums@[a2]).songs@.len() > 0);
            assert(forall|a2: int|
                0 <= a2 < new_albums@.len() ==> (#[trigger] new_albums@[a2]).artist.idx
                    < new_artists@.len());
            assert(forall|i: int|
                0 <= i < new_albums@.len() ==> (#[trigger] new_albums@[i]).title_lowercase@
                    == lower_bytes_of(new_albums@[i].title@));
            assert(forall|i: int|
                0 <= i < new_artists@.len() ==> (#[trigger] new_artists@[i]).name_lowercase@
                    == lower_bytes_of(new_artists@[i].name@));
        }
        (new_artists, new_albums)
    }
}

impl Ccd {
    /// Build a complete, well-formed collection from scanned records:
    /// deduplicate, fix aggregates, compute the ten orderings, and
    /// stamp the creation time the caller read from the clock.
    pub fn new_collection(records: &Vec<TagRecord>, timestamp: u64) -> (c: Collection)
        ensures
            c.wf(),
            c.timestamp == timestamp,
            c.songs@.len() == records@.len(),
            songs_match_records(c.artists@, c.albums@, c.songs@, records@),
            arenas_deduped(c.artists@, c.albums@),
    {
        let (artists0, albums0, songs, _count_art) = Self::the_loop(records);
        let (artists, albums) = Self::fix_metadata(&artists0, &albums0, &songs);
        proof {
            assert forall|i: int|
                0 <= i < songs@.len() implies (#[trigger] songs@[i]).album.idx < albums@.len()
                    && lower_bytes_of(albums@[songs@[i].album.idx as int].title@)
                        == lower_bytes_of(records@[i].album@)
                    && albums@[songs@[i].album.idx as int].artist.idx < artists@.len()
                    && lower_bytes_of(
                    artists@[albums@[songs@[i].album.idx as int].artist.idx as int].name@,
                ) == lower_bytes_of(records@[i].artist@) by {
                let ai = songs@[i].album.idx as int;
                assert(album_same_identity(albums@[ai], albums0@[ai]));
                let xi = albums@[ai].artist.idx as int;
                assert(artist_same_identity(artists@[xi], artists0@[xi]));
            }
            assert forall|x: int, y: int|
                0 <= x < y < artists@.len() implies lower_bytes_of((#[trigger] artists@[x]).name@)
                    != lower_bytes_of((#[trigger] artists@[y]).name@) by {
                assert(artist_same_identity(artists@[x], artists0@[x]));
                assert(artist_same_identity(artists@[y], artists0@[y]));
            }
            assert forall|a: int, b: int|
                0 <= a < b < albums@.len() && (#[trigger] albums@[a]).artist
                    == (#[trigger] albums@[b]).artist implies lower_bytes_of(albums@[a].title@)
                    != lower_bytes_of(albums@[b].title@) by {
                assert(album_same_identity(albums@[a], albums0@[a]));
                assert(album_same_identity(albums@[b], albums0@[b]));
            }
        }
        let sort_artist_lexi = Self::sort_artist_lexi(&artists);
        let sort_artist_album_count = Self::sort_artist_album_count(&artists);
        let sort_artist_song_count = Self::sort_artist_song_count(&artists);
        let sort_album_release_artist_lexi = Self::sort_album_release_artist_lexi(
            &sort_artist_lexi,
            &artists,
            &albums,
        );
        let sort_album_lexi_artist_lexi = Self::sort_album_lexi_artist_lexi(
            &sort_artist_lexi,
            &artists,
            &albums,
        );
        let sort_album_lexi = Self::sort_album_lexi(&albums);
        let sort_album_release = Self::sort_album_release(&albums);
        let sort_album_runtime = Self::sort_album_runtime(&albums);
        let sort_song_album_release_artist_lexi = Self::sort_song_over_albums(
            &sort_album_release_artist_lexi,
            &albums,
            &songs,
        );
        let sort_song_album_lexi_artist_lexi = Self::sort_song_over_albums(
            &sort_album_lexi_artist_lexi,
            &albums,
            &songs,
        );
        let sort_song_lexi = Self::sort_song_lexi(&songs);
        let sort_song_release = Self::sort_song_release(&songs, &albums);
        let sort_song_runtime = Self::sort_song_runtime(&songs);
        let count_artist = artists.len();
        let count_album = albums.len();
        let count_song = songs.len();
        let empty = count_artist == 0 && count_album == 0 && count_song == 0;
        Collection {
            artists,
            albums,
            songs,
            sort_artist_lexi,
            sort_artist_album_count,
            sort_artist_song_count,
            sort_album_release_artist_lexi,
            sort_album_lexi_artist_lexi,
            sort_album_lexi,
            sort_album_release,
            sort_album_runtime,
            sort_song_album_release_artist_lexi,
            sort_song_album_lexi_artist_lexi,
            sort_song_lexi,
            sort_song_release,
            sort_song_runtime,
            empty,
            timestamp,
            count_artist,
            count_album,
            count_song,
        }
    }
}

} // verus!
