//! The ten precomputed orderings of a `Collection`.
//!
//! Each builder prepares one sort entry per arena slot and hands the
//! lot to the verified sort; every ordering is proved to be a
//! permutation of its arena, and its order is pinned down in the
//! builder's contract.

use vstd::prelude::*;
use vstd::pervasive::VecAdditionalExecFns;
use crate::ccd::Ccd;
use crate::collection::{album_key_idxs, artist_key_idxs, bytes_idx_le, rank_idx_le, song_key_idxs};
use crate::entity::{Album, Artist, Song};
use crate::key::{AlbumKey, ArtistKey, SongKey};
use crate::sort::{entry_le, is_key_ordering, sorted_indices, SortEntry};

verus! {

/// The position a value takes in an ordering that holds it.
pub open spec fn position_in(ord: Seq<usize>, v: usize) -> int {
    choose|p: int| 0 <= p < ord.len() && ord[p] == v
}

/// In a duplicate-free ordering, each slot's value finds exactly its
/// own position.
pub proof fn lemma_position_in(ord: Seq<usize>, p: int)
    requires
        ord.no_duplicates(),
        0 <= p < ord.len(),
    ensures
        position_in(ord, ord[p]) == p,
{
    assert(0 <= p < ord.len() && ord[p] == ord[p]);
    let q = position_in(ord, ord[p]);
    assert(ord[q] == ord[p]);
}

impl Ccd {
    /// A vector holding `0, 1, …, len - 1`: the identity ordering
    /// every sort starts from.
    pub fn filled_vec_usize(len: usize) -> (r: Vec<usize>)
        ensures
            r@.len() == len,
            forall|i: int| 0 <= i < len ==> #[trigger] r@[i] == i,
    {
        let mut r: Vec<usize> = Vec::new();
        let mut i: usize = 0;
        while i < len
            invariant
                i <= len,
                r@.len() == i,
                forall|j: int| 0 <= j < i ==> #[trigger] r@[j] == j,
            decreases len - i,
        {
            r.push(i);
            i = i + 1;
        }
        r
    }

    /// Turn sorted entries into artist keys.
    fn artist_keys_sorted(entries: Vec<SortEntry>) -> (r: Vec<ArtistKey>)
        requires
            forall|i: int| 0 <= i < entries@.len() ==> (#[trigger] entries@[i]).idx == i,
        ensures
            r@.len() == entries@.len(),
            is_key_ordering(artist_key_idxs(r@), entries@.len()),
            forall|i: int| 0 <= i < r@.len() ==> (#[trigger] r@[i]).idx < entries@.len(),
            forall|i: int, j: int|
                0 <= i < j < r@.len() ==> entry_le(
                    entries@[r@[i].idx as int],
                    entries@[r@[j].idx as int],
                ),
    {
        let ghost ge = entries@;
        let perm = sorted_indices(entries);
        let mut r: Vec<ArtistKey> = Vec::new();
        let mut k: usize = 0;
        while k < perm.len()
            invariant
                k <= perm@.len(),
                is_key_ordering(perm@, ge.len()),
                r@.len() == k,
                forall|t: int| 0 <= t < k ==> (#[trigger] r@[t]).idx == perm@[t],
            decreases perm@.len() - k,
        {
            r.push(ArtistKey::new(perm[k]));
            k = k + 1;
        }
        proof {
            assert(artist_key_idxs(r@) =~= perm@);
            assert forall|i: int| 0 <= i < r@.len() implies (#[trigger] r@[i]).idx
                < ge.len() by {
                assert(artist_key_idxs(r@)[i] == r@[i].idx);
            }
        }
        r
    }

    /// Turn sorted entries into album keys.
    fn album_keys_sorted(entries: Vec<SortEntry>) -> (r: Vec<AlbumKey>)
        requires
            forall|i: int| 0 <= i < entries@.len() ==> (#[trigger] entries@[i]).idx == i,
        ensures
            r@.len() == entries@.len(),
            is_key_ordering(album_key_idxs(r@), entries@.len()),
            forall|i: int| 0 <= i < r@.len() ==> (#[trigger] r@[i]).idx < entries@.len(),
            forall|i: int, j: int|
                0 <= i < j < r@.len() ==> entry_le(
                    entries@[r@[i].idx as int],
                    entries@[r@[j].idx as int],
                ),
    {
        let ghost ge = entries@;
        let perm = sorted_indices(entries);
        let mut r: Vec<AlbumKey> = Vec::new();
        let mut k: usize = 0;
        while k < perm.len()
            invariant
                k <= perm@.len(),
                is_key_ordering(perm@, ge.len()),
                r@.len() == k,
                forall|t: int| 0 <= t < k ==> (#[trigger] r@[t]).idx == perm@[t],
            decreases perm@.len() - k,
        {
            r.push(AlbumKey::new(perm[k]));
            k = k + 1;
        }
        proof {
            assert(album_key_idxs(r@) =~= perm@);
            assert forall|i: int| 0 <= i < r@.len() implies (#[trigger] r@[i]).idx
                < ge.len() by {
                assert(album_key_idxs(r@)[i] == r@[i].idx);
            }
        }
        r
    }

    /// Turn sorted entries into song keys.
    fn song_keys_sorted(entries: Vec<SortEntry>) -> (r: Vec<SongKey>)
        requires
            forall|i: int| 0 <= i < entries@.len() ==> (#[trigger] entries@[i]).idx == i,
        ensures
            r@.len() == entries@.len(),
            is_key_ordering(song_key_idxs(r@), entries@.len()),
            forall|i: int| 0 <= i < r@.len() ==> (#[trigger] r@[i]).idx < entries@.len(),
            forall|i: int, j: int|
                0 <= i < j < r@.len() ==> entry_le(
                    entries@[r@[i].idx as int],
                    entries@[r@[j].idx as int],
                ),
    {
        let ghost ge = entries@;
        let perm = sorted_indices(entries);
        let mut r: Vec<SongKey> = Vec::new();
        let mut k: usize = 0;
        while k < perm.len()
            invariant
                k <= perm@.len(),
                is_key_ordering(perm@, ge.len()),
                r@.len() == k,
                forall|t: int| 0 <= t < k ==> (#[trigger] r@[t]).idx == perm@[t],
            decreases perm@.len() - k,
        {
            r.push(SongKey::new(perm[k]));
            k = k + 1;
        }
        proof {
            assert(song_key_idxs(r@) =~= perm@);
            assert forall|i: int| 0 <= i < r@.len() implies (#[trigger] r@[i]).idx
                < ge.len() by {
                assert(song_key_idxs(r@)[i] == r@[i].idx);
            }
        }
        r
    }

    /// Artists ordered by case-folded name, ties by key.
    pub fn sort_artist_lexi(artists: &Vec<Artist>) -> (r: Vec<ArtistKey>)
        ensures
            is_key_ordering(artist_key_idxs(r@), artists@.len()),
            forall|i: int, j: int|
                0 <= i < j < r@.len() ==> bytes_idx_le(
                    artists@[(#[trigger] r@[i]).idx as int].name_lowercase@,
                    r@[i].idx as int,
                    artists@[(#[trigger] r@[j]).idx as int].name_lowercase@,
                    r@[j].idx as int,
                ),
    {
        let mut entries: Vec<SortEntry> = Vec::new();
        let mut p: usize = 0;
        while p < artists.len()
            invariant
                p <= artists@.len(),
                entries@.len() == p,
                forall|t: int|
                    0 <= t < p ==> {
                        let e = #[trigger] entries@[t];
                        &&& e.idx == t
                        &&& e.rank == 0
                        &&& e.rank2 == 0
                        &&& e.name@ == artists@[t].name_lowercase@
                    },
            decreases artists@.len() - p,
        {
            let name = Ccd::clone_bytes(&artists[p].name_lowercase);
            entries.push(SortEntry { rank: 0, rank2: 0, name, idx: p });
            p = p + 1;
        }
        let ghost ge = entries@;
        let r = Self::artist_keys_sorted(entries);
        proof {
            assert forall|i: int, j: int| 0 <= i < j < r@.len() implies bytes_idx_le(
                artists@[(#[trigger] r@[i]).idx as int].name_lowercase@,
                r@[i].idx as int,
                artists@[(#[trigger] r@[j]).idx as int].name_lowercase@,
                r@[j].idx as int,
            ) by {
                assert(entry_le(ge[r@[i].idx as int], ge[r@[j].idx as int]));
            }
        }
        r
    }

    /// Artists ordered by how many albums they hold, ties by key.
    pub fn sort_artist_album_count(artists: &Vec<Artist>) -> (r: Vec<ArtistKey>)
        ensures
            is_key_ordering(artist_key_idxs(r@), artists@.len()),
            forall|i: int, j: int|
                0 <= i < j < r@.len() ==> rank_idx_le(
                    artists@[(#[trigger] r@[i]).idx as int].albums@.len() as u64,
                    r@[i].idx as int,
                    artists@[(#[trigger] r@[j]).idx as int].albums@.len() as u64,
                    r@[j].idx as int,
                ),
    {
        let mut entries: Vec<SortEntry> = Vec::new();
        let mut p: usize = 0;
        while p < artists.len()
            invariant
                p <= artists@.len(),
                entries@.len() == p,
                forall|t: int|
                    0 <= t < p ==> {
                        let e = #[trigger] entries@[t];
                        &&& e.idx == t
                        &&& e.rank == artists@[t].albums@.len() as u64
                        &&& e.rank2 == 0
                        &&& e.name@.len() == 0
                    },
            decreases artists@.len() - p,
        {
            let rank = artists[p].albums.len() as u64;
            entries.push(SortEntry { rank, rank2: 0, name: Vec::new(), idx: p });
            p = p + 1;
        }
        let ghost ge = entries@;
        let r = Self::artist_keys_sorted(entries);
        proof {
            assert forall|i: int, j: int| 0 <= i < j < r@.len() implies rank_idx_le(
                artists@[(#[trigger] r@[i]).idx as int].albums@.len() as u64,
                r@[i].idx as int,
                artists@[(#[trigger] r@[j]).idx as int].albums@.len() as u64,
                r@[j].idx as int,
            ) by {
                assert(entry_le(ge[r@[i].idx as int], ge[r@[j].idx as int]));
            }
        }
        r
    }

    /// Artists ordered by how many songs they hold, ties by key.
    pub fn sort_artist_song_count(artists: &Vec<Artist>) -> (r: Vec<ArtistKey>)
        ensures
            is_key_ordering(artist_key_idxs(r@), artists@.len()),
            forall|i: int, j: int|
                0 <= i < j < r@.len() ==> rank_idx_le(
                    artists@[(#[trigger] r@[i]).idx as int].songs@.len() as u64,
                    r@[i].idx as int,
                    artists@[(#[trigger] r@[j]).idx as int].songs@.len() as u64,
                    r@[j].idx as int,
                ),
    {
        let mut entries: Vec<SortEntry> = Vec::new();
        let mut p: usize = 0;
        while p < artists.len()
            invariant
                p <= artists@.len(),
                entries@.len() == p,
                forall|t: int|
                    0 <= t < p ==> {
                        let e = #[trigger] entries@[t];
                        &&& e.idx == t
                        &&& e.rank == artists@[t].songs@.len() as u64
                        &&& e.rank2 == 0
                        &&& e.name@.len() == 0
                    },
            decreases artists@.len() - p,
        {
            let rank = artists[p].songs.len() as u64;
            entries.push(SortEntry { rank, rank2: 0, name: Vec::new(), idx: p });
            p = p + 1;
        }
        let ghost ge = entries@;
        let r = Self::artist_keys_sorted(entries);
        proof {
            assert forall|i: int, j: int| 0 <= i < j < r@.len() implies rank_idx_le(
                artists@[(#[trigger] r@[i]).idx as int].songs@.len() as u64,
                r@[i].idx as int,
                artists@[(#[trigger] r@[j]).idx as int].songs@.len() as u64,
                r@[j].idx as int,
            ) by {
                assert(entry_le(ge[r@[i].idx as int], ge[r@[j].idx as int]));
            }
        }
        r
    }

    /// Albums ordered by case-folded title, ties by key.
    pub fn sort_album_lexi(albums: &Vec<Album>) -> (r: Vec<AlbumKey>)
        ensures
            is_key_ordering(album_key_idxs(r@), albums@.len()),
            forall|i: int, j: int|
                0 <= i < j < r@.len() ==> bytes_idx_le(
                    albums@[(#[trigger] r@[i]).idx as int].title_lowercase@,
                    r@[i].idx as int,
                    albums@[(#[trigger] r@[j]).idx as int].title_lowercase@,
                    r@[j].idx as int,
                ),
    {
        let mut entries: Vec<SortEntry> = Vec::new();
        let mut p: usize = 0;
        while p < albums.len()
            invariant
                p <= albums@.len(),
                entries@.len() == p,
                forall|t: int|
                    0 <= t < p ==> {
                        let e = #[trigger] entries@[t];
                        &&& e.idx == t
                        &&& e.rank == 0
                        &&& e.rank2 == 0
                        &&& e.name@ == albums@[t].title_lowercase@
                    },
            decreases albums@.len() - p,
        {
            let name = Ccd::clone_bytes(&albums[p].title_lowercase);
            entries.push(SortEntry { rank: 0, rank2: 0, name, idx: p });
            p = p + 1;
        }
        let ghost ge = entries@;
        let r = Self::album_keys_sorted(entries);
        proof {
            assert forall|i: int, j: int| 0 <= i < j < r@.len() implies bytes_idx_le(
                albums@[(#[trigger] r@[i]).idx as int].title_lowercase@,
                r@[i].idx as int,
                albums@[(#[trigger] r@[j]).idx as int].title_lowercase@,
                r@[j].idx as int,
            ) by {
                assert(entry_le(ge[r@[i].idx as int], ge[r@[j].idx as int]));
            }
        }
        r
    }

    /// Albums ordered by release date, unknowns last, ties by key.
    pub fn sort_album_release(albums: &Vec<Album>) -> (r: Vec<AlbumKey>)
        ensures
            is_key_ordering(album_key_idxs(r@), albums@.len()),
            forall|i: int, j: int|
                0 <= i < j < r@.len() ==> rank_idx_le(
                    albums@[(#[trigger] r@[i]).idx as int].release.spec_code(),
                    r@[i].idx as int,
                    albums@[(#[trigger] r@[j]).idx as int].release.spec_code(),
                    r@[j].idx as int,
                ),
    {
        let mut entries: Vec<SortEntry> = Vec::new();
        let mut p: usize = 0;
        while p < albums.len()
            invariant
                p <= albums@.len(),
                entries@.len() == p,
                forall|t: int|
                    0 <= t < p ==> {
                        let e = #[trigger] entries@[t];
                        &&& e.idx == t
                        &&& e.rank == albums@[t].release.spec_code()
                        &&& e.rank2 == 0
                        &&& e.name@.len() == 0
                    },
            decreases albums@.len() - p,
        {
            let rank = albums[p].release.code();
            entries.push(SortEntry { rank, rank2: 0, name: Vec::new(), idx: p });
            p = p + 1;
        }
        let ghost ge = entries@;
        let r = Self::album_keys_sorted(entries);
        proof {
            assert forall|i: int, j: int| 0 <= i < j < r@.len() implies rank_idx_le(
                albums@[(#[trigger] r@[i]).idx as int].release.spec_code(),
                r@[i].idx as int,
                albums@[(#[trigger] r@[j]).idx as int].release.spec_code(),
                r@[j].idx as int,
            ) by {
                assert(entry_le(ge[r@[i].idx as int], ge[r@[j].idx as int]));
            }
        }
        r
    }

    /// Albums ordered by runtime, shortest first, ties by key.
    pub fn sort_album_runtime(albums: &Vec<Album>) -> (r: Vec<AlbumKey>)
        ensures
            is_key_ordering(album_key_idxs(r@), albums@.len()),
            forall|i: int, j: int|
                0 <= i < j < r@.len() ==> rank_idx_le(
                    albums@[(#[trigger] r@[i]).idx as int].runtime as u64,
                    r@[i].idx as int,
                    albums@[(#[trigger] r@[j]).idx as int].runtime as u64,
                    r@[j].idx as int,
                ),
    {
        let mut entries: Vec<SortEntry> = Vec::new();
        let mut p: usize = 0;
        while p < albums.len()
            invariant
                p <= albums@.len(),
                entries@.len() == p,
                forall|t: int|
                    0 <= t < p ==> {
                        let e = #[trigger] entries@[t];
                        &&& e.idx == t
                        &&& e.rank == albums@[t].runtime as u64
                        &&& e.rank2 == 0
                        &&& e.name@.len() == 0
                    },
            decreases albums@.len() - p,
        {
            let rank = albums[p].runtime as u64;
            entries.push(SortEntry { rank, rank2: 0, name: Vec::new(), idx: p });
            p = p + 1;
        }
        let ghost ge = entries@;
        let r = Self::album_keys_sorted(entries);
        proof {
            assert forall|i: int, j: int| 0 <= i < j < r@.len() implies rank_idx_le(
                albums@[(#[trigger] r@[i]).idx as int].runtime as u64,
                r@[i].idx as int,
                albums@[(#[trigger] r@[j]).idx as int].runtime as u64,
                r@[j].idx as int,
            ) by {
                assert(entry_le(ge[r@[i].idx as int], ge[r@[j].idx as int]));
            }
        }
        r
    }

    /// Songs ordered by case-folded title, ties by key.
    pub fn sort_song_lexi(songs: &Vec<Song>) -> (r: Vec<SongKey>)
        ensures
            is_key_ordering(song_key_idxs(r@), songs@.len()),
            forall|i: int, j: int|
                0 <= i < j < r@.len() ==> bytes_idx_le(
                    songs@[(#[trigger] r@[i]).idx as int].title_lowercase@,
                    r@[i].idx as int,
                    songs@[(#[trigger] r@[j]).idx as int].title_lowercase@,
                    r@[j].idx as int,
                ),
    {
        let mut entries: Vec<SortEntry> = Vec::new();
        let mut p: usize = 0;
        while p < songs.len()
            invariant
                p <= songs@.len(),
                entries@.len() == p,
                forall|t: int|
                    0 <= t < p ==> {
                        let e = #[trigger] entries@[t];
                        &&& e.idx == t
                        &&& e.rank == 0
                        &&& e.rank2 == 0
                        &&& e.name@ == songs@[t].title_lowercase@
                    },
            decreases songs@.len() - p,
        {
            let name = Ccd::clone_bytes(&songs[p].title_lowercase);
            entries.push(SortEntry { rank: 0, rank2: 0, name, idx: p });
            p = p + 1;
        }
        let ghost ge = entries@;
        let r = Self::song_keys_sorted(entries);
        proof {
            assert forall|i: int, j: int| 0 <= i < j < r@.len() implies bytes_idx_le(
                songs@[(#[trigger] r@[i]).idx as int].title_lowercase@,
                r@[i].idx as int,
                songs@[(#[trigger] r@[j]).idx as int].title_lowercase@,
                r@[j].idx as int,
            ) by {
                assert(entry_le(ge[r@[i].idx as int], ge[r@[j].idx as int]));
            }
        }
        r
    }

    /// Songs ordered by runtime, shortest first, ties by key.
    pub fn sort_song_runtime(songs: &Vec<Song>) -> (r: Vec<SongKey>)
        ensures
            is_key_ordering(song_key_idxs(r@), songs@.len()),
            forall|i: int, j: int|
                0 <= i < j < r@.len() ==> rank_idx_le(
                    songs@[(#[trigger] r@[i]).idx as int].runtime as u64,
                    r@[i].idx as int,
                    songs@[(#[trigger] r@[j]).idx as int].runtime as u64,
                    r@[j].idx as int,
                ),
    {
        let mut entries: Vec<SortEntry> = Vec::new();
        let mut p: usize = 0;
        while p < songs.len()
            invariant
                p <= songs@.len(),
                entries@.len() == p,
                forall|t: int|
                    0 <= t < p ==> {
                        let e = #[trigger] entries@[t];
                        &&& e.idx == t
                        &&& e.rank == songs@[t].runtime as u64
                        &&& e.rank2 == 0
                        &&& e.name@.len() == 0
                    },
            decreases songs@.len() - p,
        {
            let rank = songs[p].runtime as u64;
            entries.push(SortEntry { rank, rank2: 0, name: Vec::new(), idx: p });
            p = p + 1;
        }
        let ghost ge = entries@;
        let r = Self::song_keys_sorted(entries);
        proof {
            assert forall|i: int, j: int| 0 <= i < j < r@.len() implies rank_idx_le(
                songs@[(#[trigger] r@[i]).idx as int].runtime as u64,
                r@[i].idx as int,
                songs@[(#[trigger] r@[j]).idx as int].runtime as u64,
                r@[j].idx as int,
            ) by {
                assert(entry_le(ge[r@[i].idx as int], ge[r@[j].idx as int]));
            }
        }
        r
    }

    /// Songs ordered by their album's release date, unknowns last,
    /// ties by key.
    pub fn sort_song_release(songs: &Vec<Song>, albums: &Vec<Album>) -> (r: Vec<SongKey>)
        requires
            forall|i: int| 0 <= i < songs@.len() ==> (#[trigger] songs@[i]).album.idx < albums@.len(),
        ensures
            is_key_ordering(song_key_idxs(r@), songs@.len()),
            forall|i: int, j: int|
                0 <= i < j < r@.len() ==> rank_idx_le(
                    albums@[songs@[(#[trigger] r@[i]).idx as int].album.idx as int].release.spec_code(),
                    r@[i].idx as int,
                    albums@[songs@[(#[trigger] r@[j]).idx as int].album.idx as int].release.spec_code(),
                    r@[j].idx as int,
                ),
    {
        let mut entries: Vec<SortEntry> = Vec::new();
        let mut p: usize = 0;
        while p < songs.len()
            invariant
                p <= songs@.len(),
                forall|i: int|
                    0 <= i < songs@.len() ==> (#[trigger] songs@[i]).album.idx < albums@.len(),
                entries@.len() == p,
                forall|t: int|
                    0 <= t < p ==> {
                        let e = #[trigger] entries@[t];
                        &&& e.idx == t
                        &&& e.rank == albums@[songs@[t].album.idx as int].release.spec_code()
                        &&& e.rank2 == 0
                        &&& e.name@.len() == 0
                    },
            decreases songs@.len() - p,
        {
            let rank = albums[songs[p].album.idx].release.code();
            entries.push(SortEntry { rank, rank2: 0, name: Vec::new(), idx: p });
            p = p + 1;
        }
        let ghost ge = entries@;
        let r = Self::song_keys_sorted(entries);
        proof {
            assert forall|i: int, j: int| 0 <= i < j < r@.len() implies rank_idx_le(
                albums@[songs@[(#[trigger] r@[i]).idx as int].album.idx as int].release.spec_code(),
                r@[i].idx as int,
                albums@[songs@[(#[trigger] r@[j]).idx as int].album.idx as int].release.spec_code(),
                r@[j].idx as int,
            ) by {
                assert(entry_le(ge[r@[i].idx as int], ge[r@[j].idx as int]));
            }
        }
        r
    }

    /// The position of each artist inside an artist ordering.
    fn invert_artist_ordering(ord: &Vec<ArtistKey>, n: usize) -> (r: Vec<u64>)
        requires
            is_key_ordering(artist_key_idxs(ord@), n as nat),
        ensures
            r@.len() == n,
            forall|p: int|
                0 <= p < ord@.len() ==> r@[(#[trigger] ord@[p]).idx as int] == p as u64,
    {
        let mut r: Vec<u64> = Vec::new();
        let mut i: usize = 0;
        while i < n
            invariant
                i <= n,
                r@.len() == i,
            decreases n - i,
        {
            r.push(0);
            i = i + 1;
        }
        let mut p: usize = 0;
        while p < ord.len()
            invariant
                p <= ord@.len(),
                is_key_ordering(artist_key_idxs(ord@), n as nat),
                r@.len() == n,
                forall|t: int|
                    0 <= t < p ==> r@[(#[trigger] ord@[t]).idx as int] == t as u64,
            decreases ord@.len() - p,
        {
            let ghost old_r = r@;
            proof {
                assert(artist_key_idxs(ord@)[p as int] == ord@[p as int].idx);
            }
            r.set(ord[p].idx, p as u64);
            proof {
                assert forall|t: int|
                    0 <= t < p + 1 implies r@[(#[trigger] ord@[t]).idx as int] == t as u64 by {
                    if t < p {
                        assert(artist_key_idxs(ord@)[t] == ord@[t].idx);
                        assert(artist_key_idxs(ord@)[p as int] == ord@[p as int].idx);
                        assert(ord@[t].idx != ord@[p as int].idx);
                    }
                }
            }
            p = p + 1;
        }
        r
    }

    /// Albums grouped by their artist's position in the given artist
    /// ordering, then by release date, ties by key.
    pub fn sort_album_release_artist_lexi(
        sorted_artists: &Vec<ArtistKey>,
        artists: &Vec<Artist>,
        albums: &Vec<Album>,
    ) -> (r: Vec<AlbumKey>)
        requires
            is_key_ordering(artist_key_idxs(sorted_artists@), artists@.len()),
            forall|a: int|
                0 <= a < albums@.len() ==> (#[trigger] albums@[a]).artist.idx < artists@.len(),
        ensures
            is_key_ordering(album_key_idxs(r@), albums@.len()),
            forall|i: int, j: int|
                0 <= i < j < r@.len() ==> {
                    let pi = position_in(
                        artist_key_idxs(sorted_artists@),
                        albums@[r@[i].idx as int].artist.idx,
                    );
                    let pj = position_in(
                        artist_key_idxs(sorted_artists@),
                        albums@[r@[j].idx as int].artist.idx,
                    );
                    pi < pj || (pi == pj && rank_idx_le(
                        albums@[(#[trigger] r@[i]).idx as int].release.spec_code(),
                        r@[i].idx as int,
                        albums@[(#[trigger] r@[j]).idx as int].release.spec_code(),
                        r@[j].idx as int,
                    ))
                },
    {
        let rank_of = Self::invert_artist_ordering(sorted_artists, artists.len());
        proof {
            assert forall|x: usize| x < artists@.len() implies #[trigger] rank_of@[x as int]
                == position_in(artist_key_idxs(sorted_artists@), x) as u64 by {
                let ord = artist_key_idxs(sorted_artists@);
                assert(ord.contains(x));
                let w = choose|w: int| 0 <= w < ord.len() && ord[w] == x;
                lemma_position_in(ord, w);
                assert(ord[w] == sorted_artists@[w].idx);
                assert(rank_of@[sorted_artists@[w].idx as int] == w as u64);
            }
        }
        let mut entries: Vec<SortEntry> = Vec::new();
        let mut p: usize = 0;
        while p < albums.len()
            invariant
                p <= albums@.len(),
                forall|a: int|
                    0 <= a < albums@.len() ==> (#[trigger] albums@[a]).artist.idx < artists@.len(),
                rank_of@.len() == artists@.len(),
                entries@.len() == p,
                forall|t: int|
                    0 <= t < p ==> {
                        let e = #[trigger] entries@[t];
                        &&& e.idx == t
                        &&& e.rank == rank_of@[albums@[t].artist.idx as int]
                        &&& e.rank2 == albums@[t].release.spec_code()
                        &&& e.name@.len() == 0
                    },
            decreases albums@.len() - p,
        {
            let rank = rank_of[albums[p].artist.idx];
            let rank2 = albums[p].release.code();
            entries.push(SortEntry { rank, rank2, name: Vec::new(), idx: p });
            p = p + 1;
        }
        let ghost ge = entries@;
        let r = Self::album_keys_sorted(entries);
        proof {
            assert forall|i: int, j: int| 0 <= i < j < r@.len() implies {
                let pi = position_in(
                    artist_key_idxs(sorted_artists@),
                    albums@[r@[i].idx as int].artist.idx,
                );
                let pj = position_in(
                    artist_key_idxs(sorted_artists@),
                    albums@[r@[j].idx as int].artist.idx,
                );
                pi < pj || (pi == pj && rank_idx_le(
                    albums@[(#[trigger] r@[i]).idx as int].release.spec_code(),
                    r@[i].idx as int,
                    albums@[(#[trigger] r@[j]).idx as int].release.spec_code(),
                    r@[j].idx as int,
                ))
            } by {
                assert(entry_le(ge[r@[i].idx as int], ge[r@[j].idx as int]));
                let ord = artist_key_idxs(sorted_artists@);
                let xi = albums@[r@[i].idx as int].artist.idx;
                let xj = albums@[r@[j].idx as int].artist.idx;
                assert(ord.contains(xi));
                assert(ord.contains(xj));
                let wi = choose|w: int| 0 <= w < ord.len() && ord[w] == xi;
                let wj = choose|w: int| 0 <= w < ord.len() && ord[w] == xj;
                assert(0 <= position_in(ord, xi) < ord.len());
                assert(0 <= position_in(ord, xj) < ord.len());
                assert(rank_of@[xi as int] == position_in(ord, xi) as u64);
                assert(rank_of@[xj as int] == position_in(ord, xj) as u64);
            }
        }
        r
    }

    /// Albums grouped by their artist's position in the given artist
    /// ordering, then by case-folded title, ties by key.
    pub fn sort_album_lexi_artist_lexi(
        sorted_artists: &Vec<ArtistKey>,
        artists: &Vec<Artist>,
        albums: &Vec<Album>,
    ) -> (r: Vec<AlbumKey>)
        requires
            is_key_ordering(artist_key_idxs(sorted_artists@), artists@.len()),
            forall|a: int|
                0 <= a < albums@.len() ==> (#[trigger] albums@[a]).artist.idx < artists@.len(),
        ensures
            is_key_ordering(album_key_idxs(r@), albums@.len()),
            forall|i: int, j: int|
                0 <= i < j < r@.len() ==> {
                    let pi = position_in(
                        artist_key_idxs(sorted_artists@),
                        albums@[r@[i].idx as int].artist.idx,
                    );
                    let pj = position_in(
                        artist_key_idxs(sorted_artists@),
                        albums@[r@[j].idx as int].artist.idx,
                    );
                    pi < pj || (pi == pj && bytes_idx_le(
                        albums@[(#[trigger] r@[i]).idx as int].title_lowercase@,
                        r@[i].idx as int,
                        albums@[(#[trigger] r@[j]).idx as int].title_lowercase@,
                        r@[j].idx as int,
                    ))
                },
    {
        let rank_of = Self::invert_artist_ordering(sorted_artists, artists.len());
        proof {
            assert forall|x: usize| x < artists@.len() implies #[trigger] rank_of@[x as int]
                == position_in(artist_key_idxs(sorted_artists@), x) as u64 by {
                let ord = artist_key_idxs(sorted_artists@);
                assert(ord.contains(x));
                let w = choose|w: int| 0 <= w < ord.len() && ord[w] == x;
                lemma_position_in(ord, w);
                assert(ord[w] == sorted_artists@[w].idx);
                assert(rank_of@[sorted_artists@[w].idx as int] == w as u64);
            }
        }
        let mut entries: Vec<SortEntry> = Vec::new();
        let mut p: usize = 0;
        while p < albums.len()
            invariant
                p <= albums@.len(),
                forall|a: int|
                    0 <= a < albums@.len() ==> (#[trigger] albums@[a]).artist.idx < artists@.len(),
                rank_of@.len() == artists@.len(),
                entries@.len() == p,
                forall|t: int|
                    0 <= t < p ==> {
                        let e = #[trigger] entries@[t];
                        &&& e.idx == t
                        &&& e.rank == rank_of@[albums@[t].artist.idx as int]
                        &&& e.rank2 == 0
                        &&& e.name@ == albums@[t].title_lowercase@
                    },
            decreases albums@.len() - p,
        {
            let rank = rank_of[albums[p].artist.idx];
            let name = Ccd::clone_bytes(&albums[p].title_lowercase);
            entries.push(SortEntry { rank, rank2: 0, name, idx: p });
            p = p + 1;
        }
        let ghost ge = entries@;
        let r = Self::album_keys_sorted(entries);
        proof {
            assert forall|i: int, j: int| 0 <= i < j < r@.len() implies {
                let pi = position_in(
                    artist_key_idxs(sorted_artists@),
                    albums@[r@[i].idx as int].artist.idx,
                );
                let pj = position_in(
                    artist_key_idxs(sorted_artists@),
                    albums@[r@[j].idx as int].artist.idx,
                );
                pi < pj || (pi == pj && bytes_idx_le(
                    albums@[(#[trigger] r@[i]).idx as int].title_lowercase@,
                    r@[i].idx as int,
                    albums@[(#[trigger] r@[j]).idx as int].title_lowercase@,
                    r@[j].idx as int,
                ))
            } by {
                assert(entry_le(ge[r@[i].idx as int], ge[r@[j].idx as int]));
                let ord = artist_key_idxs(sorted_artists@);
                let xi = albums@[r@[i].idx as int].artist.idx;
                let xj = albums@[r@[j].idx as int].artist.idx;
                assert(ord.contains(xi));
                assert(ord.contains(xj));
                let wi = choose|w: int| 0 <= w < ord.len() && ord[w] == xi;
                let wj = choose|w: int| 0 <= w < ord.len() && ord[w] == xj;
                assert(0 <= position_in(ord, xi) < ord.len());
                assert(0 <= position_in(ord, xj) < ord.len());
                assert(rank_of@[xi as int] == position_in(ord, xi) as u64);
                assert(rank_of@[xj as int] == position_in(ord, xj) as u64);
            }
        }
        r
    }

    /// Songs following a given album ordering: each song ranks by
    /// its album's position in that ordering and by its place inside
    /// the album's (track-sorted) song list. The result holds every
    /// song exactly once, grouped in the order of the given albums.
    #[verifier::rlimit(60)]
    pub fn sort_song_over_albums(
        sorted_albums: &Vec<AlbumKey>,
        albums: &Vec<Album>,
        songs: &Vec<Song>,
    ) -> (r: Vec<SongKey>)
        requires
            is_key_ordering(album_key_idxs(sorted_albums@), albums@.len()),
            forall|s: int| 0 <= s < songs@.len() ==> (#[trigger] songs@[s]).key.idx == s,
            forall|s: int|
                0 <= s < songs@.len() ==> (#[trigger] songs@[s]).album.idx < albums@.len(),
            forall|a: int, j: int|
                0 <= a < albums@.len() && 0 <= j < albums@[a].songs@.len()
                    ==> (#[trigger] albums@[a].songs@[j]).idx < songs@.len()
                    && songs@[albums@[a].songs@[j].idx as int].album.idx == a,
            forall|s: int|
                0 <= s < songs@.len() && (#[trigger] songs@[s]).album.idx < albums@.len()
                    ==> albums@[songs@[s].album.idx as int].songs@.contains(songs@[s].key),
            forall|a: int| 0 <= a < albums@.len() ==> (#[trigger] albums@[a]).songs@.no_duplicates(),
        ensures
            is_key_ordering(song_key_idxs(r@), songs@.len()),
            forall|i: int, j: int|
                0 <= i < j < r@.len() ==> position_in(
                    album_key_idxs(sorted_albums@),
                    songs@[(#[trigger] r@[i]).idx as int].album.idx,
                ) <= position_in(
                    album_key_idxs(sorted_albums@),
                    songs@[(#[trigger] r@[j]).idx as int].album.idx,
                ),
            forall|i: int, j: int|
                0 <= i < j < r@.len() && position_in(
                    album_key_idxs(sorted_albums@),
                    songs@[(#[trigger] r@[i]).idx as int].album.idx,
                ) == position_in(
                    album_key_idxs(sorted_albums@),
                    songs@[(#[trigger] r@[j]).idx as int].album.idx,
                ) ==> position_in(
                    song_key_idxs(albums@[songs@[r@[i].idx as int].album.idx as int].songs@),
                    r@[i].idx,
                ) <= position_in(
                    song_key_idxs(albums@[songs@[r@[j].idx as int].album.idx as int].songs@),
                    r@[j].idx,
                ),
    {
        let ghost ord = album_key_idxs(sorted_albums@);
        let n_songs = songs.len();
        proof {
            assert forall|s: int| 0 <= s < songs@.len() implies 0 <= position_in(
                ord,
                (#[trigger] songs@[s]).album.idx,
            ) < ord.len() by {
                assert(ord.contains(songs@[s].album.idx));
            }
        }
        let mut rank1: Vec<u64> = Vec::new();
        let mut rank2: Vec<u64> = Vec::new();
        let mut i: usize = 0;
        while i < n_songs
            invariant
                i <= n_songs,
                rank1@.len() == i,
                rank2@.len() == i,
                forall|t: int| 0 <= t < i ==> (#[trigger] rank1@[t]) == 0xffff_ffff_ffff_ffff,
            decreases n_songs - i,
        {
            rank1.push(0xffff_ffff_ffff_ffff);
            rank2.push(0xffff_ffff_ffff_ffff);
            i = i + 1;
        }
        let mut p: usize = 0;
        while p < sorted_albums.len()
            invariant
                p <= sorted_albums@.len(),
                ord == album_key_idxs(sorted_albums@),
                is_key_ordering(ord, albums@.len()),
                forall|s: int| 0 <= s < songs@.len() ==> (#[trigger] songs@[s]).key.idx == s,
                forall|s: int|
                    0 <= s < songs@.len() ==> (#[trigger] songs@[s]).album.idx < albums@.len(),
                forall|a: int, j: int|
                    0 <= a < albums@.len() && 0 <= j < albums@[a].songs@.len()
                        ==> (#[trigger] albums@[a].songs@[j]).idx < songs@.len()
                        && songs@[albums@[a].songs@[j].idx as int].album.idx == a,
                forall|s: int|
                    0 <= s < songs@.len() && (#[trigger] songs@[s]).album.idx < albums@.len()
                        ==> albums@[songs@[s].album.idx as int].songs@.contains(songs@[s].key),
                forall|s: int|
                    0 <= s < songs@.len() ==> 0 <= position_in(
                        ord,
                        (#[trigger] songs@[s]).album.idx,
                    ) < ord.len(),
                n_songs == songs@.len(),
                rank1@.len() == n_songs,
                rank2@.len() == n_songs,
                forall|a: int|
                    0 <= a < albums@.len() ==> (#[trigger] albums@[a]).songs@.no_duplicates(),
                forall|s: int|
                    0 <= s < songs@.len() && position_in(ord, (#[trigger] songs@[s]).album.idx) < p
                        ==> rank1@[s] == position_in(ord, songs@[s].album.idx) as u64
                        && rank2@[s] == position_in(
                        song_key_idxs(albums@[songs@[s].album.idx as int].songs@),
                        s as usize,
                    ) as u64 && 0 <= position_in(
                        song_key_idxs(albums@[songs@[s].album.idx as int].songs@),
                        s as usize,
                    ) <= usize::MAX,
                forall|s: int|
                    0 <= s < songs@.len() && position_in(ord, (#[trigger] songs@[s]).album.idx)
                        >= p ==> rank1@[s] == 0xffff_ffff_ffff_ffff,
            decreases sorted_albums@.len() - p,
        {
            let k = sorted_albums[p];
            proof {
                assert(ord[p as int] == sorted_albums@[p as int].idx);
                lemma_position_in(ord, p as int);
            }
            let list_len = albums[k.idx].songs.len();
            let mut t: usize = 0;
            while t < list_len
                invariant
                    t <= list_len,
                    k.idx < albums@.len(),
                    k.idx == ord[p as int],
                    p < sorted_albums@.len(),
                    is_key_ordering(ord, albums@.len()),
                    position_in(ord, k.idx) == p as int,
                    forall|s: int|
                        0 <= s < songs@.len() ==> (#[trigger] songs@[s]).album.idx
                            < albums@.len(),
                    list_len == albums@[k.idx as int].songs@.len(),
                    forall|s: int| 0 <= s < songs@.len() ==> (#[trigger] songs@[s]).key.idx == s,
                    forall|a: int, j: int|
                        0 <= a < albums@.len() && 0 <= j < albums@[a].songs@.len()
                            ==> (#[trigger] albums@[a].songs@[j]).idx < songs@.len()
                            && songs@[albums@[a].songs@[j].idx as int].album.idx == a,
                    forall|s: int|
                        0 <= s < songs@.len() ==> 0 <= position_in(
                            ord,
                            (#[trigger] songs@[s]).album.idx,
                        ) < ord.len(),
                    n_songs == songs@.len(),
                    rank1@.len() == n_songs,
                    rank2@.len() == n_songs,
                    forall|a: int|
                        0 <= a < albums@.len() ==> (#[trigger] albums@[a]).songs@.no_duplicates(),
                    forall|w: int|
                        0 <= w < t ==> rank1@[(#[trigger] albums@[k.idx as int].songs@[w]).idx as int]
                            == p as u64 && rank2@[(#[trigger] albums@[k.idx as int].songs@[w]).idx as int]
                            == w as u64,
                    forall|s: int|
                        0 <= s < songs@.len() && position_in(
                            ord,
                            (#[trigger] songs@[s]).album.idx,
                        ) < p ==> rank1@[s] == position_in(ord, songs@[s].album.idx) as u64
                            && rank2@[s] == position_in(
                            song_key_idxs(albums@[songs@[s].album.idx as int].songs@),
                            s as usize,
                        ) as u64 && 0 <= position_in(
                            song_key_idxs(albums@[songs@[s].album.idx as int].songs@),
                            s as usize,
                        ) <= usize::MAX,
                    forall|s: int|
                        0 <= s < songs@.len() && position_in(
                            ord,
                            (#[trigger] songs@[s]).album.idx,
                        ) > p ==> rank1@[s] == 0xffff_ffff_ffff_ffff,
                    forall|s: int|
                        0 <= s < songs@.len() && position_in(
                            ord,
                            (#[trigger] songs@[s]).album.idx,
                        ) == p ==> rank1@[s] == p as u64 || rank1@[s]
                            == 0xffff_ffff_ffff_ffff,
                decreases list_len - t,
            {
                let sk = albums[k.idx].songs[t];
                proof {
                    assert(albums@[k.idx as int].songs@[t as int] == sk);
                    assert(songs@[sk.idx as int].album.idx == k.idx);
                    assert(position_in(ord, songs@[sk.idx as int].album.idx) == p as int);
                    // The list holds no duplicates, so earlier slots keep
                    // their cells.
                    assert forall|w: int|
                        0 <= w < t implies (#[trigger] albums@[k.idx as int].songs@[w]).idx
                        != sk.idx by {
                        assert(albums@[k.idx as int].songs@[w] != sk);
                    }
                }
                rank1.set(sk.idx, p as u64);
                rank2.set(sk.idx, t as u64);
                t = t + 1;
            }
            proof {
                assert forall|s: int|
                    0 <= s < songs@.len() && position_in(ord, (#[trigger] songs@[s]).album.idx)
                        < p + 1 implies rank1@[s] == position_in(ord, songs@[s].album.idx) as u64
                    && rank2@[s] == position_in(
                    song_key_idxs(albums@[songs@[s].album.idx as int].songs@),
                    s as usize,
                ) as u64 && 0 <= position_in(
                    song_key_idxs(albums@[songs@[s].album.idx as int].songs@),
                    s as usize,
                ) <= usize::MAX by {
                    let ap = position_in(ord, songs@[s].album.idx);
                    if ap == p {
                        assert(ord.contains(songs@[s].album.idx));
                        assert(ord[ap] == songs@[s].album.idx);
                        assert(songs@[s].album.idx == k.idx);
                        assert(albums@[k.idx as int].songs@.contains(songs@[s].key));
                        let w = choose|w: int|
                            0 <= w < albums@[k.idx as int].songs@.len() && albums@[
                                k.idx as int
                            ].songs@[w] == songs@[s].key;
                        assert(albums@[k.idx as int].songs@[w].idx == s);
                        assert(rank1@[s] == p as u64);
                        assert(rank2@[s] == w as u64);
                        let li = song_key_idxs(albums@[k.idx as int].songs@);
                        assert(li.no_duplicates()) by {
                            assert forall|w1: int, w2: int|
                                0 <= w1 < li.len() && 0 <= w2 < li.len() && w1 != w2 implies li[w1]
                                != li[w2] by {
                                assert(li[w1] == albums@[k.idx as int].songs@[w1].idx);
                                assert(li[w2] == albums@[k.idx as int].songs@[w2].idx);
                                if li[w1] == li[w2] {
                                    assert(albums@[k.idx as int].songs@[w1] == albums@[
                                        k.idx as int
                                    ].songs@[w2]);
                                }
                            }
                        }
                        lemma_position_in(li, w);
                        assert(li[w] == s as usize);
                        assert(position_in(li, s as usize) == w);
                        assert(w <= usize::MAX as int);
                    }
                }
            }
            p = p + 1;
        }
        proof {
            assert forall|s: int| 0 <= s < songs@.len() implies #[trigger] rank1@[s]
                == position_in(ord, songs@[s].album.idx) as u64 && rank2@[s] == position_in(
                song_key_idxs(albums@[songs@[s].album.idx as int].songs@),
                s as usize,
            ) as u64 && 0 <= position_in(
                song_key_idxs(albums@[songs@[s].album.idx as int].songs@),
                s as usize,
            ) <= usize::MAX by {
                assert(position_in(ord, songs@[s].album.idx) < p);
            }
        }
        let mut entries: Vec<SortEntry> = Vec::new();
        let mut q: usize = 0;
        while q < n_songs
            invariant
                q <= n_songs,
                n_songs == songs@.len(),
                rank1@.len() == n_songs,
                rank2@.len() == n_songs,
                entries@.len() == q,
                forall|t: int|
                    0 <= t < q ==> (#[trigger] entries@[t]).idx == t && entries@[t].rank
                        == rank1@[t] && entries@[t].rank2 == rank2@[t] && entries@[t].name@.len()
                        == 0,
            decreases n_songs - q,
        {
            entries.push(SortEntry { rank: rank1[q], rank2: rank2[q], name: Vec::new(), idx: q });
            q = q + 1;
        }
        let ghost ge = entries@;
        let ghost final_rank1 = rank1@;
        let ghost final_rank2 = rank2@;
        let r = Self::song_keys_sorted(entries);
        proof {
            assert forall|i2: int, j2: int| 0 <= i2 < j2 < r@.len() implies position_in(
                ord,
                songs@[(#[trigger] r@[i2]).idx as int].album.idx,
            ) <= position_in(ord, songs@[(#[trigger] r@[j2]).idx as int].album.idx) by {
                assert(entry_le(ge[r@[i2].idx as int], ge[r@[j2].idx as int]));
                assert(ge[r@[i2].idx as int].rank == final_rank1[r@[i2].idx as int]);
                assert(ge[r@[j2].idx as int].rank == final_rank1[r@[j2].idx as int]);
            }
            assert forall|i2: int, j2: int|
                0 <= i2 < j2 < r@.len() && position_in(
                    ord,
                    songs@[(#[trigger] r@[i2]).idx as int].album.idx,
                ) == position_in(ord, songs@[(#[trigger] r@[j2]).idx as int].album.idx) implies position_in(
                song_key_idxs(albums@[songs@[r@[i2].idx as int].album.idx as int].songs@),
                r@[i2].idx,
            ) <= position_in(
                song_key_idxs(albums@[songs@[r@[j2].idx as int].album.idx as int].songs@),
                r@[j2].idx,
            ) by {
                assert(entry_le(ge[r@[i2].idx as int], ge[r@[j2].idx as int]));
                assert(ge[r@[i2].idx as int].rank == final_rank1[r@[i2].idx as int]);
                assert(ge[r@[j2].idx as int].rank == final_rank1[r@[j2].idx as int]);
                assert(ge[r@[i2].idx as int].rank2 == final_rank2[r@[i2].idx as int]);
                assert(ge[r@[j2].idx as int].rank2 == final_rank2[r@[j2].idx as int]);
                assert(final_rank1[r@[i2].idx as int] == rank1@[r@[i2].idx as int]);
                assert(final_rank1[r@[j2].idx as int] == rank1@[r@[j2].idx as int]);
                assert(final_rank2[r@[i2].idx as int] == rank2@[r@[i2].idx as int]);
                assert(final_rank2[r@[j2].idx as int] == rank2@[r@[j2].idx as int]);
                assert(rank1@[r@[i2].idx as int] == position_in(
                    ord,
                    songs@[r@[i2].idx as int].album.idx,
                ) as u64);
                assert(rank1@[r@[j2].idx as int] == position_in(
                    ord,
                    songs@[r@[j2].idx as int].album.idx,
                ) as u64);
                assert(rank2@[r@[i2].idx as int] == position_in(
                    song_key_idxs(albums@[songs@[r@[i2].idx as int].album.idx as int].songs@),
                    r@[i2].idx,
                ) as u64);
                assert(rank2@[r@[j2].idx as int] == position_in(
                    song_key_idxs(albums@[songs@[r@[j2].idx as int].album.idx as int].songs@),
                    r@[j2].idx,
                ) as u64);
                let si = r@[i2].idx as int;
                let sj = r@[j2].idx as int;
                let ai = songs@[si].album.idx;
                let aj = songs@[sj].album.idx;
                assert(ord.contains(ai));
                assert(ord.contains(aj));
                assert(ord[position_in(ord, ai)] == ai);
                assert(ord[position_in(ord, aj)] == aj);
                assert(ai == aj);
                let li = song_key_idxs(albums@[ai as int].songs@);
                assert(albums@[ai as int].songs@.contains(songs@[si].key));
                assert(albums@[ai as int].songs@.contains(songs@[sj].key));
                let wi = choose|w: int|
                    0 <= w < albums@[ai as int].songs@.len() && albums@[ai as int].songs@[w]
                        == songs@[si].key;
                let wj = choose|w: int|
                    0 <= w < albums@[ai as int].songs@.len() && albums@[ai as int].songs@[w]
                        == songs@[sj].key;
                assert(li[wi] == r@[i2].idx);
                assert(li[wj] == r@[j2].idx);
                assert(0 <= position_in(li, r@[i2].idx) < li.len());
                assert(0 <= position_in(li, r@[j2].idx) < li.len());
                assert(0 <= position_in(
                    song_key_idxs(albums@[songs@[si].album.idx as int].songs@),
                    si as usize,
                ) <= usize::MAX);
                assert(0 <= position_in(
                    song_key_idxs(albums@[songs@[sj].album.idx as int].songs@),
                    sj as usize,
                ) <= usize::MAX);
            }
        }
        r
    }
}

} // verus!
