//! Tests of the collection builder, search, tags, dates and the
//! library constants.

use shukusai::ccd::{Ccd, TagRecord};
use shukusai::collection::{AlbumSort, ArtistSort, SongSort};
use shukusai::date::Date;
use shukusai::entity::{Art, ALBUM_ART_SIZE};
use shukusai::key::Key;
use shukusai::phase::Phase;
use shukusai::search::{similarity, Search, SearchKind};
use shukusai::tag::{Tag, TagError, TagKind, TagRules, TagValue};

fn record(
    artist: &str,
    album: &str,
    title: &str,
    runtime: u32,
    track: Option<u32>,
    disc: Option<u32>,
    release: Option<&str>,
) -> TagRecord {
    TagRecord {
        artist: artist.to_string(),
        album: album.to_string(),
        title: title.to_string(),
        runtime,
        sample_rate: 48_000,
        track,
        disc,
        art: None,
        release: release.map(|s| s.to_string()),
        genre: None,
        mime: "audio/mpeg".to_string(),
        extension: "mp3".to_string(),
        path: format!("/music/{artist}/{album}/{title}.mp3"),
        path_parent: format!("/music/{artist}/{album}"),
    }
}

fn seven_records() -> Vec<TagRecord> {
    vec![
        record("artist_1", "album_1", "mp3", 1, Some(1), Some(2), Some("2018-04-25")),
        record("artist_1", "album_1", "mp3", 1, Some(2), Some(2), Some("2018-04-25")),
        record("artist_1", "album_2", "mp3", 1, Some(1), Some(2), Some("2018-04-25")),
        record("artist_1", "album_2", "flac", 1, Some(2), Some(2), Some("2018-04-25")),
        record("artist_2", "album_3", "m4a", 1, Some(1), None, Some("2018-04-25")),
        // The ogg lacks a title tag; its title is the file name stem.
        record("artist_2", "album_3", "song_6", 1, Some(2), Some(2), Some("2018-04-25")),
        record("artist_3", "album_4", "mp3", 1, Some(1), Some(2), Some("2018-04-25")),
    ]
}

#[test]
fn version_is_semver() {
    assert_eq!(shukusai::constants::festival_version().len(), 6);
}

#[test]
fn unknown_art() {
    let art = Art::new();
    assert_eq!(art.size(), (ALBUM_ART_SIZE, ALBUM_ART_SIZE));
    assert_eq!(ALBUM_ART_SIZE, 600);
}

#[test]
fn diff() {
    let kinds = [SearchKind::All, SearchKind::Sim70, SearchKind::Top25, SearchKind::Top1];
    let mut set1 = std::collections::HashSet::new();
    let mut set2 = std::collections::HashSet::new();
    let mut set3 = std::collections::HashSet::new();
    for k in kinds {
        assert!(set1.insert(k.human()));
        assert!(set2.insert(k.next()));
        assert!(set3.insert(k.previous()));
    }
}

#[test]
fn ingest_determinism() {
    let records = seven_records();
    let c = Ccd::new_collection(&records, 123);
    assert_eq!(c.count_artist, 3);
    assert_eq!(c.count_album, 4);
    assert_eq!(c.count_song, 7);
    assert!(!c.empty);
    assert_eq!(c.timestamp, 123);

    // The ogg's title is its file name stem.
    assert!(c.songs.iter().any(|s| s.title == "song_6"));

    // album_1: one disc value, two songs sorted by track 1, 2.
    let album_1 = c.albums.iter().find(|a| a.title == "album_1").unwrap();
    assert_eq!(album_1.discs, 1);
    assert_eq!(album_1.song_count, 2);
    let tracks: Vec<Option<u32>> =
        album_1.songs.iter().map(|k| c.songs[k.inner()].track).collect();
    assert_eq!(tracks, vec![Some(1), Some(2)]);

    // album_3's release parsed exactly.
    let album_3 = c.albums.iter().find(|a| a.title == "album_3").unwrap();
    assert_eq!(album_3.release, Date { year: 2018, month: 4, day: 25 });

    // Artist runtime aggregates album runtimes (two songs of 1s each
    // in each of artist_1's two albums).
    let artist_1 = c.artists.iter().find(|x| x.name == "artist_1").unwrap();
    assert_eq!(artist_1.runtime, 4);
    assert_eq!(artist_1.albums.len(), 2);
    assert_eq!(artist_1.songs.len(), 4);

    // Every song's album points back at an album that lists it.
    for s in c.songs.iter() {
        let album = &c.albums[s.album.inner()];
        assert!(album.songs.iter().any(|k| k.inner() == s.key.inner()));
    }

    // The ten orderings are permutations of their arenas.
    for ord in [
        c.artist_sort(&ArtistSort::Lexi),
        c.artist_sort(&ArtistSort::AlbumCount),
        c.artist_sort(&ArtistSort::SongCount),
    ] {
        let mut idxs: Vec<usize> = ord.iter().map(|k| k.inner()).collect();
        idxs.sort();
        assert_eq!(idxs, vec![0, 1, 2]);
    }
    for ord in [
        c.album_sort(&AlbumSort::ReleaseArtistLexi),
        c.album_sort(&AlbumSort::LexiArtistLexi),
        c.album_sort(&AlbumSort::Lexi),
        c.album_sort(&AlbumSort::Release),
        c.album_sort(&AlbumSort::Runtime),
    ] {
        let mut idxs: Vec<usize> = ord.iter().map(|k| k.inner()).collect();
        idxs.sort();
        assert_eq!(idxs, vec![0, 1, 2, 3]);
    }
    for ord in [
        c.song_sort(&SongSort::AlbumReleaseArtistLexi),
        c.song_sort(&SongSort::AlbumLexiArtistLexi),
        c.song_sort(&SongSort::Lexi),
        c.song_sort(&SongSort::Release),
        c.song_sort(&SongSort::Runtime),
    ] {
        let mut idxs: Vec<usize> = ord.iter().map(|k| k.inner()).collect();
        idxs.sort();
        assert_eq!(idxs, vec![0, 1, 2, 3, 4, 5, 6]);
    }

    // Building twice from the same records gives the same graph.
    let c2 = Ccd::new_collection(&records, 123);
    assert_eq!(c2.count_artist, c.count_artist);
    assert_eq!(c2.count_album, c.count_album);
    for (a, b) in c.songs.iter().zip(c2.songs.iter()) {
        assert_eq!(a.title, b.title);
        assert_eq!(a.album.inner(), b.album.inner());
    }
}

#[test]
fn dedup_is_case_insensitive() {
    // Two spellings of one artist and one album deduplicate on the
    // case-folded names; the display name keeps the first spelling.
    let records = vec![
        record("The Band", "Debut", "one", 1, Some(1), None, None),
        record("the band", "debut", "two", 1, Some(2), None, None),
        record("THE BAND", "Second", "three", 1, Some(1), None, None),
    ];
    let c = Ccd::new_collection(&records, 0);
    assert_eq!(c.count_artist, 1);
    assert_eq!(c.count_album, 2);
    assert_eq!(c.count_song, 3);
    assert_eq!(c.artists[0].name, "The Band");
    let debut = c.albums.iter().find(|a| a.title == "Debut").unwrap();
    assert_eq!(debut.song_count, 2);
}

#[test]
fn artist_lexi_is_case_insensitive() {
    let records = vec![
        record("beta", "b-album", "s1", 1, Some(1), None, None),
        record("Alpha", "a-album", "s2", 1, Some(1), None, None),
    ];
    let c = Ccd::new_collection(&records, 0);
    let order = c.artist_sort(&ArtistSort::Lexi);
    // "Alpha" case-folds to "alpha", which sorts before "beta".
    assert_eq!(c.artists[order[0].inner()].name, "Alpha");
    assert_eq!(c.artists[order[1].inner()].name, "beta");
}

#[test]
fn collection_get_and_index() {
    let c = Ccd::new_collection(&seven_records(), 0);
    let key = Key {
        artist: shukusai::key::ArtistKey::new(0),
        album: shukusai::key::AlbumKey::new(0),
        song: shukusai::key::SongKey::new(0),
    };
    assert!(c.get(&key).is_some());
    let bad = Key {
        artist: shukusai::key::ArtistKey::new(99),
        album: shukusai::key::AlbumKey::new(0),
        song: shukusai::key::SongKey::new(0),
    };
    assert!(c.get(&bad).is_none());
    let album = c.album_from_song(c.songs[3].key);
    assert!(album.songs.iter().any(|k| k.inner() == 3));
}

#[test]
fn search_resolves_and_ranks() {
    let c = Ccd::new_collection(&seven_records(), 0);
    // A case-folded query finds the artist whatever the case.
    let r = Search::search(&c, "ARTIST_1", SearchKind::Top1);
    assert_eq!(r.artists.len(), 1);
    assert_eq!(c.artists[r.artists[0].inner()].name, "artist_1");
    // Every returned key resolves.
    let all = Search::search(&c, "a", SearchKind::All);
    for k in all.artists.iter() {
        assert!(k.inner() < c.artists.len());
    }
    for k in all.albums.iter() {
        assert!(k.inner() < c.albums.len());
    }
    for k in all.songs.iter() {
        assert!(k.inner() < c.songs.len());
    }
    // Top25 caps each kind.
    let top = Search::search(&c, "a", SearchKind::Top25);
    assert!(top.songs.len() <= 25);
    // The full answer is complete: every artist name sharing a
    // prefix with the query scores nonzero and must appear.
    let all = Search::search(&c, "artist", SearchKind::All);
    assert_eq!(all.artists.len(), c.artists.len());
}

#[test]
fn similarity_formula() {
    assert_eq!(similarity(b"abc", b"abc"), 100);
    assert_eq!(similarity(b"", b""), 100);
    assert_eq!(similarity(b"abc", b"xyz"), 0);
    // lcp 2 over lengths 3+3: 200*2/6 = 66.
    assert_eq!(similarity(b"abx", b"aby"), 66);
    // Symmetric.
    assert_eq!(similarity(b"abx", b"aby"), similarity(b"aby", b"abx"));
}

#[test]
fn date_parsing() {
    let d = Date::from_str_silent("2018-04-25");
    assert_eq!(d, Date { year: 2018, month: 4, day: 25 });
    let y = Date::from_str_silent("2023");
    assert_eq!(y, Date { year: 2023, month: 0, day: 0 });
    let bad = Date::from_str_silent("not a date");
    assert_eq!(bad, Date { year: 0, month: 0, day: 0 });
    assert!(!bad.is_known());
    // Known dates sort before unknown ones.
    assert!(d.code() < bad.code());
}

#[test]
fn tag_value_coercions() {
    // "N/M" track forms take N.
    let v = TagValue::Text("1/12".to_string());
    assert_eq!(TagRules::value_unsigned(&v), Some(1));
    let v = TagValue::Text("7".to_string());
    assert_eq!(TagRules::value_unsigned(&v), Some(7));
    let v = TagValue::Text("x".to_string());
    assert_eq!(TagRules::value_unsigned(&v), None);
    // Out-of-range numerics keep their low 32 bits, as `as u32`
    // truncation would.
    let v = TagValue::Unsigned(0x1_0000_0005);
    assert_eq!(TagRules::value_unsigned(&v), Some(5));
    let v = TagValue::Unsigned(0x1_0000_0000);
    assert_eq!(TagRules::value_unsigned(&v), Some(0));
    let v = TagValue::Signed(-1);
    assert_eq!(TagRules::value_unsigned(&v), Some(u32::MAX));
    // Numbers render in decimal.
    let v = TagValue::Unsigned(1984);
    assert_eq!(TagRules::value(&v), Some("1984".to_string()));
    let v = TagValue::Signed(-5);
    assert_eq!(TagRules::value(&v), Some("-5".to_string()));
    // Whitespace-only text is rejected.
    let v = TagValue::Text("   ".to_string());
    assert_eq!(TagRules::value(&v), None);
    // Binary values parse as UTF-8.
    let v = TagValue::Binary(b"hello".to_vec());
    assert_eq!(TagRules::value(&v), Some("hello".to_string()));
    // Booleans.
    assert!(TagRules::value_bool(&TagValue::Text("true".to_string())));
    assert!(!TagRules::value_bool(&TagValue::Text("1".to_string())));
    assert!(TagRules::value_bool(&TagValue::Boolean(true)));
}

#[test]
fn tag_extract_priorities_and_errors() {
    let tag = |kind, text: &str| Tag { kind, value: TagValue::Text(text.to_string()) };
    // Album artist wins over artist.
    let tags = vec![
        tag(TagKind::Artist, "feat mess"),
        tag(TagKind::AlbumArtist, "main"),
        tag(TagKind::Album, "record"),
        tag(TagKind::TrackTitle, "song"),
    ];
    let m = TagRules::extract(&tags, None).unwrap();
    assert_eq!(m.artist, "main");
    assert_eq!(m.album, "record");
    assert_eq!(m.title, "song");

    // Missing artist.
    let tags = vec![tag(TagKind::Album, "record"), tag(TagKind::TrackTitle, "song")];
    assert!(matches!(TagRules::extract(&tags, None), Err(TagError::NoArtist)));

    // Missing album.
    let tags = vec![tag(TagKind::Artist, "a"), tag(TagKind::TrackTitle, "song")];
    assert!(matches!(TagRules::extract(&tags, None), Err(TagError::NoAlbum)));

    // Missing title falls back to the stem.
    let tags = vec![tag(TagKind::Artist, "a"), tag(TagKind::Album, "b")];
    let m = TagRules::extract(&tags, Some("stem".to_string())).unwrap();
    assert_eq!(m.title, "stem");
    assert!(matches!(TagRules::extract(&tags, None), Err(TagError::NoTitle)));

    // Compilations are refused.
    let tags = vec![
        tag(TagKind::Artist, "a"),
        tag(TagKind::Album, "b"),
        tag(TagKind::TrackTitle, "t"),
        Tag { kind: TagKind::Compilation, value: TagValue::Boolean(true) },
    ];
    assert!(matches!(TagRules::extract(&tags, None), Err(TagError::Compilation)));
}

#[test]
fn phase_labels() {
    assert_eq!(Phase::Idle.as_str(), "...");
    assert_eq!(Phase::Disk.as_str(), "Reading From Disk");
    assert_eq!(Phase::Wait.as_str(), "Waiting for previous Collection reset to finish");
    assert_eq!(Phase::Start.as_str(), "Starting");
    assert_eq!(Phase::Deconstruct.as_str(), "Deconstructing Old Collection");
    assert_eq!(Phase::WalkDir.as_str(), "Walking Directories");
    assert_eq!(Phase::Parse.as_str(), "Parsing Metadata");
    assert_eq!(Phase::Fix.as_str(), "Fixing Metadata");
    assert_eq!(Phase::Sort.as_str(), "Sorting");
    assert_eq!(Phase::Search.as_str(), "Creating Search Engine");
    assert_eq!(Phase::Prepare.as_str(), "Preparing Collection");
    assert_eq!(Phase::Art.as_str(), "Preparing Album Art");
    assert_eq!(Phase::Clone.as_str(), "Preparing Collection For Disk");
    assert_eq!(Phase::Convert.as_str(), "Converting Album Art");
    assert_eq!(Phase::Finalize.as_str(), "Finalizing Collection");
}

#[test]
fn empty_collection_is_empty() {
    let c = shukusai::collection::Collection::new();
    assert!(c.empty);
    assert_eq!(c.count_song, 0);
    let r = Search::search(&c, "anything", SearchKind::All);
    assert!(r.artists.is_empty() && r.albums.is_empty() && r.songs.is_empty());
}
