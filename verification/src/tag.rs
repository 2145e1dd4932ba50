//! Tag metadata coercion: the rules that turn raw tag values into
//! the fields of a [`crate::ccd::TagRecord`].
//!
//! The caller probes each audio file and hands the raw tags in as
//! plain values; the lookup priorities (album artist before artist
//! before composer…), the string/number/boolean coercions, the
//! `N/M` track forms and the compilation rule are all decided — and
//! verified — here.

use vstd::prelude::*;

verus! {

/// A raw tag value, as read from an audio file.
#[derive(Clone, Debug)]
pub enum TagValue {
    /// A text value.
    Text(String),
    /// A binary value, possibly UTF-8 text.
    Binary(Vec<u8>),
    /// An unsigned number.
    Unsigned(u64),
    /// A signed number.
    Signed(i64),
    /// A boolean.
    Boolean(bool),
    /// A bare flag with no value.
    Flag,
}

/// The standard key a raw tag carries.
#[derive(Clone, Copy, Debug, PartialEq, Eq, Structural)]
pub enum TagKind {
    /// The album's main artist.
    AlbumArtist,
    /// The track artist.
    Artist,
    /// The composer.
    Composer,
    /// The performer.
    Performer,
    /// The original artist.
    OriginalArtist,
    /// The album title.
    Album,
    /// The original album title.
    OriginalAlbum,
    /// The track title.
    TrackTitle,
    /// The track number.
    TrackNumber,
    /// The disc number.
    DiscNumber,
    /// The release date.
    Date,
    /// The release date, alternate key.
    ReleaseDate,
    /// The original release date.
    OriginalDate,
    /// The genre.
    Genre,
    /// The compilation marker.
    Compilation,
    /// Any key this crate does not read.
    Other,
}

/// One raw tag: its standard key and its value.
#[derive(Clone, Debug)]
pub struct Tag {
    /// The standard key.
    pub kind: TagKind,
    /// The raw value.
    pub value: TagValue,
}

/// Whether a byte is ASCII whitespace (space, tab, line feed,
/// vertical tab, form feed, carriage return). This crate pins the
/// emptiness test to ASCII whitespace: multi-byte Unicode spaces
/// count as content.
pub open spec fn is_ws(b: u8) -> bool {
    b == 32 || b == 9 || b == 10 || b == 11 || b == 12 || b == 13
}

/// Whether a byte sequence holds anything besides whitespace.
pub open spec fn has_content(s: Seq<u8>) -> bool {
    exists|i: int| 0 <= i < s.len() && !is_ws(#[trigger] s[i])
}

/// Whether a byte is an ASCII digit.
pub open spec fn is_digit(b: u8) -> bool {
    48 <= b <= 57
}

/// Whether a byte sequence is one or more ASCII digits.
pub open spec fn all_digits(s: Seq<u8>) -> bool {
    s.len() > 0 && forall|i: int| 0 <= i < s.len() ==> is_digit(#[trigger] s[i])
}

/// The number a digit sequence spells in decimal.
pub open spec fn dec_val(s: Seq<u8>) -> nat
    decreases s.len(),
{
    if s.len() == 0 {
        0
    } else {
        (dec_val(s.drop_last()) * 10 + (if s.last() >= 48 { (s.last() - 48) as nat } else { 0 })) as nat
    }
}

/// The decimal digits of a number, most significant first.
pub open spec fn dec_digits(v: nat) -> Seq<u8>
    decreases v,
{
    if v < 10 {
        seq![(v + 48) as u8]
    } else {
        dec_digits(v / 10).push((v % 10 + 48) as u8)
    }
}

/// Scan a byte slice for any non-whitespace content.
fn bytes_have_content(s: &[u8]) -> (r: bool)
    ensures
        r == has_content(s@),
{
    let mut i: usize = 0;
    while i < s.len()
        invariant
            i <= s@.len(),
            forall|j: int| 0 <= j < i ==> is_ws(#[trigger] s@[j]),
        decreases s@.len() - i,
    {
        let b = s[i];
        if !(b == 32 || b == 9 || b == 10 || b == 11 || b == 12 || b == 13) {
            return true;
        }
        i = i + 1;
    }
    false
}

/// Render a number in decimal.
fn format_u64(n: u64) -> (r: Vec<u8>)
    ensures
        r@ == dec_digits(n as nat),
{
    let mut v: u64 = n;
    let mut out: Vec<u8> = Vec::new();
    loop
        invariant
            dec_digits(n as nat) =~= dec_digits(v as nat) + out@,
        decreases v,
    {
        let d: u8 = (v % 10) as u8 + 48;
        let ghost old_out = out@;
        out.insert(0, d);
        proof {
            assert(out@ =~= seq![d] + old_out);
        }
        if v < 10 {
            proof {
                assert(dec_digits(v as nat) =~= seq![d]);
                assert(dec_digits(n as nat) =~= out@);
            }
            return out;
        }
        proof {
            assert(dec_digits(v as nat) =~= dec_digits((v / 10) as nat) + seq![d]);
            assert(dec_digits(n as nat) =~= dec_digits((v / 10) as nat) + out@);
        }
        v = v / 10;
    }
}

/// An ASCII byte sequence is valid UTF-8.
proof fn lemma_ascii_valid_utf8(s: Seq<u8>)
    requires
        forall|i: int| 0 <= i < s.len() ==> (#[trigger] s[i]) < 128,
    ensures
        vstd::utf8::valid_utf8(s),
    decreases s.len(),
{
    if s.len() != 0 {
        assert(vstd::utf8::is_leading_byte_width_1(s[0]));
        assert(vstd::utf8::valid_first_scalar(s));
        assert(vstd::utf8::length_of_first_scalar(s) == 1);
        let rest = vstd::utf8::pop_first_scalar(s);
        assert(rest =~= s.skip(1));
        lemma_ascii_valid_utf8(rest);
    }
}

/// Relies on `String::from_utf8`: it accepts exactly valid UTF-8 and
/// decodes it to the characters vstd's UTF-8 model gives.
#[verifier::external_body]
fn utf8_to_string(v: Vec<u8>) -> (r: Option<String>)
    ensures
        r is Some <==> vstd::utf8::valid_utf8(v@),
        r is Some ==> r->0@ == vstd::utf8::decode_utf8(v@),
{
    match std::string::String::from_utf8(v) {
        Ok(s) => Some(s),
        Err(_) => None,
    }
}

/// The tag coercion rules.
pub struct TagRules;

impl TagRules {
    /// Coerce a raw tag value to text; see [`spec_text_of`]:
    /// textual values must hold something besides whitespace, binary
    /// values must be valid UTF-8 with the same rule, numbers render
    /// in decimal, booleans as `true` or `false`, and bare flags
    /// have no text.
    pub fn value(v: &TagValue) -> (r: Option<String>)
        ensures
            r is Some <==> spec_text_of(*v) is Some,
            r is Some ==> r->0@ == spec_text_of(*v)->0,
    {
        match v {
            TagValue::Text(s) => {
                if bytes_have_content(s.as_str().as_bytes()) {
                    Some(s.clone())
                } else {
                    None
                }
            },
            TagValue::Binary(b) => {
                if bytes_have_content(b.as_slice()) {
                    let c = crate::ccd::Ccd::clone_bytes(b);
                    utf8_to_string(c)
                } else {
                    None
                }
            },
            TagValue::Unsigned(u) => {
                let digits = format_u64(*u);
                proof {
                    lemma_digits_ascii(*u as nat);
                    lemma_ascii_valid_utf8(dec_digits(*u as nat));
                }
                utf8_to_string(digits)
            },
            TagValue::Signed(n) => {
                let mag: u64 = if *n >= 0 {
                    *n as u64
                } else {
                    (-(*n as i128)) as u64
                };
                let mut digits = format_u64(mag);
                let ghost mag_digits = digits@;
                if *n < 0 {
                    digits.insert(0, 45);
                    proof {
                        assert(digits@ =~= seq![45u8] + mag_digits);
                    }
                }
                proof {
                    lemma_digits_ascii(mag as nat);
                    assert(digits@ =~= signed_digits(*n as int));
                    assert(forall|i: int|
                        0 <= i < digits@.len() ==> (#[trigger] digits@[i]) < 128);
                    lemma_ascii_valid_utf8(digits@);
                }
                utf8_to_string(digits)
            },
            TagValue::Boolean(b) => {
                if *b {
                    Some(str_to_string("true"))
                } else {
                    Some(str_to_string("false"))
                }
            },
            TagValue::Flag => None,
        }
    }

    /// Coerce a raw tag value to an unsigned number: numbers are
    /// truncated to their low 32 bits, booleans become 0 or 1, and
    /// text parses as decimal — tolerating `N/M` forms by taking
    /// `N`.
    pub fn value_unsigned(v: &TagValue) -> (r: Option<u32>)
        ensures
            r == spec_unsigned_of(*v),
    {
        match v {
            TagValue::Unsigned(u) => Some((*u & 0xffff_ffff) as u32),
            TagValue::Signed(n) => Some((*n & 0xffff_ffff) as u32),
            TagValue::Boolean(b) => Some(if *b {
                1
            } else {
                0
            }),
            TagValue::Text(s) => Self::parse_fraction(s.as_str().as_bytes()),
            TagValue::Binary(b) => Self::parse_fraction(b.as_slice()),
            TagValue::Flag => None,
        }
    }

    /// Parse a decimal number out of bytes, tolerating an `N/M`
    /// fraction form by taking `N`; see [`spec_parse_fraction`].
    fn parse_fraction(b: &[u8]) -> (r: Option<u32>)
        ensures
            r == spec_parse_fraction(b@),
    {
        proof {
            assert(b@.subrange(0, b@.len() as int) =~= b@);
        }
        let whole = Self::parse_digits(b, b.len());
        match whole {
            Some(v) => Some(v),
            None => {
                let mut cut: usize = 0;
                let mut found = false;
                let mut i: usize = 0;
                while i < b.len()
                    invariant
                        i <= b@.len(),
                        found ==> cut < i && b@[cut as int] == 47 && (forall|j: int|
                            0 <= j < cut ==> b@[j] != 47),
                        !found ==> forall|j: int| 0 <= j < i ==> b@[j] != 47,
                        cut <= i,
                    decreases b@.len() - i,
                {
                    if !found && b[i] == 47 {
                        cut = i;
                        found = true;
                    }
                    i = i + 1;
                }
                if found {
                    Self::parse_digits(b, cut)
                } else {
                    proof {
                        assert(first_slash(b@) is None);
                    }
                    None
                }
            },
        }
    }

    /// Parse the first `n` bytes as a decimal `u32`; `None` on empty
    /// input, a non-digit, or overflow.
    fn parse_digits(b: &[u8], n: usize) -> (r: Option<u32>)
        requires
            n <= b@.len(),
        ensures
            r == spec_parse_digits(b@.subrange(0, n as int)),
    {
        if n == 0 {
            proof {
                assert(b@.subrange(0, 0).len() == 0);
            }
            return None;
        }
        let mut acc: u64 = 0;
        let mut over = false;
        let mut i: usize = 0;
        proof {
            assert(b@.subrange(0, 0) =~= Seq::<u8>::empty());
        }
        while i < n
            invariant
                i <= n <= b@.len(),
                forall|j: int| 0 <= j < i ==> is_digit(#[trigger] b@[j]),
                !over ==> acc == dec_val(b@.subrange(0, i as int)) && acc <= 0xffff_ffff,
                over ==> dec_val(b@.subrange(0, i as int)) > 0xffff_ffff,
            decreases n - i,
        {
            let c = b[i];
            if c < 48 || c > 57 {
                proof {
                    assert(!all_digits(b@.subrange(0, n as int))) by {
                        assert(b@.subrange(0, n as int)[i as int] == c);
                    }
                }
                return None;
            }
            proof {
                let pre = b@.subrange(0, i as int);
                let post = b@.subrange(0, i as int + 1);
                assert(post.drop_last() =~= pre);
                assert(post.last() == c);
            }
            let d: u64 = (c - 48) as u64;
            let next: u64 = if acc > 0xffff_ffff {
                acc
            } else {
                acc * 10 + d
            };
            if next > 0xffff_ffff {
                over = true;
                acc = next;
                proof {
                    let pre = b@.subrange(0, i as int);
                    let post = b@.subrange(0, i as int + 1);
                    if dec_val(pre) <= 0xffff_ffff {
                        assert(dec_val(post) == dec_val(pre) * 10 + (c - 48));
                    } else {
                        lemma_dec_val_grows(pre, c);
                    }
                }
            } else {
                acc = next;
            }
            i = i + 1;
        }
        proof {
            assert(b@.subrange(0, n as int).len() == n);
            assert(all_digits(b@.subrange(0, n as int))) by {
                assert(forall|j: int|
                    0 <= j < n ==> b@.subrange(0, n as int)[j] == b@[j]);
            }
        }
        if over {
            None
        } else {
            Some(acc as u32)
        }
    }

    /// Coerce a raw tag value to a boolean: booleans pass through,
    /// text parses `true` and `false`, everything else is `false`.
    pub fn value_bool(v: &TagValue) -> (r: bool)
        ensures
            r == spec_bool_of(*v),
    {
        match v {
            TagValue::Boolean(b) => *b,
            TagValue::Text(s) => {
                let t = "true";
                let c = crate::strings::bytes_three_way(s.as_str().as_bytes(), t.as_bytes());
                c == 0
            },
            TagValue::Binary(b) => {
                let t = "true";
                let tb = t.as_bytes();
                let c = crate::strings::bytes_three_way(b.as_slice(), tb);
                c == 0
            },
            _ => false,
        }
    }
}

/// The position of the first `/` byte, when there is one.
pub open spec fn first_slash(s: Seq<u8>) -> Option<int> {
    if exists|i: int| 0 <= i < s.len() && s[i] == 47 {
        Option::Some(choose|i: int| 0 <= i < s.len() && s[i] == 47 && forall|j: int| 0 <= j < i ==> s[j] != 47)
    } else {
        Option::None
    }
}

/// The decimal value the first `n` bytes spell: `None` on empty
/// input, a non-digit, or a value above `u32::MAX`.
pub open spec fn spec_parse_digits(s: Seq<u8>) -> Option<u32> {
    if all_digits(s) && dec_val(s) <= 0xffff_ffff {
        Option::Some(dec_val(s) as u32)
    } else {
        Option::None
    }
}

/// The decimal value of bytes that may take the `N/M` fraction form:
/// the whole string when it parses, otherwise the part before the
/// first `/`.
pub open spec fn spec_parse_fraction(s: Seq<u8>) -> Option<u32> {
    if spec_parse_digits(s) is Some {
        spec_parse_digits(s)
    } else {
        match first_slash(s) {
            Option::Some(cut) => spec_parse_digits(s.subrange(0, cut)),
            Option::None => Option::None,
        }
    }
}

/// Every decimal digit byte is an ASCII digit.
proof fn lemma_digits_ascii(v: nat)
    ensures
        forall|i: int| 0 <= i < dec_digits(v).len() ==> (#[trigger] dec_digits(v)[i]) < 128,
    decreases v,
{
    if v < 10 {
        assert(dec_digits(v) =~= seq![(v + 48) as u8]);
    } else {
        lemma_digits_ascii(v / 10);
        assert(dec_digits(v) =~= dec_digits(v / 10).push((v % 10 + 48) as u8));
        assert(forall|i: int|
            0 <= i < dec_digits(v / 10).len() ==> dec_digits(v)[i] == dec_digits(v / 10)[i]);
    }
}

/// Appending a digit cannot shrink a decimal value.
proof fn lemma_dec_val_grows(pre: Seq<u8>, c: u8)
    requires
        c >= 48,
    ensures
        dec_val(pre.push(c)) >= dec_val(pre),
{
    assert(pre.push(c).drop_last() =~= pre);
    assert(dec_val(pre.push(c)) == dec_val(pre) * 10 + (c - 48));
}

/// Build an owned string from a literal.
fn str_to_string(s: &str) -> (r: String)
    ensures
        r@ == s@,
{
    s.to_owned()
}

/// The decimal bytes of a signed number: a minus sign, then digits.
pub open spec fn signed_digits(n: int) -> Seq<u8> {
    if n < 0 {
        seq![45u8] + dec_digits((-n) as nat)
    } else {
        dec_digits(n as nat)
    }
}

/// The text a raw tag value coerces to, when it coerces at all.
pub open spec fn spec_text_of(v: TagValue) -> Option<Seq<char>> {
    match v {
        TagValue::Text(s) => if has_content(vstd::utf8::encode_utf8(s@)) {
            Option::Some(s@)
        } else {
            Option::None
        },
        TagValue::Binary(b) => if vstd::utf8::valid_utf8(b@) && has_content(b@) {
            Option::Some(vstd::utf8::decode_utf8(b@))
        } else {
            Option::None
        },
        TagValue::Unsigned(u) => Option::Some(vstd::utf8::decode_utf8(dec_digits(u as nat))),
        TagValue::Signed(n) => Option::Some(vstd::utf8::decode_utf8(signed_digits(n as int))),
        TagValue::Boolean(b) => Option::Some(
            if b {
                "true"@
            } else {
                "false"@
            },
        ),
        TagValue::Flag => Option::None,
    }
}

/// The index of the first tag carrying the given key, when any does.
pub open spec fn first_key_index(tags: Seq<Tag>, kind: TagKind) -> Option<int> {
    if exists|i: int| 0 <= i < tags.len() && tags[i].kind == kind {
        Option::Some(
            choose|i: int|
                0 <= i < tags.len() && tags[i].kind == kind && forall|j: int|
                    0 <= j < i ==> tags[j].kind != kind,
        )
    } else {
        Option::None
    }
}

/// The text the first tag with the given key coerces to, when there
/// is such a tag and it coerces.
pub open spec fn spec_find_text(tags: Seq<Tag>, kind: TagKind) -> Option<Seq<char>> {
    match first_key_index(tags, kind) {
        Option::Some(i) => spec_text_of(tags[i].value),
        Option::None => Option::None,
    }
}

impl TagRules {
    /// Find the first tag with the given key and coerce it to text.
    pub fn find_text(tags: &Vec<Tag>, kind: TagKind) -> (r: Option<String>)
        ensures
            r is Some <==> spec_find_text(tags@, kind) is Some,
            r is Some ==> r->0@ == spec_find_text(tags@, kind)->0,
    {
        let mut i: usize = 0;
        while i < tags.len()
            invariant
                i <= tags@.len(),
                forall|j: int| 0 <= j < i ==> (#[trigger] tags@[j]).kind != kind,
            decreases tags@.len() - i,
        {
            if tags[i].kind == kind {
                proof {
                    let w = first_key_index(tags@, kind);
                    assert(tags@[i as int].kind == kind);
                    assert(w is Some);
                    assert(tags@[w->0].kind == kind);
                    assert(w->0 == i as int);
                }
                return Self::value(&tags[i].value);
            }
            i = i + 1;
        }
        proof {
            assert(first_key_index(tags@, kind) is None);
        }
        None
    }

    /// The artist: album artist first, then artist, composer,
    /// performer and original artist, taking the first that coerces.
    pub fn tag_artist(tags: &Vec<Tag>) -> (r: Option<String>)
        ensures
            spec_find_text(tags@, TagKind::AlbumArtist) is Some ==> r is Some && r->0@
                == spec_find_text(tags@, TagKind::AlbumArtist)->0,
            spec_find_text(tags@, TagKind::AlbumArtist) is None && spec_find_text(
                tags@,
                TagKind::Artist,
            ) is Some ==> r is Some && r->0@ == spec_find_text(tags@, TagKind::Artist)->0,
            spec_find_text(tags@, TagKind::AlbumArtist) is None && spec_find_text(
                tags@,
                TagKind::Artist,
            ) is None && spec_find_text(tags@, TagKind::Composer) is Some ==> r is Some && r->0@
                == spec_find_text(tags@, TagKind::Composer)->0,
            spec_find_text(tags@, TagKind::AlbumArtist) is None && spec_find_text(
                tags@,
                TagKind::Artist,
            ) is None && spec_find_text(tags@, TagKind::Composer) is None && spec_find_text(
                tags@,
                TagKind::Performer,
            ) is Some ==> r is Some && r->0@ == spec_find_text(tags@, TagKind::Performer)->0,
            spec_find_text(tags@, TagKind::AlbumArtist) is None && spec_find_text(
                tags@,
                TagKind::Artist,
            ) is None && spec_find_text(tags@, TagKind::Composer) is None && spec_find_text(
                tags@,
                TagKind::Performer,
            ) is None ==> ((r is Some <==> spec_find_text(tags@, TagKind::OriginalArtist) is Some)
                && (r is Some ==> r->0@ == spec_find_text(tags@, TagKind::OriginalArtist)->0)),
    {
        let r = Self::find_text(tags, TagKind::AlbumArtist);
        if r.is_some() {
            return r;
        }
        let r = Self::find_text(tags, TagKind::Artist);
        if r.is_some() {
            return r;
        }
        let r = Self::find_text(tags, TagKind::Composer);
        if r.is_some() {
            return r;
        }
        let r = Self::find_text(tags, TagKind::Performer);
        if r.is_some() {
            return r;
        }
        Self::find_text(tags, TagKind::OriginalArtist)
    }

    /// The album title: album first, then original album.
    pub fn tag_album(tags: &Vec<Tag>) -> (r: Option<String>)
        ensures
            spec_find_text(tags@, TagKind::Album) is Some ==> r is Some && r->0@ == spec_find_text(
                tags@,
                TagKind::Album,
            )->0,
            spec_find_text(tags@, TagKind::Album) is None ==> ((r is Some <==> spec_find_text(
                tags@,
                TagKind::OriginalAlbum,
            ) is Some) && (r is Some ==> r->0@ == spec_find_text(tags@, TagKind::OriginalAlbum)->0)),
    {
        let r = Self::find_text(tags, TagKind::Album);
        if r.is_some() {
            return r;
        }
        Self::find_text(tags, TagKind::OriginalAlbum)
    }

    /// The song title: the track title tag, falling back to the
    /// file name stem the caller supplies.
    pub fn tag_title(tags: &Vec<Tag>, stem: Option<String>) -> (r: Option<String>)
        ensures
            spec_find_text(tags@, TagKind::TrackTitle) is Some ==> r is Some && r->0@
                == spec_find_text(tags@, TagKind::TrackTitle)->0,
            spec_find_text(tags@, TagKind::TrackTitle) is None ==> ((r is Some <==> stem is Some)
                && (r is Some ==> r->0@ == stem->0@)),
    {
        let t = Self::find_text(tags, TagKind::TrackTitle);
        if t.is_some() {
            return t;
        }
        stem
    }

    /// The release date string: date first, then release date, then
    /// original date.
    pub fn tag_release(tags: &Vec<Tag>) -> (r: Option<String>)
        ensures
            spec_find_text(tags@, TagKind::Date) is Some ==> r is Some && r->0@ == spec_find_text(
                tags@,
                TagKind::Date,
            )->0,
            spec_find_text(tags@, TagKind::Date) is None && spec_find_text(
                tags@,
                TagKind::ReleaseDate,
            ) is Some ==> r is Some && r->0@ == spec_find_text(tags@, TagKind::ReleaseDate)->0,
            spec_find_text(tags@, TagKind::Date) is None && spec_find_text(
                tags@,
                TagKind::ReleaseDate,
            ) is None ==> ((r is Some <==> spec_find_text(tags@, TagKind::OriginalDate) is Some)
                && (r is Some ==> r->0@ == spec_find_text(tags@, TagKind::OriginalDate)->0)),
    {
        let r = Self::find_text(tags, TagKind::Date);
        if r.is_some() {
            return r;
        }
        let r = Self::find_text(tags, TagKind::ReleaseDate);
        if r.is_some() {
            return r;
        }
        Self::find_text(tags, TagKind::OriginalDate)
    }

    /// The genre tag.
    pub fn tag_genre(tags: &Vec<Tag>) -> (r: Option<String>)
        ensures
            r is Some <==> spec_find_text(tags@, TagKind::Genre) is Some,
            r is Some ==> r->0@ == spec_find_text(tags@, TagKind::Genre)->0,
    {
        Self::find_text(tags, TagKind::Genre)
    }

    /// The track number, tolerating `N/M` forms.
    pub fn tag_track(tags: &Vec<Tag>) -> (r: Option<u32>)
        ensures
            ({
                let w = first_key_index(tags@, TagKind::TrackNumber);
                &&& w is None ==> r is None
                &&& w is Some ==> r == spec_unsigned_of(tags@[w->0].value)
            }),
    {
        Self::find_unsigned(tags, TagKind::TrackNumber)
    }

    /// The disc number, tolerating `N/M` forms.
    pub fn tag_disc(tags: &Vec<Tag>) -> (r: Option<u32>)
        ensures
            ({
                let w = first_key_index(tags@, TagKind::DiscNumber);
                &&& w is None ==> r is None
                &&& w is Some ==> r == spec_unsigned_of(tags@[w->0].value)
            }),
    {
        Self::find_unsigned(tags, TagKind::DiscNumber)
    }

    /// Find the first tag with the given key and coerce it to a
    /// number.
    fn find_unsigned(tags: &Vec<Tag>, kind: TagKind) -> (r: Option<u32>)
        ensures
            ({
                let w = first_key_index(tags@, kind);
                &&& w is None ==> r is None
                &&& w is Some ==> r == spec_unsigned_of(tags@[w->0].value)
            }),
    {
        let mut i: usize = 0;
        while i < tags.len()
            invariant
                i <= tags@.len(),
                forall|j: int| 0 <= j < i ==> (#[trigger] tags@[j]).kind != kind,
            decreases tags@.len() - i,
        {
            if tags[i].kind == kind {
                proof {
                    let w = first_key_index(tags@, kind);
                    assert(tags@[i as int].kind == kind);
                    assert(w is Some);
                    assert(tags@[w->0].kind == kind);
                    assert(w->0 == i as int);
                }
                return Self::value_unsigned(&tags[i].value);
            }
            i = i + 1;
        }
        proof {
            assert(first_key_index(tags@, kind) is None);
        }
        None
    }

    /// Whether the file is marked as part of a compilation; absent
    /// markers mean it is not.
    pub fn tag_compilation(tags: &Vec<Tag>) -> (r: bool)
        ensures
            ({
                let w = first_key_index(tags@, TagKind::Compilation);
                &&& w is None ==> !r
                &&& w is Some ==> r == spec_bool_of(tags@[w->0].value)
            }),
    {
        let mut i: usize = 0;
        while i < tags.len()
            invariant
                i <= tags@.len(),
                forall|j: int| 0 <= j < i ==> (#[trigger] tags@[j]).kind != TagKind::Compilation,
            decreases tags@.len() - i,
        {
            if tags[i].kind == TagKind::Compilation {
                proof {
                    let w = first_key_index(tags@, TagKind::Compilation);
                    assert(tags@[i as int].kind == TagKind::Compilation);
                    assert(w is Some);
                    assert(tags@[w->0].kind == TagKind::Compilation);
                    assert(w->0 == i as int);
                }
                return Self::value_bool(&tags[i].value);
            }
            i = i + 1;
        }
        proof {
            assert(first_key_index(tags@, TagKind::Compilation) is None);
        }
        false
    }
}

/// The number a raw tag value coerces to; the spec mirror of
/// [`TagRules::value_unsigned`]. Out-of-range numerics keep their
/// low 32 bits.
pub open spec fn spec_unsigned_of(v: TagValue) -> Option<u32> {
    match v {
        TagValue::Unsigned(u) => Option::Some((u & 0xffff_ffff) as u32),
        TagValue::Signed(n) => Option::Some((n & 0xffff_ffff) as u32),
        TagValue::Boolean(b) => Option::Some(
            if b {
                1u32
            } else {
                0u32
            },
        ),
        TagValue::Text(s) => spec_parse_fraction(vstd::utf8::encode_utf8(s@)),
        TagValue::Binary(b) => spec_parse_fraction(b@),
        TagValue::Flag => Option::None,
    }
}

/// The boolean a raw tag value coerces to; the spec mirror of
/// [`TagRules::value_bool`].
pub open spec fn spec_bool_of(v: TagValue) -> bool {
    match v {
        TagValue::Boolean(b) => b,
        TagValue::Text(s) => vstd::utf8::encode_utf8(s@) == vstd::utf8::encode_utf8("true"@),
        TagValue::Binary(b) => b@ == vstd::utf8::encode_utf8("true"@),
        _ => false,
    }
}


/// The artist text of a tag list: album artist first, then artist,
/// composer, performer, original artist.
pub open spec fn spec_artist_text(tags: Seq<Tag>) -> Option<Seq<char>> {
    if spec_find_text(tags, TagKind::AlbumArtist) is Some {
        spec_find_text(tags, TagKind::AlbumArtist)
    } else if spec_find_text(tags, TagKind::Artist) is Some {
        spec_find_text(tags, TagKind::Artist)
    } else if spec_find_text(tags, TagKind::Composer) is Some {
        spec_find_text(tags, TagKind::Composer)
    } else if spec_find_text(tags, TagKind::Performer) is Some {
        spec_find_text(tags, TagKind::Performer)
    } else {
        spec_find_text(tags, TagKind::OriginalArtist)
    }
}

/// The album text of a tag list: album first, then original album.
pub open spec fn spec_album_text(tags: Seq<Tag>) -> Option<Seq<char>> {
    if spec_find_text(tags, TagKind::Album) is Some {
        spec_find_text(tags, TagKind::Album)
    } else {
        spec_find_text(tags, TagKind::OriginalAlbum)
    }
}

/// The release text of a tag list: date first, then release date,
/// then original date.
pub open spec fn spec_release_text(tags: Seq<Tag>) -> Option<Seq<char>> {
    if spec_find_text(tags, TagKind::Date) is Some {
        spec_find_text(tags, TagKind::Date)
    } else if spec_find_text(tags, TagKind::ReleaseDate) is Some {
        spec_find_text(tags, TagKind::ReleaseDate)
    } else {
        spec_find_text(tags, TagKind::OriginalDate)
    }
}

/// Whether a tag list carries a set compilation marker.
pub open spec fn spec_is_compilation(tags: Seq<Tag>) -> bool {
    match first_key_index(tags, TagKind::Compilation) {
        Option::Some(i) => spec_bool_of(tags[i].value),
        Option::None => false,
    }
}

/// Why a file's tags could not become a record.
#[derive(Clone, Copy, Debug, PartialEq, Eq, Structural)]
pub enum TagError {
    /// The file is marked as a compilation, which is skipped.
    Compilation,
    /// No tag yields an artist.
    NoArtist,
    /// No tag yields an album.
    NoAlbum,
    /// No tag yields a title, and no file name stem was given.
    NoTitle,
}

/// The coerced metadata of one file's tags.
#[derive(Clone, Debug)]
pub struct TagMeta {
    /// The artist name.
    pub artist: String,
    /// The album title.
    pub album: String,
    /// The song title.
    pub title: String,
    /// The track number, when tagged.
    pub track: Option<u32>,
    /// The disc number, when tagged.
    pub disc: Option<u32>,
    /// The release date string, when tagged.
    pub release: Option<String>,
    /// The genre, when tagged.
    pub genre: Option<String>,
}

impl TagRules {
    /// Extract the metadata of one file from its tags: compilations
    /// are refused; the artist, album and title are required (the
    /// title falling back to the file name stem); track, disc,
    /// release and genre are optional.
    pub fn extract(tags: &Vec<Tag>, stem: Option<String>) -> (r: Result<TagMeta, TagError>)
        ensures
            r == Result::<TagMeta, TagError>::Err(TagError::Compilation) <==> spec_is_compilation(
                tags@,
            ),
            !spec_is_compilation(tags@) ==> (r == Result::<TagMeta, TagError>::Err(
                TagError::NoArtist,
            ) <==> spec_artist_text(tags@) is None),
            !spec_is_compilation(tags@) && spec_artist_text(tags@) is Some ==> (r == Result::<
                TagMeta,
                TagError,
            >::Err(TagError::NoAlbum) <==> spec_album_text(tags@) is None),
            !spec_is_compilation(tags@) && spec_artist_text(tags@) is Some && spec_album_text(
                tags@,
            ) is Some ==> (r == Result::<TagMeta, TagError>::Err(TagError::NoTitle)
                <==> spec_find_text(tags@, TagKind::TrackTitle) is None && stem is None),
            r is Ok ==> {
                let m = r->Ok_0;
                &&& Option::Some(m.artist@) == spec_artist_text(tags@)
                &&& Option::Some(m.album@) == spec_album_text(tags@)
                &&& (spec_find_text(tags@, TagKind::TrackTitle) is Some ==> m.title@
                    == spec_find_text(tags@, TagKind::TrackTitle)->0)
                &&& (spec_find_text(tags@, TagKind::TrackTitle) is None ==> stem is Some
                    && m.title@ == stem->0@)
                &&& ({
                    let w = first_key_index(tags@, TagKind::TrackNumber);
                    m.track == (if w is Some {
                        spec_unsigned_of(tags@[w->0].value)
                    } else {
                        Option::<u32>::None
                    })
                })
                &&& ({
                    let w = first_key_index(tags@, TagKind::DiscNumber);
                    m.disc == (if w is Some {
                        spec_unsigned_of(tags@[w->0].value)
                    } else {
                        Option::<u32>::None
                    })
                })
                &&& ((m.release is Some <==> spec_release_text(tags@) is Some) && (m.release
                    is Some ==> m.release->0@ == spec_release_text(tags@)->0))
                &&& ((m.genre is Some <==> spec_find_text(tags@, TagKind::Genre) is Some) && (
                m.genre is Some ==> m.genre->0@ == spec_find_text(tags@, TagKind::Genre)->0))
            },
    {
        if Self::tag_compilation(tags) {
            return Err(TagError::Compilation);
        }
        let artist = match Self::tag_artist(tags) {
            Some(a) => a,
            None => {
                return Err(TagError::NoArtist);
            },
        };
        let album = match Self::tag_album(tags) {
            Some(a) => a,
            None => {
                return Err(TagError::NoAlbum);
            },
        };
        let title = match Self::tag_title(tags, stem) {
            Some(t) => t,
            None => {
                return Err(TagError::NoTitle);
            },
        };
        let track = Self::tag_track(tags);
        let disc = Self::tag_disc(tags);
        let release = Self::tag_release(tags);
        let genre = Self::tag_genre(tags);
        Ok(TagMeta { artist, album, title, track, disc, release, genre })
    }
}

} // verus!
