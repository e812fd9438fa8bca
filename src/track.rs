//! The track record and the field-resolution rules of the parser.
use vstd::prelude::*;

use crate::flac::{
    flac_header_of, lemma_tag_lookup_none, lemma_tag_lookup_unique, read_flac, tag_or, tags_view,
    FlacHeader, HeaderModel,
};
use crate::ident::{cover_allowed, draw_cover, generate_id, is_track_id, opt_view, CoverPolicy};
use crate::paths::{file_name, file_stem, path_file_name, path_stem};

verus! {

/// A duration as an exact fraction: `samples / sample_rate` seconds.
/// The sample rate is never zero; an unknown duration is `0 / 1`.
#[derive(Clone, Copy, Debug, PartialEq, Eq, Structural)]
pub struct Duration {
    pub samples: u64,
    pub sample_rate: u32,
}

impl Duration {
    pub open spec fn wf(self) -> bool {
        self.sample_rate > 0
    }

    /// Whether the duration is zero seconds.
    pub fn is_zero(&self) -> (r: bool)
        ensures
            r == (self.samples == 0),
    {
        self.samples == 0
    }
}

/// The duration that a header gives: `total / rate` where both are present and
/// the rate is positive, zero otherwise.
pub open spec fn duration_of(total: Option<u64>, rate: u32) -> Duration {
    match total {
        Some(s) if rate > 0 => Duration { samples: s, sample_rate: rate },
        _ => Duration { samples: 0, sample_rate: 1 },
    }
}

/// The canonical output record of the parser.
#[derive(Clone, Debug)]
pub struct Track {
    /// Random per extraction; not an identity key.
    pub id: String,
    /// The path the track was read from: the stable key.
    pub path: String,
    pub title: String,
    pub artist: String,
    pub album: String,
    pub duration: Duration,
    pub cover: Option<String>,
}

pub open spec fn title_key() -> Seq<char> {
    "TITLE"@
}

pub open spec fn artist_key() -> Seq<char> {
    "ARTIST"@
}

pub open spec fn album_key() -> Seq<char> {
    "ALBUM"@
}

pub open spec fn unknown_title() -> Seq<char> {
    "Unknown Title"@
}

pub open spec fn unknown_artist() -> Seq<char> {
    "Unknown Artist"@
}

pub open spec fn unknown_album() -> Seq<char> {
    "Unknown Album"@
}

/// The title when no `TITLE` tag is present: the file stem, else a sentinel.
pub open spec fn fallback_title(path: Seq<char>) -> Seq<char> {
    match path_stem(path) {
        Some(s) => s,
        None => unknown_title(),
    }
}

pub open spec fn title_of(path: Seq<char>, tags: Seq<(Seq<char>, Seq<char>)>) -> Seq<char> {
    tag_or(tags, title_key(), fallback_title(path))
}

pub open spec fn artist_of(tags: Seq<(Seq<char>, Seq<char>)>) -> Seq<char> {
    tag_or(tags, artist_key(), unknown_artist())
}

pub open spec fn album_of(tags: Seq<(Seq<char>, Seq<char>)>) -> Seq<char> {
    tag_or(tags, album_key(), unknown_album())
}

impl Track {
    /// The track's deterministic fields are those of a file at `path` whose
    /// header is `h`.
    pub open spec fn describes(self, path: Seq<char>, h: HeaderModel) -> bool {
        &&& self.path@ == path
        &&& self.title@ == title_of(path, h.2)
        &&& self.artist@ == artist_of(h.2)
        &&& self.album@ == album_of(h.2)
        &&& self.duration == duration_of(h.0, h.1)
    }

    /// The fields that a fresh extraction draws at random are well formed.
    pub open spec fn drawn_under(self, policy: CoverPolicy) -> bool {
        is_track_id(self.id@) && cover_allowed(policy, opt_view(self.cover))
    }
}

/// Why a track could not be produced.
#[derive(Clone, Debug)]
pub enum TrackError {
    /// The file or directory could not be read.
    Io(String),
    /// The bytes are not a valid FLAC container.
    Format(String),
    /// The platform supplies no default audio directory.
    NoAudioDir,
}

pub open spec fn no_audio_dir_message() -> Seq<char> {
    "无法获取音乐目录"@
}

impl TrackError {
    /// The text shown to the caller.
    pub fn message(&self) -> (r: String)
        ensures
            r@ == match self {
                TrackError::Io(m) => m@,
                TrackError::Format(m) => m@,
                TrackError::NoAudioDir => no_audio_dir_message(),
            },
    {
        match self {
            TrackError::Io(m) => m.clone(),
            TrackError::Format(m) => m.clone(),
            TrackError::NoAudioDir => String::from_str("无法获取音乐目录"),
        }
    }
}

/// The value of the last tag with key `key`, or `default`.
fn resolve_tag(tags: &Vec<(String, String)>, key: &String, default: String) -> (r: String)
    ensures
        r@ == tag_or(tags_view(tags@), key@, default@),
{
    let mut cur = default;
    let mut i: usize = 0;
    while i < tags.len()
        invariant
            i <= tags@.len(),
            cur@ == tag_or(tags_view(tags@.take(i as int)), key@, default@),
        decreases tags@.len() - i,
    {
        assert(tags_view(tags@.take(i as int + 1)).drop_last() =~= tags_view(tags@.take(i as int)));
        if tags[i].0 == *key {
            cur = tags[i].1.clone();
        }
        i = i + 1;
    }
    assert(tags@.take(tags@.len() as int) =~= tags@);
    cur
}

/// Builds the track for a file at `path` with the parsed `header`, an
/// identifier and a cover.
pub fn track_from_header(path: &str, header: &FlacHeader, id: String, cover: Option<String>) -> (t: Track)
    ensures
        t.describes(path@, header@),
        t.id == id,
        t.cover == cover,
{
    let fallback = match file_stem(path) {
        Some(s) => s,
        None => String::from_str("Unknown Title"),
    };
    let title = resolve_tag(&header.tags, &String::from_str("TITLE"), fallback);
    let artist = resolve_tag(&header.tags, &String::from_str("ARTIST"), String::from_str("Unknown Artist"));
    let album = resolve_tag(&header.tags, &String::from_str("ALBUM"), String::from_str("Unknown Album"));
    let duration = match header.total_samples {
        Some(s) if header.sample_rate > 0 => Duration { samples: s, sample_rate: header.sample_rate },
        _ => Duration { samples: 0, sample_rate: 1 },
    };
    Track { id, path: String::from_str(path), title, artist, album, duration, cover }
}

/// Extracts the track record of the file at `path` whose contents are `bytes`.
/// Fails with `Format` exactly when the bytes are not a FLAC container; never
/// returns a partial record.
pub fn extract_metadata(path: &str, bytes: &[u8], covers: CoverPolicy) -> (r: Result<Track, TrackError>)
    ensures
        r is Ok <==> flac_header_of(bytes@) is Some,
        r matches Ok(t) ==> t.describes(path@, flac_header_of(bytes@)->0) && t.drawn_under(covers),
        r matches Err(e) ==> e is Format,
{
    match read_flac(bytes) {
        Ok(header) => {
            let id = generate_id();
            let cover = draw_cover(covers);
            Ok(track_from_header(path, &header, id, cover))
        },
        Err(e) => Err(TrackError::Format(e.to_string())),
    }
}

/// The quick record that describes a file by its name alone, without reading it:
/// the title is the file name, artist and album are `Unknown`, the duration
/// is zero and there is no cover.
pub fn placeholder_track(path: &str) -> (t: Track)
    ensures
        t.path@ == path@,
        t.title@ == match path_file_name(path@) {
            Some(n) => n,
            None => Seq::<char>::empty(),
        },
        t.artist@ == "Unknown"@,
        t.album@ == "Unknown"@,
        t.duration == (Duration { samples: 0, sample_rate: 1 }),
        t.cover is None,
        is_track_id(t.id@),
{
    let title = match file_name(path) {
        Some(n) => n,
        None => String::new(),
    };
    Track {
        id: generate_id(),
        path: String::from_str(path),
        title,
        artist: String::from_str("Unknown"),
        album: String::from_str("Unknown"),
        duration: Duration { samples: 0, sample_rate: 1 },
        cover: None,
    }
}

/// A file whose tags give `TITLE=x` (every `TITLE` tag holding `x`) gets the
/// title `x`; a file without a `TITLE` tag gets its file stem, where the path
/// has one.
pub proof fn lemma_title_resolution(path: Seq<char>, tags: Seq<(Seq<char>, Seq<char>)>, x: Seq<char>)
    ensures
        (exists|i: int| 0 <= i < tags.len() && (#[trigger] tags[i]).0 == title_key())
            && (forall|i: int| 0 <= i < tags.len() && (#[trigger] tags[i]).0 == title_key() ==> tags[i].1 == x)
            ==> title_of(path, tags) == x,
        (forall|i: int| 0 <= i < tags.len() ==> (#[trigger] tags[i]).0 != title_key())
            ==> title_of(path, tags) == fallback_title(path),
        (forall|i: int| 0 <= i < tags.len() ==> (#[trigger] tags[i]).0 != title_key())
            && path_stem(path) == Some(x) ==> title_of(path, tags) == x,
{
    lemma_tag_lookup_none(tags, title_key());
    if (exists|i: int| 0 <= i < tags.len() && (#[trigger] tags[i]).0 == title_key())
        && (forall|i: int| 0 <= i < tags.len() && (#[trigger] tags[i]).0 == title_key() ==> tags[i].1 == x) {
        lemma_tag_lookup_unique(tags, title_key(), x);
    }
}

/// The duration is `total / rate` where both are present and the rate is
/// positive, and zero seconds exactly when the count is absent or zero or the
/// rate is zero. It is never negative and never has a zero denominator.
pub proof fn lemma_duration(total: Option<u64>, rate: u32)
    ensures
        duration_of(total, rate).wf(),
        total is Some && rate > 0 ==> duration_of(total, rate) == (Duration {
            samples: total->0,
            sample_rate: rate,
        }),
        duration_of(total, rate).samples == 0 <==> (total is None || total == Some(0u64) || rate == 0),
{
}

} // verus!
