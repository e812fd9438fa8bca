//! Reading the stream-info block and the tag dictionary of a FLAC container.
use vstd::prelude::*;

verus! {

/// What the stream-info block and the Vorbis comment block give, as plain
/// values: the total sample count (absent when the header stores zero), the
/// sample rate in Hz, and the tags as (key, value) pairs in container order.
pub type HeaderModel = (Option<u64>, u32, Seq<(Seq<char>, Seq<char>)>);

/// The header that claxon reads from a byte sequence, or `None` where claxon
/// rejects the bytes as a FLAC stream.
pub uninterp spec fn flac_header_of(b: Seq<u8>) -> Option<HeaderModel>;

#[verifier::external_type_specification]
#[verifier::external_body]
pub struct ExFlacError(claxon::Error);

/// The header of a FLAC container, read from its bytes.
pub struct FlacHeader {
    pub total_samples: Option<u64>,
    pub sample_rate: u32,
    pub tags: Vec<(String, String)>,
}

pub open spec fn tags_view(tags: Seq<(String, String)>) -> Seq<(Seq<char>, Seq<char>)> {
    tags.map_values(|p: (String, String)| (p.0@, p.1@))
}

impl View for FlacHeader {
    type V = HeaderModel;

    open spec fn view(&self) -> HeaderModel {
        (self.total_samples, self.sample_rate, tags_view(self.tags@))
    }
}

/// Relies on `claxon::FlacReader::new` over an in-memory cursor, then
/// `streaminfo()` and `tags()`: the header is a function of the bytes alone.
/// claxon's stream-info parser rejects a sample rate of zero and reports a
/// stored sample count of zero as `None`.
#[verifier::external_body]
pub(crate) fn read_flac(bytes: &[u8]) -> (r: Result<FlacHeader, claxon::Error>)
    ensures
        match r {
            Ok(h) => flac_header_of(bytes@) == Some(h@) && h.sample_rate > 0
                && h.total_samples != Some(0u64),
            Err(_) => flac_header_of(bytes@) is None,
        },
{
    let reader = claxon::FlacReader::new(std::io::Cursor::new(bytes))?;
    let info = reader.streaminfo();
    let tags = reader.tags().map(|(k, v)| (k.to_string(), v.to_string())).collect();
    Ok(FlacHeader { total_samples: info.samples, sample_rate: info.sample_rate, tags })
}

/// The value of the last tag whose key equals `key` exactly (case-sensitive).
pub open spec fn tag_lookup(tags: Seq<(Seq<char>, Seq<char>)>, key: Seq<char>) -> Option<
    Seq<char>,
>
    decreases tags.len(),
{
    if tags.len() == 0 {
        None
    } else if tags.last().0 == key {
        Some(tags.last().1)
    } else {
        tag_lookup(tags.drop_last(), key)
    }
}

/// The tag value for `key`, or `default` where no tag has that key.
pub open spec fn tag_or(tags: Seq<(Seq<char>, Seq<char>)>, key: Seq<char>, default: Seq<char>) -> Seq<
    char,
> {
    match tag_lookup(tags, key) {
        Some(v) => v,
        None => default,
    }
}


/// A lookup finds nothing exactly when no tag has the key.
pub proof fn lemma_tag_lookup_none(tags: Seq<(Seq<char>, Seq<char>)>, key: Seq<char>)
    ensures
        tag_lookup(tags, key) is None <==> forall|i: int| 0 <= i < tags.len() ==> (#[trigger] tags[i]).0 != key,
    decreases tags.len(),
{
    if tags.len() > 0 {
        lemma_tag_lookup_none(tags.drop_last(), key);
        assert forall|i: int| 0 <= i < tags.len() - 1 implies tags.drop_last()[i] == #[trigger] tags[i] by {}
    }
}

/// Where every tag with the key holds `v` and one exists, the lookup gives `v`.
pub proof fn lemma_tag_lookup_unique(tags: Seq<(Seq<char>, Seq<char>)>, key: Seq<char>, v: Seq<char>)
    requires
        exists|i: int| 0 <= i < tags.len() && (#[trigger] tags[i]).0 == key,
        forall|i: int| 0 <= i < tags.len() && (#[trigger] tags[i]).0 == key ==> tags[i].1 == v,
    ensures
        tag_lookup(tags, key) == Some(v),
    decreases tags.len(),
{
    let rest = tags.drop_last();
    assert forall|i: int| 0 <= i < rest.len() implies rest[i] == #[trigger] tags[i] by {}
    if tags.last().0 != key {
        let i = choose|i: int| 0 <= i < tags.len() && (#[trigger] tags[i]).0 == key;
        assert(rest[i] == tags[i]);
        lemma_tag_lookup_unique(rest, key, v);
    }
}

} // verus!
