//! Building a catalog from the entries of a directory, with per-file fault
//! isolation: a file that fails to parse is recorded as skipped and never
//! aborts the scan.
use vstd::prelude::*;

use crate::flac::{flac_header_of, HeaderModel};
use crate::ident::CoverPolicy;
use crate::paths::{is_flac_path, is_flac_path_spec};
use crate::track::{extract_metadata, Track, TrackError};

verus! {

/// One directory entry as read from disk: its path and either its contents or
/// the reason they could not be read.
#[derive(Debug)]
pub struct ScanEntry {
    pub path: String,
    pub contents: Result<Vec<u8>, String>,
}

/// A matching file that gave no track, and why.
#[derive(Clone, Debug)]
pub struct Skipped {
    pub path: String,
    pub reason: TrackError,
}

/// The result of a scan: the tracks in listing order and the skipped files.
#[derive(Clone, Debug)]
pub struct ScanOutcome {
    pub tracks: Vec<Track>,
    pub skipped: Vec<Skipped>,
}

/// The header of an entry's contents, if they were read and parse.
pub open spec fn entry_header(e: ScanEntry) -> Option<HeaderModel> {
    match e.contents {
        Ok(b) => flac_header_of(b@),
        Err(_) => None,
    }
}

/// Whether a scan looks at the entry at all.
pub open spec fn entry_matches(e: ScanEntry) -> bool {
    is_flac_path_spec(e.path@)
}

/// The (path, header) pairs that a scan of `entries` turns into tracks, in order.
pub open spec fn catalog(entries: Seq<ScanEntry>) -> Seq<(Seq<char>, HeaderModel)>
    decreases entries.len(),
{
    if entries.len() == 0 {
        seq![]
    } else {
        let e = entries.last();
        let rest = catalog(entries.drop_last());
        if entry_matches(e) && entry_header(e) is Some {
            rest.push((e.path@, entry_header(e)->0))
        } else {
            rest
        }
    }
}

/// The paths of the matching entries that a scan of `entries` skips, in order.
pub open spec fn rejected(entries: Seq<ScanEntry>) -> Seq<Seq<char>>
    decreases entries.len(),
{
    if entries.len() == 0 {
        seq![]
    } else {
        let e = entries.last();
        let rest = rejected(entries.drop_last());
        if entry_matches(e) && entry_header(e) is None {
            rest.push(e.path@)
        } else {
            rest
        }
    }
}

/// The tracks are exactly those of `cat`, in order, each freshly drawn.
pub open spec fn tracks_follow(
    tracks: Seq<Track>,
    cat: Seq<(Seq<char>, HeaderModel)>,
    covers: CoverPolicy,
) -> bool {
    &&& tracks.len() == cat.len()
    &&& forall|i: int|
        0 <= i < tracks.len() ==> (#[trigger] tracks[i]).describes(cat[i].0, cat[i].1)
            && tracks[i].drawn_under(covers)
}

/// The skipped records name exactly the paths of `paths`, in order.
pub open spec fn skipped_follow(skipped: Seq<Skipped>, paths: Seq<Seq<char>>) -> bool {
    &&& skipped.len() == paths.len()
    &&& forall|i: int| 0 <= i < skipped.len() ==> (#[trigger] skipped[i]).path@ == paths[i]
}

impl ScanOutcome {
    /// An empty outcome, before any entry.
    pub fn new() -> (r: ScanOutcome)
        ensures
            r.tracks@.len() == 0,
            r.skipped@.len() == 0,
    {
        ScanOutcome { tracks: Vec::new(), skipped: Vec::new() }
    }
}

/// Takes one directory entry into the outcome. A non-matching entry is
/// ignored; a matching one adds a track, or a skipped record where its
/// contents were unreadable or do not parse.
pub fn scan_step(outcome: &mut ScanOutcome, entry: &ScanEntry, covers: CoverPolicy)
    ensures
        !entry_matches(*entry) ==> *final(outcome) == *old(outcome),
        entry_matches(*entry) && entry_header(*entry) is Some ==> {
            &&& final(outcome).skipped@ == old(outcome).skipped@
            &&& final(outcome).tracks@.len() == old(outcome).tracks@.len() + 1
            &&& final(outcome).tracks@.drop_last() == old(outcome).tracks@
            &&& final(outcome).tracks@.last().describes(entry.path@, entry_header(*entry)->0)
            &&& final(outcome).tracks@.last().drawn_under(covers)
        },
        entry_matches(*entry) && entry_header(*entry) is None ==> {
            &&& final(outcome).tracks@ == old(outcome).tracks@
            &&& final(outcome).skipped@.len() == old(outcome).skipped@.len() + 1
            &&& final(outcome).skipped@.drop_last() == old(outcome).skipped@
            &&& final(outcome).skipped@.last().path@ == entry.path@
            &&& match entry.contents {
                Err(m) => final(outcome).skipped@.last().reason == TrackError::Io(m),
                Ok(_) => final(outcome).skipped@.last().reason is Format,
            }
        },
{
    if !is_flac_path(entry.path.as_str()) {
        return;
    }
    match &entry.contents {
        Err(m) => {
            outcome.skipped.push(Skipped { path: entry.path.clone(), reason: TrackError::Io(m.clone()) });
        },
        Ok(bytes) => {
            match extract_metadata(entry.path.as_str(), bytes.as_slice(), covers) {
                Ok(t) => outcome.tracks.push(t),
                Err(e) => outcome.skipped.push(Skipped { path: entry.path.clone(), reason: e }),
            }
        },
    }
}

/// Scans the entries of one directory in listing order. Every matching entry
/// whose contents parse gives exactly one track; every other matching entry
/// gives one skipped record; the scan itself never fails.
pub fn scan_entries(entries: &Vec<ScanEntry>, covers: CoverPolicy) -> (r: ScanOutcome)
    ensures
        tracks_follow(r.tracks@, catalog(entries@), covers),
        skipped_follow(r.skipped@, rejected(entries@)),
{
    let mut out = ScanOutcome::new();
    let mut i: usize = 0;
    while i < entries.len()
        invariant
            i <= entries@.len(),
            tracks_follow(out.tracks@, catalog(entries@.take(i as int)), covers),
            skipped_follow(out.skipped@, rejected(entries@.take(i as int))),
        decreases entries@.len() - i,
    {
        assert(entries@.take(i as int + 1).drop_last() =~= entries@.take(i as int));
        assert(entries@.take(i as int + 1).last() == entries@[i as int]);
        let ghost before = out;
        scan_step(&mut out, &entries[i], covers);
        proof {
            let cat = catalog(entries@.take(i as int + 1));
            let rej = rejected(entries@.take(i as int + 1));
            assert forall|j: int| 0 <= j < out.tracks@.len() implies (#[trigger] out.tracks@[j]).describes(
                cat[j].0,
                cat[j].1,
            ) && out.tracks@[j].drawn_under(covers) by {
                if j < before.tracks@.len() {
                    assert(out.tracks@[j] == before.tracks@[j]);
                }
            }
            assert forall|j: int| 0 <= j < out.skipped@.len() implies (#[trigger] out.skipped@[j]).path@
                == rej[j] by {
                if j < before.skipped@.len() {
                    assert(out.skipped@[j] == before.skipped@[j]);
                }
            }
        }
        i = i + 1;
    }
    assert(entries@.take(entries@.len() as int) =~= entries@);
    out
}

/// The number of entries whose contents were read and parse as FLAC.
pub open spec fn valid_count(entries: Seq<ScanEntry>) -> nat
    decreases entries.len(),
{
    if entries.len() == 0 {
        0
    } else {
        valid_count(entries.drop_last()) + if entry_header(entries.last()) is Some {
            1nat
        } else {
            0nat
        }
    }
}

/// A scan over matching files of which `n` are valid gives exactly `n`
/// tracks, and one skipped record for each of the others.
pub proof fn lemma_scan_counts(entries: Seq<ScanEntry>)
    requires
        forall|i: int| 0 <= i < entries.len() ==> entry_matches(#[trigger] entries[i]),
    ensures
        catalog(entries).len() == valid_count(entries),
        rejected(entries).len() == entries.len() - valid_count(entries),
    decreases entries.len(),
{
    if entries.len() > 0 {
        let rest = entries.drop_last();
        assert forall|i: int| 0 <= i < rest.len() implies entry_matches(#[trigger] rest[i]) by {
            assert(rest[i] == entries[i]);
        }
        assert(entry_matches(entries[entries.len() - 1]));
        lemma_scan_counts(rest);
    }
}

/// A scan over entries none of which has the FLAC extension gives no track and
/// no skipped record.
pub proof fn lemma_scan_no_matching(entries: Seq<ScanEntry>)
    requires
        forall|i: int| 0 <= i < entries.len() ==> !entry_matches(#[trigger] entries[i]),
    ensures
        catalog(entries) == Seq::<(Seq<char>, HeaderModel)>::empty(),
        rejected(entries) == Seq::<Seq<char>>::empty(),
    decreases entries.len(),
{
    if entries.len() > 0 {
        let rest = entries.drop_last();
        assert forall|i: int| 0 <= i < rest.len() implies !entry_matches(#[trigger] rest[i]) by {
            assert(rest[i] == entries[i]);
        }
        assert(!entry_matches(entries[entries.len() - 1]));
        lemma_scan_no_matching(rest);
    }
}

} // verus!
