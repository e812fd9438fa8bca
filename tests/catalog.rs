use base64::Engine;
use flac_catalog::encode::encode_base64;
use flac_catalog::ident::{generate_id, placeholder_cover, push_decimal, CoverPolicy};
use flac_catalog::paths::is_flac_path;
use flac_catalog::scan::{scan_entries, scan_step, ScanEntry, ScanOutcome};
use flac_catalog::track::{extract_metadata, placeholder_track, Duration, TrackError};

/// A minimal FLAC stream: the marker, a stream-info block and, where tags are
/// given, a Vorbis comment block.
fn flac_bytes(sample_rate: u32, samples: u64, tags: &[(&str, &str)]) -> Vec<u8> {
    let mut out = b"fLaC".to_vec();
    let last_info = if tags.is_empty() { 0x80 } else { 0x00 };
    out.push(last_info);
    out.extend_from_slice(&[0, 0, 34]);
    out.extend_from_slice(&4096u16.to_be_bytes());
    out.extend_from_slice(&4096u16.to_be_bytes());
    out.extend_from_slice(&[0, 0, 0, 0, 0, 0]);
    let channels_minus_one: u32 = 1;
    let bps_minus_one: u32 = 15;
    out.push((sample_rate >> 12) as u8);
    out.push((sample_rate >> 4) as u8);
    out.push((((sample_rate & 0xf) << 4) | (channels_minus_one << 1) | (bps_minus_one >> 4)) as u8);
    out.push((((bps_minus_one & 0xf) << 4) as u8) | ((samples >> 32) & 0xf) as u8);
    out.extend_from_slice(&((samples & 0xffff_ffff) as u32).to_be_bytes());
    out.extend_from_slice(&[0u8; 16]);
    if !tags.is_empty() {
        let mut block: Vec<u8> = Vec::new();
        block.extend_from_slice(&0u32.to_le_bytes());
        block.extend_from_slice(&(tags.len() as u32).to_le_bytes());
        for (k, v) in tags {
            let c = format!("{}={}", k, v);
            block.extend_from_slice(&(c.len() as u32).to_le_bytes());
            block.extend_from_slice(c.as_bytes());
        }
        let len = block.len() as u32;
        out.push(0x80 | 4);
        out.extend_from_slice(&[(len >> 16) as u8, (len >> 8) as u8, len as u8]);
        out.extend_from_slice(&block);
    }
    out
}

fn is_id(s: &str) -> bool {
    s.len() == 10 && s.chars().all(|c| c.is_ascii_alphanumeric())
}

#[test]
fn title_artist_album_from_tags() {
    let bytes = flac_bytes(44100, 441000, &[("TITLE", "Song A"), ("ARTIST", "Artist1"), ("ALBUM", "Record")]);
    let t = extract_metadata("/music/a.flac", &bytes, CoverPolicy::NoArtwork).unwrap();
    assert_eq!(t.title, "Song A");
    assert_eq!(t.artist, "Artist1");
    assert_eq!(t.album, "Record");
    assert_eq!(t.path, "/music/a.flac");
    assert!(is_id(&t.id));
    assert_eq!(t.cover, None);
}

#[test]
fn title_falls_back_to_stem() {
    let bytes = flac_bytes(48000, 96000, &[("ARTIST", "Someone")]);
    let t = extract_metadata("/music/my song.flac", &bytes, CoverPolicy::NoArtwork).unwrap();
    assert_eq!(t.title, "my song");
    assert_eq!(t.artist, "Someone");
    assert_eq!(t.album, "Unknown Album");
}

#[test]
fn sentinels_without_tags() {
    let bytes = flac_bytes(44100, 44100, &[]);
    let t = extract_metadata("b.flac", &bytes, CoverPolicy::NoArtwork).unwrap();
    assert_eq!(t.title, "b");
    assert_eq!(t.artist, "Unknown Artist");
    assert_eq!(t.album, "Unknown Album");
}

#[test]
fn last_title_tag_wins_and_keys_are_case_exact() {
    let bytes = flac_bytes(44100, 1, &[("TITLE", "First"), ("title", "lower"), ("TITLE", "Second"), ("COMMENT", "x")]);
    let t = extract_metadata("c.flac", &bytes, CoverPolicy::NoArtwork).unwrap();
    assert_eq!(t.title, "Second");
    let only_lower = flac_bytes(44100, 1, &[("title", "lower"), ("artist", "who")]);
    let u = extract_metadata("d.flac", &only_lower, CoverPolicy::NoArtwork).unwrap();
    assert_eq!(u.title, "d");
    assert_eq!(u.artist, "Unknown Artist");
}

#[test]
fn duration_is_samples_over_rate() {
    let bytes = flac_bytes(44100, 441000, &[]);
    let t = extract_metadata("e.flac", &bytes, CoverPolicy::NoArtwork).unwrap();
    assert_eq!(t.duration, Duration { samples: 441000, sample_rate: 44100 });
    assert!(!t.duration.is_zero());
    let seconds = t.duration.samples as f64 / t.duration.sample_rate as f64;
    assert!((seconds - 10.0).abs() < 1e-9);
}

#[test]
fn duration_zero_when_sample_count_absent() {
    let bytes = flac_bytes(44100, 0, &[]);
    let t = extract_metadata("f.flac", &bytes, CoverPolicy::NoArtwork).unwrap();
    assert_eq!(t.duration, Duration { samples: 0, sample_rate: 1 });
    assert!(t.duration.is_zero());
}

#[test]
fn zero_sample_rate_is_a_format_error() {
    let bytes = flac_bytes(0, 1000, &[]);
    let r = extract_metadata("g.flac", &bytes, CoverPolicy::NoArtwork);
    assert!(matches!(r, Err(TrackError::Format(_))));
}

#[test]
fn invalid_files_give_errors() {
    for bytes in [Vec::new(), b"not a flac file at all".to_vec(), b"fLaC".to_vec(), flac_bytes(44100, 10, &[])[..20].to_vec()] {
        let r = extract_metadata("h.flac", &bytes, CoverPolicy::DemoPlaceholder);
        match r {
            Err(TrackError::Format(m)) => assert!(!m.is_empty()),
            other => panic!("expected a format error, got {:?}", other),
        }
    }
}

#[test]
fn ids_differ_between_extractions() {
    let bytes = flac_bytes(44100, 441000, &[("TITLE", "Same")]);
    let a = extract_metadata("same.flac", &bytes, CoverPolicy::NoArtwork).unwrap();
    let b = extract_metadata("same.flac", &bytes, CoverPolicy::NoArtwork).unwrap();
    assert_ne!(a.id, b.id);
    assert_eq!(a.path, b.path);
    assert_eq!(a.title, b.title);
}

#[test]
fn generated_ids_are_alphanumeric() {
    for _ in 0..50 {
        assert!(is_id(&generate_id()));
    }
}

#[test]
fn demo_covers_are_placeholder_links() {
    let bytes = flac_bytes(44100, 1, &[]);
    for _ in 0..40 {
        let t = extract_metadata("i.flac", &bytes, CoverPolicy::DemoPlaceholder).unwrap();
        if let Some(u) = t.cover {
            let n = u.strip_prefix("https://picsum.photos/300/300?random=").unwrap();
            assert!(n.parse::<u32>().is_ok());
        }
    }
}

#[test]
fn placeholder_cover_values() {
    assert_eq!(placeholder_cover(true, 123).as_deref(), Some("https://picsum.photos/300/300?random=123"));
    assert_eq!(placeholder_cover(true, 0).as_deref(), Some("https://picsum.photos/300/300?random=0"));
    assert_eq!(placeholder_cover(false, 77), None);
}

#[test]
fn decimal_notation() {
    let mut s = String::from("n=");
    push_decimal(&mut s, 4294967295);
    assert_eq!(s, "n=4294967295");
    let mut z = String::new();
    push_decimal(&mut z, 10);
    assert_eq!(z, "10");
}

#[test]
fn flac_extension_detection() {
    assert!(is_flac_path("/music/a.flac"));
    assert!(is_flac_path("a.b.flac"));
    assert!(!is_flac_path("notes.txt"));
    assert!(!is_flac_path("a.FLAC"));
    assert!(!is_flac_path("flac"));
    assert!(!is_flac_path(".flac"));
}

#[test]
fn placeholder_track_uses_file_name() {
    let t = placeholder_track("/music/x.flac");
    assert_eq!(t.title, "x.flac");
    assert_eq!(t.artist, "Unknown");
    assert_eq!(t.album, "Unknown");
    assert!(t.duration.is_zero());
    assert_eq!(t.cover, None);
    assert!(is_id(&t.id));
    assert_eq!(placeholder_track("/").title, "");
}

#[test]
fn error_messages() {
    assert_eq!(TrackError::Io("denied".to_string()).message(), "denied");
    assert_eq!(TrackError::Format("bad".to_string()).message(), "bad");
    assert_eq!(TrackError::NoAudioDir.message(), "无法获取音乐目录");
}

fn entry(path: &str, contents: Result<Vec<u8>, String>) -> ScanEntry {
    ScanEntry { path: path.to_string(), contents }
}

#[test]
fn scan_scenario_two_tracks_and_a_text_file() {
    let entries = vec![
        entry("/dir/a.flac", Ok(flac_bytes(44100, 44100, &[("TITLE", "Song A"), ("ARTIST", "Artist1")]))),
        entry("/dir/b.flac", Ok(flac_bytes(44100, 44100, &[]))),
        entry("/dir/notes.txt", Ok(b"hello".to_vec())),
    ];
    let out = scan_entries(&entries, CoverPolicy::NoArtwork);
    assert_eq!(out.tracks.len(), 2);
    assert_eq!(out.tracks[0].title, "Song A");
    assert_eq!(out.tracks[0].artist, "Artist1");
    assert_eq!(out.tracks[1].title, "b");
    assert_eq!(out.tracks[1].artist, "Unknown Artist");
    assert!(out.skipped.is_empty());
}

#[test]
fn scan_counts_valid_and_invalid() {
    let entries = vec![
        entry("/d/1.flac", Ok(flac_bytes(44100, 10, &[]))),
        entry("/d/2.flac", Ok(b"garbage".to_vec())),
        entry("/d/3.flac", Ok(flac_bytes(96000, 10, &[("TITLE", "Three")]))),
        entry("/d/4.flac", Err("permission denied".to_string())),
        entry("/d/5.flac", Ok(Vec::new())),
        entry("/d/6.flac", Ok(flac_bytes(8000, 0, &[]))),
    ];
    let out = scan_entries(&entries, CoverPolicy::DemoPlaceholder);
    assert_eq!(out.tracks.len(), 3);
    let paths: Vec<&str> = out.tracks.iter().map(|t| t.path.as_str()).collect();
    assert_eq!(paths, vec!["/d/1.flac", "/d/3.flac", "/d/6.flac"]);
    assert_eq!(out.tracks[1].title, "Three");
    let skipped: Vec<&str> = out.skipped.iter().map(|s| s.path.as_str()).collect();
    assert_eq!(skipped, vec!["/d/2.flac", "/d/4.flac", "/d/5.flac"]);
    assert!(matches!(out.skipped[1].reason, TrackError::Io(_)));
    assert!(matches!(out.skipped[0].reason, TrackError::Format(_)));
}

#[test]
fn scan_without_matching_files_is_empty() {
    let entries = vec![entry("/d/readme.md", Ok(b"x".to_vec())), entry("/d/cover.jpg", Err("io".to_string()))];
    let out = scan_entries(&entries, CoverPolicy::NoArtwork);
    assert!(out.tracks.is_empty());
    assert!(out.skipped.is_empty());
    let none = scan_entries(&Vec::new(), CoverPolicy::NoArtwork);
    assert!(none.tracks.is_empty());
}

#[test]
fn scan_step_one_entry_at_a_time() {
    let mut out = ScanOutcome::new();
    scan_step(&mut out, &entry("x.txt", Ok(flac_bytes(44100, 1, &[]))), CoverPolicy::NoArtwork);
    assert!(out.tracks.is_empty() && out.skipped.is_empty());
    scan_step(&mut out, &entry("y.flac", Ok(flac_bytes(44100, 1, &[]))), CoverPolicy::NoArtwork);
    scan_step(&mut out, &entry("z.flac", Ok(b"zz".to_vec())), CoverPolicy::NoArtwork);
    assert_eq!(out.tracks.len(), 1);
    assert_eq!(out.tracks[0].title, "y");
    assert_eq!(out.skipped.len(), 1);
    assert_eq!(out.skipped[0].path, "z.flac");
}

#[test]
fn base64_known_values() {
    assert_eq!(encode_base64(b"Man"), "TWFu");
    assert_eq!(encode_base64(b"Ma"), "TWE=");
    assert_eq!(encode_base64(b"M"), "TQ==");
    assert_eq!(encode_base64(b""), "");
}

#[test]
fn base64_round_trip() {
    let big: Vec<u8> = (0..(1024 * 1024 + 7)).map(|i: u32| (i.wrapping_mul(2654435761) >> 13) as u8).collect();
    for bytes in [Vec::new(), vec![0xffu8], big] {
        let text = encode_base64(&bytes);
        assert_eq!(text.len(), (bytes.len() + 2) / 3 * 4);
        let back = base64::engine::general_purpose::STANDARD.decode(text.as_bytes()).unwrap();
        assert_eq!(back, bytes);
    }
}
