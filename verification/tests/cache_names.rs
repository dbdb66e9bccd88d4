use qobine::downloader::{cache_path, expand_tilde, expand_tilde_with, guess_extension, sanitize_name, DownloadAction, DownloadEvent, DownloadPhase, Downloader};
use qobine::models::Track;

fn track() -> Track {
    Track {
        id: 7,
        title: "Song: Part 1".to_string(),
        number: 3,
        duration_seconds: 200,
        artist_name: Some("AC/DC".to_string()),
        artist_id: Some(42),
        album_title: Some("Back in Black".to_string()),
        album_id: Some("abc".to_string()),
    }
}

#[test]
fn reserved_characters_become_underscores() {
    assert_eq!(sanitize_name("AC/DC"), "AC_DC");
    assert_eq!(sanitize_name("a<b>c|d?e*f\"g\\h:i"), "a_b_c_d_e_f_g_h_i");
    assert_eq!(sanitize_name("tab\there"), "tab_here");
    assert_eq!(sanitize_name("nul\0x"), "nul_x");
}

#[test]
fn spaces_and_dots_are_trimmed() {
    assert_eq!(sanitize_name("  .hidden. "), "hidden");
    assert_eq!(sanitize_name("a. b"), "a._b");
}

#[test]
fn underscore_runs_collapse() {
    assert_eq!(sanitize_name("a  b"), "a_b");
    assert_eq!(sanitize_name("a _ b"), "a_b");
    assert_eq!(sanitize_name("x//y"), "x_y");
}

#[test]
fn empty_names_become_unknown() {
    assert_eq!(sanitize_name(""), "unknown");
    assert_eq!(sanitize_name(" ... "), "unknown");
}

#[test]
fn long_names_are_cut() {
    let long = "x".repeat(150);
    assert_eq!(sanitize_name(&long), "x".repeat(100));
}

#[test]
fn sanitized_names_are_safe() {
    let inputs = ["  a / b \\ c  ", "\u{7f}\u{85}é", "..", "a__b", "...x...", "é è"];
    for input in inputs {
        let out = sanitize_name(input);
        assert!(!out.is_empty() && out.chars().count() <= 100);
        assert!(!out.contains("__"));
        assert!(out.chars().all(|c| !"/\\:*?\"<>|\0 ".contains(c) && !c.is_control()));
    }
}

#[test]
fn extensions_follow_the_mime_type() {
    assert_eq!(guess_extension("audio/flac"), "flac");
    assert_eq!(guess_extension("audio/x-flac"), "flac");
    assert_eq!(guess_extension("audio/mpeg"), "mp3");
    assert_eq!(guess_extension("audio/mp3"), "mp3");
    assert_eq!(guess_extension("audio/ogg"), "unknown");
    assert_eq!(guess_extension(""), "unknown");
}

#[test]
fn cache_path_layout() {
    assert_eq!(
        cache_path(&track(), "audio/flac", Some(44100), "/cache"),
        "/cache/AC_DC (42)/Back_in_Black (abc)/3_Song_Part_1_44100.flac"
    );
    assert_eq!(
        cache_path(&track(), "audio/mpeg", None, "/cache/"),
        "/cache/AC_DC (42)/Back_in_Black (abc)/3_Song_Part_1.mp3"
    );
}

#[test]
fn cache_path_with_missing_fields() {
    let t = Track {
        id: 1,
        title: "".to_string(),
        number: 12,
        duration_seconds: 0,
        artist_name: None,
        artist_id: None,
        album_title: None,
        album_id: None,
    };
    assert_eq!(
        cache_path(&t, "x", None, "d"),
        "d/unknown (unknown)/unknown (unknown)/12_unknown.unknown"
    );
}

#[test]
fn tilde_expansion() {
    let home: &[u8] = b"/home/u";
    assert_eq!(expand_tilde_with("~/music", Some(home)), b"/home/u/music");
    assert_eq!(expand_tilde_with("~/~/music", Some(home)), b"/home/u/music");
    assert_eq!(expand_tilde_with("~", Some(home)), b"/home/u/~");
    assert_eq!(expand_tilde_with("~/music", None), b"~/music");
    assert_eq!(expand_tilde_with("/var/cache", Some(home)), b"/var/cache");
    assert_eq!(expand_tilde_with("~user/x", Some(home)), b"~user/x");
    assert_eq!(expand_tilde_with("~/é", Some(b"/".as_slice())), "/é".as_bytes());
    assert_eq!(expand_tilde("/var/cache"), b"/var/cache");
}

#[test]
fn home_directories_keep_their_raw_bytes() {
    let home: &[u8] = b"/home/\xff\xfe";
    assert_eq!(expand_tilde_with("~/music", Some(home)), b"/home/\xff\xfe/music");
    assert_eq!(expand_tilde_with("~/music", Some(b"/home/u/".as_slice())), b"/home/u/music");
}

#[test]
fn downloader_directory() {
    let mut d = Downloader::new("/var/cache/music");
    assert_eq!(d.audio_cache_directory(), b"/var/cache/music");
    d.set_audio_cache_dir(b"/data/\xff".to_vec());
    assert_eq!(d.audio_cache_directory(), b"/data/\xff");
    assert_eq!(
        d.track_cache_path(&track(), "audio/flac", None),
        b"/data/\xff/AC_DC (42)/Back_in_Black (abc)/3_Song_Part_1.flac"
    );
    d.set_audio_cache_dir(b"~/elsewhere".to_vec());
    assert_eq!(
        d.track_cache_path(&track(), "audio/flac", None),
        b"~/elsewhere/AC_DC (42)/Back_in_Black (abc)/3_Song_Part_1.flac"
    );
    d.set_audio_cache_dir(Vec::new());
    assert_eq!(
        d.track_cache_path(&track(), "audio/flac", None),
        b"AC_DC (42)/Back_in_Black (abc)/3_Song_Part_1.flac"
    );
}

#[test]
fn sanitizing_twice_changes_nothing() {
    for name in ["AC/DC", "  .hidden. ", "a  __ b", "", "tab\there", "x. y"] {
        let once = sanitize_name(name);
        assert_eq!(sanitize_name(&once), once);
    }
    let cut = format!("{}.b", "a".repeat(99));
    let once = sanitize_name(&cut);
    assert!(once.ends_with('.'));
    assert_eq!(sanitize_name(&once), "a".repeat(99));
}

#[test]
fn cached_tracks_are_played_from_disk() {
    let d = Downloader::new("/cache");
    let t = track();
    let (p, a) = d.download_step(&t, DownloadPhase::Start, DownloadEvent::Begin);
    assert_eq!(a, DownloadAction::AskStreamingMode);
    let (p, a) = d.download_step(&t, p, DownloadEvent::Mode { file_based: false });
    assert_eq!(a, DownloadAction::FetchStreamingInfo { track_id: 7 });
    let info = DownloadEvent::StreamingInfo { mime_type: "audio/flac".to_string(), sampling_rate: Some(44100) };
    let (p, a) = d.download_step(&t, p, info);
    let path = b"/cache/AC_DC (42)/Back_in_Black (abc)/3_Song_Part_1_44100.flac".to_vec();
    assert_eq!(a, DownloadAction::RecordCacheEntry { path: path.clone() });
    let (p, a) = d.download_step(&t, p, DownloadEvent::Recorded);
    assert_eq!(a, DownloadAction::CheckExists { path: path.clone() });
    let (p, a) = d.download_step(&t, p, DownloadEvent::Exists(true));
    assert_eq!(a, DownloadAction::PlayCached { path });
    assert_eq!(p, DownloadPhase::Done);
    let (p, a) = d.download_step(&t, p, DownloadEvent::Recorded);
    assert_eq!((p, a), (DownloadPhase::Done, DownloadAction::Wait));
}

#[test]
fn missing_files_are_streamed_by_url() {
    let d = Downloader::new("/cache");
    let t = track();
    let (p, _) = d.download_step(&t, DownloadPhase::AwaitMode, DownloadEvent::Mode { file_based: true });
    assert_eq!(p, DownloadPhase::AwaitInfo { file_based: true });
    let wrong = DownloadEvent::StreamingInfo { mime_type: "audio/flac".to_string(), sampling_rate: None };
    let (p, a) = d.download_step(&t, p, wrong);
    assert_eq!(a, DownloadAction::Wait);
    let info = DownloadEvent::FileInfo { url: "https://x/y".to_string(), mime_type: "audio/mpeg".to_string(), sampling_rate: None };
    let (p, _) = d.download_step(&t, p, info);
    let (p, _) = d.download_step(&t, p, DownloadEvent::Recorded);
    let (p, a) = d.download_step(&t, p, DownloadEvent::Exists(false));
    assert_eq!(p, DownloadPhase::Done);
    assert_eq!(
        a,
        DownloadAction::StreamFromUrl {
            url: "https://x/y".to_string(),
            path: b"/cache/AC_DC (42)/Back_in_Black (abc)/3_Song_Part_1.mp3".to_vec()
        }
    );
}

#[test]
fn a_failure_ends_the_fetch() {
    let d = Downloader::new("/cache");
    let (p, a) = d.download_step(&track(), DownloadPhase::AwaitMode, DownloadEvent::Failed("offline".to_string()));
    assert_eq!((p, a), (DownloadPhase::Done, DownloadAction::Fail("offline".to_string())));
    let (p, a) = d.download_step(&track(), DownloadPhase::Start, DownloadEvent::Recorded);
    assert_eq!((p, a), (DownloadPhase::Start, DownloadAction::Wait));
}
