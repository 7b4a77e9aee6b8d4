use rmpr::config::{Colors, ConfigData, Controls, Directories};
use rmpr::engine::{LoadError, SinkEngine};
use rmpr::metadata::{is_playable, reads_tags, FileMetadata, TagFields};
use rmpr::text::{decimal_string, signed_decimal_string, two_digit_string};
use rmpr::tracks::{sort_by_track, Track};
use rmpr::ui::{
    cursor_down, cursor_up, format_display_path, is_running, playlist_status, position_display,
    transport_status, State,
};

fn meta(title: Option<&str>, name: Option<&str>) -> FileMetadata {
    let mut m = FileMetadata::new();
    m.title = title.map(|s| s.to_string());
    m.raw_file = name.map(|s| s.to_string());
    m
}

#[test]
fn decimal_formatting() {
    assert_eq!(decimal_string(0), "0");
    assert_eq!(decimal_string(7), "7");
    assert_eq!(decimal_string(1234567890), "1234567890");
    assert_eq!(decimal_string(u64::MAX), "18446744073709551615");
    assert_eq!(signed_decimal_string(-42), "-42");
    assert_eq!(signed_decimal_string(i32::MIN), "-2147483648");
    assert_eq!(two_digit_string(5), "05");
    assert_eq!(two_digit_string(59), "59");
}

#[test]
fn metadata_displays() {
    let mut m = FileMetadata::new();
    assert_eq!(m.display_title(), "");
    assert_eq!(m.display_year(), "");
    assert_eq!(m.display_duration_display(), "");
    m.raw_file = Some("song.flac".to_string());
    assert_eq!(m.display_title(), "song.flac");
    m.title = Some("Song".to_string());
    assert_eq!(m.display_title(), "Song");
    m.year = Some(1999);
    assert_eq!(m.display_year(), "1999");
    m.track_number = Some(12);
    assert_eq!(m.display_track_number(), "12");
    m.duration_as_secs = Some(185);
    assert_eq!(m.display_duration_display(), "3:05");
    m.duration_as_secs = Some(3600);
    assert_eq!(m.display_duration_display(), "60:00");
    m.album = Some("LP".to_string());
    m.artist = Some("Band".to_string());
    assert_eq!(m.display_album(), "LP");
    assert_eq!(m.display_artist(), "Band");
    assert_eq!(FileMetadata::sec_to_min_sec(125), (2, 5));
    assert_eq!(meta(None, None).display_artist(), "");
}

#[test]
fn probing_uses_tags_only_for_tagged_extensions() {
    let tags = TagFields {
        title: Some("T".to_string()),
        artist: None,
        album: None,
        year: None,
        duration_secs: Some(10),
        track_number: Some(4),
    };
    let path = "/m/a.FLAC".to_string();
    let m = FileMetadata::probed(
        &path,
        Some("a.FLAC".to_string()),
        Some("FLAC".to_string()),
        Some(tags.clone()),
    );
    assert_eq!(m.display_title(), "T");
    assert_eq!(m.track_number, Some(4));
    let wav = "/m/b.wav".to_string();
    let w = FileMetadata::probed(&wav, Some("b.wav".to_string()), Some("wav".to_string()), Some(tags));
    assert_eq!(w.display_title(), "b.wav");
    assert_eq!(w.track_number, None);
    let unreadable = FileMetadata::probed(&path, Some("a.FLAC".to_string()), Some("flac".to_string()), None);
    assert_eq!(unreadable.display_title(), "a.FLAC");
    assert_eq!(unreadable.source_path, path);
    let bare = FileMetadata::probed(&path, Some("x".to_string()), None, None);
    assert_eq!(bare.raw_file, Some("x".to_string()));
    assert_eq!(bare.display_title(), "x");
}

#[test]
fn failed_probe_clears_earlier_tags() {
    let path = "/m/a.mp3".to_string();
    let mut m = FileMetadata::new();
    m.title = Some("Old".to_string());
    m.album = Some("Old album".to_string());
    m.track_number = Some(9);
    m.duration_as_secs = Some(60);
    m.get_file_data(&path, Some("a.mp3".to_string()), Some("mp3".to_string()), None);
    assert_eq!(m.title, None);
    assert_eq!(m.album, None);
    assert_eq!(m.track_number, None);
    assert_eq!(m.duration_as_secs, None);
    assert_eq!(m.display_title(), "a.mp3");
    let mut n = FileMetadata::new();
    n.get_file_data(&"/m/README".to_string(), Some("README".to_string()), None, None);
    assert_eq!(n.display_title(), "README");
}

#[test]
fn extensions_match_ignoring_case() {
    assert!(is_playable("flac"));
    assert!(is_playable("MP3"));
    assert!(is_playable("Wav"));
    assert!(!is_playable("m4a"));
    assert!(!is_playable("flacc"));
    assert!(!is_playable(""));
    assert!(reads_tags("M4A"));
    assert!(reads_tags("mp4"));
    assert!(!reads_tags("wav"));
}

#[test]
fn sort_is_stable_by_track_number() {
    let mk = |p: &str, n: Option<u16>| {
        let mut m = FileMetadata::new();
        m.track_number = n;
        Track { path: p.to_string(), metadata: m }
    };
    let v = vec![mk("c", Some(3)), mk("a1", Some(1)), mk("z", None), mk("a2", Some(1)), mk("b", Some(2))];
    let r: Vec<String> = sort_by_track(v).into_iter().map(|t| t.path).collect();
    assert_eq!(r, vec!["z", "a1", "a2", "b", "c"]);
    assert!(sort_by_track(Vec::new()).is_empty());
}

#[test]
fn engine_state_machine() {
    let mut e = SinkEngine::new();
    assert!(e.is_empty());
    assert_eq!(e.length(), 0);
    let g0 = e.generation;
    assert!(e.is_current(g0));
    let a = "/a".to_string();
    let b = "/b".to_string();
    assert!(matches!(e.load_and_play(&a, 50, Err(LoadError::Decode)), Err(LoadError::Decode)));
    assert!(e.active.is_none());
    assert!(e.append(&a, 50, Ok(())).is_ok());
    assert_eq!(e.length(), 1);
    assert!(!e.is_current(g0));
    let g1 = e.generation;
    assert!(e.append(&b, 40, Ok(())).is_ok());
    assert_eq!(e.length(), 2);
    assert!(e.is_current(g1));
    e.source_finished();
    assert_eq!(e.active.as_ref().unwrap().sources, vec![b.clone()]);
    e.source_finished();
    assert_eq!(e.length(), 0);
    // A source decoded while the sink ran empty is dropped.
    assert!(e.append(&a, 40, Ok(())).is_ok());
    assert_eq!(e.length(), 0);
    e.toggle_play_pause();
    assert!(e.is_paused());
    e.set_volume(70);
    e.set_speed(150);
    assert_eq!(e.speed(), 150);
    assert_eq!(e.active.as_ref().unwrap().volume, 70);
    e.clear();
    assert!(!e.is_current(g1));
    assert!(e.is_paused());
    assert!(e.active.is_some());
}

#[test]
fn engine_without_sink_ignores_controls() {
    let mut e = SinkEngine::new();
    e.toggle_play_pause();
    e.set_volume(10);
    e.set_speed(50);
    e.clear();
    assert!(e.active.is_none());
    assert!(!e.is_paused());
    assert_eq!(e.speed(), 100);
}

#[test]
fn ui_texts() {
    assert_eq!(playlist_status(0), "playlist is empty");
    assert_eq!(playlist_status(1), "playlist (1 item)");
    assert_eq!(playlist_status(12), "playlist (12 items)");
    assert_eq!(transport_status(true, true), "stopped");
    assert_eq!(transport_status(false, true), "paused");
    assert_eq!(transport_status(false, false), "playing");
    let mut m = FileMetadata::new();
    m.duration_as_secs = Some(245);
    assert_eq!(position_display(65, &m), "1:05/4:05");
    assert!(is_running(State::Running));
    assert!(!is_running(State::Quit));
}

#[test]
fn display_path_shortens_home() {
    let home = Some("/home/user".to_string());
    assert_eq!(format_display_path(&"/home/user/Music".to_string(), &home), "~/Music");
    assert_eq!(format_display_path(&"/home/user".to_string(), &home), "~");
    assert_eq!(format_display_path(&"/srv/music".to_string(), &home), "/srv/music");
    assert_eq!(format_display_path(&"/home".to_string(), &home), "/home");
    assert_eq!(format_display_path(&"/home/user/x".to_string(), &None), "/home/user/x");
}

#[test]
fn cursor_wraps_around() {
    assert_eq!(cursor_up(0, 3), 2);
    assert_eq!(cursor_up(2, 3), 1);
    assert_eq!(cursor_down(2, 3), 0);
    assert_eq!(cursor_down(0, 3), 1);
    assert_eq!(cursor_up(0, 0), 0);
    assert_eq!(cursor_down(4, 0), 4);
}

#[test]
fn config_defaults() {
    let c = Colors::default();
    assert_eq!(c.album, "#00FF00");
    assert_eq!(c.fs_directory, "#598EFF");
    assert_eq!(c.track_num, "#FF00FF");
    assert_eq!(Controls::default().vol_delta, 2);
    let d = ConfigData::default();
    assert_eq!(d.colors.title, "#FFFF00");
    assert_eq!(d.controls.vol_delta, 2);
}

#[test]
fn music_directory_under_home() {
    let d = Directories::under_home(Some("/home/user".to_string()));
    assert_eq!(d.music_directory, "/home/user/Music");
    let d = Directories::under_home(Some("/home/user/".to_string()));
    assert_eq!(d.music_directory, "/home/user/Music");
    assert_eq!(Directories::under_home(None).music_directory, "");
    let odd = Directories::under_home(Some("//?/odd".to_string()));
    assert!(odd.music_directory.ends_with("Music"));
    let d = Directories::default();
    assert!(d.music_directory.is_empty() || d.music_directory.ends_with("Music"));
}
