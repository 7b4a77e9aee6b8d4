use rmpr::engine::{LoadError, SinkCommand};
use rmpr::metadata::{FileMetadata, TagFields};
use rmpr::player::{App, Request, Selection};
use rmpr::tracks::Candidate;

fn tags(title: &str, track: Option<u16>) -> TagFields {
    TagFields {
        title: Some(title.to_string()),
        artist: Some("Artist".to_string()),
        album: Some("Album".to_string()),
        year: Some(2001),
        duration_secs: Some(185),
        track_number: track,
    }
}

fn candidate(path: &str, ext: &str, title: &str, track: Option<u16>) -> Candidate {
    let path = path.to_string();
    let name = path.rsplit('/').next().unwrap().to_string();
    let metadata = FileMetadata::probed(
        &path,
        Some(name),
        Some(ext.to_string()),
        Some(tags(title, track)),
    );
    Candidate {
        path,
        extension: Some(ext.to_string()),
        metadata,
        load: Ok(()),
    }
}

fn file(path: &str, title: &str) -> Selection {
    Selection::File(candidate(path, "flac", title, None))
}

fn command_names(cmds: &[SinkCommand]) -> Vec<String> {
    cmds.iter()
        .map(|c| match c {
            SinkCommand::LoadAndPlay(p) => format!("load {}", p),
            SinkCommand::Append(p) => format!("append {}", p),
            SinkCommand::Clear => "clear".to_string(),
        })
        .collect()
}

fn queue_of(app: &App) -> Vec<String> {
    app.path_queue()
}

fn queue_abc() -> App {
    let mut app = App::new();
    app.handle_play(file("/m/a.flac", "A")).unwrap();
    app.handle_append(file("/m/b.flac", "B")).unwrap();
    app.handle_append(file("/m/c.flac", "C")).unwrap();
    app
}

#[test]
fn play_single_file_on_empty_state() {
    let mut app = App::new();
    let cmds = app.handle_play(file("/m/x.flac", "Title X")).unwrap();
    assert_eq!(queue_of(&app), vec!["/m/x.flac".to_string()]);
    assert_eq!(app.engine().length(), 1);
    assert_eq!(app.current_metadata().display_title(), "Title X");
    assert_eq!(command_names(&cmds), vec!["load /m/x.flac"]);
}

#[test]
fn play_directory_sorts_by_track_number() {
    let mut app = App::new();
    let dir = vec![
        candidate("/m/d/t2.flac", "flac", "T2", Some(2)),
        candidate("/m/d/t1.flac", "flac", "T1", Some(1)),
        candidate("/m/d/t3.flac", "flac", "T3", Some(3)),
    ];
    let cmds = app.handle_play(Selection::Directory(dir)).unwrap();
    assert_eq!(
        queue_of(&app),
        vec!["/m/d/t1.flac", "/m/d/t2.flac", "/m/d/t3.flac"]
    );
    assert_eq!(
        command_names(&cmds),
        vec!["load /m/d/t1.flac", "append /m/d/t2.flac", "append /m/d/t3.flac"]
    );
    assert_eq!(app.engine().length(), 3);
    assert_eq!(app.current_metadata().display_title(), "T1");
}

#[test]
fn directory_without_track_numbers_keeps_scan_order_first() {
    let mut app = App::new();
    let dir = vec![
        candidate("/m/d/b.flac", "flac", "B", Some(1)),
        candidate("/m/d/x.mp3", "mp3", "X", None),
        candidate("/m/d/a.flac", "flac", "A", Some(1)),
        candidate("/m/d/y.wav", "wav", "Y", None),
    ];
    app.handle_play(Selection::Directory(dir)).unwrap();
    assert_eq!(
        queue_of(&app),
        vec!["/m/d/x.mp3", "/m/d/y.wav", "/m/d/b.flac", "/m/d/a.flac"]
    );
}

#[test]
fn directory_skips_unplayable_and_undecodable_files() {
    let mut app = App::new();
    let mut bad = candidate("/m/d/bad.flac", "flac", "Bad", Some(1));
    bad.load = Err(LoadError::Decode);
    let dir = vec![
        candidate("/m/d/notes.txt", "txt", "Notes", Some(0)),
        bad,
        candidate("/m/d/good.flac", "flac", "Good", Some(2)),
    ];
    app.handle_play(Selection::Directory(dir)).unwrap();
    assert_eq!(queue_of(&app), vec!["/m/d/good.flac"]);
}

#[test]
fn skip_reloads_rest_of_queue() {
    let mut app = queue_abc();
    assert_eq!(app.engine().length(), 3);
    let cmds = app.handle_skip();
    assert_eq!(queue_of(&app), vec!["/m/b.flac", "/m/c.flac"]);
    assert_eq!(
        command_names(&cmds),
        vec!["clear", "load /m/b.flac", "append /m/c.flac"]
    );
    assert_eq!(app.engine().length(), 2);
    assert_eq!(app.current_metadata().display_title(), "B");
}

#[test]
fn skip_last_track_leaves_sink_cleared() {
    let mut app = App::new();
    app.handle_play(file("/m/a.flac", "A")).unwrap();
    let cmds = app.handle_skip();
    assert_eq!(command_names(&cmds), vec!["clear"]);
    assert_eq!(app.queue_depth(), 0);
    assert_eq!(app.engine().length(), 0);
    assert_eq!(app.current_metadata().display_title(), "");
}

#[test]
fn append_to_empty_engine_behaves_as_play() {
    let mut a = App::new();
    let mut b = App::new();
    let ca = a.handle_append(file("/m/y.flac", "Y")).unwrap();
    let cb = b.handle_play(file("/m/y.flac", "Y")).unwrap();
    assert_eq!(queue_of(&a), queue_of(&b));
    assert_eq!(command_names(&ca), command_names(&cb));
    assert_eq!(a.engine().length(), b.engine().length());
    assert_eq!(
        a.current_metadata().display_title(),
        b.current_metadata().display_title()
    );
}

#[test]
fn append_directory_to_empty_engine_behaves_as_play() {
    let dir = || {
        vec![
            candidate("/m/d/t2.flac", "flac", "T2", Some(2)),
            candidate("/m/d/t1.flac", "flac", "T1", Some(1)),
        ]
    };
    let mut a = App::new();
    let mut b = App::new();
    let ca = a.handle_append(Selection::Directory(dir())).unwrap();
    let cb = b.handle_play(Selection::Directory(dir())).unwrap();
    assert_eq!(queue_of(&a), queue_of(&b));
    assert_eq!(command_names(&ca), command_names(&cb));
}

#[test]
fn decode_failure_on_play_changes_nothing() {
    let mut app = queue_abc();
    let before = queue_of(&app);
    let mut corrupt = candidate("/m/corrupt.flac", "flac", "Corrupt", None);
    corrupt.load = Err(LoadError::Decode);
    let r = app.handle_play(Selection::File(corrupt));
    assert!(matches!(r, Err(LoadError::Decode)));
    assert_eq!(queue_of(&app), before);
    assert_eq!(app.engine().length(), 3);
    assert_eq!(app.current_metadata().display_title(), "A");
}

#[test]
fn open_failure_on_append_is_reported() {
    let mut app = queue_abc();
    let mut missing = candidate("/m/missing.mp3", "mp3", "Missing", None);
    missing.load = Err(LoadError::FileOpen);
    let r = app.handle_append(Selection::File(missing));
    assert!(matches!(r, Err(LoadError::FileOpen)));
    assert_eq!(app.queue_depth(), 3);
}

#[test]
fn play_on_busy_engine_puts_file_first_and_rebuilds_sink() {
    let mut app = queue_abc();
    let cmds = app.handle_play(file("/m/z.mp3", "Z")).unwrap();
    assert_eq!(
        queue_of(&app),
        vec!["/m/z.mp3", "/m/a.flac", "/m/b.flac", "/m/c.flac"]
    );
    assert_eq!(
        command_names(&cmds),
        vec![
            "load /m/z.mp3",
            "append /m/a.flac",
            "append /m/b.flac",
            "append /m/c.flac"
        ]
    );
    assert_eq!(app.current_metadata().display_title(), "Z");
}

#[test]
fn unplayable_selection_is_ignored() {
    let mut app = queue_abc();
    let cmds = app
        .handle_play(Selection::File(candidate("/m/cover.jpg", "jpg", "Cover", None)))
        .unwrap();
    assert!(cmds.is_empty());
    assert_eq!(app.queue_depth(), 3);
}

#[test]
fn queue_and_metadata_stay_in_lockstep() {
    let mut app = App::new();
    let check = |app: &App| {
        let paths = app.path_queue();
        let metas = app.metadata_sequence();
        assert_eq!(paths.len(), metas.len());
        for (p, m) in paths.iter().zip(metas.iter()) {
            assert_eq!(p, &m.source_path);
        }
        assert_eq!(app.engine().length(), paths.len());
    };
    app.handle_play(file("/m/a.flac", "A")).unwrap();
    check(&app);
    app.handle_append(file("/m/b.flac", "B")).unwrap();
    check(&app);
    app.handle_play(Selection::Directory(vec![
        candidate("/m/d/2.flac", "flac", "2", Some(2)),
        candidate("/m/d/1.flac", "flac", "1", Some(1)),
    ]))
    .unwrap();
    check(&app);
    app.handle_skip();
    check(&app);
    app.clear();
    check(&app);
    app.handle_skip();
    check(&app);
}

#[test]
fn skip_moves_second_track_to_front_with_its_metadata() {
    let mut app = queue_abc();
    let second = app.path_queue()[1].clone();
    app.handle_skip();
    assert_eq!(app.path_queue()[0], second);
    assert_eq!(app.current_metadata().source_path, second);
    assert_eq!(app.current_metadata().display_title(), "B");
}

#[test]
fn clear_twice_leaves_everything_empty() {
    let mut app = queue_abc();
    let c1 = app.clear();
    assert_eq!(command_names(&c1), vec!["clear"]);
    assert_eq!(app.queue_depth(), 0);
    assert_eq!(app.engine().length(), 0);
    app.clear();
    assert_eq!(app.queue_depth(), 0);
    assert_eq!(app.engine().length(), 0);
    assert!(app.is_paused());
}

#[test]
fn skip_on_empty_queue_is_a_no_op() {
    let mut app = App::new();
    let cmds = app.handle_skip();
    assert!(cmds.is_empty());
    assert_eq!(app.queue_depth(), 0);
    assert_eq!(app.engine().length(), 0);
}

#[test]
fn append_directory_without_playable_files_keeps_queue() {
    let mut app = queue_abc();
    let before = app.path_queue();
    let dir = vec![
        candidate("/m/d/readme.txt", "txt", "Readme", None),
        candidate("/m/d/cover.png", "png", "Cover", None),
    ];
    let cmds = app.handle_append(Selection::Directory(dir)).unwrap();
    assert!(cmds.is_empty());
    assert_eq!(app.path_queue(), before);
    assert_eq!(app.engine().length(), 3);
}

#[test]
fn append_directory_to_busy_engine_appends_sorted() {
    let mut app = queue_abc();
    let dir = vec![
        candidate("/m/d/t2.flac", "flac", "T2", Some(2)),
        candidate("/m/d/t1.flac", "flac", "T1", Some(1)),
    ];
    let cmds = app.handle_append(Selection::Directory(dir)).unwrap();
    assert_eq!(
        command_names(&cmds),
        vec!["append /m/d/t1.flac", "append /m/d/t2.flac"]
    );
    assert_eq!(app.queue_depth(), 5);
    assert_eq!(app.engine().length(), 5);
}

#[test]
fn natural_track_end_advances_queue() {
    let mut app = queue_abc();
    app.track_finished();
    assert_eq!(queue_of(&app), vec!["/m/b.flac", "/m/c.flac"]);
    assert_eq!(app.engine().length(), 2);
    assert_eq!(app.current_metadata().display_title(), "B");
}

#[test]
fn cached_metadata_is_reused() {
    let mut app = App::new();
    app.handle_play(file("/m/a.flac", "First")).unwrap();
    // A second probe of the same file is not taken: the cache answers.
    app.handle_append(file("/m/a.flac", "Second")).unwrap();
    let metas = app.metadata_sequence();
    assert_eq!(metas[1].display_title(), "First");
    assert_eq!(
        app.cached(&"/m/a.flac".to_string()).unwrap().display_title(),
        "First"
    );
    assert!(app.cached(&"/m/other.flac".to_string()).is_none());
}

#[test]
fn volume_mute_and_speed_controls() {
    let mut app = App::new();
    assert_eq!(app.volume(), 100);
    app.adjust_volume(5);
    assert_eq!(app.volume(), 100);
    app.adjust_volume(-2);
    assert_eq!(app.volume(), 98);
    app.handle_play(file("/m/a.flac", "A")).unwrap();
    assert_eq!(app.engine().active.as_ref().unwrap().volume, 98);
    app.toggle_mute();
    assert!(app.is_muted());
    assert_eq!(app.engine().active.as_ref().unwrap().volume, 0);
    app.toggle_mute();
    assert!(!app.is_muted());
    assert_eq!(app.engine().active.as_ref().unwrap().volume, 98);
    app.toggle_mute();
    // A step while muted ends the mute and sets the sink to the new volume.
    app.adjust_volume(-8);
    assert_eq!(app.volume(), 90);
    assert!(!app.is_muted());
    assert_eq!(app.engine().active.as_ref().unwrap().volume, 90);
    // A step out of range leaves the mute on.
    app.toggle_mute();
    app.adjust_volume(20);
    assert_eq!(app.volume(), 90);
    assert!(app.is_muted());
    assert_eq!(app.engine().active.as_ref().unwrap().volume, 0);
    app.toggle_mute();
    assert_eq!(app.speed(), 100);
    app.adjust_speed(50);
    assert_eq!(app.speed(), 150);
    app.adjust_speed(60);
    assert_eq!(app.speed(), 150);
    app.adjust_speed(-125);
    assert_eq!(app.speed(), 25);
    app.reset_speed();
    assert_eq!(app.speed(), 100);
    assert!(!app.is_paused());
    app.toggle_pause();
    assert!(app.is_paused());
}

#[test]
fn stale_load_is_dropped() {
    let mut app = queue_abc();
    let started = app.engine().generation;
    app.clear();
    let r = app.apply_loaded(Request::Play, started, file("/m/late.flac", "Late"));
    assert!(r.is_none());
    assert_eq!(app.queue_depth(), 0);
    assert_eq!(app.engine().length(), 0);
}

#[test]
fn current_load_is_applied() {
    let mut app = queue_abc();
    let started = app.engine().generation;
    let r = app.apply_loaded(Request::Append, started, file("/m/d.flac", "D"));
    let cmds = r.unwrap().unwrap();
    assert_eq!(command_names(&cmds), vec!["append /m/d.flac"]);
    assert_eq!(app.queue_depth(), 4);
    let started = app.engine().generation;
    let r = app.apply_loaded(Request::Play, started, file("/m/e.flac", "E"));
    assert!(r.unwrap().is_ok());
    assert_eq!(app.current_metadata().display_title(), "E");
}

#[test]
fn sink_plays_at_volume_setting() {
    let mut app = App::new();
    app.adjust_volume(-30);
    app.handle_play(file("/m/a.flac", "A")).unwrap();
    assert_eq!(app.engine().active.as_ref().unwrap().volume, 70);
    app.adjust_volume(0);
    assert_eq!(app.engine().active.as_ref().unwrap().volume, 70);
    app.handle_append(file("/m/b.flac", "B")).unwrap();
    assert_eq!(app.engine().active.as_ref().unwrap().volume, 70);
    app.handle_skip();
    assert_eq!(app.engine().active.as_ref().unwrap().volume, 70);
}

#[test]
fn finished_tracks_are_retired_by_device_length() {
    let mut app = queue_abc();
    app.retire_finished(3);
    assert_eq!(app.queue_depth(), 3);
    app.retire_finished(1);
    assert_eq!(queue_of(&app), vec!["/m/c.flac"]);
    assert_eq!(app.engine().length(), 1);
    assert_eq!(app.current_metadata().display_title(), "C");
    app.retire_finished(0);
    assert_eq!(app.queue_depth(), 0);
    assert_eq!(app.engine().length(), 0);
}

#[test]
fn drained_device_gets_queue_reloaded() {
    let mut app = queue_abc();
    assert!(app.reload_if_drained(3).is_empty());
    let before = app.engine().generation;
    let cmds = app.reload_if_drained(0);
    assert_eq!(
        command_names(&cmds),
        vec!["load /m/a.flac", "append /m/b.flac", "append /m/c.flac"]
    );
    assert_eq!(app.queue_depth(), 3);
    assert_ne!(app.engine().generation, before);
    let mut empty = App::new();
    assert!(empty.reload_if_drained(0).is_empty());
}
