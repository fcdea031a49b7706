use wolfplayer::db::{empty_store, get_all_tracks, insert_track, track_count, TrackStore};
use wolfplayer::error::{CatalogError, MalformedReason};
use wolfplayer::models::VideoMetadata;
use wolfplayer::pipeline::{advance, next_action, start, Action, Event, Ingestion, Stage};
use wolfplayer::ytdlp::ToolOutcome;

fn ok_run(stdout: &str) -> ToolOutcome {
    ToolOutcome::Exited { success: true, stdout: stdout.as_bytes().to_vec(), stderr: Vec::new() }
}

fn failed_run(stderr: &str) -> ToolOutcome {
    ToolOutcome::Exited { success: false, stdout: Vec::new(), stderr: stderr.as_bytes().to_vec() }
}

const SONG_ONE: &str = r#"{"id":"abc123","title":"Song One","uploader":"Band","duration":185}"#;

fn ingest(store: &mut TrackStore, url: &str, document: &str, now: u64) -> Ingestion {
    let state = start(url, "music").unwrap();
    let state = advance(state, store, Event::FetchFinished(ok_run(document)), now);
    let state = advance(state, store, Event::DownloadFinished(ok_run("")), now);
    advance(state, store, Event::Stored, now)
}

#[test]
fn start_refuses_an_empty_url() {
    assert_eq!(start("", "music"), Err(CatalogError::InvalidInput));
}

#[test]
fn start_waits_for_the_metadata() {
    let state = start("https://example.com/v", "music").unwrap();
    assert_eq!(state.url, "https://example.com/v");
    assert_eq!(state.output_dir, "music");
    assert_eq!(state.stage, Stage::Fetching);
    assert_eq!(
        next_action(&state),
        Action::Fetch {
            arguments: vec![
                "--dump-json".to_string(),
                "--no-playlist".to_string(),
                "https://example.com/v".to_string(),
            ],
        }
    );
}

#[test]
fn song_one_is_ingested_once() {
    let mut store = empty_store();
    let done = ingest(&mut store, "https://example.com/watch?v=abc123", SONG_ONE, 1000);
    let listed = get_all_tracks(&store);
    assert_eq!(listed.len(), 1);
    assert_eq!(listed[0].id, "abc123");
    assert_eq!(listed[0].title, "Song One");
    assert_eq!(listed[0].file_path, "music/Song One.mp3");
    assert_eq!(listed[0].uploader, Some("Band".to_string()));
    assert_eq!(listed[0].duration, Some(185));
    assert_eq!(listed[0].added_at, 1000);
    assert_eq!(done.stage, Stage::Done { track: listed[0].clone() });

    let again = ingest(&mut store, "https://example.com/watch?v=abc123", SONG_ONE, 2000);
    assert_eq!(get_all_tracks(&store), listed);
    assert_eq!(again.stage, done.stage);
}

#[test]
fn a_second_ingestion_does_not_clobber_the_first() {
    let mut store = empty_store();
    ingest(&mut store, "u", SONG_ONE, 1000);
    let renamed = r#"{"id":"abc123","title":"Renamed","duration":1}"#;
    let again = ingest(&mut store, "u", renamed, 5000);
    let listed = get_all_tracks(&store);
    assert_eq!(listed.len(), 1);
    assert_eq!(listed[0].title, "Song One");
    assert_eq!(listed[0].file_path, "music/Song One.mp3");
    assert_eq!(listed[0].added_at, 1000);
    assert_eq!(again.stage, Stage::Done { track: listed[0].clone() });
}

#[test]
fn each_stage_asks_for_its_work() {
    let mut store = empty_store();
    let state = start("u", "music").unwrap();
    let state = advance(state, &mut store, Event::FetchFinished(ok_run(SONG_ONE)), 7);
    match &state.stage {
        Stage::Downloading { meta } => assert_eq!(meta.title, "Song One"),
        other => panic!("unexpected stage {:?}", other),
    }
    match next_action(&state) {
        Action::Download { arguments } => {
            assert_eq!(arguments[8], "music/Song One.%(ext)s");
            assert_eq!(arguments[9], "u");
            assert_eq!(arguments.len(), 10);
        }
        other => panic!("unexpected action {:?}", other),
    }
    let state = advance(state, &mut store, Event::DownloadFinished(ok_run("")), 7);
    match next_action(&state) {
        Action::Persist { row } => {
            assert_eq!(row.id, "abc123");
            assert_eq!(row.file_path, "music/Song One.mp3");
            assert_eq!(row.added_at, 7);
        }
        other => panic!("unexpected action {:?}", other),
    }
    assert_eq!(track_count(&store), 0);
    let state = advance(state, &mut store, Event::Stored, 9);
    assert_eq!(next_action(&state), Action::Stop);
    assert_eq!(track_count(&store), 1);
    assert_eq!(get_all_tracks(&store)[0].added_at, 7);
}

#[test]
fn a_failed_fetch_stores_nothing() {
    let mut store = empty_store();
    let state = start("u", "music").unwrap();
    let state = advance(state, &mut store, Event::FetchFinished(failed_run("ERROR: private")), 1);
    assert_eq!(
        state.stage,
        Stage::FetchFailed { error: CatalogError::ToolFailed("ERROR: private".to_string()) }
    );
    assert_eq!(next_action(&state), Action::Stop);
    let state = advance(state, &mut store, Event::DownloadFinished(ok_run("")), 2);
    let state = advance(state, &mut store, Event::Stored, 3);
    assert!(matches!(state.stage, Stage::FetchFailed { .. }));
    assert_eq!(track_count(&store), 0);
}

#[test]
fn a_malformed_document_fails_the_fetch() {
    let mut store = empty_store();
    let state = start("u", "music").unwrap();
    let state = advance(state, &mut store, Event::FetchFinished(ok_run("<html>")), 1);
    assert_eq!(
        state.stage,
        Stage::FetchFailed { error: CatalogError::MalformedResponse(MalformedReason::InvalidJson) }
    );
    assert_eq!(track_count(&store), 0);
}

#[test]
fn a_failed_download_stores_nothing() {
    let mut store = empty_store();
    let state = start("u", "music").unwrap();
    let state = advance(state, &mut store, Event::FetchFinished(ok_run(SONG_ONE)), 1);
    let state = advance(state, &mut store, Event::DownloadFinished(failed_run("disk full")), 2);
    assert_eq!(
        state.stage,
        Stage::DownloadFailed { error: CatalogError::DownloadFailed("disk full".to_string()) }
    );
    let state = advance(state, &mut store, Event::Stored, 3);
    assert!(matches!(state.stage, Stage::DownloadFailed { .. }));
    assert_eq!(get_all_tracks(&store).len(), 0);
}

#[test]
fn a_tool_that_cannot_start_is_unavailable_in_either_stage() {
    let mut store = empty_store();
    let gone = ToolOutcome::NotStarted { reason: "not found".to_string() };
    let state = start("u", "music").unwrap();
    let state = advance(state, &mut store, Event::FetchFinished(gone.clone()), 1);
    assert_eq!(
        state.stage,
        Stage::FetchFailed { error: CatalogError::ToolUnavailable("not found".to_string()) }
    );
    let state = start("u", "music").unwrap();
    let state = advance(state, &mut store, Event::FetchFinished(ok_run(SONG_ONE)), 1);
    let state = advance(state, &mut store, Event::DownloadFinished(gone), 1);
    assert_eq!(
        state.stage,
        Stage::DownloadFailed { error: CatalogError::ToolUnavailable("not found".to_string()) }
    );
    assert_eq!(track_count(&store), 0);
}

#[test]
fn a_failed_write_stores_nothing() {
    let mut store = empty_store();
    let state = start("u", "music").unwrap();
    let state = advance(state, &mut store, Event::FetchFinished(ok_run(SONG_ONE)), 1);
    let state = advance(state, &mut store, Event::DownloadFinished(ok_run("")), 2);
    let reason = "database is locked".to_string();
    let state = advance(state, &mut store, Event::StoreFailed { reason: reason.clone() }, 3);
    assert_eq!(
        state.stage,
        Stage::PersistFailed { error: CatalogError::StorageUnavailable(reason) }
    );
    assert_eq!(track_count(&store), 0);
    let later = ingest(&mut store, "u", SONG_ONE, 50);
    assert!(matches!(later.stage, Stage::Done { .. }));
    assert_eq!(track_count(&store), 1);
}

#[test]
fn an_event_out_of_turn_changes_nothing() {
    let mut store = empty_store();
    let state = start("u", "music").unwrap();
    let same = advance(state.clone(), &mut store, Event::Stored, 1);
    assert_eq!(same, state);
    let same = advance(state.clone(), &mut store, Event::DownloadFinished(ok_run("")), 1);
    assert_eq!(same, state);
    let downloading = advance(state, &mut store, Event::FetchFinished(ok_run(SONG_ONE)), 1);
    let same = advance(downloading.clone(), &mut store, Event::FetchFinished(ok_run("{}")), 1);
    assert_eq!(same, downloading);
    let same = advance(downloading.clone(), &mut store, Event::Stored, 1);
    assert_eq!(same, downloading);
    let persisting = advance(downloading, &mut store, Event::DownloadFinished(ok_run("")), 1);
    let same = advance(persisting.clone(), &mut store, Event::FetchFinished(ok_run("{}")), 1);
    assert_eq!(same, persisting);
    assert_eq!(track_count(&store), 0);
}

#[test]
fn a_row_that_the_catalog_refuses_fails_the_write() {
    let mut store = empty_store();
    let meta = VideoMetadata {
        id: String::new(),
        title: "T".to_string(),
        uploader: None,
        description: None,
        duration: None,
        thumbnail: None,
        webpage_url: None,
    };
    let state = Ingestion {
        url: "u".to_string(),
        output_dir: "music".to_string(),
        stage: Stage::Downloading { meta },
    };
    let state = advance(state, &mut store, Event::DownloadFinished(ok_run("")), 1);
    assert_eq!(state.stage, Stage::PersistFailed { error: CatalogError::InvalidInput });
    assert_eq!(track_count(&store), 0);
}

#[test]
fn ingestions_are_listed_newest_first() {
    let mut store = empty_store();
    ingest(&mut store, "ua", r#"{"id":"a","title":"A"}"#, 100);
    ingest(&mut store, "ub", r#"{"id":"b","title":"B"}"#, 200);
    ingest(&mut store, "uc", r#"{"id":"c","title":"C"}"#, 300);
    let ids: Vec<String> = get_all_tracks(&store).into_iter().map(|t| t.id).collect();
    assert_eq!(ids, vec!["c".to_string(), "b".to_string(), "a".to_string()]);
}

#[test]
fn a_row_added_meanwhile_is_kept() {
    let mut store = empty_store();
    let state = start("u", "music").unwrap();
    let state = advance(state, &mut store, Event::FetchFinished(ok_run(SONG_ONE)), 10);
    let state = advance(state, &mut store, Event::DownloadFinished(ok_run("")), 10);
    let other = VideoMetadata {
        id: "abc123".to_string(),
        title: "First Writer".to_string(),
        uploader: None,
        description: None,
        duration: None,
        thumbnail: None,
        webpage_url: None,
    };
    insert_track(&mut store, &other, "music/First Writer.mp3", 11).unwrap();
    let state = advance(state, &mut store, Event::Stored, 12);
    let listed = get_all_tracks(&store);
    assert_eq!(listed.len(), 1);
    assert_eq!(listed[0].title, "First Writer");
    assert_eq!(state.stage, Stage::Done { track: listed[0].clone() });
}
