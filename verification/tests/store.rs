use wolfplayer::db::{
    clear_tracks, delete_track, empty_store, get_all_tracks, get_track, init_db, insert_track,
    plan_insert, track_count,
};
use wolfplayer::error::CatalogError;
use wolfplayer::models::{copy_text, copy_track, Track, VideoMetadata};

fn meta(id: &str, title: &str) -> VideoMetadata {
    VideoMetadata {
        id: id.to_string(),
        title: title.to_string(),
        uploader: Some("Uploader".to_string()),
        description: None,
        duration: Some(185),
        thumbnail: Some("https://img.example/t.jpg".to_string()),
        webpage_url: Some("https://example.com/watch".to_string()),
    }
}

fn row(id: &str, title: &str, added_at: u64) -> Track {
    Track {
        id: id.to_string(),
        title: title.to_string(),
        uploader: None,
        description: None,
        duration: None,
        thumbnail: None,
        file_path: format!("music/{}.mp3", title),
        added_at,
    }
}

#[test]
fn empty_store_lists_nothing() {
    let store = empty_store();
    assert_eq!(track_count(&store), 0);
    assert_eq!(get_all_tracks(&store), Vec::<Track>::new());
}

#[test]
fn insert_builds_the_row_from_metadata_path_and_time() {
    let mut store = empty_store();
    let got = insert_track(&mut store, &meta("abc123", "Song One"), "music/Song One.mp3", 1700);
    let expected = Track {
        id: "abc123".to_string(),
        title: "Song One".to_string(),
        uploader: Some("Uploader".to_string()),
        description: None,
        duration: Some(185),
        thumbnail: Some("https://img.example/t.jpg".to_string()),
        file_path: "music/Song One.mp3".to_string(),
        added_at: 1700,
    };
    assert_eq!(got, Ok(expected.clone()));
    assert_eq!(get_all_tracks(&store), vec![expected]);
}

#[test]
fn insert_twice_keeps_one_row_with_the_first_fields() {
    let mut store = empty_store();
    let first = insert_track(&mut store, &meta("abc123", "Song One"), "music/Song One.mp3", 10);
    let mut changed = meta("abc123", "Another Title");
    changed.duration = Some(1);
    let second = insert_track(&mut store, &changed, "elsewhere/Another Title.mp3", 99);
    assert_eq!(second, first);
    assert_eq!(track_count(&store), 1);
    let listed = get_all_tracks(&store);
    assert_eq!(listed.len(), 1);
    assert_eq!(listed[0].title, "Song One");
    assert_eq!(listed[0].file_path, "music/Song One.mp3");
    assert_eq!(listed[0].added_at, 10);
}

#[test]
fn insert_refuses_missing_id_title_or_path() {
    let mut store = empty_store();
    assert_eq!(
        insert_track(&mut store, &meta("", "Song"), "music/Song.mp3", 1),
        Err(CatalogError::InvalidInput)
    );
    assert_eq!(
        insert_track(&mut store, &meta("a", ""), "music/Song.mp3", 1),
        Err(CatalogError::InvalidInput)
    );
    assert_eq!(
        insert_track(&mut store, &meta("a", "Song"), "", 1),
        Err(CatalogError::InvalidInput)
    );
    assert_eq!(track_count(&store), 0);
}

#[test]
fn listing_is_newest_first() {
    let mut store = empty_store();
    insert_track(&mut store, &meta("a", "A"), "music/A.mp3", 100).unwrap();
    insert_track(&mut store, &meta("b", "B"), "music/B.mp3", 200).unwrap();
    insert_track(&mut store, &meta("c", "C"), "music/C.mp3", 300).unwrap();
    let ids: Vec<String> = get_all_tracks(&store).into_iter().map(|t| t.id).collect();
    assert_eq!(ids, vec!["c".to_string(), "b".to_string(), "a".to_string()]);
}

#[test]
fn a_clock_that_lies_behind_does_not_reorder() {
    let mut store = empty_store();
    insert_track(&mut store, &meta("a", "A"), "music/A.mp3", 500).unwrap();
    let late = insert_track(&mut store, &meta("b", "B"), "music/B.mp3", 20).unwrap();
    assert_eq!(late.added_at, 500);
    let after = insert_track(&mut store, &meta("c", "C"), "music/C.mp3", 501).unwrap();
    assert_eq!(after.added_at, 501);
    let listed = get_all_tracks(&store);
    assert_eq!(listed[0].id, "c");
    assert_eq!(listed[1].id, "b");
    assert_eq!(listed[2].id, "a");
    assert!(listed[0].added_at >= listed[1].added_at);
    assert!(listed[1].added_at >= listed[2].added_at);
}

#[test]
fn plan_insert_says_what_insert_will_store() {
    let mut store = empty_store();
    insert_track(&mut store, &meta("a", "A"), "music/A.mp3", 500).unwrap();
    let planned = plan_insert(&store, &meta("b", "B"), "music/B.mp3", 7).unwrap();
    assert_eq!(planned.added_at, 500);
    assert_eq!(track_count(&store), 1);
    let stored = insert_track(&mut store, &meta("b", "B"), "music/B.mp3", 7).unwrap();
    assert_eq!(stored, planned);
    let present = plan_insert(&store, &meta("a", "Renamed"), "x/Renamed.mp3", 900).unwrap();
    assert_eq!(present.title, "A");
    assert_eq!(present.file_path, "music/A.mp3");
    assert_eq!(
        plan_insert(&store, &meta("", "B"), "music/B.mp3", 7),
        Err(CatalogError::InvalidInput)
    );
}

#[test]
fn get_finds_a_row_by_id() {
    let mut store = empty_store();
    insert_track(&mut store, &meta("a", "A"), "music/A.mp3", 1).unwrap();
    insert_track(&mut store, &meta("b", "B"), "music/B.mp3", 2).unwrap();
    assert_eq!(get_track(&store, "b").unwrap().file_path, "music/B.mp3");
    assert_eq!(get_track(&store, "zzz"), Err(CatalogError::NotFound));
    assert_eq!(get_track(&store, ""), Err(CatalogError::InvalidInput));
}

#[test]
fn delete_then_get_is_not_found() {
    let mut store = empty_store();
    insert_track(&mut store, &meta("a", "A"), "music/A.mp3", 1).unwrap();
    insert_track(&mut store, &meta("b", "B"), "music/B.mp3", 2).unwrap();
    insert_track(&mut store, &meta("c", "C"), "music/C.mp3", 3).unwrap();
    let gone = delete_track(&mut store, "b").unwrap();
    assert_eq!(gone.id, "b");
    assert_eq!(gone.file_path, "music/B.mp3");
    assert_eq!(get_track(&store, "b"), Err(CatalogError::NotFound));
    assert_eq!(track_count(&store), 2);
    let ids: Vec<String> = get_all_tracks(&store).into_iter().map(|t| t.id).collect();
    assert_eq!(ids, vec!["c".to_string(), "a".to_string()]);
}

#[test]
fn delete_of_a_missing_id_changes_nothing() {
    let mut store = empty_store();
    insert_track(&mut store, &meta("abc123", "Song One"), "music/Song One.mp3", 1).unwrap();
    let before = get_all_tracks(&store);
    assert_eq!(delete_track(&mut store, "missing-id"), Err(CatalogError::NotFound));
    assert_eq!(get_all_tracks(&store), before);
    assert_eq!(track_count(&store), 1);
}

#[test]
fn delete_of_an_empty_id_is_invalid_input() {
    let mut store = empty_store();
    insert_track(&mut store, &meta("a", "A"), "music/A.mp3", 1).unwrap();
    assert_eq!(delete_track(&mut store, ""), Err(CatalogError::InvalidInput));
    assert_eq!(track_count(&store), 1);
}

#[test]
fn clear_reports_the_prior_count_and_empties_the_listing() {
    let mut store = empty_store();
    insert_track(&mut store, &meta("a", "A"), "music/A.mp3", 1).unwrap();
    insert_track(&mut store, &meta("b", "B"), "music/B.mp3", 2).unwrap();
    insert_track(&mut store, &meta("c", "C"), "music/C.mp3", 3).unwrap();
    let cleared = clear_tracks(&mut store);
    assert_eq!(cleared.len(), 3);
    assert_eq!(cleared[0].file_path, "music/C.mp3");
    assert_eq!(cleared[2].file_path, "music/A.mp3");
    assert_eq!(get_all_tracks(&store), Vec::<Track>::new());
    assert_eq!(clear_tracks(&mut store).len(), 0);
}

#[test]
fn init_db_restores_a_listing() {
    let rows = vec![row("c", "C", 30), row("b", "B", 20), row("a", "A", 20)];
    let store = init_db(rows.clone()).unwrap();
    assert_eq!(get_all_tracks(&store), rows);
    assert_eq!(get_track(&store, "a").unwrap().added_at, 20);
    let again = init_db(get_all_tracks(&store)).unwrap();
    assert_eq!(get_all_tracks(&again), rows);
}

#[test]
fn init_db_of_no_rows_is_empty() {
    let store = init_db(Vec::new()).unwrap();
    assert_eq!(track_count(&store), 0);
}

#[test]
fn init_db_refuses_rows_that_break_the_rules() {
    let twice = vec![row("a", "A", 30), row("a", "A again", 20)];
    assert!(matches!(init_db(twice), Err(CatalogError::ConstraintViolation)));
    let out_of_order = vec![row("a", "A", 10), row("b", "B", 20)];
    assert!(matches!(init_db(out_of_order), Err(CatalogError::ConstraintViolation)));
    let no_title = vec![row("a", "", 10)];
    assert!(matches!(init_db(no_title), Err(CatalogError::ConstraintViolation)));
    let no_id = vec![row("", "A", 10)];
    assert!(matches!(init_db(no_id), Err(CatalogError::ConstraintViolation)));
    let mut no_path = row("a", "A", 10);
    no_path.file_path = String::new();
    assert!(matches!(init_db(vec![no_path]), Err(CatalogError::ConstraintViolation)));
}

#[test]
fn copies_are_equal_to_their_originals() {
    let t = row("a", "A", 10);
    assert_eq!(copy_track(&t), t);
    assert_eq!(copy_text(&Some("x".to_string())), Some("x".to_string()));
    assert_eq!(copy_text(&None), None);
}
