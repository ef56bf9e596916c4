use reader_core::commands::{
    load_last_reading_page, load_reading_state, save_last_reading_page, tracks_progress,
};
use reader_core::progress::ReadingState;
use reader_core::store::StoreError;

fn page_in(state: &ReadingState, path: &str) -> Option<u32> {
    load_last_reading_page(Ok(Some(state.clone())), path.to_string()).unwrap()
}

#[test]
fn page_zero_is_stored_as_page_one() {
    let written = save_last_reading_page(Ok(None), "/x/y.pdf".to_string(), 0).unwrap().unwrap();
    assert_eq!(page_in(&written, "/x/y.pdf"), Some(1));
    assert_eq!(written.len(), 1);
}

#[test]
fn pages_from_one_up_are_stored_as_given() {
    let written = save_last_reading_page(Ok(None), "/x/y.pdf".to_string(), 1).unwrap().unwrap();
    assert_eq!(page_in(&written, "/x/y.pdf"), Some(1));
    let written = save_last_reading_page(Ok(Some(written)), "/x/y.pdf".to_string(), 42).unwrap().unwrap();
    assert_eq!(page_in(&written, "/x/y.pdf"), Some(42));
    assert_eq!(written.len(), 1);
    let written =
        save_last_reading_page(Ok(Some(written)), "/x/y.pdf".to_string(), u32::MAX).unwrap().unwrap();
    assert_eq!(page_in(&written, "/x/y.pdf"), Some(u32::MAX));
}

#[test]
fn blank_path_is_not_recorded() {
    assert_eq!(save_last_reading_page(Ok(None), "".to_string(), 5).unwrap().map(|s| s.len()), None);
    assert_eq!(save_last_reading_page(Ok(None), "  \t".to_string(), 5).unwrap().map(|s| s.len()), None);
    assert_eq!(load_last_reading_page(Ok(None), "".to_string()), Ok(None));
    let mut state = ReadingState::new();
    state.insert("".to_string(), 5);
    assert_eq!(load_last_reading_page(Ok(Some(state)), "".to_string()), Ok(None));
    assert!(!tracks_progress(&"".to_string()));
    assert!(!tracks_progress(&" \n ".to_string()));
    assert!(tracks_progress(&"/a".to_string()));
}

#[test]
fn blank_path_is_answered_whatever_the_store_yielded() {
    let failed = || Err(StoreError::Io("denied".to_string()));
    assert_eq!(load_last_reading_page(failed(), " ".to_string()), Ok(None));
    assert_eq!(save_last_reading_page(failed(), " ".to_string(), 3).map(|s| s.is_none()), Ok(true));
}

#[test]
fn two_paths_are_kept_apart() {
    let first = save_last_reading_page(Ok(None), "/a.pdf".to_string(), 3).unwrap().unwrap();
    let both = save_last_reading_page(Ok(Some(first)), "/b.pdf".to_string(), 7).unwrap().unwrap();
    assert_eq!(page_in(&both, "/a.pdf"), Some(3));
    assert_eq!(page_in(&both, "/b.pdf"), Some(7));
    assert_eq!(page_in(&both, "/c.pdf"), None);
    assert_eq!(both.len(), 2);
    let mut entries = both.into_entries();
    entries.sort();
    assert_eq!(entries, vec![("/a.pdf".to_string(), 3), ("/b.pdf".to_string(), 7)]);
}

#[test]
fn paths_are_looked_up_verbatim() {
    let state = save_last_reading_page(Ok(None), "/A.pdf".to_string(), 2).unwrap().unwrap();
    assert_eq!(page_in(&state, "/A.pdf"), Some(2));
    assert_eq!(page_in(&state, "/a.pdf"), None);
    assert_eq!(page_in(&state, " /A.pdf"), None);
    assert_eq!(page_in(&state, "/A.pdf "), None);
    let state = save_last_reading_page(Ok(Some(state)), " /A.pdf".to_string(), 9).unwrap().unwrap();
    assert_eq!(page_in(&state, " /A.pdf"), Some(9));
    assert_eq!(page_in(&state, "/A.pdf"), Some(2));
}

#[test]
fn store_failures_are_passed_on_for_paths_that_count() {
    let failed = || Err(StoreError::Deserialization("expected value at line 1 column 1".to_string()));
    assert_eq!(
        load_last_reading_page(failed(), "/a".to_string()),
        Err("expected value at line 1 column 1".to_string())
    );
    assert_eq!(
        save_last_reading_page(failed(), "/a".to_string(), 1).map(|s| s.is_some()),
        Err("expected value at line 1 column 1".to_string())
    );
    assert_eq!(load_reading_state(failed()).map(|s| s.len()), Err("expected value at line 1 column 1".to_string()));
}

#[test]
fn missing_file_is_the_empty_table() {
    let state = load_reading_state(Ok(None)).unwrap();
    assert_eq!(state.len(), 0);
    assert_eq!(state.get(&"/a".to_string()), None);
    assert!(state.into_entries().is_empty());
}

#[test]
fn insert_overwrites_and_keeps_pages_as_given() {
    let mut state = ReadingState::new();
    state.insert("/a".to_string(), 0);
    state.insert("/b".to_string(), 4);
    state.insert("/a".to_string(), 6);
    assert_eq!(state.len(), 2);
    assert_eq!(state.get(&"/a".to_string()), Some(6));
    assert_eq!(state.get(&"/b".to_string()), Some(4));
    state.insert("/b".to_string(), 0);
    assert_eq!(state.get(&"/b".to_string()), Some(0));
}
