use jnv::search::{IncrementalSearcher, JsonPathProvider, SearchProvider};

fn loaded_searcher(lines: usize, chunk: usize, items: &[&str]) -> IncrementalSearcher {
    let mut s = IncrementalSearcher::new(lines, chunk);
    let batch: Vec<String> = items.iter().map(|i| i.to_string()).collect();
    s.load_all(batch, 2);
    s
}

#[test]
fn load_counts_every_enumerated_item() {
    let mut s = IncrementalSearcher::new(3, 100);
    assert!(!s.load_state.loaded);
    assert_eq!(s.load_state.loaded_item_len, 0);
    s.absorb_chunk(vec![".".to_string(), ".a".to_string()]);
    assert!(!s.load_state.loaded);
    assert_eq!(s.load_state.loaded_item_len, 2);
    let before = s.load_state.loaded_item_len;
    s.absorb_chunk(vec![".b".to_string()]);
    assert!(s.load_state.loaded_item_len >= before);
    s.finish_load(vec![".c".to_string()]);
    assert!(s.load_state.loaded);
    assert_eq!(s.load_state.loaded_item_len, 4);
}

#[test]
fn load_count_includes_duplicates_but_set_does_not() {
    let mut s = IncrementalSearcher::new(3, 100);
    s.load_all(vec![".a".to_string(), ".a".to_string(), ".b".to_string()], 2);
    assert_eq!(s.load_state.loaded_item_len, 3);
    assert_eq!(s.items.len(), 2);
}

#[test]
fn items_are_kept_sorted_and_unique() {
    let s = loaded_searcher(3, 100, &[".b", ".a", ".c", ".a"]);
    let texts: Vec<&str> = s.items.iter().map(|i| i.as_str()).collect();
    assert_eq!(texts, vec![".a", ".b", ".c"]);
}

#[test]
fn start_search_fills_window_with_matches() {
    let mut s = loaded_searcher(3, 100, &[".", ".alice", ".alpha", ".beta"]);
    let r = s.start_search(".a");
    assert_eq!(r.head_item.as_deref(), Some(".alice"));
    assert!(r.load_state.loaded);
    assert_eq!(s.window, vec![".alice".to_string(), ".alpha".to_string()]);
    assert_eq!(s.cursor, 0);
}

#[test]
fn start_search_without_match_changes_nothing() {
    let mut s = loaded_searcher(3, 100, &[".", ".a"]);
    let r1 = s.start_search(".a");
    assert!(r1.head_item.is_some());
    let window_before = s.window.clone();
    let r2 = s.start_search(".zzz");
    assert!(r2.head_item.is_none());
    assert_eq!(s.window, window_before);
}

#[test]
fn leave_search_empties_window_and_tail() {
    let mut s = loaded_searcher(1, 2, &[".", ".a", ".ab", ".abc", ".abcd"]);
    let r = s.start_search(".a");
    assert!(r.head_item.is_some());
    assert!(!s.window.is_empty());
    assert!(!s.search_chunk_remaining.is_empty());
    s.leave_search();
    assert!(s.window.is_empty());
    assert!(s.search_chunk_remaining.is_empty());
    assert_eq!(s.cursor, 0);
}

#[test]
fn current_item_tracks_cursor_through_walks() {
    let mut s = loaded_searcher(2, 10, &[".a", ".ab", ".abc"]);
    let _ = s.start_search(".a");
    assert_eq!(s.get_current_item(), ".a");
    s.down_with_load();
    assert_eq!(s.get_current_item(), s.window[s.cursor]);
    assert_eq!(s.get_current_item(), ".ab");
    s.down_with_load();
    assert_eq!(s.get_current_item(), ".abc");
    // Walking past the end stays put.
    s.down_with_load();
    assert_eq!(s.get_current_item(), ".abc");
    s.up();
    assert_eq!(s.get_current_item(), ".ab");
    s.up();
    s.up();
    assert_eq!(s.get_current_item(), ".a");
    assert_eq!(s.get_current_item(), s.window[s.cursor]);
}

#[test]
fn walking_down_pulls_from_tail_buffer() {
    let mut s = loaded_searcher(2, 2, &[".a", ".ab", ".abc", ".abcd"]);
    let _ = s.start_search(".a");
    assert_eq!(s.window.len(), 2);
    assert_eq!(s.search_chunk_remaining.len(), 2);
    s.down_with_load();
    assert!(s.window.len() > 2);
}

#[test]
fn provider_enumerates_document_paths() {
    let mut p = JsonPathProvider;
    let mut paths = p.provide("{\"alpha\":1,\"alice\":2}").unwrap();
    paths.sort();
    assert_eq!(paths, vec![".".to_string(), ".alice".to_string(), ".alpha".to_string()]);
}

#[test]
fn provider_rejects_bad_input() {
    let mut p = JsonPathProvider;
    assert!(p.provide("{ nope").is_err());
}
