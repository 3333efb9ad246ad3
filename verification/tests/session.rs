use jnv::session::{guide_message, GuideKind, Session};

#[test]
fn identity_query_shows_whole_document() {
    let mut s = Session::try_new("{\"a\":1,\"b\":\"x\"}").unwrap();
    assert_eq!(s.docs, vec!["{\"a\":1,\"b\":\"x\"}".to_string()]);
    let g = s.apply_query(".");
    // The identity query is seeded into the cache at startup, so the very
    // first application is answered from the cache.
    assert_eq!(g, GuideKind::CacheHit);
    assert_eq!(s.viewer, vec!["{\"a\":1,\"b\":\"x\"}".to_string()]);
}

#[test]
fn key_projection_then_cache_hit() {
    let mut s = Session::try_new("{\"a\":1,\"b\":\"x\"}").unwrap();
    let g1 = s.apply_query(".a");
    assert_eq!(g1, GuideKind::Clear);
    assert_eq!(s.viewer, vec!["1".to_string()]);

    // Another query in between, then the same query again: cache hit.
    let _ = s.apply_query(".b");
    let g2 = s.apply_query(".a");
    assert_eq!(g2, GuideKind::CacheHit);
    assert_eq!(s.viewer, vec!["1".to_string()]);
    assert_eq!(
        guide_message(GuideKind::CacheHit, ".a"),
        "JSON query ('.a') was already executed. Result was retrieved from cache."
    );
}

#[test]
fn null_result_warns_and_keeps_prior_view() {
    let mut s = Session::try_new("{\"a\":1}").unwrap();
    let g = s.apply_query(".b");
    assert_eq!(g, GuideKind::AllNull);
    // The viewer falls back to the deepest cached ancestor: the identity
    // query's result, the whole document.
    assert_eq!(s.viewer, vec!["{\"a\":1}".to_string()]);
    assert_eq!(
        guide_message(GuideKind::AllNull, ".b"),
        "JSON query resulted in 'null', which may indicate a typo or incorrect query: '.b'"
    );
}

#[test]
fn failed_filter_warns_and_keeps_prior_view() {
    let mut s = Session::try_new("{}").unwrap();
    let g = s.apply_query(".foo(");
    assert_eq!(g, GuideKind::FilterFailed);
    assert_eq!(s.viewer, vec!["{}".to_string()]);
    assert_eq!(
        guide_message(GuideKind::FilterFailed, ".foo("),
        "Failed to execute jq query '.foo('"
    );
}

#[test]
fn empty_result_warns_and_keeps_prior_view() {
    let mut s = Session::try_new("{}").unwrap();
    let g = s.apply_query(".[]");
    assert_eq!(g, GuideKind::NoResults);
    assert_eq!(s.viewer, vec!["{}".to_string()]);
    assert_eq!(
        guide_message(GuideKind::NoResults, ".[]"),
        "JSON query ('.[]') was executed, but no results were returned."
    );
}

#[test]
fn parse_error_is_fatal_at_startup() {
    assert!(Session::try_new("{ not json").is_err());
}

#[test]
fn parse_normalizes_document_text() {
    // The parser must really have parsed: the canonical text differs from
    // the input spelling.
    let s = Session::try_new("{ \"a\" :  1 }").unwrap();
    assert_eq!(s.docs, vec!["{\"a\":1}".to_string()]);
}

#[test]
fn engine_transforms_its_input() {
    // The engine must really have evaluated: projecting returns a value
    // that appears nowhere as the document's own text.
    let mut s = Session::try_new("{\"a\":{\"b\":7}}").unwrap();
    let g = s.apply_query(".a.b");
    assert_eq!(g, GuideKind::Clear);
    assert_eq!(s.viewer, vec!["7".to_string()]);
}

#[test]
fn multi_document_stream_concatenates_results() {
    let mut s = Session::try_new("{\"a\":1} {\"a\":2}").unwrap();
    assert_eq!(s.docs.len(), 2);
    let g = s.apply_query(".a");
    assert_eq!(g, GuideKind::Clear);
    assert_eq!(s.viewer, vec!["1".to_string(), "2".to_string()]);
}

#[test]
fn last_query_wins_after_a_burst() {
    // Two query changes in a row: the state after quiescence is the state
    // the later query alone determines.
    let mut s = Session::try_new("{\"a\":1,\"b\":2}").unwrap();
    let _ = s.apply_query(".a");
    let _ = s.apply_query(".b");
    assert_eq!(s.viewer, vec!["2".to_string()]);
}

#[test]
fn content_to_copy_joins_lines() {
    let mut s = Session::try_new("{\"a\":1} {\"a\":2}").unwrap();
    let _ = s.apply_query(".a");
    assert_eq!(s.content_to_copy(), "1\n2\n");
}

#[test]
fn empty_input_stream_is_accepted() {
    let mut s = Session::try_new("").unwrap();
    assert!(s.docs.is_empty());
    let g = s.apply_query(".");
    assert_eq!(g, GuideKind::CacheHit);
    assert!(s.viewer.is_empty());
}

#[test]
fn unrepresentable_number_is_an_error_not_a_crash() {
    // jaq keeps an out-of-range literal as a decimal string; rendering it
    // must surface as a failed filter rather than a panic.
    let mut s = Session::try_new("{}").unwrap();
    let g = s.apply_query("1.0e999");
    assert_eq!(g, GuideKind::FilterFailed);
    assert_eq!(s.viewer, vec!["{}".to_string()]);
}

#[test]
fn max_streams_limit_truncates_the_stream() {
    let s = Session::try_new_limited("{\"a\":1} {\"a\":2} {\"a\":3}", Some(2)).unwrap();
    assert_eq!(s.docs, vec!["{\"a\":1}".to_string(), "{\"a\":2}".to_string()]);
    let unlimited = Session::try_new_limited("{\"a\":1} {\"a\":2}", None).unwrap();
    assert_eq!(unlimited.docs.len(), 2);
}
