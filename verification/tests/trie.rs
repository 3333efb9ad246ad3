use jnv::trie::FilterTrie;

fn fruit() -> Vec<String> {
    vec!["{\"type\":\"fruit\"}".to_string()]
}

fn abbreviation() -> Vec<String> {
    vec!["{\"type\":\"abbreviation\"}".to_string()]
}

#[test]
fn test_exact_match() {
    let mut trie = FilterTrie::new();
    trie.insert("apple", fruit());
    trie.insert("app", abbreviation());

    let result = trie.exact_search("app");
    assert!(result.is_some());
    let values = result.unwrap();
    assert_eq!(values.len(), 1);
    assert_eq!(values[0], "{\"type\":\"abbreviation\"}");
}

#[test]
fn test_no_match() {
    let mut trie = FilterTrie::new();
    trie.insert("apple", fruit());
    trie.insert("app", abbreviation());

    let result = trie.exact_search("application");
    assert!(result.is_none());
}

#[test]
fn test_with_exact_prefix() {
    let mut trie = FilterTrie::new();
    trie.insert("apple", fruit());
    trie.insert("app", abbreviation());

    let result = trie.prefix_search("app");
    assert!(result.is_some());
    let values = result.unwrap();
    assert_eq!(values.len(), 1);
    assert_eq!(values[0], "{\"type\":\"abbreviation\"}");
}

#[test]
fn test_with_longer_query_than_keys() {
    let mut trie = FilterTrie::new();
    trie.insert("apple", fruit());
    trie.insert("app", abbreviation());

    let result = trie.prefix_search("application");
    assert!(result.is_some());
    let values = result.unwrap();
    assert_eq!(values.len(), 1);
    assert_eq!(values[0], "{\"type\":\"abbreviation\"}");
}

#[test]
fn test_with_full_key_match() {
    let mut trie = FilterTrie::new();
    trie.insert("apple", fruit());
    trie.insert("app", abbreviation());

    let result = trie.prefix_search("apple");
    assert!(result.is_some());
    let values = result.unwrap();
    assert_eq!(values.len(), 1);
    assert_eq!(values[0], "{\"type\":\"fruit\"}");
}

#[test]
fn test_with_shorter_query_than_any_key() {
    let mut trie = FilterTrie::new();
    trie.insert("apple", fruit());
    trie.insert("app", abbreviation());

    let result = trie.prefix_search("ap");
    assert!(result.is_none());
}

#[test]
fn test_insert_overwrites_only_its_key() {
    let mut trie = FilterTrie::new();
    trie.insert("a", vec!["1".to_string()]);
    trie.insert("ab", vec!["2".to_string()]);
    trie.insert("a", vec!["3".to_string()]);
    assert_eq!(trie.exact_search("a").unwrap()[0], "3");
    assert_eq!(trie.exact_search("ab").unwrap()[0], "2");
}

#[test]
fn test_cached_entry_stays_until_shutdown() {
    let mut trie = FilterTrie::new();
    trie.insert("q", vec!["r".to_string()]);
    for i in 0..50 {
        trie.insert(&format!("other{}", i), vec![format!("{}", i)]);
        let _ = trie.exact_search("nothing");
        let _ = trie.prefix_search("qqq");
        assert_eq!(trie.exact_search("q").unwrap()[0], "r");
    }
}

#[test]
fn test_exact_hit_implies_prefix_hit() {
    let mut trie = FilterTrie::new();
    trie.insert(".a", vec!["1".to_string()]);
    trie.insert(".", vec!["{}".to_string()]);
    let exact: Vec<String> = trie.exact_search(".a").unwrap().clone();
    let prefix: Vec<String> = trie.prefix_search(".a").unwrap().clone();
    assert_eq!(exact, prefix);
}
