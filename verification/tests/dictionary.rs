use typeless::dictionary::{DictionaryManager, History, MAX_HINTS};
use typeless::text::char_is_whitespace;

fn manager(tech: bool, user: &[&str], max_history: usize) -> DictionaryManager {
    DictionaryManager::new(
        tech,
        user.iter().map(|s| s.to_string()).collect(),
        max_history,
        History::new(),
    )
}

#[test]
fn hints_match_case_insensitively() {
    let d = manager(true, &[], 100);
    assert_eq!(d.get_hints("rust"), vec!["Rust".to_string()]);
    assert_eq!(d.get_hints("RUST"), vec!["Rust".to_string()]);
    assert_eq!(d.get_hints("SCRIPT"), vec!["TypeScript".to_string(), "JavaScript".to_string()]);
}

#[test]
fn hints_keep_vocabulary_order_without_history() {
    let d = manager(true, &[], 100);
    assert_eq!(
        d.get_hints("as"),
        vec!["async", "ReplicaSet", "JavaScript", "async/await", "Elasticsearch"]
            .into_iter()
            .map(String::from)
            .collect::<Vec<_>>()
    );
}

#[test]
fn hints_are_capped() {
    let d = manager(true, &[], 100);
    let hints = d.get_hints("");
    assert_eq!(hints.len(), MAX_HINTS);
    assert_eq!(hints[0], "Rust");
    assert_eq!(hints[19], "ConfigMap");
    assert_eq!(d.get_hints("e").len(), 20);
}

#[test]
fn user_vocab_is_added_once() {
    let d = manager(true, &["MyRustLib", "Rust", "MyRustLib"], 100);
    assert_eq!(d.get_hints("rust"), vec!["Rust".to_string(), "MyRustLib".to_string()]);
    let d = manager(false, &["MyRustLib", "Rust"], 100);
    assert_eq!(d.get_hints("rust"), vec!["MyRustLib".to_string(), "Rust".to_string()]);
    assert!(d.get_hints("kube").is_empty());
}

#[test]
fn hints_sorted_by_frequency() {
    let mut d = manager(true, &[], 100);
    assert!(d.can_record("kubectl kubectl kubeconfig kubectl"));
    d.record_input("kubectl kubectl kubeconfig kubectl");
    assert_eq!(
        d.get_hints("kube"),
        vec!["kubectl".to_string(), "kubeconfig".to_string(), "Kubernetes".to_string()]
    );
}

#[test]
fn record_counts_cleaned_words() {
    let mut d = manager(true, &[], 100);
    d.record_input("hello world! hello\tfoo-bar_baz?? !!!");
    let h = d.history();
    assert_eq!(h.entries(), &vec!["hello world! hello\tfoo-bar_baz?? !!!".to_string()]);
    assert_eq!(h.count(&"hello".to_string()), 2);
    assert_eq!(h.count(&"world".to_string()), 1);
    assert_eq!(h.count(&"foo-bar_baz".to_string()), 1);
    assert_eq!(h.count(&"world!".to_string()), 0);
    assert_eq!(h.count(&String::new()), 0);
    assert_eq!(h.frequency_pairs().len(), 3);
}

#[test]
fn record_keeps_unicode_letters() {
    let mut d = manager(true, &[], 100);
    d.record_input("héllo, 世界。 naïve");
    let h = d.history();
    assert_eq!(h.count(&"héllo".to_string()), 1);
    assert_eq!(h.count(&"世界".to_string()), 1);
    assert_eq!(h.count(&"naïve".to_string()), 1);
}

#[test]
fn history_is_bounded() {
    let mut d = manager(true, &[], 2);
    d.record_input("one");
    d.record_input("two");
    d.record_input("three");
    assert_eq!(d.history().entries(), &vec!["two".to_string(), "three".to_string()]);
    let mut d = manager(true, &[], 0);
    d.record_input("one");
    assert!(d.history().entries().is_empty());
    assert_eq!(d.history().count(&"one".to_string()), 1);
}

#[test]
fn history_from_parts_last_pair_wins() {
    let h = History::from_parts(
        vec!["a b".to_string()],
        vec![("a".to_string(), 4), ("b".to_string(), 1), ("a".to_string(), 7)],
    );
    assert_eq!(h.count(&"a".to_string()), 7);
    assert_eq!(h.count(&"b".to_string()), 1);
    assert_eq!(h.frequency_pairs().len(), 2);
    let mut h = h;
    h.set_count("c".to_string(), 2);
    assert_eq!(h.count(&"c".to_string()), 2);
}

#[test]
fn recording_near_the_limit_is_refused() {
    let h = History::from_parts(Vec::new(), vec![("w".to_string(), usize::MAX - 1)]);
    let d = DictionaryManager::new(true, Vec::new(), 10, h);
    assert!(d.can_record("w"));
    assert!(!d.can_record("w w"));
    assert!(!d.can_record("w\t(w)"));
    let h = History::from_parts(Vec::new(), vec![("w".to_string(), usize::MAX)]);
    let mut d = DictionaryManager::new(true, Vec::new(), 10, h);
    assert!(d.can_record("x y x"));
    assert!(d.can_record("!!! ..."));
    assert!(!d.can_record("w"));
    assert!(!d.can_record("a w!"));
    d.record_input("x y x");
    assert_eq!(d.history().count(&"x".to_string()), 2);
    assert_eq!(d.history().count(&"w".to_string()), usize::MAX);
}

#[test]
fn whitespace_matches_std() {
    for c in (0..=0x10FFFFu32).filter_map(char::from_u32) {
        assert_eq!(char_is_whitespace(c), c.is_whitespace(), "{:?}", c);
    }
}

#[test]
fn record_splits_on_unicode_whitespace() {
    let mut d = manager(true, &[], 100);
    d.record_input("a\u{3000}b\u{85}c\u{2029}a\u{a0}b");
    let h = d.history();
    assert_eq!(h.count(&"a".to_string()), 2);
    assert_eq!(h.count(&"b".to_string()), 2);
    assert_eq!(h.count(&"c".to_string()), 1);
}
