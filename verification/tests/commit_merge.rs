use forge_dx::commit::{
    choose_author, commit_sr_entries, commit_timestamp_ns, merge_tracked_files, CommitError,
};

fn entry(path: &str, bytes: &[u8]) -> (String, Vec<u8>) {
    (path.to_string(), bytes.to_vec())
}

#[test]
fn nothing_staged_nothing_deleted_is_refused() {
    let head = vec![entry("a", b"1")];
    let res = merge_tracked_files(&head, &Vec::new(), &Vec::new());
    assert_eq!(res, Err(CommitError::NothingStaged));
    assert_eq!(CommitError::NothingStaged.message(), "Nothing staged");
}

#[test]
fn staged_files_replace_and_extend_head() {
    let head = vec![entry("src/b.rs", b"old-b"), entry("README", b"readme")];
    let staged = vec![entry("src/b.rs", b"new-b"), entry("src/a.rs", b"a")];
    let files = merge_tracked_files(&head, &Vec::new(), &staged).unwrap();
    assert_eq!(
        files,
        vec![entry("README", b"readme"), entry("src/a.rs", b"a"), entry("src/b.rs", b"new-b")]
    );
}

#[test]
fn deleted_files_are_dropped_even_without_staging() {
    let head = vec![entry("a", b"1"), entry("b", b"2"), entry("c", b"3")];
    let deleted = vec!["b".to_string()];
    let files = merge_tracked_files(&head, &deleted, &Vec::new()).unwrap();
    assert_eq!(files, vec![entry("a", b"1"), entry("c", b"3")]);
}

#[test]
fn restaged_deleted_path_comes_back() {
    let head = vec![entry("a", b"1")];
    let deleted = vec!["a".to_string()];
    let staged = vec![entry("a", b"2")];
    let files = merge_tracked_files(&head, &deleted, &staged).unwrap();
    assert_eq!(files, vec![entry("a", b"2")]);
}

#[test]
fn later_duplicates_win_and_order_is_bytewise() {
    let head = vec![entry("z", b"1"), entry("z", b"2")];
    let staged = vec![entry("a/b", b"x"), entry("a.b", b"y"), entry("B", b"w"), entry("a.b", b"v")];
    let files = merge_tracked_files(&head, &Vec::new(), &staged).unwrap();
    assert_eq!(
        files,
        vec![entry("B", b"w"), entry("a.b", b"v"), entry("a/b", b"x"), entry("z", b"2")]
    );
}

#[test]
fn deleting_an_unknown_path_is_harmless() {
    let head = vec![entry("a", b"1")];
    let deleted = vec!["gone".to_string()];
    let files = merge_tracked_files(&head, &deleted, &Vec::new()).unwrap();
    assert_eq!(files, vec![entry("a", b"1")]);
}

#[test]
fn author_falls_back_to_user_then_unknown() {
    assert_eq!(choose_author(Some("Ada".into()), Some("ada".into())), "Ada");
    assert_eq!(choose_author(None, Some("ada".into())), "ada");
    assert_eq!(choose_author(None, None), "unknown");
}

#[test]
fn timestamp_prefers_nanoseconds() {
    assert_eq!(commit_timestamp_ns(Some(17), 99), 17);
    assert_eq!(commit_timestamp_ns(None, 3), 3_000_000_000);
    assert_eq!(commit_timestamp_ns(None, -2), -2_000_000_000);
}

#[test]
fn commit_status_entries() {
    let entries = commit_sr_entries("abcd", 3, "fix it", "Ada", -5);
    let expected: Vec<(String, String)> = vec![
        ("action".into(), "commit".into()),
        ("commit_id".into(), "abcd".into()),
        ("files_count".into(), "3".into()),
        ("message".into(), "fix it".into()),
        ("author".into(), "Ada".into()),
        ("timestamp_ns".into(), "-5".into()),
    ];
    assert_eq!(entries, expected);
}
