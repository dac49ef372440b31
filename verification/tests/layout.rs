use harper_zed::layout::{binary_path, needs_separator, stale_entries, version_dir};
use harper_zed::platform::Os;

fn names(items: &[&str]) -> Vec<String> {
    items.iter().map(|s| s.to_string()).collect()
}

#[test]
fn version_dir_joins_name_and_version() {
    assert_eq!(version_dir("harper-ls", "v1.2.0"), "harper-ls-v1.2.0");
    assert_eq!(version_dir("harper-ls", ""), "harper-ls-");
    assert_eq!(version_dir("", "1"), "-1");
}

#[test]
fn binary_path_on_unix_like_systems() {
    assert_eq!(binary_path("harper-ls-v1.2.0", "harper-ls", Os::Linux), "harper-ls-v1.2.0/harper-ls");
    assert_eq!(binary_path("harper-ls-v1.2.0", "harper-ls", Os::Mac), "harper-ls-v1.2.0/harper-ls");
}

#[test]
fn binary_path_on_windows_ends_in_exe() {
    assert_eq!(
        binary_path("harper-ls-v1.2.0", "harper-ls", Os::Windows),
        "harper-ls-v1.2.0/harper-ls.exe"
    );
}

#[test]
fn binary_path_adds_no_second_separator() {
    assert_eq!(binary_path("harper-ls-v1/", "harper-ls", Os::Linux), "harper-ls-v1/harper-ls");
    assert_eq!(binary_path("", "harper-ls", Os::Linux), "harper-ls");
    assert_eq!(binary_path("", "harper-ls", Os::Windows), "harper-ls.exe");
}

#[test]
fn binary_path_with_wide_characters() {
    assert_eq!(binary_path("härper-ß", "harper-ls", Os::Linux), "härper-ß/harper-ls");
}

#[test]
fn needs_separator_cases() {
    assert!(needs_separator("dir"));
    assert!(!needs_separator("dir/"));
    assert!(!needs_separator(""));
    assert!(needs_separator("a/b"));
    assert!(needs_separator("é"));
}

#[test]
fn stale_entries_drop_only_the_kept_name() {
    let entries = names(&["harper-ls-v1.0.0", "harper-ls-v1.2.0", "notes.txt", "harper-ls-v1.1.0"]);
    assert_eq!(
        stale_entries(&entries, &"harper-ls-v1.2.0".to_string()),
        names(&["harper-ls-v1.0.0", "notes.txt", "harper-ls-v1.1.0"])
    );
}

#[test]
fn stale_entries_keep_order_and_repeats() {
    let entries = names(&["b", "a", "b", "keep", "a", "keep"]);
    assert_eq!(stale_entries(&entries, &"keep".to_string()), names(&["b", "a", "b", "a"]));
}

#[test]
fn stale_entries_of_nothing() {
    assert_eq!(stale_entries(&Vec::new(), &"keep".to_string()), Vec::<String>::new());
    assert_eq!(stale_entries(&names(&["keep"]), &"keep".to_string()), Vec::<String>::new());
}

#[test]
fn stale_entries_compare_whole_names() {
    let entries = names(&["keep2", "kee", "Keep", "keep"]);
    assert_eq!(stale_entries(&entries, &"keep".to_string()), names(&["keep2", "kee", "Keep"]));
}
