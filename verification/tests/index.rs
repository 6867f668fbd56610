use support_bundle_viewer::index::is_directory;
use support_bundle_viewer::SupportBundleIndex;

fn paths(index: &SupportBundleIndex) -> Vec<&str> {
    index.files().iter().map(|path| path.as_str()).collect()
}

#[test]
fn listing_keeps_its_order() {
    let index = SupportBundleIndex::new("b/c.txt\na.txt\nb/");
    assert_eq!(paths(&index), vec!["b/c.txt", "a.txt", "b/"]);
}

#[test]
fn empty_listing_has_no_entries() {
    let index = SupportBundleIndex::new("");
    assert!(index.files().is_empty());
}

#[test]
fn final_line_break_starts_no_entry() {
    let index = SupportBundleIndex::new("a.txt\nb/\n");
    assert_eq!(paths(&index), vec!["a.txt", "b/"]);
}

#[test]
fn empty_lines_are_entries() {
    let index = SupportBundleIndex::new("a\n\nb");
    assert_eq!(paths(&index), vec!["a", "", "b"]);
    let index = SupportBundleIndex::new("\n");
    assert_eq!(paths(&index), vec![""]);
    let index = SupportBundleIndex::new("\n\n");
    assert_eq!(paths(&index), vec!["", ""]);
}

#[test]
fn listing_is_not_sorted_and_keeps_repeats() {
    let index = SupportBundleIndex::new("z\na\nz\nm");
    assert_eq!(paths(&index), vec!["z", "a", "z", "m"]);
}

#[test]
fn paths_may_hold_any_character_but_the_line_break() {
    let index = SupportBundleIndex::new("dir with space/é.txt\n\ttab\r\nx");
    assert_eq!(paths(&index), vec!["dir with space/é.txt", "\ttab\r", "x"]);
}

#[test]
fn names_are_listed_one_per_line() {
    let names = vec!["a.txt".to_string(), "b/".to_string(), "b/c.txt".to_string()];
    let index = SupportBundleIndex::from_names(&names);
    assert_eq!(paths(&index), vec!["a.txt", "b/", "b/c.txt"]);
}

#[test]
fn no_names_give_an_empty_index() {
    let index = SupportBundleIndex::from_names(&Vec::new());
    assert!(index.files().is_empty());
}

#[test]
fn name_with_line_break_is_split() {
    let names = vec!["a\nb".to_string(), "c".to_string()];
    let index = SupportBundleIndex::from_names(&names);
    assert_eq!(paths(&index), vec!["a", "b", "c"]);
}

#[test]
fn empty_last_name_is_lost_in_the_listing() {
    let names = vec!["a".to_string(), "".to_string()];
    let index = SupportBundleIndex::from_names(&names);
    assert_eq!(paths(&index), vec!["a"]);
    let names = vec!["".to_string(), "a".to_string()];
    let index = SupportBundleIndex::from_names(&names);
    assert_eq!(paths(&index), vec!["", "a"]);
}

#[test]
fn directory_paths_end_in_a_slash() {
    assert!(is_directory("b/"));
    assert!(is_directory("/"));
    assert!(is_directory("a/b/c/"));
    assert!(!is_directory("b/c.txt"));
    assert!(!is_directory("a.txt"));
    assert!(!is_directory(""));
    assert!(!is_directory("b/ "));
    assert!(!is_directory("é"));
}
