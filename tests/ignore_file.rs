use git_trunk::ignore::{
    ensure_excluded, ensure_trunk_in_gitignore, has_exclusion, remove_excluded,
    remove_trunk_from_gitignore,
};

#[test]
fn ensure_adds_entry_to_empty_file() {
    assert_eq!(ensure_trunk_in_gitignore(""), Some(".trunk\n".to_string()));
}

#[test]
fn ensure_appends_after_existing_lines() {
    assert_eq!(
        ensure_trunk_in_gitignore("target\nnode_modules\n"),
        Some("target\nnode_modules\n.trunk\n".to_string())
    );
}

#[test]
fn ensure_adds_missing_final_line_feed() {
    assert_eq!(ensure_trunk_in_gitignore("target"), Some("target\n.trunk\n".to_string()));
}

#[test]
fn ensure_finds_entry_with_surrounding_whitespace() {
    assert_eq!(ensure_trunk_in_gitignore("target\n  .trunk \t\n"), None);
    assert_eq!(ensure_trunk_in_gitignore("a\r\n.trunk\r\n"), None);
}

#[test]
fn ensure_does_not_take_a_longer_line_for_the_entry() {
    assert_eq!(ensure_trunk_in_gitignore(".trunk2\n"), Some(".trunk2\n.trunk\n".to_string()));
    assert_eq!(ensure_trunk_in_gitignore("# .trunk\n"), Some("# .trunk\n.trunk\n".to_string()));
}

#[test]
fn ensure_twice_writes_nothing_the_second_time() {
    for before in ["", "target\n", "target", "a\n\nb\n", "x\r\ny\r\n"] {
        let once = ensure_trunk_in_gitignore(before).unwrap();
        assert_eq!(ensure_trunk_in_gitignore(&once), None);
        assert!(has_exclusion(&once, ".trunk"));
    }
}

#[test]
fn remove_undoes_ensure() {
    for before in ["", "target\n", "a\n\nb\n", "x\r\ny\r\n", "\n"] {
        let with = ensure_trunk_in_gitignore(before).unwrap();
        assert_eq!(remove_trunk_from_gitignore(&with), Some(before.to_string()));
    }
}

#[test]
fn remove_leaves_file_without_entry_alone() {
    assert_eq!(remove_trunk_from_gitignore("target\nnode_modules"), None);
    assert_eq!(remove_trunk_from_gitignore(""), None);
}

#[test]
fn remove_drops_every_entry_line_and_keeps_the_rest() {
    assert_eq!(
        remove_trunk_from_gitignore("a\n.trunk\nb\n  .trunk\nc"),
        Some("a\nb\nc\n".to_string())
    );
}

#[test]
fn remove_of_only_entry_leaves_empty_file() {
    assert_eq!(remove_trunk_from_gitignore(".trunk\n"), Some(String::new()));
}

#[test]
fn other_patterns_work_the_same_way() {
    assert_eq!(ensure_excluded("x\n", "build/"), Some("x\nbuild/\n".to_string()));
    assert_eq!(ensure_excluded("build/\n", "build/"), None);
    assert_eq!(remove_excluded("x\nbuild/\n", "build/"), Some("x\n".to_string()));
}
