use git_trunk::date::{commit_date, date_text};
use git_trunk::listing::{
    add_listed, add_name, log_entry, parse_i64, remote_store, local_store, short_hash, text_before,
    two_fields, CommitInfo,
};

#[test]
fn parses_decimal_numbers() {
    assert_eq!(parse_i64("0"), Some(0));
    assert_eq!(parse_i64("1700000000"), Some(1700000000));
    assert_eq!(parse_i64("-42"), Some(-42));
    assert_eq!(parse_i64("+7"), Some(7));
    assert_eq!(parse_i64("9223372036854775807"), Some(i64::MAX));
    assert_eq!(parse_i64("-9223372036854775808"), Some(i64::MIN));
    assert_eq!(parse_i64("9223372036854775808"), None);
    assert_eq!(parse_i64("-9223372036854775809"), None);
    assert_eq!(parse_i64(""), None);
    assert_eq!(parse_i64("-"), None);
    assert_eq!(parse_i64("12a"), None);
    assert_eq!(parse_i64(" 1"), None);
}

#[test]
fn reads_log_line() {
    let c = log_entry("abc1234\n1700000000").unwrap();
    assert_eq!(c.hash, "abc1234");
    assert_eq!(c.seconds, Some(1700000000));
    let d = log_entry("  abc1234\nnot-a-number\n").unwrap();
    assert_eq!(d.hash, "abc1234");
    assert_eq!(d.seconds, None);
    assert!(log_entry("abc1234").is_none());
    assert!(log_entry("a\nb\nc").is_none());
    assert!(log_entry("").is_none());
}

#[test]
fn shows_commit_dates() {
    let none = CommitInfo { hash: "a".to_string(), seconds: None };
    assert_eq!(commit_date(&none), None);
    let some = CommitInfo { hash: "a".to_string(), seconds: Some(0) };
    let text = commit_date(&some).unwrap();
    assert_eq!(text.len(), 19);
    assert_ne!(text, "Invalid date");
    let far = CommitInfo { hash: "a".to_string(), seconds: Some(i64::MAX) };
    assert_eq!(commit_date(&far), Some("Invalid date".to_string()));
    assert_eq!(date_text(None), "Invalid date");
    assert_eq!(date_text(Some("2024-01-01 00:00:00".to_string())), "2024-01-01 00:00:00");
}

#[test]
fn abbreviates_remote_hash() {
    assert_eq!(
        short_hash("0123456789abcdef\trefs/trunk/main\n"),
        Some("0123456".to_string())
    );
    assert_eq!(short_hash("abc\trefs/trunk/main"), Some("abc".to_string()));
    assert_eq!(short_hash("   \n"), None);
}

#[test]
fn splits_fields() {
    assert_eq!(
        two_fields("  abc \t refs/trunk/x  more"),
        Some(("abc".to_string(), "refs/trunk/x".to_string()))
    );
    assert_eq!(two_fields("one"), None);
}

#[test]
fn finds_store_names_in_listings() {
    assert_eq!(remote_store("abc\trefs/trunk/blog"), Some("blog".to_string()));
    assert_eq!(remote_store("abc\trefs/trunk/a/b"), None);
    assert_eq!(remote_store("abc\trefs/trunk/"), None);
    assert_eq!(remote_store("abc\trefs/heads/main"), None);
    assert_eq!(local_store("trunk/issues"), Some("issues".to_string()));
    assert_eq!(local_store("trunk/"), None);
    assert_eq!(local_store("heads/main"), None);
}

#[test]
fn orders_texts() {
    assert!(text_before("a", "b"));
    assert!(text_before("a", "ab"));
    assert!(!text_before("ab", "a"));
    assert!(!text_before("a", "a"));
    assert!(text_before("", "a"));
}

#[test]
fn keeps_names_sorted_and_unique() {
    let mut v: Vec<String> = Vec::new();
    for n in ["main", "blog", "issues", "blog", "main", "a"] {
        add_name(&mut v, n.to_string());
    }
    assert_eq!(v, vec!["a", "blog", "issues", "main"]);
}

#[test]
fn collects_names_from_listings() {
    let mut v: Vec<String> = Vec::new();
    add_listed(
        &mut v,
        "h1\trefs/trunk/main\nh2\trefs/trunk/blog\nh3\trefs/trunk/x/y\nh4\trefs/trunk/blog\n",
        true,
    );
    assert_eq!(v, vec!["blog", "main"]);
    add_listed(&mut v, "trunk/issues\ntrunk/main\n", false);
    assert_eq!(v, vec!["blog", "issues", "main"]);
}
