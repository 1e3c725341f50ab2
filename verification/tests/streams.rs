use deployc::{
    build_line_action, deploy_verdict, iso_prefix_len, sort_apps_newest_first,
    sort_secrets_newest_first, split_log_line, split_timestamp, str_starts_with, strip_prefix_all,
    trim_start, App, BuildAction, Secret, SecretType,
};

#[test]
fn prefix_checks() {
    assert!(str_starts_with("[stdout] hi", "[stdout]"));
    assert!(!str_starts_with("[stdout", "[stdout]"));
    assert!(str_starts_with("anything", ""));
    assert!(!str_starts_with("x[stdout]", "[stdout]"));
}

#[test]
fn strip_prefix_removes_every_leading_copy() {
    assert_eq!(strip_prefix_all("[x][x]rest", "[x]"), "rest");
    assert_eq!(strip_prefix_all("[x]rest[x]", "[x]"), "rest[x]");
    assert_eq!(strip_prefix_all("rest", "[x]"), "rest");
    assert_eq!(strip_prefix_all("aaab", "a"), "b");
}

#[test]
fn trim_start_keeps_trailing_whitespace() {
    assert_eq!(trim_start("  x  "), "x  ");
    assert_eq!(trim_start("x"), "x");
    assert_eq!(trim_start("   "), "");
}

#[test]
fn build_lines_are_classified() {
    assert_eq!(
        build_line_action(&"[stdout] compiling".to_string()),
        BuildAction::EchoOut("compiling".to_string())
    );
    assert_eq!(
        build_line_action(&"[stderr]  warning: x".to_string()),
        BuildAction::EchoErr("warning: x".to_string())
    );
    assert_eq!(build_line_action(&"[result] FAILED".to_string()), BuildAction::Fail);
    assert_eq!(build_line_action(&"[result] OK".to_string()), BuildAction::Succeed);
    assert_eq!(
        build_line_action(&"something odd".to_string()),
        BuildAction::Remember("something odd".to_string())
    );
    assert_eq!(
        build_line_action(&"[stdout][stdout] twice".to_string()),
        BuildAction::EchoOut("twice".to_string())
    );
}

#[test]
fn deploy_verdict_passes_clean_output() {
    assert!(deploy_verdict(&Vec::new()).is_ok());
}

#[test]
fn deploy_verdict_quotes_unclaimed_lines() {
    let lines = vec!["first".to_string(), "second".to_string()];
    let e = deploy_verdict(&lines).unwrap_err();
    assert_eq!(e.message, "Failed to deploy:\nfirst\nsecond");
    let one = vec!["only".to_string()];
    assert_eq!(deploy_verdict(&one).unwrap_err().message, "Failed to deploy:\nonly");
}

#[test]
fn log_lines_split_at_the_first_bar() {
    let r = split_log_line(&"web|hello world".to_string()).unwrap();
    assert_eq!(r.0, "web");
    assert_eq!(r.1, "hello world");
    let r = split_log_line(&"web|a|b".to_string()).unwrap();
    assert_eq!(r.0, "web");
    assert_eq!(r.1, "a|b");
    assert!(split_log_line(&"no bar here".to_string()).is_none());
}

#[test]
fn iso_prefix_lengths() {
    assert_eq!(iso_prefix_len("2019-01-02T03:04:05Z rest"), Some(20));
    assert_eq!(iso_prefix_len("2019-01-02T03:04:05+01:30 rest"), Some(25));
    assert_eq!(iso_prefix_len("2019-01-02T03:04:05.123Z tail"), Some(24));
    assert_eq!(iso_prefix_len("2019-01-02T03:04:05.123456-05:00 x"), Some(32));
    assert_eq!(iso_prefix_len("2019-01-02T03:04:05"), None);
    assert_eq!(iso_prefix_len("2019-01-02 03:04:05Z"), None);
    assert_eq!(iso_prefix_len("hello"), None);
    assert_eq!(iso_prefix_len("2019-01-02T03:04:05.Z"), None);
    assert_eq!(iso_prefix_len("x2019-01-02T03:04:05Z"), None);
}

#[test]
fn timestamp_split_drops_one_separator_character() {
    let (stamp, rest) = split_timestamp(&"2019-01-02T03:04:05Z message".to_string(), 20);
    assert_eq!(stamp, "2019-01-02T03:04:05Z");
    assert_eq!(rest, "message");
    let (stamp, rest) = split_timestamp(&"2019-01-02T03:04:05Z".to_string(), 20);
    assert_eq!(stamp, "2019-01-02T03:04:05Z");
    assert_eq!(rest, "");
}

fn secret(name: &str, at: i64) -> Secret {
    Secret { name: name.to_string(), ty: SecretType::Raw, created_at: at }
}

#[test]
fn secrets_sort_newest_first() {
    let mut v = vec![secret("a", 1), secret("b", 5), secret("c", 3)];
    sort_secrets_newest_first(&mut v);
    let order: Vec<_> = v.iter().map(|s| (s.name.as_str(), s.created_at)).collect();
    assert_eq!(order, vec![("b", 5), ("c", 3), ("a", 1)]);
}

#[test]
fn secrets_sort_keeps_equal_timestamps() {
    let mut v = vec![secret("a", 2), secret("b", 2), secret("c", 9)];
    sort_secrets_newest_first(&mut v);
    assert_eq!(v.len(), 3);
    assert_eq!(v[0].name, "c");
    let mut tail: Vec<_> = v[1..].iter().map(|s| s.name.as_str()).collect();
    tail.sort();
    assert_eq!(tail, vec!["a", "b"]);
}

#[test]
fn apps_sort_newest_first() {
    let mut v = vec![
        App::with_name(&"old".to_string(), 10),
        App::with_name(&"new".to_string(), 30),
        App::with_name(&"mid".to_string(), 20),
    ];
    sort_apps_newest_first(&mut v);
    let names: Vec<_> = v.iter().map(|a| a.name.as_str()).collect();
    assert_eq!(names, vec!["new", "mid", "old"]);
}
