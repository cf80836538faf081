use zplugin_dds::filter::{allowed_by, is_allowed, AllowFilter, FilterError};

#[test]
fn no_filter_allows_every_key() {
    assert!(is_allowed(&None, "robot1/Chatter"));
    assert!(is_allowed(&None, ""));
}

#[test]
fn filter_allows_what_the_pattern_matches() {
    let filter = Some(AllowFilter::new("^robot1/.*Chatter$").ok().unwrap());
    assert!(is_allowed(&filter, "robot1/Chatter"));
    assert!(is_allowed(&filter, "robot1/a/Chatter"));
    assert!(!is_allowed(&filter, "robot2/Chatter"));
    assert!(!is_allowed(&filter, "robot1/Chatter2"));
}

#[test]
fn pattern_matches_anywhere_in_the_key() {
    let filter = AllowFilter::new("cam").ok().unwrap();
    assert!(filter.is_match("robot/camera/image"));
    assert!(!filter.is_match("robot/lidar"));
    assert!(!filter.is_match(""));
}

#[test]
fn pattern_is_not_compared_as_plain_text() {
    let filter = AllowFilter::new("a.c").ok().unwrap();
    assert!(filter.is_match("abc"));
    assert!(!filter.is_match("a.b"));
    assert_eq!(filter.as_str(), "a.c");
}

#[test]
fn broken_pattern_is_a_syntax_error() {
    match AllowFilter::new("foo(bar") {
        Err(FilterError::Syntax(message)) => assert!(!message.is_empty()),
        Err(other) => panic!("{:?}", other),
        Ok(_) => panic!("compiled"),
    }
}

#[test]
fn huge_pattern_is_too_big() {
    match AllowFilter::new(r"\w{1000}") {
        Err(FilterError::TooBig(limit)) => assert!(limit > 0),
        Err(other) => panic!("{:?}", other),
        Ok(_) => panic!("compiled"),
    }
}

#[test]
fn allowed_by_goes_by_the_match() {
    assert!(allowed_by(None));
    assert!(allowed_by(Some(true)));
    assert!(!allowed_by(Some(false)));
}
