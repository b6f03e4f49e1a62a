use diom::uid::{limited_str_problem, starts_with, validate_limited_str, validate_uid, LimitedStrPattern, UidProblem};

#[test]
fn limited_str_length_rules() {
    assert_eq!(limited_str_problem("", true), Some(UidProblem::Empty));
    assert_eq!(limited_str_problem(&"a".repeat(257), true), Some(UidProblem::TooLong));
    assert_eq!(limited_str_problem(&"a".repeat(256), true), None);
    assert_eq!(limited_str_problem("abc", false), Some(UidProblem::IllegalPattern));
}

#[test]
fn limited_str_pattern_checks_characters() {
    let p = LimitedStrPattern::new().unwrap();
    assert_eq!(validate_limited_str("user_1.a-b:c", &p), Ok(()));
    assert_eq!(validate_limited_str("with space", &p), Err(UidProblem::IllegalPattern));
    assert_eq!(validate_limited_str("é", &p), Err(UidProblem::IllegalPattern));
    assert_eq!(validate_limited_str("", &p), Err(UidProblem::Empty));
    assert_eq!(validate_limited_str("abc\n", &p), Err(UidProblem::IllegalPattern));
    assert_eq!(validate_limited_str("ABC:09", &p), Ok(()));
}

#[test]
fn uid_must_not_look_like_an_id() {
    let p = LimitedStrPattern::new().unwrap();
    assert_eq!(validate_uid("app_1", "app_", &p), Err(vec![UidProblem::IdPrefix]));
    assert_eq!(validate_uid("my-app", "app_", &p), Ok(()));
    assert_eq!(validate_uid("app_ x", "app_", &p), Err(vec![UidProblem::IllegalPattern, UidProblem::IdPrefix]));
    assert!(starts_with("prefix-rest", "prefix"));
    assert!(!starts_with("pre", "prefix"));
}
