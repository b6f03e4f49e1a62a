use diom::cfg::env::{env_var_comma_separated, env_var_ms, InvalidEnvValue};

#[test]
fn millis_from_environment() {
    assert_eq!(env_var_ms(None), Ok(None));
    assert_eq!(env_var_ms(Some("1500")), Ok(Some(1500)));
    assert_eq!(env_var_ms(Some("+7")), Ok(Some(7)));
    assert_eq!(env_var_ms(Some("18446744073709551615")), Ok(Some(u64::MAX)));
    assert_eq!(env_var_ms(Some("18446744073709551616")), Err(InvalidEnvValue));
    assert_eq!(env_var_ms(Some("1.5s")), Err(InvalidEnvValue));
    assert_eq!(env_var_ms(Some("")), Err(InvalidEnvValue));
}

#[test]
fn lists_from_environment() {
    assert_eq!(env_var_comma_separated(None), None);
    assert_eq!(
        env_var_comma_separated(Some(" a:1, b:2 ,c:3")),
        Some(vec!["a:1".to_string(), "b:2".to_string(), "c:3".to_string()])
    );
    assert_eq!(env_var_comma_separated(Some("")), Some(vec![String::new()]));
}
