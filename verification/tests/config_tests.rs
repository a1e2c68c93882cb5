use repo_backup::config::missing_var_message;
use repo_backup::config::sync_start_message;
use repo_backup::config::Config;
use repo_backup::config::ConfigError;
use repo_backup::text::str_starts_with;
use repo_backup::text::u64_to_dec;

// An unset token variable stops startup with a diagnostic naming it,
// before anything else runs.
#[test]
fn missing_token_is_fatal_with_a_diagnostic() {
    match Config::from_token(None) {
        Err(e) => assert_eq!(e, ConfigError::MissingToken),
        Ok(_) => panic!("expected an error"),
    }
    assert_eq!(missing_var_message("GITHUB_TOKEN"), "GITHUB_TOKEN not set");
}

#[test]
fn a_set_token_gives_the_default_configuration() {
    match Config::from_token(Some("abc123".to_string())) {
        Ok(c) => {
            assert_eq!(c.token, "abc123");
            assert_eq!(c.backup_root, "./backup");
            assert_eq!(c.interval_secs, 24 * 60 * 60);
            assert_eq!(c.page_size, 1000);
        },
        Err(e) => panic!("unexpected error {:?}", e),
    }
}

#[test]
fn progress_lines_name_the_repository() {
    assert_eq!(sync_start_message("x"), "Start backup x");
}

#[test]
fn decimal_rendering_is_exact() {
    assert_eq!(u64_to_dec(0), "0");
    assert_eq!(u64_to_dec(7), "7");
    assert_eq!(u64_to_dec(10), "10");
    assert_eq!(u64_to_dec(86400), "86400");
    assert_eq!(u64_to_dec(u64::MAX), "18446744073709551615");
}

#[test]
fn prefix_test_is_exact() {
    assert!(str_starts_with("https://h", "https://"));
    assert!(!str_starts_with("http://h", "https://"));
    assert!(!str_starts_with("https:/", "https://"));
    assert!(str_starts_with("anything", ""));
}
