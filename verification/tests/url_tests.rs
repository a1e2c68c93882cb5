use repo_backup::url::inject_token;

#[test]
fn injects_token_after_scheme() {
    let r = inject_token("https://host/org/repo.git", "T");
    assert_eq!(r, "https://T@host/org/repo.git");
}

#[test]
fn injection_is_idempotent() {
    let once = inject_token("https://github.com/u/x.git", "abc123");
    assert_eq!(once, "https://abc123@github.com/u/x.git");
    let twice = inject_token(&once, "abc123");
    assert_eq!(twice, once);
}

#[test]
fn non_https_url_is_unchanged() {
    assert_eq!(inject_token("http://host/x.git", "T"), "http://host/x.git");
    assert_eq!(inject_token("git@host:x.git", "T"), "git@host:x.git");
    assert_eq!(inject_token("", "T"), "");
}

#[test]
fn empty_token_still_marks_user_info() {
    assert_eq!(inject_token("https://h", ""), "https://@h");
    assert_eq!(inject_token("https://@h", ""), "https://@h");
}

#[test]
fn scheme_alone_gets_marker() {
    assert_eq!(inject_token("https://", "t"), "https://t@");
}
