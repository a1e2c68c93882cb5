use repo_backup::listing::parse_repo_list;
use repo_backup::listing::ListError;
use repo_backup::plan::backup_path;
use repo_backup::plan::plan_pass;
use repo_backup::plan::plan_repo;
use repo_backup::plan::SyncAction;
use repo_backup::repo::Repo;

fn repo(name: &str, clone_url: &str) -> Repo {
    Repo { name: name.to_string(), clone_url: clone_url.to_string() }
}

#[test]
fn absent_name_is_planned_as_clone() {
    let existing = vec!["other".to_string()];
    match plan_repo(&repo("x", "https://h/x.git"), &existing, "T") {
        SyncAction::CloneRepo { name, url } => {
            assert_eq!(name, "x");
            assert_eq!(url, "https://T@h/x.git");
        },
        SyncAction::PullRepo { .. } => panic!("expected a clone"),
    }
}

#[test]
fn present_name_is_planned_as_pull() {
    let existing = vec!["other".to_string(), "x".to_string()];
    match plan_repo(&repo("x", "https://h/x.git"), &existing, "T") {
        SyncAction::PullRepo { name } => assert_eq!(name, "x"),
        SyncAction::CloneRepo { .. } => panic!("expected a pull"),
    }
}

#[test]
fn backup_paths_join_root_and_name() {
    assert_eq!(backup_path("./backup", "x"), "./backup/x");
    assert_eq!(backup_path("/srv/mirrors", "tool"), "/srv/mirrors/tool");
}

#[test]
fn failed_listing_plans_nothing() {
    let existing = vec!["x".to_string()];
    let plan = plan_pass(Err(ListError::Network), &existing, "T");
    assert_eq!(plan.len(), 0);
    let plan = plan_pass(Err(ListError::InvalidJson), &existing, "T");
    assert_eq!(plan.len(), 0);
}

#[test]
fn malformed_body_means_zero_sync_operations() {
    let listing = parse_repo_list(r#"{"not":"an array"}"#);
    assert!(listing.is_err());
    let plan = plan_pass(listing, &Vec::new(), "T");
    assert_eq!(plan.len(), 0);
}

// The scenario of one repository `x` appearing in the listing: the first
// pass clones it, the second pass — with `backup/x` now present and the
// listing unchanged — updates it in place and creates nothing new.
#[test]
fn first_pass_clones_second_pass_pulls() {
    let body = r#"[{"name":"x","clone_url":"https://github.com/u/x.git"}]"#;
    let token = "abc123";

    let mut dirs: Vec<String> = Vec::new();
    let plan = plan_pass(parse_repo_list(body), &dirs, token);
    assert_eq!(plan.len(), 1);
    match &plan[0] {
        SyncAction::CloneRepo { name, url } => {
            assert_eq!(name, "x");
            assert_eq!(url, "https://abc123@github.com/u/x.git");
            assert_eq!(backup_path("./backup", name), "./backup/x");
            dirs.push(name.clone());
        },
        SyncAction::PullRepo { .. } => panic!("expected a clone"),
    }

    let before_second: Vec<String> = dirs.clone();
    let plan = plan_pass(parse_repo_list(body), &dirs, token);
    assert_eq!(plan.len(), 1);
    match &plan[0] {
        SyncAction::PullRepo { name } => assert_eq!(name, "x"),
        SyncAction::CloneRepo { .. } => panic!("expected a pull"),
    }
    assert_eq!(dirs, before_second);
}

#[test]
fn pass_plans_follow_listing_order() {
    let body = r#"[
        {"name":"a","clone_url":"https://h/a.git"},
        {"name":"b","clone_url":"https://h/b.git"}
    ]"#;
    let existing = vec!["b".to_string()];
    let plan = plan_pass(parse_repo_list(body), &existing, "t");
    assert_eq!(plan.len(), 2);
    match &plan[0] {
        SyncAction::CloneRepo { name, url } => {
            assert_eq!(name, "a");
            assert_eq!(url, "https://t@h/a.git");
        },
        SyncAction::PullRepo { .. } => panic!("expected a clone"),
    }
    match &plan[1] {
        SyncAction::PullRepo { name } => assert_eq!(name, "b"),
        SyncAction::CloneRepo { .. } => panic!("expected a pull"),
    }
}
