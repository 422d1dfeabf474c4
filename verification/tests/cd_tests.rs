use lx_shell::cd::{cmd, expand_home_path, CdError};

#[test]
fn returns_none_when_home_path_is_not_present() {
    assert_eq!(None, expand_home_path("...", &None));
}

#[test]
fn expands_when_path_contains_only_a_tilde() {
    let home_dir = "/home/flyingsloths";

    assert_eq!(
        Some(home_dir.to_string()),
        expand_home_path("~", &Some(home_dir.to_string()))
    );
}

#[test]
fn expands_when_path_contains_a_tilde() {
    let home_dir = "/home/flyingsloths";

    assert_eq!(
        Some(home_dir.to_string() + "/.config/"),
        expand_home_path("~/.config/", &Some(home_dir.to_string()))
    );
}

#[test]
#[should_panic]
fn when_path_and_home_dir_not_present_errors() {
    cmd(&None, None, "/").unwrap();
}

#[test]
fn expands_when_tilde_is_followed_by_more_without_separator() {
    assert_eq!(
        Some("/home/ufoo".to_string()),
        expand_home_path("~foo", &Some("/home/u".to_string()))
    );
}

#[test]
fn does_not_expand_without_home_dir() {
    assert_eq!(None, expand_home_path("~", &None));
    assert_eq!(None, expand_home_path("~/.config/", &None));
}

#[test]
fn does_not_expand_without_leading_tilde() {
    assert_eq!(None, expand_home_path("x", &Some("/home/u".to_string())));
}

#[test]
fn cd_with_no_path_targets_home_dir() {
    let home = Some("/home/u".to_string());
    assert_eq!(Ok("/home/u".to_string()), cmd(&home, None, "/anywhere"));
}

#[test]
fn cd_with_no_path_and_no_home_dir_is_not_found() {
    let r = cmd(&None, None, "/a/b");
    assert_eq!(Err(CdError::HomeDirNotFound), r);
    assert!(r.unwrap_err().message().contains("not found"));
}

#[test]
fn cd_resolves_relative_path_against_cwd() {
    let home = Some("/home/u".to_string());
    assert_eq!(
        Ok("/a/b/relative/dir".to_string()),
        cmd(&home, Some("relative/dir".to_string()), "/a/b")
    );
}

#[test]
fn cd_keeps_absolute_path() {
    let home = Some("/home/u".to_string());
    assert_eq!(Ok("/etc".to_string()), cmd(&home, Some("/etc".to_string()), "/a/b"));
}

#[test]
fn cd_expands_tilde_before_resolving() {
    let home = Some("/home/u".to_string());
    assert_eq!(Ok("/home/u/x".to_string()), cmd(&home, Some("~/x".to_string()), "/a/b"));
}

#[test]
fn cd_uses_tilde_literally_without_home_dir() {
    assert_eq!(Ok("/a/b/~/x".to_string()), cmd(&None, Some("~/x".to_string()), "/a/b"));
}

#[test]
fn home_dir_not_found_message_text() {
    assert_eq!("Home directory not found", CdError::HomeDirNotFound.message());
}
