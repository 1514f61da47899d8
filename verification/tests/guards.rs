use tmp_env::{CurrentDir, CurrentEnv, RestoreAction, TmpDir, random_name};

fn is_name_char(c: char) -> bool {
    c.is_ascii_alphanumeric()
}

#[test]
fn env_guard_with_prior_value_restores_it() {
    let guard = CurrentEnv::capture(
        String::from("TEST_TMP_ENV_PREVIOUS"),
        Some(String::from("previous_value")),
    );
    assert_eq!(guard.key(), "TEST_TMP_ENV_PREVIOUS");
    assert_eq!(guard.prior_value().as_deref(), Some("previous_value"));
    match guard.release() {
        RestoreAction::SetValue { key, value } => {
            assert_eq!(key, "TEST_TMP_ENV_PREVIOUS");
            assert_eq!(value, "previous_value");
        }
        RestoreAction::Unset { .. } => panic!("a captured value must be set back"),
    }
}

#[test]
fn env_guard_without_prior_value_unsets() {
    let guard = CurrentEnv::capture(String::from("TEST_TMP_ENV"), None);
    assert_eq!(guard.prior_value(), &None);
    match guard.release() {
        RestoreAction::Unset { key } => assert_eq!(key, "TEST_TMP_ENV"),
        RestoreAction::SetValue { .. } => panic!("a captured absence must unset"),
    }
}

#[test]
fn env_guard_keeps_empty_string_distinct_from_absence() {
    let guard = CurrentEnv::capture(String::from("TEST_TMP_ENV"), Some(String::new()));
    match guard.release() {
        RestoreAction::SetValue { key, value } => {
            assert_eq!(key, "TEST_TMP_ENV");
            assert_eq!(value, "");
        }
        RestoreAction::Unset { .. } => panic!("an empty prior value is still a value"),
    }
}

#[test]
fn dir_guard_releases_the_captured_directory() {
    let guard = CurrentDir::capture(String::from("/home/someone/project"));
    assert_eq!(guard.prior_dir(), "/home/someone/project");
    assert_eq!(guard.release(), "/home/someone/project");
}

#[test]
fn random_name_is_ten_alphanumeric_chars() {
    let name = random_name();
    assert_eq!(name.chars().count(), 10);
    assert!(name.chars().all(is_name_char));
}

#[test]
fn random_names_are_distinct() {
    let first = random_name();
    let second = random_name();
    assert_ne!(first, second);
}

#[test]
fn tmp_dir_path_sits_under_the_root() {
    let dir = TmpDir::new_under("/tmp");
    let path = dir.path().clone();
    assert_eq!(path.len(), "/tmp".len() + 1 + 10);
    assert!(path.starts_with("/tmp/"));
    assert!(path["/tmp/".len()..].chars().all(is_name_char));
    assert_eq!(dir.release(), path);
}

#[test]
fn tmp_dir_paths_are_distinct() {
    let first = TmpDir::new_under("/tmp");
    let second = TmpDir::new_under("/tmp");
    assert_ne!(first.path(), second.path());
}
