use process_sessions::search_path::{join, search_path, Platform};

#[test]
fn join_puts_the_separator_between_parts() {
    assert_eq!(join(&vec!["a".to_string(), "b".to_string(), "c".to_string()], ":"), "a:b:c");
    assert_eq!(join(&vec!["a".to_string()], ":"), "a");
    assert_eq!(join(&Vec::new(), ":"), "");
    assert_eq!(join(&vec!["".to_string(), "".to_string()], ";"), ";");
    assert_eq!(join(&vec!["a".to_string(), "b".to_string()], ""), "ab");
}

#[test]
fn linux_path_is_augmented() {
    assert_eq!(
        search_path(Platform::Linux, Some("/home/u/bin"), None),
        "/home/u/bin:/usr/local/bin:/usr/bin:/bin"
    );
    assert_eq!(search_path(Platform::Linux, None, None), "/usr/local/bin:/usr/bin:/bin");
    assert_eq!(search_path(Platform::Linux, Some(""), Some("C:\\PF")), ":/usr/local/bin:/usr/bin:/bin");
}

#[test]
fn macos_path_is_augmented() {
    assert_eq!(
        search_path(Platform::MacOs, Some("/usr/bin"), None),
        "/usr/bin:/usr/local/bin:/opt/homebrew/bin:/opt/homebrew/opt/awscli/bin:/usr/bin:/bin"
    );
}

#[test]
fn windows_path_is_augmented_with_the_program_directory() {
    assert_eq!(
        search_path(Platform::Windows, Some("C:\\Windows"), Some("C:\\Program Files")),
        "C:\\Windows;C:\\Program Files\\Amazon\\AWSCLIV2"
    );
    assert_eq!(search_path(Platform::Windows, Some("C:\\Windows"), None), "C:\\Windows");
    assert_eq!(search_path(Platform::Windows, None, None), "");
}

#[test]
fn other_platforms_keep_their_path() {
    assert_eq!(search_path(Platform::Other, Some("/bin:/sbin"), Some("x")), "/bin:/sbin");
    assert_eq!(search_path(Platform::Other, None, None), "");
}
