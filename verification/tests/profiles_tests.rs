use process_sessions::error::ErrorKind;
use process_sessions::invoke::{Invocation, InvocationResult, LaunchError};
use process_sessions::profiles::{
    config_path, home_directory, list_aws_profiles, parse_profiles, profile_in_line, ConfigRead,
};

fn working() -> Invocation {
    Invocation::Completed(InvocationResult {
        success: true,
        stdout: Vec::new(),
        stderr: Vec::new(),
        exit_code: Some(0),
    })
}

#[test]
fn profile_lines() {
    assert_eq!(profile_in_line("[profile dev]"), Some("dev".to_string()));
    assert_eq!(profile_in_line("[profile my profile]"), Some("my profile".to_string()));
    assert_eq!(profile_in_line("[profile ]"), Some("".to_string()));
    assert_eq!(profile_in_line("[profile a]]"), Some("a]".to_string()));
    assert_eq!(profile_in_line("[profile dev"), None);
    assert_eq!(profile_in_line("[profile dev] "), None);
    assert_eq!(profile_in_line("[profile "), None);
    assert_eq!(profile_in_line(" [profile dev]"), None);
    assert_eq!(profile_in_line("[profiledev]"), None);
    assert_eq!(profile_in_line("[default]"), Some("default".to_string()));
    assert_eq!(profile_in_line("[default] # main"), Some("default".to_string()));
    assert_eq!(profile_in_line("[default"), None);
    assert_eq!(profile_in_line("region = eu-north-1"), None);
    assert_eq!(profile_in_line(""), None);
}

#[test]
fn profiles_are_listed_in_file_order() {
    let content = "[default]\nregion = eu-north-1\n\n[profile dev]\nsso_region = us-east-1\n[profile prod]\r\n";
    assert_eq!(
        parse_profiles(content),
        vec!["default".to_string(), "dev".to_string(), "prod".to_string()]
    );
}

#[test]
fn file_without_profiles_offers_default() {
    assert_eq!(parse_profiles(""), vec!["default".to_string()]);
    assert_eq!(parse_profiles("region = x\n[sso-session a]\n"), vec!["default".to_string()]);
}

#[test]
fn repeated_profiles_are_kept() {
    assert_eq!(
        parse_profiles("[profile a]\n[profile a]"),
        vec!["a".to_string(), "a".to_string()]
    );
}

#[test]
fn home_directory_falls_back_to_the_user_profile() {
    assert_eq!(home_directory(Some("/home/u".to_string()), None), Some("/home/u".to_string()));
    assert_eq!(
        home_directory(Some("/home/u".to_string()), Some("C:\\Users\\u".to_string())),
        Some("/home/u".to_string())
    );
    assert_eq!(home_directory(None, Some("C:\\Users\\u".to_string())), Some("C:\\Users\\u".to_string()));
    assert_eq!(home_directory(None, None), None);
    assert_eq!(config_path("/home/u"), "/home/u/.aws/config");
}

#[test]
fn listing_reads_the_configuration() {
    let out = list_aws_profiles(
        working(),
        Some("/home/u".to_string()),
        ConfigRead::Content("[profile a]\n".to_string()),
    );
    assert_eq!(out.unwrap(), vec!["a".to_string()]);
}

#[test]
fn listing_fails_on_an_unusable_client_first() {
    let bad = Invocation::Completed(InvocationResult {
        success: false,
        stdout: Vec::new(),
        stderr: Vec::new(),
        exit_code: Some(1),
    });
    let e = list_aws_profiles(bad, None, ConfigRead::Missing).unwrap_err();
    assert_eq!(e.kind(), ErrorKind::CommandFailed);
    assert_eq!(
        e.message(),
        "AWS CLI is installed but not working properly. Please check your installation."
    );
    let e = list_aws_profiles(
        Invocation::NotStarted(LaunchError { not_found: true, detail: "x".to_string() }),
        Some("/h".to_string()),
        ConfigRead::Content("[profile a]".to_string()),
    )
    .unwrap_err();
    assert_eq!(e.kind(), ErrorKind::ToolNotFound);
    let e = list_aws_profiles(
        Invocation::NotStarted(LaunchError { not_found: false, detail: "denied".to_string() }),
        Some("/h".to_string()),
        ConfigRead::Content("[profile a]".to_string()),
    )
    .unwrap_err();
    assert_eq!(e.kind(), ErrorKind::SpawnFailed);
    assert_eq!(e.message(), "Failed to check AWS CLI: denied");
    let e = list_aws_profiles(
        Invocation::TimedOut,
        Some("/h".to_string()),
        ConfigRead::Content("[profile a]".to_string()),
    )
    .unwrap_err();
    assert_eq!(e.kind(), ErrorKind::Timeout);
    assert_eq!(e.message(), "Command timeout after 30 seconds");
}

#[test]
fn listing_fails_without_a_home_directory() {
    let e = list_aws_profiles(working(), None, ConfigRead::Content("[profile a]".to_string()))
        .unwrap_err();
    assert_eq!(e.kind(), ErrorKind::IoFailure);
    assert_eq!(e.message(), "Could not find home directory");
}

#[test]
fn listing_fails_on_a_missing_or_unreadable_file() {
    let e = list_aws_profiles(working(), Some("/home/u".to_string()), ConfigRead::Missing).unwrap_err();
    assert_eq!(e.kind(), ErrorKind::IoFailure);
    assert_eq!(
        e.message(),
        "AWS configuration file not found at: /home/u/.aws/config\n\nPlease create ~/.aws/config with your AWS SSO profiles. Example:\n\n[profile my-profile]\nsso_start_url = https://your-sso-portal.awsapps.com/start\nsso_region = us-east-1\nsso_account_id = 123456789012\nsso_role_name = YourRole\nregion = eu-north-1"
    );
    let e = list_aws_profiles(
        working(),
        Some("/home/u".to_string()),
        ConfigRead::Unreadable("Permission denied (os error 13)".to_string()),
    )
    .unwrap_err();
    assert_eq!(e.kind(), ErrorKind::IoFailure);
    assert_eq!(
        e.message(),
        "Failed to read AWS config file at /home/u/.aws/config: Permission denied (os error 13)\n\nPlease ensure the file exists and is readable."
    );
}
