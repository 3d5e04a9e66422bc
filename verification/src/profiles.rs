//! Listing the profiles that the command-line client's configuration file
//! declares.

use vstd::prelude::*;
use vstd::string::StringExecFns;
use crate::error::{ErrorKind, ProcessError};
use crate::invoke::{check_aws_cli, cli_verdict, Invocation};
use crate::text::{
    chars_of, has_prefix, lines, optional_texts, present, present_strings, slice_of, split_lines,
    starts_with, texts,
};

verus! {

/// The profile that a line of the configuration file declares, if it
/// declares one: the name between `[profile ` and a closing bracket at the
/// very end of the line, or `default` for a line that begins with
/// `[default]`.
pub open spec fn profile_of_line(line: Seq<char>) -> Option<Seq<char>> {
    if has_prefix(line, "[profile "@) {
        let rest = line.subrange("[profile "@.len() as int, line.len() as int);
        if rest.len() > 0 && rest.last() == ']' {
            Some(rest.drop_last())
        } else {
            None
        }
    } else if has_prefix(line, "[default]"@) {
        Some("default"@)
    } else {
        None
    }
}

/// The profiles that the lines declare, in their order.
pub open spec fn declared_profiles(content: Seq<char>) -> Seq<Seq<char>> {
    present(lines(content).map_values(|line: Seq<char>| profile_of_line(line)))
}

/// The profiles that a configuration file with the text `content` offers:
/// those that it declares, or `default` alone where it declares none.
pub open spec fn profiles_of(content: Seq<char>) -> Seq<Seq<char>> {
    if declared_profiles(content).len() == 0 {
        seq!["default"@]
    } else {
        declared_profiles(content)
    }
}

/// The profile that `line` declares, if it declares one.
pub fn profile_in_line(line: &str) -> (profile: Option<String>)
    ensures
        profile is Some <==> profile_of_line(line@) is Some,
        profile is Some ==> profile_of_line(line@) == Some(profile->0@),
{
    let chars = chars_of(line);
    let opening = chars_of("[profile ");
    let default_header = chars_of("[default]");
    let len: usize = chars.len();
    if starts_with(&chars, &opening) {
        let from: usize = opening.len();
        if len > from && chars[len - 1] == ']' {
            let name = slice_of(line, from, len - 1);
            proof {
                let rest = line@.subrange(from as int, len as int);
                assert(rest.last() == line@[len - 1]);
                assert(rest.drop_last() =~= line@.subrange(from as int, len - 1));
            }
            Some(name)
        } else {
            proof {
                let rest = line@.subrange(from as int, len as int);
                if rest.len() > 0 {
                    assert(rest.last() == line@[len - 1]);
                }
            }
            None
        }
    } else if starts_with(&chars, &default_header) {
        Some(String::from_str("default"))
    } else {
        None
    }
}

/// The profiles that a configuration file with the text `content` offers.
pub fn parse_profiles(content: &str) -> (profiles: Vec<String>)
    ensures
        texts(profiles@) == profiles_of(content@),
{
    let all = split_lines(content);
    let n: usize = all.len();
    let mut found: Vec<Option<String>> = Vec::new();
    let mut i: usize = 0;
    let ghost wanted = lines(content@).map_values(|line: Seq<char>| profile_of_line(line));
    while i < n
        invariant
            n == all@.len(),
            i <= n,
            texts(all@) == lines(content@),
            wanted == lines(content@).map_values(|line: Seq<char>| profile_of_line(line)),
            optional_texts(found@) =~= wanted.take(i as int),
        decreases n - i,
    {
        assert(texts(all@)[i as int] == all@[i as int]@);
        let entry = profile_in_line(all[i].as_str());
        let ghost before = found@;
        found.push(entry);
        assert(optional_texts(found@) =~= optional_texts(before).push(wanted[i as int]));
        i += 1;
    }
    assert(wanted.take(n as int) =~= wanted);
    let mut profiles = present_strings(&found);
    if profiles.len() == 0 {
        let ghost before = profiles@;
        profiles.push(String::from_str("default"));
        assert(texts(profiles@) =~= seq!["default"@]);
    }
    profiles
}

/// The home directory: the one that the environment names as such, else the
/// user's profile directory.
pub fn home_directory(home: Option<String>, user_profile: Option<String>) -> (dir: Option<String>)
    ensures
        dir == if home is Some {
            home
        } else {
            user_profile
        },
{
    match home {
        Some(dir) => Some(dir),
        None => user_profile,
    }
}

/// The path of the configuration file under the home directory `home`.
pub fn config_path(home: &str) -> (path: String)
    ensures
        path@ == home@ + "/.aws/config"@,
{
    String::from_str(home).concat("/.aws/config")
}

/// What reading the configuration file came to.
#[derive(Debug)]
pub enum ConfigRead {
    /// There is no file at the path.
    Missing,
    /// The file could not be read, with the system's description.
    Unreadable(String),
    /// The text of the file.
    Content(String),
}

/// Whether `out` is the list of profiles, or the failure, that follows from
/// the probe of the command-line client, the home directory and what
/// reading the configuration file under it came to. The client is looked at
/// first, then the home directory, then the file.
pub open spec fn profiles_outcome(
    probe: Invocation,
    home: Option<String>,
    config: ConfigRead,
    out: Result<Vec<String>, ProcessError>,
) -> bool {
    if !(probe is Completed && probe->Completed_0.success) {
        out is Err && cli_verdict(probe, Err::<(), ProcessError>(out->Err_0))
    } else if home is None {
        out is Err && out->Err_0.is(ErrorKind::IoFailure, "Could not find home directory"@)
    } else {
        let path = home->0@ + "/.aws/config"@;
        match config {
            ConfigRead::Missing => out is Err && out->Err_0.is(
                ErrorKind::IoFailure,
                "AWS configuration file not found at: "@ + path
                    + "\n\nPlease create ~/.aws/config with your AWS SSO profiles. Example:\n\n[profile my-profile]\nsso_start_url = https://your-sso-portal.awsapps.com/start\nsso_region = us-east-1\nsso_account_id = 123456789012\nsso_role_name = YourRole\nregion = eu-north-1"@,
            ),
            ConfigRead::Unreadable(detail) => out is Err && out->Err_0.is(
                ErrorKind::IoFailure,
                "Failed to read AWS config file at "@ + path + ": "@ + detail@
                    + "\n\nPlease ensure the file exists and is readable."@,
            ),
            ConfigRead::Content(content) => out is Ok && texts(out->Ok_0@) == profiles_of(
                content@,
            ),
        }
    }
}

/// The profiles that the configuration file offers, given the probe of the
/// command-line client, the home directory from the environment, and what
/// reading the file at `config_path` of that directory came to.
pub fn list_aws_profiles(
    probe: Invocation,
    home: Option<String>,
    config: ConfigRead,
) -> (out: Result<Vec<String>, ProcessError>)
    ensures
        profiles_outcome(probe, home, config, out),
{
    match check_aws_cli(probe) {
        Err(e) => {
            return Err(e);
        },
        Ok(()) => {},
    }
    let home = match home {
        Some(home) => home,
        None => {
            return Err(
                ProcessError::new(
                    ErrorKind::IoFailure,
                    String::from_str("Could not find home directory"),
                ),
            );
        },
    };
    let path = config_path(home.as_str());
    match config {
        ConfigRead::Missing => Err(
            ProcessError::new(
                ErrorKind::IoFailure,
                String::from_str("AWS configuration file not found at: ").concat(
                    path.as_str(),
                ).concat(
                    "\n\nPlease create ~/.aws/config with your AWS SSO profiles. Example:\n\n[profile my-profile]\nsso_start_url = https://your-sso-portal.awsapps.com/start\nsso_region = us-east-1\nsso_account_id = 123456789012\nsso_role_name = YourRole\nregion = eu-north-1",
                ),
            ),
        ),
        ConfigRead::Unreadable(detail) => Err(
            ProcessError::new(
                ErrorKind::IoFailure,
                String::from_str("Failed to read AWS config file at ").concat(path.as_str()).concat(
                    ": ",
                ).concat(detail.as_str()).concat(
                    "\n\nPlease ensure the file exists and is readable.",
                ),
            ),
        ),
        ConfigRead::Content(content) => Ok(parse_profiles(content.as_str())),
    }
}

} // verus!
