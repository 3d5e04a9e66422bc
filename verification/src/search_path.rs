//! The search path handed to a spawned process: the caller's own, followed
//! by the directories where the command-line client is commonly installed.

use vstd::prelude::*;
use vstd::string::StringExecFns;
use crate::text::texts;

verus! {

/// The platform that the process runs on.
#[derive(Clone, Copy, Debug, PartialEq, Eq, Structural)]
pub enum Platform {
    MacOs,
    Linux,
    Windows,
    Other,
}

/// `parts` with `separator` between each two.
pub open spec fn joined(parts: Seq<Seq<char>>, separator: Seq<char>) -> Seq<char>
    decreases parts.len(),
{
    if parts.len() == 0 {
        Seq::empty()
    } else if parts.len() == 1 {
        parts[0]
    } else {
        joined(parts.drop_last(), separator) + separator + parts.last()
    }
}

/// The separator between the directories of a search path.
pub open spec fn separator_of(platform: Platform) -> Seq<char> {
    if platform == Platform::Windows {
        ";"@
    } else {
        ":"@
    }
}

/// The directories that are added on `platform`, where `program_files` is
/// the program directory that the environment names, if it names one.
pub open spec fn extra_dirs(platform: Platform, program_files: Option<Seq<char>>) -> Seq<Seq<char>> {
    match platform {
        Platform::MacOs => seq![
            "/usr/local/bin"@,
            "/opt/homebrew/bin"@,
            "/opt/homebrew/opt/awscli/bin"@,
            "/usr/bin"@,
            "/bin"@,
        ],
        Platform::Linux => seq!["/usr/local/bin"@, "/usr/bin"@, "/bin"@],
        Platform::Windows => match program_files {
            Some(dir) => seq![dir + "\\Amazon\\AWSCLIV2"@],
            None => Seq::empty(),
        },
        Platform::Other => Seq::empty(),
    }
}

/// The entries of the search path: the caller's own path first, where the
/// environment has one, then the added directories.
pub open spec fn search_dirs(
    platform: Platform,
    existing: Option<Seq<char>>,
    program_files: Option<Seq<char>>,
) -> Seq<Seq<char>> {
    match existing {
        Some(path) => seq![path] + extra_dirs(platform, program_files),
        None => extra_dirs(platform, program_files),
    }
}

/// The view of an optional string.
pub open spec fn optional_text(s: Option<&str>) -> Option<Seq<char>> {
    match s {
        Some(s) => Some(s@),
        None => None,
    }
}

/// Joins `parts` with `separator` between each two.
pub fn join(parts: &Vec<String>, separator: &str) -> (out: String)
    ensures
        out@ == joined(texts(parts@), separator@),
{
    let n: usize = parts.len();
    let mut out = String::new();
    let mut i: usize = 0;
    assert(texts(parts@).take(0) =~= Seq::<Seq<char>>::empty());
    while i < n
        invariant
            n == parts@.len(),
            i <= n,
            out@ == joined(texts(parts@).take(i as int), separator@),
        decreases n - i,
    {
        let ghost upto = texts(parts@).take(i + 1);
        assert(upto.drop_last() =~= texts(parts@).take(i as int));
        assert(upto.last() == parts@[i as int]@);
        if i > 0 {
            out = out.concat(separator).concat(parts[i].as_str());
        } else {
            out = out.concat(parts[i].as_str());
            assert(out@ =~= parts@[0]@);
        }
        i += 1;
    }
    assert(texts(parts@).take(n as int) =~= texts(parts@));
    out
}

/// The search path for a process spawned on `platform`, given the caller's
/// own search path and, on Windows, the program directory, each as the
/// environment has it.
pub fn search_path(platform: Platform, existing: Option<&str>, program_files: Option<&str>) -> (path:
    String)
    ensures
        path@ == joined(
            search_dirs(platform, optional_text(existing), optional_text(program_files)),
            separator_of(platform),
        ),
{
    let mut dirs: Vec<String> = Vec::new();
    match existing {
        Some(own) => {
            dirs.push(String::from_str(own));
        },
        None => {},
    }
    let ghost head = texts(dirs@);
    assert(head =~= match existing {
        Some(own) => seq![own@],
        None => Seq::<Seq<char>>::empty(),
    });
    match platform {
        Platform::MacOs => {
            dirs.push(String::from_str("/usr/local/bin"));
            dirs.push(String::from_str("/opt/homebrew/bin"));
            dirs.push(String::from_str("/opt/homebrew/opt/awscli/bin"));
            dirs.push(String::from_str("/usr/bin"));
            dirs.push(String::from_str("/bin"));
        },
        Platform::Linux => {
            dirs.push(String::from_str("/usr/local/bin"));
            dirs.push(String::from_str("/usr/bin"));
            dirs.push(String::from_str("/bin"));
        },
        Platform::Windows => {
            match program_files {
                Some(dir) => {
                    dirs.push(String::from_str(dir).concat("\\Amazon\\AWSCLIV2"));
                },
                None => {},
            }
        },
        Platform::Other => {},
    }
    assert(texts(dirs@) =~= head + extra_dirs(platform, optional_text(program_files)));
    assert(texts(dirs@) =~= search_dirs(
        platform,
        optional_text(existing),
        optional_text(program_files),
    ));
    if platform == Platform::Windows {
        join(&dirs, ";")
    } else {
        join(&dirs, ":")
    }
}

} // verus!
