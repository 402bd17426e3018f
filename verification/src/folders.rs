//! The folder that downloads are saved into when the user has not chosen one.
use vstd::prelude::*;

use crate::dependencies::TargetOs;
use crate::text::{opt_string_view, owned, strings_view};

verus! {

/// `dirs::download_dir`, as text. The user's download folder depends on the
/// machine and its environment, so nothing is claimed of the result.
#[verifier::external_body]
fn system_download_dir() -> Option<String> {
    dirs::download_dir().map(|p| p.to_string_lossy().to_string())
}

/// `dirs::home_dir`, as text. The home folder depends on the machine and
/// its environment, so nothing is claimed of the result.
#[verifier::external_body]
fn system_home_dir() -> Option<String> {
    dirs::home_dir().map(|p| p.to_string_lossy().to_string())
}

/// The message given when no default folder can be found.
pub open spec fn no_default_folder_message() -> Seq<char> {
    "could not determine a default folder"@
}

/// The default output folder, from the user's download folder and home
/// folder where the system knows them: the download folder first, else the
/// home folder, else an error.
pub fn choose_output_dir(download: Option<String>, home: Option<String>) -> (r: Result<
    String,
    String,
>)
    ensures
        match r {
            Ok(p) => default_folder_choice(opt_string_view(download), opt_string_view(home)) == Ok::<Seq<char>, Seq<char>>(p@),
            Err(e) => default_folder_choice(opt_string_view(download), opt_string_view(home)) == Err::<Seq<char>, Seq<char>>(e@),
        },
        match (download, home) {
            (Some(d), _) => r matches Ok(p) && p@ == d@,
            (None, Some(h)) => r matches Ok(p) && p@ == h@,
            (None, None) => r matches Err(e) && e@ == no_default_folder_message(),
        },
{
    match download {
        Some(d) => Ok(d),
        None => match home {
            Some(h) => Ok(h),
            None => Err(owned("could not determine a default folder")),
        },
    }
}

/// The default output folder chosen from the download and home folders.
pub open spec fn default_folder_choice(download: Option<Seq<char>>, home: Option<Seq<char>>) -> Result<Seq<char>, Seq<char>> {
    match (download, home) {
        (Some(d), _) => Ok(d),
        (None, Some(h)) => Ok(h),
        (None, None) => Err(no_default_folder_message()),
    }
}

/// The download folder wins whenever there is one, whatever the home
/// folder; the home folder only serves when there is no download folder;
/// and the error comes only when the system knows neither.
pub proof fn law_download_folder_first(d: Seq<char>, h: Option<Seq<char>>, home: Seq<char>)
    ensures
        default_folder_choice(Some(d), h) == Ok::<Seq<char>, Seq<char>>(d),
        default_folder_choice(None, Some(home)) == Ok::<Seq<char>, Seq<char>>(home),
        default_folder_choice(Some(d), h) != default_folder_choice(None, h) ==> h != Some(d),
        default_folder_choice(None, None) is Err,
{
}

/// The folder that downloads go to by default: the user's download folder,
/// else the home folder. The home folder is only looked up when there is no
/// download folder.
pub fn get_default_output_dir() -> (r: Result<String, String>)
    ensures
        r matches Err(e) ==> e@ == no_default_folder_message(),
{
    let download = system_download_dir();
    if download.is_some() {
        choose_output_dir(download, None)
    } else {
        choose_output_dir(None, system_home_dir())
    }
}

/// What `std::path::Path::parent` gives for a path, as text.
pub uninterp spec fn path_parent(path: Seq<char>) -> Option<Seq<char>>;

/// `std::path::Path::parent` on `path`, as text. The contract claims that
/// the result is the named `path_parent(path)`.
#[verifier::external_body]
fn parent_of(path: &str) -> (r: Option<String>)
    ensures
        opt_string_view(r) == path_parent(path@),
{
    std::path::Path::new(path).parent().map(|p| p.to_string_lossy().to_string())
}

/// The program and arguments that show `path` in the system's file
/// manager, from the parent folder that the path has, if any: Explorer on
/// the path on Windows, `open -R` on the path on macOS, `xdg-open` on the
/// parent folder (or `/`) on Linux, and nothing elsewhere.
pub open spec fn reveal_command_spec(os: TargetOs, path: Seq<char>, parent: Option<Seq<char>>) -> Option<(Seq<char>, Seq<Seq<char>>)> {
    match os {
        TargetOs::Windows => Some(("explorer"@, seq![path])),
        TargetOs::MacOs => Some(("open"@, seq!["-R"@, path])),
        TargetOs::Linux => Some(
            (
                "xdg-open"@,
                seq![
                    match parent {
                        Some(p) => p,
                        None => "/"@,
                    },
                ],
            ),
        ),
        TargetOs::Other => None,
    }
}

/// The command that shows `path` in the file manager, given the parent
/// folder of `path` as `Path::parent` found it.
pub fn reveal_command(os: TargetOs, path: &str, parent: Option<String>) -> (r: Option<(String, Vec<String>)>)
    ensures
        match r {
            Some((prog, args)) => reveal_command_spec(os, path@, opt_string_view(parent)) == Some((prog@, strings_view(args@))),
            None => reveal_command_spec(os, path@, opt_string_view(parent)) is None,
        },
{
    let mut args: Vec<String> = Vec::new();
    match os {
        TargetOs::Windows => {
            args.push(owned(path));
            assert(strings_view(args@) =~= seq![path@]);
            Some((owned("explorer"), args))
        },
        TargetOs::MacOs => {
            args.push(owned("-R"));
            args.push(owned(path));
            assert(strings_view(args@) =~= seq!["-R"@, path@]);
            Some((owned("open"), args))
        },
        TargetOs::Linux => {
            let folder = match parent {
                Some(p) => p,
                None => owned("/"),
            };
            args.push(folder);
            assert(strings_view(args@) =~= seq![args@[0]@]);
            Some((owned("xdg-open"), args))
        },
        TargetOs::Other => None,
    }
}

/// The command that shows `path` in the system's file manager on `os`.
pub fn open_folder_command(os: TargetOs, path: &str) -> (r: Option<(String, Vec<String>)>)
    ensures
        match r {
            Some((prog, args)) => reveal_command_spec(os, path@, path_parent(path@)) == Some((prog@, strings_view(args@))),
            None => reveal_command_spec(os, path@, path_parent(path@)) is None,
        },
{
    let parent = match os {
        TargetOs::Linux => parent_of(path),
        _ => None,
    };
    proof {
        if os != TargetOs::Linux {
            assert(reveal_command_spec(os, path@, opt_string_view(parent)) == reveal_command_spec(os, path@, path_parent(path@)));
        }
    }
    reveal_command(os, path, parent)
}

} // verus!
