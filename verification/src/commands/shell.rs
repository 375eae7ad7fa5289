//! Opening a path with the platform's default handler, and showing it in
//! the platform's file manager.
//!
//! The library checks the request and chooses the command; the host starts
//! it and does not wait for it.

use crate::utils::parent_of;
use vstd::prelude::*;

verus! {

/// What is said of a path at which nothing exists, before the path.
pub const PATH_MISSING: &'static str = "path does not exist: ";

/// The platforms that differ in how a path is opened.
#[derive(Debug, Clone, Copy, PartialEq, Eq)]
pub enum Platform {
    Windows,
    MacOs,
    /// Any other Unix, with a desktop that has `xdg-open`.
    Unix,
}

/// A program to start, with its arguments.
#[derive(Debug, Clone, PartialEq, Eq)]
pub struct LaunchCommand {
    /// The program, as the platform finds it on its search path.
    pub program: String,
    /// Its arguments, in order.
    pub args: Vec<String>,
}

/// The value of a [`LaunchCommand`].
pub ghost struct Launch {
    pub program: Seq<char>,
    pub args: Seq<Seq<char>>,
}

impl View for LaunchCommand {
    type V = Launch;

    open spec fn view(&self) -> Launch {
        Launch { program: self.program@, args: self.args.deep_view() }
    }
}

/// The command that opens `path` with the default handler of a platform.
pub open spec fn open_command(platform: Platform, path: Seq<char>) -> Launch {
    match platform {
        Platform::Windows => Launch { program: "cmd"@, args: seq!["/C"@, "start"@, ""@, path] },
        Platform::MacOs => Launch { program: "open"@, args: seq![path] },
        Platform::Unix => Launch { program: "xdg-open"@, args: seq![path] },
    }
}

/// The command that shows `path` in the file manager of a platform: with
/// the file selected where the file manager can do that, else by opening
/// the folder `parent` that holds it, or the path itself where it has no
/// parent.
pub open spec fn reveal_command(
    platform: Platform,
    path: Seq<char>,
    parent: Option<Seq<char>>,
) -> Launch {
    match platform {
        Platform::Windows => Launch { program: "explorer.exe"@, args: seq!["/select,"@, path] },
        Platform::MacOs => Launch { program: "open"@, args: seq!["-R"@, path] },
        Platform::Unix => Launch {
            program: "xdg-open"@,
            args: seq![
                match parent {
                    Some(folder) => folder,
                    None => path,
                },
            ],
        },
    }
}

/// Builds the command that opens `path` on a platform.
pub fn open_command_for(platform: Platform, path: &str) -> (command: LaunchCommand)
    ensures
        command@ == open_command(platform, path@),
{
    let command = match platform {
        Platform::Windows => LaunchCommand {
            program: String::from_str("cmd"),
            args: vec![
                String::from_str("/C"),
                String::from_str("start"),
                String::from_str(""),
                String::from_str(path),
            ],
        },
        Platform::MacOs => LaunchCommand {
            program: String::from_str("open"),
            args: vec![String::from_str(path)],
        },
        Platform::Unix => LaunchCommand {
            program: String::from_str("xdg-open"),
            args: vec![String::from_str(path)],
        },
    };
    assert(command.args.deep_view() =~= open_command(platform, path@).args);
    command
}

/// Builds the command that shows `path` in the file manager of a platform.
pub fn reveal_command_for(platform: Platform, path: &str, parent: Option<String>) -> (command:
    LaunchCommand)
    ensures
        command@ == reveal_command(platform, path@, crate::models::text_of(parent)),
{
    let command = match platform {
        Platform::Windows => LaunchCommand {
            program: String::from_str("explorer.exe"),
            args: vec![String::from_str("/select,"), String::from_str(path)],
        },
        Platform::MacOs => LaunchCommand {
            program: String::from_str("open"),
            args: vec![String::from_str("-R"), String::from_str(path)],
        },
        Platform::Unix => LaunchCommand {
            program: String::from_str("xdg-open"),
            args: vec![
                match parent {
                    Some(folder) => folder,
                    None => String::from_str(path),
                },
            ],
        },
    };
    assert(command.args.deep_view() =~= reveal_command(
        platform,
        path@,
        crate::models::text_of(parent),
    ).args);
    command
}

/// Answers a request to open `path`, an absolute path, with the default
/// handler: the command to start where the path exists, a refusal that
/// names the path where it does not.
pub fn open_path(path: &str, exists: bool, platform: Platform) -> (r: Result<
    LaunchCommand,
    String,
>)
    ensures
        match r {
            Ok(command) => exists && command@ == open_command(platform, path@),
            Err(e) => !exists && e@ == PATH_MISSING@ + path@,
        },
{
    if !exists {
        return Err(String::from_str(PATH_MISSING).concat(path));
    }
    Ok(open_command_for(platform, path))
}

/// Answers a request to show `path`, an absolute path, in the file manager:
/// the command to start where the path exists, a refusal that names the
/// path where it does not.
pub fn open_file_location(path: &str, exists: bool, platform: Platform) -> (r: Result<
    LaunchCommand,
    String,
>)
    ensures
        match r {
            Ok(command) => exists && match platform {
                Platform::Unix => exists|parent: Option<Seq<char>>|
                    command@ == reveal_command(platform, path@, parent),
                _ => command@ == reveal_command(platform, path@, None),
            },
            Err(e) => !exists && e@ == PATH_MISSING@ + path@,
        },
{
    if !exists {
        return Err(String::from_str(PATH_MISSING).concat(path));
    }
    let parent = match platform {
        Platform::Unix => parent_of(path),
        _ => None,
    };
    Ok(reveal_command_for(platform, path, parent))
}

} // verus!
