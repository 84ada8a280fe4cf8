//! Revealing a file in the file browser of the platform.

use vstd::prelude::*;
use vstd::string::*;

use crate::config::Platform;
use crate::error::{AppError, ErrorKind, ErrorView};
use crate::text::concat2;

verus! {

/// A command of the operating system: a program and its arguments.
#[derive(Debug, PartialEq, Eq)]
pub struct RevealCommand {
    pub program: String,
    pub arguments: Vec<String>,
}

/// What a [`RevealCommand`] stands for in contracts.
pub struct CommandView {
    pub program: Seq<char>,
    pub arguments: Seq<Seq<char>>,
}

impl View for RevealCommand {
    type V = CommandView;

    open spec fn view(&self) -> CommandView {
        CommandView { program: self.program@, arguments: self.arguments.deep_view() }
    }
}

/// The command that reveals `path` on `platform`. Windows and macOS select
/// the file in their file browser. Linux opens the directory that holds the
/// file, `parent`, and has nothing to run for a path without one.
pub open spec fn reveal_command(platform: Platform, path: Seq<char>, parent: Option<Seq<char>>)
    -> Option<CommandView> {
    match platform {
        Platform::Windows => Some(
            CommandView { program: "explorer"@, arguments: seq!["/select,"@, path] },
        ),
        Platform::MacOs => Some(CommandView { program: "open"@, arguments: seq!["-R"@, path] }),
        Platform::Linux => match parent {
            Some(directory) => Some(
                CommandView { program: "xdg-open"@, arguments: seq![directory] },
            ),
            None => None,
        },
    }
}

/// What stands before the cause where the command could not be started.
pub open spec fn reveal_failure_lead(platform: Platform) -> Seq<char> {
    match platform {
        Platform::Windows => "Failed to open explorer: "@,
        Platform::MacOs => "Failed to open Finder: "@,
        Platform::Linux => "Failed to open folder: "@,
    }
}

/// The command that reveals the file at `path`, whose directory is `parent`.
pub fn show_in_folder(platform: Platform, path: &str, parent: Option<&str>) -> (command: Option<
    RevealCommand,
>)
    ensures
        match command {
            Some(c) => reveal_command(platform, path@, parent.deep_view()) == Some(c@),
            None => reveal_command(platform, path@, parent.deep_view()) is None,
        },
{
    match platform {
        Platform::Windows => {
            let mut arguments: Vec<String> = Vec::new();
            arguments.push(String::from_str("/select,"));
            arguments.push(String::from_str(path));
            assert(arguments.deep_view() =~= seq!["/select,"@, path@]);
            Some(RevealCommand { program: String::from_str("explorer"), arguments })
        },
        Platform::MacOs => {
            let mut arguments: Vec<String> = Vec::new();
            arguments.push(String::from_str("-R"));
            arguments.push(String::from_str(path));
            assert(arguments.deep_view() =~= seq!["-R"@, path@]);
            Some(RevealCommand { program: String::from_str("open"), arguments })
        },
        Platform::Linux => match parent {
            Some(directory) => {
                let mut arguments: Vec<String> = Vec::new();
                arguments.push(String::from_str(directory));
                assert(arguments.deep_view() =~= seq![directory@]);
                Some(RevealCommand { program: String::from_str("xdg-open"), arguments })
            },
            None => None,
        },
    }
}

/// The failure that is reported where the command could not be started:
/// one of an external tool.
pub fn reveal_failure(platform: Platform, cause: &str) -> (error: AppError)
    ensures
        error@ == (ErrorView {
            kind: ErrorKind::ExternalTool,
            message: reveal_failure_lead(platform) + cause@,
        }),
{
    let lead = match platform {
        Platform::Windows => "Failed to open explorer: ",
        Platform::MacOs => "Failed to open Finder: ",
        Platform::Linux => "Failed to open folder: ",
    };
    AppError::Tauri(concat2(lead, cause))
}

} // verus!
