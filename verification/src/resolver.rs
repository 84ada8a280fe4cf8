//! Where the engine binaries live, and whether one of them is in use.
//!
//! The caller looks at the running executable and at the file system; what
//! it found is judged here.

use vstd::prelude::*;
use vstd::string::*;

use crate::config::PROJECT_SEARCH_DEPTH;
use crate::error::AppError;
use crate::text::{chars_of, contains_text, find_text};

verus! {

/// The directory in which a development build keeps the engine binaries.
pub const PROJECT_DIRECTORY_NAME: &'static str = "src-tauri";

/// One directory on the way up from the executable: the project directory
/// that would lie in it, and whether that exists.
#[derive(Debug, PartialEq, Eq)]
pub struct AncestorProbe {
    /// The path of the project directory below this ancestor.
    pub candidate: String,
    /// Whether `candidate` exists.
    pub exists: bool,
}

/// What an [`AncestorProbe`] stands for in contracts.
pub struct ProbeView {
    pub candidate: Seq<char>,
    pub exists: bool,
}

impl DeepView for AncestorProbe {
    type V = ProbeView;

    open spec fn deep_view(&self) -> ProbeView {
        ProbeView { candidate: self.candidate@, exists: self.exists }
    }
}

/// What the caller found out about the running executable.
#[derive(Debug, PartialEq, Eq)]
pub struct ExecutableLookup {
    /// The directory of the executable; `None` where the path of the
    /// executable cannot be had or has no directory part.
    pub directory: Option<String>,
    /// The directory of the executable and its ancestors, nearest first.
    pub ancestors: Vec<AncestorProbe>,
    /// The project root that was known when the application was built.
    pub project_root: Option<String>,
}

/// The path that stands for the working directory: the last resort where
/// neither the executable's directory nor a project root is known.
pub open spec fn working_directory() -> Seq<char> {
    "."@
}

/// `directory` lies under the output of a build: the layout of development.
pub open spec fn is_development_layout(directory: Seq<char>) -> bool {
    ||| contains_text(directory, "target\\debug"@)
    ||| contains_text(directory, "target/debug"@)
    ||| contains_text(directory, "target\\release"@)
    ||| contains_text(directory, "target/release"@)
}

/// The nearest of the first `depth` ancestors whose project directory exists.
pub open spec fn nearest_project(ancestors: Seq<ProbeView>, depth: int) -> Option<Seq<char>>
    decreases ancestors.len(),
{
    if ancestors.len() == 0 || depth <= 0 {
        None
    } else if ancestors[0].exists {
        Some(ancestors[0].candidate)
    } else {
        nearest_project(ancestors.subrange(1, ancestors.len() as int), depth - 1)
    }
}

/// The binaries directory for an executable in `directory`. In the packaged
/// layout it is `directory` itself, whatever exists there. In the layout of
/// development it is the nearest project directory within the search depth,
/// else the project root known at build time, else `directory`.
pub open spec fn binaries_directory(
    directory: Seq<char>,
    ancestors: Seq<ProbeView>,
    project_root: Option<Seq<char>>,
) -> Seq<char> {
    if !is_development_layout(directory) {
        directory
    } else {
        match nearest_project(ancestors, PROJECT_SEARCH_DEPTH as int) {
            Some(project) => project,
            None => match project_root {
                Some(root) => root,
                None => directory,
            },
        }
    }
}

/// The path that a lookup resolves to. Where the executable's directory is
/// known it is the binaries directory for it. Where it is not, the best that
/// is left is the project root known at build time, and without one the
/// working directory.
pub open spec fn resolved(lookup: ExecutableLookup) -> Seq<char> {
    match lookup.directory {
        Some(directory) => binaries_directory(
            directory@,
            lookup.ancestors.deep_view(),
            lookup.project_root.deep_view(),
        ),
        None => match lookup.project_root {
            Some(root) => root@,
            None => working_directory(),
        },
    }
}

fn has_text(hay: &Vec<char>, needle: &str) -> (yes: bool)
    ensures
        yes == contains_text(hay@, needle@),
{
    let needle_chars = chars_of(needle);
    find_text(hay, &needle_chars).is_some()
}

/// Whether `directory` lies under the output of a build.
pub fn development_layout(directory: &str) -> (yes: bool)
    ensures
        yes == is_development_layout(directory@),
{
    let chars = chars_of(directory);
    has_text(&chars, "target\\debug") || has_text(&chars, "target/debug") || has_text(
        &chars,
        "target\\release",
    ) || has_text(&chars, "target/release")
}

/// Resolves the binaries directory. This never fails: whatever the lookup
/// found, exactly one path comes back, even where nothing exists at it yet,
/// so that fresh binaries can be written there.
#[verifier::loop_isolation(false)]
pub fn resolve_binaries_dir(lookup: ExecutableLookup) -> (outcome: Result<String, AppError>)
    ensures
        match outcome {
            Ok(directory) => directory@ == resolved(lookup),
            Err(_) => false,
        },
{
    let ExecutableLookup { directory, ancestors, project_root } = lookup;
    let directory = match directory {
        Some(directory) => directory,
        None => {
            return match project_root {
                Some(root) => Ok(root),
                None => Ok(String::from_str(".")),
            };
        },
    };
    if !development_layout(directory.as_str()) {
        return Ok(directory);
    }
    let ghost all = ancestors.deep_view();
    assert(all.subrange(0, all.len() as int) =~= all);
    let mut level: usize = 0;
    while level < PROJECT_SEARCH_DEPTH && level < ancestors.len()
        invariant
            level <= PROJECT_SEARCH_DEPTH,
            level <= ancestors.len(),
            all == ancestors.deep_view(),
            nearest_project(all, PROJECT_SEARCH_DEPTH as int) == nearest_project(
                all.subrange(level as int, all.len() as int),
                PROJECT_SEARCH_DEPTH - level,
            ),
        decreases ancestors.len() - level,
    {
        let ghost rest = all.subrange(level as int, all.len() as int);
        if ancestors[level].exists {
            return Ok(ancestors[level].candidate.clone());
        }
        assert(rest.subrange(1, rest.len() as int) =~= all.subrange(level + 1, all.len() as int));
        level += 1;
    }
    match project_root {
        Some(root) => Ok(root),
        None => Ok(directory),
    }
}

/// How an attempt to open a file for writing, without creating or
/// truncating it, ended.
#[derive(Clone, Copy, PartialEq, Eq, Debug, Structural)]
pub enum OpenAttempt {
    /// There is no such file.
    Missing,
    /// The file was opened.
    Opened,
    /// The file could not be opened.
    Failed {
        /// The failure is one of missing permission.
        permission_denied: bool,
        /// The code that the operating system gave, if it gave one.
        raw_os_error: Option<i32>,
    },
}

/// The two codes by which the operating system says that another process
/// holds a file: a sharing violation and a lock violation.
pub open spec fn is_sharing_violation(raw_os_error: Option<i32>) -> bool {
    raw_os_error == Some(32i32) || raw_os_error == Some(33i32)
}

/// A file counts as locked where it could not be opened for want of
/// permission or because another process holds it. A missing file is not
/// locked, and no other failure makes it so.
pub open spec fn is_locked(attempt: OpenAttempt) -> bool {
    match attempt {
        OpenAttempt::Failed { permission_denied, raw_os_error } => permission_denied
            || is_sharing_violation(raw_os_error),
        _ => false,
    }
}

/// Whether `raw_os_error` says that another process holds the file.
pub fn sharing_violation(raw_os_error: Option<i32>) -> (yes: bool)
    ensures
        yes == is_sharing_violation(raw_os_error),
{
    match raw_os_error {
        Some(code) => code == 32 || code == 33,
        None => false,
    }
}

/// Whether the file that was probed is in use.
pub fn is_file_locked(attempt: OpenAttempt) -> (locked: bool)
    ensures
        locked == is_locked(attempt),
{
    match attempt {
        OpenAttempt::Failed { permission_denied, raw_os_error } => permission_denied
            || sharing_violation(raw_os_error),
        _ => false,
    }
}

/// Where the executable's directory is unknown, the answer is the project
/// root known at build time, whatever the probes say, and the working
/// directory where no root is known.
pub proof fn law_unknown_directory_falls_back(lookup: ExecutableLookup)
    requires
        lookup.directory is None,
    ensures
        lookup.project_root matches Some(root) ==> resolved(lookup) == root@,
        lookup.project_root is None ==> resolved(lookup) == working_directory(),
{
}

/// In the packaged layout the executable's own directory is the answer,
/// whatever the probes of its ancestors say and whatever project root is known.
pub proof fn law_packaged_layout_needs_no_probe(
    directory: Seq<char>,
    ancestors: Seq<ProbeView>,
    project_root: Option<Seq<char>>,
)
    requires
        !is_development_layout(directory),
    ensures
        binaries_directory(directory, ancestors, project_root) == directory,
{
}

/// The project directory that is found lies within the search depth, is
/// the nearest that exists, and is one of those that were probed.
pub proof fn law_nearest_project_wins(ancestors: Seq<ProbeView>, depth: int)
    ensures
        match nearest_project(ancestors, depth) {
            Some(project) => exists|i: int|
                {
                    &&& 0 <= i < ancestors.len()
                    &&& i < depth
                    &&& (#[trigger] ancestors[i]).exists
                    &&& ancestors[i].candidate == project
                    &&& forall|j: int| 0 <= j < i ==> !(#[trigger] ancestors[j]).exists
                },
            None => forall|i: int|
                0 <= i < ancestors.len() && i < depth ==> !(#[trigger] ancestors[i]).exists,
        },
    decreases ancestors.len(),
{
    if ancestors.len() == 0 || depth <= 0 {
    } else if ancestors[0].exists {
        assert(ancestors[0].candidate == nearest_project(ancestors, depth)->0);
    } else {
        let rest = ancestors.subrange(1, ancestors.len() as int);
        law_nearest_project_wins(rest, depth - 1);
        match nearest_project(rest, depth - 1) {
            Some(project) => {
                let i = choose|i: int|
                    {
                        &&& 0 <= i < rest.len()
                        &&& i < depth - 1
                        &&& (#[trigger] rest[i]).exists
                        &&& rest[i].candidate == project
                        &&& forall|j: int| 0 <= j < i ==> !(#[trigger] rest[j]).exists
                    };
                assert forall|j: int| 0 <= j < i + 1 implies !(#[trigger] ancestors[j]).exists by {
                    if j > 0 {
                        assert(ancestors[j] == rest[j - 1]);
                    }
                }
            },
            None => {
                assert forall|i: int| 0 <= i < ancestors.len() && i < depth implies !(
                #[trigger] ancestors[i]).exists by {
                    if i > 0 {
                        assert(ancestors[i] == rest[i - 1]);
                    }
                }
            },
        }
    }
}

} // verus!
