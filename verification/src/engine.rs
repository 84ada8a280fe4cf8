//! The engine update pipeline: replaces the engine binaries by those of a
//! downloaded package.
//!
//! The pipeline is a state machine. It never acts itself: [`UpdatePipeline::begin`]
//! and [`UpdatePipeline::step`] name the next thing to do, the caller does it
//! and reports what happened. A run ends with [`UpdateAction::Finish`].

use vstd::prelude::*;
use vstd::string::*;

use crate::config::{
    binary_after, binary_name, binary_rank, EngineBinary, Platform, COPY_ATTEMPTS,
    DOWNLOAD_TIMEOUT_SECS,
};
use crate::error::{display_text, AppError, ErrorKind, ErrorView};
use crate::http::{is_success, status_line, HttpStatus};
use crate::text::{concat2, concat3, decimal, decimal_string, join, join_texts};

verus! {

/// Where a run of the pipeline stands: the answer that it waits for.
#[derive(Clone, Copy, PartialEq, Eq, Debug, Structural)]
pub enum Phase {
    /// Waiting for the binaries directory to be resolved.
    Resolving,
    /// Waiting for the binaries directory to exist.
    EnsuringDirectory,
    /// Waiting to learn whether a binary is held open by another process.
    Probing(EngineBinary),
    /// Waiting for a fresh scratch directory.
    PreparingScratch,
    /// Waiting for the server's answer to the request for the package.
    Requesting,
    /// Waiting for the package to be stored in the scratch directory.
    SavingBody,
    /// Waiting for the package to be unpacked.
    Extracting,
    /// Waiting for the search for a binary in the unpacked tree.
    Locating(EngineBinary),
    /// Waiting for a binary to be copied into place.
    Installing(EngineBinary),
    /// Waiting for the scratch directory to be removed.
    Cleaning,
    /// The run is over.
    Finished,
}

/// What the caller reports back to the pipeline.
#[derive(Debug, PartialEq, Eq)]
pub enum UpdateEvent {
    /// The binaries directory, or why it could not be resolved.
    DirectoryResolved(Result<String, AppError>),
    /// The binaries directory exists now; `Some` holds why it could not be created.
    DirectoryReady(Option<String>),
    /// Whether the probed binary is held open by another process.
    LockProbed(bool),
    /// The scratch directory is fresh and empty; `Some` holds why it could not be created.
    ScratchReady(Option<String>),
    /// The HTTP client could not be built.
    ClientFailed(String),
    /// The request failed below HTTP.
    RequestFailed(String),
    /// The server answered with this status.
    Responded(HttpStatus),
    /// The package is stored in the scratch directory.
    BodySaved,
    /// The body of the response could not be read.
    BodyFailed(String),
    /// The file for the package could not be created.
    ArchiveCreateFailed(String),
    /// The package could not be written to its file.
    ArchiveWriteFailed(String),
    /// The package is unpacked; `Some` holds why it could not be.
    Extracted(Option<AppError>),
    /// Where the binary lies in the unpacked tree, if it is there.
    Located(Option<String>),
    /// The binary is copied into place; `Some` holds why it could not be.
    Installed(Option<AppError>),
    /// The scratch directory is gone, or the attempt to remove it is over.
    ScratchRemoved,
}

/// What the pipeline asks the caller to do next.
#[derive(Debug, PartialEq, Eq)]
pub enum UpdateAction {
    /// Resolve the binaries directory.
    ResolveDirectory,
    /// Create the binaries directory unless it exists.
    EnsureDirectory,
    /// Probe whether the binary in the binaries directory is locked.
    ProbeLock(EngineBinary),
    /// Remove a stale scratch directory and create a fresh one.
    PrepareScratch,
    /// Request the package by a blocking GET that gives up after `timeout_secs`.
    Request { timeout_secs: u64 },
    /// Store the body of the response in the scratch directory.
    SaveBody,
    /// Unpack the stored package into its subdirectory of the scratch directory.
    Extract,
    /// Search the unpacked tree for the binary.
    Locate(EngineBinary),
    /// Copy `source` over the binary in the binaries directory, in at most `attempts` attempts.
    Install { binary: EngineBinary, source: String, attempts: u32 },
    /// Remove the scratch directory; failure to do so is ignored.
    RemoveScratch,
    /// The run is over, with this result.
    Finish(Result<String, AppError>),
}

/// What an [`UpdateAction`] stands for in contracts.
pub enum ActionView {
    ResolveDirectory,
    EnsureDirectory,
    ProbeLock(EngineBinary),
    PrepareScratch,
    Request { timeout_secs: u64 },
    SaveBody,
    Extract,
    Locate(EngineBinary),
    Install { binary: EngineBinary, source: Seq<char>, attempts: u32 },
    RemoveScratch,
    Finish(Result<Seq<char>, ErrorView>),
}

impl View for UpdateAction {
    type V = ActionView;

    open spec fn view(&self) -> ActionView {
        match self {
            UpdateAction::ResolveDirectory => ActionView::ResolveDirectory,
            UpdateAction::EnsureDirectory => ActionView::EnsureDirectory,
            UpdateAction::ProbeLock(b) => ActionView::ProbeLock(*b),
            UpdateAction::PrepareScratch => ActionView::PrepareScratch,
            UpdateAction::Request { timeout_secs } => ActionView::Request {
                timeout_secs: *timeout_secs,
            },
            UpdateAction::SaveBody => ActionView::SaveBody,
            UpdateAction::Extract => ActionView::Extract,
            UpdateAction::Locate(b) => ActionView::Locate(*b),
            UpdateAction::Install { binary, source, attempts } => ActionView::Install {
                binary: *binary,
                source: source@,
                attempts: *attempts,
            },
            UpdateAction::RemoveScratch => ActionView::RemoveScratch,
            UpdateAction::Finish(Ok(message)) => ActionView::Finish(Ok(message@)),
            UpdateAction::Finish(Err(error)) => ActionView::Finish(Err(error@)),
        }
    }
}

/// The state of a run of the pipeline.
#[derive(Debug)]
pub struct UpdatePipeline {
    phase: Phase,
    platform: Platform,
    url: String,
    directory: String,
    replaced: u64,
    failures: Vec<String>,
    verdict: Option<AppError>,
}

/// What an [`UpdatePipeline`] stands for in contracts.
pub struct PipelineView {
    /// The answer that the run waits for.
    pub phase: Phase,
    /// The platform whose binaries are replaced.
    pub platform: Platform,
    /// The address of the package.
    pub url: Seq<char>,
    /// The binaries directory; empty until it is resolved.
    pub directory: Seq<char>,
    /// How many binaries were copied into place.
    pub replaced: nat,
    /// One line for each binary whose copy failed.
    pub failures: Seq<Seq<char>>,
    /// The failure that ends the run once the scratch directory is removed.
    pub verdict: Option<ErrorView>,
}

/// How many binaries were dealt with before the run reached `phase`.
pub open spec fn handled_before(phase: Phase) -> nat {
    match phase {
        Phase::Locating(b) => binary_rank(b),
        Phase::Installing(b) => binary_rank(b),
        Phase::Cleaning => 3,
        Phase::Finished => 3,
        _ => 0,
    }
}

impl PipelineView {
    /// No more binaries are counted than were dealt with.
    pub open spec fn wf(self) -> bool {
        self.replaced + self.failures.len() <= handled_before(self.phase)
    }
}

/// The message for a run without an address.
pub open spec fn no_url_message() -> Seq<char> {
    "No update URL provided."@
}

/// The message for a binary that another process holds.
pub open spec fn in_use_message(name: Seq<char>) -> Seq<char> {
    "Cannot update: "@ + name
        + " is currently in use. Please stop any active downloads and try again."@
}

/// The message of the network failure that an HTTP client that cannot be
/// built is reported as.
pub open spec fn client_failed_message(cause: Seq<char>) -> Seq<char> {
    "Failed to create HTTP client: "@ + cause
}

/// The message of the network failure that a status that is no success
/// is reported as.
pub open spec fn rejected_message(text: Seq<char>, reason: Option<Seq<char>>) -> Seq<char> {
    "Download failed with status: "@ + status_line(text, reason)
}

/// The message of the I/O failure that a package file that cannot be
/// created is reported as.
pub open spec fn create_failed_message(cause: Seq<char>) -> Seq<char> {
    "Failed to create temp ZIP file: "@ + cause
}

/// The message of the I/O failure that a package that cannot be written
/// to its file is reported as.
pub open spec fn write_failed_message(cause: Seq<char>) -> Seq<char> {
    "Failed to write ZIP file: "@ + cause
}

/// The line that reports the failed copy of one binary.
pub open spec fn failure_line(name: Seq<char>, error: ErrorView) -> Seq<char> {
    name + ": "@ + display_text(error)
}

/// The message of a run in which some copies failed: the count of the
/// binaries copied and the lines of the failures.
pub open spec fn partial_message(replaced: nat, failures: Seq<Seq<char>>) -> Seq<char> {
    "Updated "@ + decimal(replaced) + " binaries, but some failed: "@ + join(failures, "; "@)
}

/// The message of a run whose package held none of the binaries.
pub open spec fn nothing_found_message() -> Seq<char> {
    "No engine binaries found in the update package."@
}

/// The message of a run that copied `replaced` binaries and failed at none.
pub open spec fn success_message(replaced: nat) -> Seq<char> {
    "Engine V12 updated successfully! "@ + decimal(replaced) + " binaries installed."@
}

/// The precondition violation with the message `message`.
pub open spec fn logic_error(message: Seq<char>) -> ErrorView {
    ErrorView { kind: ErrorKind::Logic, message }
}

/// The result of a run that got as far as removing its scratch directory.
pub open spec fn final_result(s: PipelineView) -> Result<Seq<char>, ErrorView> {
    match s.verdict {
        Some(error) => Err(error),
        None => if s.failures.len() > 0 {
            Err(logic_error(partial_message(s.replaced, s.failures)))
        } else if s.replaced == 0 {
            Err(logic_error(nothing_found_message()))
        } else {
            Ok(success_message(s.replaced))
        },
    }
}

/// The run ends at once with `error`: nothing was created that would have to be removed.
pub open spec fn stop(s: PipelineView, error: ErrorView) -> (PipelineView, ActionView) {
    (PipelineView { phase: Phase::Finished, ..s }, ActionView::Finish(Err(error)))
}

/// The run ends with `error` once the scratch directory is removed.
pub open spec fn abandon(s: PipelineView, error: ErrorView) -> (PipelineView, ActionView) {
    (PipelineView { phase: Phase::Cleaning, verdict: Some(error), ..s }, ActionView::RemoveScratch)
}

/// The run goes on to the binary after `binary`, or to the clean-up after the last.
pub open spec fn advance(s: PipelineView, binary: EngineBinary) -> (PipelineView, ActionView) {
    match binary_after(binary) {
        Some(following) => (
            PipelineView { phase: Phase::Locating(following), ..s },
            ActionView::Locate(following),
        ),
        None => (PipelineView { phase: Phase::Cleaning, ..s }, ActionView::RemoveScratch),
    }
}

/// The state and the first action of a run for the package at `url`.
pub open spec fn start(url: Seq<char>, platform: Platform) -> (PipelineView, ActionView) {
    let fresh = PipelineView {
        phase: Phase::Resolving,
        platform,
        url,
        directory: Seq::empty(),
        replaced: 0,
        failures: Seq::empty(),
        verdict: None,
    };
    if url.len() == 0 {
        stop(fresh, logic_error(no_url_message()))
    } else {
        (fresh, ActionView::ResolveDirectory)
    }
}

/// The transition of the pipeline: the state after `event` and the next
/// action, or `None` where `event` is not the answer that the run waits for.
pub open spec fn next(s: PipelineView, event: UpdateEvent) -> Option<(PipelineView, ActionView)> {
    match (s.phase, event) {
        (Phase::Resolving, UpdateEvent::DirectoryResolved(Ok(directory))) => Some(
            (
                PipelineView { phase: Phase::EnsuringDirectory, directory: directory@, ..s },
                ActionView::EnsureDirectory,
            ),
        ),
        (Phase::Resolving, UpdateEvent::DirectoryResolved(Err(error))) => Some(stop(s, error@)),
        (Phase::EnsuringDirectory, UpdateEvent::DirectoryReady(None)) => Some(
            (
                PipelineView { phase: Phase::Probing(EngineBinary::Fetcher), ..s },
                ActionView::ProbeLock(EngineBinary::Fetcher),
            ),
        ),
        (Phase::EnsuringDirectory, UpdateEvent::DirectoryReady(Some(cause))) => Some(
            stop(s, ErrorView { kind: ErrorKind::Io, message: cause@ }),
        ),
        (Phase::Probing(binary), UpdateEvent::LockProbed(true)) => Some(
            stop(s, logic_error(in_use_message(binary_name(s.platform, binary)))),
        ),
        (Phase::Probing(binary), UpdateEvent::LockProbed(false)) => Some(
            match binary_after(binary) {
                Some(following) => (
                    PipelineView { phase: Phase::Probing(following), ..s },
                    ActionView::ProbeLock(following),
                ),
                None => (
                    PipelineView { phase: Phase::PreparingScratch, ..s },
                    ActionView::PrepareScratch,
                ),
            },
        ),
        (Phase::PreparingScratch, UpdateEvent::ScratchReady(None)) => Some(
            (
                PipelineView { phase: Phase::Requesting, ..s },
                ActionView::Request { timeout_secs: DOWNLOAD_TIMEOUT_SECS },
            ),
        ),
        (Phase::PreparingScratch, UpdateEvent::ScratchReady(Some(cause))) => Some(
            abandon(s, ErrorView { kind: ErrorKind::Io, message: cause@ }),
        ),
        (Phase::Requesting, UpdateEvent::ClientFailed(cause)) => Some(
            abandon(
                s,
                ErrorView { kind: ErrorKind::Network, message: client_failed_message(cause@) },
            ),
        ),
        (Phase::Requesting, UpdateEvent::RequestFailed(cause)) => Some(
            abandon(s, ErrorView { kind: ErrorKind::Network, message: cause@ }),
        ),
        (Phase::Requesting, UpdateEvent::Responded(status)) => Some(
            if is_success(status.code) {
                (PipelineView { phase: Phase::SavingBody, ..s }, ActionView::SaveBody)
            } else {
                abandon(
                    s,
                    ErrorView {
                        kind: ErrorKind::Network,
                        message: rejected_message(status.text@, status.reason.deep_view()),
                    },
                )
            },
        ),
        (Phase::SavingBody, UpdateEvent::BodySaved) => Some(
            (PipelineView { phase: Phase::Extracting, ..s }, ActionView::Extract),
        ),
        (Phase::SavingBody, UpdateEvent::BodyFailed(cause)) => Some(
            abandon(s, ErrorView { kind: ErrorKind::Network, message: cause@ }),
        ),
        (Phase::SavingBody, UpdateEvent::ArchiveCreateFailed(cause)) => Some(
            abandon(
                s,
                ErrorView { kind: ErrorKind::Io, message: create_failed_message(cause@) },
            ),
        ),
        (Phase::SavingBody, UpdateEvent::ArchiveWriteFailed(cause)) => Some(
            abandon(
                s,
                ErrorView { kind: ErrorKind::Io, message: write_failed_message(cause@) },
            ),
        ),
        (Phase::Extracting, UpdateEvent::Extracted(None)) => Some(
            (
                PipelineView { phase: Phase::Locating(EngineBinary::Fetcher), ..s },
                ActionView::Locate(EngineBinary::Fetcher),
            ),
        ),
        (Phase::Extracting, UpdateEvent::Extracted(Some(error))) => Some(abandon(s, error@)),
        (Phase::Locating(binary), UpdateEvent::Located(Some(source))) => Some(
            (
                PipelineView { phase: Phase::Installing(binary), ..s },
                ActionView::Install { binary, source: source@, attempts: COPY_ATTEMPTS },
            ),
        ),
        (Phase::Locating(binary), UpdateEvent::Located(None)) => Some(advance(s, binary)),
        (Phase::Installing(binary), UpdateEvent::Installed(None)) => Some(
            advance(PipelineView { replaced: s.replaced + 1, ..s }, binary),
        ),
        (Phase::Installing(binary), UpdateEvent::Installed(Some(error))) => Some(
            advance(
                PipelineView {
                    failures: s.failures.push(
                        failure_line(binary_name(s.platform, binary), error@),
                    ),
                    ..s
                },
                binary,
            ),
        ),
        (Phase::Cleaning, UpdateEvent::ScratchRemoved) => Some(
            (PipelineView { phase: Phase::Finished, ..s }, ActionView::Finish(final_result(s))),
        ),
        _ => None,
    }
}

impl View for UpdatePipeline {
    type V = PipelineView;

    closed spec fn view(&self) -> PipelineView {
        PipelineView {
            phase: self.phase,
            platform: self.platform,
            url: self.url@,
            directory: self.directory@,
            replaced: self.replaced as nat,
            failures: self.failures.deep_view(),
            verdict: match self.verdict {
                Some(error) => Some(error@),
                None => None,
            },
        }
    }
}

impl UpdatePipeline {
    #[verifier::type_invariant]
    spec fn counts_fit(&self) -> bool {
        self@.wf()
    }

    /// Starts a run for the package at `url`. An empty address ends the run
    /// at once, before anything is asked of the caller.
    pub fn begin(url: String, platform: Platform) -> (run: (UpdatePipeline, UpdateAction))
        ensures
            (run.0@, run.1@) == start(url@, platform),
            run.0@.wf(),
    {
        let empty = url.as_str().is_empty();
        let mut pipeline = UpdatePipeline {
            phase: Phase::Resolving,
            platform,
            url,
            directory: String::new(),
            replaced: 0,
            failures: Vec::new(),
            verdict: None,
        };
        assert(pipeline.failures.deep_view() =~= Seq::<Seq<char>>::empty());
        if empty {
            pipeline.phase = Phase::Finished;
            let error = AppError::logic("No update URL provided.");
            (pipeline, UpdateAction::Finish(Err(error)))
        } else {
            (pipeline, UpdateAction::ResolveDirectory)
        }
    }

    /// The answer that the run waits for.
    pub fn phase(&self) -> (phase: Phase)
        ensures
            phase == self@.phase,
    {
        self.phase
    }

    /// The platform whose binaries are replaced.
    pub fn platform(&self) -> (platform: Platform)
        ensures
            platform == self@.platform,
    {
        self.platform
    }

    /// The address of the package.
    pub fn url(&self) -> (url: &str)
        ensures
            url@ == self@.url,
    {
        self.url.as_str()
    }

    /// The binaries directory of this run; empty until it is resolved.
    pub fn directory(&self) -> (directory: &str)
        ensures
            directory@ == self@.directory,
    {
        self.directory.as_str()
    }

    /// How many binaries were copied into place so far.
    pub fn replaced(&self) -> (replaced: u64)
        ensures
            replaced == self@.replaced,
            self@.wf(),
    {
        proof {
            use_type_invariant(self);
        }
        self.replaced
    }

    /// Whether the run is over.
    pub fn is_finished(&self) -> (finished: bool)
        ensures
            finished == (self@.phase == Phase::Finished),
    {
        match self.phase {
            Phase::Finished => true,
            _ => false,
        }
    }

    fn stop_with(&mut self, error: AppError) -> (action: UpdateAction)
        ensures
            (final(self)@, action@) == stop(old(self)@, error@),
    {
        proof {
            use_type_invariant(&*self);
        }
        self.phase = Phase::Finished;
        UpdateAction::Finish(Err(error))
    }

    fn abandon_with(&mut self, error: AppError) -> (action: UpdateAction)
        ensures
            (final(self)@, action@) == abandon(old(self)@, error@),
    {
        proof {
            use_type_invariant(&*self);
        }
        self.phase = Phase::Cleaning;
        self.verdict = Some(error);
        UpdateAction::RemoveScratch
    }

    fn advance_past(&mut self, binary: EngineBinary) -> (action: UpdateAction)
        requires
            old(self)@.replaced + old(self)@.failures.len() <= binary_rank(binary) + 1,
        ensures
            (final(self)@, action@) == advance(old(self)@, binary),
    {
        match binary.next() {
            Some(following) => {
                self.phase = Phase::Locating(following);
                UpdateAction::Locate(following)
            },
            None => {
                self.phase = Phase::Cleaning;
                UpdateAction::RemoveScratch
            },
        }
    }

    fn conclude(&self) -> (result: Result<String, AppError>)
        ensures
            match result {
                Ok(message) => final_result(self@) == Ok::<Seq<char>, ErrorView>(message@),
                Err(error) => final_result(self@) == Err::<Seq<char>, ErrorView>(error@),
            },
    {
        match &self.verdict {
            Some(error) => Err(error.duplicate()),
            None => {
                if self.failures.len() > 0 {
                    let count = decimal_string(self.replaced);
                    let list = join_texts(&self.failures, "; ");
                    let mut message = concat3(
                        "Updated ",
                        count.as_str(),
                        " binaries, but some failed: ",
                    );
                    message.append(list.as_str());
                    Err(AppError::Logic(message))
                } else if self.replaced == 0 {
                    Err(AppError::logic("No engine binaries found in the update package."))
                } else {
                    let count = decimal_string(self.replaced);
                    Ok(
                        concat3(
                            "Engine V12 updated successfully! ",
                            count.as_str(),
                            " binaries installed.",
                        ),
                    )
                }
            },
        }
    }

    /// Takes the caller's report of what happened and names the next action.
    /// A report that is not the answer that the run waits for changes nothing
    /// and is answered with `None`.
    pub fn step(&mut self, event: UpdateEvent) -> (action: Option<UpdateAction>)
        ensures
            match next(old(self)@, event) {
                Some((state, act)) => {
                    &&& final(self)@ == state
                    &&& action matches Some(a)
                    &&& a@ == act
                },
                None => final(self)@ == old(self)@ && action is None,
            },
            old(self)@.wf(),
            final(self)@.wf(),
    {
        proof {
            use_type_invariant(&*self);
        }
        match event {
            UpdateEvent::DirectoryResolved(resolved) => match self.phase {
                Phase::Resolving => match resolved {
                    Ok(directory) => {
                        self.directory = directory;
                        self.phase = Phase::EnsuringDirectory;
                        Some(UpdateAction::EnsureDirectory)
                    },
                    Err(error) => Some(self.stop_with(error)),
                },
                _ => None,
            },
            UpdateEvent::DirectoryReady(failure) => match self.phase {
                Phase::EnsuringDirectory => match failure {
                    None => {
                        self.phase = Phase::Probing(EngineBinary::Fetcher);
                        Some(UpdateAction::ProbeLock(EngineBinary::Fetcher))
                    },
                    Some(cause) => Some(self.stop_with(AppError::Io(cause))),
                },
                _ => None,
            },
            UpdateEvent::LockProbed(locked) => match self.phase {
                Phase::Probing(binary) => {
                    if locked {
                        let message = concat3(
                            "Cannot update: ",
                            binary.file_name(self.platform),
                            " is currently in use. Please stop any active downloads and try again.",
                        );
                        Some(self.stop_with(AppError::Logic(message)))
                    } else {
                        match binary.next() {
                            Some(following) => {
                                self.phase = Phase::Probing(following);
                                Some(UpdateAction::ProbeLock(following))
                            },
                            None => {
                                self.phase = Phase::PreparingScratch;
                                Some(UpdateAction::PrepareScratch)
                            },
                        }
                    }
                },
                _ => None,
            },
            UpdateEvent::ScratchReady(failure) => match self.phase {
                Phase::PreparingScratch => match failure {
                    None => {
                        self.phase = Phase::Requesting;
                        Some(UpdateAction::Request { timeout_secs: DOWNLOAD_TIMEOUT_SECS })
                    },
                    Some(cause) => Some(self.abandon_with(AppError::Io(cause))),
                },
                _ => None,
            },
            UpdateEvent::ClientFailed(cause) => match self.phase {
                Phase::Requesting => {
                    let message = concat2("Failed to create HTTP client: ", cause.as_str());
                    Some(self.abandon_with(AppError::Network(message)))
                },
                _ => None,
            },
            UpdateEvent::RequestFailed(cause) => match self.phase {
                Phase::Requesting => Some(self.abandon_with(AppError::Network(cause))),
                _ => None,
            },
            UpdateEvent::Responded(status) => match self.phase {
                Phase::Requesting => {
                    if status.is_success() {
                        self.phase = Phase::SavingBody;
                        Some(UpdateAction::SaveBody)
                    } else {
                        let line = status.line();
                        let message = concat2("Download failed with status: ", line.as_str());
                        Some(self.abandon_with(AppError::Network(message)))
                    }
                },
                _ => None,
            },
            UpdateEvent::BodySaved => match self.phase {
                Phase::SavingBody => {
                    self.phase = Phase::Extracting;
                    Some(UpdateAction::Extract)
                },
                _ => None,
            },
            UpdateEvent::BodyFailed(cause) => match self.phase {
                Phase::SavingBody => Some(self.abandon_with(AppError::Network(cause))),
                _ => None,
            },
            UpdateEvent::ArchiveCreateFailed(cause) => match self.phase {
                Phase::SavingBody => {
                    let message = concat2("Failed to create temp ZIP file: ", cause.as_str());
                    Some(self.abandon_with(AppError::Io(message)))
                },
                _ => None,
            },
            UpdateEvent::ArchiveWriteFailed(cause) => match self.phase {
                Phase::SavingBody => {
                    let message = concat2("Failed to write ZIP file: ", cause.as_str());
                    Some(self.abandon_with(AppError::Io(message)))
                },
                _ => None,
            },
            UpdateEvent::Extracted(failure) => match self.phase {
                Phase::Extracting => match failure {
                    None => {
                        self.phase = Phase::Locating(EngineBinary::Fetcher);
                        Some(UpdateAction::Locate(EngineBinary::Fetcher))
                    },
                    Some(error) => Some(self.abandon_with(error)),
                },
                _ => None,
            },
            UpdateEvent::Located(found) => match self.phase {
                Phase::Locating(binary) => match found {
                    Some(source) => {
                        self.phase = Phase::Installing(binary);
                        Some(UpdateAction::Install { binary, source, attempts: COPY_ATTEMPTS })
                    },
                    None => Some(self.advance_past(binary)),
                },
                _ => None,
            },
            UpdateEvent::Installed(failure) => match self.phase {
                Phase::Installing(binary) => match failure {
                    None => {
                        let action = self.advance_past(binary);
                        self.replaced = self.replaced + 1;
                        Some(action)
                    },
                    Some(error) => {
                        let cause = error.describe();
                        let line = concat3(
                            binary.file_name(self.platform),
                            ": ",
                            cause.as_str(),
                        );
                        let action = self.advance_past(binary);
                        let mut failures: Vec<String> = Vec::new();
                        core::mem::swap(&mut self.failures, &mut failures);
                        let ghost before = failures.deep_view();
                        failures.push(line);
                        assert(failures.deep_view() =~= before.push(line@));
                        self.failures = failures;
                        Some(action)
                    },
                },
                _ => None,
            },
            UpdateEvent::ScratchRemoved => match self.phase {
                Phase::Cleaning => {
                    let result = self.conclude();
                    self.phase = Phase::Finished;
                    Some(UpdateAction::Finish(result))
                },
                _ => None,
            },
        }
    }
}

/// Begins the update of the engine binaries of `platform` from the package
/// at `url`.
pub fn install_engine_update(url: String, platform: Platform) -> (run: (
    UpdatePipeline,
    UpdateAction,
))
    ensures
        (run.0@, run.1@) == start(url@, platform),
        run.0@.wf(),
{
    UpdatePipeline::begin(url, platform)
}

} // verus!
