//! Updates of the application itself: what the latest release means for the
//! running version, and the steps by which an installer is fetched and
//! handed to the operating system.

use vstd::prelude::*;
use vstd::string::*;

use crate::config::DOWNLOAD_TIMEOUT_SECS;
use crate::error::{AppError, ErrorKind, ErrorView};
use crate::http::{is_success, status_line, HttpStatus};
use crate::text::{
    chars_of, concat2, ends_with, leading_run, range_ends_with, same_text, slice_text,
    strip_leading,
};

verus! {

/// What a check for updates found.
#[derive(Debug, PartialEq, Eq)]
pub struct UpdateInfo {
    /// Whether a release other than the running version is out.
    pub update_available: bool,
    /// The version of the latest release, without a leading `v`.
    pub latest_version: String,
    /// Where the installer of the latest release is fetched; empty where the
    /// release has none.
    pub download_url: String,
}

/// What an [`UpdateInfo`] stands for in contracts.
pub struct UpdateInfoView {
    pub update_available: bool,
    pub latest_version: Seq<char>,
    pub download_url: Seq<char>,
}

impl View for UpdateInfo {
    type V = UpdateInfoView;

    open spec fn view(&self) -> UpdateInfoView {
        UpdateInfoView {
            update_available: self.update_available,
            latest_version: self.latest_version@,
            download_url: self.download_url@,
        }
    }
}

/// One file attached to a release.
#[derive(Debug, PartialEq, Eq)]
pub struct ReleaseAsset {
    pub name: String,
    pub browser_download_url: String,
}

/// What a [`ReleaseAsset`] stands for in contracts.
pub struct AssetView {
    pub name: Seq<char>,
    pub url: Seq<char>,
}

impl DeepView for ReleaseAsset {
    type V = AssetView;

    open spec fn deep_view(&self) -> AssetView {
        AssetView { name: self.name@, url: self.browser_download_url@ }
    }
}

/// The extension by which the installer is told from the other assets.
pub open spec fn installer_extension() -> Seq<char> {
    ".msi"@
}

/// A version tag without the `v`s that it starts with.
pub open spec fn normalized_version(tag: Seq<char>) -> Seq<char> {
    strip_leading(tag, 'v')
}

/// The address of the first asset that is an installer; empty where there is none.
pub open spec fn installer_url(assets: Seq<AssetView>) -> Seq<char>
    decreases assets.len(),
{
    if assets.len() == 0 {
        Seq::empty()
    } else if ends_with(assets[0].name, installer_extension()) {
        assets[0].url
    } else {
        installer_url(assets.subrange(1, assets.len() as int))
    }
}

/// What the release tagged `tag`, with the assets `assets`, means for the
/// running version `current`: an update is out where the normalized tag is
/// not empty and differs from the normalized running version.
pub open spec fn update_info(current: Seq<char>, tag: Seq<char>, assets: Seq<AssetView>)
    -> UpdateInfoView {
    UpdateInfoView {
        update_available: normalized_version(tag) != normalized_version(current)
            && normalized_version(tag).len() > 0,
        latest_version: normalized_version(tag),
        download_url: installer_url(assets),
    }
}

/// The failure that a refused request for the latest release is reported as.
pub open spec fn release_refused(text: Seq<char>, reason: Option<Seq<char>>) -> ErrorView {
    ErrorView {
        kind: ErrorKind::Network,
        message: "GitHub API error: "@ + status_line(text, reason),
    }
}

fn normalize(tag: &str) -> (version: String)
    ensures
        version@ == normalized_version(tag@),
{
    let chars = chars_of(tag);
    let skipped = leading_run(&chars, 'v');
    slice_text(tag, skipped, chars.len())
}

fn first_installer_url(assets: &Vec<ReleaseAsset>) -> (url: String)
    ensures
        url@ == installer_url(assets.deep_view()),
{
    let extension = chars_of(".msi");
    let mut i: usize = 0;
    assert(assets.deep_view().subrange(0, assets.len() as int) =~= assets.deep_view());
    while i < assets.len()
        invariant
            i <= assets.len(),
            extension@ == installer_extension(),
            installer_url(assets.deep_view()) == installer_url(
                assets.deep_view().subrange(i as int, assets.len() as int),
            ),
        decreases assets.len() - i,
    {
        let ghost rest = assets.deep_view().subrange(i as int, assets.len() as int);
        let name = chars_of(assets[i].name.as_str());
        assert(name@.subrange(0, name.len() as int) =~= name@);
        if range_ends_with(&name, 0, name.len(), &extension) {
            return assets[i].browser_download_url.clone();
        }
        assert(rest.subrange(1, rest.len() as int) =~= assets.deep_view().subrange(
            i + 1,
            assets.len() as int,
        ));
        i += 1;
    }
    String::new()
}

/// Whether the answer to the request for the latest release can be read:
/// any status but a success is a failure that shows the status.
pub fn release_response(status: &HttpStatus) -> (outcome: Result<(), AppError>)
    ensures
        is_success(status.code) <==> outcome is Ok,
        outcome matches Err(error) ==> error@ == release_refused(
            status.text@,
            status.reason.deep_view(),
        ),
{
    if status.is_success() {
        Ok(())
    } else {
        let line = status.line();
        Err(AppError::Network(concat2("GitHub API error: ", line.as_str())))
    }
}

/// Compares the latest release with the running version.
pub fn check_app_update(current_version: &str, tag_name: &str, assets: &Vec<ReleaseAsset>) -> (info:
    UpdateInfo)
    ensures
        info@ == update_info(current_version@, tag_name@, assets.deep_view()),
{
    let latest = normalize(tag_name);
    let current = normalize(current_version);
    let differs = !same_text(latest.as_str(), current.as_str());
    let named = !latest.as_str().is_empty();
    UpdateInfo {
        update_available: differs && named,
        latest_version: latest,
        download_url: first_installer_url(assets),
    }
}

/// The asset at `i` is an installer, and none before it is.
pub open spec fn is_first_installer(assets: Seq<AssetView>, i: int) -> bool {
    &&& 0 <= i < assets.len()
    &&& ends_with(assets[i].name, installer_extension())
    &&& forall|j: int| 0 <= j < i ==> !ends_with((#[trigger] assets[j]).name, installer_extension())
}

/// No asset is an installer.
pub open spec fn has_no_installer(assets: Seq<AssetView>) -> bool {
    forall|j: int|
        0 <= j < assets.len() ==> !ends_with((#[trigger] assets[j]).name, installer_extension())
}

/// The address that is reported is that of the first asset whose name ends
/// with the installer's extension; where no asset has such a name, it is empty.
pub proof fn law_first_installer_is_offered(assets: Seq<AssetView>)
    ensures
        forall|i: int|
            is_first_installer(assets, i) ==> installer_url(assets) == (#[trigger] assets[i]).url,
        has_no_installer(assets) ==> installer_url(assets).len() == 0,
    decreases assets.len(),
{
    if assets.len() > 0 && !ends_with(assets[0].name, installer_extension()) {
        let rest = assets.subrange(1, assets.len() as int);
        law_first_installer_is_offered(rest);
        assert forall|i: int| is_first_installer(assets, i) implies installer_url(assets) == (
        #[trigger] assets[i]).url by {
            assert(i > 0);
            assert(rest[i - 1] == assets[i]);
            assert forall|j: int| 0 <= j < i - 1 implies !ends_with(
                (#[trigger] rest[j]).name,
                installer_extension(),
            ) by {
                assert(rest[j] == assets[j + 1]);
            }
            assert(is_first_installer(rest, i - 1));
        }
        if has_no_installer(assets) {
            assert forall|j: int| 0 <= j < rest.len() implies !ends_with(
                (#[trigger] rest[j]).name,
                installer_extension(),
            ) by {
                assert(rest[j] == assets[j + 1]);
            }
        }
    } else if assets.len() > 0 {
        assert forall|i: int| is_first_installer(assets, i) implies installer_url(assets) == (
        #[trigger] assets[i]).url by {
            if i > 0 {
                assert(!ends_with(assets[0].name, installer_extension()));
            }
        }
    }
}

/// Where the fetching of an installer stands: the answer that it waits for.
#[derive(Clone, Copy, PartialEq, Eq, Debug, Structural)]
pub enum InstallPhase {
    /// Waiting for an earlier download of the installer to be removed.
    Clearing,
    /// Waiting for the server's answer to the request for the installer.
    Requesting,
    /// Waiting for the installer to be stored.
    Saving,
    /// Waiting for the operating system to open the installer.
    Opening,
    /// The run is over.
    Finished,
}

/// What the caller reports back while an installer is fetched.
#[derive(Debug, PartialEq, Eq)]
pub enum InstallEvent {
    /// No earlier download is in the way any more.
    StaleCleared,
    /// The HTTP client could not be built.
    ClientFailed(String),
    /// The request failed below HTTP.
    RequestFailed(String),
    /// The server answered with this status.
    Responded(HttpStatus),
    /// The installer is stored.
    BodySaved,
    /// The body of the response could not be read.
    BodyFailed(String),
    /// The file for the installer could not be created.
    FileCreateFailed(String),
    /// The installer could not be written to its file.
    FileWriteFailed(String),
    /// The operating system took the installer.
    Opened,
    /// The operating system could not open the installer.
    OpenFailed(String),
}

/// What the caller is asked to do next while an installer is fetched.
#[derive(Debug, PartialEq, Eq)]
pub enum InstallAction {
    /// Remove an earlier download of the installer; failure is ignored.
    ClearStale,
    /// Request the installer by a GET that gives up after `timeout_secs`.
    Request { timeout_secs: u64 },
    /// Store the body of the response at the installer's path.
    SaveBody,
    /// Hand the stored installer to the handler that the operating system
    /// has for such files. The application keeps running.
    Open,
    /// The run is over, with this result.
    Finish(Result<String, AppError>),
}

/// What an [`InstallAction`] stands for in contracts.
pub enum InstallActionView {
    ClearStale,
    Request { timeout_secs: u64 },
    SaveBody,
    Open,
    Finish(Result<Seq<char>, ErrorView>),
}

impl View for InstallAction {
    type V = InstallActionView;

    open spec fn view(&self) -> InstallActionView {
        match self {
            InstallAction::ClearStale => InstallActionView::ClearStale,
            InstallAction::Request { timeout_secs } => InstallActionView::Request {
                timeout_secs: *timeout_secs,
            },
            InstallAction::SaveBody => InstallActionView::SaveBody,
            InstallAction::Open => InstallActionView::Open,
            InstallAction::Finish(Ok(message)) => InstallActionView::Finish(Ok(message@)),
            InstallAction::Finish(Err(error)) => InstallActionView::Finish(Err(error@)),
        }
    }
}

/// The fetching of one installer.
#[derive(Debug)]
pub struct InstallerRun {
    phase: InstallPhase,
    path: String,
}

/// What an [`InstallerRun`] stands for in contracts.
pub struct InstallerView {
    /// The answer that the run waits for.
    pub phase: InstallPhase,
    /// Where the installer is stored, as it is shown to the user.
    pub path: Seq<char>,
}

impl View for InstallerRun {
    type V = InstallerView;

    closed spec fn view(&self) -> InstallerView {
        InstallerView { phase: self.phase, path: self.path@ }
    }
}

/// The message for a run without an address.
pub open spec fn no_installer_url_message() -> Seq<char> {
    "No download URL provided."@
}

/// The message of a run that handed the installer at `path` over.
pub open spec fn installer_launched_message(path: Seq<char>) -> Seq<char> {
    "Installer launched! Please follow the installation prompts. File: "@ + path
}

/// The run ends with the failure of kind `kind` whose message is `lead`
/// followed by `cause`.
pub open spec fn fail(s: InstallerView, kind: ErrorKind, lead: Seq<char>, cause: Seq<char>) -> (
    InstallerView,
    InstallActionView,
) {
    (
        InstallerView { phase: InstallPhase::Finished, ..s },
        InstallActionView::Finish(Err(ErrorView { kind, message: lead + cause })),
    )
}

/// The state and the first action of a run that fetches the installer at
/// `url` to `path`.
pub open spec fn install_start(url: Seq<char>, path: Seq<char>) -> (
    InstallerView,
    InstallActionView,
) {
    if url.len() == 0 {
        fail(
            InstallerView { phase: InstallPhase::Clearing, path },
            ErrorKind::Logic,
            no_installer_url_message(),
            Seq::empty(),
        )
    } else {
        (InstallerView { phase: InstallPhase::Clearing, path }, InstallActionView::ClearStale)
    }
}

/// The transition of the run: the state after `event` and the next action,
/// or `None` where `event` is not the answer that the run waits for.
pub open spec fn install_next(s: InstallerView, event: InstallEvent) -> Option<
    (InstallerView, InstallActionView),
> {
    match (s.phase, event) {
        (InstallPhase::Clearing, InstallEvent::StaleCleared) => Some(
            (
                InstallerView { phase: InstallPhase::Requesting, ..s },
                InstallActionView::Request { timeout_secs: DOWNLOAD_TIMEOUT_SECS },
            ),
        ),
        (InstallPhase::Requesting, InstallEvent::ClientFailed(cause)) => Some(
            fail(s, ErrorKind::Network, "Failed to create HTTP client: "@, cause@),
        ),
        (InstallPhase::Requesting, InstallEvent::RequestFailed(cause)) => Some(
            fail(s, ErrorKind::Network, Seq::empty(), cause@),
        ),
        (InstallPhase::Requesting, InstallEvent::Responded(status)) => Some(
            if is_success(status.code) {
                (InstallerView { phase: InstallPhase::Saving, ..s }, InstallActionView::SaveBody)
            } else {
                fail(
                    s,
                    ErrorKind::Network,
                    "Download failed: "@,
                    status_line(status.text@, status.reason.deep_view()),
                )
            },
        ),
        (InstallPhase::Saving, InstallEvent::BodySaved) => Some(
            (InstallerView { phase: InstallPhase::Opening, ..s }, InstallActionView::Open),
        ),
        (InstallPhase::Saving, InstallEvent::BodyFailed(cause)) => Some(
            fail(s, ErrorKind::Network, Seq::empty(), cause@),
        ),
        (InstallPhase::Saving, InstallEvent::FileCreateFailed(cause)) => Some(
            fail(s, ErrorKind::Io, "Failed to create MSI file: "@, cause@),
        ),
        (InstallPhase::Saving, InstallEvent::FileWriteFailed(cause)) => Some(
            fail(s, ErrorKind::Io, "Failed to write MSI file: "@, cause@),
        ),
        (InstallPhase::Opening, InstallEvent::Opened) => Some(
            (
                InstallerView { phase: InstallPhase::Finished, ..s },
                InstallActionView::Finish(Ok(installer_launched_message(s.path))),
            ),
        ),
        (InstallPhase::Opening, InstallEvent::OpenFailed(cause)) => Some(
            fail(s, ErrorKind::ExternalTool, "Failed to open installer: "@, cause@),
        ),
        _ => None,
    }
}

impl InstallerRun {
    /// Starts a run that fetches the installer at `url` to `path`. An empty
    /// address ends the run at once, before anything is asked of the caller.
    pub fn begin(url: &str, path: String) -> (run: (InstallerRun, InstallAction))
        ensures
            (run.0@, run.1@) == install_start(url@, path@),
    {
        if url.is_empty() {
            let error = AppError::logic("No download URL provided.");
            (InstallerRun { phase: InstallPhase::Finished, path }, InstallAction::Finish(Err(error)))
        } else {
            (InstallerRun { phase: InstallPhase::Clearing, path }, InstallAction::ClearStale)
        }
    }

    /// The answer that the run waits for.
    pub fn phase(&self) -> (phase: InstallPhase)
        ensures
            phase == self@.phase,
    {
        self.phase
    }

    /// Where the installer is stored.
    pub fn path(&self) -> (path: &str)
        ensures
            path@ == self@.path,
    {
        self.path.as_str()
    }

    fn fail_with(&mut self, error: AppError) -> (action: InstallAction)
        ensures
            final(self)@ == (InstallerView { phase: InstallPhase::Finished, ..old(self)@ }),
            action@ == InstallActionView::Finish(Err(error@)),
    {
        self.phase = InstallPhase::Finished;
        InstallAction::Finish(Err(error))
    }

    /// Takes the caller's report of what happened and names the next action.
    /// A report that is not the answer that the run waits for changes nothing
    /// and is answered with `None`.
    pub fn step(&mut self, event: InstallEvent) -> (action: Option<InstallAction>)
        ensures
            match install_next(old(self)@, event) {
                Some((state, act)) => {
                    &&& final(self)@ == state
                    &&& action matches Some(a)
                    &&& a@ == act
                },
                None => final(self)@ == old(self)@ && action is None,
            },
    {
        match event {
            InstallEvent::StaleCleared => match self.phase {
                InstallPhase::Clearing => {
                    self.phase = InstallPhase::Requesting;
                    Some(InstallAction::Request { timeout_secs: DOWNLOAD_TIMEOUT_SECS })
                },
                _ => None,
            },
            InstallEvent::ClientFailed(cause) => match self.phase {
                InstallPhase::Requesting => {
                    let message = concat2("Failed to create HTTP client: ", cause.as_str());
                    Some(self.fail_with(AppError::Network(message)))
                },
                _ => None,
            },
            InstallEvent::RequestFailed(cause) => match self.phase {
                InstallPhase::Requesting => {
                    Some(self.fail_with(AppError::Network(cause)))
                },
                _ => None,
            },
            InstallEvent::Responded(status) => match self.phase {
                InstallPhase::Requesting => {
                    if status.is_success() {
                        self.phase = InstallPhase::Saving;
                        Some(InstallAction::SaveBody)
                    } else {
                        let line = status.line();
                        let message = concat2("Download failed: ", line.as_str());
                        Some(self.fail_with(AppError::Network(message)))
                    }
                },
                _ => None,
            },
            InstallEvent::BodySaved => match self.phase {
                InstallPhase::Saving => {
                    self.phase = InstallPhase::Opening;
                    Some(InstallAction::Open)
                },
                _ => None,
            },
            InstallEvent::BodyFailed(cause) => match self.phase {
                InstallPhase::Saving => {
                    Some(self.fail_with(AppError::Network(cause)))
                },
                _ => None,
            },
            InstallEvent::FileCreateFailed(cause) => match self.phase {
                InstallPhase::Saving => {
                    let message = concat2("Failed to create MSI file: ", cause.as_str());
                    Some(self.fail_with(AppError::Io(message)))
                },
                _ => None,
            },
            InstallEvent::FileWriteFailed(cause) => match self.phase {
                InstallPhase::Saving => {
                    let message = concat2("Failed to write MSI file: ", cause.as_str());
                    Some(self.fail_with(AppError::Io(message)))
                },
                _ => None,
            },
            InstallEvent::Opened => match self.phase {
                InstallPhase::Opening => {
                    let message = concat2(
                        "Installer launched! Please follow the installation prompts. File: ",
                        self.path.as_str(),
                    );
                    self.phase = InstallPhase::Finished;
                    Some(InstallAction::Finish(Ok(message)))
                },
                _ => None,
            },
            InstallEvent::OpenFailed(cause) => match self.phase {
                InstallPhase::Opening => {
                    let message = concat2("Failed to open installer: ", cause.as_str());
                    Some(self.fail_with(AppError::Tauri(message)))
                },
                _ => None,
            },
        }
    }
}

/// Begins the fetching of the installer at `url` to `path`.
pub fn install_app_update(url: &str, path: String) -> (run: (InstallerRun, InstallAction))
    ensures
        (run.0@, run.1@) == install_start(url@, path@),
{
    InstallerRun::begin(url, path)
}

} // verus!
