//! The download supervisor: the arguments with which the downloader is
//! spawned, and what is made of each line of its output and of its exit.
//!
//! The supervisor neither spawns nor reads. The caller hands it each event
//! of the child process as it arrives; the supervisor answers with the
//! notifications to pass on, and keeps the best-known path of the final file.

use vstd::prelude::*;
use vstd::string::*;
use vstd::utf8::{decode_utf8, valid_utf8};

use crate::config::{bitrate_of, get_audio_bitrate};
use crate::error::{AppError, ErrorKind, ErrorView};
use crate::text::{
    blank, chars_of, concat2, ends_with, find_text, first_occurrence, is_blank,
    push_signed_decimal, range_ends_with, signed_decimal, slice_text, trim, trim_bounds,
};

verus! {

/// The name under which the downloader is bundled with the application.
pub const YT_DLP_SIDECAR: &'static str = "yt-dlp";

/// The two streams of notifications to the front end.
#[derive(Clone, Copy, PartialEq, Eq, Debug, Structural)]
pub enum Channel {
    /// Free-text lines for the terminal display.
    Progress,
    /// The path of the finished file.
    Complete,
}

/// The name of a channel's event.
pub open spec fn channel_name(channel: Channel) -> Seq<char> {
    match channel {
        Channel::Progress => "download-progress"@,
        Channel::Complete => "download-complete"@,
    }
}

impl Channel {
    /// The name of the channel's event.
    pub fn name(self) -> (name: &'static str)
        ensures
            name@ == channel_name(self),
    {
        match self {
            Channel::Progress => "download-progress",
            Channel::Complete => "download-complete",
        }
    }
}

/// One notification to the front end.
#[derive(Debug, PartialEq, Eq)]
pub struct Notification {
    pub channel: Channel,
    pub payload: String,
}

/// What a [`Notification`] stands for in contracts.
pub struct NotificationView {
    pub channel: Channel,
    pub payload: Seq<char>,
}

impl DeepView for Notification {
    type V = NotificationView;

    open spec fn deep_view(&self) -> NotificationView {
        NotificationView { channel: self.channel, payload: self.payload@ }
    }
}

/// One event of the supervised process. Lines arrive as the bytes that the
/// process wrote.
#[derive(Debug, PartialEq, Eq)]
pub enum ProcessEvent {
    /// A line on standard output.
    Stdout(Vec<u8>),
    /// A line on standard error.
    Stderr(Vec<u8>),
    /// The process ended, with this exit code if it has one.
    Terminated(Option<i32>),
    /// Anything else that the runtime reports.
    Other,
}

/// The arguments of the downloader for one request: no playlists, file
/// names that every supported file system takes, audio only, as MP3 at the
/// bitrate that `quality` stands for, fetched by the accelerator over 16
/// connections in pieces of 1 MB.
pub open spec fn arguments_for(url: Seq<char>, output_path: Seq<char>, quality: Seq<char>) -> Seq<
    Seq<char>,
> {
    seq![
        "--no-playlist"@,
        "--windows-filenames"@,
        "--trim-filenames"@,
        "200"@,
        "-o"@,
        output_path + "/%(title)s.%(ext)s"@,
        "--extract-audio"@,
        "--audio-format"@,
        "mp3"@,
        "--audio-quality"@,
        bitrate_of(quality),
        "--external-downloader"@,
        "aria2c"@,
        "--external-downloader-args"@,
        "-x 16 -k 1M"@,
        url,
    ]
}

/// The words that announce where the downloader writes.
pub open spec fn destination_marker() -> Seq<char> {
    "Destination:"@
}

/// The extension of the final file.
pub open spec fn final_extension() -> Seq<char> {
    ".mp3"@
}

/// The path that `line` announces: what follows the first marker, trimmed.
pub open spec fn announced_path(line: Seq<char>) -> Option<Seq<char>> {
    match first_occurrence(line, destination_marker()) {
        Some(at) => Some(trim(line.subrange(at + destination_marker().len(), line.len() as int))),
        None => None,
    }
}

/// The best-known final path after `line`: the path that the line announces
/// where it has the final extension, else the one known before.
pub open spec fn path_after_line(known: Option<Seq<char>>, line: Seq<char>) -> Option<Seq<char>> {
    match announced_path(line) {
        Some(path) => if ends_with(path, final_extension()) {
            Some(path)
        } else {
            known
        },
        None => known,
    }
}

/// What is passed on for `line`: the line itself, unless it is blank.
pub open spec fn notes_for_line(line: Seq<char>) -> Seq<NotificationView> {
    if is_blank(line) {
        Seq::empty()
    } else {
        seq![NotificationView { channel: Channel::Progress, payload: line }]
    }
}

/// The notice of a successful end.
pub open spec fn completed_notice() -> Seq<char> {
    "Download completed!"@
}

/// An exit code as the failure notice shows it.
pub open spec fn shown_code(code: Option<i32>) -> Seq<char> {
    match code {
        Some(c) => "Some("@ + signed_decimal(c as int) + ")"@,
        None => "None"@,
    }
}

/// The notice of an end with a code other than zero.
pub open spec fn failure_notice(code: Option<i32>) -> Seq<char> {
    "[ERROR] Process exited with code: "@ + shown_code(code)
}

/// What is passed on when the process ends: after exit code 0 the known
/// path on the completion channel, if there is one, and then the notice;
/// after any other end the failure notice alone.
pub open spec fn notes_for_exit(known: Option<Seq<char>>, code: Option<i32>) -> Seq<
    NotificationView,
> {
    if code == Some(0i32) {
        let notice = NotificationView { channel: Channel::Progress, payload: completed_notice() };
        match known {
            Some(path) => seq![
                NotificationView { channel: Channel::Complete, payload: path },
                notice,
            ],
            None => seq![notice],
        }
    } else {
        seq![NotificationView { channel: Channel::Progress, payload: failure_notice(code) }]
    }
}

/// What the caller gets once the stream of events is over: the known path,
/// or a plain notice where none was ever announced.
pub open spec fn outcome_text(known: Option<Seq<char>>) -> Seq<char> {
    match known {
        Some(path) => path,
        None => "Download completed"@,
    }
}

/// The text that `String::from_utf8_lossy` makes of `bytes`.
pub uninterp spec fn lossy_text(bytes: Seq<u8>) -> Seq<char>;

/// The known path and the notifications after `event`.
pub open spec fn observed(known: Option<Seq<char>>, event: ProcessEvent) -> (
    Option<Seq<char>>,
    Seq<NotificationView>,
) {
    match event {
        ProcessEvent::Stdout(bytes) => (
            path_after_line(known, lossy_text(bytes@)),
            notes_for_line(lossy_text(bytes@)),
        ),
        ProcessEvent::Stderr(bytes) => (
            path_after_line(known, lossy_text(bytes@)),
            notes_for_line(lossy_text(bytes@)),
        ),
        ProcessEvent::Terminated(code) => (known, notes_for_exit(known, code)),
        ProcessEvent::Other => (known, Seq::empty()),
    }
}

/// Calls `String::from_utf8_lossy`: the result is a function of the bytes
/// alone, named [`lossy_text`]; bytes that are valid UTF-8 are decoded as
/// they stand.
#[verifier::external_body]
fn decode_lossy(bytes: &Vec<u8>) -> (text: String)
    ensures
        text@ == lossy_text(bytes@),
        valid_utf8(bytes@) ==> text@ == decode_utf8(bytes@),
{
    String::from_utf8_lossy(bytes).into_owned()
}

/// The failure that is reported where the command for the downloader
/// cannot be made.
pub fn sidecar_failure(cause: &str) -> (error: AppError)
    ensures
        error@ == (ErrorView {
            kind: ErrorKind::ExternalTool,
            message: "Failed to create sidecar command: "@ + cause@,
        }),
{
    AppError::Tauri(concat2("Failed to create sidecar command: ", cause))
}

/// The failure that is reported where the downloader cannot be started.
pub fn spawn_failure(cause: &str) -> (error: AppError)
    ensures
        error@ == (ErrorView {
            kind: ErrorKind::ExternalTool,
            message: "Failed to spawn yt-dlp: "@ + cause@,
        }),
{
    AppError::Tauri(concat2("Failed to spawn yt-dlp: ", cause))
}

/// The arguments with which the downloader is spawned for one request.
pub fn download_arguments(url: &str, output_path: &str, quality: &str) -> (args: Vec<String>)
    ensures
        args.deep_view() == arguments_for(url@, output_path@, quality@),
{
    let mut args: Vec<String> = Vec::new();
    args.push(String::from_str("--no-playlist"));
    args.push(String::from_str("--windows-filenames"));
    args.push(String::from_str("--trim-filenames"));
    args.push(String::from_str("200"));
    args.push(String::from_str("-o"));
    args.push(concat2(output_path, "/%(title)s.%(ext)s"));
    args.push(String::from_str("--extract-audio"));
    args.push(String::from_str("--audio-format"));
    args.push(String::from_str("mp3"));
    args.push(String::from_str("--audio-quality"));
    args.push(String::from_str(get_audio_bitrate(quality)));
    args.push(String::from_str("--external-downloader"));
    args.push(String::from_str("aria2c"));
    args.push(String::from_str("--external-downloader-args"));
    args.push(String::from_str("-x 16 -k 1M"));
    args.push(String::from_str(url));
    args
}

/// The state of one supervised download: the best-known path of the final
/// file.
#[derive(Debug)]
pub struct DownloadSession {
    final_file_path: Option<String>,
}

impl View for DownloadSession {
    type V = Option<Seq<char>>;

    closed spec fn view(&self) -> Option<Seq<char>> {
        self.final_file_path.deep_view()
    }
}

impl DownloadSession {
    /// A session that knows no path yet.
    pub fn new() -> (session: DownloadSession)
        ensures
            session@ is None,
    {
        DownloadSession { final_file_path: None }
    }

    /// The best-known path of the final file.
    pub fn final_file_path(&self) -> (path: Option<String>)
        ensures
            path.deep_view() == self@,
    {
        match &self.final_file_path {
            Some(path) => Some(path.clone()),
            None => None,
        }
    }

    /// Takes one line of output, from either stream: remembers the path it
    /// announces if that is a final file, and passes the line on unless it
    /// is blank.
    pub fn observe_line(&mut self, line: String) -> (notes: Vec<Notification>)
        ensures
            final(self)@ == path_after_line(old(self)@, line@),
            notes.deep_view() == notes_for_line(line@),
    {
        let chars = chars_of(line.as_str());
        let marker = chars_of("Destination:");
        let extension = chars_of(".mp3");
        proof {
            reveal_strlit("Destination:");
        }
        match find_text(&chars, &marker) {
            Some(at) => {
                let (from, to) = trim_bounds(&chars, at + 12);
                if range_ends_with(&chars, from, to, &extension) {
                    self.final_file_path = Some(slice_text(line.as_str(), from, to));
                }
            },
            None => {},
        }
        let mut notes: Vec<Notification> = Vec::new();
        if !blank(&chars) {
            notes.push(Notification { channel: Channel::Progress, payload: line });
        }
        notes
    }

    /// Takes the end of the process and answers with the closing
    /// notifications. A code other than zero is reported as a line of
    /// progress, never as an error.
    pub fn observe_exit(&self, code: Option<i32>) -> (notes: Vec<Notification>)
        ensures
            notes.deep_view() == notes_for_exit(self@, code),
    {
        let mut notes: Vec<Notification> = Vec::new();
        let success = match code {
            Some(c) => c == 0,
            None => false,
        };
        if success {
            match &self.final_file_path {
                Some(path) => {
                    notes.push(Notification { channel: Channel::Complete, payload: path.clone() });
                },
                None => {},
            }
            notes.push(
                Notification {
                    channel: Channel::Progress,
                    payload: String::from_str("Download completed!"),
                },
            );
        } else {
            let mut shown = String::from_str("[ERROR] Process exited with code: ");
            match code {
                Some(c) => {
                    let ghost before = shown@;
                    shown.append("Some(");
                    push_signed_decimal(&mut shown, c);
                    shown.append(")");
                    assert(shown@ =~= before + ("Some("@ + signed_decimal(c as int) + ")"@));
                },
                None => {
                    shown.append("None");
                },
            }
            notes.push(Notification { channel: Channel::Progress, payload: shown });
        }
        notes
    }

    /// Takes one event of the process and answers with the notifications to
    /// pass on, in order.
    pub fn observe(&mut self, event: ProcessEvent) -> (notes: Vec<Notification>)
        ensures
            (final(self)@, notes.deep_view()) == observed(old(self)@, event),
    {
        match event {
            ProcessEvent::Stdout(bytes) => {
                let line = decode_lossy(&bytes);
                self.observe_line(line)
            },
            ProcessEvent::Stderr(bytes) => {
                let line = decode_lossy(&bytes);
                self.observe_line(line)
            },
            ProcessEvent::Terminated(code) => self.observe_exit(code),
            ProcessEvent::Other => {
                let notes: Vec<Notification> = Vec::new();
                notes
            },
        }
    }

    /// What the caller gets once the stream of events is over: the known
    /// path, or a plain notice where none was ever announced.
    pub fn finish(self) -> (outcome: String)
        ensures
            outcome@ == outcome_text(self@),
    {
        match self.final_file_path {
            Some(path) => path,
            None => String::from_str("Download completed"),
        }
    }
}

/// Begins the supervision of one download: the arguments with which the
/// downloader is to be spawned, and a session that knows no path yet.
pub fn download_video(url: &str, output_path: &str, quality: &str) -> (begun: (
    DownloadSession,
    Vec<String>,
))
    ensures
        begun.0@ is None,
        begun.1.deep_view() == arguments_for(url@, output_path@, quality@),
{
    (DownloadSession::new(), download_arguments(url, output_path, quality))
}

} // verus!
