//! The fixed values of the application: endpoints, event names, time limits
//! and the names of the engine binaries on each platform.

use vstd::prelude::*;

use crate::text::same_text;

verus! {

/// Where the latest release of the application is asked for.
pub const GITHUB_API_URL: &'static str =
    "https://api.github.com/repos/ThanathonTH/godspeed-downloader/releases/latest";

/// The `User-Agent` that requests carry.
pub const USER_AGENT: &'static str = "godspeed-app";

/// The file name under which an installer is stored in the temporary directory.
pub const UPDATE_MSI_FILENAME: &'static str = "Godspeed_Update.msi";

/// The name of the scratch directory of an engine update.
pub const SCRATCH_DIRECTORY_NAME: &'static str = "godspeed_engine_update";

/// The file name of the package in the scratch directory.
pub const ARCHIVE_FILE_NAME: &'static str = "engine.zip";

/// The name of the directory, in the scratch directory, into which the
/// package is unpacked.
pub const EXTRACT_DIRECTORY_NAME: &'static str = "extracted";

/// Seconds after which a download of an archive or an installer is given up.
pub const DOWNLOAD_TIMEOUT_SECS: u64 = 600;

/// Seconds after which the query for the latest release is given up.
pub const RELEASE_CHECK_TIMEOUT_SECS: u64 = 30;

/// How often a copy into the binaries directory is attempted.
pub const COPY_ATTEMPTS: u32 = 3;

/// Milliseconds between two attempts of a copy.
pub const COPY_RETRY_DELAY_MS: u64 = 500;

/// How many levels above the executable the project directory is looked for.
pub const PROJECT_SEARCH_DEPTH: usize = 5;

/// The operating systems the application runs on.
#[derive(Clone, Copy, PartialEq, Eq, Debug, Structural)]
pub enum Platform {
    Windows,
    MacOs,
    Linux,
}

/// The three external tools that are managed as a unit.
#[derive(Clone, Copy, PartialEq, Eq, Debug, Structural)]
pub enum EngineBinary {
    /// The tool that fetches media.
    Fetcher,
    /// The parallel-transfer accelerator.
    Accelerator,
    /// The transcoder.
    Transcoder,
}

/// The file name of an engine binary on a platform.
pub open spec fn binary_name(platform: Platform, binary: EngineBinary) -> Seq<char> {
    match platform {
        Platform::Windows => match binary {
            EngineBinary::Fetcher => "yt-dlp-x86_64-pc-windows-msvc.exe"@,
            EngineBinary::Accelerator => "aria2c-x86_64-pc-windows-msvc.exe"@,
            EngineBinary::Transcoder => "ffmpeg-x86_64-pc-windows-msvc.exe"@,
        },
        _ => match binary {
            EngineBinary::Fetcher => "yt-dlp"@,
            EngineBinary::Accelerator => "aria2c"@,
            EngineBinary::Transcoder => "ffmpeg"@,
        },
    }
}

/// The binary that follows `binary` in the order in which they are handled.
pub open spec fn binary_after(binary: EngineBinary) -> Option<EngineBinary> {
    match binary {
        EngineBinary::Fetcher => Some(EngineBinary::Accelerator),
        EngineBinary::Accelerator => Some(EngineBinary::Transcoder),
        EngineBinary::Transcoder => None,
    }
}

/// The place of `binary` in the order in which they are handled.
pub open spec fn binary_rank(binary: EngineBinary) -> nat {
    match binary {
        EngineBinary::Fetcher => 0,
        EngineBinary::Accelerator => 1,
        EngineBinary::Transcoder => 2,
    }
}

impl EngineBinary {
    /// The binary that is handled first.
    pub fn first() -> (binary: EngineBinary)
        ensures
            binary == EngineBinary::Fetcher,
    {
        EngineBinary::Fetcher
    }

    /// The binary that is handled after this one, if any is left.
    pub fn next(self) -> (following: Option<EngineBinary>)
        ensures
            following == binary_after(self),
    {
        match self {
            EngineBinary::Fetcher => Some(EngineBinary::Accelerator),
            EngineBinary::Accelerator => Some(EngineBinary::Transcoder),
            EngineBinary::Transcoder => None,
        }
    }

    /// The file name of the binary on `platform`.
    pub fn file_name(self, platform: Platform) -> (name: &'static str)
        ensures
            name@ == binary_name(platform, self),
    {
        match platform {
            Platform::Windows => match self {
                EngineBinary::Fetcher => "yt-dlp-x86_64-pc-windows-msvc.exe",
                EngineBinary::Accelerator => "aria2c-x86_64-pc-windows-msvc.exe",
                EngineBinary::Transcoder => "ffmpeg-x86_64-pc-windows-msvc.exe",
            },
            _ => match self {
                EngineBinary::Fetcher => "yt-dlp",
                EngineBinary::Accelerator => "aria2c",
                EngineBinary::Transcoder => "ffmpeg",
            },
        }
    }
}

/// The bitrate that a quality selector stands for: its own value in upper
/// case for the four known selectors, the highest for anything else.
pub open spec fn bitrate_of(quality: Seq<char>) -> Seq<char> {
    if quality == "128k"@ {
        "128K"@
    } else if quality == "192k"@ {
        "192K"@
    } else if quality == "256k"@ {
        "256K"@
    } else {
        "320K"@
    }
}

/// Maps a quality selector to the bitrate handed to the transcoder.
pub fn get_audio_bitrate(quality: &str) -> (bitrate: &'static str)
    ensures
        bitrate@ == bitrate_of(quality@),
{
    if same_text(quality, "128k") {
        "128K"
    } else if same_text(quality, "192k") {
        "192K"
    } else if same_text(quality, "256k") {
        "256K"
    } else {
        "320K"
    }
}

} // verus!
