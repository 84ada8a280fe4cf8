//! Sans-I/O core of the Godspeed desktop companion: the rules that keep the
//! engine binaries up to date and that supervise a download process.
//!
//! Nothing here touches the file system, the network or a child process.
//! Each component takes what the outside world reported as plain values and
//! answers with the next thing to do, so that every decision is stated in a
//! contract and proved.
//!
//! * [`engine`] is the update pipeline, [`engine_laws`] what holds of all its runs.
//! * [`resolver`] finds the binaries directory and judges lock probes.
//! * [`archive`] reads a package with the `zip` crate and plans its extraction.
//! * [`tree`] searches a directory listing, [`copy`] decides on retries of a copy.
//! * [`downloader`] supervises a download, [`downloader_laws`] states what
//!   holds of every supervised download.
//! * [`app_update`] and [`files`] serve the update of the application itself
//!   and the file browser.
//! * [`config`], [`error`], [`http`] and [`text`] are shared by all of them.

pub mod app_update;
pub mod archive;
pub mod config;
pub mod copy;
pub mod downloader;
pub mod downloader_laws;
pub mod engine;
pub mod engine_laws;
pub mod error;
pub mod files;
pub mod http;
pub mod resolver;
pub mod text;
pub mod tree;
