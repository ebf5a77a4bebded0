//! The error taxonomy of the provisioning pipeline. Every stage surfaces its
//! error unmodified; the orchestrator turns the first error into a failed
//! completion event carrying the human-readable description from [`ProvisionError::describe`].

use vstd::prelude::*;
use crate::strings::{chars_to_string, dec_rep, str_to_chars, u64_to_chars, append_str_chars, append_chars};

verus! {

/// One failure class per pipeline stage.
#[derive(Debug, Clone, PartialEq, Eq)]
pub enum ProvisionError {
    /// The host operating system is outside the supported set.
    PlatformUnsupported,
    /// The package catalog could not be reached (transport failure).
    CatalogUnreachable,
    /// The package catalog answered with a non-success HTTP status.
    CatalogError(u16),
    /// The package catalog response body could not be interpreted.
    CatalogParseError,
    /// The catalog holds no build for the requested platform and version.
    NoPackageFound,
    /// The archive download could not be started (transport failure).
    DownloadUnreachable,
    /// The archive download answered with a non-success HTTP status.
    DownloadHttpError(u16),
    /// The downloaded archive could not be opened.
    ArchiveCorrupt,
    /// One entry of the archive could not be read.
    ArchiveEntryReadError,
    /// A create, write, rename or remove on the filesystem failed.
    FilesystemError(String),
    /// The candidate Java executable could not be spawned.
    ProcessSpawnError,
    /// The candidate Java executable exited with a non-zero status.
    ProcessExitError,
    /// No version could be read from the reported version string.
    VersionUnparseable,
}

/// The description text of each error, as emitted in completion events.
pub open spec fn error_text(e: ProvisionError) -> Seq<char> {
    match e {
        ProvisionError::PlatformUnsupported => "Unsupported platform"@,
        ProvisionError::CatalogUnreachable => "Package catalog unreachable"@,
        ProvisionError::CatalogError(status) => "Package catalog returned HTTP status "@
            + dec_rep(status as nat),
        ProvisionError::CatalogParseError => "Malformed package catalog response"@,
        ProvisionError::NoPackageFound => "No matching Java package found"@,
        ProvisionError::DownloadUnreachable => "Download failed: unreachable"@,
        ProvisionError::DownloadHttpError(status) => "Download failed: HTTP status "@
            + dec_rep(status as nat),
        ProvisionError::ArchiveCorrupt => "Corrupt archive"@,
        ProvisionError::ArchiveEntryReadError => "Failed to read an archive entry"@,
        ProvisionError::FilesystemError(detail) => "Filesystem error: "@ + detail@,
        ProvisionError::ProcessSpawnError => "Failed to spawn the Java executable"@,
        ProvisionError::ProcessExitError => "Java executable exited with an error"@,
        ProvisionError::VersionUnparseable => "Unparseable Java version"@,
    }
}

impl ProvisionError {
    /// The human-readable description of this error.
    pub fn describe(&self) -> (s: String)
        ensures
            s@ == error_text(*self),
    {
        match self {
            ProvisionError::PlatformUnsupported => {
                let mut v: Vec<char> = Vec::new();
                append_str_chars(&mut v, "Unsupported platform");
                chars_to_string(&v)
            },
            ProvisionError::CatalogUnreachable => {
                let mut v: Vec<char> = Vec::new();
                append_str_chars(&mut v, "Package catalog unreachable");
                chars_to_string(&v)
            },
            ProvisionError::CatalogError(status) => {
                let mut v: Vec<char> = Vec::new();
                append_str_chars(&mut v, "Package catalog returned HTTP status ");
                let digits = u64_to_chars(*status as u64);
                append_chars(&mut v, &digits);
                chars_to_string(&v)
            },
            ProvisionError::CatalogParseError => {
                let mut v: Vec<char> = Vec::new();
                append_str_chars(&mut v, "Malformed package catalog response");
                chars_to_string(&v)
            },
            ProvisionError::NoPackageFound => {
                let mut v: Vec<char> = Vec::new();
                append_str_chars(&mut v, "No matching Java package found");
                chars_to_string(&v)
            },
            ProvisionError::DownloadUnreachable => {
                let mut v: Vec<char> = Vec::new();
                append_str_chars(&mut v, "Download failed: unreachable");
                chars_to_string(&v)
            },
            ProvisionError::DownloadHttpError(status) => {
                let mut v: Vec<char> = Vec::new();
                append_str_chars(&mut v, "Download failed: HTTP status ");
                let digits = u64_to_chars(*status as u64);
                append_chars(&mut v, &digits);
                chars_to_string(&v)
            },
            ProvisionError::ArchiveCorrupt => {
                let mut v: Vec<char> = Vec::new();
                append_str_chars(&mut v, "Corrupt archive");
                chars_to_string(&v)
            },
            ProvisionError::ArchiveEntryReadError => {
                let mut v: Vec<char> = Vec::new();
                append_str_chars(&mut v, "Failed to read an archive entry");
                chars_to_string(&v)
            },
            ProvisionError::FilesystemError(detail) => {
                let mut v: Vec<char> = Vec::new();
                append_str_chars(&mut v, "Filesystem error: ");
                let tail = str_to_chars(detail.as_str());
                append_chars(&mut v, &tail);
                chars_to_string(&v)
            },
            ProvisionError::ProcessSpawnError => {
                let mut v: Vec<char> = Vec::new();
                append_str_chars(&mut v, "Failed to spawn the Java executable");
                chars_to_string(&v)
            },
            ProvisionError::ProcessExitError => {
                let mut v: Vec<char> = Vec::new();
                append_str_chars(&mut v, "Java executable exited with an error");
                chars_to_string(&v)
            },
            ProvisionError::VersionUnparseable => {
                let mut v: Vec<char> = Vec::new();
                append_str_chars(&mut v, "Unparseable Java version");
                chars_to_string(&v)
            },
        }
    }
}

} // verus!
