//! Verified core of a Spring Initializr client: the capability schema model,
//! the in-progress project configuration, the interactive session state
//! machine, and the assembly of download requests and exported
//! configuration files.

use vstd::prelude::*;

pub mod api;
pub mod cli;
pub mod codec;
pub mod config;
pub mod config_state;
pub mod deps;
pub mod generator;
pub mod schema;
pub mod session;
pub mod text;

verus! {

/// The failures the library distinguishes.  Remote transport and file I/O
/// live outside the library; their outcomes are reported through these
/// variants at the action boundary.
#[derive(Debug)]
pub enum SpringError {
    /// The capability schema could not be fetched; the session must not start.
    SchemaUnavailable(String),
    /// A value offered for an enumerated field is not among the schema's ids.
    InvalidFieldValue,
    /// The schema has no download link for the configured project type.
    UnsupportedProjectType,
    /// A download link template could not be reduced to a base URL.
    InvalidUrlFormat,
    /// The project download itself failed; carries the failure detail.
    DownloadFailed(String),
    /// A configuration file path carries an extension no parser handles.
    UnsupportedFileType,
    /// A configuration file path has no extension at all.
    NoFileExtension,
    /// A configuration file's content does not parse in its declared format.
    ConfigParse,
    /// No global configuration file stands in the expected place.
    GlobalConfigMissing,
}

impl SpringError {
    /// A short, user-facing description of the failure.
    pub fn message(&self) -> (r: String)
        ensures
            r@ == self.message_spec(),
    {
        match self {
            SpringError::SchemaUnavailable(d) => String::from_str("Download failed: ").concat(d.as_str()),
            SpringError::InvalidFieldValue => String::from_str("Invalid field value"),
            SpringError::UnsupportedProjectType => String::from_str("Unsupported project type"),
            SpringError::InvalidUrlFormat => String::from_str("Invalid URL format"),
            SpringError::DownloadFailed(d) => String::from_str("Download failed: ").concat(d.as_str()),
            SpringError::UnsupportedFileType => String::from_str("Unsuppored file type"),
            SpringError::NoFileExtension => String::from_str("No file extension found"),
            SpringError::ConfigParse => String::from_str("Could not parse configuration file"),
            SpringError::GlobalConfigMissing => String::from_str(
                "No global configuration file found",
            ),
        }
    }

    /// What `message` returns for each variant.
    pub open spec fn message_spec(&self) -> Seq<char> {
        match self {
            SpringError::SchemaUnavailable(d) => "Download failed: "@ + d@,
            SpringError::InvalidFieldValue => "Invalid field value"@,
            SpringError::UnsupportedProjectType => "Unsupported project type"@,
            SpringError::InvalidUrlFormat => "Invalid URL format"@,
            SpringError::DownloadFailed(d) => "Download failed: "@ + d@,
            SpringError::UnsupportedFileType => "Unsuppored file type"@,
            SpringError::NoFileExtension => "No file extension found"@,
            SpringError::ConfigParse => "Could not parse configuration file"@,
            SpringError::GlobalConfigMissing => "No global configuration file found"@,
        }
    }
}

} // verus!
