use vstd::prelude::*;
use vstd::string::StringExecFns;

verus! {

/// Why a run or a single transfer failed. Each variant carries the
/// underlying cause as text.
#[derive(Debug)]
pub enum DownloaderError {
    ParseError(String),
    DownloadError(String),
    IoError(String),
    RequestError(String),
    CsvError(String),
}

/// The text shown for an error: a fixed prefix per kind, then the cause.
pub open spec fn error_message(e: DownloaderError) -> Seq<char> {
    match e {
        DownloaderError::ParseError(m) => "Failed to parse TSV file: "@ + m@,
        DownloaderError::DownloadError(m) => "Download failed: "@ + m@,
        DownloaderError::IoError(m) => "IO error: "@ + m@,
        DownloaderError::RequestError(m) => "Request error: "@ + m@,
        DownloaderError::CsvError(m) => "CSV error: "@ + m@,
    }
}

impl DownloaderError {
    /// The error's text, as recorded in a failed report.
    pub fn message(&self) -> (r: String)
        ensures
            r@ == error_message(*self),
    {
        match self {
            DownloaderError::ParseError(m) => "Failed to parse TSV file: ".to_owned().concat(m.as_str()),
            DownloaderError::DownloadError(m) => "Download failed: ".to_owned().concat(m.as_str()),
            DownloaderError::IoError(m) => "IO error: ".to_owned().concat(m.as_str()),
            DownloaderError::RequestError(m) => "Request error: ".to_owned().concat(m.as_str()),
            DownloaderError::CsvError(m) => "CSV error: ".to_owned().concat(m.as_str()),
        }
    }
}

} // verus!
