//! Bulk download orchestration: turns manifest entries into transfer tasks,
//! schedules them in bounded groups, throttles each transfer chunk by chunk,
//! and reduces the per-task outcomes into a summary.

pub mod error;
pub mod manifest;
pub mod run;
pub mod stats;
pub mod summary;
pub mod tasks;
pub mod transfer;
pub mod types;

pub use error::DownloaderError;
pub use manifest::parse_tsv;
pub use run::{DownloadRun, RunAction};
pub use stats::StatsRow;
pub use tasks::Downloader;
pub use transfer::{Delay, TransferOutcome, TransferProgress};
pub use types::{
    Cli, DownloadReport, DownloadStatus, DownloadSummary, DownloadTask, FileFormat, InventoryEntry,
};
