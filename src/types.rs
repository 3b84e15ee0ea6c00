use vstd::prelude::*;

verus! {

/// One row of the manifest: a dataset and the URLs it can be fetched from.
pub struct InventoryEntry {
    pub code: String,
    pub entry_type: String,
    pub source_dataset: String,
    pub last_data_change: String,
    pub last_structural_change: String,
    pub tsv_url: Option<String>,
    pub csv_url: Option<String>,
    pub sdmx_url: Option<String>,
    pub structure_url: Option<String>,
    pub browser_url: Option<String>,
}

/// The downloadable formats, in the order in which an entry's URLs are used.
#[derive(PartialEq, Eq, Structural, Clone, Copy, Debug)]
pub enum FileFormat {
    TSV,
    CSV,
    SDMX,
}

/// Outcome of one transfer.
#[derive(PartialEq, Eq, Structural, Clone, Copy, Debug)]
pub enum DownloadStatus {
    Success,
    Failed,
}

/// One concrete transfer: the entry it came from, its source URL, where the
/// body is written and in which format.
pub struct DownloadTask {
    pub entry: InventoryEntry,
    pub url: String,
    pub output_path: String,
    pub format: FileFormat,
}

/// What one transfer produced. `error` is present exactly when `status` is
/// `Failed`; `duration_ms` is the task's own wall-clock time.
pub struct DownloadReport {
    pub task: DownloadTask,
    pub status: DownloadStatus,
    pub bytes_downloaded: u64,
    pub duration_ms: u64,
    pub error: Option<String>,
}

/// Aggregate over all reports of one run, in task order. `total_duration_ms`
/// is the wall-clock time of the whole run.
pub struct DownloadSummary {
    pub total_downloads: usize,
    pub successful_downloads: usize,
    pub failed_downloads: usize,
    pub total_bytes_downloaded: u64,
    pub total_duration_ms: u64,
    pub reports: Vec<DownloadReport>,
}

/// The run's configuration as plain values.
pub struct Cli {
    pub input_file: String,
    pub output_dir: String,
    pub parallelism: usize,
    pub rate_limit: Option<u64>,
}

/// The file extension written for a format.
pub open spec fn format_extension(f: FileFormat) -> Seq<char> {
    match f {
        FileFormat::TSV => "tsv"@,
        FileFormat::CSV => "csv"@,
        FileFormat::SDMX => "sdmx"@,
    }
}

fn clone_opt_string(o: &Option<String>) -> (r: Option<String>)
    ensures
        r == *o,
{
    match o {
        Some(s) => Some(s.clone()),
        None => None,
    }
}

impl Clone for InventoryEntry {
    fn clone(&self) -> (r: Self)
        ensures
            r == *self,
    {
        InventoryEntry {
            code: self.code.clone(),
            entry_type: self.entry_type.clone(),
            source_dataset: self.source_dataset.clone(),
            last_data_change: self.last_data_change.clone(),
            last_structural_change: self.last_structural_change.clone(),
            tsv_url: clone_opt_string(&self.tsv_url),
            csv_url: clone_opt_string(&self.csv_url),
            sdmx_url: clone_opt_string(&self.sdmx_url),
            structure_url: clone_opt_string(&self.structure_url),
            browser_url: clone_opt_string(&self.browser_url),
        }
    }
}

impl Clone for DownloadTask {
    fn clone(&self) -> (r: Self)
        ensures
            r == *self,
    {
        DownloadTask {
            entry: self.entry.clone(),
            url: self.url.clone(),
            output_path: self.output_path.clone(),
            format: self.format,
        }
    }
}

impl FileFormat {
    /// The extension of the files written in this format.
    pub fn extension(&self) -> (r: &'static str)
        ensures
            r@ == format_extension(*self),
    {
        proof {
            reveal_strlit("tsv");
            reveal_strlit("csv");
            reveal_strlit("sdmx");
        }
        match self {
            FileFormat::TSV => "tsv",
            FileFormat::CSV => "csv",
            FileFormat::SDMX => "sdmx",
        }
    }
}

} // verus!
