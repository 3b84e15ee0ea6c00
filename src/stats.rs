use vstd::prelude::*;
use vstd::string::StrSliceExecFns;

use crate::types::{DownloadReport, DownloadStatus, DownloadSummary};

verus! {

/// The name of the statistics file written inside the output directory.
pub fn stats_file_name() -> (r: &'static str)
    ensures
        r@ == "download_stats.csv"@,
{
    "download_stats.csv"
}

/// The column titles of the statistics file.
pub fn stats_header() -> (r: Vec<&'static str>)
    ensures
        r@.len() == 7,
        r@[0]@ == "Filename"@,
        r@[1]@ == "Status"@,
        r@[2]@ == "Size (MB)"@,
        r@[3]@ == "Duration (s)"@,
        r@[4]@ == "Speed (MB/s)"@,
        r@[5]@ == "URL"@,
        r@[6]@ == "Error"@,
{
    vec!["Filename", "Status", "Size (MB)", "Duration (s)", "Speed (MB/s)", "URL", "Error"]
}

/// The last component of a `/`-separated path: what follows the last `/`.
pub open spec fn last_component(p: Seq<char>) -> Seq<char>
    decreases p.len(),
{
    if p.len() == 0 || p.last() == '/' {
        Seq::empty()
    } else {
        last_component(p.drop_last()).push(p.last())
    }
}

/// The last component of `path`.
pub fn file_name_of(path: &str) -> (r: &str)
    ensures
        r@ == last_component(path@),
{
    let n = path.unicode_len();
    let mut k: usize = n;
    while k > 0 && path.get_char(k - 1) != '/'
        invariant
            k <= n,
            n == path@.len(),
            forall|j: int| k <= j < n ==> path@[j] != '/',
        decreases k,
    {
        k = k - 1;
    }
    let r = path.substring_char(k, n);
    proof {
        lemma_last_component(path@, k as int);
    }
    r
}

proof fn lemma_last_component(p: Seq<char>, k: int)
    requires
        0 <= k <= p.len(),
        k == 0 || p[k - 1] == '/',
        forall|j: int| k <= j < p.len() ==> p[j] != '/',
    ensures
        last_component(p) == p.subrange(k, p.len() as int),
    decreases p.len(),
{
    if p.len() == k {
        if p.len() > 0 {
            assert(p.last() == '/');
        }
        assert(p.subrange(k, k) =~= Seq::<char>::empty());
    } else {
        lemma_last_component(p.drop_last(), k);
        assert(p.subrange(k, p.len() as int) =~= p.drop_last().subrange(k, p.len() - 1).push(
            p.last(),
        ));
    }
}

impl DownloadStatus {
    /// The status as written in the statistics file.
    pub fn label(&self) -> (r: &'static str)
        ensures
            *self == DownloadStatus::Success ==> r@ == "Success"@,
            *self == DownloadStatus::Failed ==> r@ == "Failed"@,
    {
        match self {
            DownloadStatus::Success => "Success",
            DownloadStatus::Failed => "Failed",
        }
    }
}

/// One line of the statistics file before its numbers are rendered: the
/// byte count and the duration stay raw.
pub struct StatsRow {
    pub file_name: String,
    pub status: String,
    pub bytes_downloaded: u64,
    pub duration_ms: u64,
    pub url: String,
    pub error: String,
}

/// The row written for a report; an absent error is an empty field.
pub open spec fn is_row_of(row: StatsRow, r: DownloadReport) -> bool {
    &&& row.file_name@ == last_component(r.task.output_path@)
    &&& row.status@ == (if r.status == DownloadStatus::Success {
        "Success"@
    } else {
        "Failed"@
    })
    &&& row.bytes_downloaded == r.bytes_downloaded
    &&& row.duration_ms == r.duration_ms
    &&& row.url@ == r.task.url@
    &&& row.error@ == (match r.error {
        Some(e) => e@,
        None => Seq::empty(),
    })
}

impl StatsRow {
    /// The statistics row of one report.
    pub fn of_report(r: &DownloadReport) -> (row: StatsRow)
        ensures
            is_row_of(row, *r),
    {
        let error = match &r.error {
            Some(e) => e.clone(),
            None => String::new(),
        };
        StatsRow {
            file_name: file_name_of(r.task.output_path.as_str()).to_owned(),
            status: r.status.label().to_owned(),
            bytes_downloaded: r.bytes_downloaded,
            duration_ms: r.duration_ms,
            url: r.task.url.clone(),
            error,
        }
    }
}

impl DownloadSummary {
    /// One statistics row per report, in report order.
    pub fn stats_rows(&self) -> (rows: Vec<StatsRow>)
        ensures
            rows@.len() == self.reports@.len(),
            forall|i: int| 0 <= i < rows@.len() ==> is_row_of(#[trigger] rows@[i], self.reports@[i]),
    {
        let mut rows: Vec<StatsRow> = Vec::new();
        let mut i: usize = 0;
        while i < self.reports.len()
            invariant
                i <= self.reports@.len(),
                rows@.len() == i,
                forall|k: int| 0 <= k < i ==> is_row_of(#[trigger] rows@[k], self.reports@[k]),
            decreases self.reports@.len() - i,
        {
            rows.push(StatsRow::of_report(&self.reports[i]));
            i = i + 1;
        }
        rows
    }

    /// Whether the run succeeded as a whole: no task failed.
    pub fn all_succeeded(&self) -> (r: bool)
        ensures
            r == (self.failed_downloads == 0),
    {
        self.failed_downloads == 0
    }
}

} // verus!
