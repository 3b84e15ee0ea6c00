use vstd::prelude::*;

use crate::types::{DownloadReport, DownloadStatus, DownloadSummary};

verus! {

/// How many reports record a success.
pub open spec fn success_count(rs: Seq<DownloadReport>) -> nat
    decreases rs.len(),
{
    if rs.len() == 0 {
        0
    } else {
        success_count(rs.drop_last()) + if rs.last().status == DownloadStatus::Success {
            1nat
        } else {
            0nat
        }
    }
}

/// Bytes written, summed over reports.
pub open spec fn bytes_sum(rs: Seq<DownloadReport>) -> nat
    decreases rs.len(),
{
    if rs.len() == 0 {
        0
    } else {
        bytes_sum(rs.drop_last()) + rs.last().bytes_downloaded as nat
    }
}

/// The summary of `rs` over a run that took `total_duration_ms`.
pub open spec fn summarizes(s: DownloadSummary, rs: Seq<DownloadReport>, total_duration_ms: u64) -> bool {
    &&& s.reports@ == rs
    &&& s.total_downloads == rs.len()
    &&& s.successful_downloads == success_count(rs)
    &&& s.failed_downloads == rs.len() - success_count(rs)
    &&& s.total_bytes_downloaded == bytes_sum(rs)
    &&& s.total_duration_ms == total_duration_ms
}

/// No more successes than reports.
pub proof fn lemma_success_count_bounded(rs: Seq<DownloadReport>)
    ensures
        success_count(rs) <= rs.len(),
    decreases rs.len(),
{
    if rs.len() > 0 {
        lemma_success_count_bounded(rs.drop_last());
    }
}

/// Every summary counts each report once, as a success or as a failure, and
/// its byte total is the sum of the reports' bytes.
pub proof fn lemma_summary_counts(s: DownloadSummary, rs: Seq<DownloadReport>, d: u64)
    requires
        summarizes(s, rs, d),
    ensures
        s.successful_downloads + s.failed_downloads == s.total_downloads,
        s.total_downloads == s.reports@.len(),
        s.total_bytes_downloaded == bytes_sum(s.reports@),
{
    lemma_success_count_bounded(rs);
}

impl DownloadSummary {
    /// Reduces the reports of a run into its summary. `None` exactly when the
    /// byte total does not fit in a `u64`.
    pub fn from_reports(reports: Vec<DownloadReport>, total_duration_ms: u64) -> (r: Option<
        DownloadSummary,
    >)
        ensures
            r is None <==> bytes_sum(reports@) > u64::MAX,
            r is Some ==> summarizes(r->Some_0, reports@, total_duration_ms),
            r is Some ==> r->Some_0.successful_downloads + r->Some_0.failed_downloads
                == r->Some_0.total_downloads,
    {
        let mut successes: usize = 0;
        let mut bytes: u64 = 0;
        let mut i: usize = 0;
        while i < reports.len()
            invariant
                i <= reports@.len(),
                successes == success_count(reports@.subrange(0, i as int)),
                bytes == bytes_sum(reports@.subrange(0, i as int)),
            decreases reports@.len() - i,
        {
            let ghost prefix = reports@.subrange(0, i as int);
            let ghost next = reports@.subrange(0, i + 1);
            proof {
                assert(next.drop_last() =~= prefix);
                lemma_success_count_bounded(prefix);
            }
            let r = &reports[i];
            if r.status == DownloadStatus::Success {
                successes = successes + 1;
            }
            match bytes.checked_add(r.bytes_downloaded) {
                Some(b) => {
                    bytes = b;
                },
                None => {
                    proof {
                        lemma_bytes_sum_prefix(reports@, i + 1);
                    }
                    return None;
                },
            }
            i = i + 1;
        }
        proof {
            assert(reports@.subrange(0, reports@.len() as int) =~= reports@);
            lemma_success_count_bounded(reports@);
        }
        let total = reports.len();
        Some(
            DownloadSummary {
                total_downloads: total,
                successful_downloads: successes,
                failed_downloads: total - successes,
                total_bytes_downloaded: bytes,
                total_duration_ms,
                reports,
            },
        )
    }
}

proof fn lemma_bytes_sum_prefix(rs: Seq<DownloadReport>, k: int)
    requires
        0 <= k <= rs.len(),
    ensures
        bytes_sum(rs.subrange(0, k)) <= bytes_sum(rs),
    decreases rs.len(),
{
    if k < rs.len() {
        assert(rs.drop_last().subrange(0, k) =~= rs.subrange(0, k));
        lemma_bytes_sum_prefix(rs.drop_last(), k);
    } else {
        assert(rs.subrange(0, k) =~= rs);
    }
}

} // verus!
