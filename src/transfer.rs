use vstd::arithmetic::div_mod::{lemma_fundamental_div_mod, lemma_fundamental_div_mod_converse};
use vstd::prelude::*;
use vstd::string::StringExecFns;

use crate::error::{error_message, DownloaderError};
use crate::tasks::Downloader;
use crate::types::{DownloadReport, DownloadStatus, DownloadTask};

verus! {

pub const NANOS_PER_SEC: u64 = 1_000_000_000;

/// A pause before the next chunk: whole seconds and the nanoseconds beyond.
#[derive(PartialEq, Eq, Structural, Clone, Copy, Debug)]
pub struct Delay {
    pub secs: u64,
    pub nanos: u32,
}

impl Delay {
    pub open spec fn total_nanos(self) -> int {
        self.secs * NANOS_PER_SEC + self.nanos
    }
}

/// The pause owed for a chunk of `chunk_len` bytes under a cap of `rate`
/// bytes per second: `chunk_len / rate` seconds, in whole nanoseconds
/// rounded down.
pub open spec fn delay_nanos(chunk_len: int, rate: int) -> int {
    (chunk_len * NANOS_PER_SEC) / rate
}

/// Pauses summed over a sequence of chunks.
pub open spec fn total_delay_nanos(chunks: Seq<u64>, rate: int) -> int
    decreases chunks.len(),
{
    if chunks.len() == 0 {
        0
    } else {
        total_delay_nanos(chunks.drop_last(), rate) + delay_nanos(chunks.last() as int, rate)
    }
}

/// Bytes summed over a sequence of chunks.
pub open spec fn total_chunk_bytes(chunks: Seq<u64>) -> int
    decreases chunks.len(),
{
    if chunks.len() == 0 {
        0
    } else {
        total_chunk_bytes(chunks.drop_last()) + chunks.last()
    }
}

proof fn lemma_delay_bounds(c: int, rate: int)
    requires
        c >= 0,
        rate > 0,
    ensures
        delay_nanos(c, rate) * rate <= c * NANOS_PER_SEC,
        c * NANOS_PER_SEC < (delay_nanos(c, rate) + 1) * rate,
{
    lemma_fundamental_div_mod(c * NANOS_PER_SEC, rate);
    let q = delay_nanos(c, rate);
    let m = (c * NANOS_PER_SEC) % rate;
    assert(0 <= m < rate);
    assert(q * rate + m == c * NANOS_PER_SEC) by (nonlinear_arith)
        requires
            c * NANOS_PER_SEC == rate * q + m,
    ;
    assert((q + 1) * rate == q * rate + rate) by (nonlinear_arith);
}

/// The pauses injected for a transfer add up to the time the payload takes at
/// the capped rate, less at most one nanosecond per chunk: with `D` the total
/// pause in nanoseconds, `B` the payload in bytes and `n` the number of chunks,
/// `D * rate <= B * 10^9 < (D + n) * rate`.
pub proof fn lemma_total_delay_tracks_rate(chunks: Seq<u64>, rate: int)
    requires
        rate > 0,
        chunks.len() > 0,
    ensures
        total_delay_nanos(chunks, rate) * rate <= total_chunk_bytes(chunks) * NANOS_PER_SEC,
        total_chunk_bytes(chunks) * NANOS_PER_SEC < (total_delay_nanos(chunks, rate)
            + chunks.len()) * rate,
    decreases chunks.len(),
{
    let c = chunks.last() as int;
    lemma_delay_bounds(c, rate);
    let d = delay_nanos(c, rate);
    assert(total_delay_nanos(chunks, rate) == total_delay_nanos(chunks.drop_last(), rate) + d);
    assert(total_chunk_bytes(chunks) == total_chunk_bytes(chunks.drop_last()) + c);
    if chunks.len() == 1 {
        assert(chunks.drop_last().len() == 0);
        assert(total_delay_nanos(chunks.drop_last(), rate) == 0);
        assert(total_chunk_bytes(chunks.drop_last()) == 0);
    } else {
        let rest = chunks.drop_last();
        lemma_total_delay_tracks_rate(rest, rate);
        let td = total_delay_nanos(rest, rate);
        let tb = total_chunk_bytes(rest);
        let n = rest.len() as int;
        assert((td + d) * rate == td * rate + d * rate) by (nonlinear_arith);
        assert((tb + c) * NANOS_PER_SEC == tb * NANOS_PER_SEC + c * NANOS_PER_SEC) by (
        nonlinear_arith);
        assert((td + d + n + 1) * rate == (td + n) * rate + (d + 1) * rate) by (nonlinear_arith);
    }
}

/// Whether an HTTP status code reports success (the 2xx range).
pub fn status_is_success(code: u16) -> (r: bool)
    ensures
        r == (200 <= code < 300),
{
    200 <= code && code < 300
}

/// The status line shown for an HTTP status code: the code, a space, and its
/// reason phrase.
pub uninterp spec fn status_text(code: u16) -> Seq<char>;

/// Relies on reqwest::StatusCode (http's `StatusCode`): `from_u16` accepts
/// 100..=999, and its `Display` renders the code followed by its reason.
#[verifier::external_body]
fn status_line(code: u16) -> (r: String)
    requires
        100 <= code <= 999,
    ensures
        r@ == status_text(code),
{
    match reqwest::StatusCode::from_u16(code) {
        Ok(s) => s.to_string(),
        Err(_) => String::new(),
    }
}

/// The message of a transfer refused by the server with the given status line.
pub open spec fn http_error_text(status: Seq<char>, url: Seq<char>) -> Seq<char> {
    "HTTP error: "@ + status + " for URL: "@ + url
}

/// The error recorded for a transfer whose response carried a non-success
/// status, given the status line.
pub fn http_status_error(status: &str, url: &str) -> (r: DownloaderError)
    ensures
        r is DownloadError,
        r->DownloadError_0@ == http_error_text(status@, url@),
{
    DownloaderError::DownloadError("HTTP error: ".to_owned().concat(status).concat(" for URL: ").concat(url))
}

/// Accepts a response status for `url`, or names the failure.
pub fn check_status(code: u16, url: &str) -> (r: Result<(), DownloaderError>)
    requires
        100 <= code <= 999,
    ensures
        (200 <= code < 300) <==> r is Ok,
        r is Err ==> (r->Err_0 is DownloadError && r->Err_0->DownloadError_0@ == http_error_text(
            status_text(code),
            url@,
        )),
{
    if status_is_success(code) {
        Ok(())
    } else {
        let s = status_line(code);
        Err(http_status_error(s.as_str(), url))
    }
}

/// The pause owed after a chunk of `chunk_len` bytes at `rate` bytes/s.
pub fn chunk_delay(chunk_len: u64, rate: u64) -> (d: Delay)
    requires
        rate > 0,
    ensures
        d.nanos < NANOS_PER_SEC,
        d.total_nanos() == delay_nanos(chunk_len as int, rate as int),
{
    let secs = chunk_len / rate;
    let rem = chunk_len % rate;
    proof {
        assert(rem as int * NANOS_PER_SEC as int <= 0xffff_ffff_ffff_ffff * 1_000_000_000) by (
        nonlinear_arith)
            requires
                rem <= 0xffff_ffff_ffff_ffffint,
        ;
    }
    let wide = (rem as u128) * (NANOS_PER_SEC as u128);
    let nanos128 = wide / (rate as u128);
    proof {
        let c = chunk_len as int;
        let r = rate as int;
        let k = NANOS_PER_SEC as int;
        lemma_fundamental_div_mod(c, r);
        lemma_fundamental_div_mod(rem as int * k, r);
        let m2 = (rem as int * k) % r;
        assert(rem as int * k < r * k) by (nonlinear_arith)
            requires
                rem < r,
                k > 0,
        ;
        assert(nanos128 < k) by (nonlinear_arith)
            requires
                nanos128 as int * r <= rem as int * k,
                rem as int * k < r * k,
                r > 0,
        ;
        assert(c * k == (secs as int * k + nanos128 as int) * r + m2) by (nonlinear_arith)
            requires
                c == r * secs + rem,
                nanos128 as int * r + m2 == rem as int * k,
        ;
        lemma_fundamental_div_mod_converse(c * k, r, secs as int * k + nanos128 as int, m2);
    }
    Delay { secs, nanos: nanos128 as u32 }
}

impl Downloader {
    /// The pause owed after receiving a chunk: none without a rate cap.
    pub fn throttle_for(&self, chunk_len: u64) -> (r: Option<Delay>)
        requires
            self.rate_limit is Some ==> self.rate_limit->Some_0 > 0,
        ensures
            self.rate_limit is None ==> r is None,
            self.rate_limit is Some ==> (r is Some && r->Some_0.nanos < NANOS_PER_SEC
                && r->Some_0.total_nanos() == delay_nanos(
                chunk_len as int,
                self.rate_limit->Some_0 as int,
            )),
    {
        match self.rate_limit {
            Some(rate) => Some(chunk_delay(chunk_len, rate)),
            None => None,
        }
    }
}

/// Progress of one transfer: bytes written so far, and the size the server
/// announced (0 when it announced none).
pub struct TransferProgress {
    pub written: u64,
    pub expected: u64,
}

impl TransferProgress {
    /// Progress before the first chunk, given the response's declared length.
    pub fn new(content_length: Option<u64>) -> (r: TransferProgress)
        ensures
            r.written == 0,
            r.expected == match content_length {
                Some(n) => n,
                None => 0,
            },
    {
        let expected = match content_length {
            Some(n) => n,
            None => 0,
        };
        TransferProgress { written: 0, expected }
    }

    /// Counts a chunk once it is written; the count stops at `u64::MAX`.
    pub fn record_chunk(&mut self, len: u64)
        ensures
            final(self).expected == old(self).expected,
            old(self).written + len <= u64::MAX ==> final(self).written == old(self).written + len,
            old(self).written + len > u64::MAX ==> final(self).written == u64::MAX,
    {
        self.written = self.written.saturating_add(len);
    }
}

/// How one transfer ended: the bytes written, the time it took, and the
/// error that stopped it, if any.
pub struct TransferOutcome {
    pub bytes_downloaded: u64,
    pub duration_ms: u64,
    pub error: Option<DownloaderError>,
}

/// The report for `task` after a transfer that ended as `outcome`.
pub open spec fn is_report_for(r: DownloadReport, task: DownloadTask, outcome: TransferOutcome) -> bool {
    &&& r.task == task
    &&& r.bytes_downloaded == outcome.bytes_downloaded
    &&& r.duration_ms == outcome.duration_ms
    &&& match outcome.error {
        None => r.status == DownloadStatus::Success && r.error is None,
        Some(e) => r.status == DownloadStatus::Failed && r.error is Some && r.error->Some_0@
            == error_message(e),
    }
}

impl DownloadReport {
    /// The report of `task`: `Success` without an error, `Failed` with the
    /// error's text otherwise.
    pub fn from_outcome(task: DownloadTask, outcome: &TransferOutcome) -> (r: DownloadReport)
        ensures
            is_report_for(r, task, *outcome),
    {
        let (status, error) = match &outcome.error {
            None => (DownloadStatus::Success, None),
            Some(e) => (DownloadStatus::Failed, Some(e.message())),
        };
        DownloadReport {
            task,
            status,
            bytes_downloaded: outcome.bytes_downloaded,
            duration_ms: outcome.duration_ms,
            error,
        }
    }
}

} // verus!
