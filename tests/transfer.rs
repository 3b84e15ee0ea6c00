use tsv_downloader::transfer::{check_status, chunk_delay, http_status_error, status_is_success};
use tsv_downloader::{Delay, DownloadReport, DownloadStatus, Downloader, DownloaderError, FileFormat, InventoryEntry, TransferOutcome};

fn task() -> tsv_downloader::DownloadTask {
    let e = InventoryEntry {
        code: "c".to_string(),
        entry_type: "t".to_string(),
        source_dataset: String::new(),
        last_data_change: String::new(),
        last_structural_change: String::new(),
        tsv_url: Some("http://h/missing".to_string()),
        csv_url: None,
        sdmx_url: None,
        structure_url: None,
        browser_url: None,
    };
    Downloader::create_task(e, "http://h/missing", "out", FileFormat::TSV)
}

#[test]
fn success_range() {
    assert!(status_is_success(200));
    assert!(status_is_success(299));
    assert!(!status_is_success(199));
    assert!(!status_is_success(300));
    assert!(!status_is_success(404));
}

#[test]
fn not_found_fails_with_code_in_error() {
    let err = check_status(404, "http://h/missing").unwrap_err();
    match &err {
        DownloaderError::DownloadError(m) => {
            assert_eq!(m, "HTTP error: 404 Not Found for URL: http://h/missing");
        }
        _ => panic!("wrong error kind"),
    }
    let outcome = TransferOutcome { bytes_downloaded: 0, duration_ms: 12, error: Some(err) };
    let report = DownloadReport::from_outcome(task(), &outcome);
    assert_eq!(report.status, DownloadStatus::Failed);
    assert!(report.error.as_ref().unwrap().contains("404"));
    assert_eq!(report.bytes_downloaded, 0);
    assert_eq!(report.duration_ms, 12);
}

#[test]
fn ok_status_passes() {
    assert!(check_status(200, "http://h").is_ok());
    assert!(check_status(204, "http://h").is_ok());
}

#[test]
fn http_error_text() {
    match http_status_error("500 Internal Server Error", "u") {
        DownloaderError::DownloadError(m) => assert_eq!(m, "HTTP error: 500 Internal Server Error for URL: u"),
        _ => panic!("wrong error kind"),
    }
}

#[test]
fn successful_report_has_no_error() {
    let outcome = TransferOutcome { bytes_downloaded: 2048, duration_ms: 5, error: None };
    let report = DownloadReport::from_outcome(task(), &outcome);
    assert_eq!(report.status, DownloadStatus::Success);
    assert!(report.error.is_none());
    assert_eq!(report.bytes_downloaded, 2048);
}

#[test]
fn failed_stream_keeps_written_bytes() {
    let outcome = TransferOutcome {
        bytes_downloaded: 300,
        duration_ms: 5,
        error: Some(DownloaderError::DownloadError("connection reset".to_string())),
    };
    let report = DownloadReport::from_outcome(task(), &outcome);
    assert_eq!(report.status, DownloadStatus::Failed);
    assert_eq!(report.bytes_downloaded, 300);
    assert_eq!(report.error.unwrap(), "Download failed: connection reset");
}

#[test]
fn delay_values() {
    assert_eq!(chunk_delay(1000, 1000), Delay { secs: 1, nanos: 0 });
    assert_eq!(chunk_delay(1500, 1000), Delay { secs: 1, nanos: 500_000_000 });
    assert_eq!(chunk_delay(1, 3), Delay { secs: 0, nanos: 333_333_333 });
    assert_eq!(chunk_delay(0, 7), Delay { secs: 0, nanos: 0 });
    assert_eq!(chunk_delay(u64::MAX, 1), Delay { secs: u64::MAX, nanos: 0 });
}

#[test]
fn uniform_chunks_total_delay_matches_rate() {
    let rate: u64 = 3000;
    let chunk: u64 = 1024;
    let n: u64 = 100;
    let mut total: u128 = 0;
    for _ in 0..n {
        let d = chunk_delay(chunk, rate);
        total += d.secs as u128 * 1_000_000_000 + d.nanos as u128;
    }
    let exact = (chunk * n) as u128 * 1_000_000_000;
    assert!(total * rate as u128 <= exact);
    assert!(exact < (total + n as u128) * rate as u128);
}

#[test]
fn throttle_only_with_cap() {
    let free = Downloader::new(2, None);
    assert_eq!(free.throttle_for(4096), None);
    let capped = Downloader::new(2, Some(2048));
    assert_eq!(capped.throttle_for(4096), Some(Delay { secs: 2, nanos: 0 }));
}

#[test]
fn error_messages() {
    assert_eq!(DownloaderError::ParseError("bad".into()).message(), "Failed to parse TSV file: bad");
    assert_eq!(DownloaderError::DownloadError("x".into()).message(), "Download failed: x");
    assert_eq!(DownloaderError::IoError("disk".into()).message(), "IO error: disk");
    assert_eq!(DownloaderError::RequestError("dns".into()).message(), "Request error: dns");
    assert_eq!(DownloaderError::CsvError("q".into()).message(), "CSV error: q");
}

#[test]
fn progress_counts_written_bytes() {
    let mut p = tsv_downloader::TransferProgress::new(Some(10_000));
    assert_eq!(p.expected, 10_000);
    assert_eq!(p.written, 0);
    p.record_chunk(4096);
    p.record_chunk(100);
    assert_eq!(p.written, 4196);
    assert_eq!(p.expected, 10_000);
    let mut q = tsv_downloader::TransferProgress::new(None);
    assert_eq!(q.expected, 0);
    q.record_chunk(u64::MAX);
    q.record_chunk(5);
    assert_eq!(q.written, u64::MAX);
}
