use tsv_downloader::tasks::join_path_exec;
use tsv_downloader::{Downloader, FileFormat, InventoryEntry};

fn entry(code: &str, kind: &str, tsv: Option<&str>, csv: Option<&str>, sdmx: Option<&str>) -> InventoryEntry {
    InventoryEntry {
        code: code.to_string(),
        entry_type: kind.to_string(),
        source_dataset: "src".to_string(),
        last_data_change: "2024-01-01".to_string(),
        last_structural_change: "2023-06-01".to_string(),
        tsv_url: tsv.map(|s| s.to_string()),
        csv_url: csv.map(|s| s.to_string()),
        sdmx_url: sdmx.map(|s| s.to_string()),
        structure_url: Some("http://example.org/structure".to_string()),
        browser_url: Some("http://example.org/browse".to_string()),
    }
}

#[test]
fn only_tsv_url_gives_one_tsv_task() {
    let d = Downloader::new(4, None);
    let tasks = d.create_download_tasks(vec![entry("nama_10_gdp", "dataset", Some("http://h/a.tsv"), None, None)], "out");
    assert_eq!(tasks.len(), 1);
    assert_eq!(tasks[0].format, FileFormat::TSV);
    assert_eq!(tasks[0].url, "http://h/a.tsv");
    assert_eq!(tasks[0].output_path, "out/nama_10_gdp_dataset.tsv");
    assert!(tasks[0].output_path.ends_with(".tsv"));
}

#[test]
fn all_three_urls_give_three_tasks_in_order() {
    let d = Downloader::new(4, None);
    let tasks = d.create_download_tasks(
        vec![entry("c1", "table", Some("http://h/t"), Some("http://h/c"), Some("http://h/s"))],
        "out/",
    );
    assert_eq!(tasks.len(), 3);
    let exts: Vec<&str> = tasks.iter().map(|t| t.format.extension()).collect();
    assert_eq!(exts, vec!["tsv", "csv", "sdmx"]);
    assert_eq!(tasks[0].output_path, "out/c1_table.tsv");
    assert_eq!(tasks[1].output_path, "out/c1_table.csv");
    assert_eq!(tasks[2].output_path, "out/c1_table.sdmx");
    assert_eq!(tasks[1].url, "http://h/c");
    assert_eq!(tasks[2].format, FileFormat::SDMX);
}

#[test]
fn entry_without_urls_gives_no_task() {
    let d = Downloader::new(2, None);
    let tasks = d.create_download_tasks(vec![entry("x", "y", None, None, None)], "out");
    assert!(tasks.is_empty());
}

#[test]
fn empty_url_field_gives_no_task() {
    let d = Downloader::new(2, None);
    let tasks = d.create_download_tasks(vec![entry("x", "y", Some(""), Some("http://h/c"), Some(""))], "out");
    assert_eq!(tasks.len(), 1);
    assert_eq!(tasks[0].format, FileFormat::CSV);
}

#[test]
fn task_count_is_sum_of_present_urls() {
    let d = Downloader::new(2, None);
    let inv = vec![
        entry("a", "t", Some("u1"), None, Some("u2")),
        entry("b", "t", None, None, None),
        entry("c", "t", Some("u3"), Some("u4"), Some("u5")),
        entry("d", "t", None, Some("u6"), None),
    ];
    let tasks = d.create_download_tasks(inv, "o");
    assert_eq!(tasks.len(), 2 + 0 + 3 + 1);
    let urls: Vec<&str> = tasks.iter().map(|t| t.url.as_str()).collect();
    assert_eq!(urls, vec!["u1", "u2", "u3", "u4", "u5", "u6"]);
    assert_eq!(tasks[5].entry.code, "d");
}

#[test]
fn same_name_is_not_deduplicated() {
    let d = Downloader::new(2, None);
    let inv = vec![entry("a", "t", Some("u1"), None, None), entry("a", "t", Some("u2"), None, None)];
    let tasks = d.create_download_tasks(inv, "o");
    assert_eq!(tasks.len(), 2);
    assert_eq!(tasks[0].output_path, tasks[1].output_path);
}

#[test]
fn join_path_forms() {
    assert_eq!(join_path_exec("", "f.tsv"), "f.tsv");
    assert_eq!(join_path_exec("dir", "f.tsv"), "dir/f.tsv");
    assert_eq!(join_path_exec("dir/", "f.tsv"), "dir/f.tsv");
}

#[test]
fn create_task_keeps_entry() {
    let e = entry("k", "v", None, None, None);
    let t = Downloader::create_task(e.clone(), "http://x", "d", FileFormat::CSV);
    assert_eq!(t.entry.code, "k");
    assert_eq!(t.output_path, "d/k_v.csv");
}
