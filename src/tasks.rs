use vstd::prelude::*;
use vstd::string::{StrSliceExecFns, StringExecFns};

use crate::types::{format_extension, DownloadTask, FileFormat, InventoryEntry};

verus! {

/// The download settings of a run. The HTTP client itself is held by the
/// caller that performs the transfers.
pub struct Downloader {
    pub parallelism: usize,
    pub rate_limit: Option<u64>,
}

/// A URL field that holds a non-empty URL.
pub open spec fn url_present(o: Option<String>) -> bool {
    o is Some && o->Some_0@.len() > 0
}

/// The (format, URL) pair contributed by one URL field: one pair if the field
/// holds a non-empty URL, none otherwise.
pub open spec fn url_part(f: FileFormat, o: Option<String>) -> Seq<(FileFormat, Seq<char>)> {
    if url_present(o) {
        seq![(f, o->Some_0@)]
    } else {
        Seq::empty()
    }
}

/// The downloads of one entry, in the fixed order TSV, CSV, SDMX.
pub open spec fn entry_downloads(e: InventoryEntry) -> Seq<(FileFormat, Seq<char>)> {
    url_part(FileFormat::TSV, e.tsv_url) + url_part(FileFormat::CSV, e.csv_url) + url_part(
        FileFormat::SDMX,
        e.sdmx_url,
    )
}

/// How many of an entry's three downloadable URL fields are non-empty.
pub open spec fn url_count(e: InventoryEntry) -> nat {
    (if url_present(e.tsv_url) { 1nat } else { 0nat }) + (if url_present(e.csv_url) {
        1nat
    } else {
        0nat
    }) + (if url_present(e.sdmx_url) { 1nat } else { 0nat })
}

/// Sum of `url_count` over a manifest.
pub open spec fn total_url_count(es: Seq<InventoryEntry>) -> nat
    decreases es.len(),
{
    if es.len() == 0 {
        0
    } else {
        total_url_count(es.drop_last()) + url_count(es.last())
    }
}

/// Every download of a manifest, entry by entry, each with the entry it
/// came from.
pub open spec fn manifest_downloads(es: Seq<InventoryEntry>) -> Seq<
    (InventoryEntry, FileFormat, Seq<char>),
>
    decreases es.len(),
{
    if es.len() == 0 {
        Seq::empty()
    } else {
        manifest_downloads(es.drop_last()) + entry_downloads(es.last()).map_values(
            |p: (FileFormat, Seq<char>)| (es.last(), p.0, p.1),
        )
    }
}

/// `{code}_{entry_type}.{extension}`
pub open spec fn task_file_name(code: Seq<char>, entry_type: Seq<char>, f: FileFormat) -> Seq<
    char,
> {
    code + "_"@ + entry_type + "."@ + format_extension(f)
}

/// A file name placed inside a directory: the name alone for an empty
/// directory, no second separator after a trailing `/`.
pub open spec fn join_path(dir: Seq<char>, name: Seq<char>) -> Seq<char> {
    if dir.len() == 0 {
        name
    } else if dir.last() == '/' {
        dir + name
    } else {
        dir + "/"@ + name
    }
}

/// The task built for a given entry, URL and format inside `dir`.
pub open spec fn is_task_for(
    t: DownloadTask,
    e: InventoryEntry,
    f: FileFormat,
    url: Seq<char>,
    dir: Seq<char>,
) -> bool {
    &&& t.entry == e
    &&& t.format == f
    &&& t.url@ == url
    &&& t.output_path@ == join_path(dir, task_file_name(e.code@, e.entry_type@, f))
}

/// The tasks for a manifest: one per download of `manifest_downloads`, in
/// that order.
pub open spec fn tasks_for(ts: Seq<DownloadTask>, es: Seq<InventoryEntry>, dir: Seq<char>) -> bool {
    let ds = manifest_downloads(es);
    &&& ts.len() == ds.len()
    &&& forall|i: int|
        0 <= i < ts.len() ==> is_task_for(#[trigger] ts[i], ds[i].0, ds[i].1, ds[i].2, dir)
}

proof fn lemma_entry_count(e: InventoryEntry)
    ensures
        entry_downloads(e).len() == url_count(e),
{
}

/// The number of tasks of a manifest is the sum, over its entries, of the
/// number of non-empty downloadable URL fields.
pub proof fn lemma_task_count(es: Seq<InventoryEntry>)
    ensures
        manifest_downloads(es).len() == total_url_count(es),
    decreases es.len(),
{
    if es.len() > 0 {
        lemma_task_count(es.drop_last());
        lemma_entry_count(es.last());
    }
}

/// An entry with no downloadable URL adds no task: the tasks of the manifest
/// with it appended are those of the manifest without it.
pub proof fn lemma_entry_without_urls(es: Seq<InventoryEntry>, e: InventoryEntry)
    requires
        url_count(e) == 0,
    ensures
        manifest_downloads(es.push(e)) == manifest_downloads(es),
        total_url_count(es.push(e)) == total_url_count(es),
{
    lemma_entry_count(e);
    assert(es.push(e).drop_last() =~= es);
    assert(manifest_downloads(es.push(e)) =~= manifest_downloads(es));
}

/// Every download of a manifest has a non-empty URL: empty or missing URL
/// fields never become tasks.
pub proof fn lemma_download_urls_nonempty(es: Seq<InventoryEntry>)
    ensures
        forall|i: int|
            0 <= i < manifest_downloads(es).len() ==> (#[trigger] manifest_downloads(es)[i]).2.len()
                > 0,
    decreases es.len(),
{
    if es.len() > 0 {
        lemma_download_urls_nonempty(es.drop_last());
        let prev = manifest_downloads(es.drop_last());
        let e = es.last();
        let ed = entry_downloads(e);
        assert forall|j: int| 0 <= j < ed.len() implies (#[trigger] ed[j]).1.len() > 0 by {
            let p1 = url_part(FileFormat::TSV, e.tsv_url);
            let p2 = url_part(FileFormat::CSV, e.csv_url);
            if j < p1.len() {
                assert(ed[j] == p1[j]);
            } else if j < p1.len() + p2.len() {
                assert(ed[j] == p2[j - p1.len()]);
            } else {
                assert(ed[j] == url_part(FileFormat::SDMX, e.sdmx_url)[j - p1.len() - p2.len()]);
            }
        }
        assert forall|i: int| 0 <= i < manifest_downloads(es).len() implies (
        #[trigger] manifest_downloads(es)[i]).2.len() > 0 by {
            if i >= prev.len() {
                assert(manifest_downloads(es)[i].2 == ed[i - prev.len()].1);
            } else {
                assert(manifest_downloads(es)[i] == prev[i]);
            }
        }
    }
}

/// `dir` with `name` appended as its last component.
pub fn join_path_exec(dir: &str, name: &str) -> (r: String)
    ensures
        r@ == join_path(dir@, name@),
{
    let n = dir.unicode_len();
    if n == 0 {
        name.to_owned()
    } else if dir.get_char(n - 1) == '/' {
        dir.to_owned().concat(name)
    } else {
        dir.to_owned().concat("/").concat(name)
    }
}

fn push_url_task(
    tasks: &mut Vec<DownloadTask>,
    entry: &InventoryEntry,
    url: &Option<String>,
    output_dir: &str,
    format: FileFormat,
)
    ensures
        final(tasks)@.len() == old(tasks)@.len() + url_part(format, *url).len(),
        forall|i: int| 0 <= i < old(tasks)@.len() ==> #[trigger] final(tasks)@[i] == old(tasks)@[i],
        url_present(*url) ==> is_task_for(
            final(tasks)@[old(tasks)@.len() as int],
            *entry,
            format,
            url->Some_0@,
            output_dir@,
        ),
{
    match url {
        Some(u) => {
            if u.as_str().is_empty() {
                proof {
                    assert(!url_present(*url));
                }
            } else {
                let t = Downloader::create_task(entry.clone(), u.as_str(), output_dir, format);
                tasks.push(t);
            }
        },
        None => {},
    }
}

impl Downloader {
    /// Settings for a run with at most `parallelism` transfers at a time and
    /// an optional per-transfer byte-rate cap.
    pub fn new(parallelism: usize, rate_limit: Option<u64>) -> (r: Downloader)
        ensures
            r.parallelism == parallelism,
            r.rate_limit == rate_limit,
    {
        Downloader { parallelism, rate_limit }
    }

    /// The task that fetches `url` for `entry` in `format`, written to
    /// `{output_dir}/{code}_{entry_type}.{extension}`.
    pub fn create_task(entry: InventoryEntry, url: &str, output_dir: &str, format: FileFormat) -> (r:
        DownloadTask)
        ensures
            is_task_for(r, entry, format, url@, output_dir@),
    {
        let filename = entry.code.clone().concat("_").concat(entry.entry_type.as_str()).concat(
            ".",
        ).concat(format.extension());
        let output_path = join_path_exec(output_dir, filename.as_str());
        DownloadTask { entry, url: url.to_owned(), output_path, format }
    }

    /// One task per non-empty downloadable URL of each entry: entries in
    /// manifest order, and within an entry TSV, then CSV, then SDMX.
    pub fn create_download_tasks(&self, inventory: Vec<InventoryEntry>, output_dir: &str) -> (r: Vec<
        DownloadTask,
    >)
        ensures
            tasks_for(r@, inventory@, output_dir@),
            r@.len() == total_url_count(inventory@),
            forall|i: int| 0 <= i < r@.len() ==> (#[trigger] r@[i]).url@.len() > 0,
    {
        let mut tasks: Vec<DownloadTask> = Vec::new();
        let mut k: usize = 0;
        while k < inventory.len()
            invariant
                k <= inventory@.len(),
                tasks_for(tasks@, inventory@.subrange(0, k as int), output_dir@),
            decreases inventory@.len() - k,
        {
            let ghost before = tasks@;
            let ghost es = inventory@.subrange(0, k as int);
            let ghost e = inventory@[k as int];
            let entry = &inventory[k];
            push_url_task(&mut tasks, entry, &entry.tsv_url, output_dir, FileFormat::TSV);
            let ghost t1 = tasks@;
            push_url_task(&mut tasks, entry, &entry.csv_url, output_dir, FileFormat::CSV);
            let ghost t2 = tasks@;
            push_url_task(&mut tasks, entry, &entry.sdmx_url, output_dir, FileFormat::SDMX);
            proof {
                let es2 = inventory@.subrange(0, k + 1);
                assert(es2.drop_last() =~= es);
                assert(es2.last() == e);
                let ds = manifest_downloads(es2);
                let ed = entry_downloads(e);
                let p1 = url_part(FileFormat::TSV, e.tsv_url);
                let p2 = url_part(FileFormat::CSV, e.csv_url);
                assert(ds.len() == before.len() + ed.len());
                assert forall|i: int| 0 <= i < tasks@.len() implies is_task_for(
                    #[trigger] tasks@[i],
                    ds[i].0,
                    ds[i].1,
                    ds[i].2,
                    output_dir@,
                ) by {
                    if i < before.len() {
                        assert(tasks@[i] == before[i]);
                    } else {
                        let j = i - before.len();
                        assert(ds[i] == (e, ed[j].0, ed[j].1));
                        if j < p1.len() {
                            assert(tasks@[i] == t1[i]);
                        } else if j < p1.len() + p2.len() {
                            assert(tasks@[i] == t2[i]);
                        }
                    }
                }
            }
            k = k + 1;
        }
        proof {
            assert(inventory@.subrange(0, inventory@.len() as int) =~= inventory@);
            lemma_task_count(inventory@);
            lemma_download_urls_nonempty(inventory@);
            assert forall|i: int| 0 <= i < tasks@.len() implies (#[trigger] tasks@[i]).url@.len()
                > 0 by {
                assert(manifest_downloads(inventory@)[i].2.len() > 0);
            }
        }
        tasks
    }
}

} // verus!
