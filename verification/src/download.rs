//! The bookkeeping of an HTTP download with progress reports: whether a
//! partial file can be resumed, the `Range` header that resumes it, the
//! announced size, and when a new progress line is due.
use vstd::prelude::*;
use crate::decimal::{decimal, parse_u64, spec_decimal, spec_parse_u64};
use crate::text::concat;

verus! {

/// How a download begins, given the bytes already on disk and the size that
/// the server announces (0 where it announces none).
#[derive(PartialEq, Eq, Structural, Clone, Copy, Debug)]
pub enum DownloadStart {
    /// The file on disk is already as long as the announced size.
    AlreadyComplete,
    /// Ask the server for the bytes from `from` on and append them.
    Resume { from: u64 },
    /// Create the file and fetch everything.
    Fresh,
}

pub open spec fn spec_plan_download(existing: u64, total: u64) -> DownloadStart {
    if total > 0 && existing >= total {
        DownloadStart::AlreadyComplete
    } else if existing > 0 {
        DownloadStart::Resume { from: existing }
    } else {
        DownloadStart::Fresh
    }
}

/// Chooses how a resumable download begins.
pub fn plan_download(existing: u64, total: u64) -> (res: DownloadStart)
    ensures
        res == spec_plan_download(existing, total),
{
    if total > 0 && existing >= total {
        DownloadStart::AlreadyComplete
    } else if existing > 0 {
        DownloadStart::Resume { from: existing }
    } else {
        DownloadStart::Fresh
    }
}

/// The size that a `content-length` header announces: its value where it
/// parses as a number, else 0.
pub open spec fn spec_content_length(header: Option<Seq<char>>) -> u64 {
    match header {
        Some(h) => match spec_parse_u64(h) {
            Some(v) => v,
            None => 0,
        },
        None => 0,
    }
}

pub fn content_length(header: Option<&str>) -> (res: u64)
    ensures
        res == spec_content_length(
            match header {
                Some(h) => Some(h@),
                None => None,
            },
        ),
{
    match header {
        Some(h) => match parse_u64(h) {
            Some(v) => v,
            None => 0,
        },
        None => 0,
    }
}

/// The value of the `Range` header that asks for the bytes from `from` on.
pub open spec fn spec_range_header(from: u64) -> Seq<char> {
    "bytes="@ + spec_decimal(from as nat) + "-"@
}

pub fn range_header(from: u64) -> (res: String)
    ensures
        res@ == spec_range_header(from),
{
    let n = decimal(from);
    concat(concat("bytes=", n.as_str()).as_str(), "-")
}

/// The line logged when the file is already complete.
pub open spec fn spec_skip_message(label: Seq<char>) -> Seq<char> {
    label + " already downloaded, skipping..."@
}

pub fn skip_message(label: &str) -> (res: String)
    ensures
        res@ == spec_skip_message(label@),
{
    concat(label, " already downloaded, skipping...")
}

/// What the download loop reports after a chunk.
#[derive(PartialEq, Eq, Structural, Clone, Copy, Debug)]
pub enum ChunkReport {
    /// The percentage has not risen: nothing to log.
    Quiet,
    /// The percentage rose to `pct`: log it.
    Percent { pct: i32 },
    /// The size is unknown: log the running total.
    Running,
}

/// The progress of one download: bytes so far, the announced size (0 where
/// none was announced), and the last percentage logged.
pub struct DownloadProgress {
    pub downloaded: u64,
    pub total: u64,
    pub last_pct: i32,
}

impl DownloadProgress {
    /// Progress at the start: `existing` bytes already on disk, nothing
    /// logged above `pct_start` yet.
    pub fn start(existing: u64, total: u64, pct_start: i32) -> (res: DownloadProgress)
        ensures
            res.downloaded == existing,
            res.total == total,
            res.last_pct == pct_start,
    {
        DownloadProgress { downloaded: existing, total, last_pct: pct_start }
    }

    /// Counts a chunk of `n` bytes.
    pub fn add_chunk(&mut self, n: u64)
        requires
            old(self).downloaded + n <= u64::MAX,
        ensures
            final(self).downloaded == old(self).downloaded + n,
            final(self).total == old(self).total,
            final(self).last_pct == old(self).last_pct,
    {
        self.downloaded = self.downloaded + n;
    }

    /// Decides what to log now that the download stands at `pct` percent
    /// of its range (meaningful only where the size is known).
    pub fn report(&mut self, pct: i32) -> (res: ChunkReport)
        ensures
            final(self).downloaded == old(self).downloaded,
            final(self).total == old(self).total,
            res == spec_report(old(self).total, old(self).last_pct, pct),
            final(self).last_pct == spec_next_last(old(self).total, old(self).last_pct, pct),
    {
        if self.total > 0 {
            if pct > self.last_pct {
                self.last_pct = pct;
                ChunkReport::Percent { pct }
            } else {
                ChunkReport::Quiet
            }
        } else {
            ChunkReport::Running
        }
    }
}

/// What is logged at `pct` percent: the running total where the size is
/// unknown, else the percentage where it rose above `last`, else nothing.
pub open spec fn spec_report(total: u64, last: i32, pct: i32) -> ChunkReport {
    if total == 0 {
        ChunkReport::Running
    } else if pct > last {
        ChunkReport::Percent { pct }
    } else {
        ChunkReport::Quiet
    }
}

/// The last logged percentage after reporting `pct`.
pub open spec fn spec_next_last(total: u64, last: i32, pct: i32) -> i32 {
    if total > 0 && pct > last {
        pct
    } else {
        last
    }
}

/// The percentages that a download logs rise strictly: a reported
/// percentage is above every one logged before it, and the last logged
/// percentage never goes down.
pub proof fn lemma_reported_percent_rises(total: u64, last: i32, pct: i32)
    ensures
        spec_next_last(total, last, pct) >= last,
        spec_report(total, last, pct) matches ChunkReport::Percent { pct: p } ==> p > last
            && spec_next_last(total, last, pct) == p,
{
}

/// The percentages logged by the chunk reports of a download that stood at
/// `pcts` after each chunk: a rise logs the new percentage, a download of
/// unknown size logs `pct_start` each time, and the rest logs nothing.
pub open spec fn reported_pcts(total: u64, last: i32, pcts: Seq<i32>, pct_start: i32) -> Seq<i32>
    decreases pcts.len(),
{
    if pcts.len() == 0 {
        Seq::empty()
    } else {
        let p = pcts[0];
        let head = match spec_report(total, last, p) {
            ChunkReport::Percent { pct } => seq![pct],
            ChunkReport::Running => seq![pct_start],
            ChunkReport::Quiet => Seq::<i32>::empty(),
        };
        head + reported_pcts(total, spec_next_last(total, last, p), pcts.drop_first(), pct_start)
    }
}

/// The percentages of all the lines a download logs: the line for a file
/// already complete, or the resume line and then the chunk reports.
pub open spec fn download_pcts(
    start: DownloadStart,
    total: u64,
    pcts: Seq<i32>,
    pct_start: i32,
    pct_end: i32,
) -> Seq<i32> {
    match start {
        DownloadStart::AlreadyComplete => seq![pct_end],
        DownloadStart::Resume { .. } => seq![pct_start] + reported_pcts(total, pct_start, pcts, pct_start),
        DownloadStart::Fresh => reported_pcts(total, pct_start, pcts, pct_start),
    }
}

proof fn lemma_reported_pcts(total: u64, last: i32, pcts: Seq<i32>, pct_start: i32, pct_end: i32)
    requires
        pct_start <= last,
        forall|i: int| 0 <= i < pcts.len() ==> #[trigger] pcts[i] <= pct_end,
        pct_start <= pct_end,
    ensures
        ({
            let r = reported_pcts(total, last, pcts, pct_start);
            &&& forall|i: int| 0 <= i < r.len() ==> pct_start <= #[trigger] r[i] <= pct_end
            &&& forall|i: int, j: int| 0 <= i < j < r.len() ==> #[trigger] r[i] <= #[trigger] r[j]
            &&& total > 0 ==> forall|i: int| 0 <= i < r.len() ==> last < #[trigger] r[i]
            &&& total == 0 ==> forall|i: int| 0 <= i < r.len() ==> #[trigger] r[i] == pct_start
        }),
    decreases pcts.len(),
{
    if pcts.len() > 0 {
        let p = pcts[0];
        let next = spec_next_last(total, last, p);
        let tail = pcts.drop_first();
        assert forall|i: int| 0 <= i < tail.len() implies #[trigger] tail[i] <= pct_end by {
            assert(tail[i] == pcts[i + 1]);
        }
        lemma_reported_pcts(total, next, tail, pct_start, pct_end);
        let head = match spec_report(total, last, p) {
            ChunkReport::Percent { pct } => seq![pct],
            ChunkReport::Running => seq![pct_start],
            ChunkReport::Quiet => Seq::<i32>::empty(),
        };
        let rest = reported_pcts(total, next, tail, pct_start);
        let r = head + rest;
        assert(reported_pcts(total, last, pcts, pct_start) == r);
        assert forall|i: int| 0 <= i < r.len() implies pct_start <= #[trigger] r[i] <= pct_end
            && (total > 0 ==> last < r[i]) && (total == 0 ==> r[i] == pct_start) by {
            if i < head.len() {
                assert(r[i] == head[i]);
            } else {
                assert(r[i] == rest[i - head.len()]);
            }
        }
        assert forall|i: int, j: int| 0 <= i < j < r.len() implies #[trigger] r[i]
            <= #[trigger] r[j] by {
            if j < head.len() {
            } else if i >= head.len() {
                assert(r[i] == rest[i - head.len()] && r[j] == rest[j - head.len()]);
            } else {
                assert(r[i] == head[i] && r[j] == rest[j - head.len()]);
            }
        }
    }
}

/// A download's lines rise and stay within its range: where the reported
/// percentages never pass `pct_end` (as when no body is longer than the size
/// the server announced), every line a download logs lies between
/// `pct_start` and `pct_end`, in rising order.
pub proof fn lemma_download_pcts_fit(
    start: DownloadStart,
    total: u64,
    pcts: Seq<i32>,
    pct_start: i32,
    pct_end: i32,
)
    requires
        pct_start <= pct_end,
        forall|i: int| 0 <= i < pcts.len() ==> #[trigger] pcts[i] <= pct_end,
    ensures
        ({
            let r = download_pcts(start, total, pcts, pct_start, pct_end);
            &&& forall|i: int| 0 <= i < r.len() ==> pct_start <= #[trigger] r[i] <= pct_end
            &&& forall|i: int, j: int| 0 <= i < j < r.len() ==> #[trigger] r[i] <= #[trigger] r[j]
        }),
{
    lemma_reported_pcts(total, pct_start, pcts, pct_start, pct_end);
    let rep = reported_pcts(total, pct_start, pcts, pct_start);
    match start {
        DownloadStart::Resume { .. } => {
            let r = seq![pct_start] + rep;
            assert forall|i: int| 0 <= i < r.len() implies pct_start <= #[trigger] r[i] <= pct_end by {
                if i > 0 {
                    assert(r[i] == rep[i - 1]);
                }
            }
            assert forall|i: int, j: int| 0 <= i < j < r.len() implies #[trigger] r[i]
                <= #[trigger] r[j] by {
                assert(r[j] == rep[j - 1]);
                if i > 0 {
                    assert(r[i] == rep[i - 1]);
                }
            }
        },
        _ => {},
    }
}

} // verus!
