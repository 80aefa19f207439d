//! Progress of a chunked transfer: how far it is, and when to tell.

use vstd::prelude::*;
use crate::sftp::types::{DownloadProgressPayload, UploadProgressPayload};

verus! {

/// Bytes moved per read of a transfer.
pub const CHUNK_SIZE: usize = 65536;

/// The name under which the progress of an upload is published.
pub const UPLOAD_PROGRESS_EVENT: &'static str = "upload-progress";

/// The name under which the progress of a download is published.
pub const DOWNLOAD_PROGRESS_EVENT: &'static str = "download-progress";

/// The smallest gain in whole percent that is worth a new report.
pub const REPORT_STEP: u8 = 5;

/// Whole percent of `total` that `bytes` make, never above 100; an empty
/// transfer is complete from the start.
pub open spec fn percentage_of(bytes: nat, total: nat) -> nat {
    if total == 0 || bytes >= total {
        100
    } else {
        bytes * 100 / total
    }
}

/// One report of progress.
#[derive(Debug, Clone, Copy, PartialEq, Eq, Structural)]
pub struct ProgressReport {
    pub bytes: u64,
    pub total_bytes: u64,
    pub percentage: u8,
}

/// The state of a transfer as numbers: the announced size, what has been
/// moved, the percentage last reported, and whether a chunk has been seen.
pub struct ProgressModel {
    pub total: nat,
    pub bytes: nat,
    pub last_reported: nat,
    pub started: bool,
}

impl ProgressModel {
    /// The state before the first chunk.
    pub open spec fn start(total: nat) -> ProgressModel {
        ProgressModel { total, bytes: 0, last_reported: 0, started: false }
    }

    /// What has been reported never runs ahead of what has been moved, and
    /// nothing has been moved before the first chunk.
    pub open spec fn wf(self) -> bool {
        &&& self.last_reported <= percentage_of(self.bytes, self.total)
        &&& !self.started ==> self.bytes == 0 && self.last_reported == 0
    }

    /// Whether a chunk of `n` bytes is worth a report: it is the first one,
    /// it completes the transfer, or the percentage has gained the step
    /// since the last report.
    pub open spec fn reports_chunk(self, n: nat) -> bool {
        ||| !self.started
        ||| self.bytes + n == self.total
        ||| percentage_of(self.bytes + n, self.total) >= self.last_reported + REPORT_STEP as nat
    }

    /// The state after a chunk of `n` bytes.
    pub open spec fn after_chunk(self, n: nat) -> ProgressModel {
        ProgressModel {
            total: self.total,
            bytes: self.bytes + n,
            last_reported: if self.reports_chunk(n) {
                percentage_of(self.bytes + n, self.total)
            } else {
                self.last_reported
            },
            started: true,
        }
    }

    /// The percentage reported for a chunk of `n` bytes, if any.
    pub open spec fn chunk_report(self, n: nat) -> Option<nat> {
        if self.reports_chunk(n) {
            Some(percentage_of(self.bytes + n, self.total))
        } else {
            None
        }
    }

    /// The percentage reported at the end of the data, if any: an empty
    /// transfer that saw no chunk reports its completion then.
    pub open spec fn finish_report(self) -> Option<nat> {
        if self.total == 0 && !self.started {
            Some(100)
        } else {
            None
        }
    }

    /// The percentages reported while the chunks of the given sizes arrive
    /// in order and the data then ends.
    pub open spec fn reports(self, chunks: Seq<nat>) -> Seq<nat>
        decreases chunks.len(),
    {
        if chunks.len() == 0 {
            match self.finish_report() {
                Some(p) => seq![p],
                None => seq![],
            }
        } else {
            let rest = self.after_chunk(chunks[0]).reports(chunks.drop_first());
            match self.chunk_report(chunks[0]) {
                Some(p) => seq![p] + rest,
                None => rest,
            }
        }
    }
}

/// The sum of the sizes.
pub open spec fn total_size(chunks: Seq<nat>) -> nat
    decreases chunks.len(),
{
    if chunks.len() == 0 {
        0
    } else {
        chunks[0] + total_size(chunks.drop_first())
    }
}

/// More bytes never make a smaller percentage.
pub proof fn lemma_percentage_monotonic(a: nat, b: nat, total: nat)
    requires
        a <= b,
    ensures
        percentage_of(a, total) <= percentage_of(b, total) <= 100,
{
    if total > 0 {
        if b < total {
            assert(a * 100 / total <= b * 100 / total) by (nonlinear_arith)
                requires
                    a <= b,
                    total > 0,
            ;
            assert(b * 100 / total <= 100) by (nonlinear_arith)
                requires
                    b < total,
                    total > 0,
            ;
        } else if a < total {
            assert(a * 100 / total <= 100) by (nonlinear_arith)
                requires
                    a < total,
                    total > 0,
            ;
        }
    }
}

/// A chunk keeps the state well formed.
pub proof fn lemma_after_chunk_wf(m: ProgressModel, n: nat)
    requires
        m.wf(),
    ensures
        m.after_chunk(n).wf(),
{
    lemma_percentage_monotonic(m.bytes, m.bytes + n, m.total);
}

/// Every report made from a well-formed state on is at least the
/// percentage already reached, and at most 100.
pub proof fn lemma_reports_bounded(m: ProgressModel, chunks: Seq<nat>, i: int)
    requires
        m.wf(),
        0 <= i < m.reports(chunks).len(),
    ensures
        percentage_of(m.bytes, m.total) <= m.reports(chunks)[i] <= 100,
    decreases chunks.len(),
{
    if chunks.len() == 0 {
        lemma_percentage_monotonic(m.bytes, m.bytes, m.total);
    } else {
        let next = m.after_chunk(chunks[0]);
        let rest = next.reports(chunks.drop_first());
        lemma_after_chunk_wf(m, chunks[0]);
        lemma_percentage_monotonic(m.bytes, next.bytes, m.total);
        match m.chunk_report(chunks[0]) {
            Some(p) => {
                if i > 0 {
                    assert(m.reports(chunks)[i] == rest[i - 1]);
                    lemma_reports_bounded(next, chunks.drop_first(), i - 1);
                }
            },
            None => {
                lemma_reports_bounded(next, chunks.drop_first(), i);
            },
        }
    }
}

/// The percentages reported within one transfer never go down.
pub proof fn lemma_reports_monotonic(m: ProgressModel, chunks: Seq<nat>, i: int, j: int)
    requires
        m.wf(),
        0 <= i <= j < m.reports(chunks).len(),
    ensures
        m.reports(chunks)[i] <= m.reports(chunks)[j],
    decreases chunks.len(),
{
    if chunks.len() > 0 {
        let next = m.after_chunk(chunks[0]);
        let rest = next.reports(chunks.drop_first());
        lemma_after_chunk_wf(m, chunks[0]);
        match m.chunk_report(chunks[0]) {
            Some(p) => {
                if i > 0 {
                    assert(m.reports(chunks)[i] == rest[i - 1]);
                    assert(m.reports(chunks)[j] == rest[j - 1]);
                    lemma_reports_monotonic(next, chunks.drop_first(), i - 1, j - 1);
                } else if j > 0 {
                    assert(m.reports(chunks)[j] == rest[j - 1]);
                    lemma_reports_bounded(next, chunks.drop_first(), j - 1);
                }
            },
            None => {
                lemma_reports_monotonic(next, chunks.drop_first(), i, j);
            },
        }
    }
}

/// A transfer whose chunks are not empty and add up to what is still
/// missing of the announced size ends with a report of 100 percent; so
/// does an empty transfer that ends at once.
pub proof fn lemma_reports_end_complete(m: ProgressModel, chunks: Seq<nat>)
    requires
        m.wf(),
        forall|k: int| 0 <= k < chunks.len() ==> #[trigger] chunks[k] > 0,
        m.bytes + total_size(chunks) == m.total,
        chunks.len() > 0 || !m.started,
    ensures
        m.reports(chunks).len() > 0,
        m.reports(chunks).last() == 100,
    decreases chunks.len(),
{
    if chunks.len() > 0 {
        let next = m.after_chunk(chunks[0]);
        let tail = chunks.drop_first();
        let rest = next.reports(tail);
        lemma_after_chunk_wf(m, chunks[0]);
        assert(chunks[0] > 0);
        if tail.len() == 0 {
            assert(total_size(tail) == 0);
            assert(m.reports_chunk(chunks[0]));
            assert(next.finish_report() is None);
            assert(rest.len() == 0);
            assert(m.reports(chunks) =~= seq![percentage_of(m.total, m.total)]);
        } else {
            assert forall|k: int| 0 <= k < tail.len() implies #[trigger] tail[k] > 0 by {
                assert(tail[k] == chunks[k + 1]);
            }
            lemma_reports_end_complete(next, tail);
            match m.chunk_report(chunks[0]) {
                Some(p) => {
                    assert(m.reports(chunks).last() == rest.last());
                },
                None => {},
            }
        }
    }
}

/// Progress of a whole transfer, from a state before the first chunk: the
/// reported percentages never go down.
pub proof fn lemma_transfer_monotonic(total: nat, chunks: Seq<nat>, i: int, j: int)
    requires
        0 <= i <= j < ProgressModel::start(total).reports(chunks).len(),
    ensures
        ProgressModel::start(total).reports(chunks)[i] <= ProgressModel::start(total).reports(
            chunks,
        )[j],
{
    lemma_reports_monotonic(ProgressModel::start(total), chunks, i, j);
}

/// Progress of a whole transfer that delivers exactly the announced size
/// in chunks that are not empty: the last report says 100 percent.
pub proof fn lemma_transfer_ends_complete(total: nat, chunks: Seq<nat>)
    requires
        forall|k: int| 0 <= k < chunks.len() ==> #[trigger] chunks[k] > 0,
        total_size(chunks) == total,
    ensures
        ProgressModel::start(total).reports(chunks).len() > 0,
        ProgressModel::start(total).reports(chunks).last() == 100,
{
    lemma_reports_end_complete(ProgressModel::start(total), chunks);
}

/// An empty transfer that ends at once makes exactly one report, of 100
/// percent.
pub proof fn lemma_empty_transfer_reports_once(chunks: Seq<nat>)
    requires
        chunks.len() == 0,
    ensures
        ProgressModel::start(0).reports(chunks) == seq![100nat],
{
}

/// Keeps count of a transfer and decides which chunks are reported.
#[derive(Debug, Clone)]
pub struct TransferProgress {
    total_bytes: u64,
    bytes_transferred: u64,
    last_reported: u8,
    started: bool,
}

impl View for TransferProgress {
    type V = ProgressModel;

    closed spec fn view(&self) -> ProgressModel {
        ProgressModel {
            total: self.total_bytes as nat,
            bytes: self.bytes_transferred as nat,
            last_reported: self.last_reported as nat,
            started: self.started,
        }
    }
}

impl TransferProgress {
    /// The state is well formed and the counters fit their fields.
    pub closed spec fn wf(&self) -> bool {
        &&& self@.wf()
        &&& self@.total == self.total_bytes
        &&& self@.bytes == self.bytes_transferred
        &&& self.last_reported <= 100
    }

    /// A transfer of `total_bytes` of which nothing has been moved yet.
    pub fn new(total_bytes: u64) -> (t: TransferProgress)
        ensures
            t.wf(),
            t@ == ProgressModel::start(total_bytes as nat),
    {
        TransferProgress { total_bytes, bytes_transferred: 0, last_reported: 0, started: false }
    }

    /// The announced size.
    pub fn total_bytes(&self) -> (n: u64)
        requires
            self.wf(),
        ensures
            n == self@.total,
    {
        self.total_bytes
    }

    /// The bytes moved so far.
    pub fn bytes_transferred(&self) -> (n: u64)
        requires
            self.wf(),
        ensures
            n == self@.bytes,
    {
        self.bytes_transferred
    }

    /// The whole percent reached so far.
    pub fn percentage(&self) -> (p: u8)
        requires
            self.wf(),
        ensures
            p == percentage_of(self@.bytes, self@.total),
    {
        percentage(self.bytes_transferred, self.total_bytes)
    }

    /// Counts a chunk of `n` bytes that was moved, and says whether and
    /// what to report for it.
    pub fn record_chunk(&mut self, n: u64) -> (report: Option<ProgressReport>)
        requires
            old(self).wf(),
            old(self)@.bytes + n <= u64::MAX,
        ensures
            final(self).wf(),
            final(self)@ == old(self)@.after_chunk(n as nat),
            match old(self)@.chunk_report(n as nat) {
                Some(p) => report == Some(
                    (ProgressReport {
                        bytes: (old(self)@.bytes + n) as u64,
                        total_bytes: old(self)@.total as u64,
                        percentage: p as u8,
                    }),
                ),
                None => report is None,
            },
    {
        proof {
            lemma_after_chunk_wf(self@, n as nat);
            lemma_percentage_monotonic(self@.bytes, self@.bytes + n as nat, self@.total);
        }
        let bytes: u64 = self.bytes_transferred + n;
        let pct: u8 = percentage(bytes, self.total_bytes);
        let tell = !self.started || bytes == self.total_bytes || pct >= self.last_reported
            + REPORT_STEP;
        self.bytes_transferred = bytes;
        self.started = true;
        if tell {
            self.last_reported = pct;
            Some(ProgressReport { bytes, total_bytes: self.total_bytes, percentage: pct })
        } else {
            None
        }
    }

    /// Called when the data has ended: says what is still to report.
    pub fn finish(&self) -> (report: Option<ProgressReport>)
        requires
            self.wf(),
        ensures
            match self@.finish_report() {
                Some(p) => report == Some(
                    (ProgressReport { bytes: 0, total_bytes: 0, percentage: p as u8 }),
                ),
                None => report is None,
            },
    {
        if self.total_bytes == 0 && !self.started {
            Some(ProgressReport { bytes: 0, total_bytes: 0, percentage: 100 })
        } else {
            None
        }
    }
}

/// Whole percent of `total` that `bytes` make, never above 100.
pub fn percentage(bytes: u64, total: u64) -> (p: u8)
    ensures
        p == percentage_of(bytes as nat, total as nat),
        p <= 100,
{
    if total == 0 || bytes >= total {
        100
    } else {
        let scaled: u128 = (bytes as u128) * 100;
        let q: u128 = scaled / (total as u128);
        assert(q < 100) by (nonlinear_arith)
            requires
                q == (bytes as int * 100) / (total as int),
                0 <= bytes < total,
        ;
        q as u8
    }
}

/// The payload that tells the user interface of an upload's progress.
pub fn upload_payload(transfer_id: &str, report: ProgressReport) -> (p: UploadProgressPayload)
    ensures
        p.transfer_id@ == transfer_id@,
        p.bytes == report.bytes,
        p.total_bytes == report.total_bytes,
        p.percentage == report.percentage,
{
    UploadProgressPayload {
        transfer_id: String::from_str(transfer_id),
        bytes: report.bytes,
        total_bytes: report.total_bytes,
        percentage: report.percentage,
    }
}

/// The payload that tells the user interface of a download's progress.
pub fn download_payload(transfer_id: &str, report: ProgressReport) -> (p: DownloadProgressPayload)
    ensures
        p.transfer_id@ == transfer_id@,
        p.bytes == report.bytes,
        p.total_bytes == report.total_bytes,
        p.percentage == report.percentage,
{
    DownloadProgressPayload {
        transfer_id: String::from_str(transfer_id),
        bytes: report.bytes,
        total_bytes: report.total_bytes,
        percentage: report.percentage,
    }
}

} // verus!
