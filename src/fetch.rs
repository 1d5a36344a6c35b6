use vstd::prelude::*;
use crate::error::ManagerError;

verus! {

/// The smallest archive download accepted; anything shorter is taken for an
/// error page served in place of the archive.
pub const MIN_ARCHIVE_SIZE: u64 = 1_000_000;

/// Whether an HTTP status code is in the success range.
pub open spec fn is_success_spec(status: u16) -> bool {
    200 <= status < 300
}

/// Whether an HTTP status code is in the success range.
pub fn is_success(status: u16) -> (r: bool)
    ensures
        r == is_success_spec(status),
{
    200 <= status && status < 300
}

/// The verdict on an archive download: the status first, then the minimum size.
pub open spec fn archive_verdict(status: u16, size: u64) -> Result<(), ManagerError> {
    if !is_success_spec(status) {
        Err(ManagerError::DownloadFailed(status))
    } else if size < MIN_ARCHIVE_SIZE {
        Err(ManagerError::SuspiciouslySmallDownload(size))
    } else {
        Ok(())
    }
}

/// Checks a whole-body archive download by its status code and its length.
pub fn check_archive_download(status: u16, size: u64) -> (r: Result<(), ManagerError>)
    ensures
        r == archive_verdict(status, size),
{
    if !is_success(status) {
        Err(ManagerError::DownloadFailed(status))
    } else if size < MIN_ARCHIVE_SIZE {
        Err(ManagerError::SuspiciouslySmallDownload(size))
    } else {
        Ok(())
    }
}

/// Checks that a streamed download is complete. `declared` is the length the
/// server announced, 0 where it announced none; `written` is the size of the
/// file written. On `TruncatedDownload` the caller deletes the partial file.
pub fn check_stream_complete(declared: u64, written: u64) -> (r: Result<(), ManagerError>)
    ensures
        declared > 0 && written != declared ==> r == Err::<(), ManagerError>(
            ManagerError::TruncatedDownload(declared, written),
        ),
        declared == 0 || written == declared ==> r == Ok::<(), ManagerError>(()),
{
    if declared > 0 && written != declared {
        Err(ManagerError::TruncatedDownload(declared, written))
    } else {
        Ok(())
    }
}

/// The share of `total` that `done` makes, in whole percent, capped at 100.
pub open spec fn percent_of(done: u64, total: u64) -> int
    recommends
        total > 0,
{
    let p = (done as int * 100) / total as int;
    if p > 100 {
        100
    } else {
        p
    }
}

/// Tracks the bytes of a streamed download and decides when a progress
/// notice is due: each time the share reached grows by ten points or more
/// since the last one. Notices are for observation only.
pub struct ProgressTracker {
    pub total: u64,
    pub downloaded: u64,
    pub last_reported: u64,
}

impl ProgressTracker {
    pub open spec fn wf(&self) -> bool {
        self.last_reported <= 100
    }

    /// A tracker for a download of `total` bytes, 0 where the length is unknown.
    pub fn new(total: u64) -> (r: ProgressTracker)
        ensures
            r.wf(),
            r.total == total,
            r.downloaded == 0,
            r.last_reported == 0,
    {
        ProgressTracker { total, downloaded: 0, last_reported: 0 }
    }

    /// Records a chunk of `len` bytes; returns the percentage to report, if a
    /// notice is due.
    pub fn record_chunk(&mut self, len: u64) -> (r: Option<u64>)
        requires
            old(self).wf(),
            old(self).downloaded + len <= u64::MAX,
        ensures
            final(self).wf(),
            final(self).total == old(self).total,
            final(self).downloaded == old(self).downloaded + len,
            old(self).total > 0 && percent_of(final(self).downloaded, old(self).total)
                >= old(self).last_reported + 10 ==> r == Some(
                percent_of(final(self).downloaded, old(self).total) as u64,
            ) && final(self).last_reported == r->Some_0,
            !(old(self).total > 0 && percent_of(final(self).downloaded, old(self).total)
                >= old(self).last_reported + 10) ==> r is None && final(self).last_reported
                == old(self).last_reported,
    {
        self.downloaded = self.downloaded + len;
        if self.total == 0 {
            return None;
        }
        let scaled: u128 = (self.downloaded as u128) * 100 / (self.total as u128);
        let pct: u64 = if scaled > 100 {
            100
        } else {
            scaled as u64
        };
        if pct >= self.last_reported + 10 {
            self.last_reported = pct;
            Some(pct)
        } else {
            None
        }
    }
}

} // verus!
