//! Async jobs of the rc API and what they report.
use std::time::Duration;

use vstd::prelude::*;
use vstd::string::*;

use crate::config::on_windows;
use crate::error::{labelled, Error};
use crate::notice::{conflicts_of, SyncConflict};
use crate::text::{chars_of, decimal_text, includes};
use crate::time::is_over;

verus! {

/// The answer of `job/status`.
#[derive(Debug)]
pub struct JobStatus {
    pub id: u64,
    pub finished: bool,
    pub success: bool,
    pub error: String,
    /// Present for bisync jobs: human-readable conflict/progress lines.
    pub output: Option<BisyncOutput>,
}

/// What a bisync job has printed.
#[derive(Debug, Clone)]
pub struct BisyncOutput {
    pub output: String,
    pub base_path: String,
    pub session: String,
}

impl Default for BisyncOutput {
    fn default() -> (blank: Self)
        ensures
            blank.output@.len() == 0,
            blank.base_path@.len() == 0,
            blank.session@.len() == 0,
    {
        BisyncOutput { output: String::new(), base_path: String::new(), session: String::new() }
    }
}

impl JobStatus {
    /// What the job has printed; nothing for a job without output.
    pub open spec fn printed(self) -> Seq<char> {
        match self.output {
            Some(out) => out.output@,
            None => seq![],
        }
    }

    /// Returns `true` if the job succeeded without errors.
    pub fn is_ok(&self) -> (ok: bool)
        ensures
            ok == (self.finished && self.success && self.error@.len() == 0),
    {
        self.finished && self.success && self.error.as_str().is_empty()
    }

    /// Extract conflicts from the bisync output.
    pub fn conflicts(&self, path1_root: &str) -> (list: Vec<SyncConflict>)
        ensures
            exists|windows: bool| #[trigger]
                crate::config::is_platform(windows) && crate::notice::conflicts_view(list@)
                    == crate::notice::conflicts_in(self.printed(), path1_root@, windows),
            self.output matches Some(out) ==> exists|windows: bool| #[trigger]
                crate::config::is_platform(windows) && crate::notice::conflicts_view(list@)
                    == crate::notice::conflicts_in(out.output@, path1_root@, windows),
            self.output is None ==> list@.len() == 0,
    {
        let windows = on_windows();
        match &self.output {
            Some(out) => conflicts_of(out.output.as_str(), path1_root, windows),
            None => {
                let list: Vec<SyncConflict> = Vec::new();
                assert(crate::notice::conflicts_view(list@) =~= crate::notice::conflicts_in(
                    self.printed(),
                    path1_root@,
                    windows,
                ));
                list
            },
        }
    }

    /// Returns true if bisync reported a "safety abort" (all files changed).
    pub fn is_safety_abort(&self) -> (abort: bool)
        ensures
            abort == (crate::text::contains(self.error@, "all files were changed"@) || (self.output is Some
                && crate::text::contains(self.printed(), "Safety abort"@))),
            crate::text::contains(self.error@, "all files were changed"@) ==> abort,
            self.output matches Some(out) && crate::text::contains(out.output@, "Safety abort"@)
                ==> abort,
    {
        let phrase = chars_of("all files were changed");
        let error = chars_of(self.error.as_str());
        if includes(error.as_slice(), phrase.as_slice()) {
            return true;
        }
        match &self.output {
            Some(out) => {
                let phrase = chars_of("Safety abort");
                let printed = chars_of(out.output.as_str());
                includes(printed.as_slice(), phrase.as_slice())
            },
            None => false,
        }
    }
}

/// The error for a job that did not finish within `seconds`.
pub open spec fn job_timeout(jobid: u64, seconds: nat) -> crate::error::ErrorView {
    crate::error::ErrorView::JobFailed(
        "job "@ + crate::text::decimal(jobid as nat) + " timed out after "@ + crate::text::decimal(seconds) + "s"@,
    )
}

/// A wait for a job to finish.
#[derive(Debug)]
pub struct JobWait {
    pub jobid: u64,
    /// How long to sleep between two polls.
    pub poll_interval: Duration,
    /// How long to wait in all.
    pub timeout: Duration,
}

/// What to do after a poll.
#[derive(Debug)]
pub enum JobStep {
    /// The job is finished, with this status.
    Finished(JobStatus),
    /// Sleep, then poll again.
    Sleep(Duration),
}

impl JobWait {
    /// Decides, `elapsed` after the start of the wait, whether to poll once more.
    pub fn may_poll(&self, elapsed: Duration) -> (go: Result<(), Error>)
        ensures
            go is Ok <==> crate::time::nanoseconds(elapsed) < crate::time::nanoseconds(self.timeout),
            go matches Err(e) ==> e@ == job_timeout(
                self.jobid,
                crate::time::nanoseconds(self.timeout) / 1_000_000_000,
            ),
            go matches Err(e) ==> (e matches Error::JobFailed(message) && message@ == "job "@
                + crate::text::decimal(self.jobid as nat) + " timed out after "@
                + crate::text::decimal(crate::time::nanoseconds(self.timeout) / 1_000_000_000)
                + "s"@),
    {
        if is_over(elapsed, self.timeout) {
            let mut message = labelled("job ", decimal_text(self.jobid).as_str());
            message.append(" timed out after ");
            message.append(decimal_text(self.timeout.as_secs()).as_str());
            message.append("s");
            Err(Error::JobFailed(message))
        } else {
            Ok(())
        }
    }

    /// Decides what to do with the status that a poll brought.
    pub fn polled(&self, status: JobStatus) -> (step: JobStep)
        ensures
            step == (if status.finished {
                JobStep::Finished(status)
            } else {
                JobStep::Sleep(self.poll_interval)
            }),
    {
        if status.finished {
            JobStep::Finished(status)
        } else {
            JobStep::Sleep(self.poll_interval)
        }
    }
}

/// What a job has printed is its output, and nothing for a job without any. A job that did
/// not finish in time is reported with its id and the time.
pub proof fn jobs_report_what_they_print(status: JobStatus, jobid: u64, seconds: nat)
    ensures
        status.output matches Some(out) ==> status.printed() == out.output@,
        status.output is None ==> status.printed().len() == 0,
        job_timeout(jobid, seconds) == crate::error::ErrorView::JobFailed(
            "job "@ + crate::text::decimal(jobid as nat) + " timed out after "@
                + crate::text::decimal(seconds) + "s"@,
        ),
{
}

} // verus!
