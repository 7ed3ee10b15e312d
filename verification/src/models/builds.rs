//! The build record and its per-status task counts.

use vstd::prelude::*;

verus! {

/// How many of a build's tasks stand in each status.
#[derive(Clone, Debug)]
pub struct BuildStatusCounts {
    pub succeeded: u32,
    pub failed: u32,
    pub started: u32,
    pub undispatched: u32,
    pub inactivate: Option<u32>,
    pub dispatched: u32,
    pub timed_out: u32,
}

impl BuildStatusCounts {
    /// Counts with every status at zero.
    pub fn new() -> (c: Self)
        ensures
            c.succeeded == 0 && c.failed == 0 && c.started == 0 && c.undispatched == 0
                && c.inactivate is None && c.dispatched == 0 && c.timed_out == 0,
    {
        BuildStatusCounts {
            succeeded: 0,
            failed: 0,
            started: 0,
            undispatched: 0,
            inactivate: Option::None,
            dispatched: 0,
            timed_out: 0,
        }
    }

    /// Adds another build's counts onto these, status by status (the
    /// inactive count is not summed).
    pub fn add(&mut self, other: &Self)
        requires
            old(self).succeeded + other.succeeded <= u32::MAX,
            old(self).failed + other.failed <= u32::MAX,
            old(self).started + other.started <= u32::MAX,
            old(self).undispatched + other.undispatched <= u32::MAX,
            old(self).dispatched + other.dispatched <= u32::MAX,
            old(self).timed_out + other.timed_out <= u32::MAX,
        ensures
            final(self).succeeded == old(self).succeeded + other.succeeded,
            final(self).failed == old(self).failed + other.failed,
            final(self).started == old(self).started + other.started,
            final(self).undispatched == old(self).undispatched + other.undispatched,
            final(self).dispatched == old(self).dispatched + other.dispatched,
            final(self).timed_out == old(self).timed_out + other.timed_out,
            final(self).inactivate == old(self).inactivate,
    {
        self.succeeded = self.succeeded + other.succeeded;
        self.failed = self.failed + other.failed;
        self.started = self.started + other.started;
        self.undispatched = self.undispatched + other.undispatched;
        self.dispatched = self.dispatched + other.dispatched;
        self.timed_out = self.timed_out + other.timed_out;
    }

    /// Every task of the build, whatever its status.
    pub fn total_task_count(&self) -> (n: u32)
        requires
            self.undispatched + self.dispatched + self.started + self.failed + self.succeeded
                + self.timed_out <= u32::MAX,
        ensures
            n == self.undispatched + self.dispatched + self.started + self.failed + self.succeeded
                + self.timed_out,
    {
        self.undispatched + self.dispatched + self.started + self.failed + self.succeeded
            + self.timed_out
    }

    /// The tasks that ran to an end: succeeded, failed or timed out.
    pub fn finished_task_count(&self) -> (n: u32)
        requires
            self.succeeded + self.failed + self.timed_out <= u32::MAX,
        ensures
            n == self.succeeded + self.failed + self.timed_out,
    {
        self.succeeded + self.failed + self.timed_out
    }

    /// The tasks still running or not yet dispatched.
    pub fn pending_task_count(&self) -> (n: u32)
        requires
            self.started + self.undispatched <= u32::MAX,
        ensures
            n == self.started + self.undispatched,
    {
        self.started + self.undispatched
    }

    /// The tasks that completed: failed, succeeded or timed out.
    pub fn completed_task_count(&self) -> (n: u32)
        requires
            self.failed + self.succeeded + self.timed_out <= u32::MAX,
        ensures
            n == self.failed + self.succeeded + self.timed_out,
    {
        self.failed + self.succeeded + self.timed_out
    }
}

/// One build of a version on one variant.
#[derive(Clone, Debug)]
pub struct EvgBuild {
    pub id: String,
    pub project_id: String,
    pub create_time: Option<i64>,
    pub start_time: Option<i64>,
    pub finish_time: Option<i64>,
    pub version: String,
    pub branch: Option<String>,
    pub git_hash: String,
    pub build_variant: String,
    pub status: String,
    pub activated: bool,
    pub activated_by: String,
    pub activated_time: Option<i64>,
    pub order: u64,
    pub tasks: Vec<String>,
    pub time_taken_ms: u64,
    pub display_name: String,
    pub predicted_makespan_ms: u64,
    pub actual_makespan_ms: u64,
    pub origin: String,
    pub status_counts: BuildStatusCounts,
}

} // verus!
