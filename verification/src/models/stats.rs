//! Statistics queries and the records they return.

use vstd::prelude::*;

verus! {

/// The query parameters of a test-statistics request.
#[derive(Clone, Debug)]
pub struct EvgTestStatsRequest {
    pub after_date: String,
    pub before_date: String,
    pub group_days: bool,
    pub group_by_test: bool,
    pub variant: String,
    pub task_name: String,
    pub test_name: Option<String>,
    pub presto: bool,
}

impl Default for EvgTestStatsRequest {
    /// An unconstrained query: empty bounds, no grouping, no filters.
    fn default() -> (q: Self)
        ensures
            q.after_date@ == Seq::<char>::empty(),
            q.before_date@ == Seq::<char>::empty(),
            !q.group_days,
            !q.group_by_test,
            q.variant@ == Seq::<char>::empty(),
            q.task_name@ == Seq::<char>::empty(),
            q.test_name is None,
            !q.presto,
    {
        EvgTestStatsRequest {
            after_date: String::new(),
            before_date: String::new(),
            group_days: false,
            group_by_test: false,
            variant: String::new(),
            task_name: String::new(),
            test_name: Option::None,
            presto: false,
        }
    }
}

/// One row of test statistics. The average passing duration is in
/// milliseconds.
#[derive(Clone, Debug)]
pub struct EvgTestStats {
    pub test_file: String,
    pub task_name: String,
    pub variant: String,
    pub distro: Option<String>,
    pub date: String,
    pub num_pass: u64,
    pub num_fail: u64,
    pub avg_duration_pass_ms: u64,
}

/// The query parameters of a task-statistics request.
#[derive(Clone, Debug)]
pub struct EvgTaskStatsRequest {
    pub after_date: String,
    pub before_date: String,
    pub group_num_days: u64,
    pub variants: String,
    pub tasks: String,
}

impl Default for EvgTaskStatsRequest {
    /// An unconstrained query grouping each day on its own.
    fn default() -> (q: Self)
        ensures
            q.after_date@ == Seq::<char>::empty(),
            q.before_date@ == Seq::<char>::empty(),
            q.group_num_days == 1,
            q.variants@ == Seq::<char>::empty(),
            q.tasks@ == Seq::<char>::empty(),
    {
        EvgTaskStatsRequest {
            after_date: String::new(),
            before_date: String::new(),
            group_num_days: 1,
            variants: String::new(),
            tasks: String::new(),
        }
    }
}

/// One row of task statistics. The average successful duration is in
/// milliseconds.
#[derive(Clone, Debug)]
pub struct EvgTaskStats {
    pub task_name: String,
    pub variant: String,
    pub distro: Option<String>,
    pub date: String,
    pub num_success: u64,
    pub num_failed: u64,
    pub num_total: u64,
    pub num_timeout: u64,
    pub num_test_failed: u64,
    pub num_system_failed: u64,
    pub num_setup_failed: u64,
    pub avg_duration_success_ms: u64,
}

} // verus!
