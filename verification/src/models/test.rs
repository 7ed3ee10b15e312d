//! The test record and where its logs live.

use vstd::prelude::*;

verus! {

/// Where one test's log output can be fetched.
#[derive(Clone, Debug)]
pub struct TestLog {
    pub url: String,
    pub line_num: u32,
    pub url_raw: String,
    pub log_id: Option<String>,
    pub url_raw_display: Option<String>,
    pub url_html_display: Option<String>,
}

/// One test run within a task. The duration is in milliseconds.
#[derive(Clone, Debug)]
pub struct EvgTest {
    pub task_id: String,
    pub status: String,
    pub test_file: String,
    pub exit_code: u16,
    pub start_time: i64,
    pub end_time: i64,
    pub logs: TestLog,
    pub duration_ms: u64,
}

} // verus!
