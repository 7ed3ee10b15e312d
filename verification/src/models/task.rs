//! The task record.

use vstd::prelude::*;

verus! {

/// One artifact a task produced.
#[derive(Clone, Debug)]
pub struct EvgTaskArtifact {
    pub name: String,
    pub url: String,
    pub visibility: String,
    pub ignore_for_fetch: bool,
}

/// The detailed outcome of a task.
#[derive(Clone, Debug)]
pub struct EvgTaskStatusDetails {
    pub status: String,
    pub status_type: String,
    pub desc: String,
    pub timed_out: bool,
}

/// One task of a build. Its named logs are carried as `(name, url)` pairs;
/// the first pair with a given name wins a lookup.
#[derive(Clone, Debug)]
pub struct EvgTask {
    pub activated: bool,
    pub activated_by: String,
    pub artifacts: Option<Vec<EvgTaskArtifact>>,
    pub build_id: String,
    pub build_variant: String,
    pub create_time: i64,
    pub dispatch_time: Option<i64>,
    pub display_name: String,
    pub display_only: bool,
    pub distro_id: String,
    pub est_wait_to_start_ms: u32,
    pub execution: u32,
    pub execution_tasks: Option<Vec<String>>,
    pub expected_duration_ms: u64,
    pub finish_time: Option<i64>,
    pub generate_task: bool,
    pub generated_by: String,
    pub host_id: String,
    pub ingest_time: Option<i64>,
    pub logs: Vec<(String, String)>,
    pub mainline: Option<bool>,
    pub order: u64,
    pub project_id: String,
    pub priority: u32,
    pub restarts: Option<u32>,
    pub revision: String,
    pub scheduled_time: Option<i64>,
    pub start_time: Option<i64>,
    pub status: String,
    pub status_details: EvgTaskStatusDetails,
    pub task_group: Option<String>,
    pub task_group_max_hosts: Option<u16>,
    pub task_id: String,
    pub time_taken_ms: u64,
    pub version_id: String,
}

} // verus!
