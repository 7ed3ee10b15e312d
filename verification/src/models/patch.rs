//! The patch record.

use vstd::prelude::*;

verus! {

/// One patch submitted against a project.
#[derive(Clone, Debug)]
pub struct EvgPatch {
    pub patch_id: String,
    pub description: String,
    pub project_id: String,
    pub project_identifier: String,
    pub branch: String,
    pub git_hash: String,
    pub patch_number: u64,
    pub author: String,
    pub version: String,
    pub status: String,
    pub create_time: i64,
    pub start_time: Option<i64>,
    pub finish_time: Option<i64>,
}

} // verus!
