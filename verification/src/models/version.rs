//! The version record.

use vstd::prelude::*;

verus! {

/// The status of one build variant within a version.
#[derive(Clone, Debug)]
pub struct BuildVariantStatus {
    pub build_variant: String,
    pub build_id: String,
}

/// One version of a project: a commit or patch the system built.
#[derive(Clone, Debug)]
pub struct EvgVersion {
    pub version_id: String,
    pub create_time: i64,
    pub start_time: Option<i64>,
    pub finish_time: Option<i64>,
    pub revision: String,
    pub order: u64,
    pub project: String,
    pub author: String,
    pub author_email: String,
    pub message: String,
    pub status: String,
    pub repo: String,
    pub branch: String,
    pub errors: Option<Vec<String>>,
    pub ignored: Option<bool>,
    pub requester: Option<String>,
    pub build_variants_status: Option<Vec<BuildVariantStatus>>,
}

} // verus!
