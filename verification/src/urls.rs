//! Construction of the absolute endpoint URLs the client requests.
//!
//! Every resource lives under one fixed versioned path prefix on the
//! configured host. Identifiers are embedded verbatim: callers are expected
//! to pass URL-safe identifiers, and behaviour for identifiers holding
//! reserved URL characters is out of contract.

use vstd::prelude::*;
use vstd::string::*;

verus! {

/// The versioned path prefix, as characters, that every endpoint URL holds
/// between the host and the resource kind.
pub open spec fn api_prefix() -> Seq<char> {
    seq!['/', 'r', 'e', 's', 't', '/', 'v', '2', '/']
}

/// The URL of the collection or object `arg` of kind `endpoint` on `host`.
pub open spec fn spec_build_url(host: Seq<char>, endpoint: Seq<char>, arg: Seq<char>) -> Seq<char> {
    host + api_prefix() + endpoint + seq!['/'] + arg
}

/// Builds `{host}/rest/v2/{endpoint}/{arg}`.
pub fn build_url(host: &str, endpoint: &str, arg: &str) -> (url: String)
    ensures
        url@ == spec_build_url(host@, endpoint@, arg@),
{
    proof {
        reveal_strlit("/rest/v2/");
        reveal_strlit("/");
    }
    let mut url = String::from_str(host);
    url.append("/rest/v2/");
    url.append(endpoint);
    url.append("/");
    url.append(arg);
    assert(url@ =~= spec_build_url(host@, endpoint@, arg@));
    url
}

/// `true` or `false`, as characters.
pub open spec fn spec_bool(b: bool) -> Seq<char> {
    if b {
        "true"@
    } else {
        "false"@
    }
}

/// Renders a flag the way a query string carries it.
pub fn bool_to_string(b: bool) -> (r: String)
    ensures
        r@ == spec_bool(b),
{
    if b {
        String::from_str("true")
    } else {
        String::from_str("false")
    }
}

/// The URL of one task.
pub fn task_url(host: &str, task_id: &str) -> (url: String)
    ensures
        url@ == spec_build_url(host@, "tasks"@, task_id@),
{
    build_url(host, "tasks", task_id)
}

/// The URL of one version.
pub fn version_url(host: &str, version_id: &str) -> (url: String)
    ensures
        url@ == spec_build_url(host@, "versions"@, version_id@),
{
    build_url(host, "versions", version_id)
}

/// The URL of one build.
pub fn build_object_url(host: &str, build_id: &str) -> (url: String)
    ensures
        url@ == spec_build_url(host@, "builds"@, build_id@),
{
    build_url(host, "builds", build_id)
}

/// The URL of a task's test collection.
pub fn tests_url(host: &str, task_id: &str) -> (url: String)
    ensures
        url@ == spec_build_url(host@, "tasks"@, task_id@) + "/tests"@,
{
    let mut url = build_url(host, "tasks", task_id);
    url.append("/tests");
    url
}

/// The URL of a project's version collection, filtered to mainline
/// versions.
pub fn versions_url(host: &str, project_id: &str) -> (url: String)
    ensures
        url@ == spec_build_url(host@, "projects"@, project_id@)
            + "/versions?requester=gitter_request"@,
{
    let mut url = build_url(host, "projects", project_id);
    url.append("/versions?requester=gitter_request");
    url
}

/// A patch-collection URL with its optional result-count limit. The limit
/// only shapes the initial query; the server's cursors carry it onward.
pub open spec fn spec_patches_url(base: Seq<char>, limit: Option<u64>) -> Seq<char> {
    base + "/patches"@ + (match limit {
        Option::None => Seq::<char>::empty(),
        Option::Some(l) => "?limit="@ + crate::text::dec_digits(l as nat),
    })
}

/// The URL of a user's patch collection.
pub fn user_patches_url(host: &str, user_id: &str, limit: Option<u64>) -> (url: String)
    ensures
        url@ == spec_patches_url(spec_build_url(host@, "users"@, user_id@), limit),
{
    let base = build_url(host, "users", user_id);
    patches_url(base, limit)
}

/// The URL of a project's patch collection.
pub fn project_patches_url(host: &str, project_id: &str, limit: Option<u64>) -> (url: String)
    ensures
        url@ == spec_patches_url(spec_build_url(host@, "projects"@, project_id@), limit),
{
    let base = build_url(host, "projects", project_id);
    patches_url(base, limit)
}

fn patches_url(base: String, limit: Option<u64>) -> (url: String)
    ensures
        url@ == spec_patches_url(base@, limit),
{
    let ghost base0 = base@;
    let mut url = base;
    url.append("/patches");
    match limit {
        Option::None => {
            proof {
                assert(url@ =~= spec_patches_url(base0, limit));
            }
        },
        Option::Some(l) => {
            url.append("?limit=");
            let digits = crate::text::u64_to_string(l);
            url.append(digits.as_str());
            proof {
                assert(url@ =~= spec_patches_url(base0, limit));
            }
        },
    }
    url
}

/// The URL of a build's task collection, with its optional status filter.
/// The filter only shapes the initial query; the server's cursors carry it
/// onward.
pub open spec fn spec_build_tasks_url(
    host: Seq<char>,
    build_id: Seq<char>,
    status: Option<Seq<char>>,
) -> Seq<char> {
    spec_build_url(host, "builds"@, build_id) + "/tasks"@ + (match status {
        Option::None => Seq::<char>::empty(),
        Option::Some(s) => "?status="@ + s,
    })
}

/// The URL of a build's task collection.
pub fn build_tasks_url(host: &str, build_id: &str, status: Option<&str>) -> (url: String)
    ensures
        url@ == spec_build_tasks_url(
            host@,
            build_id@,
            match status {
                Option::None => Option::None,
                Option::Some(s) => Option::Some(s@),
            },
        ),
{
    let mut url = build_url(host, "builds", build_id);
    url.append("/tasks");
    match status {
        Option::None => {
            proof {
                assert(url@ =~= spec_build_tasks_url(host@, build_id@, Option::None));
            }
        },
        Option::Some(s) => {
            url.append("?status=");
            url.append(s);
            proof {
                assert(url@ =~= spec_build_tasks_url(host@, build_id@, Option::Some(s@)));
            }
        },
    }
    url
}

/// A log URL with the plain-text flag appended, so the body arrives as raw
/// bytes of text rather than a rendered page.
pub fn log_text_url(base: &str) -> (url: String)
    ensures
        url@ == base@ + "&text=true"@,
{
    let mut url = String::from_str(base);
    url.append("&text=true");
    url
}

/// The query string of a test-statistics request: every field, in a fixed
/// order, rendered as `name=value` pairs (the test-name filter appears only
/// when set). Values are embedded verbatim.
pub open spec fn spec_test_stats_query(q: crate::models::stats::EvgTestStatsRequest) -> Seq<
    char,
> {
    "after_date="@ + q.after_date@ + "&before_date="@ + q.before_date@ + "&group_days="@
        + spec_bool(q.group_days) + "&group_by_test="@ + spec_bool(q.group_by_test) + "&variant="@
        + q.variant@ + "&task_name="@ + q.task_name@ + (match q.test_name {
        Option::None => Seq::<char>::empty(),
        Option::Some(t) => "&test_name="@ + t@,
    }) + "&presto="@ + spec_bool(q.presto)
}

/// Renders the query string of a test-statistics request.
pub fn test_stats_query(query: &crate::models::stats::EvgTestStatsRequest) -> (q: String)
    ensures
        q@ == spec_test_stats_query(*query),
{
    let mut q = String::from_str("after_date=");
    q.append(query.after_date.as_str());
    q.append("&before_date=");
    q.append(query.before_date.as_str());
    q.append("&group_days=");
    let b1 = bool_to_string(query.group_days);
    q.append(b1.as_str());
    q.append("&group_by_test=");
    let b2 = bool_to_string(query.group_by_test);
    q.append(b2.as_str());
    q.append("&variant=");
    q.append(query.variant.as_str());
    q.append("&task_name=");
    q.append(query.task_name.as_str());
    match &query.test_name {
        Option::None => {
            proof {
                assert(q@ + Seq::<char>::empty() =~= q@);
            }
        },
        Option::Some(t) => {
            q.append("&test_name=");
            q.append(t.as_str());
        },
    }
    q.append("&presto=");
    let b3 = bool_to_string(query.presto);
    q.append(b3.as_str());
    q
}

/// The URL of a project's test statistics under the given query.
pub fn test_stats_url(
    host: &str,
    project_id: &str,
    query: &crate::models::stats::EvgTestStatsRequest,
) -> (url: String)
    ensures
        url@ == spec_build_url(host@, "projects"@, project_id@) + "/test_stats?"@
            + spec_test_stats_query(*query),
{
    let mut url = build_url(host, "projects", project_id);
    url.append("/test_stats?");
    let q = test_stats_query(query);
    url.append(q.as_str());
    url
}

/// The query string of a task-statistics request: every field, in a fixed
/// order, rendered as `name=value` pairs. Values are embedded verbatim.
pub open spec fn spec_task_stats_query(q: crate::models::stats::EvgTaskStatsRequest) -> Seq<
    char,
> {
    "after_date="@ + q.after_date@ + "&before_date="@ + q.before_date@ + "&group_num_days="@
        + crate::text::dec_digits(q.group_num_days as nat) + "&variants="@ + q.variants@
        + "&tasks="@ + q.tasks@
}

/// Renders the query string of a task-statistics request.
pub fn task_stats_query(query: &crate::models::stats::EvgTaskStatsRequest) -> (q: String)
    ensures
        q@ == spec_task_stats_query(*query),
{
    let mut q = String::from_str("after_date=");
    q.append(query.after_date.as_str());
    q.append("&before_date=");
    q.append(query.before_date.as_str());
    q.append("&group_num_days=");
    let digits = crate::text::u64_to_string(query.group_num_days);
    q.append(digits.as_str());
    q.append("&variants=");
    q.append(query.variants.as_str());
    q.append("&tasks=");
    q.append(query.tasks.as_str());
    q
}

/// The URL of a project's task statistics under the given query.
pub fn task_stats_url(
    host: &str,
    project_id: &str,
    query: &crate::models::stats::EvgTaskStatsRequest,
) -> (url: String)
    ensures
        url@ == spec_build_url(host@, "projects"@, project_id@) + "/task_stats?"@
            + spec_task_stats_query(*query),
{
    let mut url = build_url(host, "projects", project_id);
    url.append("/task_stats?");
    let q = task_stats_query(query);
    url.append(q.as_str());
    url
}

} // verus!
