//! URL construction and query rendering.

use evg_api::client::{single_fetch_absent, task_log_url, test_log_url, ResourceKind};
use evg_api::models::stats::{EvgTaskStatsRequest, EvgTestStatsRequest};
use evg_api::models::task::{EvgTask, EvgTaskStatusDetails};
use evg_api::models::test::{EvgTest, TestLog};
use evg_api::text::u64_to_string;
use evg_api::models::builds::BuildStatusCounts;
use evg_api::urls::{
    build_object_url, build_tasks_url, build_url, project_patches_url, task_stats_url, task_url,
    test_stats_url, tests_url, user_patches_url, version_url, versions_url,
};

const HOST: &str = "https://evergreen.example.com";

#[test]
fn build_url_joins_host_prefix_endpoint_and_identifier() {
    assert_eq!(
        build_url(HOST, "tasks", "task_123"),
        "https://evergreen.example.com/rest/v2/tasks/task_123"
    );
}

#[test]
fn single_object_urls_name_their_resource_kinds() {
    assert_eq!(
        task_url(HOST, "t1"),
        "https://evergreen.example.com/rest/v2/tasks/t1"
    );
    assert_eq!(
        version_url(HOST, "v1"),
        "https://evergreen.example.com/rest/v2/versions/v1"
    );
    assert_eq!(
        build_object_url(HOST, "b1"),
        "https://evergreen.example.com/rest/v2/builds/b1"
    );
}

#[test]
fn tests_url_points_at_the_tasks_test_collection() {
    assert_eq!(
        tests_url(HOST, "task_123"),
        "https://evergreen.example.com/rest/v2/tasks/task_123/tests"
    );
}

#[test]
fn versions_url_filters_to_mainline_versions() {
    assert_eq!(
        versions_url(HOST, "my-project"),
        "https://evergreen.example.com/rest/v2/projects/my-project/versions?requester=gitter_request"
    );
}

#[test]
fn patches_urls_carry_the_limit_only_when_given() {
    assert_eq!(
        user_patches_url(HOST, "someone", None),
        "https://evergreen.example.com/rest/v2/users/someone/patches"
    );
    assert_eq!(
        user_patches_url(HOST, "someone", Some(25)),
        "https://evergreen.example.com/rest/v2/users/someone/patches?limit=25"
    );
    assert_eq!(
        project_patches_url(HOST, "my-project", Some(100)),
        "https://evergreen.example.com/rest/v2/projects/my-project/patches?limit=100"
    );
}

#[test]
fn build_tasks_url_carries_the_status_filter_only_when_given() {
    assert_eq!(
        build_tasks_url(HOST, "build_9", None),
        "https://evergreen.example.com/rest/v2/builds/build_9/tasks"
    );
    assert_eq!(
        build_tasks_url(HOST, "build_9", Some("success")),
        "https://evergreen.example.com/rest/v2/builds/build_9/tasks?status=success"
    );
}

#[test]
fn test_stats_url_renders_every_field_of_the_query() {
    let query = EvgTestStatsRequest {
        after_date: String::from("2020-01-01"),
        before_date: String::from("2020-02-01"),
        group_days: true,
        group_by_test: false,
        variant: String::from("linux-64"),
        task_name: String::from("compile"),
        test_name: None,
        presto: false,
    };
    assert_eq!(
        test_stats_url(HOST, "my-project", &query),
        "https://evergreen.example.com/rest/v2/projects/my-project/test_stats?\
         after_date=2020-01-01&before_date=2020-02-01&group_days=true&group_by_test=false\
         &variant=linux-64&task_name=compile&presto=false"
    );

    let with_test_name = EvgTestStatsRequest {
        test_name: Some(String::from("my_test")),
        ..Default::default()
    };
    assert_eq!(
        test_stats_url(HOST, "p", &with_test_name),
        "https://evergreen.example.com/rest/v2/projects/p/test_stats?\
         after_date=&before_date=&group_days=false&group_by_test=false\
         &variant=&task_name=&test_name=my_test&presto=false"
    );
}

#[test]
fn task_stats_url_renders_every_field_of_the_query() {
    let query = EvgTaskStatsRequest::default();
    assert_eq!(
        task_stats_url(HOST, "my-project", &query),
        "https://evergreen.example.com/rest/v2/projects/my-project/task_stats?\
         after_date=&before_date=&group_num_days=1&variants=&tasks="
    );
}

#[test]
fn decimal_rendering_is_exact() {
    assert_eq!(u64_to_string(0), "0");
    assert_eq!(u64_to_string(7), "7");
    assert_eq!(u64_to_string(100), "100");
    assert_eq!(u64_to_string(u64::MAX), "18446744073709551615");
}

#[test]
fn absence_is_a_result_only_for_builds() {
    assert!(single_fetch_absent(ResourceKind::Build, 404));
    assert!(!single_fetch_absent(ResourceKind::Build, 200));
    assert!(!single_fetch_absent(ResourceKind::Task, 404));
    assert!(!single_fetch_absent(ResourceKind::Version, 404));
}

fn task_with_logs(logs: Vec<(String, String)>) -> EvgTask {
    EvgTask {
        activated: false,
        activated_by: String::new(),
        artifacts: None,
        build_id: String::new(),
        build_variant: String::new(),
        create_time: 0,
        dispatch_time: None,
        display_name: String::new(),
        display_only: false,
        distro_id: String::new(),
        est_wait_to_start_ms: 0,
        execution: 0,
        execution_tasks: None,
        expected_duration_ms: 0,
        finish_time: None,
        generate_task: false,
        generated_by: String::new(),
        host_id: String::new(),
        ingest_time: None,
        logs,
        mainline: None,
        order: 0,
        project_id: String::new(),
        priority: 0,
        restarts: None,
        revision: String::new(),
        scheduled_time: None,
        start_time: None,
        status: String::new(),
        status_details: EvgTaskStatusDetails {
            status: String::new(),
            status_type: String::new(),
            desc: String::new(),
            timed_out: false,
        },
        task_group: None,
        task_group_max_hosts: None,
        task_id: String::new(),
        time_taken_ms: 0,
        version_id: String::new(),
    }
}

#[test]
fn task_log_url_resolves_the_named_log_and_flags_plain_text() {
    let task = task_with_logs(vec![
        (String::from("agent_log"), String::from("https://logs/agent?x=1")),
        (String::from("task_log"), String::from("https://logs/task?x=2")),
    ]);

    assert_eq!(
        task_log_url(&task, "task_log"),
        Some(String::from("https://logs/task?x=2&text=true"))
    );
    assert_eq!(task_log_url(&task, "system_log"), None);
}

#[test]
fn test_log_url_flags_the_raw_log_for_plain_text() {
    let test = EvgTest {
        task_id: String::new(),
        status: String::new(),
        test_file: String::new(),
        exit_code: 0,
        start_time: 0,
        end_time: 0,
        logs: TestLog {
            url: String::new(),
            line_num: 0,
            url_raw: String::from("https://logs/test?raw=1"),
            log_id: None,
            url_raw_display: None,
            url_html_display: None,
        },
        duration_ms: 0,
    };

    assert_eq!(test_log_url(&test), "https://logs/test?raw=1&text=true");
}

#[test]
fn stats_request_defaults_match_an_unconstrained_query() {
    let q = EvgTestStatsRequest::default();
    assert_eq!(q.after_date, "");
    assert_eq!(q.before_date, "");
    assert!(!q.group_days);
    assert!(!q.group_by_test);
    assert_eq!(q.variant, "");
    assert_eq!(q.task_name, "");
    assert!(q.test_name.is_none());
    assert!(!q.presto);

    let q = EvgTaskStatsRequest::default();
    assert_eq!(q.group_num_days, 1);
    assert_eq!(q.after_date, "");
    assert_eq!(q.before_date, "");
    assert_eq!(q.variants, "");
    assert_eq!(q.tasks, "");
}

#[test]
fn build_status_counts_sum_by_status() {
    let mut counts = BuildStatusCounts::new();
    let other = BuildStatusCounts {
        succeeded: 3,
        failed: 1,
        started: 2,
        undispatched: 4,
        inactivate: None,
        dispatched: 5,
        timed_out: 1,
    };
    counts.add(&other);
    counts.add(&other);

    assert_eq!(counts.succeeded, 6);
    assert_eq!(counts.total_task_count(), 32);
    assert_eq!(counts.finished_task_count(), 10);
    assert_eq!(counts.pending_task_count(), 12);
    assert_eq!(counts.completed_task_count(), 10);
}
