//! The pagination engine: eager and lazy walks over fixed page transcripts.

use evg_api::paging::{collect_stream, fetch_all_pages, LazyPager, LazyStep, Page};
use evg_api::ApiError;

fn page(items: &[u32], next: Option<&str>) -> Page<u32> {
    Page { items: items.to_vec(), next: next.map(String::from) }
}

#[test]
fn fetch_all_concatenates_pages_in_order_with_one_request_each() {
    let transcript = vec![
        Ok(page(&[1, 2], Some("https://api/p2"))),
        Ok(page(&[3], Some("https://api/p3"))),
        Ok(page(&[4, 5, 6], None)),
    ];

    let (result, requests) = fetch_all_pages(transcript);

    assert_eq!(result.unwrap(), vec![1, 2, 3, 4, 5, 6]);
    assert_eq!(requests, 3);
}

#[test]
fn fetch_all_of_a_single_page_makes_one_request() {
    let transcript = vec![Ok(page(&[7], None))];

    let (result, requests) = fetch_all_pages(transcript);

    assert_eq!(result.unwrap(), vec![7]);
    assert_eq!(requests, 1);
}

#[test]
fn empty_batch_with_cursor_continues_and_without_cursor_terminates() {
    // An empty page in the middle does not end the walk.
    let transcript = vec![
        Ok(page(&[], Some("https://api/p2"))),
        Ok(page(&[8], Some("https://api/p3"))),
        Ok(page(&[], None)),
    ];
    let (result, requests) = fetch_all_pages(transcript);
    assert_eq!(result.unwrap(), vec![8]);
    assert_eq!(requests, 3);

    // A single empty page without a cursor terminates with an empty result.
    let (result, requests) = fetch_all_pages(vec![Ok(page(&[], None))]);
    assert_eq!(result.unwrap(), Vec::<u32>::new());
    assert_eq!(requests, 1);
}

#[test]
fn lazy_stream_equals_eager_fetch_on_the_same_pages() {
    let pages = [
        (vec![1u32, 2], Some("https://api/p2")),
        (vec![], Some("https://api/p3")),
        (vec![3, 4], None),
    ];
    let eager: Vec<Result<Page<u32>, ApiError>> =
        pages.iter().map(|(v, n)| Ok(page(v, *n))).collect();
    let lazy: Vec<Result<Page<u32>, ApiError>> =
        pages.iter().map(|(v, n)| Ok(page(v, *n))).collect();

    let (eager_result, _) = fetch_all_pages(eager);
    let (lazy_items, lazy_requests, failure) = collect_stream(lazy);

    assert_eq!(eager_result.unwrap(), lazy_items);
    assert_eq!(lazy_requests, 3);
    assert!(failure.is_none());
}

#[test]
fn eager_decode_failure_mid_walk_reports_the_error_and_no_partial_result() {
    let transcript: Vec<Result<Page<u32>, ApiError>> = vec![
        Ok(page(&[1, 2], Some("https://api/p2"))),
        Err(ApiError::Decode),
    ];

    let (result, requests) = fetch_all_pages(transcript);

    assert_eq!(result, Err(ApiError::Decode));
    assert_eq!(requests, 2);
}

#[test]
fn lazy_decode_failure_mid_walk_keeps_items_already_yielded() {
    let transcript: Vec<Result<Page<u32>, ApiError>> = vec![
        Ok(page(&[1, 2], Some("https://api/p2"))),
        Err(ApiError::Decode),
    ];

    let (items, requests, failure) = collect_stream(transcript);

    assert_eq!(items, vec![1, 2]);
    assert_eq!(requests, 2);
    assert_eq!(failure, Some(ApiError::Decode));
}

#[test]
fn lazy_pager_pulls_items_then_asks_for_the_fetch_then_ends() {
    let mut pager = LazyPager::new(Ok(page(&[10], Some("https://api/p2"))));

    match pager.poll() {
        LazyStep::Item(v) => assert_eq!(v, 10),
        _ => panic!("expected an item"),
    }
    match pager.poll() {
        LazyStep::Fetch(url) => assert_eq!(url, "https://api/p2"),
        _ => panic!("expected a fetch request"),
    }
    pager.load_page(Ok(page(&[11], None)));
    match pager.poll() {
        LazyStep::Item(v) => assert_eq!(v, 11),
        _ => panic!("expected an item"),
    }
    match pager.poll() {
        LazyStep::Done => {},
        _ => panic!("expected the end of the walk"),
    }
}

#[test]
fn lazy_pager_empty_batch_with_cursor_asks_for_the_fetch() {
    let mut pager = LazyPager::new(Ok(page(&[], Some("https://api/p2"))));

    match pager.poll() {
        LazyStep::Fetch(url) => assert_eq!(url, "https://api/p2"),
        _ => panic!("an empty batch with a cursor must continue, not end"),
    }
}

#[test]
fn lazy_pager_failed_first_request_repeats_the_failure() {
    let mut pager = LazyPager::<u32>::new(Err(ApiError::Transport));

    match pager.poll() {
        LazyStep::Failed(e) => assert_eq!(e, ApiError::Transport),
        _ => panic!("expected the terminal failure"),
    }
    match pager.poll() {
        LazyStep::Failed(e) => assert_eq!(e, ApiError::Transport),
        _ => panic!("the failure is terminal and repeats"),
    }
}
