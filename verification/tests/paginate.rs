use moonboard::err::ApiError;
use moonboard::paginate::{CursorFetch, PagedEnvelope, PagedFetch};
use moonboard::records::{
    BoulderMethod, HoldSetupFromProblem, Problem, Problems,
};
use moonboard::datetime::Timestamp;

fn problem(api_id: i64) -> Problem {
    Problem {
        api_id,
        date_deleted: None,
        date_inserted: Timestamp { secs: 1_500_000_000, nanos: 0 },
        date_updated: None,
        downgraded: false,
        grade: "6B+".to_string(),
        has_beta_video: false,
        holdsets: Vec::new(),
        holdsetup: HoldSetupFromProblem {
            api_id: 1,
            description: "Original".to_string(),
            holdsets: None,
        },
        is_benchmark: false,
        is_master: false,
        method: BoulderMethod::FeetFollowHands,
        moon_board_configuration_id: 0,
        moves: Vec::new(),
        name: format!("problem {}", api_id),
        repeats: 0,
        setby: "setter".to_string(),
        setby_id: "00000000-0000-0000-0000-000000000000".to_string(),
        upgraded: false,
        user_grade: None,
        user_rating: None,
    }
}

fn envelope(count: usize, total: i64) -> PagedEnvelope<i64> {
    PagedEnvelope {
        aggregate_results: None,
        data: (0..count as i64).collect(),
        errors: None,
        total,
    }
}

#[test]
fn cursor_two_pages_three_items() {
    // Page one carries three records ending at id 42 and reports two
    // remaining; page two, keyed on 42, carries nothing and reports zero.
    let mut fetch: CursorFetch<Problem> = CursorFetch::new();
    assert_eq!(fetch.cursor(), 0);

    let page1 = Problems { total: 2, data: vec![problem(40), problem(41), problem(42)] };
    let mut requests = 1;
    assert!(fetch.feed(page1.data, page1.total).is_ok());
    assert!(!fetch.done());
    assert_eq!(fetch.cursor(), 42);

    let page2 = Problems { total: 0, data: vec![] };
    requests += 1;
    assert!(fetch.feed(page2.data, page2.total).is_ok());
    assert!(fetch.done());

    assert_eq!(requests, 2);
    let items = fetch.into_items();
    assert_eq!(items.len(), 3);
    let ids: Vec<i64> = items.iter().map(|p| p.api_id).collect();
    assert_eq!(ids, vec![40, 41, 42]);
}

#[test]
fn cursor_empty_first_page_fails() {
    // An empty first page with a positive remaining count must fail, not
    // loop or return an empty result.
    let mut fetch: CursorFetch<Problem> = CursorFetch::new();
    let r = fetch.feed(vec![], 5);
    match r {
        Err(ApiError::NoData { cursor }) => assert_eq!(cursor, 0),
        other => panic!("expected the empty-fetch failure, got {:?}", other.is_ok()),
    }
    assert!(fetch.done());
}

#[test]
fn cursor_stops_on_nonpositive_total_with_data() {
    // A page that still carries data but reports a remaining count of
    // zero is the last page.
    let mut fetch: CursorFetch<Problem> = CursorFetch::new();
    assert!(fetch.feed(vec![problem(7)], 0).is_ok());
    assert!(fetch.done());
    assert_eq!(fetch.into_items().len(), 1);
}

#[test]
fn cursor_error_message_names_cursor() {
    // The failure names the cursor the empty answer was requested with.
    let mut fetch: CursorFetch<Problem> =
        CursorFetch { items: Vec::new(), cursor: 42, finished: false };
    let err = fetch.feed(vec![], 2).unwrap_err();
    assert_eq!(err.message(), "Got no problems from problem_id 42");
}

#[test]
fn cursor_tolerates_late_empty_page() {
    // Once records have been accumulated, an empty page is not the
    // empty-result anomaly: the fetch carries on by the reported count.
    let mut fetch: CursorFetch<Problem> = CursorFetch::new();
    assert!(fetch.feed(vec![problem(41), problem(42)], 2).is_ok());
    assert!(fetch.feed(vec![], 2).is_ok());
    assert!(!fetch.done());
    assert_eq!(fetch.cursor(), 42);
}

#[test]
fn paged_three_pages_of_twelve() {
    // Totals of twelve over pages of five, five and two: three requests,
    // twelve items, the loop stops at page three.
    let mut fetch: PagedFetch<i64> = PagedFetch::new();
    assert_eq!(fetch.page(), 1);
    assert!(!fetch.feed(envelope(5, 12)));
    assert_eq!(fetch.page(), 2);
    assert!(!fetch.feed(envelope(5, 12)));
    assert_eq!(fetch.page(), 3);
    assert!(fetch.feed(envelope(2, 12)));
    assert!(fetch.done());
    assert_eq!(fetch.into_items().len(), 12);
}

#[test]
fn paged_tracks_maximum_total_not_latest() {
    // The first page claims five in total, later pages claim less: the
    // fetch must keep going until the maximum ever reported is reached.
    let mut fetch: PagedFetch<i64> = PagedFetch::new();
    assert!(!fetch.feed(envelope(2, 5)));
    // Four items accumulated exceed the latest total of three, but not
    // the maximum of five: the fetch must continue.
    assert!(!fetch.feed(envelope(2, 3)));
    assert!(fetch.feed(envelope(2, 1)));
    assert_eq!(fetch.into_items().len(), 6);
}

#[test]
fn paged_follows_rising_totals() {
    // Later pages may raise the grand total; the fetch follows the new
    // maximum.
    let mut fetch: PagedFetch<i64> = PagedFetch::new();
    assert!(!fetch.feed(envelope(2, 4)));
    assert!(!fetch.feed(envelope(2, 6)));
    assert!(fetch.feed(envelope(2, 6)));
    assert_eq!(fetch.into_items().len(), 6);
}

#[test]
fn paged_single_page_when_total_fits() {
    // A total no larger than one page's data yields exactly one request.
    let mut fetch: PagedFetch<i64> = PagedFetch::new();
    assert!(fetch.feed(envelope(3, 3)));
    assert!(fetch.done());
    assert_eq!(fetch.into_items().len(), 3);
}

#[test]
fn paged_tolerates_diagnostic_payloads() {
    // An embedded errors or aggregateResults payload is logged by the
    // driver but changes nothing in the fetch.
    let mut fetch: PagedFetch<i64> = PagedFetch::new();
    let env = PagedEnvelope {
        aggregate_results: Some(()),
        data: vec![1, 2],
        errors: Some(()),
        total: 2,
    };
    assert!(fetch.feed(env));
    assert_eq!(fetch.into_items(), vec![1, 2]);
}

#[test]
fn paged_zero_total_finishes_immediately() {
    let mut fetch: PagedFetch<i64> = PagedFetch::new();
    assert!(fetch.feed(envelope(0, 0)));
    assert_eq!(fetch.into_items().len(), 0);
}
