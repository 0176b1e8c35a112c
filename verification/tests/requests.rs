use moonboard::datetime::Timestamp;
use moonboard::err::ApiError;
use moonboard::records::{holdset_add_problemid, setup_id_from_hold_setup, HoldSetFromProblem,
    HoldSetupFromProblem};
use moonboard::request::{
    comments_url, holdsetups_url, problem_updates_url, problems_url, repeats_url, token_url,
    updates_suffix, user_search_body, user_search_url, PagedQuery, PAGE_SIZE,
};

#[test]
fn fixed_endpoints() {
    assert_eq!(token_url(), "https://restapimoonboard.ems-x.com/token");
    assert_eq!(
        holdsetups_url(),
        "https://restapimoonboard.ems-x.com/v1/_moonapi/Holdsetup"
    );
    assert_eq!(
        user_search_url(),
        "https://restapimoonboard.ems-x.com/v1/_moonapi/Users/Search"
    );
    assert_eq!(repeats_url(), "https://moonboard.com/Problems/GetRepeats");
}

#[test]
fn cursor_keyed_urls() {
    assert_eq!(
        problems_url(0),
        "https://restapimoonboard.ems-x.com/v1/_moonapi/problems/v2/0"
    );
    assert_eq!(
        problems_url(20153),
        "https://restapimoonboard.ems-x.com/v1/_moonapi/problems/v2/20153"
    );
    assert_eq!(
        comments_url(20153),
        "https://moonboard.com/Problems/GetComments?problemId=20153"
    );
}

#[test]
fn update_suffix_requires_updated_with_deleted() {
    // The declared invariant of the upstream interface: a deleted-since
    // instant without an updated-since instant is rejected before any
    // request is made.
    let t = Timestamp { secs: 1_585_699_200, nanos: 0 };
    let r = updates_suffix(&t, &None, &Some(t));
    assert_eq!(r.unwrap_err(), ApiError::MissingUpdatedDate);
}

#[test]
fn update_suffix_encodes_windows_ticks() {
    // 2020-04-01T00:00:00 UTC; the tick counts must agree with the epoch
    // crate the wrapper relies on.
    let t = Timestamp { secs: 1_585_699_200, nanos: 0 };
    let ndt = chrono::DateTime::from_timestamp(t.secs, 0).unwrap().naive_utc();
    let ticks = epochs::to_windows_date(ndt);

    let one = updates_suffix(&t, &None, &None).unwrap();
    assert_eq!(one, format!("/{}", ticks));

    let two = updates_suffix(&t, &Some(t), &None).unwrap();
    assert_eq!(two, format!("/{}/{}", ticks, ticks));

    let three = updates_suffix(&t, &Some(t), &Some(t)).unwrap();
    assert_eq!(three, format!("/{}/{}/{}", ticks, ticks, ticks));

    assert_eq!(
        problem_updates_url(0, &one),
        format!(
            "https://restapimoonboard.ems-x.com/v1/_moonapi/problems/v2/0/{}",
            ticks
        )
    );
}

#[test]
fn update_suffix_rejects_unrepresentable_instant() {
    // An instant beyond the upstream calendar's range cannot be encoded.
    let far = Timestamp { secs: i64::MAX, nanos: 0 };
    let r = updates_suffix(&far, &None, &None);
    assert_eq!(r.unwrap_err(), ApiError::DateOutOfRange);
}

#[test]
fn error_messages() {
    assert_eq!(
        ApiError::MissingUpdatedDate.message(),
        "Got a date_deleted, but no date_updated, that is not possible"
    );
    assert_eq!(
        ApiError::Transport { detail: "connection reset".to_string() }.message(),
        "transport error: connection reset"
    );
    assert_eq!(
        ApiError::Decode { detail: "unknown field".to_string() }.message(),
        "decode error: unknown field"
    );
    assert_eq!(
        ApiError::RefreshUnsupported.message(),
        "token refresh is not implemented"
    );
    assert_eq!(
        ApiError::DateOutOfRange.message(),
        "date out of range for the upstream calendar"
    );
    assert_eq!(
        ApiError::NoData { cursor: -7 }.message(),
        "Got no problems from problem_id -7"
    );
}

#[test]
fn paged_queries() {
    let q = PagedQuery::comments_query(3);
    assert_eq!(q.sort, "");
    assert_eq!(q.page, 3);
    assert_eq!(q.page_size, PAGE_SIZE);
    assert_eq!(q.page_size, 1000);
    assert_eq!(q.group, "");
    assert_eq!(q.filter, "");

    let q = PagedQuery::repeats_query(2, 20153);
    assert_eq!(q.page, 2);
    assert_eq!(q.filter, "Id~eq~20153");
}

#[test]
fn user_search_keeps_pattern() {
    assert_eq!(user_search_body("username").query, "username");
    // An empty fragment is the documented way to list every user.
    assert_eq!(user_search_body("").query, "");
}

#[test]
fn holdset_tagging() {
    let setup = HoldSetupFromProblem {
        api_id: 9,
        description: "Original".to_string(),
        holdsets: None,
    };
    assert_eq!(setup_id_from_hold_setup(setup), 9);

    let hold_set = HoldSetFromProblem {
        api_id: 4,
        description: "Hold Set A".to_string(),
        locations: None,
    };
    let mut problem = moonboard::records::Problem {
        api_id: 20153,
        date_deleted: None,
        date_inserted: Timestamp { secs: 0, nanos: 0 },
        date_updated: None,
        downgraded: false,
        grade: "7A".to_string(),
        has_beta_video: false,
        holdsets: Vec::new(),
        holdsetup: HoldSetupFromProblem {
            api_id: 1,
            description: "Original".to_string(),
            holdsets: None,
        },
        is_benchmark: false,
        is_master: false,
        method: moonboard::records::BoulderMethod::ScrewOnsOnly,
        moon_board_configuration_id: 0,
        moves: Vec::new(),
        name: "a name".to_string(),
        repeats: 0,
        setby: "setter".to_string(),
        setby_id: "00000000-0000-0000-0000-000000000000".to_string(),
        upgraded: false,
        user_grade: None,
        user_rating: None,
    };
    problem.holdsets.push(hold_set.clone());
    let tagged = holdset_add_problemid(&problem, &hold_set);
    assert_eq!(tagged.problem_id, 20153);
    assert_eq!(tagged.api_id, 4);
    assert_eq!(tagged.description, "Hold Set A");
    assert_eq!(tagged.locations, None);
}
