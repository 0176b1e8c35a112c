//! Construction of every request the engine issues: the fixed hosts, the
//! resource paths keyed by pagination position, and the form-encoded query
//! object of the page-number strategy.

use vstd::prelude::*;
use crate::datetime::{windows_date_opt, windows_date_from_instant, Timestamp};
use crate::err::ApiError;
use crate::text::{dec_str_i64, i64_to_string};

verus! {

/// Items requested per page under the page-number strategy.
pub const PAGE_SIZE: i64 = 1000;

/// The website host, used by the comment and repeat endpoints.
pub fn website_url() -> (s: &'static str)
    ensures
        s@ == "https://moonboard.com"@,
{
    "https://moonboard.com"
}

/// The machine-interface host, used by the token and data endpoints.
pub fn api_url() -> (s: &'static str)
    ensures
        s@ == "https://restapimoonboard.ems-x.com"@,
{
    "https://restapimoonboard.ems-x.com"
}

/// The data-endpoint prefix: host, then the versioned interface path,
/// then the resource.
pub open spec fn api_path_spec(resource: Seq<char>) -> Seq<char> {
    "https://restapimoonboard.ems-x.com"@ + "/"@ + "v1/_moonapi"@ + "/"@ + resource
}

fn api_path(resource: &str) -> (s: String)
    ensures
        s@ == api_path_spec(resource@),
{
    let mut s = String::from_str(api_url());
    s.append("/");
    s.append("v1/_moonapi");
    s.append("/");
    s.append(resource);
    s
}

/// The login endpoint.
pub open spec fn token_url_spec() -> Seq<char> {
    "https://restapimoonboard.ems-x.com"@ + "/token"@
}

/// The login endpoint.
pub fn token_url() -> (s: String)
    ensures
        s@ == token_url_spec(),
{
    let mut s = String::from_str(api_url());
    s.append("/token");
    s
}

/// The catalog endpoint for one cursor position: the path ends with the
/// highest record identifier seen so far.
pub open spec fn problems_url_spec(cursor: i64) -> Seq<char> {
    api_path_spec("problems/v2/"@ + dec_str_i64(cursor as int))
}

/// The catalog endpoint for one cursor position.
pub fn problems_url(cursor: i64) -> (s: String)
    ensures
        s@ == problems_url_spec(cursor),
{
    let mut resource = String::from_str("problems/v2/");
    let digits = i64_to_string(cursor);
    resource.append(digits.as_str());
    api_path(resource.as_str())
}

/// The hold-setup lookup endpoint.
pub open spec fn holdsetups_url_spec() -> Seq<char> {
    api_path_spec("Holdsetup"@)
}

/// The hold-setup lookup endpoint.
pub fn holdsetups_url() -> (s: String)
    ensures
        s@ == holdsetups_url_spec(),
{
    api_path("Holdsetup")
}

/// The user-search endpoint.
pub open spec fn user_search_url_spec() -> Seq<char> {
    api_path_spec("Users/Search"@)
}

/// The user-search endpoint.
pub fn user_search_url() -> (s: String)
    ensures
        s@ == user_search_url_spec(),
{
    api_path("Users/Search")
}

/// The comment endpoint for one catalog record, on the website host.
pub open spec fn comments_url_spec(problem_id: i64) -> Seq<char> {
    "https://moonboard.com"@ + "/"@ + "Problems/GetComments?problemId="@ + dec_str_i64(
        problem_id as int,
    )
}

/// The comment endpoint for one catalog record.
pub fn comments_url(problem_id: i64) -> (s: String)
    ensures
        s@ == comments_url_spec(problem_id),
{
    let mut s = String::from_str(website_url());
    s.append("/");
    s.append("Problems/GetComments?problemId=");
    let digits = i64_to_string(problem_id);
    s.append(digits.as_str());
    s
}

/// The repeat endpoint, on the website host; the record is selected by
/// the query filter, not the path.
pub open spec fn repeats_url_spec() -> Seq<char> {
    "https://moonboard.com"@ + "/"@ + "Problems/GetRepeats"@
}

/// The repeat endpoint.
pub fn repeats_url() -> (s: String)
    ensures
        s@ == repeats_url_spec(),
{
    let mut s = String::from_str(website_url());
    s.append("/");
    s.append("Problems/GetRepeats");
    s
}

/// The path suffix selecting catalog updates since up to three instants,
/// each encoded as the upstream calendar's tick count: the inserted-since
/// instant always, then updated-since if given, then deleted-since if
/// given. A deleted-since instant without an updated-since instant is
/// rejected before any request is made; an instant the calendar
/// conversion cannot represent is rejected as out of range.
pub open spec fn updates_suffix_spec(
    inserted: Timestamp,
    updated: Option<Timestamp>,
    deleted: Option<Timestamp>,
) -> Result<Seq<char>, ApiError> {
    if updated is None && deleted is Some {
        Err(ApiError::MissingUpdatedDate)
    } else {
        match windows_date_opt(inserted.secs, inserted.nanos) {
            None => Err(ApiError::DateOutOfRange),
            Some(ins) => {
                let head = "/"@ + dec_str_i64(ins as int);
                match updated {
                    None => Ok(head),
                    Some(u) => match windows_date_opt(u.secs, u.nanos) {
                        None => Err(ApiError::DateOutOfRange),
                        Some(up) => {
                            let mid = head + "/"@ + dec_str_i64(up as int);
                            match deleted {
                                None => Ok(mid),
                                Some(d) => match windows_date_opt(d.secs, d.nanos) {
                                    None => Err(ApiError::DateOutOfRange),
                                    Some(de) => Ok(mid + "/"@ + dec_str_i64(de as int)),
                                },
                            }
                        },
                    },
                }
            },
        }
    }
}

/// Builds the update-range path suffix, checking the argument invariant
/// before anything is sent.
pub fn updates_suffix(
    inserted: &Timestamp,
    updated: &Option<Timestamp>,
    deleted: &Option<Timestamp>,
) -> (r: Result<String, ApiError>)
    ensures
        match r {
            Ok(s) => updates_suffix_spec(*inserted, *updated, *deleted) == Ok::<Seq<char>, ApiError>(
                s@,
            ),
            Err(e) => updates_suffix_spec(*inserted, *updated, *deleted) == Err::<
                Seq<char>,
                ApiError,
            >(e),
        },
{
    if updated.is_none() && deleted.is_some() {
        return Err(ApiError::MissingUpdatedDate);
    }
    let ins = match windows_date_from_instant(inserted) {
        Some(v) => v,
        None => {
            return Err(ApiError::DateOutOfRange);
        },
    };
    let mut s = String::from_str("/");
    let digits = i64_to_string(ins);
    s.append(digits.as_str());
    let u = match updated {
        None => {
            return Ok(s);
        },
        Some(u) => u,
    };
    let up = match windows_date_from_instant(u) {
        Some(v) => v,
        None => {
            return Err(ApiError::DateOutOfRange);
        },
    };
    s.append("/");
    let digits = i64_to_string(up);
    s.append(digits.as_str());
    let d = match deleted {
        None => {
            return Ok(s);
        },
        Some(d) => d,
    };
    let de = match windows_date_from_instant(d) {
        Some(v) => v,
        None => {
            return Err(ApiError::DateOutOfRange);
        },
    };
    s.append("/");
    let digits = i64_to_string(de);
    s.append(digits.as_str());
    Ok(s)
}

/// The catalog-update endpoint for one cursor position: the plain catalog
/// path followed by the update-range suffix.
pub open spec fn problem_updates_url_spec(cursor: i64, suffix: Seq<char>) -> Seq<char> {
    problems_url_spec(cursor) + suffix
}

/// The catalog-update endpoint for one cursor position.
pub fn problem_updates_url(cursor: i64, suffix: &str) -> (s: String)
    ensures
        s@ == problem_updates_url_spec(cursor, suffix@),
{
    let mut s = problems_url(cursor);
    s.append(suffix);
    s
}

/// The JSON body of a user search; an empty fragment is documented to
/// return the unfiltered set.
pub struct UserSearch {
    pub query: String,
}

/// Builds a user-search body.
pub fn user_search_body(pattern: &str) -> (u: UserSearch)
    ensures
        u.query@ == pattern@,
{
    UserSearch { query: String::from_str(pattern) }
}

/// The form-encoded query object of a page-number request.
pub struct PagedQuery {
    pub sort: String,
    pub page: i64,
    pub page_size: i64,
    pub group: String,
    pub filter: String,
}

impl PagedQuery {
    /// The query for one page of comments: no sort, no group, no filter,
    /// the fixed page size.
    pub fn comments_query(page: i64) -> (q: PagedQuery)
        ensures
            q.sort@ == Seq::<char>::empty(),
            q.page == page,
            q.page_size == PAGE_SIZE,
            q.group@ == Seq::<char>::empty(),
            q.filter@ == Seq::<char>::empty(),
    {
        PagedQuery {
            sort: String::new(),
            page,
            page_size: PAGE_SIZE,
            group: String::new(),
            filter: String::new(),
        }
    }

    /// The query for one page of repeats of one catalog record: as the
    /// comment query, plus an equality filter on the record identifier.
    pub fn repeats_query(page: i64, problem_id: i64) -> (q: PagedQuery)
        ensures
            q.sort@ == Seq::<char>::empty(),
            q.page == page,
            q.page_size == PAGE_SIZE,
            q.group@ == Seq::<char>::empty(),
            q.filter@ == "Id~eq~"@ + dec_str_i64(problem_id as int),
    {
        let mut filter = String::from_str("Id~eq~");
        let digits = i64_to_string(problem_id);
        filter.append(digits.as_str());
        PagedQuery {
            sort: String::new(),
            page,
            page_size: PAGE_SIZE,
            group: String::new(),
            filter,
        }
    }
}

} // verus!
