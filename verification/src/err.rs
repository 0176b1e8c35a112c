//! The failure taxonomy of an ingestion run. Every fatal condition aborts
//! the whole in-progress fetch; none is retried.

use vstd::prelude::*;
use crate::text::dec_str_i64;

verus! {

/// Why an ingestion operation failed.
#[derive(PartialEq, Eq, Clone, Debug)]
pub enum ApiError {
    /// The token endpoint answered with an `invalid_grant` error record;
    /// the description is the server's own wording.
    Auth { description: String },
    /// A network-level failure, detail as reported by the transport.
    Transport { detail: String },
    /// A response did not decode into the declared shape: unknown fields,
    /// an unexpected enum value, or a malformed field.
    Decode { detail: String },
    /// A deleted-since timestamp was given without an updated-since
    /// timestamp, which the upstream interface declares impossible.
    MissingUpdatedDate,
    /// A cursor fetch that has produced no items at all; the cursor value
    /// is the one the empty answer was requested with.
    NoData { cursor: i64 },
    /// A token refresh was needed. Exchanging the refresh credential is
    /// deliberately not implemented: the failure is loud rather than a
    /// silent fall-back to a fresh login.
    RefreshUnsupported,
    /// An instant that the upstream calendar conversion cannot represent.
    DateOutOfRange,
}

/// The human-readable description of each failure.
pub open spec fn message_spec(e: ApiError) -> Seq<char> {
    match e {
        ApiError::Auth { description } => "Token error: invalid_grant: "@ + description@,
        ApiError::Transport { detail } => "transport error: "@ + detail@,
        ApiError::Decode { detail } => "decode error: "@ + detail@,
        ApiError::MissingUpdatedDate => "Got a date_deleted, but no date_updated, that is not possible"@,
        ApiError::NoData { cursor } => "Got no problems from problem_id "@ + dec_str_i64(
            cursor as int,
        ),
        ApiError::RefreshUnsupported => "token refresh is not implemented"@,
        ApiError::DateOutOfRange => "date out of range for the upstream calendar"@,
    }
}

impl ApiError {
    /// Renders the failure for display.
    pub fn message(&self) -> (s: String)
        ensures
            s@ == message_spec(*self),
    {
        match self {
            ApiError::Auth { description } => {
                let mut s = String::from_str("Token error: invalid_grant: ");
                s.append(description.as_str());
                s
            },
            ApiError::Transport { detail } => {
                let mut s = String::from_str("transport error: ");
                s.append(detail.as_str());
                s
            },
            ApiError::Decode { detail } => {
                let mut s = String::from_str("decode error: ");
                s.append(detail.as_str());
                s
            },
            ApiError::MissingUpdatedDate => String::from_str(
                "Got a date_deleted, but no date_updated, that is not possible",
            ),
            ApiError::NoData { cursor } => {
                let mut s = String::from_str("Got no problems from problem_id ");
                let digits = crate::text::i64_to_string(*cursor);
                s.append(digits.as_str());
                s
            },
            ApiError::RefreshUnsupported => String::from_str("token refresh is not implemented"),
            ApiError::DateOutOfRange => String::from_str(
                "date out of range for the upstream calendar",
            ),
        }
    }
}

} // verus!
