//! The typed response shapes of the data endpoints, held as plain values:
//! dates as instants or day counts, identifiers as strings, colors as byte
//! triples. The hold-setup lookup shape is the one response kept outside
//! the library, because its hold coordinates are floating point.

use vstd::prelude::*;
use crate::datetime::{DayDate, Timestamp};
use crate::paginate::CursorKey;

verus! {

pub type BoulderGrade = String;

pub type Rating = i64;

pub type MoveCoordinate = String;

pub type ProblemID = i64;

pub type HoldSetID = i64;

pub type HoldSetupID = i64;

/// The way a catalog record names its hold sets.
#[derive(Clone, Debug, PartialEq, Eq)]
pub struct HoldSetFromProblem {
    pub api_id: HoldSetID,
    pub description: String,
    pub locations: Option<()>,
}

/// A hold set of a record, tagged with the record it came from, ready for
/// persistence.
#[derive(Clone, Debug, PartialEq, Eq)]
pub struct HoldSetFromProblemWithID {
    pub problem_id: ProblemID,
    pub api_id: HoldSetID,
    pub description: String,
    pub locations: Option<()>,
}

/// The way a catalog record names its hold setup.
#[derive(Clone, Debug, PartialEq, Eq)]
pub struct HoldSetupFromProblem {
    pub api_id: HoldSetupID,
    pub description: String,
    pub holdsets: Option<()>,
}

/// The identifier of the hold setup a catalog record names.
pub fn setup_id_from_hold_setup(setup: HoldSetupFromProblem) -> (id: HoldSetupID)
    ensures
        id == setup.api_id,
{
    setup.api_id
}

/// The climbing method a catalog record declares.
#[derive(PartialEq, Eq, Structural, Clone, Copy, Debug)]
pub enum BoulderMethod {
    FeetFollowHands,
    ScrewOnsOnly,
    FeetFollowHandsAndScrewOns,
    FootlessAndKickBoard,
}

/// One move of a catalog record.
#[derive(Clone, Debug, PartialEq, Eq)]
pub struct Move {
    pub description: MoveCoordinate,
    pub is_end: bool,
    pub is_start: bool,
    pub problem_id: ProblemID,
}

/// One catalog record (a climbing route).
#[derive(Clone, Debug, PartialEq, Eq)]
pub struct Problem {
    pub api_id: ProblemID,
    pub date_deleted: Option<Timestamp>,
    pub date_inserted: Timestamp,
    pub date_updated: Option<Timestamp>,
    pub downgraded: bool,
    pub grade: BoulderGrade,
    pub has_beta_video: bool,
    pub holdsets: Vec<HoldSetFromProblem>,
    pub holdsetup: HoldSetupFromProblem,
    pub is_benchmark: bool,
    pub is_master: bool,
    pub method: BoulderMethod,
    pub moon_board_configuration_id: i64,
    pub moves: Vec<Move>,
    pub name: String,
    pub repeats: i64,
    pub setby: String,
    pub setby_id: String,
    pub upgraded: bool,
    pub user_grade: Option<BoulderGrade>,
    pub user_rating: Option<Rating>,
}

impl CursorKey for Problem {
    /// Cursor pagination of the catalog advances on the record identifier.
    open spec fn key_spec(&self) -> i64 {
        self.api_id
    }

    fn key(&self) -> (k: i64)
        ensures
            k == self.key_spec(),
    {
        self.api_id
    }
}

/// One cursor page of catalog records: the data and the count of records
/// remaining beyond it.
#[derive(Debug)]
pub struct Problems {
    pub total: i64,
    pub data: Vec<Problem>,
}

/// Tags a hold set with the record it belongs to.
pub fn holdset_add_problemid(problem: &Problem, hold_set: &HoldSetFromProblem) -> (r:
    HoldSetFromProblemWithID)
    ensures
        r.problem_id == problem.api_id,
        r.api_id == hold_set.api_id,
        r.description@ == hold_set.description@,
        r.locations == hold_set.locations,
{
    let api_id = hold_set.api_id;
    let description = hold_set.description.clone();
    let locations = hold_set.locations;
    let problem_id = problem.api_id;
    HoldSetFromProblemWithID { problem_id, api_id, description, locations }
}

/// One account record answered by the user search.
#[derive(Clone, Debug, PartialEq, Eq)]
pub struct User {
    pub action_by_moon_id: Option<()>,
    pub date_deleted: Option<Timestamp>,
    pub date_inserted: Option<Timestamp>,
    pub date_updated: Option<Timestamp>,
    pub firstname: String,
    pub id: String,
    pub lastname: String,
    pub nickname: String,
    pub status: i64,
}

/// How many tries a repeat reports.
#[derive(PartialEq, Eq, Structural, Clone, Copy, Debug)]
pub enum NumberOfTries {
    Flashed,
    MoreThanThreeTries,
    ThirdTry,
    SecondTry,
    Project,
}

/// The account summary embedded in a comment or repeat.
#[derive(Clone, Debug, PartialEq, Eq)]
pub struct UserFromRepeatOrComment {
    pub can_share_data: bool,
    pub city: Option<String>,
    pub country: Option<String>,
    pub firstname: String,
    pub id: String,
    pub lastname: String,
    pub nickname: String,
    pub profile_image_url: String,
}

/// One comment or repeat of a catalog record.
#[derive(Clone, Debug, PartialEq, Eq)]
pub struct RepeatOrComment {
    pub comment: Option<String>,
    pub attempts: i64,
    pub date_climbed: Timestamp,
    pub date_climbed_as_string: DayDate,
    pub date_inserted: Option<Timestamp>,
    pub grade: Option<BoulderGrade>,
    pub id: i64,
    pub is_suggested_benchmark: bool,
    pub moon_board: Option<()>,
    pub number_of_tries: NumberOfTries,
    pub problem: Option<()>,
    pub rating: Option<Rating>,
    pub user: Option<UserFromRepeatOrComment>,
}

} // verus!
