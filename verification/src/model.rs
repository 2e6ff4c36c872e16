//! The records of users, games, teams, challenges and submissions that the
//! request rules read, holding the values the rules need as plain fields.

use vstd::prelude::*;

verus! {

/// The permission group of a user.
#[derive(PartialEq, Eq, Structural, Clone, Copy, Debug)]
pub enum Group {
    Banned,
    Guest,
    User,
    Admin,
}

/// A user account.
pub struct User {
    pub id: i64,
    pub username: String,
    pub name: String,
    pub email: String,
    pub is_verified: bool,
    pub group: Group,
    pub hashed_password: String,
    pub description: Option<String>,
    pub avatar_hash: Option<String>,
}

} // verus!

verus! {

/// A game (contest) as the rules read it.
pub struct GameDetail {
    pub id: i64,
    pub title: String,
    pub sketch: Option<String>,
    pub description: Option<String>,
    pub enabled: bool,
    pub public: bool,
    pub paused: bool,
    pub blacked_out: bool,
    pub writeup_required: bool,
    pub member_limit_min: i64,
    pub member_limit_max: i64,
    pub started_at: i64,
    pub frozen_at: i64,
    pub ended_at: i64,
    pub icon_hash: Option<String>,
    pub poster_hash: Option<String>,
    pub created_at: i64,
}

/// The review state of a team in a game.
#[derive(PartialEq, Eq, Structural, Clone, Copy, Debug)]
pub enum TeamState {
    Banned,
    Preparing,
    Pending,
    Passed,
}

/// A team of a game.
pub struct TeamView {
    pub id: i64,
    pub game_id: i64,
    pub name: String,
    pub state: TeamState,
    pub avatar_hash: Option<String>,
    pub deleted_at: Option<i64>,
}

/// A challenge as the rules read it.
pub struct ChallengeDetail {
    pub id: i64,
    pub public: bool,
    /// Whether the challenge defines a container instance.
    pub has_instance: bool,
    /// Whether the challenge has at least one flag.
    pub has_flag: bool,
}

/// An e-mail address of a user.
pub struct Email {
    pub user_id: i64,
    pub email: String,
    pub verified: bool,
}

/// The judgement of a flag submission.
#[derive(PartialEq, Eq, Structural, Clone, Copy, Debug)]
pub enum Status {
    Pending,
    Correct,
    Incorrect,
    Cheat,
    Invalid,
}

/// A flag submission.
#[derive(Clone, Copy)]
pub struct Submission {
    pub id: i64,
    pub user_id: i64,
    pub team_id: Option<i64>,
    pub game_id: Option<i64>,
    pub challenge_id: i64,
    pub status: Status,
}

/// A user's note on a challenge.
pub struct Note {
    pub id: i64,
    pub user_id: i64,
    pub challenge_id: i64,
}

/// An identity provider.
pub struct Idp {
    pub id: i64,
    pub enabled: bool,
    pub avatar_hash: Option<String>,
}

} // verus!
