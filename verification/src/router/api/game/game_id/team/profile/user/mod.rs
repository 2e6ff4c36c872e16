//! Leaving the caller's team in the envelope-style API (the rule is
//! [`check_can_leave`]).

pub use crate::router::api::game::game_id::team::us::user::check_can_leave;
