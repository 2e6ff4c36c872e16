//! One pod in the envelope-style API.

pub mod containers;
