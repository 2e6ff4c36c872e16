//! Request handling rules of the CdsCTF web API: authorization and validation
//! decisions, cache keys and storage paths, error replies, and the parsing of
//! instance metadata, each stated as a contract over plain values.

pub mod util;

pub mod model;
pub mod traits;
pub mod router;
