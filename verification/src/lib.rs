//! Security boundary of a location-sharing service: signed identity tokens,
//! the request guard that enforces them, the administrator's credential check,
//! and the pipeline that admits, names and serves uploaded images.
//!
//! Every function here is verified. Calls into `jsonwebtoken`, `chrono`,
//! `image` and `uuid` stand behind small wrappers whose contracts are trusted.

mod clock;
pub mod credentials;
pub mod guard;
pub mod media;
pub mod status;
pub mod text;
pub mod token;
