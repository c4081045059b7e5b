//! Verified request logic of a small document platform: account
//! registration, authentication, collection management and token refresh.
//!
//! Every operation that talks to the database or to an outside service is
//! written as a state machine: a `start` function gives the first action, a
//! `step` function takes the outcome of that action and gives the next one,
//! until a `Respond`/`Finish` action carries the final answer.  The caller
//! performs the actions (database calls, hashing, token signing) and feeds
//! the outcomes back.
pub mod db_types;
pub mod model;
pub mod accounts;
pub mod auth;
pub mod collections;
pub mod tokens;
pub mod routes;
