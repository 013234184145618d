//! Interactive self-service management of a community's role memberships and
//! channel visibility grants.
//!
//! The heart of the crate is a per-user session: a small state machine that
//! walks the user through a menu hierarchy (category, then add/remove/change,
//! then item selection), computes which items are legally selectable at each
//! step, turns the session state into a UI description, and translates a
//! selection into a mutation request for the hosting platform to perform.

pub mod config;
pub mod numbers;
pub mod inputs;
pub mod session;
pub mod handlers;
pub mod lists;
pub mod processor;
pub mod lookup;
pub mod generators;
