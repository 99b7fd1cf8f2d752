//! A single-view post list: one fetch on startup, a loading indicator while it
//! is in flight, the list once it completes, and an alert when it fails.
//!
//! The library holds the decisions: the record type, the rule on response
//! status, the state machine that reacts to messages and names the effects to
//! perform, and the pure render from state to a structural view.
pub mod component;
pub mod fetch;
pub mod html;
pub mod laws;
pub mod post;
