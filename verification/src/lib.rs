//! Request handling for a small service that keeps each request's content in
//! a transient file while it is being processed.
//!
//! Two handlers are described. The vulnerable one keeps the content at one
//! fixed, guessable path that every request shares. The secure one keeps it
//! in a uniquely named file that only the owner can open and that is
//! released on every way out. Neither handler touches a file or a clock
//! itself: each is a function from the stage a request is in and the outcome
//! of the action that was pending to the next stage and the next action,
//! and the caller performs the actions.

pub mod action;
pub mod handlers;
pub mod response;
pub mod runs;
pub mod stage;
