//! A live waiting-list ("queue") for a streaming host, kept by a single
//! actor task and reached only through typed commands.
//!
//! The heart of the crate is [`queue::QueueState`]: the ordered entries plus
//! an open/closed flag, with every operation specified against a
//! mathematical model of the state. The surrounding modules hold the pure
//! parts of the service around the actor: chat notifications, web-facing
//! helpers, and the token handling of the login flow.

pub mod accounts;
pub mod actor;
pub mod auth;
pub mod laws;
pub mod notify;
pub mod web;
pub mod queue;
