//! Delivery of task updates between a browser front end and a remote agent.
//!
//! The crate holds the decisions of the front end: how a submitted form
//! becomes a message, in which order a submission talks to the agent, how
//! often a task is fetched before the page gives up, when a live event
//! stream lets go of its subscription, and which webhook calls are accepted.
//! Network calls, waits and rendering are left to the caller, which performs
//! the step a state machine here asks for and reports back what happened.

pub mod assembler;
pub mod config;
pub mod encoding;
pub mod error;
pub mod expense;
pub mod fetcher;
pub mod form;
pub mod gateway;
pub mod ident;
pub mod listing;
pub mod message;
pub mod route;
pub mod stream;
pub mod text;
pub mod webhook;
