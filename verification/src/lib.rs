//! A minimal HTTP/1.1 request-dispatch engine: exact request parsing, a
//! route table with static-path containment, and response framing, each with
//! a verified contract over its mathematical model.
//!
//! Sockets and the filesystem stay with the caller: the table's `apply`
//! decides, step by step, what to respond, which file to read, or which path
//! to canonicalize and probe, and the caller performs the action and hands
//! the outcome back.
pub mod codes;
pub mod request;
pub mod response;
pub mod route;
pub mod strutil;
