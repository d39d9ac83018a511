//! Request-dispatch core of a self-hosted application portal.
//!
//! The library validates untrusted path and name strings, maps internal
//! failures onto HTTP responses under two audience policies, drives the
//! login/signup state machine with its first-run administrator bootstrap,
//! authorizes application launches through an exit-code protocol, and
//! parses routes for the dispatcher.  All I/O (filesystem, subprocesses,
//! the user store) stays outside; the library works on plain values and
//! states what it decides in contracts.

pub mod text;
pub mod path;
pub mod names;
pub mod response;
pub mod auth;
pub mod login;
pub mod apps;
pub mod static_files;
pub mod dispatch;
