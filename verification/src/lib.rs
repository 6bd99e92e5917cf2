//! Exchange of a locally-held identity for temporary, browser-usable AWS
//! console access.
//!
//! The crate has two parts, run in order by a caller:
//!
//! 1. a configuration resolver, which merges command-line values with a
//!    persisted configuration file into one complete, validated record, and
//! 2. a credential exchange pipeline, which turns that record plus the
//!    temporary credentials returned by a role assumption into the request
//!    URL for a federation sign-in token and, from the service's answer,
//!    into the final console login URL.
//!
//! All network and terminal work stays with the caller; the functions here
//! compute on plain values.

pub mod config;
pub mod credentials;
pub mod encode;
pub mod federation;
pub mod strutil;

pub use credentials::UrlCredentials;

