//! Decision logic for moving a repository's CI configuration from
//! travis-ci.org to travis-ci.com and reconciling GitHub branch protection.
//!
//! Everything that talks to the network lives in the application around this
//! library; the library decides what to request next and what to send.

mod text;

pub mod contexts;
pub mod paths;
pub mod pagination;
pub mod link;
pub mod migration;
pub mod protocol;
pub mod request;
