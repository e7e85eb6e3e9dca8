//! The relational records the web front reads.

pub mod navaccess;
pub mod user;
