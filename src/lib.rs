//! Read-only status interface of a reverse-proxy cluster: request dispatch,
//! the fixed replies, and the JSON listing of targets and their snapshots.

pub mod routing;
pub mod reply;
pub mod listing;
pub mod service;
