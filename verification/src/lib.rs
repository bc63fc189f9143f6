//! Verified core of the know-now local server: launch URLs, launch-info
//! records, serve-time policy and the decisions behind the read-only API.

pub mod text;
pub mod urls;
pub mod path;
pub mod layout;
pub mod launch_info;
pub mod session;
pub mod serve;
pub mod api;
