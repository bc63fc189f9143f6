//! The launch-info record that `serve` writes to
//! `<project_root>/.knownow/launch.json` so that tooling can find the launch
//! URL without reading the server's output.

use vstd::prelude::*;

verus! {

/// The version of the launch-info record's shape.
pub const LAUNCH_INFO_SCHEMA_VERSION: u32 = 1;

/// Where and how a running server can be opened.
#[derive(Debug)]
pub struct LaunchInfo {
    pub version: u32,
    pub scheme: String,
    pub host: String,
    pub port: u16,
    pub token: String,
    pub url: String,
    pub pid: u32,
}

impl LaunchInfo {
    /// The record for a server bound to `host` (the address as text) and
    /// `port`, whose launch token is `token` and launch URL `url`, running
    /// as process `pid`. The scheme is always `http`.
    pub fn new(host: String, port: u16, token: String, url: String, pid: u32) -> (r: Self)
        ensures
            r.version == LAUNCH_INFO_SCHEMA_VERSION,
            r.scheme@ == "http"@,
            r.host == host,
            r.port == port,
            r.token == token,
            r.url == url,
            r.pid == pid,
    {
        LaunchInfo {
            version: LAUNCH_INFO_SCHEMA_VERSION,
            scheme: "http".to_owned(),
            host,
            port,
            token,
            url,
            pid,
        }
    }
}

} // verus!
