//! `session-url`: which launch URL to hand out for a running server.

use vstd::prelude::*;
use crate::launch_info::LaunchInfo;
use crate::urls::{retarget_url, retargeted, RetargetError};

verus! {

/// The options of `know-now session-url`.
#[derive(Debug)]
pub struct SessionUrlArgs {
    /// Rewrite the URL's scheme/host/port (e.g. `http://localhost:5173` for
    /// cross-origin development behind a proxy); the
    /// `/__open?launch_token=...` path and query are preserved.
    pub origin: Option<String>,
    /// Print the answer as JSON for tooling.
    pub json: bool,
}

/// The URL to hand out: the recorded launch URL, or the launch link moved
/// onto the requested origin.
pub fn resolve_session_url(info: &LaunchInfo, args: &SessionUrlArgs) -> (r: Result<String, RetargetError>)
    ensures
        args.origin is None ==> r == Ok::<String, RetargetError>(info.url),
        args.origin matches Some(o) ==> {
            &&& (r is Ok <==> retargeted(info.token@, o@) is Some)
            &&& (r matches Ok(url) ==> retargeted(info.token@, o@) == Some(url@))
            &&& (r matches Err(RetargetError::MissingScheme { origin }) ==> origin@ == o@)
        },
{
    match &args.origin {
        Some(origin) => retarget_url(info.token.as_str(), origin.as_str()),
        None => Ok(info.url.clone()),
    }
}

} // verus!
