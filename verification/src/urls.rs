//! Launch URLs: the single-use `/__open?launch_token=...` link that the
//! server prints at startup, and its retargeting onto another origin.

use vstd::prelude::*;
use crate::text::{trim_end_char, trim_end_matches_char, starts_with_str};

verus! {

/// The path and query that exchange a launch token for a session.
pub open spec fn launch_path_of(token: Seq<char>) -> Seq<char> {
    "/__open?launch_token="@ + token
}

/// Whether an origin names the `http` or `https` scheme.
pub open spec fn has_web_scheme(origin: Seq<char>) -> bool {
    "http://"@.is_prefix_of(origin) || "https://"@.is_prefix_of(origin)
}

/// The origin with its trailing slashes removed.
pub open spec fn trimmed_origin(origin: Seq<char>) -> Seq<char> {
    trim_end_char(origin, '/')
}

/// The launch link retargeted onto `origin`, when the origin is accepted.
pub open spec fn retargeted(token: Seq<char>, origin: Seq<char>) -> Option<Seq<char>> {
    if has_web_scheme(trimmed_origin(origin)) {
        Some(trimmed_origin(origin) + launch_path_of(token))
    } else {
        None
    }
}

/// Why an origin cannot carry a launch link.
#[derive(Debug)]
pub enum RetargetError {
    /// The origin does not start with `http://` or `https://`.
    MissingScheme { origin: String },
}

/// The text shown for a refused origin.
pub open spec fn missing_scheme_message(origin: Seq<char>) -> Seq<char> {
    "--origin must start with http:// or https://; got: "@ + origin
}

impl RetargetError {
    /// The human-readable description of the error.
    pub fn message(&self) -> (r: String)
        ensures
            match self {
                RetargetError::MissingScheme { origin } => r@ == missing_scheme_message(origin@),
            },
    {
        match self {
            RetargetError::MissingScheme { origin } => {
                let mut m = "--origin must start with http:// or https://; got: ".to_owned();
                m.append(origin.as_str());
                m
            },
        }
    }
}

/// The path and query that exchange `token` for a session cookie.
pub fn launch_path(token: &str) -> (r: String)
    ensures
        r@ == launch_path_of(token@),
{
    let mut p = "/__open?launch_token=".to_owned();
    p.append(token);
    p
}

/// The base URL of a server listening on `addr` (an `ip:port` text).
pub fn base_url(addr: &str) -> (r: String)
    ensures
        r@ == "http://"@ + addr@,
{
    let mut u = "http://".to_owned();
    u.append(addr);
    u
}

/// The launch URL under `base`: the base followed by the launch path.
pub fn launch_url(base: &str, token: &str) -> (r: String)
    ensures
        r@ == base@ + launch_path_of(token@),
{
    let mut u = base.to_owned();
    let p = launch_path(token);
    u.append(p.as_str());
    u
}

/// Rewrites the scheme, host and port of the launch URL to `origin`,
/// keeping the `/__open?launch_token=...` path and query. Trailing slashes
/// of the origin are dropped; an origin without an `http://` or
/// `https://` scheme is refused.
pub fn retarget_url(token: &str, origin: &str) -> (r: Result<String, RetargetError>)
    ensures
        r is Ok <==> retargeted(token@, origin@) is Some,
        r matches Ok(url) ==> retargeted(token@, origin@) == Some(url@),
        has_web_scheme(trimmed_origin(origin@)) ==> (r matches Ok(url)
            && url@ == trimmed_origin(origin@) + launch_path_of(token@)),
        !has_web_scheme(trimmed_origin(origin@)) ==> (r matches Err(RetargetError::MissingScheme { origin: o })
            && o@ == origin@),
{
    let trimmed = trim_end_matches_char(origin, '/');
    if !(starts_with_str(trimmed, "http://") || starts_with_str(trimmed, "https://")) {
        return Err(RetargetError::MissingScheme { origin: origin.to_owned() });
    }
    Ok(launch_url(trimmed, token))
}

/// Trailing slashes never change the result of trimming.
proof fn lemma_trim_trailing_slash(origin: Seq<char>)
    ensures
        trimmed_origin(origin.push('/')) == trimmed_origin(origin),
{
    assert(origin.push('/').drop_last() =~= origin);
}

/// Trimming leaves a text alone when it does not end in a slash.
proof fn lemma_trim_no_trailing_slash(s: Seq<char>)
    requires
        s.len() == 0 || s.last() != '/',
    ensures
        trimmed_origin(s) == s,
{
}

/// A trimmed origin never ends in a slash.
proof fn lemma_trimmed_has_no_trailing_slash(s: Seq<char>)
    ensures
        trimmed_origin(s).len() == 0 || trimmed_origin(s).last() != '/',
    decreases s.len(),
{
    if s.len() > 0 && s.last() == '/' {
        lemma_trimmed_has_no_trailing_slash(s.drop_last());
    }
}

/// Appending a slash to an origin does not change where a launch link is
/// retargeted to, nor whether the origin is accepted.
pub proof fn law_retarget_ignores_trailing_slash(token: Seq<char>, origin: Seq<char>)
    ensures
        retargeted(token, origin.push('/')) == retargeted(token, origin),
{
    lemma_trim_trailing_slash(origin);
}

/// A retargeted link keeps the `/__open?launch_token=...` path and query,
/// starts with `http://` or `https://`, and its origin part carries no
/// trailing slash.
pub proof fn law_retarget_preserves_launch_path(token: Seq<char>, origin: Seq<char>)
    requires
        retargeted(token, origin) is Some,
    ensures
        ({
            let url = retargeted(token, origin)->0;
            let base = trimmed_origin(origin);
            &&& ("/__open?launch_token="@ + token).is_suffix_of(url)
            &&& url == base + "/__open?launch_token="@ + token
            &&& ("http://"@.is_prefix_of(url) || "https://"@.is_prefix_of(url))
            &&& (base.len() == 0 || base.last() != '/')
        }),
{
    let url = retargeted(token, origin)->0;
    let base = trimmed_origin(origin);
    let lp = launch_path_of(token);
    assert(url.subrange(url.len() - lp.len(), url.len() as int) =~= lp);
    lemma_trimmed_has_no_trailing_slash(origin);
    if "http://"@.is_prefix_of(base) {
        assert(url.subrange(0, "http://"@.len() as int) =~= base.subrange(0, "http://"@.len() as int));
    } else {
        assert(url.subrange(0, "https://"@.len() as int) =~= base.subrange(0, "https://"@.len() as int));
    }
}

/// Trimming removes exactly the trailing run of `c`: what is left opens the
/// text, does not end in `c`, and everything cut off is `c`.
pub proof fn law_trim_end_char(s: Seq<char>, c: char)
    ensures
        trim_end_char(s, c).is_prefix_of(s),
        trim_end_char(s, c).len() == 0 || trim_end_char(s, c).last() != c,
        forall|i: int| trim_end_char(s, c).len() <= i < s.len() ==> s[i] == c,
    decreases s.len(),
{
    if s.len() > 0 && s.last() == c {
        law_trim_end_char(s.drop_last(), c);
        let t = trim_end_char(s.drop_last(), c);
        assert(t =~= s.subrange(0, t.len() as int));
        assert forall|i: int| t.len() <= i < s.len() implies s[i] == c by {
            if i < s.len() - 1 {
                assert(s.drop_last()[i] == s[i]);
            }
        }
    } else {
        assert(s =~= s.subrange(0, s.len() as int));
    }
}

/// An origin is accepted exactly when, with its trailing slashes removed,
/// it starts with `http://` or `https://`; the link then is that origin
/// followed by the launch path and query.
pub proof fn law_retarget_accepts_exactly_web_origins(token: Seq<char>, origin: Seq<char>)
    ensures
        retargeted(token, origin) is Some <==> ("http://"@.is_prefix_of(trim_end_char(origin, '/'))
            || "https://"@.is_prefix_of(trim_end_char(origin, '/'))),
        retargeted(token, origin) is Some ==> retargeted(token, origin)->0
            == trim_end_char(origin, '/') + "/__open?launch_token="@ + token,
{
}

/// Retargeting the launch link onto the server's own base URL gives back
/// the launch URL that the server printed.
pub proof fn law_retarget_onto_own_origin(token: Seq<char>, addr: Seq<char>)
    requires
        addr.len() > 0,
        addr.last() != '/',
    ensures
        retargeted(token, "http://"@ + addr) == Some(("http://"@ + addr) + launch_path_of(token)),
{
    reveal_strlit("http://");
    let origin = "http://"@ + addr;
    lemma_trim_no_trailing_slash(origin);
    assert(origin.subrange(0, "http://"@.len() as int) =~= "http://"@);
}

} // verus!
