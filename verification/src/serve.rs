//! `serve`: the bind address, the guard on exposing write endpoints to the
//! network, whether to open a browser, and the links printed at startup.

use vstd::prelude::*;
use crate::urls::{base_url, launch_url, launch_path_of};
use crate::launch_info::{LaunchInfo, LAUNCH_INFO_SCHEMA_VERSION};

verus! {

/// An IP address to bind to: four octets, or eight 16-bit segments.
#[derive(Clone, Copy, Debug)]
pub enum HostAddr {
    V4([u8; 4]),
    V6([u16; 8]),
}

/// Whether the address is the loopback address `127.0.0.1` or `::1`.
pub open spec fn is_loopback(host: HostAddr) -> bool {
    match host {
        HostAddr::V4(o) => o@ == seq![127u8, 0u8, 0u8, 1u8],
        HostAddr::V6(s) => s@ == seq![0u16, 0u16, 0u16, 0u16, 0u16, 0u16, 0u16, 1u16],
    }
}

/// The loopback addresses are exactly `127.0.0.1` and `::1`: every octet
/// or segment is fixed.
pub proof fn law_loopback_is_exactly_localhost(host: HostAddr)
    ensures
        host matches HostAddr::V4(o) ==> (is_loopback(host) <==> (o[0] == 127 && o[1] == 0
            && o[2] == 0 && o[3] == 1)),
        host matches HostAddr::V6(s) ==> (is_loopback(host) <==> (s[0] == 0 && s[1] == 0
            && s[2] == 0 && s[3] == 0 && s[4] == 0 && s[5] == 0 && s[6] == 0 && s[7] == 1)),
{
    match host {
        HostAddr::V4(o) => {
            if o[0] == 127 && o[1] == 0 && o[2] == 0 && o[3] == 1 {
                assert(o@ =~= seq![127u8, 0u8, 0u8, 1u8]);
            }
        },
        HostAddr::V6(s) => {
            if s[0] == 0 && s[1] == 0 && s[2] == 0 && s[3] == 0 && s[4] == 0 && s[5] == 0
                && s[6] == 0 && s[7] == 1 {
                assert(s@ =~= seq![0u16, 0u16, 0u16, 0u16, 0u16, 0u16, 0u16, 1u16]);
            }
        },
    }
}

/// A write-enabled server off loopback without the network opt-in is
/// refused for every address other than `127.0.0.1` and `::1`.
pub proof fn law_generate_refused_off_localhost(args: ServeArgs)
    requires
        args.allow_generate,
        !args.allow_generate_on_network,
        args.host matches HostAddr::V4(o) ==> !(o[0] == 127 && o[1] == 0 && o[2] == 0 && o[3] == 1),
        args.host matches HostAddr::V6(s) ==> !(s[0] == 0 && s[1] == 0 && s[2] == 0 && s[3] == 0
            && s[4] == 0 && s[5] == 0 && s[6] == 0 && s[7] == 1),
    ensures
        exposes_generate_unasked(args),
{
    law_loopback_is_exactly_localhost(args.host);
}

/// How the server is started.
#[derive(Debug)]
pub struct ServerConfig {
    pub host: HostAddr,
    pub port: u16,
    pub allow_generate: bool,
    pub project_root: String,
    /// When true, `<project_root>/.knownow/launch.json` is written on start
    /// and removed on shutdown.
    pub persist_launch_info: bool,
}

impl ServerConfig {
    /// Whether the server binds to the loopback address.
    pub fn is_localhost(&self) -> (r: bool)
        ensures
            r == is_loopback(self.host),
            self.host matches HostAddr::V4(o) ==> (r <==> (o[0] == 127 && o[1] == 0 && o[2] == 0
                && o[3] == 1)),
            self.host matches HostAddr::V6(s) ==> (r <==> (s[0] == 0 && s[1] == 0 && s[2] == 0
                && s[3] == 0 && s[4] == 0 && s[5] == 0 && s[6] == 0 && s[7] == 1)),
    {
        match &self.host {
            HostAddr::V4(o) => {
                let r = o[0] == 127 && o[1] == 0 && o[2] == 0 && o[3] == 1;
                assert(r == (o@ =~= seq![127u8, 0u8, 0u8, 1u8]));
                r
            },
            HostAddr::V6(s) => {
                let r = s[0] == 0 && s[1] == 0 && s[2] == 0 && s[3] == 0 && s[4] == 0 && s[5] == 0
                    && s[6] == 0 && s[7] == 1;
                assert(r == (s@ =~= seq![0u16, 0u16, 0u16, 0u16, 0u16, 0u16, 0u16, 1u16]));
                r
            },
        }
    }
}

/// The options of `know-now serve`.
#[derive(Debug)]
pub struct ServeArgs {
    /// Host address to bind to.
    pub host: HostAddr,
    /// Port to bind to.
    pub port: u16,
    /// Enable write endpoints (generation trigger).
    pub allow_generate: bool,
    /// Required with `allow_generate` when the host is not the loopback address.
    pub allow_generate_on_network: bool,
    /// Do not open the dashboard in a browser at startup.
    pub no_browser: bool,
}

/// Why `serve` refuses to start.
#[derive(Debug)]
pub enum ServeError {
    /// Write endpoints were asked for on a non-loopback address without
    /// the explicit network opt-in.
    GenerateOnNetworkRequired,
}

/// The text shown when write endpoints would be exposed to the network.
pub open spec fn generate_on_network_message() -> Seq<char> {
    "--allow-generate on a non-localhost address requires --allow-generate-on-network"@
}

impl ServeError {
    /// The human-readable description of the error.
    pub fn message(&self) -> (r: String)
        ensures
            r@ == generate_on_network_message(),
    {
        "--allow-generate on a non-localhost address requires --allow-generate-on-network".to_owned()
    }
}

/// What `serve` goes on with once its options are accepted.
#[derive(Debug)]
pub struct ServePlan {
    pub config: ServerConfig,
    /// The bind address is not the loopback address: warn that the server
    /// is not meant as an authenticated multi-user deployment.
    pub warn_public_bind: bool,
}

/// Whether the options ask for write endpoints on the network without the
/// explicit opt-in.
pub open spec fn exposes_generate_unasked(args: ServeArgs) -> bool {
    args.allow_generate && !is_loopback(args.host) && !args.allow_generate_on_network
}

/// Checks the options of `serve` and builds the server's configuration for
/// the project at `project_root`, with launch info persisted.
pub fn plan_serve(args: ServeArgs, project_root: String) -> (r: Result<ServePlan, ServeError>)
    ensures
        r is Err <==> exposes_generate_unasked(args),
        r matches Ok(plan) ==> {
            &&& plan.config.host == args.host
            &&& plan.config.port == args.port
            &&& plan.config.allow_generate == args.allow_generate
            &&& plan.config.project_root == project_root
            &&& plan.config.persist_launch_info
            &&& plan.warn_public_bind == !is_loopback(args.host)
        },
{
    let config = ServerConfig {
        host: args.host,
        port: args.port,
        allow_generate: args.allow_generate,
        project_root,
        persist_launch_info: true,
    };
    let local = config.is_localhost();
    if args.allow_generate && !local && !args.allow_generate_on_network {
        return Err(ServeError::GenerateOnNetworkRequired);
    }
    Ok(ServePlan { config, warn_public_bind: !local })
}

/// Whether to open the dashboard in a browser: not when asked not to, not
/// under CI, and only when standard output is a terminal.
pub fn should_auto_open(no_browser_flag: bool, ci_is_set: bool, stdout_is_terminal: bool) -> (r: bool)
    ensures
        r == (!no_browser_flag && !ci_is_set && stdout_is_terminal),
{
    if no_browser_flag {
        return false;
    }
    if ci_is_set {
        return false;
    }
    stdout_is_terminal
}

/// The links a started server announces.
#[derive(Debug)]
pub struct StartupLinks {
    /// `http://<local address>`.
    pub url: String,
    /// The base URL followed by `/__open?launch_token=<token>`.
    pub launch_url: String,
}

/// The links of a server listening on `local_addr` (its `ip:port` text)
/// whose launch token is `token`.
pub fn startup_links(local_addr: &str, token: &str) -> (r: StartupLinks)
    ensures
        r.url@ == "http://"@ + local_addr@,
        r.launch_url@ == r.url@ + launch_path_of(token@),
{
    let url = base_url(local_addr);
    let launch = launch_url(url.as_str(), token);
    StartupLinks { url, launch_url: launch }
}

/// What a server does once it is listening.
#[derive(Debug)]
pub struct StartupPlan {
    /// The links to announce.
    pub links: StartupLinks,
    /// The launch-info record to persist, when the configuration asks for it.
    pub launch_info: Option<LaunchInfo>,
}

/// The startup of a server configured by `config`, listening on
/// `local_addr` (its `ip:port` text, whose parts are `local_ip` and
/// `local_port`), with launch token `token`, running as process `pid`. The
/// launch-info record carries the same token and launch URL that are
/// announced.
pub fn plan_startup(
    config: &ServerConfig,
    local_addr: &str,
    local_ip: String,
    local_port: u16,
    token: &str,
    pid: u32,
) -> (r: StartupPlan)
    ensures
        r.links.url@ == "http://"@ + local_addr@,
        r.links.launch_url@ == r.links.url@ + launch_path_of(token@),
        r.launch_info is Some <==> config.persist_launch_info,
        r.launch_info matches Some(info) ==> {
            &&& info.version == LAUNCH_INFO_SCHEMA_VERSION
            &&& info.scheme@ == "http"@
            &&& info.host == local_ip
            &&& info.port == local_port
            &&& info.token@ == token@
            &&& info.url@ == r.links.launch_url@
            &&& info.pid == pid
        },
{
    let links = startup_links(local_addr, token);
    let launch_info = if config.persist_launch_info {
        Some(LaunchInfo::new(local_ip, local_port, token.to_owned(), links.launch_url.clone(), pid))
    } else {
        None
    };
    StartupPlan { links, launch_info }
}

} // verus!
