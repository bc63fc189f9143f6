use know_now::serve::{
    plan_serve, plan_startup, should_auto_open, startup_links, HostAddr, ServeArgs, ServeError, ServerConfig,
};

fn args(host: HostAddr, allow_generate: bool, on_network: bool) -> ServeArgs {
    ServeArgs { host, port: 3827, allow_generate, allow_generate_on_network: on_network, no_browser: false }
}

const LOOP4: HostAddr = HostAddr::V4([127, 0, 0, 1]);
const LOOP6: HostAddr = HostAddr::V6([0, 0, 0, 0, 0, 0, 0, 1]);
const ANY4: HostAddr = HostAddr::V4([0, 0, 0, 0]);
const LAN4: HostAddr = HostAddr::V4([192, 168, 1, 5]);

fn config(host: HostAddr) -> ServerConfig {
    ServerConfig {
        host,
        port: 1,
        allow_generate: false,
        project_root: "/p".to_owned(),
        persist_launch_info: false,
    }
}

#[test]
fn localhost_detection() {
    assert!(config(LOOP4).is_localhost());
    assert!(config(LOOP6).is_localhost());
    assert!(!config(ANY4).is_localhost());
    assert!(!config(LAN4).is_localhost());
    assert!(!config(HostAddr::V4([127, 0, 0, 2])).is_localhost());
    assert!(!config(HostAddr::V6([0, 0, 0, 0, 0, 0, 0, 0])).is_localhost());
}

#[test]
fn generate_on_network_needs_opt_in() {
    let err = plan_serve(args(LAN4, true, false), "/p".to_owned()).unwrap_err();
    assert!(matches!(err, ServeError::GenerateOnNetworkRequired));
    assert_eq!(
        err.message(),
        "--allow-generate on a non-localhost address requires --allow-generate-on-network"
    );
    let plan = plan_serve(args(LAN4, true, true), "/p".to_owned()).unwrap();
    assert!(plan.warn_public_bind);
    assert!(plan.config.allow_generate);
}

#[test]
fn localhost_never_refused() {
    for (g, n) in [(false, false), (true, false), (false, true), (true, true)] {
        let plan = plan_serve(args(LOOP4, g, n), "/root".to_owned()).unwrap();
        assert!(!plan.warn_public_bind);
        assert_eq!(plan.config.allow_generate, g);
        assert_eq!(plan.config.port, 3827);
        assert_eq!(plan.config.project_root, "/root");
        assert!(plan.config.persist_launch_info);
    }
}

#[test]
fn non_local_without_generate_only_warns() {
    let plan = plan_serve(args(ANY4, false, false), "/p".to_owned()).unwrap();
    assert!(plan.warn_public_bind);
}

#[test]
fn auto_open_rules() {
    assert!(should_auto_open(false, false, true));
    assert!(!should_auto_open(true, false, true));
    assert!(!should_auto_open(false, true, true));
    assert!(!should_auto_open(false, false, false));
}

#[test]
fn startup_links_shape() {
    let links = startup_links("127.0.0.1:3827", "abc");
    assert_eq!(links.url, "http://127.0.0.1:3827");
    assert_eq!(links.launch_url, "http://127.0.0.1:3827/__open?launch_token=abc");
}

#[test]
fn startup_records_announced_link() {
    let mut cfg = config(LOOP4);
    cfg.persist_launch_info = true;
    let plan = plan_startup(&cfg, "127.0.0.1:3827", "127.0.0.1".to_owned(), 3827, "tok", 7);
    assert_eq!(plan.links.launch_url, "http://127.0.0.1:3827/__open?launch_token=tok");
    let info = plan.launch_info.unwrap();
    assert_eq!(info.url, plan.links.launch_url);
    assert_eq!(info.token, "tok");
    assert_eq!(info.host, "127.0.0.1");
    assert_eq!(info.port, 3827);
    assert_eq!(info.pid, 7);
    assert_eq!(info.scheme, "http");
    assert_eq!(info.version, 1);
    // the recorded link, retargeted onto the announced base, is unchanged
    let again = know_now::urls::retarget_url(&info.token, &plan.links.url).unwrap();
    assert_eq!(again, info.url);
}

#[test]
fn startup_without_persistence_records_nothing() {
    let cfg = config(LOOP4);
    let plan = plan_startup(&cfg, "[::1]:80", "::1".to_owned(), 80, "t", 1);
    assert!(plan.launch_info.is_none());
    assert_eq!(plan.links.url, "http://[::1]:80");
}
