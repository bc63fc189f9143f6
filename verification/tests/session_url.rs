use know_now::launch_info::LaunchInfo;
use know_now::session::{resolve_session_url, SessionUrlArgs};
use know_now::urls::{base_url, launch_path, launch_url, retarget_url, RetargetError};

#[test]
fn retarget_basic() {
    let url = retarget_url("abc-123", "http://localhost:5173").unwrap();
    assert_eq!(url, "http://localhost:5173/__open?launch_token=abc-123");
}

#[test]
fn retarget_strips_trailing_slash() {
    let url = retarget_url("tok", "http://localhost:5173/").unwrap();
    assert_eq!(url, "http://localhost:5173/__open?launch_token=tok");
}

#[test]
fn retarget_rejects_missing_scheme() {
    let err = retarget_url("tok", "localhost:5173").unwrap_err();
    assert!(err.message().contains("must start with http://"));
}

#[test]
fn retarget_accepts_https() {
    let url = retarget_url("t", "https://example.test:8443").unwrap();
    assert_eq!(url, "https://example.test:8443/__open?launch_token=t");
}

#[test]
fn retarget_strips_every_trailing_slash() {
    let url = retarget_url("t", "http://h///").unwrap();
    assert_eq!(url, "http://h/__open?launch_token=t");
}

#[test]
fn retarget_ignores_appended_slash() {
    for origin in ["http://a:1", "https://b", "ftp://c", "http://", ""] {
        let with_slash = format!("{origin}/");
        let a = retarget_url("k", origin).map_err(|e| e.message());
        let b = retarget_url("k", &with_slash).map_err(|_| ());
        assert_eq!(a.is_ok(), b.is_ok());
        if let (Ok(x), Ok(y)) = (a, b) {
            assert_eq!(x, y);
        }
    }
}

#[test]
fn retarget_error_message_names_origin() {
    match retarget_url("tok", "ftp://x/") {
        Err(RetargetError::MissingScheme { origin }) => assert_eq!(origin, "ftp://x/"),
        Ok(_) => panic!("ftp origin must be refused"),
    }
    let err = retarget_url("tok", "localhost:5173").unwrap_err();
    assert_eq!(
        err.message(),
        "--origin must start with http:// or https://; got: localhost:5173"
    );
}

#[test]
fn retarget_rejects_bare_scheme_after_trim() {
    // "http://" loses its slashes when trimmed, leaving "http:".
    assert!(retarget_url("t", "http://").is_err());
}

#[test]
fn launch_links_compose() {
    assert_eq!(launch_path("abc"), "/__open?launch_token=abc");
    let base = base_url("127.0.0.1:3827");
    assert_eq!(base, "http://127.0.0.1:3827");
    assert_eq!(
        launch_url(&base, "abc"),
        "http://127.0.0.1:3827/__open?launch_token=abc"
    );
}

#[test]
fn retarget_onto_own_origin_gives_launch_url() {
    let base = base_url("127.0.0.1:3827");
    assert_eq!(retarget_url("tok", &base).unwrap(), launch_url(&base, "tok"));
}

fn info() -> LaunchInfo {
    LaunchInfo::new(
        "127.0.0.1".to_owned(),
        3827,
        "tok".to_owned(),
        "http://127.0.0.1:3827/__open?launch_token=tok".to_owned(),
        42,
    )
}

#[test]
fn session_url_defaults_to_recorded_url() {
    let args = SessionUrlArgs { origin: None, json: false };
    assert_eq!(
        resolve_session_url(&info(), &args).unwrap(),
        "http://127.0.0.1:3827/__open?launch_token=tok"
    );
}

#[test]
fn session_url_retargets_origin() {
    let args = SessionUrlArgs { origin: Some("http://localhost:5173/".to_owned()), json: true };
    assert_eq!(
        resolve_session_url(&info(), &args).unwrap(),
        "http://localhost:5173/__open?launch_token=tok"
    );
    let bad = SessionUrlArgs { origin: Some("localhost".to_owned()), json: false };
    assert!(resolve_session_url(&info(), &bad).is_err());
}

#[test]
fn launch_info_new_fills_fields() {
    let i = info();
    assert_eq!(i.version, know_now::launch_info::LAUNCH_INFO_SCHEMA_VERSION);
    assert_eq!(i.version, 1);
    assert_eq!(i.scheme, "http");
    assert_eq!(i.host, "127.0.0.1");
    assert_eq!(i.port, 3827);
    assert_eq!(i.token, "tok");
    assert_eq!(i.pid, 42);
}
