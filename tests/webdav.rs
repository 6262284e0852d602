use t_countdown::config::Credentials;
use t_countdown::error::SyncError;
use t_countdown::webdav::{
    auth_header, base_url, download_result, empty_document, folder_request, folder_url, get_request,
    object_url, probe_request, probe_result, put_request, upload_result, HttpOutcome, Method,
    REQUEST_TIMEOUT_SECS,
};

fn creds() -> Credentials {
    Credentials {
        server: "https://dav.example.com/remote.php/dav".to_string(),
        username: "u".to_string(),
        password: "p".to_string(),
    }
}

#[test]
fn timeout_is_fifteen_seconds() {
    assert_eq!(REQUEST_TIMEOUT_SECS, 15);
}

#[test]
fn base_url_adds_one_slash() {
    assert_eq!(base_url("https://dav.example.com"), "https://dav.example.com/");
    assert_eq!(base_url("https://dav.example.com/"), "https://dav.example.com/");
    assert_eq!(base_url(""), "/");
}

#[test]
fn remote_layout() {
    assert_eq!(folder_url("https://d.example"), "https://d.example/T-Countdown/");
    assert_eq!(object_url("https://d.example/"), "https://d.example/T-Countdown/data.json");
}

#[test]
fn basic_auth_value() {
    assert_eq!(auth_header("u", "p"), "Basic dTpw");
    assert_eq!(auth_header("user", "pass"), "Basic dXNlcjpwYXNz");
}

#[test]
fn probe_is_propfind_depth_zero() {
    let r = probe_request("https://dav.example.com", "u", "p");
    assert_eq!(r.method, Method::Propfind);
    assert_eq!(r.method.name(), "PROPFIND");
    assert_eq!(r.url, "https://dav.example.com/");
    assert_eq!(r.authorization, "Basic dTpw");
    assert_eq!(r.depth, Some("0".to_string()));
    assert_eq!(r.body, None);
}

#[test]
fn upload_requests() {
    let f = folder_request(&creds());
    assert_eq!(f.method.name(), "MKCOL");
    assert_eq!(f.url, "https://dav.example.com/remote.php/dav/T-Countdown/");
    let p = put_request(&creds(), "[1,2]".to_string());
    assert_eq!(p.method.name(), "PUT");
    assert_eq!(p.url, "https://dav.example.com/remote.php/dav/T-Countdown/data.json");
    assert_eq!(p.content_type, Some("application/json; charset=utf-8".to_string()));
    assert_eq!(p.body, Some("[1,2]".to_string()));
    assert_eq!(p.authorization, "Basic dTpw");
}

#[test]
fn download_request() {
    let g = get_request(&creds());
    assert_eq!(g.method.name(), "GET");
    assert_eq!(g.url, "https://dav.example.com/remote.php/dav/T-Countdown/data.json");
    assert_eq!(g.body, None);
}

#[test]
fn probe_outcomes() {
    assert_eq!(probe_result(HttpOutcome::Success(String::new())), Ok(()));
    assert_eq!(probe_result(HttpOutcome::Status(401)), Err(SyncError::Auth));
    assert_eq!(probe_result(HttpOutcome::Status(403)), Err(SyncError::Auth));
    assert!(matches!(
        probe_result(HttpOutcome::Status(500)),
        Err(SyncError::Network { status: Some(500), .. })
    ));
    assert_eq!(
        probe_result(HttpOutcome::Transport("dns".to_string())),
        Err(SyncError::Network { status: None, detail: "dns".to_string() })
    );
}

#[test]
fn upload_outcomes() {
    assert_eq!(upload_result(HttpOutcome::Success(String::new())), Ok(()));
    assert!(matches!(
        upload_result(HttpOutcome::Status(401)),
        Err(SyncError::Network { status: Some(401), .. })
    ));
    assert!(matches!(
        upload_result(HttpOutcome::Transport("timeout".to_string())),
        Err(SyncError::Network { status: None, .. })
    ));
}

#[test]
fn download_outcomes() {
    assert_eq!(download_result(HttpOutcome::Status(404)), Ok("[]".to_string()));
    assert_eq!(download_result(HttpOutcome::Success("[3]".to_string())), Ok("[3]".to_string()));
    assert!(matches!(
        download_result(HttpOutcome::Status(500)),
        Err(SyncError::Network { status: Some(500), .. })
    ));
    assert!(matches!(
        download_result(HttpOutcome::Transport("reset".to_string())),
        Err(SyncError::Network { status: None, .. })
    ));
    assert_eq!(empty_document(), "[]");
}
