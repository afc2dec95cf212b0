use dsh_desktop::server::ServerState;
use dsh_desktop::shell::{
    current_server_port, is_current_dsh_url, is_local_shell, navigation_guard, new_window_allowed,
    settings_url, shell_url, status_text, status_text_for, window_background, UrlParts,
};
use dsh_desktop::tray::{update_status, TrayStatus};

fn url(scheme: &str, host: Option<&str>, port: Option<u16>) -> UrlParts {
    UrlParts { scheme: scheme.to_string(), host: host.map(|h| h.to_string()), port }
}

#[test]
fn local_shell_pages() {
    assert!(is_local_shell(&url("tauri", Some("localhost"), None)));
    assert!(is_local_shell(&url("http", Some("tauri.localhost"), None)));
    assert!(is_local_shell(&url("http", Some("localhost"), Some(1420))));
    assert!(!is_local_shell(&url("http", Some("localhost"), Some(1421))));
    assert!(!is_local_shell(&url("https", Some("tauri.localhost"), None)));
    assert!(!is_local_shell(&url("about", None, None)));
}

#[test]
fn navigation_allows_current_server_only() {
    let dsh = url("http", Some("127.0.0.1"), Some(53001));
    assert!(is_current_dsh_url(&dsh, Some(53001)));
    assert!(navigation_guard(&dsh, Some(53001)));
    assert!(!navigation_guard(&dsh, Some(53002)));
    assert!(!navigation_guard(&dsh, None));
    assert!(navigation_guard(&url("https", Some("localhost"), Some(8443)), Some(8443)));
    assert!(!navigation_guard(&url("ftp", Some("127.0.0.1"), Some(21)), Some(21)));
    assert!(!navigation_guard(&url("https", Some("example.com"), Some(443)), Some(443)));
    assert!(navigation_guard(&url("tauri", Some("localhost"), None), None));
}

#[test]
fn no_server_no_loopback() {
    let portless = url("http", Some("127.0.0.1"), None);
    assert!(!is_current_dsh_url(&portless, None));
    assert!(!navigation_guard(&portless, None));
    assert!(!new_window_allowed(&portless, None));
    assert!(!new_window_allowed(&url("http", Some("localhost"), None), None));
    assert!(!new_window_allowed(&portless, Some(80)));
}

#[test]
fn new_windows() {
    assert!(new_window_allowed(&url("http", Some("127.0.0.1"), Some(7)), Some(7)));
    assert!(new_window_allowed(&url("ws", Some("localhost"), Some(7)), Some(7)));
    assert!(!new_window_allowed(&url("https", Some("github.com"), None), None));
    assert!(new_window_allowed(&url("tauri", Some("localhost"), None), Some(7)));
}

#[test]
fn server_port_from_state() {
    let running = ServerState::Running { url: "http://127.0.0.1:53001".to_string() };
    assert_eq!(current_server_port(&running), Some(53001));
    assert_eq!(current_server_port(&ServerState::Starting), None);
    assert_eq!(current_server_port(&ServerState::Running { url: "weird".to_string() }), None);
}

#[test]
fn tray_text_from_status_payloads() {
    assert_eq!(status_text(r#"{"state":"running","url":"http://127.0.0.1:53001"}"#), "DSH ● :53001");
    assert_eq!(status_text(r#"{"state":"starting"}"#), "DSH … 启动中");
    assert_eq!(status_text(r#"{"state":"error","code":"E_X","message":"m"}"#), "DSH ✗ 服务错误");
    assert_eq!(status_text(r#"{"state":"stopped"}"#), "DSH ○ 已停止");
    assert_eq!(status_text("not json"), "DSH ○ 已停止");
    assert_eq!(status_text(r#"["running"]"#), "DSH ○ 已停止");
    assert_eq!(status_text(r#"{"state":"running"}"#), "DSH ● :");
    assert_eq!(status_text_for(Some("running"), Some("abc")), "DSH ● :abc");
    assert_eq!(status_text_for(None, None), "DSH ○ 已停止");
}

#[test]
fn shell_urls_and_colours() {
    assert_eq!(shell_url(true), "http://localhost:1420");
    assert_eq!(shell_url(false), "tauri://localhost");
    assert_eq!(settings_url(false), "tauri://localhost/?view=settings");
    assert_eq!(settings_url(true), "http://localhost:1420/?view=settings");
    assert_eq!(window_background(true), (255, 255, 255, 255));
    assert_eq!(window_background(false), (21, 21, 23, 255));
}

#[test]
fn tray_status_updates_only_once_installed() {
    let mut t = TrayStatus::new();
    update_status(&mut t, "DSH ● :1");
    assert_eq!(t.text(), None);
    t.install();
    assert_eq!(t.text().as_deref(), Some("DSH 启动中…"));
    update_status(&mut t, "DSH ● :1");
    assert_eq!(t.text().as_deref(), Some("DSH ● :1"));
}
