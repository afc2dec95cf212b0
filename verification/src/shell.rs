//! The desktop shell around the dsh UI: which URLs the windows may load,
//! the port of the running server, the tray text for a status event, and
//! the shell's own URLs and colours.
use vstd::prelude::*;
use crate::probe::{after_last_colon, last_colon_field, port_of_url, url_port};
use crate::server::ServerState;
use crate::profile::{json_parsed, member_str, member_text, parse_json};

verus! {

/// The parts of a URL the navigation rules look at (`scheme()`,
/// `host_str()` and `port()` of a parsed URL; the port is `None` when it is
/// the scheme's default).
pub struct UrlParts {
    pub scheme: String,
    pub host: Option<String>,
    pub port: Option<u16>,
}

/// The host, or the empty text when the URL has none.
pub open spec fn host_text(u: UrlParts) -> Seq<char> {
    match u.host {
        Some(h) => h@,
        None => Seq::empty(),
    }
}

/// The local shell pages: `tauri://localhost`, `http://tauri.localhost`
/// and the development server `http://localhost:1420`.
pub open spec fn spec_is_local_shell(u: UrlParts) -> bool {
    ||| u.scheme@ == "tauri"@ && host_text(u) == "localhost"@
    ||| u.scheme@ == "http"@ && host_text(u) == "tauri.localhost"@
    ||| u.scheme@ == "http"@ && host_text(u) == "localhost"@ && u.port == Some(1420u16)
}

pub open spec fn is_loopback_host(u: UrlParts) -> bool {
    host_text(u) == "127.0.0.1"@ || host_text(u) == "localhost"@
}

/// An http(s) loopback URL on the port of the running server (there is
/// none when no server runs).
pub open spec fn spec_is_current_dsh_url(u: UrlParts, server_port: Option<u16>) -> bool {
    &&& (u.scheme@ == "http"@ || u.scheme@ == "https"@)
    &&& is_loopback_host(u)
    &&& server_port is Some
    &&& u.port == server_port
}

/// A new window of the main window opens inside the app: a local shell
/// page, or a loopback URL on the running server's port.
pub open spec fn spec_new_window_allowed(u: UrlParts, server_port: Option<u16>) -> bool {
    spec_is_local_shell(u) || (is_loopback_host(u) && server_port is Some && u.port == server_port)
}

fn same_text(a: &str, b: &str) -> (r: bool)
    ensures
        r == (a@ == b@),
{
    let x = a.to_owned();
    let y = b.to_owned();
    x == y
}

fn host_str(u: &UrlParts) -> (r: &str)
    ensures
        r@ == host_text(*u),
{
    match &u.host {
        Some(h) => h.as_str(),
        None => {
            proof {
                reveal_strlit("");
            }
            ""
        },
    }
}

/// Whether the URL is one of the local shell pages.
pub fn is_local_shell(url: &UrlParts) -> (r: bool)
    ensures
        r == spec_is_local_shell(*url),
{
    let host = host_str(url);
    let scheme = url.scheme.as_str();
    (same_text(scheme, "tauri") && same_text(host, "localhost")) || (same_text(scheme, "http")
        && same_text(host, "tauri.localhost")) || (same_text(scheme, "http") && same_text(
        host,
        "localhost",
    ) && url.port == Some(1420u16))
}

/// Whether the URL is the running server's loopback URL (which macOS and
/// Linux report when the shell's iframe loads the dsh UI).
pub fn is_current_dsh_url(url: &UrlParts, server_port: Option<u16>) -> (r: bool)
    ensures
        r == spec_is_current_dsh_url(*url, server_port),
{
    let host = host_str(url);
    let scheme = url.scheme.as_str();
    if !same_text(scheme, "http") && !same_text(scheme, "https") {
        return false;
    }
    if !same_text(host, "127.0.0.1") && !same_text(host, "localhost") {
        return false;
    }
    server_port.is_some() && url.port == server_port
}

/// The navigation guard of the main window: it may show the local shell
/// pages and the running server's URL, nothing else.
pub fn navigation_guard(url: &UrlParts, server_port: Option<u16>) -> (r: bool)
    ensures
        r == (spec_is_local_shell(*url) || spec_is_current_dsh_url(*url, server_port)),
{
    if is_local_shell(url) {
        return true;
    }
    is_current_dsh_url(url, server_port)
}

/// Whether a new-window request of the main window opens inside the app:
/// the local shell pages and loopback URLs on the running server's port do;
/// everything else goes to the system browser.
pub fn new_window_allowed(url: &UrlParts, server_port: Option<u16>) -> (r: bool)
    ensures
        r == spec_new_window_allowed(*url, server_port),
{
    if is_local_shell(url) {
        return true;
    }
    let host = host_str(url);
    (same_text(host, "127.0.0.1") || same_text(host, "localhost")) && server_port.is_some()
        && url.port == server_port
}

/// The port of the server when it is running.
pub fn current_server_port(state: &ServerState) -> (r: Option<u16>)
    ensures
        r == match state {
            ServerState::Running { url } => url_port(url@),
            _ => None,
        },
{
    match state {
        ServerState::Running { url } => port_of_url(url.as_str()),
        _ => None,
    }
}

/// The string member `key` of the JSON value that `payload` parses into;
/// `None` when it does not parse, is not an object or has no such string.
pub open spec fn payload_member(payload: Seq<char>, key: Seq<char>) -> Option<Seq<char>> {
    match json_parsed(payload) {
        Some(j) => member_text(j, key),
        None => None,
    }
}

/// The tray text for a server state and URL as found in a status event.
pub open spec fn status_text_of(state: Option<Seq<char>>, url: Option<Seq<char>>) -> Seq<char> {
    if state == Some("running"@) {
        "DSH ● :"@ + after_last_colon(
            match url {
                Some(u) => u,
                None => Seq::empty(),
            },
        )
    } else if state == Some("starting"@) {
        "DSH … 启动中"@
    } else if state == Some("error"@) {
        "DSH ✗ 服务错误"@
    } else {
        "DSH ○ 已停止"@
    }
}

/// The tray text for the `state` and `url` members of a status event.
pub fn status_text_for(state: Option<&str>, url: Option<&str>) -> (r: String)
    ensures
        r@ == status_text_of(
            match state {
                Some(s) => Some(s@),
                None => None,
            },
            match url {
                Some(u) => Some(u@),
                None => None,
            },
        ),
{
    let st = match state {
        Some(s) => s,
        None => "unknown",
    };
    let is_state = state.is_some();
    if is_state && same_text(st, "running") {
        let u = match url {
            Some(u) => u,
            None => {
                proof {
                    reveal_strlit("");
                }
                ""
            },
        };
        let mut r = String::from_str("DSH ● :");
        let port = last_colon_field(u);
        r.append(port.as_str());
        r
    } else if is_state && same_text(st, "starting") {
        String::from_str("DSH … 启动中")
    } else if is_state && same_text(st, "error") {
        String::from_str("DSH ✗ 服务错误")
    } else {
        String::from_str("DSH ○ 已停止")
    }
}

/// The tray text for a `server-status` event payload (the JSON of a
/// server state: `{"state": "running", "url": ...}` and so on).
pub fn status_text(payload: &str) -> (r: String)
    ensures
        r@ == status_text_of(payload_member(payload@, "state"@), payload_member(payload@, "url"@)),
{
    let parsed = parse_json(payload);
    let (state, url) = match &parsed {
        Some(j) => (member_str(j, "state"), member_str(j, "url")),
        None => (None, None),
    };
    let s = match &state {
        Some(s) => Some(s.as_str()),
        None => None,
    };
    let u = match &url {
        Some(u) => Some(u.as_str()),
        None => None,
    };
    status_text_for(s, u)
}

/// URL of the local shell page the main window returns to.
pub fn shell_url(debug: bool) -> (r: &'static str)
    ensures
        r@ == if debug {
            "http://localhost:1420"@
        } else {
            "tauri://localhost"@
        },
{
    if debug {
        "http://localhost:1420"
    } else {
        "tauri://localhost"
    }
}

/// URL of the settings window.
pub fn settings_url(debug: bool) -> (r: &'static str)
    ensures
        r@ == if debug {
            "http://localhost:1420/?view=settings"@
        } else {
            "tauri://localhost/?view=settings"@
        },
{
    if debug {
        "http://localhost:1420/?view=settings"
    } else {
        "tauri://localhost/?view=settings"
    }
}

/// Background colour (RGBA) of a window before its page paints: white for
/// a light system theme, near-black otherwise.
pub fn window_background(light: bool) -> (r: (u8, u8, u8, u8))
    ensures
        r == if light {
            (255u8, 255u8, 255u8, 255u8)
        } else {
            (21u8, 21u8, 23u8, 255u8)
        },
{
    if light {
        (255, 255, 255, 255)
    } else {
        (21, 21, 23, 255)
    }
}

/// A page the main window may show is also one a new window may open.
pub proof fn law_guarded_pages_open_in_app(u: UrlParts, server_port: Option<u16>)
    ensures
        (spec_is_local_shell(u) || spec_is_current_dsh_url(u, server_port))
            ==> spec_new_window_allowed(u, server_port),
{
}

/// Without a running server, only the local shell pages pass the guard or
/// open in a new window of the app.
pub proof fn law_no_server_only_shell(u: UrlParts)
    ensures
        (spec_is_local_shell(u) || spec_is_current_dsh_url(u, None)) ==> spec_is_local_shell(u),
        spec_new_window_allowed(u, None) ==> spec_is_local_shell(u),
{
}

/// Outside the local shell pages, the main window navigates to, or opens
/// in the app, only a loopback URL on the running server's own port.
pub proof fn law_only_the_server_port_opens(u: UrlParts, server_port: Option<u16>)
    ensures
        (spec_new_window_allowed(u, server_port) && !spec_is_local_shell(u)) ==> (is_loopback_host(u)
            && server_port is Some && u.port == server_port),
        spec_is_current_dsh_url(u, server_port) ==> (is_loopback_host(u) && server_port is Some
            && u.port == server_port),
{
}

} // verus!
