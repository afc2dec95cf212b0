use dsh_desktop::launch::{launch_plan, server_dsh_home, theme_dsh_home, user_home, HomeEnv};
use dsh_desktop::runtime::{Runtime, RuntimeSource, TargetOs};
use dsh_desktop::settings::{AppSettings, PortPolicy};

fn rt(source: RuntimeSource) -> Runtime {
    Runtime { node: "/opt/node".to_string(), dsh_bin: "/opt/dsh/lib/bin.js".to_string(), source }
}

fn env() -> HomeEnv {
    HomeEnv { dsh_home: None, home: None, userprofile: None, homedrive: None, homepath: None }
}

#[test]
fn bundled_runtime_with_auto_port() {
    let plan = launch_plan(&rt(RuntimeSource::Bundled), &AppSettings::default());
    assert_eq!(plan.program, "/opt/node");
    assert_eq!(plan.args, vec!["/opt/dsh/lib/bin.js", "web", "--no-open", "--port", "0"]);
    assert!(plan.notes.is_empty());
    assert_eq!(plan.cwd, None);
    assert_eq!(plan.dsh_home, None);
}

#[test]
fn path_runtime_with_fixed_port() {
    let mut s = AppSettings::default();
    s.port_policy = PortPolicy::Fixed { port: 3080 };
    s.cwd = Some("/work".to_string());
    s.dsh_home = Some("/data/dsh".to_string());
    let plan = launch_plan(&rt(RuntimeSource::Path), &s);
    assert_eq!(plan.args, vec!["/opt/dsh/lib/bin.js", "web", "--port", "3080"]);
    assert_eq!(
        plan.notes,
        vec![
            "[app] runtime 非 bundled,不传 --no-open(兼容旧 dsh)".to_string(),
            "[app] port policy: fixed 3080".to_string()
        ]
    );
    assert_eq!(plan.cwd.as_deref(), Some("/work"));
    assert_eq!(plan.dsh_home.as_deref(), Some("/data/dsh"));
}

#[test]
fn user_home_fallbacks() {
    let mut e = env();
    assert_eq!(user_home(TargetOs::Other, &e), vec!["/"]);
    assert_eq!(user_home(TargetOs::Windows, &e), vec!["C:\\"]);
    e.homedrive = Some("D:".to_string());
    e.homepath = Some("\\Users\\me".to_string());
    assert_eq!(user_home(TargetOs::Windows, &e), vec!["D:", "\\Users\\me"]);
    e.userprofile = Some("C:\\Users\\me".to_string());
    assert_eq!(user_home(TargetOs::Windows, &e), vec!["C:\\Users\\me"]);
    e.home = Some("/home/me".to_string());
    assert_eq!(user_home(TargetOs::MacOs, &e), vec!["/home/me"]);
}

#[test]
fn server_dsh_home_order() {
    let mut e = env();
    assert_eq!(server_dsh_home(TargetOs::Other, &None, &e), None);
    assert_eq!(server_dsh_home(TargetOs::Windows, &None, &e), None);
    e.home = Some("/home/me".to_string());
    assert_eq!(
        server_dsh_home(TargetOs::Other, &None, &e),
        Some(vec!["/home/me".to_string(), ".dsh".to_string()])
    );
    e.dsh_home = Some("/env/dsh".to_string());
    assert_eq!(server_dsh_home(TargetOs::Other, &None, &e), Some(vec!["/env/dsh".to_string()]));
    assert_eq!(
        server_dsh_home(TargetOs::Other, &Some("/set".to_string()), &e),
        Some(vec!["/set".to_string()])
    );
}

#[test]
fn server_dsh_home_on_windows_uses_userprofile() {
    let mut e = env();
    e.userprofile = Some("C:\\Users\\u".to_string());
    assert_eq!(
        server_dsh_home(TargetOs::Windows, &None, &e),
        Some(vec!["C:\\Users\\u".to_string(), ".dsh".to_string()])
    );
    assert_eq!(server_dsh_home(TargetOs::Other, &None, &e), None);
}

#[test]
fn theme_dsh_home_order() {
    let mut e = env();
    assert!(theme_dsh_home(TargetOs::Other, &None, &e).is_empty());
    assert!(theme_dsh_home(TargetOs::Windows, &None, &e).is_empty());
    e.home = Some("/home/me".to_string());
    assert_eq!(theme_dsh_home(TargetOs::Other, &None, &e), vec!["/home/me", ".dsh"]);
    assert!(theme_dsh_home(TargetOs::Windows, &None, &e).is_empty());
    e.homedrive = Some("C:".to_string());
    e.homepath = Some("\\Users\\me".to_string());
    assert_eq!(theme_dsh_home(TargetOs::Windows, &None, &e), vec!["C:", "\\Users\\me", ".dsh"]);
    e.userprofile = Some("C:\\Users\\me".to_string());
    assert_eq!(theme_dsh_home(TargetOs::Windows, &None, &e), vec!["C:\\Users\\me", ".dsh"]);
    e.dsh_home = Some("/env".to_string());
    assert_eq!(theme_dsh_home(TargetOs::Windows, &None, &e), vec!["/env"]);
    assert_eq!(theme_dsh_home(TargetOs::Other, &Some("/s".to_string()), &e), vec!["/s"]);
}
