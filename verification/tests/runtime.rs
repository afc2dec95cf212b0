use dsh_desktop::runtime::{
    find_executable, is_executable_mode, node_exe, platform_dir, select_runtime, FileProbe,
    RuntimeProbe, RuntimeSource, TargetArch, TargetOs,
};
use dsh_desktop::settings::{AppSettings, PortPolicy, DEFAULT_LOG_LINES};

fn file(path: &str, is_file: bool, mode: Option<u32>) -> FileProbe {
    FileProbe { path: path.to_string(), is_file, mode }
}

fn probe() -> RuntimeProbe {
    RuntimeProbe {
        unix: true,
        bundled_node: file("/r/node/linux-x64/node", true, Some(0o755)),
        bundled_dsh: file("/r/dsh/lib/bin.js", true, Some(0o644)),
        configured: Some((file("/o/node", true, Some(0o755)), file("/o/bin.js", true, None))),
        path_node: Some("/usr/bin/node".to_string()),
        path_dsh: Some("/usr/lib/dsh/lib/bin.js".to_string()),
    }
}

#[test]
fn bundled_wins_over_configuration() {
    let rt = select_runtime(probe()).unwrap();
    assert_eq!(rt.source, RuntimeSource::Bundled);
    assert_eq!(rt.node, "/r/node/linux-x64/node");
    assert_eq!(rt.dsh_bin, "/r/dsh/lib/bin.js");
    assert_eq!(rt.source.name(), "bundled");
}

#[test]
fn configured_next() {
    let mut p = probe();
    p.bundled_dsh.is_file = false;
    let rt = select_runtime(p).unwrap();
    assert_eq!(rt.source, RuntimeSource::Config);
    assert_eq!(rt.node, "/o/node");
    assert_eq!(rt.dsh_bin, "/o/bin.js");
    assert_eq!(rt.source.name(), "config");
    // a bundled node without execute bits does not count on Unix
    let mut p = probe();
    p.bundled_node.mode = Some(0o644);
    assert_eq!(select_runtime(p).unwrap().source, RuntimeSource::Config);
    let mut p = probe();
    p.bundled_node.mode = None;
    assert_eq!(select_runtime(p).unwrap().source, RuntimeSource::Config);
    // elsewhere, existing is enough
    let mut p = probe();
    p.unix = false;
    p.bundled_node.mode = None;
    assert_eq!(select_runtime(p).unwrap().source, RuntimeSource::Bundled);
}

#[test]
fn path_last() {
    let mut p = probe();
    p.bundled_node.is_file = false;
    p.configured = None;
    let rt = select_runtime(p).unwrap();
    assert_eq!(rt.source, RuntimeSource::Path);
    assert_eq!(rt.dsh_bin, "/usr/lib/dsh/lib/bin.js");
    assert_eq!(rt.source.name(), "path");
    let mut p = probe();
    p.bundled_node.is_file = false;
    p.configured = Some((file("/o/node", true, Some(0o600)), file("/o/bin.js", true, None)));
    assert_eq!(select_runtime(p).unwrap().source, RuntimeSource::Path);
}

#[test]
fn missing_runtime_errors() {
    let mut p = probe();
    p.configured = None;
    p.bundled_dsh.is_file = false;
    p.path_node = None;
    assert_eq!(select_runtime(p).unwrap_err(), "未在 PATH 找到 node");
    let mut p = probe();
    p.configured = None;
    p.bundled_dsh.is_file = false;
    p.path_dsh = None;
    assert_eq!(
        select_runtime(p).unwrap_err(),
        "未在 PATH 找到 dsh;请先 npm i -g @deepseek-ai/dsh 或配置 bundled 运行时"
    );
}

#[test]
fn first_runnable_on_path() {
    let c = vec![
        file("/a/node", false, None),
        file("/b/node", true, Some(0o644)),
        file("/c/node", true, None),
        file("/d/node", true, Some(0o750)),
        file("/e/node", true, Some(0o755)),
    ];
    assert_eq!(find_executable(&c, true).as_deref(), Some("/d/node"));
    assert_eq!(find_executable(&c, false).as_deref(), Some("/b/node"));
    let none_runnable: Vec<FileProbe> = c.into_iter().take(3).collect();
    assert_eq!(find_executable(&none_runnable, true), None);
    assert_eq!(find_executable(&Vec::new(), true), None);
}

#[test]
fn platform_names() {
    assert_eq!(platform_dir(TargetOs::MacOs, TargetArch::Aarch64), "darwin-arm64");
    assert_eq!(platform_dir(TargetOs::MacOs, TargetArch::Other), "darwin-x64");
    assert_eq!(platform_dir(TargetOs::Windows, TargetArch::Other), "win32-x64");
    assert_eq!(platform_dir(TargetOs::Other, TargetArch::Aarch64), "linux-x64");
    assert_eq!(node_exe(TargetOs::Windows), "node.exe");
    assert_eq!(node_exe(TargetOs::MacOs), "node");
}

#[test]
fn execute_bits() {
    assert!(is_executable_mode(0o755));
    assert!(is_executable_mode(0o100));
    assert!(is_executable_mode(0o001));
    assert!(!is_executable_mode(0o644));
    assert!(!is_executable_mode(0));
}

#[test]
fn settings_defaults() {
    let s = AppSettings::default();
    assert_eq!(s.dsh_home, None);
    assert_eq!(s.port_policy, PortPolicy::Auto);
    assert_eq!(s.cwd, None);
    assert!(!s.autostart);
    assert_eq!(s.log_lines, DEFAULT_LOG_LINES);
    assert_eq!(s.buffer_lines(), 2000);
    let mut small = AppSettings::default();
    small.log_lines = 5;
    assert_eq!(small.buffer_lines(), 100);
    small.log_lines = 100;
    assert_eq!(small.buffer_lines(), 100);
}
