use dsh_desktop::runtime::RuntimeSource;
use dsh_desktop::server::{
    next_backoff_secs, set_state, startup_poll, takes_url_line, Command, Effect, Event, Phase,
    ServerState, Supervisor, MAX_CRASHES,
};

fn log_lines(effects: &[Effect]) -> Vec<String> {
    effects
        .iter()
        .filter_map(|e| match e {
            Effect::Log(l) => Some(l.clone()),
            _ => None,
        })
        .collect()
}

fn published(effects: &[Effect]) -> Vec<ServerState> {
    effects
        .iter()
        .filter_map(|e| match e {
            Effect::Publish(s) => Some(s.clone()),
            _ => None,
        })
        .collect()
}

fn started() -> Supervisor {
    let mut s = Supervisor::new();
    s.step(Event::RuntimeFound { source: RuntimeSource::Bundled });
    s.step(Event::Spawned);
    s
}

#[test]
fn new_supervisor_resolves_runtime_first() {
    let s = Supervisor::new();
    assert_eq!(s.command(), Command::ResolveRuntime);
    assert_eq!(s.crash_count(), 0);
    assert_eq!(s.backoff_secs(), 1);
    assert_eq!(s.phase(), Phase::Resolving);
}

#[test]
fn runtime_found_logs_source_and_publishes_starting() {
    let mut s = Supervisor::new();
    let fx = s.step(Event::RuntimeFound { source: RuntimeSource::Path });
    assert_eq!(fx.len(), 4);
    assert!(matches!(&fx[0], Effect::Log(l) if l == "[app] runtime: path"));
    assert!(matches!(&fx[1], Effect::EnsureBundle));
    assert!(matches!(&fx[2], Effect::Publish(ServerState::Starting)));
    assert!(matches!(&fx[3], Effect::Log(l) if l == "[app] starting dsh web (--port 0)"));
    assert_eq!(s.command(), Command::Spawn);
}

#[test]
fn runtime_missing_is_an_error() {
    let mut s = Supervisor::new();
    let fx = s.step(Event::RuntimeMissing { reason: "未在 PATH 找到 node".to_string() });
    assert_eq!(
        log_lines(&fx),
        vec!["[app] ERROR E_RUNTIME_NOT_FOUND: 无法定位运行时:未在 PATH 找到 node".to_string()]
    );
    match &published(&fx)[..] {
        [ServerState::Error { code, message }] => {
            assert_eq!(code, "E_RUNTIME_NOT_FOUND");
            assert_eq!(message, "无法定位运行时:未在 PATH 找到 node");
        }
        other => panic!("unexpected {:?}", other),
    }
    assert_eq!(s.command(), Command::Finish);
}

#[test]
fn spawn_failure_is_an_error() {
    let mut s = Supervisor::new();
    s.step(Event::RuntimeFound { source: RuntimeSource::Bundled });
    let fx = s.step(Event::SpawnFailed { reason: "No such file".to_string() });
    assert_eq!(
        log_lines(&fx),
        vec!["[app] ERROR E_SPAWN_FAILED: spawn 失败:No such file".to_string()]
    );
    assert!(matches!(&published(&fx)[..], [ServerState::Error { code, .. }] if code == "E_SPAWN_FAILED"));
    assert_eq!(s.phase(), Phase::Finished);
}

#[test]
fn startup_timeout_fails_then_cleans_up() {
    let mut s = started();
    assert_eq!(s.command(), Command::AwaitStartup);
    let fx = s.step(Event::StartupTimedOut);
    assert_eq!(fx.len(), 3);
    assert!(matches!(&fx[0], Effect::Log(l) if l == "[app] ERROR E_START_TIMEOUT: 启动超时(>60s)"));
    assert!(matches!(&fx[1], Effect::Publish(ServerState::Error { code, message })
        if code == "E_START_TIMEOUT" && message == "启动超时(>60s)"));
    assert!(matches!(&fx[2], Effect::CleanupChild));
    assert_eq!(s.command(), Command::Finish);
}

#[test]
fn ready_publishes_running_url() {
    let mut s = started();
    let fx = s.step(Event::StartupReady { url: "http://127.0.0.1:53001".to_string() });
    assert!(matches!(&fx[0], Effect::Publish(ServerState::Running { url }) if url == "http://127.0.0.1:53001"));
    assert!(matches!(&fx[1], Effect::Log(l) if l == "[app] running: http://127.0.0.1:53001"));
    assert_eq!(s.command(), Command::Serve);
}

#[test]
fn user_stop_while_serving() {
    let mut s = started();
    s.step(Event::StartupReady { url: "http://127.0.0.1:1".to_string() });
    let fx = s.step(Event::StopRequested);
    assert_eq!(fx.len(), 3);
    assert!(matches!(&fx[0], Effect::Log(l) if l == "[app] stopping (user request)"));
    assert!(matches!(&fx[1], Effect::GracefulStop));
    assert!(matches!(&fx[2], Effect::Publish(ServerState::Stopped)));
    assert_eq!(s.command(), Command::Finish);
}

#[test]
fn user_stop_during_startup() {
    let mut s = started();
    let fx = s.step(Event::StartupStopped);
    assert!(matches!(&fx[..], [Effect::CleanupChild, Effect::Publish(ServerState::Stopped)]));
    assert_eq!(s.phase(), Phase::Finished);
}

#[test]
fn crash_while_serving_backs_off() {
    let mut s = started();
    s.step(Event::StartupReady { url: "http://127.0.0.1:5".to_string() });
    let fx = s.step(Event::ChildExited { code: Some(1) });
    assert_eq!(
        log_lines(&fx),
        vec![
            "[app] child exited code=Some(1) (crash #1)".to_string(),
            "[app] restart in 1s".to_string()
        ]
    );
    assert!(matches!(&published(&fx)[..], [ServerState::Stopped]));
    assert_eq!(s.command(), Command::Backoff { secs: 1 });
    let fx = s.step(Event::BackoffElapsed);
    assert!(fx.is_empty());
    assert_eq!(s.backoff_secs(), 2);
    assert_eq!(s.command(), Command::ResolveRuntime);
}

#[test]
fn stop_during_backoff_ends_stopped() {
    let mut s = started();
    s.step(Event::StartupExited { code: None });
    let fx = s.step(Event::BackoffInterrupted);
    assert!(matches!(&fx[..], [Effect::Publish(ServerState::Stopped)]));
    assert_eq!(s.command(), Command::Finish);
    assert_eq!(s.backoff_secs(), 1);
}

#[test]
fn startup_exit_logs_and_cleans_up() {
    let mut s = started();
    let fx = s.step(Event::StartupExited { code: Some(13) });
    assert!(matches!(&fx[0], Effect::Log(l) if l == "[app] 启动阶段子进程退出 code=Some(13)"));
    assert!(matches!(&fx[1], Effect::CleanupChild));
    assert!(matches!(&fx[2], Effect::Log(l) if l == "[app] restart in 1s"));
    assert_eq!(s.crash_count(), 1);
}

#[test]
fn five_consecutive_crashes_give_up() {
    let mut s = started();
    let mut waits = Vec::new();
    for i in 0..MAX_CRASHES {
        let fx = s.step(Event::StartupExited { code: Some(-9) });
        if i + 1 < MAX_CRASHES {
            match s.command() {
                Command::Backoff { secs } => waits.push(secs),
                other => panic!("unexpected {:?}", other),
            }
            s.step(Event::BackoffElapsed);
            s.step(Event::RuntimeFound { source: RuntimeSource::Bundled });
            s.step(Event::Spawned);
        } else {
            let msg = "连续崩溃 5 次,停止自动重启(最近退出码 Some(-9))";
            assert_eq!(log_lines(&fx)[1], format!("[app] {}", msg));
            assert!(matches!(&published(&fx)[..], [ServerState::Error { code, message }]
                if code == "E_CRASH_LIMIT" && message == msg));
            assert!(matches!(fx.last(), Some(Effect::NavigateShell)));
        }
    }
    assert_eq!(waits, vec![1, 2, 4, 8]);
    assert_eq!(s.command(), Command::Finish);
    assert_eq!(s.crash_count(), 5);
}

#[test]
fn running_resets_backoff_but_keeps_crash_count() {
    let mut s = started();
    s.step(Event::StartupExited { code: Some(1) });
    s.step(Event::BackoffElapsed);
    s.step(Event::RuntimeFound { source: RuntimeSource::Bundled });
    s.step(Event::Spawned);
    assert_eq!(s.crash_count(), 1);
    assert_eq!(s.backoff_secs(), 2);
    s.step(Event::StartupReady { url: "http://127.0.0.1:9".to_string() });
    assert_eq!(s.crash_count(), 1);
    assert_eq!(s.backoff_secs(), 1);
}

#[test]
fn five_crashes_of_a_running_child_give_up() {
    let mut s = started();
    for i in 1..=MAX_CRASHES {
        s.step(Event::StartupReady { url: "http://127.0.0.1:9".to_string() });
        let fx = s.step(Event::ChildExited { code: Some(137) });
        assert_eq!(s.crash_count(), i);
        if i < MAX_CRASHES {
            assert_eq!(s.command(), Command::Backoff { secs: 1 });
            s.step(Event::BackoffElapsed);
            s.step(Event::RuntimeFound { source: RuntimeSource::Bundled });
            s.step(Event::Spawned);
        } else {
            assert!(matches!(&published(&fx)[..], [ServerState::Stopped, ServerState::Error { code, .. }]
                if code == "E_CRASH_LIMIT"));
            assert_eq!(s.command(), Command::Finish);
        }
    }
}

#[test]
fn failed_health_check_is_an_error() {
    let mut s = started();
    let fx = s.step(Event::StartupHealthFailed);
    assert_eq!(fx.len(), 3);
    assert!(matches!(&fx[0], Effect::Log(l) if l == "[app] ERROR E_HEALTH_FAIL: 健康检查未通过(>60s)"));
    assert!(matches!(&fx[1], Effect::Publish(ServerState::Error { code, message })
        if code == "E_HEALTH_FAIL" && message == "健康检查未通过(>60s)"));
    assert!(matches!(&fx[2], Effect::CleanupChild));
    assert_eq!(s.command(), Command::Finish);
}

#[test]
fn only_the_first_url_line_is_taken() {
    assert!(takes_url_line("dsh web: http://127.0.0.1:53001", false));
    assert!(!takes_url_line("dsh web: http://127.0.0.1:53001", true));
    assert!(!takes_url_line("loading...", false));
}

#[test]
fn startup_poll_decides_in_order() {
    let line = "dsh web: http://127.0.0.1:53001 (LAN: http://192.168.1.5:53001)";
    assert!(matches!(startup_poll(Some((line, true)), true, Some(Some(1)), true),
        Some(Event::StartupReady { url }) if url == "http://127.0.0.1:53001"));
    assert!(matches!(startup_poll(Some((line, false)), true, Some(None), true),
        Some(Event::StartupHealthFailed)));
    assert!(matches!(startup_poll(Some((line, false)), false, None, false), None));
    assert!(matches!(startup_poll(Some((line, false)), true, None, false), Some(Event::StartupStopped)));
    assert!(matches!(startup_poll(None, true, Some(Some(1)), true), Some(Event::StartupStopped)));
    assert!(matches!(startup_poll(None, false, Some(Some(2)), true),
        Some(Event::StartupExited { code: Some(2) })));
    assert!(matches!(startup_poll(None, false, Some(None), false), Some(Event::StartupExited { code: None })));
    assert!(matches!(startup_poll(None, false, None, true), Some(Event::StartupTimedOut)));
    assert!(matches!(startup_poll(None, false, None, false), None));
}

#[test]
fn crash_message_for_unknown_exit_code() {
    let mut s = started();
    s.step(Event::StartupReady { url: "http://127.0.0.1:9".to_string() });
    let fx = s.step(Event::ChildExited { code: None });
    assert_eq!(log_lines(&fx)[0], "[app] child exited code=None (crash #1)");
}

#[test]
fn unexpected_events_change_nothing() {
    let mut s = Supervisor::new();
    assert!(s.step(Event::StopRequested).is_empty());
    assert!(s.step(Event::Spawned).is_empty());
    assert!(s.step(Event::BackoffElapsed).is_empty());
    assert_eq!(s.command(), Command::ResolveRuntime);
    let mut done = started();
    done.step(Event::StartupStopped);
    assert!(done.step(Event::StartupReady { url: "x".to_string() }).is_empty());
    assert_eq!(done.command(), Command::Finish);
}

#[test]
fn backoff_sequence_caps_at_thirty() {
    let mut b = 1;
    let mut seen = vec![b];
    for _ in 0..6 {
        b = next_backoff_secs(b);
        seen.push(b);
    }
    assert_eq!(seen, vec![1, 2, 4, 8, 16, 30, 30]);
    assert_eq!(next_backoff_secs(15), 30);
    assert_eq!(next_backoff_secs(u64::MAX), 30);
}

#[test]
fn set_state_replaces_state() {
    let mut st = ServerState::Stopped;
    set_state(&mut st, ServerState::Running { url: "http://127.0.0.1:2".to_string() });
    assert!(matches!(st, ServerState::Running { ref url } if url == "http://127.0.0.1:2"));
}
