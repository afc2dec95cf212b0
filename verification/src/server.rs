//! The supervisor of the `dsh web` child process: its published state and
//! the decisions of the start / crash / restart / stop cycle.
//!
//! The host drives a [`Supervisor`]: it performs the [`Command`] that
//! `command()` names (resolve the runtime, spawn, wait for the URL line,
//! serve, wait out the back-off), reports what happened as an [`Event`],
//! and carries out the [`Effect`]s that `step` returns, in order.
use vstd::prelude::*;
use crate::text::{dec, dec_int, push_dec, push_dec_i32};
use crate::runtime::RuntimeSource;
use crate::probe::{parse_url_line, regex_group, url_line_pattern};

verus! {

/// Consecutive crashes after which the supervisor gives up.
pub const MAX_CRASHES: u32 = 5;

/// Back-off before the first restart, in seconds.
pub const INITIAL_BACKOFF_SECS: u64 = 1;

/// Upper bound of the back-off, in seconds.
pub const MAX_BACKOFF_SECS: u64 = 30;

/// How long the child may take to print its URL and pass the health check.
pub const START_TIMEOUT_SECS: u64 = 60;

/// How long a stopped child may take to exit before its process group is killed.
pub const GRACE_PERIOD_SECS: u64 = 5;

/// The state of the server as shown to the shell UI and the tray.
#[derive(Clone, Debug)]
pub enum ServerState {
    Starting,
    Running { url: String },
    Stopping,
    Stopped,
    Error { code: String, message: String },
}

pub enum ServerStateView {
    Starting,
    Running { url: Seq<char> },
    Stopping,
    Stopped,
    Error { code: Seq<char>, message: Seq<char> },
}

impl View for ServerState {
    type V = ServerStateView;

    open spec fn view(&self) -> ServerStateView {
        match self {
            ServerState::Starting => ServerStateView::Starting,
            ServerState::Running { url } => ServerStateView::Running { url: url@ },
            ServerState::Stopping => ServerStateView::Stopping,
            ServerState::Stopped => ServerStateView::Stopped,
            ServerState::Error { code, message } => ServerStateView::Error {
                code: code@,
                message: message@,
            },
        }
    }
}

/// Replaces the published state.
pub fn set_state(state: &mut ServerState, s: ServerState)
    ensures
        *final(state) == s,
{
    *state = s;
}

/// Where the supervision cycle stands.
#[derive(Clone, Copy, Debug, PartialEq, Eq, Structural)]
pub enum Phase {
    /// About to locate node and dsh.
    Resolving,
    /// About to spawn the child.
    Launching,
    /// Waiting for the URL line and the health check.
    AwaitingStartup,
    /// The child is up; watching for a stop request or an exit.
    Serving,
    /// Waiting before the next restart.
    BackingOff,
    /// The cycle is over: stopped, failed, or given up after crashes.
    Finished,
}

/// What the host reports back after carrying out a command.
pub enum Event {
    RuntimeFound { source: RuntimeSource },
    RuntimeMissing { reason: String },
    Spawned,
    SpawnFailed { reason: String },
    StartupReady { url: String },
    StartupStopped,
    StartupExited { code: Option<i32> },
    StartupHealthFailed,
    StartupTimedOut,
    StopRequested,
    ChildExited { code: Option<i32> },
    BackoffElapsed,
    BackoffInterrupted,
}

pub enum EventView {
    RuntimeFound { source: RuntimeSource },
    RuntimeMissing { reason: Seq<char> },
    Spawned,
    SpawnFailed { reason: Seq<char> },
    StartupReady { url: Seq<char> },
    StartupStopped,
    StartupExited { code: Option<i32> },
    StartupHealthFailed,
    StartupTimedOut,
    StopRequested,
    ChildExited { code: Option<i32> },
    BackoffElapsed,
    BackoffInterrupted,
}

impl View for Event {
    type V = EventView;

    open spec fn view(&self) -> EventView {
        match self {
            Event::RuntimeFound { source } => EventView::RuntimeFound { source: *source },
            Event::RuntimeMissing { reason } => EventView::RuntimeMissing { reason: reason@ },
            Event::Spawned => EventView::Spawned,
            Event::SpawnFailed { reason } => EventView::SpawnFailed { reason: reason@ },
            Event::StartupReady { url } => EventView::StartupReady { url: url@ },
            Event::StartupStopped => EventView::StartupStopped,
            Event::StartupExited { code } => EventView::StartupExited { code: *code },
            Event::StartupHealthFailed => EventView::StartupHealthFailed,
            Event::StartupTimedOut => EventView::StartupTimedOut,
            Event::StopRequested => EventView::StopRequested,
            Event::ChildExited { code } => EventView::ChildExited { code: *code },
            Event::BackoffElapsed => EventView::BackoffElapsed,
            Event::BackoffInterrupted => EventView::BackoffInterrupted,
        }
    }
}

/// What the host must do, in the order given.
pub enum Effect {
    /// Append a line to the log.
    Log(String),
    /// Set the server state and broadcast it.
    Publish(ServerState),
    /// Make sure the web profile lists the bundled plugin.
    EnsureBundle,
    /// Kill what is left of the child that did not come up.
    CleanupChild,
    /// Kill the running child, wait out the grace period, kill its group.
    GracefulStop,
    /// Send the main window back to the local shell page.
    NavigateShell,
}

pub enum EffectView {
    Log(Seq<char>),
    Publish(ServerStateView),
    EnsureBundle,
    CleanupChild,
    GracefulStop,
    NavigateShell,
}

impl View for Effect {
    type V = EffectView;

    open spec fn view(&self) -> EffectView {
        match self {
            Effect::Log(l) => EffectView::Log(l@),
            Effect::Publish(s) => EffectView::Publish(s@),
            Effect::EnsureBundle => EffectView::EnsureBundle,
            Effect::CleanupChild => EffectView::CleanupChild,
            Effect::GracefulStop => EffectView::GracefulStop,
            Effect::NavigateShell => EffectView::NavigateShell,
        }
    }
}

pub open spec fn effects_view(v: Seq<Effect>) -> Seq<EffectView> {
    v.map_values(|e: Effect| e@)
}

/// The outside work the host performs next.
#[derive(Clone, Copy, Debug, PartialEq, Eq, Structural)]
pub enum Command {
    /// Locate node and dsh, then report `RuntimeFound` or `RuntimeMissing`.
    ResolveRuntime,
    /// Spawn the child, then report `Spawned` or `SpawnFailed`.
    Spawn,
    /// Read the first URL line (`takes_url_line`) and health-check it,
    /// watching for a stop request, the child's exit and the start timeout;
    /// `startup_poll` turns each round into the event to report.
    AwaitStartup,
    /// Watch the running child for a stop request or its exit.
    Serve,
    /// Wait this long, watching for a stop request.
    Backoff { secs: u64 },
    /// Nothing more to do.
    Finish,
}

/// The supervisor's abstract state.
pub struct SupervisorView {
    pub crash_count: nat,
    pub backoff_secs: nat,
    pub phase: Phase,
}

pub open spec fn valid(s: SupervisorView) -> bool {
    &&& INITIAL_BACKOFF_SECS <= s.backoff_secs <= MAX_BACKOFF_SECS
    &&& s.crash_count <= MAX_CRASHES
    &&& s.phase != Phase::Finished ==> s.crash_count < MAX_CRASHES
}

pub open spec fn initial_view() -> SupervisorView {
    SupervisorView { crash_count: 0, backoff_secs: INITIAL_BACKOFF_SECS as nat, phase: Phase::Resolving }
}

pub open spec fn spec_command(s: SupervisorView) -> Command {
    match s.phase {
        Phase::Resolving => Command::ResolveRuntime,
        Phase::Launching => Command::Spawn,
        Phase::AwaitingStartup => Command::AwaitStartup,
        Phase::Serving => Command::Serve,
        Phase::BackingOff => Command::Backoff { secs: s.backoff_secs as u64 },
        Phase::Finished => Command::Finish,
    }
}

/// `Debug` rendering of an exit code (`Some(1)`, `None`).
pub open spec fn exit_code_text(code: Option<i32>) -> Seq<char> {
    match code {
        Some(c) => "Some("@ + dec_int(c as int) + ")"@,
        None => "None"@,
    }
}

pub open spec fn fail_effects(code: Seq<char>, message: Seq<char>) -> Seq<EffectView> {
    seq![
        EffectView::Log("[app] ERROR "@ + code + ": "@ + message),
        EffectView::Publish(ServerStateView::Error { code, message }),
    ]
}

pub open spec fn health_fail_msg() -> Seq<char> {
    "健康检查未通过(>60s)"@
}

pub open spec fn crash_limit_msg(code: Option<i32>) -> Seq<char> {
    "连续崩溃 5 次,停止自动重启(最近退出码 "@ + exit_code_text(code) + ")"@
}

/// The back-off after one that lasted `secs`: doubled, at most `MAX_BACKOFF_SECS`.
pub open spec fn next_backoff(secs: nat) -> nat {
    if 2 * secs <= MAX_BACKOFF_SECS {
        2 * secs
    } else {
        MAX_BACKOFF_SECS as nat
    }
}

/// After a crash has been counted: give up at `MAX_CRASHES`, else back off.
pub open spec fn after_crash(s: SupervisorView, code: Option<i32>) -> (SupervisorView, Seq<EffectView>) {
    if s.crash_count >= MAX_CRASHES {
        (
            SupervisorView { phase: Phase::Finished, ..s },
            seq![
                EffectView::Log("[app] "@ + crash_limit_msg(code)),
                EffectView::Publish(
                    ServerStateView::Error { code: "E_CRASH_LIMIT"@, message: crash_limit_msg(code) },
                ),
                EffectView::NavigateShell,
            ],
        )
    } else {
        (
            SupervisorView { phase: Phase::BackingOff, ..s },
            seq![EffectView::Log("[app] restart in "@ + dec(s.backoff_secs) + "s"@)],
        )
    }
}

/// The transition table of the supervisor. An event that the current
/// phase does not expect changes nothing.
pub open spec fn transition(s: SupervisorView, e: EventView) -> (SupervisorView, Seq<EffectView>) {
    let ignore = (s, Seq::<EffectView>::empty());
    match e {
        EventView::RuntimeFound { source } => if s.phase == Phase::Resolving {
            (
                SupervisorView { phase: Phase::Launching, ..s },
                seq![
                    EffectView::Log("[app] runtime: "@ + source.spec_name()),
                    EffectView::EnsureBundle,
                    EffectView::Publish(ServerStateView::Starting),
                    EffectView::Log("[app] starting dsh web (--port 0)"@),
                ],
            )
        } else {
            ignore
        },
        EventView::RuntimeMissing { reason } => if s.phase == Phase::Resolving {
            (
                SupervisorView { phase: Phase::Finished, ..s },
                fail_effects("E_RUNTIME_NOT_FOUND"@, "无法定位运行时:"@ + reason),
            )
        } else {
            ignore
        },
        EventView::Spawned => if s.phase == Phase::Launching {
            (SupervisorView { phase: Phase::AwaitingStartup, ..s }, Seq::empty())
        } else {
            ignore
        },
        EventView::SpawnFailed { reason } => if s.phase == Phase::Launching {
            (
                SupervisorView { phase: Phase::Finished, ..s },
                fail_effects("E_SPAWN_FAILED"@, "spawn 失败:"@ + reason),
            )
        } else {
            ignore
        },
        EventView::StartupReady { url } => if s.phase == Phase::AwaitingStartup {
            (
                SupervisorView {
                    backoff_secs: INITIAL_BACKOFF_SECS as nat,
                    phase: Phase::Serving,
                    ..s
                },
                seq![
                    EffectView::Publish(ServerStateView::Running { url }),
                    EffectView::Log("[app] running: "@ + url),
                ],
            )
        } else {
            ignore
        },
        EventView::StartupStopped => if s.phase == Phase::AwaitingStartup {
            (
                SupervisorView { phase: Phase::Finished, ..s },
                seq![EffectView::CleanupChild, EffectView::Publish(ServerStateView::Stopped)],
            )
        } else {
            ignore
        },
        EventView::StartupExited { code } => if s.phase == Phase::AwaitingStartup {
            let counted = SupervisorView { crash_count: s.crash_count + 1, ..s };
            let r = after_crash(counted, code);
            (
                r.0,
                seq![
                    EffectView::Log("[app] 启动阶段子进程退出 code="@ + exit_code_text(code)),
                    EffectView::CleanupChild,
                ] + r.1,
            )
        } else {
            ignore
        },
        EventView::StartupHealthFailed => if s.phase == Phase::AwaitingStartup {
            (
                SupervisorView { phase: Phase::Finished, ..s },
                fail_effects("E_HEALTH_FAIL"@, health_fail_msg()).push(EffectView::CleanupChild),
            )
        } else {
            ignore
        },
        EventView::StartupTimedOut => if s.phase == Phase::AwaitingStartup {
            (
                SupervisorView { phase: Phase::Finished, ..s },
                fail_effects("E_START_TIMEOUT"@, "启动超时(>60s)"@).push(EffectView::CleanupChild),
            )
        } else {
            ignore
        },
        EventView::StopRequested => if s.phase == Phase::Serving {
            (
                SupervisorView { phase: Phase::Finished, ..s },
                seq![
                    EffectView::Log("[app] stopping (user request)"@),
                    EffectView::GracefulStop,
                    EffectView::Publish(ServerStateView::Stopped),
                ],
            )
        } else {
            ignore
        },
        EventView::ChildExited { code } => if s.phase == Phase::Serving {
            let counted = SupervisorView { crash_count: s.crash_count + 1, ..s };
            let r = after_crash(counted, code);
            (
                r.0,
                seq![
                    EffectView::Log(
                        "[app] child exited code="@ + exit_code_text(code) + " (crash #"@ + dec(
                            counted.crash_count,
                        ) + ")"@,
                    ),
                    EffectView::Publish(ServerStateView::Stopped),
                ] + r.1,
            )
        } else {
            ignore
        },
        EventView::BackoffElapsed => if s.phase == Phase::BackingOff {
            (
                SupervisorView {
                    backoff_secs: next_backoff(s.backoff_secs),
                    phase: Phase::Resolving,
                    ..s
                },
                Seq::empty(),
            )
        } else {
            ignore
        },
        EventView::BackoffInterrupted => if s.phase == Phase::BackingOff {
            (
                SupervisorView { phase: Phase::Finished, ..s },
                seq![EffectView::Publish(ServerStateView::Stopped)],
            )
        } else {
            ignore
        },
    }
}


/// Whether phase `p` expects event `e` (other events change nothing).
pub open spec fn accepts(p: Phase, e: EventView) -> bool {
    match e {
        EventView::RuntimeFound { .. } | EventView::RuntimeMissing { .. } => p == Phase::Resolving,
        EventView::Spawned | EventView::SpawnFailed { .. } => p == Phase::Launching,
        EventView::StartupReady { .. } | EventView::StartupStopped | EventView::StartupExited { .. }
        | EventView::StartupHealthFailed | EventView::StartupTimedOut => p == Phase::AwaitingStartup,
        EventView::StopRequested | EventView::ChildExited { .. } => p == Phase::Serving,
        EventView::BackoffElapsed | EventView::BackoffInterrupted => p == Phase::BackingOff,
    }
}

/// The events that report a stop request of the user.
pub open spec fn is_stop_event(e: EventView) -> bool {
    e is StartupStopped || e is StopRequested || e is BackoffInterrupted
}

/// The events that report an exit of the child that nobody asked for.
pub open spec fn is_crash_event(e: EventView) -> bool {
    e is StartupExited || e is ChildExited
}

/// The state after a sequence of events.
pub open spec fn run(s: SupervisorView, es: Seq<EventView>) -> SupervisorView
    decreases es.len(),
{
    if es.len() == 0 {
        s
    } else {
        run(transition(s, es[0]).0, es.subrange(1, es.len() as int))
    }
}

/// Every step keeps the supervisor's invariant: the back-off stays within
/// 1..=30 seconds and fewer than `MAX_CRASHES` crashes are counted while it runs.
pub proof fn law_valid_preserved(s: SupervisorView, e: EventView)
    requires
        valid(s),
    ensures
        valid(transition(s, e).0),
{
}

/// An event the current phase does not expect changes nothing.
pub proof fn law_unexpected_event_ignored(s: SupervisorView, e: EventView)
    requires
        !accepts(s.phase, e),
    ensures
        transition(s, e) == (s, Seq::<EffectView>::empty()),
{
}

/// Once finished, the supervisor stays finished and does nothing more.
pub proof fn law_finished_is_final(s: SupervisorView, e: EventView)
    requires
        s.phase == Phase::Finished,
    ensures
        transition(s, e) == (s, Seq::<EffectView>::empty()),
{
}

/// A stop request of the user ends the cycle with the state `Stopped`:
/// there is no restart after it.
pub proof fn law_stop_ends_in_stopped(s: SupervisorView, e: EventView)
    requires
        is_stop_event(e),
        accepts(s.phase, e),
    ensures
        transition(s, e).0.phase == Phase::Finished,
        transition(s, e).1.len() > 0,
        transition(s, e).1.last() == EffectView::Publish(ServerStateView::Stopped),
{
}

/// A crash is counted. Below `MAX_CRASHES` consecutive crashes the
/// supervisor backs off before the next start; at `MAX_CRASHES` it gives up
/// with the error `E_CRASH_LIMIT` and sends the window back to the shell page.
pub proof fn law_crash_counting(s: SupervisorView, e: EventView)
    requires
        valid(s),
        is_crash_event(e),
        accepts(s.phase, e),
    ensures
        transition(s, e).0.crash_count == s.crash_count + 1,
        transition(s, e).0.backoff_secs == s.backoff_secs,
        s.crash_count + 1 < MAX_CRASHES ==> transition(s, e).0.phase == Phase::BackingOff,
        s.crash_count + 1 >= MAX_CRASHES ==> {
            &&& transition(s, e).0.phase == Phase::Finished
            &&& transition(s, e).1.last() == EffectView::NavigateShell
            &&& exists|m: Seq<char>|
                #[trigger] transition(s, e).1.contains(
                    EffectView::Publish(ServerStateView::Error { code: "E_CRASH_LIMIT"@, message: m }),
                )
        },
{
    let counted = SupervisorView { crash_count: s.crash_count + 1, ..s };
    let code = match e {
        EventView::StartupExited { code } => code,
        EventView::ChildExited { code } => code,
        _ => None,
    };
    if s.crash_count + 1 >= MAX_CRASHES {
        let effects = transition(s, e).1;
        let m = crash_limit_msg(code);
        assert(effects[effects.len() - 2] == EffectView::Publish(
            ServerStateView::Error { code: "E_CRASH_LIMIT"@, message: m },
        ));
        assert(effects.contains(
            EffectView::Publish(ServerStateView::Error { code: "E_CRASH_LIMIT"@, message: m }),
        ));
    }
}

/// The crash count never goes down: coming up again resets the back-off
/// but not the count, which only a new supervisor (a restart) starts at zero.
pub proof fn law_crash_count_never_drops(s: SupervisorView, e: EventView)
    ensures
        transition(s, e).0.crash_count >= s.crash_count,
        (e is StartupReady && accepts(s.phase, e)) ==> transition(s, e).0.crash_count
            == s.crash_count && transition(s, e).0.backoff_secs == INITIAL_BACKOFF_SECS,
{
}

/// Five crashes in a row end the run, even when the child came up in
/// between: from a fresh supervisor, no run of events counts more.
pub proof fn law_fresh_run_gives_up_after_five(es: Seq<EventView>)
    ensures
        run(initial_view(), es).crash_count <= MAX_CRASHES,
        run(initial_view(), es).crash_count == MAX_CRASHES ==> run(initial_view(), es).phase
            == Phase::Finished,
{
    law_crashes_bounded(initial_view(), es);
}

/// Starting from a valid state, no run of events counts more than
/// `MAX_CRASHES` crashes, and a run that reaches `MAX_CRASHES` has finished.
pub proof fn law_crashes_bounded(s: SupervisorView, es: Seq<EventView>)
    requires
        valid(s),
    ensures
        valid(run(s, es)),
        run(s, es).crash_count <= MAX_CRASHES,
        run(s, es).crash_count == MAX_CRASHES ==> run(s, es).phase == Phase::Finished,
    decreases es.len(),
{
    if es.len() > 0 {
        law_valid_preserved(s, es[0]);
        law_crashes_bounded(transition(s, es[0]).0, es.subrange(1, es.len() as int));
    }
}

/// The back-off doubles after each wait, up to `MAX_BACKOFF_SECS`.
pub proof fn law_backoff_doubles(s: SupervisorView)
    requires
        s.phase == Phase::BackingOff,
    ensures
        transition(s, EventView::BackoffElapsed).0.backoff_secs == next_backoff(s.backoff_secs),
        transition(s, EventView::BackoffElapsed).0.phase == Phase::Resolving,
{
}

pub open spec fn pow2(k: nat) -> nat
    decreases k,
{
    if k == 0 {
        1
    } else {
        2 * pow2((k - 1) as nat)
    }
}

/// The back-off after `k` waits since the last reset.
pub open spec fn backoff_after(k: nat) -> nat
    decreases k,
{
    if k == 0 {
        INITIAL_BACKOFF_SECS as nat
    } else {
        next_backoff(backoff_after((k - 1) as nat))
    }
}

/// The back-off sequence is 1, 2, 4, 8, 16, then 30 seconds from then on.
pub proof fn law_backoff_sequence(k: nat)
    ensures
        backoff_after(k) == if pow2(k) <= MAX_BACKOFF_SECS {
            pow2(k)
        } else {
            MAX_BACKOFF_SECS as nat
        },
    decreases k,
{
    if k > 0 {
        law_backoff_sequence((k - 1) as nat);
        lemma_pow2_grows((k - 1) as nat);
    }
}

proof fn lemma_pow2_grows(k: nat)
    ensures
        pow2(k) >= 1,
        pow2(k + 1) == 2 * pow2(k),
    decreases k,
{
    if k > 0 {
        lemma_pow2_grows((k - 1) as nat);
    }
}

/// Drives one run of the child: start, serve, restart after crashes with
/// a doubling back-off, and give up after `MAX_CRASHES` consecutive crashes.
pub struct Supervisor {
    crash_count: u32,
    backoff_secs: u64,
    phase: Phase,
}

impl View for Supervisor {
    type V = SupervisorView;

    closed spec fn view(&self) -> SupervisorView {
        SupervisorView {
            crash_count: self.crash_count as nat,
            backoff_secs: self.backoff_secs as nat,
            phase: self.phase,
        }
    }
}

/// The back-off that follows one of `secs` seconds.
pub fn next_backoff_secs(secs: u64) -> (r: u64)
    ensures
        r == next_backoff(secs as nat),
{
    if secs <= MAX_BACKOFF_SECS / 2 {
        secs * 2
    } else {
        MAX_BACKOFF_SECS
    }
}

fn text_of(s: &str) -> (r: String)
    ensures
        r@ == s@,
{
    String::from_str(s)
}

fn exit_code_string(code: Option<i32>) -> (r: String)
    ensures
        r@ == exit_code_text(code),
{
    match code {
        Some(c) => {
            let mut r = text_of("Some(");
            push_dec_i32(&mut r, c);
            r.append(")");
            r
        },
        None => text_of("None"),
    }
}

fn fail_list(code: &str, message: String) -> (r: Vec<Effect>)
    ensures
        effects_view(r@) == fail_effects(code@, message@),
{
    let mut l = text_of("[app] ERROR ");
    l.append(code);
    l.append(": ");
    l.append(message.as_str());
    let r = vec![
        Effect::Log(l),
        Effect::Publish(ServerState::Error { code: text_of(code), message }),
    ];
    assert(effects_view(r@) =~= fail_effects(code@, message@));
    r
}

fn crash_limit_message(code: Option<i32>) -> (r: String)
    ensures
        r@ == crash_limit_msg(code),
{
    let mut m = text_of("连续崩溃 5 次,停止自动重启(最近退出码 ");
    let c = exit_code_string(code);
    m.append(c.as_str());
    m.append(")");
    m
}

fn no_effects() -> (r: Vec<Effect>)
    ensures
        effects_view(r@) == Seq::<EffectView>::empty(),
{
    let r = Vec::new();
    assert(effects_view(r@) =~= Seq::<EffectView>::empty());
    r
}

fn append_all(a: &mut Vec<Effect>, b: Vec<Effect>)
    ensures
        effects_view(final(a)@) == effects_view(old(a)@) + effects_view(b@),
{
    let mut b = b;
    let ghost a0 = a@;
    let ghost b0 = b@;
    a.append(&mut b);
    assert(final(a)@ == a0 + b0);
    assert(effects_view(a0 + b0) =~= effects_view(a0) + effects_view(b0));
}

impl Supervisor {
    #[verifier::type_invariant]
    spec fn well_formed(self) -> bool {
        valid(self@)
    }

    /// A supervisor about to resolve the runtime, with no crash counted.
    pub fn new() -> (s: Self)
        ensures
            s@ == initial_view(),
            valid(s@),
    {
        Supervisor { crash_count: 0, backoff_secs: INITIAL_BACKOFF_SECS, phase: Phase::Resolving }
    }

    pub fn phase(&self) -> (p: Phase)
        ensures
            p == self@.phase,
    {
        self.phase
    }

    pub fn crash_count(&self) -> (n: u32)
        ensures
            n == self@.crash_count,
    {
        self.crash_count
    }

    pub fn backoff_secs(&self) -> (n: u64)
        ensures
            n == self@.backoff_secs,
    {
        self.backoff_secs
    }

    /// The outside work to perform next.
    pub fn command(&self) -> (c: Command)
        ensures
            c == spec_command(self@),
    {
        match self.phase {
            Phase::Resolving => Command::ResolveRuntime,
            Phase::Launching => Command::Spawn,
            Phase::AwaitingStartup => Command::AwaitStartup,
            Phase::Serving => Command::Serve,
            Phase::BackingOff => Command::Backoff { secs: self.backoff_secs },
            Phase::Finished => Command::Finish,
        }
    }

    /// Counts a crash of the child and decides between giving up and backing off.
    fn crashed(&mut self, code: Option<i32>) -> (r: Vec<Effect>)
        requires
            old(self)@.phase == Phase::AwaitingStartup || old(self)@.phase == Phase::Serving,
        ensures
            final(self)@ == after_crash(
                SupervisorView { crash_count: old(self)@.crash_count + 1, ..old(self)@ },
                code,
            ).0,
            effects_view(r@) == after_crash(
                SupervisorView { crash_count: old(self)@.crash_count + 1, ..old(self)@ },
                code,
            ).1,
    {
        proof {
            use_type_invariant(&*self);
        }
        let count = self.crash_count + 1;
        if count >= MAX_CRASHES {
            let msg = crash_limit_message(code);
            let mut l = text_of("[app] ");
            l.append(msg.as_str());
            *self = Supervisor { crash_count: count, backoff_secs: self.backoff_secs, phase: Phase::Finished };
            let r = vec![
                Effect::Log(l),
                Effect::Publish(ServerState::Error { code: text_of("E_CRASH_LIMIT"), message: msg }),
                Effect::NavigateShell,
            ];
            assert(effects_view(r@) =~= after_crash(
                SupervisorView { crash_count: old(self)@.crash_count + 1, ..old(self)@ },
                code,
            ).1);
            r
        } else {
            let mut l = text_of("[app] restart in ");
            push_dec(&mut l, self.backoff_secs);
            l.append("s");
            *self = Supervisor { crash_count: count, backoff_secs: self.backoff_secs, phase: Phase::BackingOff };
            let r = vec![Effect::Log(l)];
            assert(effects_view(r@) =~= after_crash(
                SupervisorView { crash_count: old(self)@.crash_count + 1, ..old(self)@ },
                code,
            ).1);
            r
        }
    }

    /// Applies one event: the new state and the effects are those of `transition`.
    pub fn step(&mut self, event: Event) -> (effects: Vec<Effect>)
        ensures
            (final(self)@, effects_view(effects@)) == transition(old(self)@, event@),
            valid(old(self)@),
            valid(final(self)@),
    {
        proof {
            use_type_invariant(&*self);
        }
        let ghost e = event@;
        let ghost s0 = self@;
        let phase = self.phase;
        let count = self.crash_count;
        let backoff = self.backoff_secs;
        match event {
            Event::RuntimeFound { source } => {
                if phase == Phase::Resolving {
                    let mut l = text_of("[app] runtime: ");
                    l.append(source.name());
                    *self = Supervisor { crash_count: count, backoff_secs: backoff, phase: Phase::Launching };
                    let r = vec![
                        Effect::Log(l),
                        Effect::EnsureBundle,
                        Effect::Publish(ServerState::Starting),
                        Effect::Log(text_of("[app] starting dsh web (--port 0)")),
                    ];
                    assert(effects_view(r@) =~= transition(s0, e).1);
                    r
                } else {
                    no_effects()
                }
            },
            Event::RuntimeMissing { reason } => {
                if phase == Phase::Resolving {
                    let mut m = text_of("无法定位运行时:");
                    m.append(reason.as_str());
                    *self = Supervisor { crash_count: count, backoff_secs: backoff, phase: Phase::Finished };
                    fail_list("E_RUNTIME_NOT_FOUND", m)
                } else {
                    no_effects()
                }
            },
            Event::Spawned => {
                if phase == Phase::Launching {
                    *self = Supervisor { crash_count: count, backoff_secs: backoff, phase: Phase::AwaitingStartup };
                }
                no_effects()
            },
            Event::SpawnFailed { reason } => {
                if phase == Phase::Launching {
                    let mut m = text_of("spawn 失败:");
                    m.append(reason.as_str());
                    *self = Supervisor { crash_count: count, backoff_secs: backoff, phase: Phase::Finished };
                    fail_list("E_SPAWN_FAILED", m)
                } else {
                    no_effects()
                }
            },
            Event::StartupReady { url } => {
                if phase == Phase::AwaitingStartup {
                    let mut l = text_of("[app] running: ");
                    l.append(url.as_str());
                    *self = Supervisor { crash_count: count, backoff_secs: INITIAL_BACKOFF_SECS, phase: Phase::Serving };
                    let r = vec![Effect::Publish(ServerState::Running { url }), Effect::Log(l)];
                    assert(effects_view(r@) =~= transition(s0, e).1);
                    r
                } else {
                    no_effects()
                }
            },
            Event::StartupStopped => {
                if phase == Phase::AwaitingStartup {
                    *self = Supervisor { crash_count: count, backoff_secs: backoff, phase: Phase::Finished };
                    let r = vec![Effect::CleanupChild, Effect::Publish(ServerState::Stopped)];
                    assert(effects_view(r@) =~= transition(s0, e).1);
                    r
                } else {
                    no_effects()
                }
            },
            Event::StartupExited { code } => {
                if phase == Phase::AwaitingStartup {
                    let mut l = text_of("[app] 启动阶段子进程退出 code=");
                    let c = exit_code_string(code);
                    l.append(c.as_str());
                    let mut r = vec![Effect::Log(l), Effect::CleanupChild];
                    let ghost head = effects_view(r@);
                    let tail = self.crashed(code);
                    append_all(&mut r, tail);
                    assert(head =~= seq![
                        EffectView::Log("[app] 启动阶段子进程退出 code="@ + exit_code_text(code)),
                        EffectView::CleanupChild,
                    ]);
                    r
                } else {
                    no_effects()
                }
            },
            Event::StartupHealthFailed => {
                if phase == Phase::AwaitingStartup {
                    *self = Supervisor { crash_count: count, backoff_secs: backoff, phase: Phase::Finished };
                    let mut r = fail_list("E_HEALTH_FAIL", text_of("健康检查未通过(>60s)"));
                    let ghost r0 = r@;
                    r.push(Effect::CleanupChild);
                    assert(effects_view(r@) =~= effects_view(r0).push(EffectView::CleanupChild));
                    r
                } else {
                    no_effects()
                }
            },
            Event::StartupTimedOut => {
                if phase == Phase::AwaitingStartup {
                    *self = Supervisor { crash_count: count, backoff_secs: backoff, phase: Phase::Finished };
                    let mut r = fail_list("E_START_TIMEOUT", text_of("启动超时(>60s)"));
                    let ghost r0 = r@;
                    r.push(Effect::CleanupChild);
                    assert(effects_view(r@) =~= effects_view(r0).push(EffectView::CleanupChild));
                    r
                } else {
                    no_effects()
                }
            },
            Event::StopRequested => {
                if phase == Phase::Serving {
                    *self = Supervisor { crash_count: count, backoff_secs: backoff, phase: Phase::Finished };
                    let r = vec![
                        Effect::Log(text_of("[app] stopping (user request)")),
                        Effect::GracefulStop,
                        Effect::Publish(ServerState::Stopped),
                    ];
                    assert(effects_view(r@) =~= transition(s0, e).1);
                    r
                } else {
                    no_effects()
                }
            },
            Event::ChildExited { code } => {
                if phase == Phase::Serving {
                    let mut l = text_of("[app] child exited code=");
                    let c = exit_code_string(code);
                    l.append(c.as_str());
                    l.append(" (crash #");
                    push_dec(&mut l, (count + 1) as u64);
                    l.append(")");
                    let mut r = vec![Effect::Log(l), Effect::Publish(ServerState::Stopped)];
                    let ghost head = effects_view(r@);
                    let tail = self.crashed(code);
                    append_all(&mut r, tail);
                    assert(head =~= seq![
                        EffectView::Log(
                            "[app] child exited code="@ + exit_code_text(code) + " (crash #"@ + dec(
                                (s0.crash_count + 1) as nat,
                            ) + ")"@,
                        ),
                        EffectView::Publish(ServerStateView::Stopped),
                    ]);
                    r
                } else {
                    no_effects()
                }
            },
            Event::BackoffElapsed => {
                if phase == Phase::BackingOff {
                    let next = next_backoff_secs(backoff);
                    *self = Supervisor { crash_count: count, backoff_secs: next, phase: Phase::Resolving };
                }
                no_effects()
            },
            Event::BackoffInterrupted => {
                if phase == Phase::BackingOff {
                    *self = Supervisor { crash_count: count, backoff_secs: backoff, phase: Phase::Finished };
                    let r = vec![Effect::Publish(ServerState::Stopped)];
                    assert(effects_view(r@) =~= transition(s0, e).1);
                    r
                } else {
                    no_effects()
                }
            },
        }
    }
}


/// The URL a checked URL line announces, when its health check passed.
pub open spec fn ready_url(checked: Option<(Seq<char>, bool)>) -> Option<Seq<char>> {
    match checked {
        Some((line, healthy)) => if healthy {
            regex_group(url_line_pattern(), line, 1)
        } else {
            None
        },
        None => None,
    }
}

/// One round of waiting for the child to come up. `checked` is the URL line
/// checked in this round with the verdict of its health check, `stop` a stop
/// request, `exited` the child's exit (with its code), `past_deadline` whether
/// `START_TIMEOUT_SECS` have passed. A URL that passed the check wins; a
/// failed check at the deadline is `E_HEALTH_FAIL`; then a stop request, the
/// child's exit and the deadline, in this order; otherwise waiting goes on.
pub open spec fn spec_startup_poll(
    checked: Option<(Seq<char>, bool)>,
    stop: bool,
    exited: Option<Option<i32>>,
    past_deadline: bool,
) -> Option<EventView> {
    match ready_url(checked) {
        Some(url) => Some(EventView::StartupReady { url }),
        None => if (checked matches Some((_, healthy)) && !healthy) && past_deadline {
            Some(EventView::StartupHealthFailed)
        } else if stop {
            Some(EventView::StartupStopped)
        } else if exited is Some {
            Some(EventView::StartupExited { code: exited->0 })
        } else if past_deadline {
            Some(EventView::StartupTimedOut)
        } else {
            None
        },
    }
}

pub open spec fn opt_event(e: Option<Event>) -> Option<EventView> {
    match e {
        Some(e) => Some(e@),
        None => None,
    }
}

pub open spec fn checked_view(c: Option<(&str, bool)>) -> Option<(Seq<char>, bool)> {
    match c {
        Some((line, healthy)) => Some((line@, healthy)),
        None => None,
    }
}

/// Whether a line of the child's stdout is the URL line to check: it
/// announces the loopback URL and no URL line was taken before it (later
/// ones are ignored).
pub fn takes_url_line(line: &str, taken: bool) -> (r: bool)
    ensures
        r == (!taken && regex_group(url_line_pattern(), line@, 1) is Some),
{
    if taken {
        return false;
    }
    parse_url_line(line).is_some()
}

/// Decides one round of waiting for the child to come up (see
/// `spec_startup_poll`); `None` means waiting goes on.
pub fn startup_poll(
    checked: Option<(&str, bool)>,
    stop: bool,
    exited: Option<Option<i32>>,
    past_deadline: bool,
) -> (r: Option<Event>)
    ensures
        opt_event(r) == spec_startup_poll(checked_view(checked), stop, exited, past_deadline),
{
    let mut failed = false;
    if let Some((line, healthy)) = checked {
        if healthy {
            let url = parse_url_line(line);
            if let Some(url) = url {
                return Some(Event::StartupReady { url });
            }
        } else {
            failed = true;
        }
    }
    if failed && past_deadline {
        Some(Event::StartupHealthFailed)
    } else if stop {
        Some(Event::StartupStopped)
    } else if let Some(code) = exited {
        Some(Event::StartupExited { code })
    } else if past_deadline {
        Some(Event::StartupTimedOut)
    } else {
        None
    }
}

/// Only the child coming up publishes `Running`, and on the URL it came up on.
pub proof fn law_running_only_when_ready(s: SupervisorView, e: EventView, url: Seq<char>)
    requires
        transition(s, e).1.contains(EffectView::Publish(ServerStateView::Running { url })),
    ensures
        e == (EventView::StartupReady { url }),
{
    let r = EffectView::Publish(ServerStateView::Running { url });
    let effects = transition(s, e).1;
    let i = choose|i: int| 0 <= i < effects.len() && effects[i] == r;
    match e {
        EventView::StartupExited { code } => {
            let counted = SupervisorView { crash_count: s.crash_count + 1, ..s };
            let tail = after_crash(counted, code).1;
            assert(effects == seq![
                EffectView::Log("[app] 启动阶段子进程退出 code="@ + exit_code_text(code)),
                EffectView::CleanupChild,
            ] + tail);
            if i >= 2 {
                assert(tail[i - 2] == r);
            }
        },
        EventView::ChildExited { code } => {
            let counted = SupervisorView { crash_count: s.crash_count + 1, ..s };
            let tail = after_crash(counted, code).1;
            if i >= 2 {
                assert(effects[i] == tail[i - 2]);
            }
        },
        EventView::StartupHealthFailed => {
            assert(effects.len() == 3);
        },
        EventView::StartupTimedOut => {
            assert(effects.len() == 3);
        },
        _ => {},
    }
}

/// The server is published as running only on the URL read from the child's
/// URL line, and only after that URL passed the health check.
pub proof fn law_running_url_passed_health_check(
    s: SupervisorView,
    checked: Option<(Seq<char>, bool)>,
    stop: bool,
    exited: Option<Option<i32>>,
    past_deadline: bool,
    url: Seq<char>,
)
    requires
        spec_startup_poll(checked, stop, exited, past_deadline) is Some,
        transition(s, spec_startup_poll(checked, stop, exited, past_deadline)->0).1.contains(
            EffectView::Publish(ServerStateView::Running { url }),
        ),
    ensures
        checked matches Some((line, healthy)) && healthy && regex_group(url_line_pattern(), line, 1)
            == Some(url),
{
    law_running_only_when_ready(s, spec_startup_poll(checked, stop, exited, past_deadline)->0, url);
}

/// Before every start, whichever runtime was found, the host makes the web
/// profile list the bundled plugin, and does so before `Starting` is
/// published; the runtime's source changes nothing but the name logged first.
pub proof fn law_bundle_ensured_before_every_start(
    s: SupervisorView,
    source: RuntimeSource,
    other: RuntimeSource,
)
    requires
        s.phase == Phase::Resolving,
    ensures
        exists|i: int, j: int|
            #![trigger transition(s, EventView::RuntimeFound { source }).1[i], transition(s, EventView::RuntimeFound { source }).1[j]]
            0 <= i < j < transition(s, EventView::RuntimeFound { source }).1.len()
                && transition(s, EventView::RuntimeFound { source }).1[i] == EffectView::EnsureBundle
                && transition(s, EventView::RuntimeFound { source }).1[j] == EffectView::Publish(
                ServerStateView::Starting,
            ),
        transition(s, EventView::RuntimeFound { source }).1.len() == transition(
            s,
            EventView::RuntimeFound { source: other },
        ).1.len(),
        forall|k: int|
            1 <= k < transition(s, EventView::RuntimeFound { source }).1.len() ==> #[trigger] transition(
                s,
                EventView::RuntimeFound { source },
            ).1[k] == transition(s, EventView::RuntimeFound { source: other }).1[k],
{
    let fx = transition(s, EventView::RuntimeFound { source }).1;
    assert(fx[1] == EffectView::EnsureBundle);
    assert(fx[2] == EffectView::Publish(ServerStateView::Starting));
}

/// An exit of the child during startup is reported in the round it is
/// seen, however much of the start timeout is left: when no URL line was
/// checked in that round, or its check failed before the deadline, and the
/// user did not ask to stop.
pub proof fn law_startup_exit_seen_at_once(
    line: Seq<char>,
    code: Option<i32>,
    past_deadline: bool,
)
    ensures
        spec_startup_poll(None, false, Some(code), past_deadline) == Some(
            EventView::StartupExited { code },
        ),
        spec_startup_poll(Some((line, false)), false, Some(code), false) == Some(
            EventView::StartupExited { code },
        ),
{
}

} // verus!
