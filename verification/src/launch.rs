//! How the `dsh web` child is started: its command line, working
//! directory and environment, and where the home directories are.
use vstd::prelude::*;
use crate::runtime::{Runtime, RuntimeSource, TargetOs};
use crate::settings::{AppSettings, PortPolicy};
use crate::text::{dec, push_dec};

verus! {

pub open spec fn strs(v: Seq<String>) -> Seq<Seq<char>> {
    v.map_values(|s: String| s@)
}

pub open spec fn opt_str(o: Option<String>) -> Option<Seq<char>> {
    match o {
        Some(s) => Some(s@),
        None => None,
    }
}

/// The value given to `--port`.
pub open spec fn port_arg(p: PortPolicy) -> Seq<char> {
    match p {
        PortPolicy::Auto => "0"@,
        PortPolicy::Fixed { port } => dec(port as nat),
    }
}

/// Arguments given to node: the dsh script, `web`, `--no-open` for the
/// bundled runtime only (older dsh builds found elsewhere reject it), and the port.
pub open spec fn launch_args(dsh_bin: Seq<char>, source: RuntimeSource, p: PortPolicy) -> Seq<
    Seq<char>,
> {
    seq![dsh_bin, "web"@] + (if source == RuntimeSource::Bundled {
        seq!["--no-open"@]
    } else {
        Seq::empty()
    }) + seq!["--port"@, port_arg(p)]
}

pub open spec fn non_bundled_note() -> Seq<char> {
    "[app] runtime 非 bundled,不传 --no-open(兼容旧 dsh)"@
}

/// The log lines written while the command is assembled.
pub open spec fn launch_notes(source: RuntimeSource, p: PortPolicy) -> Seq<Seq<char>> {
    (if source == RuntimeSource::Bundled {
        Seq::empty()
    } else {
        seq![non_bundled_note()]
    }) + match p {
        PortPolicy::Fixed { port } => seq!["[app] port policy: fixed "@ + dec(port as nat)],
        PortPolicy::Auto => Seq::empty(),
    }
}

/// The command that starts `dsh web`, before the host spawns it with
/// stdin closed, stdout and stderr piped and in a process group of its own.
pub struct LaunchPlan {
    pub program: String,
    pub args: Vec<String>,
    /// Working directory; `None` means the user's home directory.
    pub cwd: Option<String>,
    /// Value for the child's `DSH_HOME`; `None` leaves the inherited one.
    pub dsh_home: Option<String>,
    /// Lines to log.
    pub notes: Vec<String>,
}

fn clone_opt(o: &Option<String>) -> (r: Option<String>)
    ensures
        opt_str(r) == opt_str(*o),
{
    match o {
        Some(s) => Some(s.clone()),
        None => None,
    }
}

/// Assembles the command line of the child from the runtime and the settings.
pub fn launch_plan(rt: &Runtime, settings: &AppSettings) -> (plan: LaunchPlan)
    ensures
        plan.program@ == rt.node@,
        strs(plan.args@) == launch_args(rt.dsh_bin@, rt.source, settings.port_policy),
        strs(plan.notes@) == launch_notes(rt.source, settings.port_policy),
        opt_str(plan.cwd) == opt_str(settings.cwd),
        opt_str(plan.dsh_home) == opt_str(settings.dsh_home),
{
    let mut args: Vec<String> = Vec::new();
    let mut notes: Vec<String> = Vec::new();
    args.push(rt.dsh_bin.clone());
    args.push(String::from_str("web"));
    if rt.source == RuntimeSource::Bundled {
        args.push(String::from_str("--no-open"));
    } else {
        notes.push(String::from_str("[app] runtime 非 bundled,不传 --no-open(兼容旧 dsh)"));
    }
    args.push(String::from_str("--port"));
    match settings.port_policy {
        PortPolicy::Auto => {
            args.push(String::from_str("0"));
        },
        PortPolicy::Fixed { port } => {
            let mut p = String::new();
            push_dec(&mut p, port as u64);
            args.push(p);
            let mut note = String::from_str("[app] port policy: fixed ");
            push_dec(&mut note, port as u64);
            notes.push(note);
        },
    }
    assert(strs(args@) =~= launch_args(rt.dsh_bin@, rt.source, settings.port_policy));
    assert(strs(notes@) =~= launch_notes(rt.source, settings.port_policy));
    LaunchPlan {
        program: rt.node.clone(),
        args,
        cwd: clone_opt(&settings.cwd),
        dsh_home: clone_opt(&settings.dsh_home),
        notes,
    }
}

/// The environment variables the home directories are derived from.
pub struct HomeEnv {
    pub dsh_home: Option<String>,
    pub home: Option<String>,
    pub userprofile: Option<String>,
    pub homedrive: Option<String>,
    pub homepath: Option<String>,
}

/// A path given as components to join in order; no component is the empty path.
pub type PathParts = Vec<String>;

/// The user's home directory: on Windows `USERPROFILE`, else `HOMEDRIVE`
/// joined with `HOMEPATH`, else `C:\`; elsewhere `HOME`, else `/`.
pub open spec fn user_home_parts(os: TargetOs, env: HomeEnv) -> Seq<Seq<char>> {
    if os == TargetOs::Windows {
        match (env.userprofile, env.homedrive, env.homepath) {
            (Some(u), _, _) => seq![u@],
            (None, Some(d), Some(p)) => seq![d@, p@],
            _ => seq!["C:\\"@],
        }
    } else {
        match env.home {
            Some(h) => seq![h@],
            None => seq!["/"@],
        }
    }
}

pub fn user_home(os: TargetOs, env: &HomeEnv) -> (r: PathParts)
    ensures
        strs(r@) == user_home_parts(os, *env),
{
    let mut r: Vec<String> = Vec::new();
    if os == TargetOs::Windows {
        match (&env.userprofile, &env.homedrive, &env.homepath) {
            (Some(u), _, _) => r.push(u.clone()),
            (None, Some(d), Some(p)) => {
                r.push(d.clone());
                r.push(p.clone());
            },
            _ => r.push(String::from_str("C:\\")),
        }
    } else {
        match &env.home {
            Some(h) => r.push(h.clone()),
            None => r.push(String::from_str("/")),
        }
    }
    assert(strs(r@) =~= user_home_parts(os, *env));
    r
}

/// The DSH_HOME the server uses: the same rule as for the theme (the
/// setting, else `DSH_HOME`, else `.dsh` under the user's home directory);
/// none when none of them is set.
pub open spec fn server_dsh_home_parts(os: TargetOs, setting: Option<String>, env: HomeEnv) -> Option<
    Seq<Seq<char>>,
> {
    if theme_dsh_home_parts(os, setting, env).len() > 0 {
        Some(theme_dsh_home_parts(os, setting, env))
    } else {
        None
    }
}

pub fn server_dsh_home(os: TargetOs, setting: &Option<String>, env: &HomeEnv) -> (r: Option<
    PathParts,
>)
    ensures
        match r {
            Some(v) => server_dsh_home_parts(os, *setting, *env) == Some(strs(v@)),
            None => server_dsh_home_parts(os, *setting, *env) is None,
        },
{
    let r = theme_dsh_home(os, setting, env);
    if r.len() > 0 {
        Some(r)
    } else {
        None
    }
}

/// The DSH_HOME whose `settings.yaml` holds the theme: the setting, else
/// `DSH_HOME`, else `.dsh` under the user's home (on Windows `USERPROFILE`,
/// else `HOMEDRIVE` + `HOMEPATH`; elsewhere `HOME`); the empty path when
/// none of them is set.
pub open spec fn theme_dsh_home_parts(os: TargetOs, setting: Option<String>, env: HomeEnv) -> Seq<
    Seq<char>,
> {
    match (setting, env.dsh_home) {
        (Some(s), _) => seq![s@],
        (None, Some(d)) => seq![d@],
        (None, None) => if os == TargetOs::Windows {
            match (env.userprofile, env.homedrive, env.homepath) {
                (Some(u), _, _) => seq![u@, ".dsh"@],
                (None, Some(d), Some(p)) => seq![d@, p@, ".dsh"@],
                _ => Seq::empty(),
            }
        } else {
            match env.home {
                Some(h) => seq![h@, ".dsh"@],
                None => Seq::empty(),
            }
        },
    }
}

pub fn theme_dsh_home(os: TargetOs, setting: &Option<String>, env: &HomeEnv) -> (r: PathParts)
    ensures
        strs(r@) == theme_dsh_home_parts(os, *setting, *env),
{
    let mut r: Vec<String> = Vec::new();
    match (setting, &env.dsh_home) {
        (Some(s), _) => r.push(s.clone()),
        (None, Some(d)) => r.push(d.clone()),
        (None, None) => {
            if os == TargetOs::Windows {
                match (&env.userprofile, &env.homedrive, &env.homepath) {
                    (Some(u), _, _) => {
                        r.push(u.clone());
                        r.push(String::from_str(".dsh"));
                    },
                    (None, Some(d), Some(p)) => {
                        r.push(d.clone());
                        r.push(p.clone());
                        r.push(String::from_str(".dsh"));
                    },
                    _ => {},
                }
            } else {
                match &env.home {
                    Some(h) => {
                        r.push(h.clone());
                        r.push(String::from_str(".dsh"));
                    },
                    None => {},
                }
            }
        },
    }
    assert(strs(r@) =~= theme_dsh_home_parts(os, *setting, *env));
    r
}

proof fn lemma_dec_starts_with_digit(n: nat)
    ensures
        dec(n).len() >= 1,
        dec(n)[0] != '-',
    decreases n,
{
    if n >= 10 {
        lemma_dec_starts_with_digit(n / 10);
    }
}

/// `--no-open` is passed (after the script) exactly for the bundled runtime,
/// and the note that it is left out is logged exactly for the others.
pub proof fn law_no_open_only_for_bundled(dsh_bin: Seq<char>, source: RuntimeSource, p: PortPolicy)
    ensures
        launch_args(dsh_bin, source, p).subrange(1, launch_args(dsh_bin, source, p).len() as int).contains(
            "--no-open"@,
        ) <==> source == RuntimeSource::Bundled,
        launch_notes(source, p).contains(non_bundled_note()) <==> source != RuntimeSource::Bundled,
{
    reveal_strlit("--no-open");
    reveal_strlit("--port");
    reveal_strlit("web");
    reveal_strlit("0");
    reveal_strlit("[app] runtime 非 bundled,不传 --no-open(兼容旧 dsh)");
    reveal_strlit("[app] port policy: fixed ");
    let args = launch_args(dsh_bin, source, p);
    let rest = args.subrange(1, args.len() as int);
    let no_open = "--no-open"@;
    match p {
        PortPolicy::Fixed { port } => lemma_dec_starts_with_digit(port as nat),
        PortPolicy::Auto => {},
    }
    assert(port_arg(p)[0] != '-');
    assert(port_arg(p) != no_open);
    assert(no_open.len() == 9);
    assert("web"@.len() == 3);
    assert("--port"@.len() == 6);
    assert("web"@ != no_open);
    assert("--port"@ != no_open);
    if source == RuntimeSource::Bundled {
        assert(rest[1] == no_open);
    } else {
        assert(rest =~= seq!["web"@, "--port"@, port_arg(p)]);
        assert forall|k: int| 0 <= k < rest.len() implies rest[k] != no_open by {}
    }
    let notes = launch_notes(source, p);
    let nb = non_bundled_note();
    match p {
        PortPolicy::Fixed { port } => {
            let fixed = "[app] port policy: fixed "@ + dec(port as nat);
            assert(fixed[6] != nb[6]);
            if source == RuntimeSource::Bundled {
                assert(notes =~= seq![fixed]);
            } else {
                assert(notes[0] == nb);
            }
        },
        PortPolicy::Auto => {
            if source == RuntimeSource::Bundled {
                assert(notes =~= Seq::<Seq<char>>::empty());
            } else {
                assert(notes[0] == nb);
            }
        },
    }
}

} // verus!
