//! Locating the node binary and the dsh entry script: the bundled runtime,
//! then the configured one, then the system PATH.
use vstd::prelude::*;

verus! {

/// Where a runtime was found.
#[derive(Clone, Copy, Debug, PartialEq, Eq, Structural)]
pub enum RuntimeSource {
    /// `DSH_DESKTOP_NODE` / `DSH_DESKTOP_DSH`.
    Config,
    /// The resources shipped with the application.
    Bundled,
    /// The system `PATH`.
    Path,
}

impl RuntimeSource {
    pub open spec fn spec_name(self) -> Seq<char> {
        match self {
            RuntimeSource::Config => "config"@,
            RuntimeSource::Bundled => "bundled"@,
            RuntimeSource::Path => "path"@,
        }
    }

    /// The name written to the log (`config`, `bundled` or `path`).
    pub fn name(&self) -> (r: &'static str)
        ensures
            r@ == self.spec_name(),
    {
        match self {
            RuntimeSource::Config => "config",
            RuntimeSource::Bundled => "bundled",
            RuntimeSource::Path => "path",
        }
    }
}

/// A node binary and the dsh `bin.js` it runs.
#[derive(Clone, Debug)]
pub struct Runtime {
    pub node: String,
    pub dsh_bin: String,
    pub source: RuntimeSource,
}

/// The operating system the client was built for.
#[derive(Clone, Copy, Debug, PartialEq, Eq, Structural)]
pub enum TargetOs {
    MacOs,
    Windows,
    Other,
}

/// The CPU architecture the client was built for.
#[derive(Clone, Copy, Debug, PartialEq, Eq, Structural)]
pub enum TargetArch {
    Aarch64,
    Other,
}

pub open spec fn spec_platform_dir(os: TargetOs, arch: TargetArch) -> Seq<char> {
    match os {
        TargetOs::MacOs => if arch == TargetArch::Aarch64 {
            "darwin-arm64"@
        } else {
            "darwin-x64"@
        },
        TargetOs::Windows => "win32-x64"@,
        TargetOs::Other => "linux-x64"@,
    }
}

/// Directory of the bundled node binary for a platform.
pub fn platform_dir(os: TargetOs, arch: TargetArch) -> (r: &'static str)
    ensures
        r@ == spec_platform_dir(os, arch),
{
    match os {
        TargetOs::MacOs => if arch == TargetArch::Aarch64 {
            "darwin-arm64"
        } else {
            "darwin-x64"
        },
        TargetOs::Windows => "win32-x64",
        TargetOs::Other => "linux-x64",
    }
}

/// File name of the node binary on a platform.
pub fn node_exe(os: TargetOs) -> (r: &'static str)
    ensures
        r@ == if os == TargetOs::Windows {
            "node.exe"@
        } else {
            "node"@
        },
{
    if os == TargetOs::Windows {
        "node.exe"
    } else {
        "node"
    }
}

/// A file counts as executable on Unix when any execute bit (`0x49`, octal 111) is set.
pub fn is_executable_mode(mode: u32) -> (r: bool)
    ensures
        r == (mode & 0x49u32 != 0),
{
    mode & 0x49 != 0
}

/// Whether a file can be run: it exists and, on Unix, its mode could be
/// read and has an execute bit set.
pub open spec fn runnable(is_file: bool, mode: Option<u32>, unix: bool) -> bool {
    is_file && (!unix || (mode matches Some(m) && m & 0x49u32 != 0))
}

fn is_runnable(is_file: bool, mode: Option<u32>, unix: bool) -> (r: bool)
    ensures
        r == runnable(is_file, mode, unix),
{
    if !is_file {
        return false;
    }
    if !unix {
        return true;
    }
    match mode {
        Some(m) => is_executable_mode(m),
        None => false,
    }
}

/// One place a program may be: the path, whether it names a file, and its
/// Unix mode when that could be read.
pub struct FileProbe {
    pub path: String,
    pub is_file: bool,
    pub mode: Option<u32>,
}

/// The program found on `PATH`: the first candidate (a `PATH` directory
/// joined with the program's name, in `PATH` order) that can be run.
pub fn find_executable(candidates: &Vec<FileProbe>, unix: bool) -> (r: Option<String>)
    ensures
        match r {
            Some(p) => exists|i: int|
                0 <= i < candidates@.len() && runnable(
                    candidates@[i].is_file,
                    candidates@[i].mode,
                    unix,
                ) && candidates@[i].path@ == p@ && (forall|k: int|
                    0 <= k < i ==> !runnable(
                        #[trigger] candidates@[k].is_file,
                        candidates@[k].mode,
                        unix,
                    )),
            None => forall|k: int|
                0 <= k < candidates@.len() ==> !runnable(
                    #[trigger] candidates@[k].is_file,
                    candidates@[k].mode,
                    unix,
                ),
        },
{
    let mut i: usize = 0;
    while i < candidates.len()
        invariant
            i <= candidates@.len(),
            forall|k: int|
                0 <= k < i ==> !runnable(#[trigger] candidates@[k].is_file, candidates@[k].mode, unix),
        decreases candidates.len() - i,
    {
        let c = &candidates[i];
        if is_runnable(c.is_file, c.mode, unix) {
            return Some(c.path.clone());
        }
        i = i + 1;
    }
    None
}

/// What the probe chain found on disk and in the environment.
pub struct RuntimeProbe {
    /// Whether the client runs on Unix (where execute bits are checked).
    pub unix: bool,
    /// The bundled node binary and dsh script.
    pub bundled_node: FileProbe,
    pub bundled_dsh: FileProbe,
    /// The node binary and dsh script named by `DSH_DESKTOP_NODE` and
    /// `DSH_DESKTOP_DSH`, when both are set.
    pub configured: Option<(FileProbe, FileProbe)>,
    /// The executables found on `PATH` (the dsh one with symlinks resolved).
    pub path_node: Option<String>,
    pub path_dsh: Option<String>,
}

/// Whether a node binary and a dsh script make a usable runtime: node can
/// be run and the script exists.
pub open spec fn usable_pair(node: FileProbe, dsh: FileProbe, unix: bool) -> bool {
    runnable(node.is_file, node.mode, unix) && dsh.is_file
}

pub open spec fn no_node_on_path_msg() -> Seq<char> {
    "未在 PATH 找到 node"@
}

pub open spec fn no_dsh_on_path_msg() -> Seq<char> {
    "未在 PATH 找到 dsh;请先 npm i -g @deepseek-ai/dsh 或配置 bundled 运行时"@
}

/// The runtime the probe chain picks, in its order of priority.
/// The configured runtime's paths, when it is usable.
pub open spec fn usable_configured(p: RuntimeProbe) -> Option<(Seq<char>, Seq<char>)> {
    match p.configured {
        Some((n, d)) => if usable_pair(n, d, p.unix) {
            Some((n.path@, d.path@))
        } else {
            None
        },
        None => None,
    }
}

/// The runtime the probe chain picks, in its order of priority.
pub open spec fn chosen_runtime(p: RuntimeProbe) -> Result<(Seq<char>, Seq<char>, RuntimeSource), Seq<char>> {
    if usable_pair(p.bundled_node, p.bundled_dsh, p.unix) {
        Ok((p.bundled_node.path@, p.bundled_dsh.path@, RuntimeSource::Bundled))
    } else {
        match usable_configured(p) {
            Some((n, d)) => Ok((n, d, RuntimeSource::Config)),
            None => if p.path_node is None {
                Err(no_node_on_path_msg())
            } else if p.path_dsh is None {
                Err(no_dsh_on_path_msg())
            } else {
                Ok((p.path_node->0@, p.path_dsh->0@, RuntimeSource::Path))
            },
        }
    }
}

pub open spec fn runtime_view(r: Result<Runtime, String>) -> Result<(Seq<char>, Seq<char>, RuntimeSource), Seq<char>> {
    match r {
        Ok(rt) => Ok((rt.node@, rt.dsh_bin@, rt.source)),
        Err(e) => Err(e@),
    }
}

/// Picks the runtime: the bundled one when its node can be run and its
/// script exists, else the configured one under the same check, else what
/// `PATH` offers.
pub fn select_runtime(probe: RuntimeProbe) -> (r: Result<Runtime, String>)
    ensures
        runtime_view(r) == chosen_runtime(probe),
{
    let unix = probe.unix;
    if is_runnable(probe.bundled_node.is_file, probe.bundled_node.mode, unix)
        && probe.bundled_dsh.is_file {
        return Ok(
            Runtime {
                node: probe.bundled_node.path,
                dsh_bin: probe.bundled_dsh.path,
                source: RuntimeSource::Bundled,
            },
        );
    }
    if let Some((node, dsh)) = probe.configured {
        if is_runnable(node.is_file, node.mode, unix) && dsh.is_file {
            return Ok(Runtime { node: node.path, dsh_bin: dsh.path, source: RuntimeSource::Config });
        }
    }
    match (probe.path_node, probe.path_dsh) {
        (None, _) => Err(String::from_str("未在 PATH 找到 node")),
        (Some(_), None) => Err(
            String::from_str("未在 PATH 找到 dsh;请先 npm i -g @deepseek-ai/dsh 或配置 bundled 运行时"),
        ),
        (Some(node), Some(dsh)) => Ok(Runtime { node, dsh_bin: dsh, source: RuntimeSource::Path }),
    }
}

} // verus!
