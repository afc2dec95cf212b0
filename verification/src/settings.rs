//! Application settings: DSH_HOME, port policy, working directory,
//! autostart and the size of the log buffer.
use vstd::prelude::*;

verus! {

/// How the `dsh web` child picks its port.
#[derive(Clone, Copy, Debug, PartialEq, Eq, Structural)]
pub enum PortPolicy {
    /// `--port 0`: the OS picks a free port.
    Auto,
    /// `--port <port>`.
    Fixed { port: u16 },
}

/// The persisted settings of the desktop client.
#[derive(Clone, Debug)]
pub struct AppSettings {
    /// `None` follows the environment variable `DSH_HOME` / the default `~/.dsh`.
    pub dsh_home: Option<String>,
    pub port_policy: PortPolicy,
    /// Working directory of the child; `None` is the user's home directory.
    pub cwd: Option<String>,
    pub autostart: bool,
    pub log_lines: usize,
}

/// Number of log lines kept when the settings do not say otherwise.
pub const DEFAULT_LOG_LINES: usize = 2000;

/// The log buffer never keeps fewer lines than this.
pub const MIN_LOG_LINES: usize = 100;

impl Default for AppSettings {
    fn default() -> (s: Self)
        ensures
            s.dsh_home is None,
            s.port_policy == PortPolicy::Auto,
            s.cwd is None,
            !s.autostart,
            s.log_lines == DEFAULT_LOG_LINES,
    {
        AppSettings {
            dsh_home: None,
            port_policy: PortPolicy::Auto,
            cwd: None,
            autostart: false,
            log_lines: DEFAULT_LOG_LINES,
        }
    }
}

impl AppSettings {
    /// Capacity of the log buffer: the configured number of lines, at least `MIN_LOG_LINES`.
    pub fn buffer_lines(&self) -> (n: usize)
        ensures
            n == if self.log_lines >= MIN_LOG_LINES {
                self.log_lines
            } else {
                MIN_LOG_LINES
            },
    {
        if self.log_lines >= MIN_LOG_LINES {
            self.log_lines
        } else {
            MIN_LOG_LINES
        }
    }
}

} // verus!
