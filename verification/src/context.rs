//! What a command resolves before it builds: which backend and runner it
//! uses, and the shared settings with the command line's overrides.
use vstd::prelude::*;
use crate::base::{parse_i64, parse_i64_exec, BaseConfig};
use crate::env_map::{map_get, map_get_exec, pairs_view};
use crate::text::{chars_of, copy_str};

verus! {

/// The backend and runner flags shared by the commands.
#[derive(Debug, Clone, PartialEq, Eq, Default)]
pub struct EnvironmentOptions {
    pub wasmer: bool,
    pub wasmer_bin: Option<String>,
    pub wasmer_registry: Option<String>,
    pub wasmer_token: Option<String>,
    pub docker: bool,
    pub docker_client: Option<String>,
    pub docker_opts: Option<String>,
}

impl EnvironmentOptions {
    /// Builds run in Docker when asked to, or when a Docker client is
    /// named.
    pub fn uses_docker_backend(&self) -> (r: bool)
        ensures
            r == (self.docker || self.docker_client is Some),
    {
        self.docker || self.docker_client.is_some()
    }

    /// The app runs on Wasmer when asked to, else locally.
    pub fn uses_wasmer_runner(&self) -> (r: bool)
        ensures
            r == self.wasmer,
    {
        self.wasmer
    }
}

/// A text of ASCII digits only, and at least one.
pub open spec fn all_ascii_digits(s: Seq<char>) -> bool {
    s.len() > 0 && forall|i: int| 0 <= i < s.len() ==> '0' <= #[trigger] s[i] <= '9'
}

/// The serve port: the command line's, else `PORT` when it is all digits
/// and fits.
pub open spec fn serve_port_spec(overridden: Option<i64>, env: Seq<(Seq<char>, Seq<char>)>) -> Option<i64> {
    match overridden {
        Some(p) => Some(p),
        None => match map_get(env, "PORT"@) {
            Some(v) => if all_ascii_digits(v) {
                parse_i64(v)
            } else {
                None
            },
            None => None,
        },
    }
}

fn digits_only(s: &Vec<char>) -> (r: bool)
    ensures
        r == all_ascii_digits(s@),
{
    if s.len() == 0 {
        return false;
    }
    let mut i: usize = 0;
    while i < s.len()
        invariant
            0 <= i <= s@.len(),
            forall|k: int| 0 <= k < i ==> '0' <= #[trigger] s@[k] <= '9',
        decreases s@.len() - i,
    {
        if s[i] < '0' || s[i] > '9' {
            return false;
        }
        i = i + 1;
    }
    true
}

pub fn serve_port(overridden: Option<i64>, env: &Vec<(String, String)>) -> (r: Option<i64>)
    ensures
        r == serve_port_spec(overridden, pairs_view(env@)),
{
    match overridden {
        Some(p) => Some(p),
        None => match map_get_exec(env, "PORT") {
            Some(v) => {
                let chars = chars_of(v.as_str());
                if digits_only(&chars) {
                    parse_i64_exec(&chars)
                } else {
                    None
                }
            },
            None => None,
        },
    }
}

/// The shared settings of a command: the start command of a Procfile, then
/// the command line's start, install and build commands, and its serve port
/// (or `PORT`).
pub open spec fn with_overrides(
    before: BaseConfig,
    after: BaseConfig,
    procfile_start: Option<Seq<char>>,
    start: Option<Seq<char>>,
    install: Option<Seq<char>>,
    build: Option<Seq<char>>,
    port: Option<i64>,
) -> bool {
    let start_after = match start {
        Some(s) => Some(s),
        None => match procfile_start {
            Some(s) => Some(s),
            None => crate::node::opt_text(before.commands.start),
        },
    };
    &&& crate::node::opt_text(after.commands.start) == start_after
    &&& crate::node::opt_text(after.commands.install) == match install {
        Some(s) => Some(s),
        None => crate::node::opt_text(before.commands.install),
    }
    &&& crate::node::opt_text(after.commands.build) == match build {
        Some(s) => Some(s),
        None => crate::node::opt_text(before.commands.build),
    }
    &&& after.commands.after_deploy == before.commands.after_deploy
    &&& after.port == match port {
        Some(p) => Some(p),
        None => before.port,
    }
    &&& after.name == before.name
    &&& after.app_subdir == before.app_subdir
    &&& after.runtime_dependencies == before.runtime_dependencies
    &&& after.database == before.database
}

fn opt_copy(o: Option<&str>) -> (r: Option<String>)
    ensures
        crate::node::opt_text(r) == match o {
            Some(s) => Some(s@),
            None => None,
        },
{
    match o {
        Some(s) => Some(copy_str(s)),
        None => None,
    }
}

/// Apply a Procfile's start command (`procfile_start`) and the command
/// line's overrides to the shared settings.
pub fn apply_overrides(
    base: &mut BaseConfig,
    procfile_start: Option<&str>,
    start: Option<&str>,
    install: Option<&str>,
    build: Option<&str>,
    port_override: Option<i64>,
    env: &Vec<(String, String)>,
)
    ensures
        with_overrides(
            *old(base),
            *final(base),
            match procfile_start {
                Some(s) => Some(s@),
                None => None,
            },
            match start {
                Some(s) => Some(s@),
                None => None,
            },
            match install {
                Some(s) => Some(s@),
                None => None,
            },
            match build {
                Some(s) => Some(s@),
                None => None,
            },
            serve_port_spec(port_override, pairs_view(env@)),
        ),
{
    if procfile_start.is_some() {
        base.commands.start = opt_copy(procfile_start);
    }
    if start.is_some() {
        base.commands.start = opt_copy(start);
    }
    if install.is_some() {
        base.commands.install = opt_copy(install);
    }
    if build.is_some() {
        base.commands.build = opt_copy(build);
    }
    if let Some(port) = serve_port(port_override, env) {
        base.port = Some(port);
    }
}

} // verus!
