//! The build plan an Anybuild file evaluates to: packages, steps, mounts,
//! volumes and services, and where mounts live for each backend.
//!
//! Ordered maps (environment variables, commands) are vectors of pairs in
//! insertion order with distinct keys.
use vstd::prelude::*;
use crate::paths::{join, join_spec};
use crate::text::{copy_str, eq_str, push_char, push_str, starts_with_str, has_prefix};

verus! {

#[derive(Debug, Clone, PartialEq, Eq)]
pub struct Mount {
    pub name: String,
    pub build_path: String,
    pub serve_path: String,
}

#[derive(Debug, Clone, PartialEq, Eq)]
pub struct Volume {
    pub name: String,
    pub path: String,
    pub serve_path: String,
}

#[derive(Debug, Clone, PartialEq, Eq)]
pub struct Service {
    pub name: String,
    /// "postgres" | "mysql" | "redis"
    pub provider: String,
}

#[derive(Debug, Clone, PartialEq, Eq)]
pub struct Package {
    pub name: String,
    pub version: Option<String>,
    /// "64-bit" | "32-bit"
    pub architecture: Option<String>,
}

/// `name(arch)@version`, each part only when present.
pub open spec fn package_text(p: Package) -> Seq<char> {
    let head = match p.architecture {
        Some(arch) => p.name@ + seq!['('] + arch@ + seq![')'],
        None => p.name@,
    };
    match p.version {
        Some(v) => head + seq!['@'] + v@,
        None => head,
    }
}

impl Package {
    /// The package as a dependency string, `name(arch)@version`.
    pub fn display(&self) -> (r: String)
        ensures
            r@ == package_text(*self),
    {
        let mut out = copy_str(&self.name);
        match &self.architecture {
            Some(arch) => {
                push_char(&mut out, '(');
                push_str(&mut out, arch);
                push_char(&mut out, ')');
            },
            None => {},
        }
        match &self.version {
            Some(v) => {
                push_char(&mut out, '@');
                push_str(&mut out, v);
            },
            None => {},
        }
        out
    }
}

#[derive(Debug, Clone, PartialEq, Eq)]
pub struct RunStep {
    pub command: String,
    pub inputs: Option<Vec<String>>,
    pub outputs: Option<Vec<String>>,
    pub group: Option<String>,
}

#[derive(Debug, Clone, PartialEq, Eq)]
pub struct WorkdirStep {
    pub path: String,
}

#[derive(Debug, Clone, PartialEq, Eq)]
pub struct CopyStep {
    pub source: String,
    pub target: String,
    pub ignore: Option<Vec<String>>,
    /// "source" | "assets"
    pub base: String,
}

/// A copy whose source is an `http://` or `https://` URL.
pub open spec fn is_download_source(source: Seq<char>) -> bool {
    has_prefix(source, "http://"@) || has_prefix(source, "https://"@)
}

impl CopyStep {
    pub fn is_download(&self) -> (r: bool)
        ensures
            r == is_download_source(self.source@),
    {
        starts_with_str(&self.source, "http://") || starts_with_str(&self.source, "https://")
    }
}

#[derive(Debug, Clone, PartialEq, Eq)]
pub struct EnvStep {
    pub variables: Vec<(String, String)>,
}

#[derive(Debug, Clone, PartialEq, Eq)]
pub struct UseStep {
    pub dependencies: Vec<Package>,
}

#[derive(Debug, Clone, PartialEq, Eq)]
pub struct PathStep {
    pub path: String,
}

#[derive(Debug, Clone, PartialEq, Eq)]
pub struct WriteFileStep {
    pub path: String,
    pub content: String,
}

#[derive(Debug, Clone, PartialEq, Eq)]
pub enum Step {
    Run(RunStep),
    Copy(CopyStep),
    Env(EnvStep),
    Path(PathStep),
    Use(UseStep),
    Workdir(WorkdirStep),
    WriteFile(WriteFileStep),
}

pub open spec fn step_type_name(step: Step) -> Seq<char> {
    match step {
        Step::Run(_) => "RunStep"@,
        Step::Copy(_) => "CopyStep"@,
        Step::Env(_) => "EnvStep"@,
        Step::Path(_) => "PathStep"@,
        Step::Use(_) => "UseStep"@,
        Step::Workdir(_) => "WorkdirStep"@,
        Step::WriteFile(_) => "WriteFileStep"@,
    }
}

impl Step {
    /// The tag naming the step's kind in serialized plans.
    pub fn kind_name(&self) -> (r: &'static str)
        ensures
            r@ == step_type_name(*self),
    {
        match self {
            Step::Run(_) => "RunStep",
            Step::Copy(_) => "CopyStep",
            Step::Env(_) => "EnvStep",
            Step::Path(_) => "PathStep",
            Step::Use(_) => "UseStep",
            Step::Workdir(_) => "WorkdirStep",
            Step::WriteFile(_) => "WriteFileStep",
        }
    }
}

/// A prepared serve: the evaluated plan.
#[derive(Debug, Clone, PartialEq, Eq)]
pub struct Serve {
    pub name: String,
    pub provider: String,
    pub build: Vec<Step>,
    pub deps: Vec<Package>,
    pub commands: Vec<(String, String)>,
    pub cwd: Option<String>,
    pub prepare: Option<Vec<RunStep>>,
    pub mounts: Option<Vec<Mount>>,
    pub volumes: Option<Vec<Volume>>,
    pub env: Option<Vec<(String, String)>>,
    pub services: Option<Vec<Service>>,
}

// ---------------------------------------------------------------------------
// Mount layouts

/// Where mounts and volumes live for a given backend and runner.
pub trait MountLayout {
    fn build_mount_path(&self, name: &str) -> String;

    fn serve_mount_path(&self, name: &str) -> String;

    fn volume_path(&self, name: &str) -> String;
}

/// `<dir>/local/build`.
pub open spec fn local_build_path(dir: Seq<char>) -> Seq<char> {
    join_spec(join_spec(dir, "local"@), "build"@)
}

/// The app mount at `<build>/app`, any other at `<build>/opt/<name>`.
pub open spec fn local_mount_path(dir: Seq<char>, name: Seq<char>) -> Seq<char> {
    if name == "app"@ {
        join_spec(local_build_path(dir), "app"@)
    } else {
        join_spec(join_spec(local_build_path(dir), "opt"@), name)
    }
}

/// `<dir>/volumes/<name>`.
pub open spec fn volume_path_in(dir: Seq<char>, name: Seq<char>) -> Seq<char> {
    join_spec(join_spec(dir, "volumes"@), name)
}

/// The local backend's layout under the `.anybuild` directory. The local
/// runner serves from the build artifacts, so serve paths equal build
/// paths.
#[derive(Debug, Clone, PartialEq, Eq)]
pub struct LocalLayout {
    pub anybuild_dir: String,
}

impl LocalLayout {
    pub fn new(anybuild_dir: String) -> (r: Self)
        ensures
            r.anybuild_dir@ == anybuild_dir@,
    {
        LocalLayout { anybuild_dir }
    }

    pub fn build_path(&self) -> (r: String)
        ensures
            r@ == local_build_path(self.anybuild_dir@),
    {
        let local = join(&self.anybuild_dir, "local");
        join(&local, "build")
    }

    fn mount_path(&self, name: &str) -> (r: String)
        ensures
            r@ == local_mount_path(self.anybuild_dir@, name@),
    {
        let build = self.build_path();
        if eq_str(name, "app") {
            join(&build, "app")
        } else {
            let opt = join(&build, "opt");
            join(&opt, name)
        }
    }
}

impl MountLayout for LocalLayout {
    fn build_mount_path(&self, name: &str) -> (r: String)
        ensures
            r@ == local_mount_path(self.anybuild_dir@, name@),
    {
        self.mount_path(name)
    }

    fn serve_mount_path(&self, name: &str) -> (r: String)
        ensures
            r@ == local_mount_path(self.anybuild_dir@, name@),
    {
        self.mount_path(name)
    }

    fn volume_path(&self, name: &str) -> (r: String)
        ensures
            r@ == volume_path_in(self.anybuild_dir@, name@),
    {
        let volumes = join(&self.anybuild_dir, "volumes");
        join(&volumes, name)
    }
}

/// `/app` for the app mount, `/opt/<name>` for any other.
pub open spec fn container_mount_path(name: Seq<char>) -> Seq<char> {
    if name == "app"@ {
        "/app"@
    } else {
        join_spec("/opt"@, name)
    }
}

/// The serve-side layout inside a container.
#[derive(Debug, Clone, Copy, PartialEq, Eq)]
pub struct ContainerServeLayout;

impl ContainerServeLayout {
    pub fn serve_mount_path(name: &str) -> (r: String)
        ensures
            r@ == container_mount_path(name@),
    {
        if eq_str(name, "app") {
            copy_str("/app")
        } else {
            join("/opt", name)
        }
    }
}

} // verus!
