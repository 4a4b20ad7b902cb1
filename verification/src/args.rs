//! Argument groups of the command line, shared between its commands.
//!
//! The surfaces are deliberately non-uniform (`run` takes no
//! `--wasmer-token`, `deploy` takes no `--docker`), so commands compose
//! small groups rather than one superset of flags.
use vstd::prelude::*;

verus! {

/// The build backend (`--builder`).
#[derive(Debug, Clone, Copy, PartialEq, Eq, Structural)]
pub enum BuildTarget {
    Local,
    Docker,
}

/// The runtime (`--runner`).
#[derive(Debug, Clone, Copy, PartialEq, Eq, Structural)]
pub enum RunTarget {
    Local,
    Docker,
    Wasmer,
    /// The AWS Lambda runtime, which `--platform=aws-lambda` selects.
    Lambda,
}

/// The deployment platform (`--platform`); Wasmer unless one is named.
#[derive(Debug, Clone, Copy, PartialEq, Eq, Structural, Default)]
pub enum DeploymentPlatformArg {
    #[default]
    Wasmer,
    Fly,
    AwsLambda,
}

/// The Lambda instruction-set architecture (`--aws-architecture`).
#[derive(Debug, Clone, Copy, PartialEq, Eq, Structural)]
pub enum LambdaArchitectureArg {
    X86_64,
    Arm64,
}

/// `--builder` and `--runner`.
#[derive(Debug, Clone, Copy, PartialEq, Eq, Structural, Default)]
pub struct ExecutionTargetArgs {
    pub builder: Option<BuildTarget>,
    pub runner: Option<RunTarget>,
}

/// The positional project path and `--subdir` (every command).
#[derive(Debug, Clone, PartialEq, Eq, Default)]
pub struct ProjectArgs {
    pub path: String,
    pub subdir: Option<String>,
}

/// Wasmer connection settings shared by `build`, `deploy` and `auto`.
#[derive(Debug, Clone, PartialEq, Eq, Default)]
pub struct WasmerConnArgs {
    pub wasmer_bin: Option<String>,
    pub wasmer_registry: Option<String>,
    pub wasmer_token: Option<String>,
}

/// Fly.io settings.
#[derive(Debug, Clone, PartialEq, Eq, Default)]
pub struct FlyPlatformArgs {
    pub fly_bin: Option<String>,
    pub fly_token: Option<String>,
    pub fly_app: Option<String>,
    pub fly_config: Option<String>,
}

/// AWS Lambda settings.
#[derive(Debug, Clone, PartialEq, Eq, Default)]
pub struct AwsLambdaPlatformArgs {
    pub aws_bin: Option<String>,
    pub aws_docker_client: Option<String>,
    pub aws_profile: Option<String>,
    pub aws_region: Option<String>,
    pub aws_function: Option<String>,
    pub aws_role: Option<String>,
    pub aws_repository: Option<String>,
    pub aws_image_tag: Option<String>,
    pub aws_architecture: Option<LambdaArchitectureArg>,
}

/// Command selection shared by `run` and `auto`.
#[derive(Debug, Clone, PartialEq, Eq, Default)]
pub struct RunSelectionArgs {
    pub command_names: Vec<String>,
    pub volume_specs: Vec<String>,
    pub start: bool,
    pub no_start: bool,
    pub after_deploy: bool,
    pub no_after_deploy: bool,
}

impl RunSelectionArgs {
    /// `--start`, unless `--no-start` overrides it.
    pub fn effective_start(&self) -> (r: bool)
        ensures
            r == (self.start && !self.no_start),
    {
        self.start && !self.no_start
    }

    /// `--after-deploy`, unless `--no-after-deploy` overrides it.
    pub fn effective_after_deploy(&self) -> (r: bool)
        ensures
            r == (self.after_deploy && !self.no_after_deploy),
    {
        self.after_deploy && !self.no_after_deploy
    }
}

/// Deploy target shared by `deploy` and `auto`.
#[derive(Debug, Clone, PartialEq, Eq, Default)]
pub struct DeployTargetArgs {
    pub wasmer_deploy_config: Option<String>,
    pub wasmer_app_owner: Option<String>,
    pub wasmer_app_name: Option<String>,
}

/// The project settings that every SDK client is made from.
#[derive(Debug, Clone, PartialEq, Eq, Default)]
pub struct SharedProjectArgs {
    pub path: String,
    pub subdir: Option<String>,
    pub install_command: Option<String>,
    pub build_command: Option<String>,
    pub start_command: Option<String>,
    pub provider: Option<String>,
    pub config: Option<String>,
}

/// Execution flags of the command line, before they become SDK options.
#[derive(Debug, Clone, PartialEq, Eq, Default)]
pub struct EnvironmentOptions {
    pub wasmer: bool,
    pub wasmer_bin: Option<String>,
    pub wasmer_registry: Option<String>,
    pub wasmer_token: Option<String>,
    pub docker: bool,
    pub docker_client: Option<String>,
    pub docker_opts: Option<String>,
}

/// The arguments of `build`.
#[derive(Debug, Clone, PartialEq, Eq, Default)]
pub struct BuildArgs {
    pub project: ProjectArgs,
    pub targets: ExecutionTargetArgs,
    pub anybuild_path: Option<String>,
    pub start_command: Option<String>,
    pub install_command: Option<String>,
    pub build_command: Option<String>,
    pub wasmer: bool,
    pub skip_prepare: bool,
    pub wasmer_conn: WasmerConnArgs,
    pub docker: bool,
    pub docker_client: Option<String>,
    pub docker_opts: Option<String>,
    pub skip_docker_if_safe_build: bool,
    pub no_skip_docker_if_safe_build: bool,
    pub env_name: Option<String>,
    pub serve_port: Option<i64>,
    pub provider: Option<String>,
    pub config: Option<String>,
    pub show_detailed_steps: bool,
    pub show_wasmer_files: bool,
}

impl BuildArgs {
    /// Docker is skipped for safe builds unless `--no-skip-docker-if-safe-build`.
    pub fn effective_skip_docker_if_safe_build(&self) -> (r: bool)
        ensures
            r == (self.skip_docker_if_safe_build || !self.no_skip_docker_if_safe_build),
    {
        self.skip_docker_if_safe_build || !self.no_skip_docker_if_safe_build
    }
}

} // verus!
