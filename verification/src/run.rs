//! `anybuild run`: run commands of a built project.
use vstd::prelude::*;
use crate::args::{EnvironmentOptions, ExecutionTargetArgs, ProjectArgs, RunSelectionArgs, SharedProjectArgs};
use crate::auto::{clone_strings, first_bad_volume, parse_volume_specs, volumes_parsed};
use crate::commands::{execution, execution_spec, CliError};
use crate::options::{clone_opt, RunOptions};

verus! {

/// The arguments of `run`.
#[derive(Debug, Clone, PartialEq, Eq, Default)]
pub struct RunArgs {
    pub project: ProjectArgs,
    pub wasmer: bool,
    pub wasmer_bin: Option<String>,
    pub docker: bool,
    pub docker_client: Option<String>,
    pub docker_opts: Option<String>,
    pub selection: RunSelectionArgs,
    pub wasmer_registry: Option<String>,
    pub serve_port: Option<i64>,
}

/// What `run` asks of the SDK.
#[derive(Debug, Clone, PartialEq, Eq)]
pub struct RunRequest {
    pub project: SharedProjectArgs,
    pub options: RunOptions,
}

/// The execution flags of `run`; it takes no Wasmer token.
pub open spec fn run_environment(args: RunArgs) -> EnvironmentOptions {
    EnvironmentOptions {
        wasmer: args.wasmer,
        wasmer_bin: args.wasmer_bin,
        wasmer_registry: args.wasmer_registry,
        wasmer_token: None,
        docker: args.docker,
        docker_client: args.docker_client,
        docker_opts: args.docker_opts,
    }
}

pub open spec fn no_targets() -> ExecutionTargetArgs {
    ExecutionTargetArgs { builder: None, runner: None }
}

/// Why `run` refuses its arguments: the execution flags, then a volume
/// mapping without a colon.
pub open spec fn run_error(args: RunArgs) -> Option<CliError> {
    match execution_spec(no_targets(), run_environment(args)) {
        Err(e) => Some(e),
        Ok(_) => match first_bad_volume(args.selection.volume_specs@) {
            Some(k) => Some(CliError::InvalidVolumeMapping(args.selection.volume_specs@[k])),
            None => None,
        },
    }
}

/// The request `run` makes: the project, the environments the flags
/// select, the commands, start and after-deploy flags, serve port and
/// volumes.
pub open spec fn run_planned(args: RunArgs, req: RunRequest) -> bool {
    &&& req.project.path == args.project.path
    &&& req.project.subdir == args.project.subdir
    &&& req.project.install_command is None
    &&& req.project.build_command is None
    &&& req.project.start_command is None
    &&& req.project.provider is None
    &&& req.project.config is None
    &&& execution_spec(no_targets(), run_environment(args)) == Ok::<_, CliError>(
        (req.options.build_environment, req.options.runtime_environment),
    )
    &&& req.options.commands@ == args.selection.command_names@
    &&& req.options.start == (args.selection.start && !args.selection.no_start)
    &&& req.options.after_deploy == (args.selection.after_deploy && !args.selection.no_after_deploy)
    &&& req.options.serve_port == args.serve_port
    &&& volumes_parsed(args.selection.volume_specs@, req.options.volumes@)
}

/// Decide what `run` asks of the SDK.
pub fn run(args: RunArgs) -> (r: Result<RunRequest, CliError>)
    ensures
        r is Err <==> run_error(args) is Some,
        r matches Err(e) ==> run_error(args) == Some(e),
        r matches Ok(req) ==> run_planned(args, req),
{
    let start = args.selection.effective_start();
    let after_deploy = args.selection.effective_after_deploy();
    let env = EnvironmentOptions {
        wasmer: args.wasmer,
        wasmer_bin: clone_opt(&args.wasmer_bin),
        wasmer_registry: clone_opt(&args.wasmer_registry),
        wasmer_token: None,
        docker: args.docker,
        docker_client: clone_opt(&args.docker_client),
        docker_opts: clone_opt(&args.docker_opts),
    };
    assert(env == run_environment(args));
    let (build_environment, runtime_environment) = match execution(ExecutionTargetArgs { builder: None, runner: None }, env) {
        Ok(pair) => pair,
        Err(e) => return Err(e),
    };
    let volumes = match parse_volume_specs(&args.selection.volume_specs) {
        Ok(v) => v,
        Err(e) => return Err(e),
    };
    let options = RunOptions {
        build_environment,
        runtime_environment,
        commands: clone_strings(&args.selection.command_names),
        start,
        after_deploy,
        serve_port: args.serve_port,
        volumes,
    };
    let project = SharedProjectArgs {
        path: args.project.path.clone(),
        subdir: clone_opt(&args.project.subdir),
        install_command: None,
        build_command: None,
        start_command: None,
        provider: None,
        config: None,
    };
    Ok(RunRequest { project, options })
}

} // verus!
