//! `anybuild build` and `anybuild plan`: what they ask of the SDK.
use vstd::prelude::*;
use crate::args::{BuildArgs, EnvironmentOptions, ExecutionTargetArgs, SharedProjectArgs};
use crate::auto::{environment_of, RenderOptions};
use crate::commands::{execution, execution_spec, CliError};
use crate::options::{clone_opt, BuildEnvironment, BuildOptions, RuntimeEnvironment};

verus! {

/// What `build` asks of the SDK.
#[derive(Debug, Clone, PartialEq, Eq)]
pub struct BuildRequest {
    pub project: SharedProjectArgs,
    pub serve_port: Option<i64>,
    pub render: RenderOptions,
    pub options: BuildOptions,
}

/// The request `build` makes from its arguments.
pub open spec fn build_planned(args: BuildArgs, req: BuildRequest) -> bool {
    &&& req.project == (SharedProjectArgs {
        path: args.project.path,
        subdir: args.project.subdir,
        install_command: args.install_command,
        build_command: args.build_command,
        start_command: args.start_command,
        provider: args.provider,
        config: args.config,
    })
    &&& req.serve_port == args.serve_port
    &&& req.render == (RenderOptions {
        show_detailed_steps: args.show_detailed_steps,
        show_wasmer_files: args.show_wasmer_files,
    })
    &&& execution_spec(args.targets, environment_of(args)) == Ok::<_, CliError>(
        (req.options.build_environment, req.options.runtime_environment),
    )
    &&& req.options.anybuild_path == args.anybuild_path
    &&& req.options.skip_prepare == args.skip_prepare
    &&& req.options.skip_docker_if_safe == (args.skip_docker_if_safe_build || !args.no_skip_docker_if_safe_build)
    &&& req.options.env_name == args.env_name
}

/// Decide what `build` asks of the SDK; it fails only on contradictory
/// execution flags.
pub fn build(args: BuildArgs) -> (r: Result<BuildRequest, CliError>)
    ensures
        match execution_spec(args.targets, environment_of(args)) {
            Err(e) => r == Err::<BuildRequest, CliError>(e),
            Ok(_) => (r matches Ok(req) && build_planned(args, req)),
        },
{
    let skip_docker_if_safe = args.effective_skip_docker_if_safe_build();
    let env = EnvironmentOptions {
        wasmer: args.wasmer,
        wasmer_bin: clone_opt(&args.wasmer_conn.wasmer_bin),
        wasmer_registry: clone_opt(&args.wasmer_conn.wasmer_registry),
        wasmer_token: clone_opt(&args.wasmer_conn.wasmer_token),
        docker: args.docker,
        docker_client: clone_opt(&args.docker_client),
        docker_opts: clone_opt(&args.docker_opts),
    };
    assert(env == environment_of(args));
    let (build_environment, runtime_environment) = match execution(args.targets, env) {
        Ok(pair) => pair,
        Err(e) => return Err(e),
    };
    let project = SharedProjectArgs {
        path: args.project.path.clone(),
        subdir: clone_opt(&args.project.subdir),
        install_command: clone_opt(&args.install_command),
        build_command: clone_opt(&args.build_command),
        start_command: clone_opt(&args.start_command),
        provider: clone_opt(&args.provider),
        config: clone_opt(&args.config),
    };
    let options = BuildOptions {
        anybuild_path: clone_opt(&args.anybuild_path),
        build_environment,
        runtime_environment,
        skip_prepare: args.skip_prepare,
        skip_docker_if_safe,
        env_name: clone_opt(&args.env_name),
    };
    Ok(BuildRequest {
        project,
        serve_port: args.serve_port,
        render: RenderOptions { show_detailed_steps: args.show_detailed_steps, show_wasmer_files: args.show_wasmer_files },
        options,
    })
}

/// The environments a plan is evaluated for: those the flags select, with
/// the local runtime unless `--wasmer`.
pub open spec fn plan_environments_spec(e: EnvironmentOptions) -> Result<(BuildEnvironment, RuntimeEnvironment), CliError> {
    match execution_spec(ExecutionTargetArgs { builder: None, runner: None }, e) {
        Err(err) => Err(err),
        Ok(pair) => Ok((pair.0, if e.wasmer { pair.1 } else { RuntimeEnvironment::Local })),
    }
}

pub fn plan_environments(environment: EnvironmentOptions) -> (r: Result<(BuildEnvironment, RuntimeEnvironment), CliError>)
    ensures
        r == plan_environments_spec(environment),
{
    let wasmer = environment.wasmer;
    match execution(ExecutionTargetArgs { builder: None, runner: None }, environment) {
        Err(e) => Err(e),
        Ok((build, runtime)) => Ok((build, if wasmer { runtime } else { RuntimeEnvironment::Local })),
    }
}

} // verus!
