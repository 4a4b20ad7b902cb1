//! `anybuild auto`: generate the Anybuild file if needed, build, and
//! optionally run and deploy, decided from the command line in one request.
use vstd::prelude::*;
use crate::args::{
    BuildArgs, DeployTargetArgs, DeploymentPlatformArg, EnvironmentOptions, ExecutionTargetArgs,
    FlyPlatformArgs, RunSelectionArgs, SharedProjectArgs,
};
use crate::commands::{
    apply_platform_runner, deployment_platform, deployment_platform_of, execution,
    execution_error, platform_builder, platform_error, platform_runner, runtime_environment_of, build_environment_of,
    validate_platform_runtime, CliError,
};
use crate::options::{
    clone_build_environment, clone_opt, clone_runtime_environment, AutoOptions, BuildOptions, DeployOptions, DeployTarget, GenerationPolicy, RunOptions,
};
use crate::event::ProcessIo;
use crate::text::{chars_of, find_from, first_occurrence, lemma_first_occurrence, occurs_at, string_of_range};

verus! {

/// How much of the build plan is shown.
#[derive(Debug, Clone, Copy, PartialEq, Eq, Structural, Default)]
pub struct RenderOptions {
    pub show_detailed_steps: bool,
    pub show_wasmer_files: bool,
}

/// The arguments of `auto`.
#[derive(Debug, Clone, PartialEq, Eq, Default)]
pub struct AutoArgs {
    pub build: BuildArgs,
    pub selection: RunSelectionArgs,
    pub platform: Option<DeploymentPlatformArg>,
    pub fly: FlyPlatformArgs,
    pub wasmer_deploy: bool,
    pub deploy_target: DeployTargetArgs,
    pub regenerate: bool,
    pub no_regenerate: bool,
    pub temp_anybuild: bool,
}

/// What `auto` asks of the SDK: a client for the project, and the request
/// it then carries out.
#[derive(Debug, Clone, PartialEq, Eq)]
pub struct AutoRequest {
    pub project: SharedProjectArgs,
    pub serve_port: Option<i64>,
    pub render: RenderOptions,
    pub options: AutoOptions,
}

// ---------------------------------------------------------------------------
// Volume mappings

/// The index of the first `:` in a volume mapping.
pub open spec fn colon_at(s: Seq<char>) -> Option<int> {
    first_occurrence(s, seq![':'])
}

/// `NAME:/guest/path`, split at its first colon.
pub open spec fn volume_parsed(spec: String, v: (String, String)) -> bool {
    match colon_at(spec@) {
        Some(i) => v.0@ == spec@.subrange(0, i) && v.1@ == spec@.subrange(i + 1, spec@.len() as int),
        None => false,
    }
}

/// The first mapping without a colon.
pub open spec fn first_bad_volume(specs: Seq<String>) -> Option<int> {
    if exists|k: int| 0 <= k < specs.len() && colon_at(#[trigger] specs[k]@).is_none() {
        Some(
            choose|k: int|
                0 <= k < specs.len() && colon_at(#[trigger] specs[k]@).is_none() && forall|j: int|
                    0 <= j < k ==> colon_at(#[trigger] specs[j]@).is_some(),
        )
    } else {
        None
    }
}

pub open spec fn volumes_parsed(specs: Seq<String>, volumes: Seq<(String, String)>) -> bool {
    specs.len() == volumes.len() && forall|i: int| 0 <= i < specs.len() ==> volume_parsed(
        specs[i],
        #[trigger] volumes[i],
    )
}

/// Split `NAME:/guest/path` at its first colon.
fn split_volume(spec: &String) -> (r: Option<(String, String)>)
    ensures
        colon_at(spec@).is_none() <==> r.is_none(),
        r matches Some(v) ==> volume_parsed(*spec, v),
{
    let s = chars_of(spec.as_str());
    let mut colon: Vec<char> = Vec::new();
    colon.push(':');
    assert(colon@ =~= seq![':']);
    match find_from(&s, &colon, 0) {
        Some(i) => {
            proof {
                lemma_first_occurrence(s@, colon@, i as int);
            }
            assert(occurs_at(s@, colon@, i as int));
            assert(i < s.len());
            let name = string_of_range(&s, 0, i);
            let path = string_of_range(&s, i + 1, s.len());
            Some((name, path))
        },
        None => {
            assert(!crate::text::contains_seq(s@, colon@));
            None
        },
    }
}

/// A copy of a list of strings.
pub fn clone_strings(v: &Vec<String>) -> (r: Vec<String>)
    ensures
        r@ == v@,
{
    let mut r: Vec<String> = Vec::new();
    let mut i: usize = 0;
    while i < v.len()
        invariant
            0 <= i <= v@.len(),
            r@ == v@.subrange(0, i as int),
        decreases v@.len() - i,
    {
        r.push(v[i].clone());
        assert(r@ =~= v@.subrange(0, i + 1));
        i = i + 1;
    }
    assert(v@.subrange(0, v@.len() as int) =~= v@);
    r
}

/// The `--volume` mappings as (name, guest path) pairs.
pub fn parse_volume_specs(specs: &Vec<String>) -> (r: Result<Vec<(String, String)>, CliError>)
    ensures
        r is Ok <==> first_bad_volume(specs@).is_none(),
        r matches Ok(v) ==> volumes_parsed(specs@, v@),
        r matches Err(e) ==> (first_bad_volume(specs@) matches Some(k) && e
            == CliError::InvalidVolumeMapping(specs@[k])),
{
    let mut out: Vec<(String, String)> = Vec::new();
    let mut i: usize = 0;
    while i < specs.len()
        invariant
            0 <= i <= specs@.len(),
            out@.len() == i,
            forall|j: int| 0 <= j < i ==> volume_parsed(specs@[j], #[trigger] out@[j]),
            forall|j: int| 0 <= j < i ==> colon_at(#[trigger] specs@[j]@).is_some(),
        decreases specs@.len() - i,
    {
        match split_volume(&specs[i]) {
            Some(v) => {
                out.push(v);
            },
            None => {
                let ghost k = i as int;
                assert(0 <= k < specs@.len() && colon_at(specs@[k]@).is_none());
                let ghost c = choose|c: int|
                    0 <= c < specs@.len() && colon_at(#[trigger] specs@[c]@).is_none() && forall|j: int|
                        0 <= j < c ==> colon_at(#[trigger] specs@[j]@).is_some();
                assert(c == k) by {
                    if c < k {
                        assert(colon_at(specs@[c]@).is_some());
                    }
                    if k < c {
                        assert(colon_at(specs@[k]@).is_some());
                    }
                }
                return Err(CliError::InvalidVolumeMapping(specs[i].clone()));
            },
        }
        i = i + 1;
    }
    Ok(out)
}

// ---------------------------------------------------------------------------
// The auto request

/// `--wasmer-deploy` and `--wasmer-deploy-config` ask for a Wasmer deploy.
pub open spec fn legacy_wasmer_deploy(args: AutoArgs) -> bool {
    args.wasmer_deploy || args.deploy_target.wasmer_deploy_config.is_some()
}

/// The platform: the named one, else Wasmer for the legacy flags.
pub open spec fn auto_platform(args: AutoArgs) -> Option<DeploymentPlatformArg> {
    if args.platform.is_some() {
        args.platform
    } else if legacy_wasmer_deploy(args) {
        Some(DeploymentPlatformArg::Wasmer)
    } else {
        None
    }
}

/// The execution targets, with the runner implied by the platform.
pub open spec fn auto_targets(args: AutoArgs) -> ExecutionTargetArgs {
    ExecutionTargetArgs {
        builder: if args.build.targets.builder.is_some() {
            args.build.targets.builder
        } else {
            platform_builder(auto_platform(args))
        },
        runner: if args.build.targets.runner.is_some() {
            args.build.targets.runner
        } else {
            platform_runner(auto_platform(args))
        },
    }
}

pub open spec fn environment_of(build: BuildArgs) -> EnvironmentOptions {
    EnvironmentOptions {
        wasmer: build.wasmer,
        wasmer_bin: build.wasmer_conn.wasmer_bin,
        wasmer_registry: build.wasmer_conn.wasmer_registry,
        wasmer_token: build.wasmer_conn.wasmer_token,
        docker: build.docker,
        docker_client: build.docker_client,
        docker_opts: build.docker_opts,
    }
}

pub open spec fn run_requested(args: AutoArgs) -> bool {
    args.selection.command_names@.len() > 0 || args.selection.volume_specs@.len() > 0 || (
    args.selection.start && !args.selection.no_start) || (args.selection.after_deploy
        && !args.selection.no_after_deploy)
}

/// Why `auto` rejects its arguments, checked in this order.
pub open spec fn auto_error(args: AutoArgs) -> Option<CliError> {
    let targets = auto_targets(args);
    let env = environment_of(args.build);
    if args.temp_anybuild && args.build.anybuild_path.is_some() {
        Some(CliError::TempWithAnybuildPath)
    } else if args.platform == Some(DeploymentPlatformArg::Fly) && legacy_wasmer_deploy(args) {
        Some(CliError::WasmerFlagsWithFly)
    } else if execution_error(targets, env).is_some() {
        execution_error(targets, env)
    } else if platform_error(auto_platform(args), runtime_environment_of(targets, env)).is_some() {
        platform_error(auto_platform(args), runtime_environment_of(targets, env))
    } else if run_requested(args) && first_bad_volume(args.selection.volume_specs@).is_some() {
        Some(CliError::InvalidVolumeMapping(args.selection.volume_specs@[first_bad_volume(args.selection.volume_specs@)->0]))
    } else {
        None
    }
}

pub open spec fn generation_of(args: AutoArgs) -> GenerationPolicy {
    if args.temp_anybuild {
        GenerationPolicy::Temporary
    } else if args.regenerate && !args.no_regenerate {
        GenerationPolicy::Always
    } else {
        GenerationPolicy::IfMissing
    }
}

pub open spec fn shared_of(build: BuildArgs) -> SharedProjectArgs {
    SharedProjectArgs {
        path: build.project.path,
        subdir: build.project.subdir,
        install_command: build.install_command,
        build_command: build.build_command,
        start_command: build.start_command,
        provider: build.provider,
        config: build.config,
    }
}

pub open spec fn build_options_of(args: AutoArgs) -> BuildOptions {
    let targets = auto_targets(args);
    let env = environment_of(args.build);
    BuildOptions {
        anybuild_path: args.build.anybuild_path,
        build_environment: build_environment_of(targets, env),
        runtime_environment: runtime_environment_of(targets, env),
        skip_prepare: args.build.skip_prepare,
        skip_docker_if_safe: args.build.skip_docker_if_safe_build
            || !args.build.no_skip_docker_if_safe_build,
        env_name: args.build.env_name,
    }
}

pub open spec fn deploy_of(args: AutoArgs) -> Option<DeployOptions> {
    let runtime = runtime_environment_of(auto_targets(args), environment_of(args.build));
    let platform = match auto_platform(args) {
        Some(p) => p,
        None => DeploymentPlatformArg::Wasmer,
    };
    match args.deploy_target.wasmer_deploy_config {
        Some(path) => Some(
            DeployOptions {
                platform: deployment_platform_of(platform, runtime, args.fly),
                target: DeployTarget::WriteConfig { path },
                process_io: ProcessIo::Inherit,
            },
        ),
        None => if auto_platform(args).is_some() {
            Some(
                DeployOptions {
                    platform: deployment_platform_of(platform, runtime, args.fly),
                    target: DeployTarget::Publish {
                        owner: args.deploy_target.wasmer_app_owner,
                        name: args.deploy_target.wasmer_app_name,
                    },
                    process_io: ProcessIo::Inherit,
                },
            )
        } else {
            None
        },
    }
}

/// The run request, when one is asked for.
pub open spec fn run_planned(args: AutoArgs, run: Option<RunOptions>) -> bool {
    let targets = auto_targets(args);
    let env = environment_of(args.build);
    if run_requested(args) {
        run matches Some(o) && o.build_environment == build_environment_of(targets, env)
            && o.runtime_environment == runtime_environment_of(targets, env) && o.commands@
            == args.selection.command_names@ && o.start == (args.selection.start
            && !args.selection.no_start) && o.after_deploy == (args.selection.after_deploy
            && !args.selection.no_after_deploy) && o.serve_port == args.build.serve_port
            && volumes_parsed(args.selection.volume_specs@, o.volumes@)
    } else {
        run is None
    }
}

/// The complete request for accepted arguments.
pub open spec fn auto_planned(args: AutoArgs, req: AutoRequest) -> bool {
    &&& req.project == shared_of(args.build)
    &&& req.serve_port == args.build.serve_port
    &&& req.render == (RenderOptions {
        show_detailed_steps: args.build.show_detailed_steps,
        show_wasmer_files: args.build.show_wasmer_files,
    })
    &&& req.options.generation == generation_of(args)
    &&& req.options.build == build_options_of(args)
    &&& req.options.deploy == deploy_of(args)
    &&& run_planned(args, req.options.run)
}

/// Decide what `auto` asks of the SDK.
pub fn run(args: AutoArgs) -> (r: Result<AutoRequest, CliError>)
    ensures
        r is Err <==> auto_error(args).is_some(),
        r matches Err(e) ==> auto_error(args) == Some(e),
        r matches Ok(req) ==> auto_planned(args, req),
{
    if args.temp_anybuild && args.build.anybuild_path.is_some() {
        return Err(CliError::TempWithAnybuildPath);
    }
    let legacy = args.wasmer_deploy || args.deploy_target.wasmer_deploy_config.is_some();
    if args.platform == Some(DeploymentPlatformArg::Fly) && legacy {
        return Err(CliError::WasmerFlagsWithFly);
    }
    let platform = if args.platform.is_some() {
        args.platform
    } else if legacy {
        Some(DeploymentPlatformArg::Wasmer)
    } else {
        None
    };
    let skip_docker_if_safe = args.build.effective_skip_docker_if_safe_build();
    let start = args.selection.effective_start();
    let after_deploy = args.selection.effective_after_deploy();
    let mut targets = args.build.targets;
    apply_platform_runner(&mut targets, platform);
    assert(targets == auto_targets(args));
    let env = EnvironmentOptions {
        wasmer: args.build.wasmer,
        wasmer_bin: clone_opt(&args.build.wasmer_conn.wasmer_bin),
        wasmer_registry: clone_opt(&args.build.wasmer_conn.wasmer_registry),
        wasmer_token: clone_opt(&args.build.wasmer_conn.wasmer_token),
        docker: args.build.docker,
        docker_client: clone_opt(&args.build.docker_client),
        docker_opts: clone_opt(&args.build.docker_opts),
    };
    assert(env == environment_of(args.build));
    let (build_environment, runtime_environment) = match execution(targets, env) {
        Ok(pair) => pair,
        Err(e) => {
            return Err(e);
        },
    };
    match validate_platform_runtime(platform, &runtime_environment) {
        Ok(()) => {},
        Err(e) => {
            return Err(e);
        },
    }
    let build_options = BuildOptions {
        anybuild_path: clone_opt(&args.build.anybuild_path),
        build_environment: clone_build_environment(&build_environment),
        runtime_environment: clone_runtime_environment(&runtime_environment),
        skip_prepare: args.build.skip_prepare,
        skip_docker_if_safe,
        env_name: clone_opt(&args.build.env_name),
    };
    let requested = args.selection.command_names.len() > 0 || args.selection.volume_specs.len() > 0
        || start || after_deploy;
    let run = if requested {
        let volumes = match parse_volume_specs(&args.selection.volume_specs) {
            Ok(v) => v,
            Err(e) => {
                return Err(e);
            },
        };
        Some(
            RunOptions {
                build_environment,
                runtime_environment: clone_runtime_environment(&runtime_environment),
                commands: clone_strings(&args.selection.command_names),
                start,
                after_deploy,
                serve_port: args.build.serve_port,
                volumes,
            },
        )
    } else {
        None
    };
    let chosen = match platform {
        Some(p) => p,
        None => DeploymentPlatformArg::Wasmer,
    };
    let deploy = match &args.deploy_target.wasmer_deploy_config {
        Some(path) => Some(
            DeployOptions {
                platform: deployment_platform(chosen, &runtime_environment, &args.fly),
                target: DeployTarget::WriteConfig { path: path.clone() },
                process_io: ProcessIo::Inherit,
            },
        ),
        None => if platform.is_some() {
            Some(
                DeployOptions {
                    platform: deployment_platform(chosen, &runtime_environment, &args.fly),
                    target: DeployTarget::Publish {
                        owner: clone_opt(&args.deploy_target.wasmer_app_owner),
                        name: clone_opt(&args.deploy_target.wasmer_app_name),
                    },
                    process_io: ProcessIo::Inherit,
                },
            )
        } else {
            None
        },
    };
    let generation = if args.temp_anybuild {
        GenerationPolicy::Temporary
    } else if args.regenerate && !args.no_regenerate {
        GenerationPolicy::Always
    } else {
        GenerationPolicy::IfMissing
    };
    let project = SharedProjectArgs {
        path: args.build.project.path.clone(),
        subdir: clone_opt(&args.build.project.subdir),
        install_command: clone_opt(&args.build.install_command),
        build_command: clone_opt(&args.build.build_command),
        start_command: clone_opt(&args.build.start_command),
        provider: clone_opt(&args.build.provider),
        config: clone_opt(&args.build.config),
    };
    let req = AutoRequest {
        project,
        serve_port: args.build.serve_port,
        render: RenderOptions {
            show_detailed_steps: args.build.show_detailed_steps,
            show_wasmer_files: args.build.show_wasmer_files,
        },
        options: AutoOptions { generation, build: build_options, run, deploy },
    };
    Ok(req)
}

} // verus!
