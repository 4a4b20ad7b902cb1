//! Translation of command-line flags into SDK options, and the checks that
//! reject contradictory flags.
use vstd::prelude::*;
use crate::args::{
    BuildTarget, DeploymentPlatformArg, EnvironmentOptions, ExecutionTargetArgs, FlyPlatformArgs,
    LambdaArchitectureArg, RunTarget,
};
use crate::options::{
    clone_opt, AwsLambdaOptions, BuildEnvironment, DeploymentPlatform, DockerOptions, FlyOptions,
    LambdaArchitecture, RuntimeEnvironment, WasmerOptions,
};

verus! {

/// Why the command line was rejected.
#[derive(Debug, Clone, PartialEq, Eq)]
pub enum CliError {
    TempWithAnybuildPath,
    WasmerFlagsWithFly,
    LocalBuilderWithDocker,
    LocalRunnerWithWasmer,
    DockerRunnerWithWasmer,
    WasmerPlatformNeedsWasmerRunner,
    FlyPlatformNeedsDockerRunner,
    InvalidVolumeMapping(String),
    DeployConfigNeedsWasmer,
}

/// The message the command line prints for an error.
pub open spec fn error_text(e: CliError) -> Seq<char> {
    match e {
        CliError::TempWithAnybuildPath => "Cannot use both --temp-anybuild and --anybuild-path"@,
        CliError::WasmerFlagsWithFly => "Wasmer deployment flags cannot be used with --platform=fly"@,
        CliError::LocalBuilderWithDocker => "--builder=local cannot be combined with --docker or --docker-client"@,
        CliError::LocalRunnerWithWasmer => "--runner=local cannot be combined with --wasmer"@,
        CliError::DockerRunnerWithWasmer => "--runner=docker cannot be combined with --wasmer"@,
        CliError::WasmerPlatformNeedsWasmerRunner => "--platform=wasmer requires --runner=wasmer"@,
        CliError::FlyPlatformNeedsDockerRunner => "--platform=fly requires --runner=docker"@,
        CliError::InvalidVolumeMapping(spec) => "Invalid volume mapping '"@ + spec@
            + "'. Expected NAME:/guest/path"@,
        CliError::DeployConfigNeedsWasmer => "--wasmer-deploy-config can only be used with --platform=wasmer"@,
    }
}

impl CliError {
    /// The message of the error.
    pub fn message(&self) -> (r: String)
        ensures
            r@ == error_text(*self),
    {
        match self {
            CliError::TempWithAnybuildPath => "Cannot use both --temp-anybuild and --anybuild-path".to_owned(),
            CliError::WasmerFlagsWithFly => "Wasmer deployment flags cannot be used with --platform=fly".to_owned(),
            CliError::LocalBuilderWithDocker => "--builder=local cannot be combined with --docker or --docker-client".to_owned(),
            CliError::LocalRunnerWithWasmer => "--runner=local cannot be combined with --wasmer".to_owned(),
            CliError::DockerRunnerWithWasmer => "--runner=docker cannot be combined with --wasmer".to_owned(),
            CliError::WasmerPlatformNeedsWasmerRunner => "--platform=wasmer requires --runner=wasmer".to_owned(),
            CliError::FlyPlatformNeedsDockerRunner => "--platform=fly requires --runner=docker".to_owned(),
            CliError::InvalidVolumeMapping(spec) => {
                let mut r = "Invalid volume mapping '".to_owned();
                crate::text::push_str(&mut r, spec.as_str());
                crate::text::push_str(&mut r, "'. Expected NAME:/guest/path");
                r
            },
            CliError::DeployConfigNeedsWasmer => "--wasmer-deploy-config can only be used with --platform=wasmer".to_owned(),
        }
    }
}

/// The contradiction in a pair of execution targets and flags, if any.
pub open spec fn execution_error(t: ExecutionTargetArgs, e: EnvironmentOptions) -> Option<CliError> {
    if t.builder == Some(BuildTarget::Local) && (e.docker || (e.docker_client.is_some() && t.runner
        != Some(RunTarget::Docker))) {
        Some(CliError::LocalBuilderWithDocker)
    } else if t.runner == Some(RunTarget::Local) && e.wasmer {
        Some(CliError::LocalRunnerWithWasmer)
    } else if t.runner == Some(RunTarget::Docker) && e.wasmer {
        Some(CliError::DockerRunnerWithWasmer)
    } else {
        None
    }
}

/// The build environment the flags select: Docker when `--builder=docker`,
/// `--docker`, or a `--docker-client` that no Docker runner claims.
pub open spec fn builds_in_docker(t: ExecutionTargetArgs, e: EnvironmentOptions) -> bool {
    t.builder == Some(BuildTarget::Docker) || e.docker || (e.docker_client.is_some()
        && t.builder.is_none() && t.runner != Some(RunTarget::Docker))
}

pub open spec fn build_environment_of(t: ExecutionTargetArgs, e: EnvironmentOptions) -> BuildEnvironment {
    if builds_in_docker(t, e) {
        BuildEnvironment::Docker(DockerOptions { client: e.docker_client, extra_options: e.docker_opts })
    } else {
        BuildEnvironment::Local
    }
}

/// The runtime the flags select: Wasmer for `--runner=wasmer` or
/// `--wasmer`; Docker for `--runner=docker`, or for `--docker` when no
/// runner is named; Lambda for `--runner=lambda`; else local.
pub open spec fn runtime_environment_of(t: ExecutionTargetArgs, e: EnvironmentOptions) -> RuntimeEnvironment {
    if t.runner == Some(RunTarget::Wasmer) || e.wasmer {
        RuntimeEnvironment::Wasmer(
            WasmerOptions { binary: e.wasmer_bin, registry: e.wasmer_registry, token: e.wasmer_token },
        )
    } else if t.runner == Some(RunTarget::Docker) || (t.runner.is_none() && e.docker) {
        RuntimeEnvironment::Docker(DockerOptions { client: e.docker_client, extra_options: e.docker_opts })
    } else if t.runner == Some(RunTarget::Lambda) {
        RuntimeEnvironment::Lambda
    } else {
        RuntimeEnvironment::Local
    }
}

pub open spec fn execution_spec(t: ExecutionTargetArgs, e: EnvironmentOptions) -> Result<
    (BuildEnvironment, RuntimeEnvironment),
    CliError,
> {
    match execution_error(t, e) {
        Some(err) => Err(err),
        None => Ok((build_environment_of(t, e), runtime_environment_of(t, e))),
    }
}

/// The build and runtime environments that the execution flags select.
pub fn execution(targets: ExecutionTargetArgs, environment: EnvironmentOptions) -> (r: Result<
    (BuildEnvironment, RuntimeEnvironment),
    CliError,
>)
    ensures
        r == execution_spec(targets, environment),
{
    if targets.builder == Some(BuildTarget::Local) && (environment.docker || (
    environment.docker_client.is_some() && targets.runner != Some(RunTarget::Docker))) {
        return Err(CliError::LocalBuilderWithDocker);
    }
    if targets.runner == Some(RunTarget::Local) && environment.wasmer {
        return Err(CliError::LocalRunnerWithWasmer);
    }
    if targets.runner == Some(RunTarget::Docker) && environment.wasmer {
        return Err(CliError::DockerRunnerWithWasmer);
    }
    let docker_client_selects_builder = environment.docker_client.is_some() && targets.builder.is_none()
        && targets.runner != Some(RunTarget::Docker);
    let build = if targets.builder == Some(BuildTarget::Docker) || environment.docker
        || docker_client_selects_builder {
        BuildEnvironment::Docker(
            DockerOptions {
                client: clone_opt(&environment.docker_client),
                extra_options: clone_opt(&environment.docker_opts),
            },
        )
    } else {
        BuildEnvironment::Local
    };
    let runtime = if targets.runner == Some(RunTarget::Wasmer) || environment.wasmer {
        RuntimeEnvironment::Wasmer(
            WasmerOptions {
                binary: environment.wasmer_bin,
                registry: environment.wasmer_registry,
                token: environment.wasmer_token,
            },
        )
    } else if targets.runner == Some(RunTarget::Docker) || (targets.runner.is_none() && environment.docker) {
        RuntimeEnvironment::Docker(
            DockerOptions { client: environment.docker_client, extra_options: environment.docker_opts },
        )
    } else if targets.runner == Some(RunTarget::Lambda) {
        RuntimeEnvironment::Lambda
    } else {
        RuntimeEnvironment::Local
    };
    Ok((build, runtime))
}

/// `--wasmer` is shorthand for `--runner=wasmer`, and `--docker` for
/// `--builder=docker` together with `--runner=docker` unless another runner
/// is selected: with no explicit targets, the legacy flags select exactly
/// what the explicit targets would.
pub proof fn law_legacy_flags_are_shorthands(e: EnvironmentOptions)
    ensures
        execution_spec(ExecutionTargetArgs { builder: None, runner: None }, e) == execution_spec(
            ExecutionTargetArgs {
                builder: if e.docker { Some(BuildTarget::Docker) } else { None },
                runner: if e.wasmer {
                    Some(RunTarget::Wasmer)
                } else if e.docker {
                    Some(RunTarget::Docker)
                } else {
                    None
                },
            },
            EnvironmentOptions { wasmer: false, docker: false, ..e },
        ),
{
}

/// With `--runner=docker`, `--docker-client` names the runtime's client:
/// it neither moves the build into Docker nor makes the flags contradict.
pub proof fn law_docker_runner_is_independent_from_the_builder(
    builder: Option<BuildTarget>,
    e: EnvironmentOptions,
)
    ensures
        builds_in_docker(ExecutionTargetArgs { builder, runner: Some(RunTarget::Docker) }, e)
            == builds_in_docker(
            ExecutionTargetArgs { builder, runner: Some(RunTarget::Docker) },
            EnvironmentOptions { docker_client: None, ..e },
        ),
        execution_error(ExecutionTargetArgs { builder, runner: Some(RunTarget::Docker) }, e)
            == execution_error(
            ExecutionTargetArgs { builder, runner: Some(RunTarget::Docker) },
            EnvironmentOptions { docker_client: None, ..e },
        ),
{
}

/// Does the deployment platform accept the runtime?
pub open spec fn platform_error(
    platform: Option<DeploymentPlatformArg>,
    runtime: RuntimeEnvironment,
) -> Option<CliError> {
    match platform {
        Some(DeploymentPlatformArg::Wasmer) => if runtime is Wasmer {
            None
        } else {
            Some(CliError::WasmerPlatformNeedsWasmerRunner)
        },
        Some(DeploymentPlatformArg::Fly) => if runtime is Docker {
            None
        } else {
            Some(CliError::FlyPlatformNeedsDockerRunner)
        },
        Some(DeploymentPlatformArg::AwsLambda) => None,
        None => None,
    }
}

/// `--docker` without a runner selects the Docker runner as well as the
/// Docker builder; with `--wasmer` the runner is Wasmer's.
pub proof fn law_docker_flag_selects_builder_and_runner(e: EnvironmentOptions)
    requires
        e.docker,
    ensures
        execution_spec(ExecutionTargetArgs { builder: None, runner: None }, e) matches Ok((b, r)) && b is Docker
            && (if e.wasmer { r is Wasmer } else { r is Docker }),
{
}

/// Wasmer deploys need the Wasmer runner; Fly deploys need the Docker
/// runner.
pub fn validate_platform_runtime(
    platform: Option<DeploymentPlatformArg>,
    runtime: &RuntimeEnvironment,
) -> (r: Result<(), CliError>)
    ensures
        r == match platform_error(platform, *runtime) {
            Some(e) => Err::<(), CliError>(e),
            None => Ok(()),
        },
{
    match (platform, runtime) {
        (Some(DeploymentPlatformArg::Wasmer), RuntimeEnvironment::Wasmer(_)) => Ok(()),
        (Some(DeploymentPlatformArg::Fly), RuntimeEnvironment::Docker(_)) => Ok(()),
        (Some(DeploymentPlatformArg::AwsLambda), _) => Ok(()),
        (None, _) => Ok(()),
        (Some(DeploymentPlatformArg::Wasmer), _) => Err(CliError::WasmerPlatformNeedsWasmerRunner),
        (Some(DeploymentPlatformArg::Fly), _) => Err(CliError::FlyPlatformNeedsDockerRunner),
    }
}

/// The runner a deployment platform implies.
pub open spec fn platform_runner(platform: Option<DeploymentPlatformArg>) -> Option<RunTarget> {
    match platform {
        Some(DeploymentPlatformArg::Wasmer) => Some(RunTarget::Wasmer),
        Some(DeploymentPlatformArg::Fly) => Some(RunTarget::Docker),
        Some(DeploymentPlatformArg::AwsLambda) => Some(RunTarget::Lambda),
        None => None,
    }
}

/// The builder a deployment platform implies: AWS Lambda builds in Docker,
/// so that dependencies fit Lambda's Linux environment.
pub open spec fn platform_builder(platform: Option<DeploymentPlatformArg>) -> Option<BuildTarget> {
    match platform {
        Some(DeploymentPlatformArg::AwsLambda) => Some(BuildTarget::Docker),
        _ => None,
    }
}

/// A platform picks its runner, and its builder where it implies one,
/// unless either was named explicitly.
pub fn apply_platform_runner(targets: &mut ExecutionTargetArgs, platform: Option<DeploymentPlatformArg>)
    ensures
        old(targets).builder.is_some() ==> final(targets).builder == old(targets).builder,
        old(targets).builder.is_none() ==> final(targets).builder == platform_builder(platform),
        old(targets).runner.is_some() ==> final(targets).runner == old(targets).runner,
        old(targets).runner.is_none() ==> final(targets).runner == platform_runner(platform),
{
    if targets.builder.is_none() {
        targets.builder = match platform {
            Some(DeploymentPlatformArg::AwsLambda) => Some(BuildTarget::Docker),
            _ => None,
        };
    }
    if targets.runner.is_none() {
        targets.runner = match platform {
            Some(DeploymentPlatformArg::Wasmer) => Some(RunTarget::Wasmer),
            Some(DeploymentPlatformArg::Fly) => Some(RunTarget::Docker),
            Some(DeploymentPlatformArg::AwsLambda) => Some(RunTarget::Lambda),
            None => None,
        };
    }
}

/// The Wasmer settings of a runtime, or none.
pub fn wasmer_options(runtime: &RuntimeEnvironment) -> (r: WasmerOptions)
    ensures
        runtime matches RuntimeEnvironment::Wasmer(o) ==> r == o,
        !(runtime is Wasmer) ==> r == (WasmerOptions { binary: None, registry: None, token: None }),
{
    match runtime {
        RuntimeEnvironment::Wasmer(options) => WasmerOptions {
            binary: clone_opt(&options.binary),
            registry: clone_opt(&options.registry),
            token: clone_opt(&options.token),
        },
        _ => WasmerOptions { binary: None, registry: None, token: None },
    }
}

pub open spec fn fly_options_of(fly: FlyPlatformArgs) -> FlyOptions {
    FlyOptions { binary: fly.fly_bin, token: fly.fly_token, app: fly.fly_app, config: fly.fly_config }
}

pub open spec fn empty_lambda_options() -> AwsLambdaOptions {
    AwsLambdaOptions {
        binary: None,
        docker_binary: None,
        profile: None,
        region: None,
        function: None,
        role: None,
        repository: None,
        image_tag: None,
        architecture: None,
    }
}

pub open spec fn wasmer_options_of(runtime: RuntimeEnvironment) -> WasmerOptions {
    match runtime {
        RuntimeEnvironment::Wasmer(o) => o,
        _ => WasmerOptions { binary: None, registry: None, token: None },
    }
}

pub open spec fn deployment_platform_of(
    platform: DeploymentPlatformArg,
    runtime: RuntimeEnvironment,
    fly: FlyPlatformArgs,
) -> DeploymentPlatform {
    match platform {
        DeploymentPlatformArg::Wasmer => DeploymentPlatform::Wasmer(wasmer_options_of(runtime)),
        DeploymentPlatformArg::Fly => DeploymentPlatform::Fly(fly_options_of(fly)),
        DeploymentPlatformArg::AwsLambda => DeploymentPlatform::AwsLambda(empty_lambda_options()),
    }
}

/// The SDK platform for a `--platform` choice: Wasmer takes the runtime's
/// Wasmer settings, Fly the Fly flags.
pub fn deployment_platform(
    platform: DeploymentPlatformArg,
    runtime: &RuntimeEnvironment,
    fly: &FlyPlatformArgs,
) -> (r: DeploymentPlatform)
    ensures
        r == deployment_platform_of(platform, *runtime, *fly),
{
    match platform {
        DeploymentPlatformArg::Wasmer => DeploymentPlatform::Wasmer(wasmer_options(runtime)),
        DeploymentPlatformArg::Fly => DeploymentPlatform::Fly(
            FlyOptions {
                binary: clone_opt(&fly.fly_bin),
                token: clone_opt(&fly.fly_token),
                app: clone_opt(&fly.fly_app),
                config: clone_opt(&fly.fly_config),
            },
        ),
        DeploymentPlatformArg::AwsLambda => DeploymentPlatform::AwsLambda(
            AwsLambdaOptions {
                binary: None,
                docker_binary: None,
                profile: None,
                region: None,
                function: None,
                role: None,
                repository: None,
                image_tag: None,
                architecture: None,
            },
        ),
    }
}

/// The SDK architecture for an `--aws-architecture` choice.
pub fn lambda_architecture(architecture: LambdaArchitectureArg) -> (r: LambdaArchitecture)
    ensures
        architecture == LambdaArchitectureArg::X86_64 ==> r == LambdaArchitecture::X86_64,
        architecture == LambdaArchitectureArg::Arm64 ==> r == LambdaArchitecture::Arm64,
{
    match architecture {
        LambdaArchitectureArg::X86_64 => LambdaArchitecture::X86_64,
        LambdaArchitectureArg::Arm64 => LambdaArchitecture::Arm64,
    }
}

} // verus!
