//! `anybuild deploy`: send the runtime artifact to a deployment platform.
use vstd::prelude::*;
use crate::args::{
    AwsLambdaPlatformArgs, DeployTargetArgs, DeploymentPlatformArg, FlyPlatformArgs, ProjectArgs,
    SharedProjectArgs, WasmerConnArgs,
};
use crate::commands::{lambda_architecture, CliError};
use crate::event::ProcessIo;
use crate::options::{
    clone_opt, AwsLambdaOptions, DeployOptions, DeployTarget, DeploymentPlatform, FlyOptions,
    LambdaArchitecture, WasmerOptions,
};

verus! {

/// The arguments of `deploy`.
#[derive(Debug, Clone, PartialEq, Eq, Default)]
pub struct DeployArgs {
    pub project: ProjectArgs,
    pub platform: DeploymentPlatformArg,
    pub wasmer_deploy: bool,
    pub no_wasmer_deploy: bool,
    pub conn: WasmerConnArgs,
    pub fly: FlyPlatformArgs,
    pub aws_lambda: AwsLambdaPlatformArgs,
    pub target: DeployTargetArgs,
}

/// What `deploy` asks of the SDK.
#[derive(Debug, Clone, PartialEq, Eq)]
pub struct DeployRequest {
    pub project: SharedProjectArgs,
    pub options: DeployOptions,
}

pub open spec fn lambda_architecture_of(a: Option<crate::args::LambdaArchitectureArg>) -> Option<
    LambdaArchitecture,
> {
    match a {
        Some(crate::args::LambdaArchitectureArg::X86_64) => Some(LambdaArchitecture::X86_64),
        Some(crate::args::LambdaArchitectureArg::Arm64) => Some(LambdaArchitecture::Arm64),
        None => None,
    }
}

/// The SDK platform with the settings of its own flags.
pub open spec fn platform_options_of(args: DeployArgs) -> DeploymentPlatform {
    match args.platform {
        DeploymentPlatformArg::Wasmer => DeploymentPlatform::Wasmer(
            WasmerOptions {
                binary: args.conn.wasmer_bin,
                registry: args.conn.wasmer_registry,
                token: args.conn.wasmer_token,
            },
        ),
        DeploymentPlatformArg::Fly => DeploymentPlatform::Fly(
            FlyOptions {
                binary: args.fly.fly_bin,
                token: args.fly.fly_token,
                app: args.fly.fly_app,
                config: args.fly.fly_config,
            },
        ),
        DeploymentPlatformArg::AwsLambda => DeploymentPlatform::AwsLambda(
            AwsLambdaOptions {
                binary: args.aws_lambda.aws_bin,
                docker_binary: args.aws_lambda.aws_docker_client,
                profile: args.aws_lambda.aws_profile,
                region: args.aws_lambda.aws_region,
                function: args.aws_lambda.aws_function,
                role: args.aws_lambda.aws_role,
                repository: args.aws_lambda.aws_repository,
                image_tag: args.aws_lambda.aws_image_tag,
                architecture: lambda_architecture_of(args.aws_lambda.aws_architecture),
            },
        ),
    }
}

/// What is deployed: the deploy configuration written to a file, or a
/// publication; nothing when Wasmer publishing is switched off.
pub open spec fn deploy_target_of(args: DeployArgs) -> Option<DeployTarget> {
    match args.target.wasmer_deploy_config {
        Some(path) => Some(DeployTarget::WriteConfig { path }),
        None => if args.platform != DeploymentPlatformArg::Wasmer || (args.wasmer_deploy
            && !args.no_wasmer_deploy) {
            Some(
                DeployTarget::Publish {
                    owner: args.target.wasmer_app_owner,
                    name: args.target.wasmer_app_name,
                },
            )
        } else {
            None
        },
    }
}

pub open spec fn deploy_spec(args: DeployArgs) -> Result<Option<DeployRequest>, CliError> {
    if args.platform != DeploymentPlatformArg::Wasmer && args.target.wasmer_deploy_config.is_some() {
        Err(CliError::DeployConfigNeedsWasmer)
    } else {
        match deploy_target_of(args) {
            None => Ok(None),
            Some(target) => Ok(
                Some(
                    DeployRequest {
                        project: SharedProjectArgs {
                            path: args.project.path,
                            subdir: args.project.subdir,
                            install_command: None,
                            build_command: None,
                            start_command: None,
                            provider: None,
                            config: None,
                        },
                        options: DeployOptions {
                            platform: platform_options_of(args),
                            target,
                            process_io: ProcessIo::Inherit,
                        },
                    },
                ),
            ),
        }
    }
}

/// Decide what `deploy` asks of the SDK (nothing when publishing is off).
pub fn run(args: DeployArgs) -> (r: Result<Option<DeployRequest>, CliError>)
    ensures
        r == deploy_spec(args),
{
    if args.platform != DeploymentPlatformArg::Wasmer && args.target.wasmer_deploy_config.is_some() {
        return Err(CliError::DeployConfigNeedsWasmer);
    }
    let target = match &args.target.wasmer_deploy_config {
        Some(path) => DeployTarget::WriteConfig { path: path.clone() },
        None => if args.platform != DeploymentPlatformArg::Wasmer || (args.wasmer_deploy
            && !args.no_wasmer_deploy) {
            DeployTarget::Publish {
                owner: clone_opt(&args.target.wasmer_app_owner),
                name: clone_opt(&args.target.wasmer_app_name),
            }
        } else {
            return Ok(None);
        },
    };
    let platform = match args.platform {
        DeploymentPlatformArg::Wasmer => DeploymentPlatform::Wasmer(
            WasmerOptions {
                binary: clone_opt(&args.conn.wasmer_bin),
                registry: clone_opt(&args.conn.wasmer_registry),
                token: clone_opt(&args.conn.wasmer_token),
            },
        ),
        DeploymentPlatformArg::Fly => DeploymentPlatform::Fly(
            FlyOptions {
                binary: clone_opt(&args.fly.fly_bin),
                token: clone_opt(&args.fly.fly_token),
                app: clone_opt(&args.fly.fly_app),
                config: clone_opt(&args.fly.fly_config),
            },
        ),
        DeploymentPlatformArg::AwsLambda => {
            let aws = &args.aws_lambda;
            let architecture = match aws.aws_architecture {
                Some(a) => Some(lambda_architecture(a)),
                None => None,
            };
            DeploymentPlatform::AwsLambda(
                AwsLambdaOptions {
                    binary: clone_opt(&aws.aws_bin),
                    docker_binary: clone_opt(&aws.aws_docker_client),
                    profile: clone_opt(&aws.aws_profile),
                    region: clone_opt(&aws.aws_region),
                    function: clone_opt(&aws.aws_function),
                    role: clone_opt(&aws.aws_role),
                    repository: clone_opt(&aws.aws_repository),
                    image_tag: clone_opt(&aws.aws_image_tag),
                    architecture,
                },
            )
        },
    };
    Ok(
        Some(
            DeployRequest {
                project: SharedProjectArgs {
                    path: args.project.path.clone(),
                    subdir: clone_opt(&args.project.subdir),
                    install_command: None,
                    build_command: None,
                    start_command: None,
                    provider: None,
                    config: None,
                },
                options: DeployOptions { platform, target, process_io: ProcessIo::Inherit },
            },
        ),
    )
}

} // verus!
