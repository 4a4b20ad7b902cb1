use anybuild::cli::{argument_action, ArgumentAction};
use anybuild::args::{ProjectArgs, RunSelectionArgs};
use anybuild::run::{run, RunArgs};
use anybuild::args::{
    BuildTarget, DeploymentPlatformArg, EnvironmentOptions, ExecutionTargetArgs, LambdaArchitectureArg,
    RunTarget,
};
use anybuild::commands::{
    apply_platform_runner, deployment_platform, execution, lambda_architecture,
    validate_platform_runtime, wasmer_options, CliError,
};
use anybuild::options::{
    BuildEnvironment, DeploymentPlatform, DockerOptions, LambdaArchitecture, RuntimeEnvironment,
    WasmerOptions,
};

fn targets(builder: Option<BuildTarget>, runner: Option<RunTarget>) -> ExecutionTargetArgs {
    ExecutionTargetArgs { builder, runner }
}

#[test]
fn explicit_execution_targets_select_the_requested_environments() {
    let (build, runtime) = execution(
        targets(Some(BuildTarget::Docker), Some(RunTarget::Wasmer)),
        EnvironmentOptions::default(),
    )
    .unwrap();

    assert!(matches!(build, BuildEnvironment::Docker(_)));
    assert!(matches!(runtime, RuntimeEnvironment::Wasmer(_)));
}

#[test]
fn docker_runner_is_independent_from_the_builder() {
    let (build, runtime) = execution(
        targets(Some(BuildTarget::Local), Some(RunTarget::Docker)),
        EnvironmentOptions {
            docker_client: Some("podman".to_owned()),
            ..Default::default()
        },
    )
    .unwrap();

    assert!(matches!(build, BuildEnvironment::Local));
    assert!(matches!(
        runtime,
        RuntimeEnvironment::Docker(DockerOptions {
            client: Some(client),
            ..
        }) if client == "podman"
    ));
}

#[test]
fn legacy_execution_flags_remain_shorthands() {
    let (build, runtime) = execution(
        ExecutionTargetArgs::default(),
        EnvironmentOptions {
            wasmer: true,
            docker: true,
            ..Default::default()
        },
    )
    .unwrap();

    assert!(matches!(build, BuildEnvironment::Docker(_)));
    assert!(matches!(runtime, RuntimeEnvironment::Wasmer(_)));
}

#[test]
fn contradictory_execution_targets_are_rejected() {
    assert!(execution(
        targets(Some(BuildTarget::Local), None),
        EnvironmentOptions {
            docker: true,
            ..Default::default()
        },
    )
    .is_err());
    assert!(execution(
        targets(None, Some(RunTarget::Local)),
        EnvironmentOptions {
            wasmer: true,
            ..Default::default()
        },
    )
    .is_err());
}

#[test]
fn fly_platform_selects_the_docker_runner() {
    let mut targets = ExecutionTargetArgs::default();

    apply_platform_runner(&mut targets, Some(DeploymentPlatformArg::Fly));

    assert_eq!(targets.runner, Some(RunTarget::Docker));
}

#[test]
fn platform_does_not_override_an_explicit_runner() {
    let mut targets = ExecutionTargetArgs {
        runner: Some(RunTarget::Local),
        ..Default::default()
    };

    apply_platform_runner(&mut targets, Some(DeploymentPlatformArg::Fly));

    assert_eq!(targets.runner, Some(RunTarget::Local));
}

#[test]
fn fly_platform_rejects_an_incompatible_runner() {
    let error =
        validate_platform_runtime(Some(DeploymentPlatformArg::Fly), &RuntimeEnvironment::Local)
            .unwrap_err();

    assert_eq!(error.message(), "--platform=fly requires --runner=docker");
}

#[test]
fn wasmer_platform_requires_the_wasmer_runner() {
    let error = validate_platform_runtime(
        Some(DeploymentPlatformArg::Wasmer),
        &RuntimeEnvironment::Docker(DockerOptions::default()),
    )
    .unwrap_err();
    assert_eq!(error, CliError::WasmerPlatformNeedsWasmerRunner);
    assert_eq!(error.message(), "--platform=wasmer requires --runner=wasmer");
    assert!(validate_platform_runtime(None, &RuntimeEnvironment::Local).is_ok());
}

#[test]
fn contradictory_targets_report_each_error() {
    let err = execution(
        targets(Some(BuildTarget::Local), None),
        EnvironmentOptions {
            docker_client: Some("podman".to_owned()),
            ..Default::default()
        },
    )
    .unwrap_err();
    assert_eq!(
        err.message(),
        "--builder=local cannot be combined with --docker or --docker-client"
    );
    let err = execution(
        targets(None, Some(RunTarget::Docker)),
        EnvironmentOptions {
            wasmer: true,
            ..Default::default()
        },
    )
    .unwrap_err();
    assert_eq!(err.message(), "--runner=docker cannot be combined with --wasmer");
    let err = execution(
        targets(None, Some(RunTarget::Local)),
        EnvironmentOptions {
            wasmer: true,
            ..Default::default()
        },
    )
    .unwrap_err();
    assert_eq!(err.message(), "--runner=local cannot be combined with --wasmer");
}

#[test]
fn legacy_flags_match_explicit_targets_exactly() {
    let env = EnvironmentOptions {
        wasmer: true,
        wasmer_bin: Some("/opt/wasmer".to_owned()),
        docker: true,
        docker_opts: Some("--pull".to_owned()),
        ..Default::default()
    };
    let legacy = execution(ExecutionTargetArgs::default(), env.clone()).unwrap();
    let explicit = execution(
        targets(Some(BuildTarget::Docker), Some(RunTarget::Wasmer)),
        EnvironmentOptions {
            wasmer: false,
            docker: false,
            ..env
        },
    )
    .unwrap();
    assert_eq!(legacy, explicit);
}

#[test]
fn docker_client_alone_selects_the_docker_builder() {
    let (build, runtime) = execution(
        ExecutionTargetArgs::default(),
        EnvironmentOptions {
            docker_client: Some("podman".to_owned()),
            ..Default::default()
        },
    )
    .unwrap();
    assert_eq!(
        build,
        BuildEnvironment::Docker(DockerOptions {
            client: Some("podman".to_owned()),
            extra_options: None
        })
    );
    assert_eq!(runtime, RuntimeEnvironment::Local);
}

#[test]
fn wasmer_platform_takes_runtime_settings() {
    let runtime = RuntimeEnvironment::Wasmer(WasmerOptions {
        binary: Some("w".to_owned()),
        registry: None,
        token: Some("t".to_owned()),
    });
    assert_eq!(
        wasmer_options(&runtime),
        WasmerOptions {
            binary: Some("w".to_owned()),
            registry: None,
            token: Some("t".to_owned())
        }
    );
    assert_eq!(wasmer_options(&RuntimeEnvironment::Local), WasmerOptions::default());
    let platform = deployment_platform(DeploymentPlatformArg::Wasmer, &runtime, &Default::default());
    assert!(matches!(platform, DeploymentPlatform::Wasmer(o) if o.token.as_deref() == Some("t")));
}

#[test]
fn lambda_architectures_map_one_to_one() {
    assert_eq!(lambda_architecture(LambdaArchitectureArg::X86_64), LambdaArchitecture::X86_64);
    assert_eq!(lambda_architecture(LambdaArchitectureArg::Arm64), LambdaArchitecture::Arm64);
}

#[test]
fn run_collects_commands_volumes_and_the_runtime() {
    let args = RunArgs {
        project: ProjectArgs { path: "app".to_owned(), subdir: None },
        wasmer: true,
        selection: RunSelectionArgs {
            command_names: vec!["migrate".to_owned()],
            volume_specs: vec!["data:/data".to_owned()],
            start: true,
            ..RunSelectionArgs::default()
        },
        serve_port: Some(3000),
        ..RunArgs::default()
    };
    let request = run(args).unwrap();
    assert_eq!(request.project.path, "app");
    assert_eq!(request.options.commands, ["migrate"]);
    assert_eq!(request.options.volumes, vec![("data".to_owned(), "/data".to_owned())]);
    assert!(request.options.start);
    assert!(!request.options.after_deploy);
    assert_eq!(request.options.serve_port, Some(3000));
    assert!(matches!(request.options.runtime_environment, RuntimeEnvironment::Wasmer(_)));

    let bad = RunArgs {
        selection: RunSelectionArgs { volume_specs: vec!["nocolon".to_owned()], ..RunSelectionArgs::default() },
        ..RunArgs::default()
    };
    assert_eq!(run(bad).unwrap_err().message(), "Invalid volume mapping 'nocolon'. Expected NAME:/guest/path");
}

#[test]
fn the_first_argument_decides_how_the_command_line_is_read() {
    assert_eq!(argument_action(None), ArgumentAction::InsertAuto);
    assert_eq!(argument_action(Some("--version")), ArgumentAction::PrintVersion);
    assert_eq!(argument_action(Some("-v")), ArgumentAction::PrintVersion);
    assert_eq!(argument_action(Some("--wasmer")), ArgumentAction::InsertAuto);
    assert_eq!(argument_action(Some("./my-app")), ArgumentAction::InsertAuto);
    assert_eq!(argument_action(Some("deploy")), ArgumentAction::Parse);
    assert_eq!(argument_action(Some("plan")), ArgumentAction::Parse);
}

#[test]
fn the_banner_frames_the_version() {
    assert_eq!(
        anybuild::cli::banner("0.1.0"),
        "╭────────────────╮\n│ Anybuild 0.1.0 │\n╰────────────────╯\n\n"
    );
    assert_eq!(anybuild::version(), "0.1.0");
}

#[test]
fn docker_flag_alone_selects_docker_builder_and_runner() {
    let (build, runtime) = execution(
        ExecutionTargetArgs::default(),
        EnvironmentOptions {
            docker: true,
            ..Default::default()
        },
    )
    .unwrap();
    assert!(matches!(build, BuildEnvironment::Docker(_)));
    assert!(matches!(runtime, RuntimeEnvironment::Docker(_)));
}

#[test]
fn docker_flag_keeps_an_explicit_local_runner() {
    let (build, runtime) = execution(
        targets(None, Some(RunTarget::Local)),
        EnvironmentOptions {
            docker: true,
            ..Default::default()
        },
    )
    .unwrap();
    assert!(matches!(build, BuildEnvironment::Docker(_)));
    assert_eq!(runtime, RuntimeEnvironment::Local);
}

#[test]
fn aws_lambda_platform_selects_docker_builder_and_lambda_runner() {
    let mut t = ExecutionTargetArgs::default();
    apply_platform_runner(&mut t, Some(DeploymentPlatformArg::AwsLambda));
    assert_eq!(t.builder, Some(BuildTarget::Docker));
    assert_eq!(t.runner, Some(RunTarget::Lambda));

    let mut explicit = targets(Some(BuildTarget::Local), Some(RunTarget::Docker));
    apply_platform_runner(&mut explicit, Some(DeploymentPlatformArg::AwsLambda));
    assert_eq!(explicit.builder, Some(BuildTarget::Local));
    assert_eq!(explicit.runner, Some(RunTarget::Docker));

    let (build, runtime) = execution(t, EnvironmentOptions::default()).unwrap();
    assert!(matches!(build, BuildEnvironment::Docker(_)));
    assert_eq!(runtime, RuntimeEnvironment::Lambda);
}
