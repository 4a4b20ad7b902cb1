use anybuild::artifact::RuntimeArtifact;
use anybuild::aws_lambda::{repository_name, AwsLambdaDeployer, CommandOutput, LambdaDeployPlan};
use anybuild::lambda_deploy::{run_failure, LambdaAction, LambdaEvent, LambdaStage};
use anybuild::fly::{FlyConfig, FlyDeployer};
use anybuild::options::{AwsLambdaOptions, FlyOptions, LambdaArchitecture, WasmerOptions};
use anybuild::wasmer_deploy::WasmerDeployer;

fn strings(items: &[&str]) -> Vec<String> {
    items.iter().map(|s| s.to_string()).collect()
}

#[test]
fn repository_names_are_ecr_compatible() {
    assert_eq!(repository_name("Acme API/Prod"), "acme-api-prod");
    assert_eq!(repository_name("!"), "anybuild-lambda");
}

#[test]
fn aws_arguments_include_region_profile_and_disable_the_pager() {
    let deployer = AwsLambdaDeployer::new(AwsLambdaOptions {
        profile: Some("production".to_owned()),
        ..Default::default()
    });
    assert_eq!(
        deployer.aws_args("lambda", "get-function", "us-west-2", &strings(&["--function-name", "api"])),
        [
            "lambda",
            "get-function",
            "--function-name",
            "api",
            "--region",
            "us-west-2",
            "--profile",
            "production",
            "--no-cli-pager",
        ]
    );
}

#[test]
fn requested_architecture_must_match_the_docker_artifact() {
    let deployer = AwsLambdaDeployer::new(AwsLambdaOptions {
        architecture: Some(LambdaArchitecture::Arm64),
        ..Default::default()
    });
    let artifact = RuntimeArtifact::Docker {
        directory: "docker".into(),
        image: "api".to_owned(),
        context: ".".into(),
        platform: Some("linux/amd64".to_owned()),
    };
    let error = deployer.architecture(&artifact, false).unwrap_err();
    assert_eq!(
        error,
        "AWS Lambda architecture arm64 does not match the Docker artifact architecture x86_64"
    );
}

#[test]
fn lambda_architecture_follows_the_artifact_or_the_host() {
    let deployer = AwsLambdaDeployer::new(AwsLambdaOptions::default());
    let arm = RuntimeArtifact::Docker {
        directory: "docker".into(),
        image: "api".to_owned(),
        context: ".".into(),
        platform: Some("linux/arm64".to_owned()),
    };
    assert_eq!(deployer.architecture(&arm, false), Ok(LambdaArchitecture::Arm64));
    let unpinned = RuntimeArtifact::Docker {
        directory: "docker".into(),
        image: "api".to_owned(),
        context: ".".into(),
        platform: None,
    };
    assert_eq!(deployer.architecture(&unpinned, true), Ok(LambdaArchitecture::Arm64));
    assert_eq!(deployer.architecture(&unpinned, false), Ok(LambdaArchitecture::X86_64));
    let odd = RuntimeArtifact::Docker {
        directory: "docker".into(),
        image: "api".to_owned(),
        context: ".".into(),
        platform: Some("linux/s390x".to_owned()),
    };
    assert_eq!(
        deployer.architecture(&odd, false),
        Err("Unsupported Docker platform for AWS Lambda: linux/s390x".to_owned())
    );
}

#[test]
fn repository_names_trim_outer_separators() {
    assert_eq!(repository_name("--My.Func__"), "my.func");
    assert_eq!(repository_name("a"), "anybuild-lambda");
    assert_eq!(repository_name("ab"), "ab");
}

#[test]
fn deploy_omits_unspecified_app_identity() {
    let deployer = WasmerDeployer::new(WasmerOptions::default());
    let artifact = RuntimeArtifact::Wasmer { directory: "/tmp/project/wasmer".to_owned() };
    let dir = deployer.artifact_dir(&artifact).unwrap();
    assert_eq!(deployer.binary(), "wasmer");
    assert_eq!(
        deployer.deploy_args(dir, None, None),
        ["deploy", "--publish-package", "--dir", "/tmp/project/wasmer"]
    );
}

#[test]
fn deploy_is_non_interactive_with_complete_app_identity() {
    let deployer = WasmerDeployer::new(WasmerOptions::default());
    let artifact = RuntimeArtifact::Wasmer { directory: "/tmp/project/wasmer".to_owned() };
    let dir = deployer.artifact_dir(&artifact).unwrap();
    assert_eq!(
        deployer.deploy_args(dir, Some("acme"), Some("blog")),
        [
            "deploy",
            "--publish-package",
            "--dir",
            "/tmp/project/wasmer",
            "--non-interactive",
            "--owner",
            "acme",
            "--app-name",
            "blog",
        ]
    );
}

#[test]
fn wasmer_deploy_passes_registry_and_token() {
    let deployer = WasmerDeployer::new(WasmerOptions {
        registry: Some("registry.example".to_owned()),
        token: Some("secret".to_owned()),
        ..Default::default()
    });
    assert_eq!(
        deployer.deploy_args("/w", Some(""), Some("blog")),
        [
            "deploy",
            "--publish-package",
            "--dir",
            "/w",
            "--registry",
            "registry.example",
            "--token",
            "secret",
            "--app-name",
            "blog",
        ]
    );
}

#[test]
fn wasmer_deploy_requires_a_wasmer_artifact() {
    let deployer = WasmerDeployer::new(WasmerOptions::default());
    let artifact = RuntimeArtifact::Local { directory: "/tmp/out".to_owned() };
    assert_eq!(
        deployer.artifact_dir(&artifact),
        Err("Wasmer deployment requires a Wasmer artifact, found Local".to_owned())
    );
}

#[test]
fn fly_generates_config_and_uses_local_docker_build() {
    let deployer = FlyDeployer::new(FlyOptions {
        app: Some("example-api".to_owned()),
        token: Some("secret-token".to_owned()),
        ..Default::default()
    });
    let artifact = RuntimeArtifact::Docker {
        directory: "/p/.anybuild/runner/docker".to_owned(),
        image: "example-api".to_owned(),
        context: "/p".to_owned(),
        platform: None,
    };
    let (directory, context) = deployer.docker_parts(&artifact, false).unwrap();
    let config = deployer.config_path(directory, context, false, false, Some("3000")).unwrap();
    assert_eq!(
        config,
        FlyConfig::Generate {
            path: "/p/.anybuild/runner/docker/fly.toml".to_owned(),
            app: "example-api".to_owned(),
            port: 3000,
        }
    );
    assert_eq!(deployer.binary(), "flyctl");
    assert_eq!(
        deployer.deploy_args(directory, context, "/p/.anybuild/runner/docker/fly.toml"),
        [
            "deploy",
            "/p",
            "--local-only",
            "--dockerfile",
            "/p/.anybuild/runner/docker/Dockerfile",
            "--ignorefile",
            "/p/.anybuild/runner/docker/Dockerfile.dockerignore",
            "--config",
            "/p/.anybuild/runner/docker/fly.toml",
            "--app",
            "example-api",
            "--yes",
        ]
    );
}

#[test]
fn fly_reuses_project_config_without_an_app_override() {
    let deployer = FlyDeployer::new(FlyOptions::default());
    let config = deployer.config_path("/p/docker", "/p", false, true, None).unwrap();
    assert_eq!(config, FlyConfig::Existing("/p/fly.toml".to_owned()));
    let args = deployer.deploy_args("/p/docker", "/p", "/p/fly.toml");
    assert!(!args.iter().any(|arg| arg == "--app"));
    let at = args.iter().position(|arg| arg == "--config").unwrap();
    assert_eq!(args[at + 1], "/p/fly.toml");
}

#[test]
fn fly_config_errors() {
    let deployer = FlyDeployer::new(FlyOptions::default());
    assert_eq!(
        deployer.config_path("/p/docker", "/p", false, false, Some("3000")),
        Err("Fly deployment requires --fly-app when the project has no fly.toml".to_owned())
    );
    let named = FlyDeployer::new(FlyOptions { app: Some("api".to_owned()), ..Default::default() });
    assert_eq!(
        named.config_path("/p/docker", "/p", false, false, Some("0")),
        Err("Docker runtime port must be between 1 and 65535, found 0".to_owned())
    );
    assert_eq!(
        named.config_path("/p/docker", "/p", false, false, Some("http")),
        Err("invalid Docker runtime port in /p/docker/port".to_owned())
    );
    let configured = FlyDeployer::new(FlyOptions { config: Some("deploy/fly.toml".to_owned()), ..Default::default() });
    assert_eq!(
        configured.config_path("/p/docker", "/p", false, true, None),
        Err("Fly config does not exist: /p/deploy/fly.toml".to_owned())
    );
    assert_eq!(
        configured.config_path("/p/docker", "/p", true, false, None),
        Ok(FlyConfig::Existing("/p/deploy/fly.toml".to_owned()))
    );
    let local = RuntimeArtifact::Local { directory: "/out".to_owned() };
    assert_eq!(
        deployer.docker_parts(&local, false),
        Err("Fly.io deployment requires a Docker artifact, found Local".to_owned())
    );
}

fn output(success: bool, stdout: &str, stderr: &str) -> CommandOutput {
    CommandOutput { success, stdout: stdout.to_owned(), stderr: stderr.to_owned() }
}

fn lambda_plan() -> LambdaDeployPlan {
    LambdaDeployPlan {
        function: "demo".to_owned(),
        repository: "anybuild-demo".to_owned(),
        local_image: "anybuild/demo:latest".to_owned(),
    }
}

#[test]
fn lambda_deployment_creates_repository_and_function() {
    let deployer = AwsLambdaDeployer::new(AwsLambdaOptions {
        role: Some("arn:aws:iam::1:role/x".to_owned()),
        ..Default::default()
    });
    let (state, action) = deployer.begin_deploy(lambda_plan(), None, Ok(LambdaArchitecture::X86_64));
    assert_eq!(
        action,
        LambdaAction::Capture {
            program: "aws".to_owned(),
            args: strings(&["configure", "get", "region", "--no-cli-pager"]),
        }
    );
    let (state, action) = deployer.deploy_step(state, LambdaEvent::Output(output(true, "eu-west-1\n", "")));
    assert_eq!(
        action,
        LambdaAction::Capture {
            program: "aws".to_owned(),
            args: strings(&[
                "ecr",
                "describe-repositories",
                "--repository-names",
                "anybuild-demo",
                "--query",
                "repositories[0].repositoryUri",
                "--output",
                "text",
                "--region",
                "eu-west-1",
                "--no-cli-pager",
            ]),
        }
    );
    let (state, action) = deployer.deploy_step(
        state,
        LambdaEvent::Output(output(false, "", "An error occurred (RepositoryNotFoundException)")),
    );
    assert!(matches!(&action, LambdaAction::Capture { args, .. } if args[1] == "create-repository"));
    let (state, action) = deployer.deploy_step(
        state,
        LambdaEvent::Output(output(true, "1.dkr.ecr.eu-west-1.amazonaws.com/anybuild-demo\n", "")),
    );
    assert_eq!(
        action,
        LambdaAction::Capture {
            program: "aws".to_owned(),
            args: strings(&["ecr", "get-login-password", "--region", "eu-west-1", "--no-cli-pager"]),
        }
    );
    let (state, action) = deployer.deploy_step(state, LambdaEvent::Output(output(true, "secret\n", "")));
    assert_eq!(
        action,
        LambdaAction::RunWithInput {
            program: "docker".to_owned(),
            args: strings(&["login", "--username", "AWS", "--password-stdin", "1.dkr.ecr.eu-west-1.amazonaws.com"]),
            input: "secret".to_owned(),
        }
    );
    let (state, action) = deployer.deploy_step(state, LambdaEvent::Exit { success: true, code: Some(0) });
    let image = "1.dkr.ecr.eu-west-1.amazonaws.com/anybuild-demo:anybuild";
    assert_eq!(
        action,
        LambdaAction::Run { program: "docker".to_owned(), args: strings(&["tag", "anybuild/demo:latest", image]) }
    );
    let (state, action) = deployer.deploy_step(state, LambdaEvent::Exit { success: true, code: Some(0) });
    assert_eq!(action, LambdaAction::Run { program: "docker".to_owned(), args: strings(&["push", image]) });
    let (state, action) = deployer.deploy_step(state, LambdaEvent::Exit { success: true, code: Some(0) });
    assert!(matches!(&action, LambdaAction::Capture { args, .. } if args[1] == "get-function"));
    let (state, action) = deployer.deploy_step(
        state,
        LambdaEvent::Output(output(false, "", "ResourceNotFoundException: Function not found")),
    );
    let code = format!("ImageUri={image}");
    assert_eq!(
        action,
        LambdaAction::Run {
            program: "aws".to_owned(),
            args: strings(&[
                "lambda",
                "create-function",
                "--function-name",
                "demo",
                "--package-type",
                "Image",
                "--code",
                &code,
                "--role",
                "arn:aws:iam::1:role/x",
                "--architectures",
                "x86_64",
                "--region",
                "eu-west-1",
                "--no-cli-pager",
            ]),
        }
    );
    let (state, action) = deployer.deploy_step(state, LambdaEvent::Exit { success: true, code: Some(0) });
    assert_eq!(action, LambdaAction::Done { function: "demo".to_owned() });
    assert_eq!(state.stage, LambdaStage::Finished);
}

#[test]
fn lambda_deployment_reports_architecture_mismatch_after_region() {
    let deployer = AwsLambdaDeployer::new(AwsLambdaOptions::default());
    let (state, action) = deployer.begin_deploy(
        lambda_plan(),
        Some("us-east-1".to_owned()),
        Err("architecture mismatch".to_owned()),
    );
    assert_eq!(action, LambdaAction::Fail { message: "architecture mismatch".to_owned() });
    assert_eq!(state.stage, LambdaStage::Finished);
    assert_eq!(state.region, "us-east-1");
}

#[test]
fn lambda_deployment_fails_when_a_push_fails() {
    let deployer = AwsLambdaDeployer::new(AwsLambdaOptions::default());
    let (state, _) = deployer.begin_deploy(lambda_plan(), Some("us-east-1".to_owned()), Ok(LambdaArchitecture::Arm64));
    let (state, _) = deployer.deploy_step(
        state,
        LambdaEvent::Output(output(true, "1.dkr.ecr.us-east-1.amazonaws.com/anybuild-demo", "")),
    );
    let (state, _) = deployer.deploy_step(state, LambdaEvent::Output(output(true, "pw", "")));
    let (state, _) = deployer.deploy_step(state, LambdaEvent::Exit { success: true, code: Some(0) });
    let (state, _) = deployer.deploy_step(state, LambdaEvent::Exit { success: true, code: Some(0) });
    let (state, action) = deployer.deploy_step(state, LambdaEvent::Exit { success: false, code: Some(1) });
    assert_eq!(
        action,
        LambdaAction::Fail { message: "Command docker failed with exit code Some(1)".to_owned() }
    );
    assert_eq!(state.stage, LambdaStage::Finished);
}

#[test]
fn lambda_deployment_needs_a_role_to_create_a_function() {
    let deployer = AwsLambdaDeployer::new(AwsLambdaOptions::default());
    let (mut state, _) = deployer.begin_deploy(lambda_plan(), Some("us-east-1".to_owned()), Ok(LambdaArchitecture::Arm64));
    state.stage = LambdaStage::Lookup;
    state.image_uri = "r/x:anybuild".to_owned();
    let (_, action) = deployer.deploy_step(state, LambdaEvent::Output(output(false, "", "ResourceNotFoundException")));
    assert_eq!(
        action,
        LambdaAction::Fail {
            message: "Creating an AWS Lambda function requires --aws-role with an IAM role ARN".to_owned()
        }
    );
}

#[test]
fn lambda_run_failure_messages_print_the_exit_code() {
    assert_eq!(run_failure("aws", None), "Command aws failed with exit code None");
    assert_eq!(run_failure("aws", Some(-2)), "Command aws failed with exit code Some(-2)");
    assert_eq!(run_failure("docker", Some(125)), "Command docker failed with exit code Some(125)");
}
