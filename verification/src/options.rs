//! Options of the SDK operations that the command line drives: where a
//! project is built, where it runs and where it is deployed.
use vstd::prelude::*;
use crate::event::ProcessIo;

verus! {

/// Docker (or a Docker-compatible client) settings.
#[derive(Debug, Clone, PartialEq, Eq, Default)]
pub struct DockerOptions {
    pub client: Option<String>,
    pub extra_options: Option<String>,
}

/// Wasmer CLI settings.
#[derive(Debug, Clone, PartialEq, Eq, Default)]
pub struct WasmerOptions {
    pub binary: Option<String>,
    pub registry: Option<String>,
    pub token: Option<String>,
}

/// Where a project is built.
#[derive(Debug, Clone, PartialEq, Eq)]
pub enum BuildEnvironment {
    Local,
    Docker(DockerOptions),
}

/// Where a built project runs.
#[derive(Debug, Clone, PartialEq, Eq)]
pub enum RuntimeEnvironment {
    Local,
    Docker(DockerOptions),
    Wasmer(WasmerOptions),
    /// The AWS Lambda runtime.
    Lambda,
}

/// Fly.io settings.
#[derive(Debug, Clone, PartialEq, Eq, Default)]
pub struct FlyOptions {
    pub binary: Option<String>,
    pub token: Option<String>,
    pub app: Option<String>,
    pub config: Option<String>,
}

/// Instruction-set architecture of an AWS Lambda function.
#[derive(Debug, Clone, Copy, PartialEq, Eq, Structural)]
pub enum LambdaArchitecture {
    X86_64,
    Arm64,
}

/// AWS Lambda settings.
#[derive(Debug, Clone, PartialEq, Eq, Default)]
pub struct AwsLambdaOptions {
    pub binary: Option<String>,
    pub docker_binary: Option<String>,
    pub profile: Option<String>,
    pub region: Option<String>,
    pub function: Option<String>,
    pub role: Option<String>,
    pub repository: Option<String>,
    pub image_tag: Option<String>,
    pub architecture: Option<LambdaArchitecture>,
}

/// The platform that receives a runtime artifact.
#[derive(Debug, Clone, PartialEq, Eq)]
pub enum DeploymentPlatform {
    Wasmer(WasmerOptions),
    Fly(FlyOptions),
    AwsLambda(AwsLambdaOptions),
}

/// What a deployment does: write the deploy configuration to a file, or
/// publish the application.
#[derive(Debug, Clone, PartialEq, Eq)]
pub enum DeployTarget {
    WriteConfig { path: String },
    Publish { owner: Option<String>, name: Option<String> },
}

/// A deployment request.
#[derive(Debug, Clone, PartialEq, Eq)]
pub struct DeployOptions {
    pub platform: DeploymentPlatform,
    pub target: DeployTarget,
    pub process_io: ProcessIo,
}

/// When the Anybuild file is (re)generated before building.
#[derive(Debug, Clone, Copy, PartialEq, Eq, Structural)]
pub enum GenerationPolicy {
    IfMissing,
    Always,
    Temporary,
}

/// A build request.
#[derive(Debug, Clone, PartialEq, Eq)]
pub struct BuildOptions {
    pub anybuild_path: Option<String>,
    pub build_environment: BuildEnvironment,
    pub runtime_environment: RuntimeEnvironment,
    pub skip_prepare: bool,
    pub skip_docker_if_safe: bool,
    pub env_name: Option<String>,
}

/// A request to run commands of a built project.
#[derive(Debug, Clone, PartialEq, Eq)]
pub struct RunOptions {
    pub build_environment: BuildEnvironment,
    pub runtime_environment: RuntimeEnvironment,
    pub commands: Vec<String>,
    pub start: bool,
    pub after_deploy: bool,
    pub serve_port: Option<i64>,
    pub volumes: Vec<(String, String)>,
}

/// Generate, build, and optionally run and deploy, in one request.
#[derive(Debug, Clone, PartialEq, Eq)]
pub struct AutoOptions {
    pub generation: GenerationPolicy,
    pub build: BuildOptions,
    pub run: Option<RunOptions>,
    pub deploy: Option<DeployOptions>,
}

/// A copy of an optional string.
pub fn clone_opt(o: &Option<String>) -> (r: Option<String>)
    ensures
        r == *o,
{
    match o {
        Some(s) => Some(s.clone()),
        None => None,
    }
}

/// A copy of Docker settings.
pub fn clone_docker(o: &DockerOptions) -> (r: DockerOptions)
    ensures
        r == *o,
{
    DockerOptions { client: clone_opt(&o.client), extra_options: clone_opt(&o.extra_options) }
}

/// A copy of Wasmer settings.
pub fn clone_wasmer(o: &WasmerOptions) -> (r: WasmerOptions)
    ensures
        r == *o,
{
    WasmerOptions {
        binary: clone_opt(&o.binary),
        registry: clone_opt(&o.registry),
        token: clone_opt(&o.token),
    }
}

/// A copy of a build environment.
pub fn clone_build_environment(e: &BuildEnvironment) -> (r: BuildEnvironment)
    ensures
        r == *e,
{
    match e {
        BuildEnvironment::Local => BuildEnvironment::Local,
        BuildEnvironment::Docker(o) => BuildEnvironment::Docker(clone_docker(o)),
    }
}

/// A copy of a runtime environment.
pub fn clone_runtime_environment(e: &RuntimeEnvironment) -> (r: RuntimeEnvironment)
    ensures
        r == *e,
{
    match e {
        RuntimeEnvironment::Local => RuntimeEnvironment::Local,
        RuntimeEnvironment::Docker(o) => RuntimeEnvironment::Docker(clone_docker(o)),
        RuntimeEnvironment::Wasmer(o) => RuntimeEnvironment::Wasmer(clone_wasmer(o)),
        RuntimeEnvironment::Lambda => RuntimeEnvironment::Lambda,
    }
}


pub open spec fn aws_architecture_value(a: LambdaArchitecture) -> Seq<char> {
    match a {
        LambdaArchitecture::X86_64 => "x86_64"@,
        LambdaArchitecture::Arm64 => "arm64"@,
    }
}

impl LambdaArchitecture {
    /// The architecture as AWS names it.
    pub fn as_aws_value(self) -> (r: &'static str)
        ensures
            r@ == aws_architecture_value(self),
    {
        match self {
            LambdaArchitecture::X86_64 => "x86_64",
            LambdaArchitecture::Arm64 => "arm64",
        }
    }
}

} // verus!
