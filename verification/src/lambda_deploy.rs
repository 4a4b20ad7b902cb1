//! The course of an AWS Lambda deployment: which command runs next, given
//! what the one before answered. The caller runs each command and hands
//! back its output (for a captured command) or its exit status.
//!
//! The region comes first, then the architecture is checked, the ECR
//! repository is found or created, the image is tagged and pushed, and the
//! function is updated or created. The first failure ends the deployment.
use vstd::prelude::*;
use crate::aws_lambda::{
    aws_args_spec, create_answer, create_answer_spec, describe_answer, describe_answer_spec,
    docker_login_args, docker_push_args, docker_tag_args, function_answer, function_answer_spec,
    image_uri_spec, or_default, output_text, output_text_spec, publish_args_spec, region_answer,
    region_answer_spec, registry_of, registry_of_spec, AwsLambdaDeployer, CommandOutput,
    LambdaDeployPlan,
};
use crate::event::text_views;
use crate::options::{AwsLambdaOptions, LambdaArchitecture};
use crate::text::{copy_str, decimal, decimal_string, push_str};

verus! {

// ---------------------------------------------------------------------------
// Stages, events and actions

/// The command whose answer the deployment waits for.
#[derive(Debug, Clone, Copy, PartialEq, Eq, Structural)]
pub enum LambdaStage {
    /// `aws configure get region`
    Region,
    /// `aws ecr describe-repositories`
    Describe,
    /// `aws ecr create-repository`
    Create,
    /// `aws ecr get-login-password`
    LoginPassword,
    /// `docker login`
    Login,
    /// `docker tag`
    Tag,
    /// `docker push`
    Push,
    /// `aws lambda get-function`
    Lookup,
    /// `aws lambda update-function-code` or `create-function`
    Publish,
    /// Nothing more runs.
    Finished,
}

/// What a deployment has learned so far.
#[derive(Debug)]
pub struct LambdaDeploy {
    pub stage: LambdaStage,
    pub function: String,
    pub repository: String,
    pub local_image: String,
    /// The architecture to publish for, or why the artifact does not fit.
    pub architecture: Result<LambdaArchitecture, String>,
    pub region: String,
    pub image_uri: String,
    pub registry: String,
}

/// What the last command gave back.
#[derive(Debug, Clone, PartialEq, Eq)]
pub enum LambdaEvent {
    /// A captured command's output.
    Output(CommandOutput),
    /// A command's exit status, and its code when it has one.
    Exit { success: bool, code: Option<i32> },
}

/// What the caller does next.
#[derive(Debug, Clone, PartialEq, Eq)]
pub enum LambdaAction {
    /// Run `program` with `args` and hand back what it printed.
    Capture { program: String, args: Vec<String> },
    /// Run `program` with `args`, `input` on its standard input, and hand
    /// back its exit status.
    RunWithInput { program: String, args: Vec<String>, input: String },
    /// Run `program` with `args` and hand back its exit status.
    Run { program: String, args: Vec<String> },
    /// The function is published.
    Done { function: String },
    /// The deployment failed with this message.
    Fail { message: String },
}

pub enum ActionView {
    Capture(Seq<char>, Seq<Seq<char>>),
    RunWithInput(Seq<char>, Seq<Seq<char>>, Seq<char>),
    Run(Seq<char>, Seq<Seq<char>>),
    Done(Seq<char>),
    Fail(Seq<char>),
}

impl View for LambdaAction {
    type V = ActionView;

    open spec fn view(&self) -> ActionView {
        match self {
            LambdaAction::Capture { program, args } => ActionView::Capture(program@, text_views(args@)),
            LambdaAction::RunWithInput { program, args, input } => ActionView::RunWithInput(
                program@,
                text_views(args@),
                input@,
            ),
            LambdaAction::Run { program, args } => ActionView::Run(program@, text_views(args@)),
            LambdaAction::Done { function } => ActionView::Done(function@),
            LambdaAction::Fail { message } => ActionView::Fail(message@),
        }
    }
}

pub struct DeployView {
    pub stage: LambdaStage,
    pub function: Seq<char>,
    pub repository: Seq<char>,
    pub local_image: Seq<char>,
    pub architecture: Result<LambdaArchitecture, Seq<char>>,
    pub region: Seq<char>,
    pub image_uri: Seq<char>,
    pub registry: Seq<char>,
}

pub open spec fn arch_view(a: Result<LambdaArchitecture, String>) -> Result<LambdaArchitecture, Seq<char>> {
    match a {
        Ok(x) => Ok(x),
        Err(m) => Err(m@),
    }
}

impl View for LambdaDeploy {
    type V = DeployView;

    open spec fn view(&self) -> DeployView {
        DeployView {
            stage: self.stage,
            function: self.function@,
            repository: self.repository@,
            local_image: self.local_image@,
            architecture: arch_view(self.architecture),
            region: self.region@,
            image_uri: self.image_uri@,
            registry: self.registry@,
        }
    }
}

/// Which answer a stage waits for: the output of a captured command, or
/// an exit status.
pub open spec fn event_fits(stage: LambdaStage, e: LambdaEvent) -> bool {
    match stage {
        LambdaStage::Region | LambdaStage::Describe | LambdaStage::Create | LambdaStage::LoginPassword
        | LambdaStage::Lookup => e is Output,
        LambdaStage::Login | LambdaStage::Tag | LambdaStage::Push | LambdaStage::Publish => e is Exit,
        LambdaStage::Finished => false,
    }
}

// ---------------------------------------------------------------------------
// Failed commands

/// An integer as `{:?}` prints it.
pub open spec fn signed_decimal(n: int) -> Seq<char> {
    if n < 0 {
        "-"@ + decimal((-n) as nat)
    } else {
        decimal(n as nat)
    }
}

/// An exit code as `{:?}` prints an `Option<i32>`.
pub open spec fn exit_code_text(code: Option<i32>) -> Seq<char> {
    match code {
        None => "None"@,
        Some(c) => "Some("@ + signed_decimal(c as int) + ")"@,
    }
}

/// `Command <program> failed with exit code <code>`.
pub open spec fn run_failure_spec(program: Seq<char>, code: Option<i32>) -> Seq<char> {
    "Command "@ + program + " failed with exit code "@ + exit_code_text(code)
}

/// The message of a command that exited unsuccessfully.
pub fn run_failure(program: &str, code: Option<i32>) -> (r: String)
    ensures
        r@ == run_failure_spec(program@, code),
{
    let mut m = copy_str("Command ");
    push_str(&mut m, program);
    push_str(&mut m, " failed with exit code ");
    match code {
        None => push_str(&mut m, "None"),
        Some(c) => {
            push_str(&mut m, "Some(");
            let wide: i64 = c as i64;
            if wide < 0 {
                push_str(&mut m, "-");
                let digits = decimal_string((0 - wide) as u64);
                push_str(&mut m, &digits);
            } else {
                let digits = decimal_string(wide as u64);
                push_str(&mut m, &digits);
            }
            push_str(&mut m, ")");
        },
    }
    m
}

// ---------------------------------------------------------------------------
// The course of a deployment

pub open spec fn aws_program(o: AwsLambdaOptions) -> Seq<char> {
    or_default(o.binary, "aws"@)
}

pub open spec fn docker_program(o: AwsLambdaOptions) -> Seq<char> {
    or_default(o.docker_binary, "docker"@)
}

pub open spec fn at_stage(s: DeployView, stage: LambdaStage) -> DeployView {
    DeployView {
        stage,
        function: s.function,
        repository: s.repository,
        local_image: s.local_image,
        architecture: s.architecture,
        region: s.region,
        image_uri: s.image_uri,
        registry: s.registry,
    }
}

pub open spec fn failed(s: DeployView, m: Seq<char>) -> (DeployView, ActionView) {
    (at_stage(s, LambdaStage::Finished), ActionView::Fail(m))
}

/// Once the region is known: the architecture must fit, then the
/// repository is described.
pub open spec fn after_region(o: AwsLambdaOptions, s: DeployView, region: Seq<char>) -> (DeployView, ActionView) {
    let s1 = DeployView {
        stage: s.stage,
        function: s.function,
        repository: s.repository,
        local_image: s.local_image,
        architecture: s.architecture,
        region,
        image_uri: s.image_uri,
        registry: s.registry,
    };
    match s.architecture {
        Err(m) => failed(s1, m),
        Ok(_) => (
            at_stage(s1, LambdaStage::Describe),
            ActionView::Capture(
                aws_program(o),
                aws_args_spec(
                    o,
                    "ecr"@,
                    "describe-repositories"@,
                    region,
                    seq![
                        "--repository-names"@,
                        s.repository,
                        "--query"@,
                        "repositories[0].repositoryUri"@,
                        "--output"@,
                        "text"@,
                    ],
                ),
            ),
        ),
    }
}

/// Once the repository's URI is known: the registry is logged into with
/// a password from ECR.
pub open spec fn after_uri(o: AwsLambdaOptions, s: DeployView, uri: Seq<char>) -> (DeployView, ActionView) {
    match registry_of_spec(uri) {
        None => failed(s, "AWS returned an invalid ECR repository URI"@),
        Some(registry) => (
            DeployView {
                stage: LambdaStage::LoginPassword,
                function: s.function,
                repository: s.repository,
                local_image: s.local_image,
                architecture: s.architecture,
                region: s.region,
                image_uri: image_uri_spec(o, uri),
                registry,
            },
            ActionView::Capture(aws_program(o), aws_args_spec(o, "ecr"@, "get-login-password"@, s.region, seq![])),
        ),
    }
}

/// The deployment's first action: with a region already known, describing
/// the repository; else asking the AWS CLI for the region.
pub open spec fn lambda_begin(
    o: AwsLambdaOptions,
    plan: LambdaDeployPlan,
    region: Option<Seq<char>>,
    architecture: Result<LambdaArchitecture, Seq<char>>,
) -> (DeployView, ActionView) {
    let s = DeployView {
        stage: LambdaStage::Region,
        function: plan.function@,
        repository: plan.repository@,
        local_image: plan.local_image@,
        architecture,
        region: seq![],
        image_uri: seq![],
        registry: seq![],
    };
    match region {
        Some(r) => after_region(o, s, r),
        None => (
            s,
            ActionView::Capture(
                aws_program(o),
                seq!["configure"@, "get"@, "region"@] + crate::aws_lambda::profile_args_spec(o) + seq![
                    "--no-cli-pager"@,
                ],
            ),
        ),
    }
}

/// The state and action after an answer.
pub open spec fn lambda_next(o: AwsLambdaOptions, s: DeployView, e: LambdaEvent) -> (DeployView, ActionView) {
    match e {
        LambdaEvent::Output(out) => match s.stage {
            LambdaStage::Region => match region_answer_spec(out) {
                Err(m) => failed(s, m),
                Ok(r) => after_region(o, s, r),
            },
            LambdaStage::Describe => match describe_answer_spec(out) {
                Err(m) => failed(s, m),
                Ok(Some(uri)) => after_uri(o, s, uri),
                Ok(None) => (
                    at_stage(s, LambdaStage::Create),
                    ActionView::Capture(
                        aws_program(o),
                        aws_args_spec(
                            o,
                            "ecr"@,
                            "create-repository"@,
                            s.region,
                            seq![
                                "--repository-name"@,
                                s.repository,
                                "--image-scanning-configuration"@,
                                "scanOnPush=true"@,
                                "--query"@,
                                "repository.repositoryUri"@,
                                "--output"@,
                                "text"@,
                            ],
                        ),
                    ),
                ),
            },
            LambdaStage::Create => match create_answer_spec(out) {
                Err(m) => failed(s, m),
                Ok(uri) => after_uri(o, s, uri),
            },
            LambdaStage::LoginPassword => match output_text_spec(out, "authenticating with Amazon ECR"@) {
                Err(m) => failed(s, m),
                Ok(password) => (
                    at_stage(s, LambdaStage::Login),
                    ActionView::RunWithInput(
                        docker_program(o),
                        seq!["login"@, "--username"@, "AWS"@, "--password-stdin"@, s.registry],
                        password,
                    ),
                ),
            },
            _ => match function_answer_spec(out) {
                Err(m) => failed(s, m),
                Ok(exists) => match s.architecture {
                    Err(m) => failed(s, m),
                    Ok(arch) => match publish_args_spec(o, exists, s.function, s.image_uri, s.region, arch) {
                        Err(m) => failed(s, m),
                        Ok(args) => (at_stage(s, LambdaStage::Publish), ActionView::Run(aws_program(o), args)),
                    },
                },
            },
        },
        LambdaEvent::Exit { success, code } => match s.stage {
            LambdaStage::Login => if !success {
                failed(s, run_failure_spec(docker_program(o), code))
            } else {
                (
                    at_stage(s, LambdaStage::Tag),
                    ActionView::Run(docker_program(o), seq!["tag"@, s.local_image, s.image_uri]),
                )
            },
            LambdaStage::Tag => if !success {
                failed(s, run_failure_spec(docker_program(o), code))
            } else {
                (at_stage(s, LambdaStage::Push), ActionView::Run(docker_program(o), seq!["push"@, s.image_uri]))
            },
            LambdaStage::Push => if !success {
                failed(s, run_failure_spec(docker_program(o), code))
            } else {
                (
                    at_stage(s, LambdaStage::Lookup),
                    ActionView::Capture(
                        aws_program(o),
                        aws_args_spec(
                            o,
                            "lambda"@,
                            "get-function"@,
                            s.region,
                            seq!["--function-name"@, s.function, "--output"@, "json"@],
                        ),
                    ),
                )
            },
            _ => if !success {
                failed(s, run_failure_spec(aws_program(o), code))
            } else {
                (at_stage(s, LambdaStage::Finished), ActionView::Done(s.function))
            },
        },
    }
}

// ---------------------------------------------------------------------------
// Laws

/// A deployment is done only when publishing the function succeeded, and
/// then it names the planned function.
pub proof fn law_done_only_after_publish(o: AwsLambdaOptions, s: DeployView, e: LambdaEvent)
    requires
        event_fits(s.stage, e),
    ensures
        lambda_next(o, s, e).1 matches ActionView::Done(f) ==> s.stage == LambdaStage::Publish && f == s.function
            && e matches LambdaEvent::Exit { success: true, .. },
{
}

/// A step that fails finishes the deployment; one that goes on never goes
/// back to finding the region and keeps what was planned.
pub proof fn law_steps_keep_the_plan(o: AwsLambdaOptions, s: DeployView, e: LambdaEvent)
    requires
        event_fits(s.stage, e),
    ensures
        lambda_next(o, s, e).1 is Fail ==> lambda_next(o, s, e).0.stage == LambdaStage::Finished,
        lambda_next(o, s, e).0.stage != LambdaStage::Region,
        lambda_next(o, s, e).0.function == s.function,
        lambda_next(o, s, e).0.repository == s.repository,
        lambda_next(o, s, e).0.local_image == s.local_image,
{
}

// ---------------------------------------------------------------------------
// Running it

fn finish(s: LambdaDeploy, message: String) -> (r: (LambdaDeploy, LambdaAction))
    ensures
        (r.0@, r.1@) == failed(s@, message@),
{
    (
        LambdaDeploy {
            stage: LambdaStage::Finished,
            function: s.function,
            repository: s.repository,
            local_image: s.local_image,
            architecture: s.architecture,
            region: s.region,
            image_uri: s.image_uri,
            registry: s.registry,
        },
        LambdaAction::Fail { message },
    )
}

fn move_to(s: LambdaDeploy, stage: LambdaStage) -> (r: LambdaDeploy)
    ensures
        r@ == at_stage(s@, stage),
{
    LambdaDeploy {
        stage,
        function: s.function,
        repository: s.repository,
        local_image: s.local_image,
        architecture: s.architecture,
        region: s.region,
        image_uri: s.image_uri,
        registry: s.registry,
    }
}

fn copy_arch(a: &Result<LambdaArchitecture, String>) -> (r: Result<LambdaArchitecture, String>)
    ensures
        arch_view(r) == arch_view(*a),
{
    match a {
        Ok(x) => Ok(*x),
        Err(m) => Err(copy_str(m)),
    }
}

impl AwsLambdaDeployer {
    fn region_known(&self, s: LambdaDeploy, region: String) -> (r: (LambdaDeploy, LambdaAction))
        ensures
            (r.0@, r.1@) == after_region(self.options, s@, region@),
    {
        let ghost sv = s@;
        let s = LambdaDeploy {
            stage: s.stage,
            function: s.function,
            repository: s.repository,
            local_image: s.local_image,
            architecture: s.architecture,
            region,
            image_uri: s.image_uri,
            registry: s.registry,
        };
        let arch = copy_arch(&s.architecture);
        match arch {
            Err(m) => finish(s, m),
            Ok(_) => {
                let args = self.describe_repository_args(&s.repository, &s.region);
                let program = copy_str(self.aws_binary());
                let next = move_to(s, LambdaStage::Describe);
                (next, LambdaAction::Capture { program, args })
            },
        }
    }

    fn uri_known(&self, s: LambdaDeploy, uri: String) -> (r: (LambdaDeploy, LambdaAction))
        ensures
            (r.0@, r.1@) == after_uri(self.options, s@, uri@),
    {
        match registry_of(&uri) {
            Err(m) => finish(s, m),
            Ok(registry) => {
                let image_uri = self.image_uri(&uri);
                let args = self.login_password_args(&s.region);
                let program = copy_str(self.aws_binary());
                let next = LambdaDeploy {
                    stage: LambdaStage::LoginPassword,
                    function: s.function,
                    repository: s.repository,
                    local_image: s.local_image,
                    architecture: s.architecture,
                    region: s.region,
                    image_uri,
                    registry,
                };
                (next, LambdaAction::Capture { program, args })
            },
        }
    }

    /// Start a deployment of `plan`. `region` is the region already known
    /// (see `configured_region`), and `architecture` what `architecture`
    /// said of the artifact; a mismatch is reported once the region is
    /// known.
    pub fn begin_deploy(
        &self,
        plan: LambdaDeployPlan,
        region: Option<String>,
        architecture: Result<LambdaArchitecture, String>,
    ) -> (r: (LambdaDeploy, LambdaAction))
        ensures
            (r.0@, r.1@) == lambda_begin(
                self.options,
                plan,
                crate::python::opt_string_view(region),
                arch_view(architecture),
            ),
    {
        let s = LambdaDeploy {
            stage: LambdaStage::Region,
            function: plan.function,
            repository: plan.repository,
            local_image: plan.local_image,
            architecture,
            region: String::new(),
            image_uri: String::new(),
            registry: String::new(),
        };
        match region {
            Some(r) => self.region_known(s, r),
            None => {
                let args = self.region_query_args();
                let program = copy_str(self.aws_binary());
                (s, LambdaAction::Capture { program, args })
            },
        }
    }

    fn after_output(&self, s: LambdaDeploy, out: &CommandOutput) -> (r: (LambdaDeploy, LambdaAction))
        requires
            s.stage != LambdaStage::Finished,
            s.stage != LambdaStage::Login,
            s.stage != LambdaStage::Tag,
            s.stage != LambdaStage::Push,
            s.stage != LambdaStage::Publish,
        ensures
            (r.0@, r.1@) == lambda_next(self.options, s@, LambdaEvent::Output(*out)),
    {
        match s.stage {
            LambdaStage::Region => match region_answer(out) {
                Err(m) => finish(s, m),
                Ok(region) => self.region_known(s, region),
            },
            LambdaStage::Describe => match describe_answer(out) {
                Err(m) => finish(s, m),
                Ok(Some(uri)) => self.uri_known(s, uri),
                Ok(None) => {
                    let args = self.create_repository_args(&s.repository, &s.region);
                    let program = copy_str(self.aws_binary());
                    (move_to(s, LambdaStage::Create), LambdaAction::Capture { program, args })
                },
            },
            LambdaStage::Create => match create_answer(out) {
                Err(m) => finish(s, m),
                Ok(uri) => self.uri_known(s, uri),
            },
            LambdaStage::LoginPassword => match output_text(out, "authenticating with Amazon ECR") {
                Err(m) => finish(s, m),
                Ok(input) => {
                    let args = docker_login_args(&s.registry);
                    let program = copy_str(self.docker_binary());
                    (move_to(s, LambdaStage::Login), LambdaAction::RunWithInput { program, args, input })
                },
            },
            _ => match function_answer(out) {
                Err(m) => finish(s, m),
                Ok(exists) => {
                    let arch = copy_arch(&s.architecture);
                    match arch {
                        Err(m) => finish(s, m),
                        Ok(a) => match self.publish_args(exists, &s.function, &s.image_uri, &s.region, a) {
                            Err(m) => finish(s, m),
                            Ok(args) => {
                                let program = copy_str(self.aws_binary());
                                (move_to(s, LambdaStage::Publish), LambdaAction::Run { program, args })
                            },
                        },
                    }
                },
            },
        }
    }

    fn after_exit(&self, s: LambdaDeploy, success: bool, code: Option<i32>) -> (r: (LambdaDeploy, LambdaAction))
        requires
            s.stage == LambdaStage::Login || s.stage == LambdaStage::Tag || s.stage == LambdaStage::Push
                || s.stage == LambdaStage::Publish,
        ensures
            (r.0@, r.1@) == lambda_next(self.options, s@, LambdaEvent::Exit { success, code }),
    {
        if s.stage == LambdaStage::Publish {
            if !success {
                let m = run_failure(self.aws_binary(), code);
                return finish(s, m);
            }
            let function = copy_str(&s.function);
            return (move_to(s, LambdaStage::Finished), LambdaAction::Done { function });
        }
        if !success {
            let m = run_failure(self.docker_binary(), code);
            return finish(s, m);
        }
        match s.stage {
            LambdaStage::Login => {
                let args = docker_tag_args(&s.local_image, &s.image_uri);
                let program = copy_str(self.docker_binary());
                (move_to(s, LambdaStage::Tag), LambdaAction::Run { program, args })
            },
            LambdaStage::Tag => {
                let args = docker_push_args(&s.image_uri);
                let program = copy_str(self.docker_binary());
                (move_to(s, LambdaStage::Push), LambdaAction::Run { program, args })
            },
            _ => {
                let args = self.function_lookup_args(&s.function, &s.region);
                let program = copy_str(self.aws_binary());
                (move_to(s, LambdaStage::Lookup), LambdaAction::Capture { program, args })
            },
        }
    }

    /// Take the answer to the last action and say what comes next.
    pub fn deploy_step(&self, s: LambdaDeploy, e: LambdaEvent) -> (r: (LambdaDeploy, LambdaAction))
        requires
            event_fits(s.stage, e),
        ensures
            (r.0@, r.1@) == lambda_next(self.options, s@, e),
    {
        match e {
            LambdaEvent::Output(out) => self.after_output(s, &out),
            LambdaEvent::Exit { success, code } => self.after_exit(s, success, code),
        }
    }
}

} // verus!
