//! Deploying a Docker artifact as an AWS Lambda container image: the
//! arguments of each `aws` and `docker` command, and what their answers
//! mean. The caller runs the commands in order and hands their output back.
use vstd::prelude::*;
use crate::artifact::RuntimeArtifact;
use crate::event::text_views;
use crate::options::{aws_architecture_value, AwsLambdaOptions, LambdaArchitecture};
use crate::text::{
    chars_of, contains_seq, contains_str, copy_str, eq_str, is_alnum, is_alnum_char, lower_char,
    lower_char_exec, push_str, string_of, trim, trim_str,
};

verus! {

/// The image the Lambda adapter is copied from; a Docker artifact built
/// for Lambda mentions it in its Dockerfile.
pub open spec fn lambda_adapter_image() -> Seq<char> {
    "public.ecr.aws/awsguru/aws-lambda-adapter:1.0.0"@
}

pub open spec fn nonempty(o: Option<String>) -> Option<Seq<char>> {
    match o {
        Some(s) => if s@.len() > 0 {
            Some(s@)
        } else {
            None
        },
        None => None,
    }
}

pub open spec fn or_default(o: Option<String>, d: Seq<char>) -> Seq<char> {
    match o {
        Some(s) => s@,
        None => d,
    }
}

fn text_or<'a>(o: &'a Option<String>, d: &'a str) -> (r: &'a str)
    ensures
        r@ == or_default(*o, d@),
{
    match o {
        Some(s) => s.as_str(),
        None => d,
    }
}

fn nonempty_exec(o: &Option<String>) -> (r: Option<&str>)
    ensures
        crate::python::opt_view(r) == nonempty(*o),
{
    match o {
        Some(s) => if s.unicode_len() > 0 {
            Some(s.as_str())
        } else {
            None
        },
        None => None,
    }
}

fn texts(items: &[&str]) -> (r: Vec<String>)
    ensures
        r@.len() == items@.len(),
        forall|i: int| 0 <= i < items@.len() ==> (#[trigger] r@[i])@ == items@[i]@,
{
    let mut r: Vec<String> = Vec::new();
    let mut i: usize = 0;
    while i < items.len()
        invariant
            0 <= i <= items@.len(),
            r@.len() == i,
            forall|k: int| 0 <= k < i ==> (#[trigger] r@[k])@ == items@[k]@,
        decreases items@.len() - i,
    {
        r.push(copy_str(items[i]));
        i = i + 1;
    }
    r
}

fn append(v: &mut Vec<String>, more: &Vec<String>)
    ensures
        text_views(final(v)@) == text_views(old(v)@) + text_views(more@),
{
    let ghost start = text_views(v@);
    let mut i: usize = 0;
    while i < more.len()
        invariant
            0 <= i <= more@.len(),
            text_views(v@) == start + text_views(more@.subrange(0, i as int)),
        decreases more@.len() - i,
    {
        let ghost before = text_views(v@);
        let item = more[i].clone();
        v.push(item);
        assert(text_views(v@) =~= before.push(item@));
        assert(text_views(more@.subrange(0, i + 1)) =~= text_views(more@.subrange(0, i as int)).push(more@[i as int]@));
        i = i + 1;
    }
    assert(more@.subrange(0, more@.len() as int) =~= more@);
}

fn push_text(v: &mut Vec<String>, t: &str)
    ensures
        text_views(final(v)@) == text_views(old(v)@).push(t@),
{
    v.push(copy_str(t));
    assert(text_views(v@) =~= text_views(old(v)@).push(t@));
}

/// The AWS Lambda deployment settings and what follows from them.
#[derive(Debug, Clone, PartialEq, Eq)]
pub struct AwsLambdaDeployer {
    pub options: AwsLambdaOptions,
}

pub open spec fn profile_args_spec(o: AwsLambdaOptions) -> Seq<Seq<char>> {
    match nonempty(o.profile) {
        Some(p) => seq!["--profile"@, p],
        None => seq![],
    }
}

/// `<service> <action> <args> --region <region> [--profile <p>] --no-cli-pager`.
pub open spec fn aws_args_spec(
    o: AwsLambdaOptions,
    service: Seq<char>,
    action: Seq<char>,
    region: Seq<char>,
    args: Seq<Seq<char>>,
) -> Seq<Seq<char>> {
    seq![service, action] + args + seq!["--region"@, region] + profile_args_spec(o) + seq!["--no-cli-pager"@]
}

impl AwsLambdaDeployer {
    pub fn new(options: AwsLambdaOptions) -> (r: Self)
        ensures
            r.options == options,
    {
        AwsLambdaDeployer { options }
    }

    /// The `aws` executable.
    pub fn aws_binary(&self) -> (r: &str)
        ensures
            r@ == or_default(self.options.binary, "aws"@),
    {
        text_or(&self.options.binary, "aws")
    }

    /// The `docker` executable.
    pub fn docker_binary(&self) -> (r: &str)
        ensures
            r@ == or_default(self.options.docker_binary, "docker"@),
    {
        text_or(&self.options.docker_binary, "docker")
    }

    pub fn profile_args(&self) -> (r: Vec<String>)
        ensures
            text_views(r@) == profile_args_spec(self.options),
    {
        let mut r: Vec<String> = Vec::new();
        if let Some(p) = nonempty_exec(&self.options.profile) {
            push_text(&mut r, "--profile");
            push_text(&mut r, p);
        }
        assert(text_views(r@) =~= profile_args_spec(self.options));
        r
    }

    /// The arguments of an `aws` command, with the region and profile and
    /// the pager off.
    pub fn aws_args(&self, service: &str, action: &str, region: &str, args: &Vec<String>) -> (r: Vec<String>)
        ensures
            text_views(r@) == aws_args_spec(self.options, service@, action@, region@, text_views(args@)),
    {
        let mut r: Vec<String> = Vec::new();
        push_text(&mut r, service);
        push_text(&mut r, action);
        append(&mut r, args);
        push_text(&mut r, "--region");
        push_text(&mut r, region);
        let profile = self.profile_args();
        append(&mut r, &profile);
        push_text(&mut r, "--no-cli-pager");
        assert(text_views(r@) =~= aws_args_spec(self.options, service@, action@, region@, text_views(args@)));
        r
    }
}


// ---------------------------------------------------------------------------
// Names and architectures

/// A function name's character in a repository name: lowercase ASCII
/// letters, digits, `-`, `_` and `.` stay; anything else becomes `-`.
pub open spec fn repository_char(c: char) -> char {
    let l = lower_char(c);
    if is_alnum(l) || l == '-' || l == '_' || l == '.' {
        l
    } else {
        '-'
    }
}

pub open spec fn separator_char(c: char) -> bool {
    c == '-' || c == '_' || c == '.'
}

/// An ECR repository name for a function: its characters mapped, outer
/// separators dropped, and `anybuild-lambda` when fewer than two remain.
pub open spec fn repository_name_spec(function: Seq<char>) -> Seq<char> {
    let mapped = function.map_values(|c: char| repository_char(c));
    let n = crate::text::trim_end_by(crate::text::trim_start_by(mapped, |c: char| separator_char(c)), |c: char| separator_char(c));
    if n.len() < 2 {
        "anybuild-lambda"@
    } else {
        n
    }
}

pub fn repository_name(function: &str) -> (r: String)
    ensures
        r@ == repository_name_spec(function@),
{
    let v = chars_of(function);
    let mut mapped: Vec<char> = Vec::new();
    let mut i: usize = 0;
    while i < v.len()
        invariant
            0 <= i <= v@.len(),
            mapped@ == v@.subrange(0, i as int).map_values(|c: char| repository_char(c)),
        decreases v@.len() - i,
    {
        let l = lower_char_exec(v[i]);
        let c = if is_alnum_char(l) || l == '-' || l == '_' || l == '.' {
            l
        } else {
            '-'
        };
        mapped.push(c);
        assert(v@.subrange(0, i + 1).map_values(|c: char| repository_char(c)) =~= v@.subrange(0, i as int).map_values(
            |c: char| repository_char(c),
        ).push(c));
        i = i + 1;
    }
    assert(v@.subrange(0, v@.len() as int) =~= v@);
    let n = mapped.len();
    let mut a: usize = 0;
    assert(mapped@.subrange(0, n as int) =~= mapped@);
    while a < n && (mapped[a] == '-' || mapped[a] == '_' || mapped[a] == '.')
        invariant
            0 <= a <= n,
            n == mapped@.len(),
            crate::text::trim_start_by(mapped@, |c: char| separator_char(c)) == crate::text::trim_start_by(
                mapped@.subrange(a as int, n as int),
                |c: char| separator_char(c),
            ),
        decreases n - a,
    {
        assert(mapped@.subrange(a as int, n as int).drop_first() =~= mapped@.subrange(a + 1, n as int));
        a = a + 1;
    }
    let ghost start = mapped@.subrange(a as int, n as int);
    assert(crate::text::trim_start_by(start, |c: char| separator_char(c)) == start);
    let mut b: usize = n;
    while b > a && (mapped[b - 1] == '-' || mapped[b - 1] == '_' || mapped[b - 1] == '.')
        invariant
            a <= b <= n,
            n == mapped@.len(),
            crate::text::trim_end_by(start, |c: char| separator_char(c)) == crate::text::trim_end_by(
                mapped@.subrange(a as int, b as int),
                |c: char| separator_char(c),
            ),
        decreases b - a,
    {
        assert(mapped@.subrange(a as int, b as int).drop_last() =~= mapped@.subrange(a as int, b - 1));
        b = b - 1;
    }
    if b - a < 2 {
        return copy_str("anybuild-lambda");
    }
    crate::text::string_of_range(&mapped, a, b)
}

/// The architecture a Docker platform names.
pub open spec fn platform_architecture(platform: Option<Seq<char>>, host_arm64: bool) -> Result<LambdaArchitecture, Seq<char>> {
    match platform {
        Some(p) => if p == "linux/amd64"@ {
            Ok(LambdaArchitecture::X86_64)
        } else if p == "linux/arm64"@ {
            Ok(LambdaArchitecture::Arm64)
        } else {
            Err("Unsupported Docker platform for AWS Lambda: "@ + p)
        },
        None => if host_arm64 {
            Ok(LambdaArchitecture::Arm64)
        } else {
            Ok(LambdaArchitecture::X86_64)
        },
    }
}

pub open spec fn docker_platform_of(a: RuntimeArtifact) -> Option<Seq<char>> {
    match a {
        RuntimeArtifact::Docker { platform, .. } => match platform {
            Some(p) => Some(p@),
            None => None,
        },
        _ => None,
    }
}

/// The function's architecture: the artifact's (the host's when the
/// artifact does not say), which a requested one must match.
pub open spec fn lambda_architecture_spec(
    requested: Option<LambdaArchitecture>,
    artifact: RuntimeArtifact,
    host_arm64: bool,
) -> Result<LambdaArchitecture, Seq<char>> {
    match platform_architecture(docker_platform_of(artifact), host_arm64) {
        Err(e) => Err(e),
        Ok(a) => match requested {
            Some(r) => if r == a {
                Ok(r)
            } else {
                Err(
                    "AWS Lambda architecture "@ + aws_architecture_value(r)
                        + " does not match the Docker artifact architecture "@ + aws_architecture_value(a),
                )
            },
            None => Ok(a),
        },
    }
}

impl AwsLambdaDeployer {
    /// The architecture to publish for an artifact; `host_arm64` says
    /// whether this machine is 64-bit ARM.
    pub fn architecture(&self, artifact: &RuntimeArtifact, host_arm64: bool) -> (r: Result<LambdaArchitecture, String>)
        ensures
            match lambda_architecture_spec(self.options.architecture, *artifact, host_arm64) {
                Ok(a) => r == Ok::<LambdaArchitecture, String>(a),
                Err(m) => (r matches Err(e) && e@ == m),
            },
    {
        let platform: Option<&str> = match artifact {
            RuntimeArtifact::Docker { platform, .. } => match platform {
                Some(p) => Some(p.as_str()),
                None => None,
            },
            _ => None,
        };
        assert(crate::python::opt_view(platform) == docker_platform_of(*artifact));
        let found = match platform {
            Some(p) => if eq_str(p, "linux/amd64") {
                LambdaArchitecture::X86_64
            } else if eq_str(p, "linux/arm64") {
                LambdaArchitecture::Arm64
            } else {
                let mut m = copy_str("Unsupported Docker platform for AWS Lambda: ");
                push_str(&mut m, p);
                return Err(m);
            },
            None => if host_arm64 {
                LambdaArchitecture::Arm64
            } else {
                LambdaArchitecture::X86_64
            },
        };
        match self.options.architecture {
            Some(requested) => {
                if requested != found {
                    let mut m = copy_str("AWS Lambda architecture ");
                    push_str(&mut m, requested.as_aws_value());
                    push_str(&mut m, " does not match the Docker artifact architecture ");
                    push_str(&mut m, found.as_aws_value());
                    return Err(m);
                }
                Ok(requested)
            },
            None => Ok(found),
        }
    }
}


// ---------------------------------------------------------------------------
// Commands and their answers

/// What a command printed and whether it succeeded.
#[derive(Debug, Clone, PartialEq, Eq)]
pub struct CommandOutput {
    pub success: bool,
    pub stdout: String,
    pub stderr: String,
}

/// A command's trimmed output, or `<description> failed: <detail>` with
/// its trimmed error output (its trimmed output when that is empty).
pub open spec fn output_text_spec(o: CommandOutput, description: Seq<char>) -> Result<Seq<char>, Seq<char>> {
    if !o.success {
        let err = trim(o.stderr@);
        let detail = if err.len() == 0 {
            trim(o.stdout@)
        } else {
            err
        };
        Err(description + " failed: "@ + detail)
    } else {
        Ok(trim(o.stdout@))
    }
}

pub fn output_text(o: &CommandOutput, description: &str) -> (r: Result<String, String>)
    ensures
        match output_text_spec(*o, description@) {
            Ok(t) => (r matches Ok(s) && s@ == t),
            Err(m) => (r matches Err(e) && e@ == m),
        },
{
    if !o.success {
        let err = trim_str(&o.stderr);
        let detail = if err.unicode_len() == 0 {
            trim_str(&o.stdout)
        } else {
            err
        };
        let mut m = copy_str(description);
        push_str(&mut m, " failed: ");
        push_str(&mut m, &detail);
        return Err(m);
    }
    Ok(trim_str(&o.stdout))
}

/// The region: the configured one, else `AWS_REGION`, else
/// `AWS_DEFAULT_REGION` (empty values skipped); none when the AWS CLI
/// must be asked.
pub open spec fn configured_region_spec(
    o: AwsLambdaOptions,
    aws_region: Option<Seq<char>>,
    aws_default_region: Option<Seq<char>>,
) -> Option<Seq<char>> {
    match nonempty(o.region) {
        Some(r) => Some(r),
        None => match aws_region {
            Some(r) => if r.len() > 0 {
                Some(r)
            } else {
                match aws_default_region {
                    Some(d) => if d.len() > 0 {
                        Some(d)
                    } else {
                        None
                    },
                    None => None,
                }
            },
            None => match aws_default_region {
                Some(d) => if d.len() > 0 {
                    Some(d)
                } else {
                    None
                },
                None => None,
            },
        },
    }
}

pub open spec fn region_answer_spec(o: CommandOutput) -> Result<Seq<char>, Seq<char>> {
    match output_text_spec(o, "resolving the AWS region"@) {
        Err(m) => Err(m),
        Ok(r) => if r.len() == 0 {
            Err("AWS region is not configured; pass --aws-region"@)
        } else {
            Ok(r)
        },
    }
}

/// The URI an ECR answer gives, unless it is empty or `None`.
pub open spec fn uri_checked(uri: Seq<char>) -> Result<Seq<char>, Seq<char>> {
    if uri.len() == 0 || uri == "None"@ {
        Err("AWS returned an empty ECR URI"@)
    } else {
        Ok(uri)
    }
}

/// What describing the repository found: its URI, or that it must be
/// created.
pub open spec fn describe_answer_spec(o: CommandOutput) -> Result<Option<Seq<char>>, Seq<char>> {
    if o.success {
        match uri_checked(trim(o.stdout@)) {
            Ok(u) => Ok(Some(u)),
            Err(m) => Err(m),
        }
    } else if contains_seq(o.stderr@, "RepositoryNotFoundException"@) {
        Ok(None)
    } else {
        match output_text_spec(o, "describing the ECR repository"@) {
            Ok(_) => Err(seq![]),
            Err(m) => Err(m),
        }
    }
}

pub open spec fn create_answer_spec(o: CommandOutput) -> Result<Seq<char>, Seq<char>> {
    match output_text_spec(o, "creating the ECR repository"@) {
        Err(m) => Err(m),
        Ok(u) => uri_checked(u),
    }
}

/// Whether looking the function up found it.
pub open spec fn function_answer_spec(o: CommandOutput) -> Result<bool, Seq<char>> {
    if o.success {
        Ok(true)
    } else if contains_seq(o.stderr@, "ResourceNotFoundException"@) {
        Ok(false)
    } else {
        match output_text_spec(o, "looking up the Lambda function"@) {
            Ok(_) => Err(seq![]),
            Err(m) => Err(m),
        }
    }
}

fn check_uri(uri: String) -> (r: Result<String, String>)
    ensures
        match uri_checked(uri@) {
            Ok(u) => (r matches Ok(s) && s@ == u),
            Err(m) => (r matches Err(e) && e@ == m),
        },
{
    if uri.unicode_len() == 0 || eq_str(&uri, "None") {
        Err(copy_str("AWS returned an empty ECR URI"))
    } else {
        Ok(uri)
    }
}

pub fn region_answer(o: &CommandOutput) -> (r: Result<String, String>)
    ensures
        match region_answer_spec(*o) {
            Ok(t) => (r matches Ok(s) && s@ == t),
            Err(m) => (r matches Err(e) && e@ == m),
        },
{
    let region = output_text(o, "resolving the AWS region")?;
    if region.unicode_len() == 0 {
        return Err(copy_str("AWS region is not configured; pass --aws-region"));
    }
    Ok(region)
}

pub fn describe_answer(o: &CommandOutput) -> (r: Result<Option<String>, String>)
    ensures
        match describe_answer_spec(*o) {
            Ok(Some(u)) => (r matches Ok(Some(s)) && s@ == u),
            Ok(None) => r matches Ok(None),
            Err(m) => (r matches Err(e) && e@ == m),
        },
{
    if o.success {
        return match check_uri(trim_str(&o.stdout)) {
            Ok(u) => Ok(Some(u)),
            Err(e) => Err(e),
        };
    }
    if contains_str(&o.stderr, "RepositoryNotFoundException") {
        return Ok(None);
    }
    match output_text(o, "describing the ECR repository") {
        Ok(_) => Err(String::new()),
        Err(e) => Err(e),
    }
}

pub fn create_answer(o: &CommandOutput) -> (r: Result<String, String>)
    ensures
        match create_answer_spec(*o) {
            Ok(t) => (r matches Ok(s) && s@ == t),
            Err(m) => (r matches Err(e) && e@ == m),
        },
{
    let uri = output_text(o, "creating the ECR repository")?;
    check_uri(uri)
}

pub fn function_answer(o: &CommandOutput) -> (r: Result<bool, String>)
    ensures
        match function_answer_spec(*o) {
            Ok(b) => r == Ok::<bool, String>(b),
            Err(m) => (r matches Err(e) && e@ == m),
        },
{
    if o.success {
        return Ok(true);
    }
    if contains_str(&o.stderr, "ResourceNotFoundException") {
        return Ok(false);
    }
    match output_text(o, "looking up the Lambda function") {
        Ok(_) => Err(String::new()),
        Err(e) => Err(e),
    }
}

/// The registry part of a repository URI (before its first `/`).
pub open spec fn registry_of_spec(uri: Seq<char>) -> Option<Seq<char>> {
    let k = crate::text::first_char_index(uri, '/');
    if k >= 0 {
        Some(uri.subrange(0, k))
    } else {
        None
    }
}

pub fn registry_of(uri: &str) -> (r: Result<String, String>)
    ensures
        match registry_of_spec(uri@) {
            Some(t) => (r matches Ok(s) && s@ == t),
            None => (r matches Err(e) && e@ == "AWS returned an invalid ECR repository URI"@),
        },
{
    let v = chars_of(uri);
    match crate::text::find_char(&v, '/') {
        Some(k) => Ok(crate::text::string_of_range(&v, 0, k)),
        None => Err(copy_str("AWS returned an invalid ECR repository URI")),
    }
}

pub open spec fn publish_args_spec(
    o: AwsLambdaOptions,
    exists: bool,
    function: Seq<char>,
    image_uri: Seq<char>,
    region: Seq<char>,
    arch: LambdaArchitecture,
) -> Result<Seq<Seq<char>>, Seq<char>> {
    if exists {
        Ok(
            aws_args_spec(
                o,
                "lambda"@,
                "update-function-code"@,
                region,
                seq!["--function-name"@, function, "--image-uri"@, image_uri, "--architectures"@, aws_architecture_value(arch)],
            ),
        )
    } else {
        match nonempty(o.role) {
            None => Err("Creating an AWS Lambda function requires --aws-role with an IAM role ARN"@),
            Some(role) => Ok(
                aws_args_spec(
                    o,
                    "lambda"@,
                    "create-function"@,
                    region,
                    seq![
                        "--function-name"@,
                        function,
                        "--package-type"@,
                        "Image"@,
                        "--code"@,
                        "ImageUri="@ + image_uri,
                        "--role"@,
                        role,
                        "--architectures"@,
                        aws_architecture_value(arch),
                    ],
                ),
            ),
        }
    }
}

/// The image tag pushed: the configured one, else `anybuild`.
pub open spec fn image_uri_spec(o: AwsLambdaOptions, repository_uri: Seq<char>) -> Seq<char> {
    repository_uri + ":"@ + match nonempty(o.image_tag) {
        Some(t) => t,
        None => "anybuild"@,
    }
}

impl AwsLambdaDeployer {
    /// The region before asking the AWS CLI: configured, else from the
    /// environment.
    pub fn configured_region(&self, aws_region: Option<&str>, aws_default_region: Option<&str>) -> (r: Option<String>)
        ensures
            crate::python::opt_string_view(r) == configured_region_spec(
                self.options,
                crate::python::opt_view(aws_region),
                crate::python::opt_view(aws_default_region),
            ),
    {
        if let Some(r) = nonempty_exec(&self.options.region) {
            return Some(copy_str(r));
        }
        if let Some(r) = aws_region {
            if r.unicode_len() > 0 {
                return Some(copy_str(r));
            }
        }
        if let Some(d) = aws_default_region {
            if d.unicode_len() > 0 {
                return Some(copy_str(d));
            }
        }
        None
    }

    /// `aws configure get region`.
    pub fn region_query_args(&self) -> (r: Vec<String>)
        ensures
            text_views(r@) == seq!["configure"@, "get"@, "region"@] + profile_args_spec(self.options) + seq![
                "--no-cli-pager"@,
            ],
    {
        let mut r = texts(&["configure", "get", "region"]);
        assert(text_views(r@) =~= seq!["configure"@, "get"@, "region"@]);
        let profile = self.profile_args();
        append(&mut r, &profile);
        push_text(&mut r, "--no-cli-pager");
        r
    }

    pub fn describe_repository_args(&self, repository: &str, region: &str) -> (r: Vec<String>)
        ensures
            text_views(r@) == aws_args_spec(
                self.options,
                "ecr"@,
                "describe-repositories"@,
                region@,
                seq!["--repository-names"@, repository@, "--query"@, "repositories[0].repositoryUri"@, "--output"@, "text"@],
            ),
    {
        let args = texts(&["--repository-names", repository, "--query", "repositories[0].repositoryUri", "--output", "text"]);
        assert(text_views(args@) =~= seq!["--repository-names"@, repository@, "--query"@, "repositories[0].repositoryUri"@, "--output"@, "text"@]);
        self.aws_args("ecr", "describe-repositories", region, &args)
    }

    pub fn create_repository_args(&self, repository: &str, region: &str) -> (r: Vec<String>)
        ensures
            text_views(r@) == aws_args_spec(
                self.options,
                "ecr"@,
                "create-repository"@,
                region@,
                seq![
                    "--repository-name"@,
                    repository@,
                    "--image-scanning-configuration"@,
                    "scanOnPush=true"@,
                    "--query"@,
                    "repository.repositoryUri"@,
                    "--output"@,
                    "text"@,
                ],
            ),
    {
        let args = texts(
            &[
                "--repository-name",
                repository,
                "--image-scanning-configuration",
                "scanOnPush=true",
                "--query",
                "repository.repositoryUri",
                "--output",
                "text",
            ],
        );
        assert(text_views(args@) =~= seq![
            "--repository-name"@,
            repository@,
            "--image-scanning-configuration"@,
            "scanOnPush=true"@,
            "--query"@,
            "repository.repositoryUri"@,
            "--output"@,
            "text"@,
        ]);
        self.aws_args("ecr", "create-repository", region, &args)
    }

    pub fn login_password_args(&self, region: &str) -> (r: Vec<String>)
        ensures
            text_views(r@) == aws_args_spec(self.options, "ecr"@, "get-login-password"@, region@, seq![]),
    {
        let none: Vec<String> = Vec::new();
        assert(text_views(none@) =~= Seq::<Seq<char>>::empty());
        self.aws_args("ecr", "get-login-password", region, &none)
    }

    /// The pushed image's URI.
    pub fn image_uri(&self, repository_uri: &str) -> (r: String)
        ensures
            r@ == image_uri_spec(self.options, repository_uri@),
    {
        let mut r = copy_str(repository_uri);
        push_str(&mut r, ":");
        match nonempty_exec(&self.options.image_tag) {
            Some(t) => push_str(&mut r, t),
            None => push_str(&mut r, "anybuild"),
        }
        r
    }

    pub fn function_lookup_args(&self, function: &str, region: &str) -> (r: Vec<String>)
        ensures
            text_views(r@) == aws_args_spec(
                self.options,
                "lambda"@,
                "get-function"@,
                region@,
                seq!["--function-name"@, function@, "--output"@, "json"@],
            ),
    {
        let args = texts(&["--function-name", function, "--output", "json"]);
        assert(text_views(args@) =~= seq!["--function-name"@, function@, "--output"@, "json"@]);
        self.aws_args("lambda", "get-function", region, &args)
    }

    /// Update an existing function's image, or create the function, which
    /// needs a role.
    pub fn publish_args(
        &self,
        exists: bool,
        function: &str,
        image_uri: &str,
        region: &str,
        arch: LambdaArchitecture,
    ) -> (r: Result<Vec<String>, String>)
        ensures
            match publish_args_spec(self.options, exists, function@, image_uri@, region@, arch) {
                Ok(a) => (r matches Ok(v) && text_views(v@) == a),
                Err(m) => (r matches Err(e) && e@ == m),
            },
    {
        let architecture = arch.as_aws_value();
        if exists {
            let args = texts(&["--function-name", function, "--image-uri", image_uri, "--architectures", architecture]);
            assert(text_views(args@) =~= seq!["--function-name"@, function@, "--image-uri"@, image_uri@, "--architectures"@, aws_architecture_value(arch)]);
            return Ok(self.aws_args("lambda", "update-function-code", region, &args));
        }
        let role = match nonempty_exec(&self.options.role) {
            Some(r) => r,
            None => return Err(copy_str("Creating an AWS Lambda function requires --aws-role with an IAM role ARN")),
        };
        let mut code = copy_str("ImageUri=");
        push_str(&mut code, image_uri);
        let args = texts(
            &[
                "--function-name",
                function,
                "--package-type",
                "Image",
                "--code",
                code.as_str(),
                "--role",
                role,
                "--architectures",
                architecture,
            ],
        );
        assert(text_views(args@) =~= seq![
            "--function-name"@,
            function@,
            "--package-type"@,
            "Image"@,
            "--code"@,
            "ImageUri="@ + image_uri@,
            "--role"@,
            role@,
            "--architectures"@,
            aws_architecture_value(arch),
        ]);
        Ok(self.aws_args("lambda", "create-function", region, &args))
    }
}


// ---------------------------------------------------------------------------
// Deploying

/// What a deployment publishes: the function, its image repository, and
/// the local image to push.
#[derive(Debug, Clone, PartialEq, Eq)]
pub struct LambdaDeployPlan {
    pub function: String,
    pub repository: String,
    pub local_image: String,
}

pub open spec fn artifact_kind_name(a: RuntimeArtifact) -> Seq<char> {
    match a {
        RuntimeArtifact::Local { .. } => "Local"@,
        RuntimeArtifact::Docker { .. } => "Docker"@,
        RuntimeArtifact::LambdaZip { .. } => "LambdaZip"@,
        RuntimeArtifact::Wasmer { .. } => "Wasmer"@,
    }
}

/// Whether a deployment can go ahead, and what it publishes. The
/// `dockerfile` is the text of the Docker artifact's Dockerfile, when it
/// could be read.
pub open spec fn lambda_plan_spec(
    o: AwsLambdaOptions,
    artifact: RuntimeArtifact,
    write_config: bool,
    dockerfile: Option<Seq<char>>,
) -> Result<(Seq<char>, Seq<char>, Seq<char>), Seq<char>> {
    if write_config {
        Err("AWS Lambda does not support Wasmer deployment configs"@)
    } else {
        match artifact {
            RuntimeArtifact::Docker { image, .. } => match dockerfile {
                None => Err("Docker artifact metadata is missing; rebuild with --runner=docker"@),
                Some(text) => if !contains_seq(text, lambda_adapter_image()) {
                    Err("Docker artifact predates AWS Lambda support; rebuild with --runner=docker"@)
                } else {
                    match nonempty(o.function) {
                        None => Err("AWS Lambda deployment requires --aws-function"@),
                        Some(f) => Ok(
                            (
                                f,
                                match nonempty(o.repository) {
                                    Some(r) => r,
                                    None => repository_name_spec(f),
                                },
                                image@,
                            ),
                        ),
                    }
                },
            },
            _ => Err("AWS Lambda deployment requires a Docker artifact, found "@ + artifact_kind_name(artifact)),
        }
    }
}

impl AwsLambdaDeployer {
    pub fn platform_name(&self) -> (r: &'static str)
        ensures
            r@ == "AWS Lambda"@,
    {
        "AWS Lambda"
    }

    pub fn plan_deploy(&self, artifact: &RuntimeArtifact, write_config: bool, dockerfile: Option<&str>) -> (r: Result<
        LambdaDeployPlan,
        String,
    >)
        ensures
            match lambda_plan_spec(self.options, *artifact, write_config, crate::python::opt_view(dockerfile)) {
                Ok(t) => (r matches Ok(p) && p.function@ == t.0 && p.repository@ == t.1 && p.local_image@ == t.2),
                Err(m) => (r matches Err(e) && e@ == m),
            },
    {
        if write_config {
            return Err(copy_str("AWS Lambda does not support Wasmer deployment configs"));
        }
        let image = match artifact {
            RuntimeArtifact::Docker { image, .. } => image,
            _ => {
                let mut m = copy_str("AWS Lambda deployment requires a Docker artifact, found ");
                let kind = match artifact {
                    RuntimeArtifact::Local { .. } => "Local",
                    RuntimeArtifact::Docker { .. } => "Docker",
                    RuntimeArtifact::LambdaZip { .. } => "LambdaZip",
                    RuntimeArtifact::Wasmer { .. } => "Wasmer",
                };
                push_str(&mut m, kind);
                return Err(m);
            },
        };
        let text = match dockerfile {
            Some(t) => t,
            None => return Err(copy_str("Docker artifact metadata is missing; rebuild with --runner=docker")),
        };
        if !contains_str(text, "public.ecr.aws/awsguru/aws-lambda-adapter:1.0.0") {
            return Err(copy_str("Docker artifact predates AWS Lambda support; rebuild with --runner=docker"));
        }
        let function = match nonempty_exec(&self.options.function) {
            Some(f) => f,
            None => return Err(copy_str("AWS Lambda deployment requires --aws-function")),
        };
        let repository = match nonempty_exec(&self.options.repository) {
            Some(r) => copy_str(r),
            None => repository_name(function),
        };
        Ok(LambdaDeployPlan { function: copy_str(function), repository, local_image: image.clone() })
    }
}

/// `docker login --username AWS --password-stdin <registry>`.
pub fn docker_login_args(registry: &str) -> (r: Vec<String>)
    ensures
        text_views(r@) == seq!["login"@, "--username"@, "AWS"@, "--password-stdin"@, registry@],
{
    let r = texts(&["login", "--username", "AWS", "--password-stdin", registry]);
    assert(text_views(r@) =~= seq!["login"@, "--username"@, "AWS"@, "--password-stdin"@, registry@]);
    r
}

/// `docker tag <local> <remote>`.
pub fn docker_tag_args(local_image: &str, image_uri: &str) -> (r: Vec<String>)
    ensures
        text_views(r@) == seq!["tag"@, local_image@, image_uri@],
{
    let r = texts(&["tag", local_image, image_uri]);
    assert(text_views(r@) =~= seq!["tag"@, local_image@, image_uri@]);
    r
}

/// `docker push <remote>`.
pub fn docker_push_args(image_uri: &str) -> (r: Vec<String>)
    ensures
        text_views(r@) == seq!["push"@, image_uri@],
{
    let r = texts(&["push", image_uri]);
    assert(text_views(r@) =~= seq!["push"@, image_uri@]);
    r
}

} // verus!
