//! Deploying a Docker artifact to Fly.io: which `fly.toml` to use (or the
//! one to generate), and the `flyctl deploy` arguments.
use vstd::prelude::*;
use crate::artifact::RuntimeArtifact;
use crate::event::text_views;
use crate::options::FlyOptions;
use crate::paths::{join, join_spec};
use crate::text::{copy_str, decimal, decimal_string, push_str, trim, trim_str};

verus! {

fn push_text(v: &mut Vec<String>, t: &str)
    ensures
        text_views(final(v)@) == text_views(old(v)@).push(t@),
{
    v.push(copy_str(t));
    assert(text_views(v@) =~= text_views(old(v)@).push(t@));
}

/// An integer in decimal, with a sign when negative.
pub open spec fn signed_decimal(n: int) -> Seq<char> {
    if n < 0 {
        seq!['-'] + decimal((0 - n) as nat)
    } else {
        decimal(n as nat)
    }
}

pub fn signed_decimal_string(n: i64) -> (r: String)
    ensures
        r@ == signed_decimal(n as int),
{
    if n < 0 {
        let m: u64 = if n == i64::MIN {
            0x8000_0000_0000_0000
        } else {
            (0 - n) as u64
        };
        let mut r = copy_str("-");
        push_str(&mut r, &decimal_string(m));
        proof {
            reveal_strlit("-");
        }
        assert(r@ =~= seq!['-'] + decimal((0 - n) as nat));
        r
    } else {
        decimal_string(n as u64)
    }
}

/// Where the deployment's Fly configuration comes from.
#[derive(Debug, Clone, PartialEq, Eq)]
pub enum FlyConfig {
    /// An existing file.
    Existing(String),
    /// A file to write: the app, its HTTP service on `port`, forced HTTPS,
    /// machines stopped when idle, started on demand, none kept running.
    Generate { path: String, app: String, port: i64 },
}

/// The Fly.io deployment settings.
#[derive(Debug, Clone, PartialEq, Eq)]
pub struct FlyDeployer {
    pub options: FlyOptions,
}

pub open spec fn nonempty_app(o: FlyOptions) -> Option<Seq<char>> {
    match o.app {
        Some(a) => if a@.len() > 0 {
            Some(a@)
        } else {
            None
        },
        None => None,
    }
}

/// The configured config file, relative paths taken in the build context.
pub open spec fn configured_path_spec(o: FlyOptions, context: Seq<char>) -> Option<Seq<char>> {
    match o.config {
        Some(c) => Some(join_spec(context, c@)),
        None => None,
    }
}

/// Which config to use: the configured file (which must exist), else the
/// project's `fly.toml`, else one generated for `--fly-app` with the port
/// the artifact records (its text in `port_text`, when it could be read).
pub open spec fn fly_config_spec(
    o: FlyOptions,
    artifact_dir: Seq<char>,
    context: Seq<char>,
    configured_is_file: bool,
    project_config_is_file: bool,
    port_text: Option<Seq<char>>,
) -> Result<(Seq<char>, Option<(Seq<char>, int)>), Seq<char>> {
    let port_path = join_spec(artifact_dir, "port"@);
    match configured_path_spec(o, context) {
        Some(p) => if configured_is_file {
            Ok((p, None))
        } else {
            Err("Fly config does not exist: "@ + p)
        },
        None => if project_config_is_file {
            Ok((join_spec(context, "fly.toml"@), None))
        } else {
            match nonempty_app(o) {
                None => Err("Fly deployment requires --fly-app when the project has no fly.toml"@),
                Some(app) => match port_text {
                    None => Err("reading Docker runtime port from "@ + port_path),
                    Some(t) => match crate::base::parse_i64(trim(t)) {
                        None => Err("invalid Docker runtime port in "@ + port_path),
                        Some(port) => if 1 <= port <= 65535 {
                            Ok((join_spec(artifact_dir, "fly.toml"@), Some((app, port as int))))
                        } else {
                            Err("Docker runtime port must be between 1 and 65535, found "@ + signed_decimal(port as int))
                        },
                    },
                },
            }
        },
    }
}

/// `deploy <context> --local-only --dockerfile <dir>/Dockerfile
/// --ignorefile <dir>/Dockerfile.dockerignore --config <config>
/// [--app <app>] --yes`.
pub open spec fn fly_deploy_args_spec(o: FlyOptions, artifact_dir: Seq<char>, context: Seq<char>, config: Seq<char>) -> Seq<Seq<char>> {
    seq![
        "deploy"@,
        context,
        "--local-only"@,
        "--dockerfile"@,
        join_spec(artifact_dir, "Dockerfile"@),
        "--ignorefile"@,
        join_spec(artifact_dir, "Dockerfile.dockerignore"@),
        "--config"@,
        config,
    ] + (match nonempty_app(o) {
        Some(a) => seq!["--app"@, a],
        None => seq![],
    }) + seq!["--yes"@]
}

impl FlyDeployer {
    pub fn new(options: FlyOptions) -> (r: Self)
        ensures
            r.options == options,
    {
        FlyDeployer { options }
    }

    pub fn binary(&self) -> (r: &str)
        ensures
            r@ == (match self.options.binary {
                Some(b) => b@,
                None => "flyctl"@,
            }),
    {
        match &self.options.binary {
            Some(b) => b.as_str(),
            None => "flyctl",
        }
    }

    pub fn platform_name(&self) -> (r: &'static str)
        ensures
            r@ == "Fly.io"@,
    {
        "Fly.io"
    }

    /// The configured config file's path, for the caller to check.
    pub fn configured_path(&self, context: &str) -> (r: Option<String>)
        ensures
            crate::python::opt_string_view(r) == configured_path_spec(self.options, context@),
    {
        match &self.options.config {
            Some(c) => Some(join(context, c)),
            None => None,
        }
    }

    /// Which config to deploy with.
    pub fn config_path(
        &self,
        artifact_dir: &str,
        context: &str,
        configured_is_file: bool,
        project_config_is_file: bool,
        port_text: Option<&str>,
    ) -> (r: Result<FlyConfig, String>)
        ensures
            match fly_config_spec(self.options, artifact_dir@, context@, configured_is_file, project_config_is_file, crate::python::opt_view(port_text)) {
                Ok((p, None)) => (r matches Ok(FlyConfig::Existing(q)) && q@ == p),
                Ok((p, Some((app, port)))) => (r matches Ok(FlyConfig::Generate { path, app: a, port: n }) && path@ == p && a@ == app && n as int == port),
                Err(m) => (r matches Err(e) && e@ == m),
            },
    {
        let port_path = join(artifact_dir, "port");
        if let Some(p) = self.configured_path(context) {
            if configured_is_file {
                return Ok(FlyConfig::Existing(p));
            }
            let mut m = copy_str("Fly config does not exist: ");
            push_str(&mut m, &p);
            return Err(m);
        }
        if project_config_is_file {
            return Ok(FlyConfig::Existing(join(context, "fly.toml")));
        }
        let app = match &self.options.app {
            Some(a) => if a.unicode_len() > 0 {
                a
            } else {
                return Err(copy_str("Fly deployment requires --fly-app when the project has no fly.toml"));
            },
            None => return Err(copy_str("Fly deployment requires --fly-app when the project has no fly.toml")),
        };
        let text = match port_text {
            Some(t) => t,
            None => {
                let mut m = copy_str("reading Docker runtime port from ");
                push_str(&mut m, &port_path);
                return Err(m);
            },
        };
        let trimmed = trim_str(text);
        let port = match crate::base::parse_i64_exec(&crate::text::chars_of(trimmed.as_str())) {
            Some(n) => n,
            None => {
                let mut m = copy_str("invalid Docker runtime port in ");
                push_str(&mut m, &port_path);
                return Err(m);
            },
        };
        if port < 1 || port > 65535 {
            let mut m = copy_str("Docker runtime port must be between 1 and 65535, found ");
            push_str(&mut m, &signed_decimal_string(port));
            return Err(m);
        }
        Ok(FlyConfig::Generate { path: join(artifact_dir, "fly.toml"), app: a_clone(app), port })
    }

    /// The arguments of `flyctl deploy`.
    pub fn deploy_args(&self, artifact_dir: &str, context: &str, config: &str) -> (r: Vec<String>)
        ensures
            text_views(r@) == fly_deploy_args_spec(self.options, artifact_dir@, context@, config@),
    {
        let mut args: Vec<String> = Vec::new();
        push_text(&mut args, "deploy");
        push_text(&mut args, context);
        push_text(&mut args, "--local-only");
        push_text(&mut args, "--dockerfile");
        push_text(&mut args, &join(artifact_dir, "Dockerfile"));
        push_text(&mut args, "--ignorefile");
        push_text(&mut args, &join(artifact_dir, "Dockerfile.dockerignore"));
        push_text(&mut args, "--config");
        push_text(&mut args, config);
        match &self.options.app {
            Some(a) => if a.unicode_len() > 0 {
                push_text(&mut args, "--app");
                push_text(&mut args, a);
            },
            None => {},
        }
        push_text(&mut args, "--yes");
        assert(text_views(args@) =~= fly_deploy_args_spec(self.options, artifact_dir@, context@, config@));
        args
    }

    /// The build directory and context of a Docker artifact; a Fly.io
    /// deployment publishes and writes no Wasmer configs.
    pub fn docker_parts<'a>(&self, artifact: &'a RuntimeArtifact, write_config: bool) -> (r: Result<(&'a str, &'a str), String>)
        ensures
            match *artifact {
                RuntimeArtifact::Docker { directory, context, .. } => if write_config {
                    (r matches Err(e) && e@ == "Fly.io deployment does not support Wasmer deployment configs"@)
                } else {
                    (r matches Ok(p) && p.0@ == directory@ && p.1@ == context@)
                },
                _ => (r matches Err(e) && e@ == "Fly.io deployment requires a Docker artifact, found "@
                    + crate::aws_lambda::artifact_kind_name(*artifact)),
            },
    {
        match artifact {
            RuntimeArtifact::Docker { directory, context, .. } => {
                if write_config {
                    return Err(copy_str("Fly.io deployment does not support Wasmer deployment configs"));
                }
                Ok((directory.as_str(), context.as_str()))
            },
            _ => {
                let mut m = copy_str("Fly.io deployment requires a Docker artifact, found ");
                let kind = match artifact {
                    RuntimeArtifact::Local { .. } => "Local",
                    RuntimeArtifact::Docker { .. } => "Docker",
                    RuntimeArtifact::LambdaZip { .. } => "LambdaZip",
                    RuntimeArtifact::Wasmer { .. } => "Wasmer",
                };
                push_str(&mut m, kind);
                Err(m)
            },
        }
    }
}

fn a_clone(s: &String) -> (r: String)
    ensures
        r@ == s@,
{
    s.clone()
}

} // verus!
