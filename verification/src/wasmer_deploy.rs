//! Deploying a Wasmer artifact to Wasmer Edge: the `wasmer` commands, the
//! app identity written into `app.yaml`, and the deploy configuration
//! written instead of publishing.
use vstd::prelude::*;
use sha2::Digest;
use crate::artifact::RuntimeArtifact;
use crate::event::text_views;
use crate::json::{json_quoted, json_string_literal};
use crate::options::WasmerOptions;
use crate::paths::{join, join_spec};
use crate::text::{copy_str, decimal, decimal_string, push_str};

verus! {

pub open spec fn nonempty_view(o: Option<&str>) -> Option<Seq<char>> {
    match o {
        Some(s) => if s@.len() > 0 {
            Some(s@)
        } else {
            None
        },
        None => None,
    }
}

fn nonempty_str(o: Option<&str>) -> (r: Option<&str>)
    ensures
        crate::python::opt_view(r) == nonempty_view(o),
{
    match o {
        Some(s) => if s.unicode_len() > 0 {
            Some(s)
        } else {
            None
        },
        None => None,
    }
}

fn push_text(v: &mut Vec<String>, t: &str)
    ensures
        text_views(final(v)@) == text_views(old(v)@).push(t@),
{
    v.push(copy_str(t));
    assert(text_views(v@) =~= text_views(old(v)@).push(t@));
}

/// The Wasmer Edge deployment settings.
#[derive(Debug, Clone, PartialEq, Eq)]
pub struct WasmerDeployer {
    pub options: WasmerOptions,
}

pub open spec fn opt_pair(flag: Seq<char>, o: Option<Seq<char>>) -> Seq<Seq<char>> {
    match o {
        Some(v) => seq![flag, v],
        None => seq![],
    }
}

pub open spec fn opt_string(o: Option<String>) -> Option<Seq<char>> {
    match o {
        Some(s) => Some(s@),
        None => None,
    }
}

/// `deploy --publish-package --dir <dir>`, non-interactive when both owner
/// and name are given, then the registry, token, owner and name.
pub open spec fn wasmer_deploy_args_spec(
    o: WasmerOptions,
    artifact_dir: Seq<char>,
    owner: Option<Seq<char>>,
    name: Option<Seq<char>>,
) -> Seq<Seq<char>> {
    seq!["deploy"@, "--publish-package"@, "--dir"@, artifact_dir] + (if owner is Some && name is Some {
        seq!["--non-interactive"@]
    } else {
        Seq::<Seq<char>>::empty()
    }) + opt_pair("--registry"@, opt_string(o.registry)) + opt_pair("--token"@, opt_string(o.token)) + opt_pair(
        "--owner"@,
        owner,
    ) + opt_pair("--app-name"@, name)
}

/// A field of `app.yaml` set when its value differs.
pub open spec fn yaml_change(key: Seq<char>, wanted: Option<Seq<char>>, current: Option<Seq<char>>) -> Seq<(Seq<char>, Seq<char>)> {
    match wanted {
        Some(w) => if current == Some(w) {
            seq![]
        } else {
            seq![(key, w)]
        },
        None => seq![],
    }
}

/// What the caller writes to `app.yaml`: the owner and name that differ
/// from the values it holds.
pub open spec fn app_yaml_changes_spec(
    owner: Option<Seq<char>>,
    name: Option<Seq<char>>,
    current_owner: Option<Seq<char>>,
    current_name: Option<Seq<char>>,
) -> Seq<(Seq<char>, Seq<char>)> {
    yaml_change("owner"@, owner, current_owner) + yaml_change("name"@, name, current_name)
}

/// What the SHA-256 of some bytes is, in lowercase hex.
pub uninterp spec fn sha256_hex(bytes: Seq<u8>) -> Seq<char>;

/// `sha2::Sha256::digest`, written with `{:x}`: the digest as 64
/// lowercase hexadecimal digits.
#[verifier::external_body]
fn sha256_digest_hex(bytes: &[u8]) -> (r: String)
    ensures
        r@ == sha256_hex(bytes@),
{
    format!("{:x}", sha2::Sha256::digest(bytes))
}

/// The deploy configuration: where `app.yaml` and the package are, the
/// package's size and digest.
pub open spec fn deploy_config_spec(app_yaml: Seq<char>, package: Seq<char>, size: nat, sha: Seq<char>) -> Seq<char> {
    "{\"app_yaml_path\": "@ + json_quoted(app_yaml) + ", \"package_webc_path\": "@ + json_quoted(package)
        + ", \"package_webc_size\": "@ + decimal(size) + ", \"package_webc_sha256\": "@ + json_quoted(sha) + "}"@
}

impl WasmerDeployer {
    pub fn new(options: WasmerOptions) -> (r: Self)
        ensures
            r.options == options,
    {
        WasmerDeployer { options }
    }

    pub fn binary(&self) -> (r: &str)
        ensures
            r@ == (match self.options.binary {
                Some(b) => b@,
                None => "wasmer"@,
            }),
    {
        match &self.options.binary {
            Some(b) => b.as_str(),
            None => "wasmer",
        }
    }

    pub fn platform_name(&self) -> (r: &'static str)
        ensures
            r@ == "Wasmer"@,
    {
        "Wasmer"
    }

    /// The arguments of `wasmer deploy`; empty owner and name count as
    /// absent.
    pub fn deploy_args(&self, artifact_dir: &str, owner: Option<&str>, name: Option<&str>) -> (r: Vec<String>)
        ensures
            text_views(r@) == wasmer_deploy_args_spec(self.options, artifact_dir@, nonempty_view(owner), nonempty_view(name)),
    {
        let owner = nonempty_str(owner);
        let name = nonempty_str(name);
        let mut args: Vec<String> = Vec::new();
        push_text(&mut args, "deploy");
        push_text(&mut args, "--publish-package");
        push_text(&mut args, "--dir");
        push_text(&mut args, artifact_dir);
        if owner.is_some() && name.is_some() {
            push_text(&mut args, "--non-interactive");
        }
        if let Some(registry) = &self.options.registry {
            push_text(&mut args, "--registry");
            push_text(&mut args, registry);
        }
        if let Some(token) = &self.options.token {
            push_text(&mut args, "--token");
            push_text(&mut args, token);
        }
        if let Some(o) = owner {
            push_text(&mut args, "--owner");
            push_text(&mut args, o);
        }
        if let Some(n) = name {
            push_text(&mut args, "--app-name");
            push_text(&mut args, n);
        }
        assert(text_views(args@) =~= wasmer_deploy_args_spec(self.options, artifact_dir@, crate::python::opt_view(owner), crate::python::opt_view(name)));
        args
    }

    /// The directory of a Wasmer artifact.
    pub fn artifact_dir<'a>(&self, artifact: &'a RuntimeArtifact) -> (r: Result<&'a str, String>)
        ensures
            match *artifact {
                RuntimeArtifact::Wasmer { directory } => (r matches Ok(d) && d@ == directory@),
                _ => (r matches Err(e) && e@ == "Wasmer deployment requires a Wasmer artifact, found "@
                    + crate::aws_lambda::artifact_kind_name(*artifact)),
            },
    {
        match artifact {
            RuntimeArtifact::Wasmer { directory } => Ok(directory.as_str()),
            _ => {
                let mut m = copy_str("Wasmer deployment requires a Wasmer artifact, found ");
                let kind = match artifact {
                    RuntimeArtifact::Local { .. } => "Local",
                    RuntimeArtifact::Docker { .. } => "Docker",
                    RuntimeArtifact::LambdaZip { .. } => "LambdaZip",
                    RuntimeArtifact::Wasmer { .. } => "Wasmer",
                };
                push_str(&mut m, kind);
                Err(m)
            },
        }
    }
}

/// The owner and name to write into `app.yaml`, given the values it holds
/// (as strings; anything else counts as different).
pub fn app_yaml_changes(
    owner: Option<&str>,
    name: Option<&str>,
    current_owner: Option<&str>,
    current_name: Option<&str>,
) -> (r: Vec<(String, String)>)
    ensures
        crate::env_map::pairs_view(r@) == app_yaml_changes_spec(
            nonempty_view(owner),
            nonempty_view(name),
            crate::python::opt_view(current_owner),
            crate::python::opt_view(current_name),
        ),
{
    let owner = nonempty_str(owner);
    let name = nonempty_str(name);
    let mut r: Vec<(String, String)> = Vec::new();
    if let Some(o) = owner {
        let same = match current_owner {
            Some(c) => crate::text::eq_str(c, o),
            None => false,
        };
        if !same {
            r.push((copy_str("owner"), copy_str(o)));
        }
    }
    let ghost mid = crate::env_map::pairs_view(r@);
    if let Some(n) = name {
        let same = match current_name {
            Some(c) => crate::text::eq_str(c, n),
            None => false,
        };
        if !same {
            r.push((copy_str("name"), copy_str(n)));
        }
    }
    assert(crate::env_map::pairs_view(r@) =~= app_yaml_changes_spec(
        crate::python::opt_view(owner),
        crate::python::opt_view(name),
        crate::python::opt_view(current_owner),
        crate::python::opt_view(current_name),
    ));
    r
}

/// `package build <dir> --out <dir>/package.webc`, and that path.
pub fn package_build_args(artifact_dir: &str) -> (r: (Vec<String>, String))
    ensures
        r.1@ == join_spec(artifact_dir@, "package.webc"@),
        text_views(r.0@) == seq!["package"@, "build"@, artifact_dir@, "--out"@, r.1@],
{
    let webc = join(artifact_dir, "package.webc");
    let mut args: Vec<String> = Vec::new();
    push_text(&mut args, "package");
    push_text(&mut args, "build");
    push_text(&mut args, artifact_dir);
    push_text(&mut args, "--out");
    push_text(&mut args, &webc);
    (args, webc)
}

/// The deploy configuration for a built package, from its contents.
pub fn deploy_config(app_yaml_path: &str, package_path: &str, package: &[u8]) -> (r: String)
    ensures
        r@ == deploy_config_spec(app_yaml_path@, package_path@, package@.len(), sha256_hex(package@)),
{
    let sha = sha256_digest_hex(package);
    let size = package.len() as u64;
    let mut out = copy_str("{\"app_yaml_path\": ");
    push_str(&mut out, &json_string_literal(app_yaml_path));
    push_str(&mut out, ", \"package_webc_path\": ");
    push_str(&mut out, &json_string_literal(package_path));
    push_str(&mut out, ", \"package_webc_size\": ");
    push_str(&mut out, &decimal_string(size));
    push_str(&mut out, ", \"package_webc_sha256\": ");
    push_str(&mut out, &json_string_literal(&sha));
    push_str(&mut out, "}");
    out
}

/// The artifact a build before runtime artifacts were recorded left.
pub fn legacy_artifact(anybuild_dir: &str) -> (r: RuntimeArtifact)
    ensures
        r matches RuntimeArtifact::Wasmer { directory } && directory@ == join_spec(anybuild_dir@, "wasmer"@),
{
    RuntimeArtifact::Wasmer { directory: join(anybuild_dir, "wasmer") }
}

} // verus!
