//! The Docker build backend's decisions: the Dockerfile that runs every
//! plan step in a build container, and how the docker client is invoked.
//!
//! Reading asset files is left to the caller, which hands their contents
//! in; everything else here is computed from the plan.
use vstd::prelude::*;
use vstd::utf8::encode_utf8;
use crate::env_map::{
    map_insert, map_insert_all, map_insert_all_exec, map_insert_exec, map_get_exec,
    map_get_or_empty, pairs_view,
};
use crate::event::text_views;
use crate::local_build::{opt_texts, prepended_path};
use crate::paths::{join, join_spec, path_parent, path_parent_spec};
use crate::plan::{container_mount_path, is_download_source, CopyStep, Mount, Package, Step};
use crate::render::{join_strings, join_texts};
use crate::text::{concat_all, copy_str, eq_str, insert_sorted, insert_sorted_exec, push_str, sorted_unique};

verus! {

// ---------------------------------------------------------------------------
// Outside calls

/// A digit of the standard base64 alphabet: `A`-`Z`, `a`-`z`, `0`-`9`,
/// `+`, `/`.
pub open spec fn base64_digit(v: int) -> char {
    if v < 26 {
        (65 + v) as char
    } else if v < 52 {
        (97 + v - 26) as char
    } else if v < 62 {
        (48 + v - 52) as char
    } else if v == 62 {
        '+'
    } else {
        '/'
    }
}

/// Standard base64 with `=` padding: each three bytes become four digits
/// of six bits each; a final one or two bytes become two or three digits
/// and padding.
pub open spec fn base64_standard(bytes: Seq<u8>) -> Seq<char>
    decreases bytes.len(),
{
    if bytes.len() == 0 {
        seq![]
    } else {
        let b0 = bytes[0] as int;
        if bytes.len() == 1 {
            seq![base64_digit(b0 / 4), base64_digit((b0 % 4) * 16), '=', '=']
        } else {
            let b1 = bytes[1] as int;
            if bytes.len() == 2 {
                seq![base64_digit(b0 / 4), base64_digit((b0 % 4) * 16 + b1 / 16), base64_digit((b1 % 16) * 4), '=']
            } else {
                let b2 = bytes[2] as int;
                seq![
                    base64_digit(b0 / 4),
                    base64_digit((b0 % 4) * 16 + b1 / 16),
                    base64_digit((b1 % 16) * 4 + b2 / 64),
                    base64_digit(b2 % 64),
                ] + base64_standard(bytes.subrange(3, bytes.len() as int))
            }
        }
    }
}

/// `base64::engine::general_purpose::STANDARD.encode`: the bytes in the
/// standard alphabet with `=` padding.
#[verifier::external_body]
fn base64_encode(bytes: &[u8]) -> (r: String)
    ensures
        r@ == base64_standard(bytes@),
{
    base64::Engine::encode(&base64::engine::general_purpose::STANDARD, bytes)
}

// ---------------------------------------------------------------------------
// Installing dependencies

/// The mise backend a dependency is installed from, where it is not the
/// dependency's own name.
pub open spec fn mise_source_spec(dependency: Seq<char>) -> Option<Seq<char>> {
    if dependency == "php"@ {
        Some("ubi:adwinying/php"@)
    } else if dependency == "go-wasix"@ {
        Some("ubi:wasix-org/go[extract_all=true,bin_path=bin/]"@)
    } else if dependency == "composer"@ {
        Some("ubi:composer/composer"@)
    } else if dependency == "hugo"@ {
        Some("ubi:gohugoio/hugo[matching=extended]"@)
    } else {
        None
    }
}

pub fn mise_source(dependency: &str) -> (r: Option<&'static str>)
    ensures
        r is None <==> mise_source_spec(dependency@) is None,
        r matches Some(s) ==> mise_source_spec(dependency@) == Some(s@),
{
    if eq_str(dependency, "php") {
        Some("ubi:adwinying/php")
    } else if eq_str(dependency, "go-wasix") {
        Some("ubi:wasix-org/go[extract_all=true,bin_path=bin/]")
    } else if eq_str(dependency, "composer") {
        Some("ubi:composer/composer")
    } else if eq_str(dependency, "hugo") {
        Some("ubi:gohugoio/hugo[matching=extended]")
    } else {
        None
    }
}

/// A command to run after installing a dependency with mise.
pub open spec fn mise_postinstall_spec(dependency: Seq<char>) -> Option<Seq<char>> {
    if dependency == "composer"@ {
        Some(
            "composer_dir=$(mise where ubi:composer/composer); ln -s \"$composer_dir/composer.phar\" /usr/local/bin/composer"@,
        )
    } else {
        None
    }
}

pub fn mise_postinstall(dependency: &str) -> (r: Option<&'static str>)
    ensures
        r is None <==> mise_postinstall_spec(dependency@) is None,
        r matches Some(s) ==> mise_postinstall_spec(dependency@) == Some(s@),
{
    if eq_str(dependency, "composer") {
        Some(
            "composer_dir=$(mise where ubi:composer/composer); ln -s \"$composer_dir/composer.phar\" /usr/local/bin/composer",
        )
    } else {
        None
    }
}

/// The Dockerfile lines that install one dependency.
pub open spec fn dependency_install_text(p: Package) -> Seq<char> {
    let name = p.name@;
    if name == "bash"@ {
        seq![]
    } else if name == "pie"@ {
        "RUN apt-get update && apt-get -y --no-install-recommends install gcc make autoconf libtool bison re2c pkg-config libpq-dev\n"@
            + "RUN curl -L --output /usr/bin/pie https://github.com/php/pie/releases/download/1.2.0/pie.phar && chmod +x /usr/bin/pie\n"@
    } else if name == "composer"@ {
        let version = match p.version {
            Some(v) => v@,
            None => "2.9.2"@,
        };
        "RUN curl -L --output /usr/bin/composer https://github.com/composer/composer/releases/download/"@
            + version + "/composer.phar && chmod +x /usr/bin/composer\n"@
    } else if name == "static-web-server"@ {
        let env = match p.version {
            Some(v) => "ENV SWS_INSTALL_VERSION="@ + v@ + "\n"@,
            None => seq![],
        };
        env + "RUN curl --proto '=https' --tlsv1.2 -sSfL https://get.static-web-server.net | sh\n"@
    } else {
        let package = match mise_source_spec(name) {
            Some(s) => s,
            None => name,
        };
        let install = match p.version {
            Some(v) => "RUN mise use --global \""@ + package + "@"@ + v@ + "\"\n"@,
            None => "RUN mise use --global \""@ + package + "\"\n"@,
        };
        let post = match mise_postinstall_spec(name) {
            Some(cmd) => "RUN "@ + cmd + "\n"@,
            None => seq![],
        };
        install + post
    }
}

pub fn dependency_install_contents(dependency: &Package) -> (r: String)
    ensures
        r@ == dependency_install_text(*dependency),
{
    let name = dependency.name.as_str();
    if eq_str(name, "bash") {
        return String::new();
    }
    if eq_str(name, "pie") {
        let mut out = copy_str(
            "RUN apt-get update && apt-get -y --no-install-recommends install gcc make autoconf libtool bison re2c pkg-config libpq-dev\n",
        );
        push_str(
            &mut out,
            "RUN curl -L --output /usr/bin/pie https://github.com/php/pie/releases/download/1.2.0/pie.phar && chmod +x /usr/bin/pie\n",
        );
        return out;
    }
    if eq_str(name, "composer") {
        let mut out = copy_str(
            "RUN curl -L --output /usr/bin/composer https://github.com/composer/composer/releases/download/",
        );
        match &dependency.version {
            Some(v) => push_str(&mut out, v),
            None => push_str(&mut out, "2.9.2"),
        }
        push_str(&mut out, "/composer.phar && chmod +x /usr/bin/composer\n");
        return out;
    }
    if eq_str(name, "static-web-server") {
        let mut out = String::new();
        match &dependency.version {
            Some(v) => {
                push_str(&mut out, "ENV SWS_INSTALL_VERSION=");
                push_str(&mut out, v);
                push_str(&mut out, "\n");
            },
            None => {},
        }
        push_str(
            &mut out,
            "RUN curl --proto '=https' --tlsv1.2 -sSfL https://get.static-web-server.net | sh\n",
        );
        return out;
    }
    let package: &str = match mise_source(name) {
        Some(s) => s,
        None => name,
    };
    let mut out = copy_str("RUN mise use --global \"");
    push_str(&mut out, package);
    match &dependency.version {
        Some(v) => {
            push_str(&mut out, "@");
            push_str(&mut out, v);
        },
        None => {},
    }
    push_str(&mut out, "\"\n");
    match mise_postinstall(name) {
        Some(cmd) => {
            push_str(&mut out, "RUN ");
            push_str(&mut out, cmd);
            push_str(&mut out, "\n");
        },
        None => {},
    }
    out
}


// ---------------------------------------------------------------------------
// The Dockerfile

/// The build stage's preamble: a Debian image with build tools and mise.
pub open spec fn dockerfile_header_text() -> Seq<char> {
    "# syntax=docker/dockerfile:1.7-labs\nFROM debian:trixie-slim AS build\n\nRUN apt-get update \\\n    && apt-get -y --no-install-recommends install \\\n        build-essential gcc make autoconf libtool bison \\\n        dpkg-dev pkg-config re2c locate \\\n        libmariadb-dev libmariadb-dev-compat libpq-dev libsqlite3-dev \\\n        libvips-dev default-libmysqlclient-dev libmagickwand-dev \\\n        libicu-dev libxml2-dev libxslt-dev libyaml-dev \\\n        sudo curl ca-certificates unzip git \\\n    && rm -rf /var/lib/apt/lists/*\n\nSHELL [\"/bin/bash\", \"-o\", \"pipefail\", \"-c\"]\nENV MISE_DATA_DIR=\"/mise\"\nENV MISE_CONFIG_DIR=\"/mise\"\nENV MISE_CACHE_DIR=\"/mise/cache\"\nENV MISE_INSTALL_PATH=\"/usr/local/bin/mise\"\nENV PATH=\"/mise/shims:$PATH\"\n\nRUN curl https://mise.run | sh\n"@
}

pub fn dockerfile_header() -> (r: &'static str)
    ensures
        r@ == dockerfile_header_text(),
{
    "# syntax=docker/dockerfile:1.7-labs\nFROM debian:trixie-slim AS build\n\nRUN apt-get update \\\n    && apt-get -y --no-install-recommends install \\\n        build-essential gcc make autoconf libtool bison \\\n        dpkg-dev pkg-config re2c locate \\\n        libmariadb-dev libmariadb-dev-compat libpq-dev libsqlite3-dev \\\n        libvips-dev default-libmysqlclient-dev libmagickwand-dev \\\n        libicu-dev libxml2-dev libxslt-dev libyaml-dev \\\n        sudo curl ca-certificates unzip git \\\n    && rm -rf /var/lib/apt/lists/*\n\nSHELL [\"/bin/bash\", \"-o\", \"pipefail\", \"-c\"]\nENV MISE_DATA_DIR=\"/mise\"\nENV MISE_CONFIG_DIR=\"/mise\"\nENV MISE_CACHE_DIR=\"/mise/cache\"\nENV MISE_INSTALL_PATH=\"/usr/local/bin/mise\"\nENV PATH=\"/mise/shims:$PATH\"\n\nRUN curl https://mise.run | sh\n"
}

/// What the caller found at an asset a step copies.
#[derive(Debug, Clone, PartialEq, Eq)]
pub enum AssetProbe {
    File(Vec<u8>),
    Directory,
    Missing,
}

/// The probe for the step at `i`; a step without one reads as missing.
pub open spec fn probe_at(probes: Seq<AssetProbe>, i: int) -> AssetProbe {
    if 0 <= i < probes.len() {
        probes[i]
    } else {
        AssetProbe::Missing
    }
}

/// `Path::absolute` against the working directory `cwd`.
pub open spec fn absolute_in(cwd: Seq<char>, p: Seq<char>) -> Seq<char> {
    join_spec(cwd, p)
}

/// The directory an input is bound into, when it is not the working
/// directory itself.
pub open spec fn input_parent(input: Seq<char>) -> Option<Seq<char>> {
    match path_parent_spec(input) {
        Some(p) => if p.len() > 0 && p != "."@ {
            Some(p)
        } else {
            None
        },
        None => None,
    }
}

pub open spec fn input_parents(inputs: Seq<Seq<char>>) -> Seq<Seq<char>>
    decreases inputs.len(),
{
    if inputs.len() == 0 {
        seq![]
    } else {
        let before = input_parents(inputs.drop_last());
        match input_parent(inputs.last()) {
            Some(p) => before.push(p),
            None => before,
        }
    }
}

pub open spec fn mkdir_line(p: Seq<char>) -> Seq<char> {
    "RUN mkdir -p "@ + p + "\n"@
}

pub open spec fn bind_mount(input: Seq<char>) -> Seq<char> {
    "--mount=type=bind,source="@ + input + ",target="@ + input + " \\\n  "@
}

/// A run step: each input bound into the build, its parent directory made
/// first.
pub open spec fn docker_run_text(inputs: Seq<Seq<char>>, command: Seq<char>) -> Seq<char> {
    if inputs.len() > 0 {
        concat_all(sorted_unique(input_parents(inputs)).map_values(|p: Seq<char>| mkdir_line(p)))
            + "RUN \\\n  "@ + concat_all(inputs.map_values(|i: Seq<char>| bind_mount(i))) + command
            + "\n"@
    } else {
        "RUN "@ + command + "\n"@
    }
}

pub open spec fn exclude_flag(pattern: Seq<char>) -> Seq<char> {
    "  --exclude="@ + pattern
}

pub open spec fn docker_copy_text(step: CopyStep, probe: AssetProbe) -> Result<Seq<char>, Seq<char>> {
    let source = step.source@;
    let target = step.target@;
    if is_download_source(source) {
        Ok("ADD "@ + source + " "@ + target + "\n"@)
    } else if step.base@ == "assets"@ {
        match probe {
            AssetProbe::File(bytes) => Ok(
                "RUN echo '"@ + base64_standard(bytes@) + "' | base64 -d > "@ + target + "\n"@,
            ),
            AssetProbe::Directory => Err(
                "Asset "@ + source
                    + " is a directory, anybuild doesn't currently support coppying assets directories inside Docker"@,
            ),
            AssetProbe::Missing => Err("Asset "@ + source + " does not exist"@),
        }
    } else {
        let ignore = opt_texts(step.ignore);
        let exclude = if ignore.len() > 0 {
            " \\\n"@ + join_texts(ignore.map_values(|i: Seq<char>| exclude_flag(i)), " \\\n"@)
                + " \\\n "@
        } else {
            seq![]
        };
        Ok("COPY"@ + exclude + " "@ + source + " "@ + target + "\n"@)
    }
}

pub open spec fn plain_assignments(vars: Seq<(Seq<char>, Seq<char>)>) -> Seq<Seq<char>> {
    vars.map_values(|p: (Seq<char>, Seq<char>)| p.0 + "="@ + p.1)
}

/// The directory a written file goes in, `.` for a bare name.
pub open spec fn write_parent(path: Seq<char>) -> Seq<char> {
    match path_parent_spec(path) {
        Some(p) => if p.len() > 0 {
            p
        } else {
            "."@
        },
        None => "."@,
    }
}

/// The Dockerfile text for one step, or why it cannot be written.
pub open spec fn docker_step_text(cwd: Seq<char>, step: Step, probe: AssetProbe) -> Result<Seq<char>, Seq<char>> {
    match step {
        Step::Workdir(s) => Ok("WORKDIR "@ + absolute_in(cwd, s.path@) + "\n"@),
        Step::Run(s) => Ok(docker_run_text(opt_texts(s.inputs), s.command@)),
        Step::Copy(s) => docker_copy_text(s, probe),
        Step::Env(s) => Ok("ENV "@ + join_texts(plain_assignments(pairs_view(s.variables@)), " "@) + "\n"@),
        Step::Path(s) => Ok("ENV PATH="@ + s.path@ + ":$PATH\n"@),
        Step::WriteFile(s) => Ok(
            "RUN mkdir -p "@ + write_parent(s.path@) + " && echo '"@ + base64_standard(
                encode_utf8(s.content@),
            ) + "' | base64 -d > "@ + s.path@ + "\n"@,
        ),
        Step::Use(s) => Ok(
            concat_all(s.dependencies@.map_values(|p: Package| dependency_install_text(p))),
        ),
    }
}

/// The build environment after a step.
pub open spec fn docker_env_next(env: Seq<(Seq<char>, Seq<char>)>, step: Step) -> Seq<(Seq<char>, Seq<char>)> {
    match step {
        Step::Env(s) => map_insert_all(env, pairs_view(s.variables@)),
        Step::Path(s) => map_insert(env, "PATH"@, prepended_path(env, s.path@)),
        _ => env,
    }
}

/// The text of a run of steps and the environment after them; the first
/// step that cannot be written ends the run with its error.
pub open spec fn docker_steps(
    cwd: Seq<char>,
    env: Seq<(Seq<char>, Seq<char>)>,
    steps: Seq<Step>,
    probes: Seq<AssetProbe>,
) -> (Result<Seq<char>, Seq<char>>, Seq<(Seq<char>, Seq<char>)>)
    decreases steps.len(),
{
    if steps.len() == 0 {
        (Ok(seq![]), env)
    } else {
        let (before, e1) = docker_steps(cwd, env, steps.drop_last(), probes);
        match before {
            Err(m) => (Err(m), e1),
            Ok(t) => match docker_step_text(cwd, steps.last(), probe_at(probes, steps.len() - 1)) {
                Err(m) => (Err(m), e1),
                Ok(u) => (Ok(t + u), docker_env_next(e1, steps.last())),
            },
        }
    }
}

pub open spec fn mount_mkdirs(cwd: Seq<char>, mounts: Seq<Mount>) -> Seq<char> {
    concat_all(mounts.map_values(|m: Mount| mkdir_line(absolute_in(cwd, m.build_path@))))
}

pub open spec fn export_line(m: Mount) -> Seq<char> {
    "COPY --from=build "@ + m.build_path@ + " "@ + m.build_path@ + "\n"@
}

/// The whole Dockerfile: the preamble, the mount directories, the steps,
/// then a scratch stage that keeps only the mounts.
pub open spec fn dockerfile_spec(
    cwd: Seq<char>,
    env: Seq<(Seq<char>, Seq<char>)>,
    mounts: Seq<Mount>,
    steps: Seq<Step>,
    probes: Seq<AssetProbe>,
) -> Result<Seq<char>, Seq<char>> {
    match docker_steps(cwd, env, steps, probes).0 {
        Ok(t) => Ok(
            dockerfile_header_text() + mount_mkdirs(cwd, mounts) + t + "\nFROM scratch\n"@ + concat_all(
                mounts.map_values(|m: Mount| export_line(m)),
            ),
        ),
        Err(m) => Err(m),
    }
}


/// Append each text built by `line` from the items, in order.
fn push_lines_from(out: &mut String, items: &Vec<String>, which: u8)
    requires
        which <= 2,
    ensures
        which == 0 ==> final(out)@ == old(out)@ + concat_all(text_views(items@).map_values(|p: Seq<char>| mkdir_line(p))),
        which == 1 ==> final(out)@ == old(out)@ + concat_all(text_views(items@).map_values(|i: Seq<char>| bind_mount(i))),
        which == 2 ==> final(out)@ == old(out)@ + join_texts(text_views(items@).map_values(|i: Seq<char>| exclude_flag(i)), " \\\n"@),
{
    let ghost start = out@;
    let ghost v = text_views(items@);
    let mut i: usize = 0;
    while i < items.len()
        invariant
            0 <= i <= items@.len(),
            which <= 2,
            v == text_views(items@),
            which == 0 ==> out@ == start + concat_all(v.subrange(0, i as int).map_values(|p: Seq<char>| mkdir_line(p))),
            which == 1 ==> out@ == start + concat_all(v.subrange(0, i as int).map_values(|x: Seq<char>| bind_mount(x))),
            which == 2 ==> out@ == start + join_texts(v.subrange(0, i as int).map_values(|x: Seq<char>| exclude_flag(x)), " \\\n"@),
        decreases items@.len() - i,
    {
        let ghost pre = v.subrange(0, i as int);
        let ghost post = v.subrange(0, i + 1);
        assert(post.drop_last() =~= pre);
        assert(post.last() == items@[i as int]@);
        let item = items[i].as_str();
        if which == 0 {
            push_str(out, "RUN mkdir -p ");
            push_str(out, item);
            push_str(out, "\n");
            assert(post.map_values(|p: Seq<char>| mkdir_line(p)).drop_last() =~= pre.map_values(|p: Seq<char>| mkdir_line(p)));
        } else if which == 1 {
            push_str(out, "--mount=type=bind,source=");
            push_str(out, item);
            push_str(out, ",target=");
            push_str(out, item);
            push_str(out, " \\\n  ");
            assert(post.map_values(|x: Seq<char>| bind_mount(x)).drop_last() =~= pre.map_values(|x: Seq<char>| bind_mount(x)));
        } else {
            if i > 0 {
                push_str(out, " \\\n");
            }
            push_str(out, "  --exclude=");
            push_str(out, item);
            assert(post.map_values(|x: Seq<char>| exclude_flag(x)).drop_last() =~= pre.map_values(|x: Seq<char>| exclude_flag(x)));
            assert(i == 0 ==> post.map_values(|x: Seq<char>| exclude_flag(x)) =~= seq![exclude_flag(item@)]);
        }
        i = i + 1;
    }
    assert(v.subrange(0, items@.len() as int) =~= v);
}

/// The distinct parent directories of the inputs, in order.
fn input_parent_dirs(inputs: &Vec<String>) -> (r: Vec<String>)
    ensures
        text_views(r@) == sorted_unique(input_parents(text_views(inputs@))),
{
    let ghost v = text_views(inputs@);
    let mut parents: Vec<String> = Vec::new();
    let mut i: usize = 0;
    while i < inputs.len()
        invariant
            0 <= i <= inputs@.len(),
            v == text_views(inputs@),
            text_views(parents@) == input_parents(v.subrange(0, i as int)),
        decreases inputs@.len() - i,
    {
        let ghost post = v.subrange(0, i + 1);
        assert(post.drop_last() =~= v.subrange(0, i as int));
        assert(post.last() == inputs@[i as int]@);
        match path_parent(inputs[i].as_str()) {
            Some(p) => {
                if p.unicode_len() > 0 && !eq_str(&p, ".") {
                    let ghost before = parents@;
                    parents.push(p);
                    assert(text_views(parents@) =~= text_views(before).push(p@));
                }
            },
            None => {},
        }
        i = i + 1;
    }
    assert(v.subrange(0, inputs@.len() as int) =~= v);
    let ghost ps = text_views(parents@);
    let mut sorted: Vec<String> = Vec::new();
    let mut j: usize = 0;
    while j < parents.len()
        invariant
            0 <= j <= parents@.len(),
            ps == text_views(parents@),
            text_views(sorted@) == sorted_unique(ps.subrange(0, j as int)),
        decreases parents@.len() - j,
    {
        let ghost post = ps.subrange(0, j + 1);
        assert(post.drop_last() =~= ps.subrange(0, j as int));
        sorted = insert_sorted_exec(&sorted, parents[j].as_str());
        j = j + 1;
    }
    assert(ps.subrange(0, parents@.len() as int) =~= ps);
    sorted
}

fn docker_run(out: &mut String, inputs: &Vec<String>, command: &str)
    ensures
        final(out)@ == old(out)@ + docker_run_text(text_views(inputs@), command@),
{
    if inputs.len() > 0 {
        let parents = input_parent_dirs(inputs);
        push_lines_from(out, &parents, 0);
        push_str(out, "RUN \\\n  ");
        push_lines_from(out, inputs, 1);
        push_str(out, command);
        push_str(out, "\n");
    } else {
        push_str(out, "RUN ");
        push_str(out, command);
        push_str(out, "\n");
    }
}

fn docker_copy(out: &mut String, step: &CopyStep, probe: &AssetProbe) -> (ok: Result<(), String>)
    ensures
        docker_copy_text(*step, *probe) matches Ok(t) ==> ok is Ok && final(out)@ == old(out)@ + t,
        docker_copy_text(*step, *probe) matches Err(m) ==> (ok matches Err(e) && e@ == m),
{
    if step.is_download() {
        push_str(out, "ADD ");
        push_str(out, &step.source);
        push_str(out, " ");
        push_str(out, &step.target);
        push_str(out, "\n");
        return Ok(());
    }
    if eq_str(&step.base, "assets") {
        match probe {
            AssetProbe::File(bytes) => {
                let encoded = base64_encode(bytes.as_slice());
                push_str(out, "RUN echo '");
                push_str(out, &encoded);
                push_str(out, "' | base64 -d > ");
                push_str(out, &step.target);
                push_str(out, "\n");
                Ok(())
            },
            AssetProbe::Directory => {
                let mut m = copy_str("Asset ");
                push_str(&mut m, &step.source);
                push_str(
                    &mut m,
                    " is a directory, anybuild doesn't currently support coppying assets directories inside Docker",
                );
                Err(m)
            },
            AssetProbe::Missing => {
                let mut m = copy_str("Asset ");
                push_str(&mut m, &step.source);
                push_str(&mut m, " does not exist");
                Err(m)
            },
        }
    } else {
        let empty: Vec<String> = Vec::new();
        let ignore = match &step.ignore {
            Some(v) => v,
            None => &empty,
        };
        assert(text_views(ignore@) == opt_texts(step.ignore));
        push_str(out, "COPY");
        if ignore.len() > 0 {
            push_str(out, " \\\n");
            push_lines_from(out, ignore, 2);
            push_str(out, " \\\n ");
        }
        push_str(out, " ");
        push_str(out, &step.source);
        push_str(out, " ");
        push_str(out, &step.target);
        push_str(out, "\n");
        Ok(())
    }
}

fn docker_step(out: &mut String, cwd: &str, env: &mut Vec<(String, String)>, step: &Step, probe: &AssetProbe) -> (ok: Result<(), String>)
    ensures
        docker_step_text(cwd@, *step, *probe) matches Ok(t) ==> ok is Ok && final(out)@ == old(out)@ + t
            && pairs_view(final(env)@) == docker_env_next(pairs_view(old(env)@), *step),
        docker_step_text(cwd@, *step, *probe) matches Err(m) ==> (ok matches Err(e) && e@ == m)
            && pairs_view(final(env)@) == pairs_view(old(env)@),
{
    match step {
        Step::Workdir(s) => {
            push_str(out, "WORKDIR ");
            let p = join(cwd, &s.path);
            push_str(out, &p);
            push_str(out, "\n");
            Ok(())
        },
        Step::Run(s) => {
            let empty: Vec<String> = Vec::new();
            let inputs = match &s.inputs {
                Some(v) => v,
                None => &empty,
            };
            assert(text_views(inputs@) == opt_texts(s.inputs));
            docker_run(out, inputs, &s.command);
            Ok(())
        },
        Step::Copy(s) => docker_copy(out, s, probe),
        Step::Env(s) => {
            let mut texts: Vec<String> = Vec::new();
            let ghost vars = pairs_view(s.variables@);
            let mut i: usize = 0;
            while i < s.variables.len()
                invariant
                    0 <= i <= s.variables@.len(),
                    vars == pairs_view(s.variables@),
                    texts@.len() == i,
                    text_views(texts@) == plain_assignments(vars.subrange(0, i as int)),
                decreases s.variables@.len() - i,
            {
                let mut item = copy_str(s.variables[i].0.as_str());
                push_str(&mut item, "=");
                push_str(&mut item, s.variables[i].1.as_str());
                let ghost before = texts@;
                texts.push(item);
                assert(text_views(texts@) =~= text_views(before).push(item@));
                assert(plain_assignments(vars.subrange(0, i + 1)) =~= plain_assignments(vars.subrange(0, i as int)).push(
                    item@,
                ));
                i = i + 1;
            }
            assert(vars.subrange(0, s.variables@.len() as int) =~= vars);
            let all = join_strings(&texts, " ");
            push_str(out, "ENV ");
            push_str(out, &all);
            push_str(out, "\n");
            map_insert_all_exec(env, &s.variables);
            Ok(())
        },
        Step::Path(s) => {
            push_str(out, "ENV PATH=");
            push_str(out, &s.path);
            push_str(out, ":$PATH\n");
            let current = match map_get_exec(env, "PATH") {
                Some(v) => v,
                None => String::new(),
            };
            let mut value = copy_str(&s.path);
            push_str(&mut value, ":");
            push_str(&mut value, &current);
            assert(value@ == prepended_path(pairs_view(old(env)@), s.path@));
            map_insert_exec(env, "PATH", &value);
            Ok(())
        },
        Step::WriteFile(s) => {
            let encoded = base64_encode(s.content.as_str().as_bytes());
            let parent = match path_parent(&s.path) {
                Some(p) => if p.unicode_len() > 0 {
                    p
                } else {
                    copy_str(".")
                },
                None => copy_str("."),
            };
            assert(parent@ == write_parent(s.path@));
            push_str(out, "RUN mkdir -p ");
            push_str(out, &parent);
            push_str(out, " && echo '");
            push_str(out, &encoded);
            push_str(out, "' | base64 -d > ");
            push_str(out, &s.path);
            push_str(out, "\n");
            Ok(())
        },
        Step::Use(s) => {
            let ghost start = out@;
            let ghost deps = s.dependencies@;
            let mut i: usize = 0;
            while i < s.dependencies.len()
                invariant
                    0 <= i <= s.dependencies@.len(),
                    deps == s.dependencies@,
                    out@ == start + concat_all(deps.subrange(0, i as int).map_values(|p: Package| dependency_install_text(p))),
                decreases s.dependencies@.len() - i,
            {
                let text = dependency_install_contents(&s.dependencies[i]);
                push_str(out, &text);
                assert(deps.subrange(0, i + 1).map_values(|p: Package| dependency_install_text(p)).drop_last()
                    =~= deps.subrange(0, i as int).map_values(|p: Package| dependency_install_text(p)));
                i = i + 1;
            }
            assert(deps.subrange(0, deps.len() as int) =~= deps);
            Ok(())
        },
    }
}


fn probe_for<'a>(probes: &'a Vec<AssetProbe>, i: usize, missing: &'a AssetProbe) -> (r: &'a AssetProbe)
    requires
        *missing == AssetProbe::Missing,
    ensures
        *r == probe_at(probes@, i as int),
{
    if i < probes.len() {
        &probes[i]
    } else {
        missing
    }
}

/// The Dockerfile that runs the plan: the steps rendered in order, with
/// `probes[i]` what was found at the asset that step `i` copies. The
/// build environment is updated as the steps set variables and `PATH`.
pub fn dockerfile_contents(
    cwd: &str,
    env: &mut Vec<(String, String)>,
    mounts: &Vec<Mount>,
    steps: &Vec<Step>,
    probes: &Vec<AssetProbe>,
) -> (r: Result<String, String>)
    ensures
        dockerfile_spec(cwd@, pairs_view(old(env)@), mounts@, steps@, probes@) matches Ok(t) ==> (r matches Ok(
            s,
        ) && s@ == t),
        dockerfile_spec(cwd@, pairs_view(old(env)@), mounts@, steps@, probes@) matches Err(m) ==> (r matches Err(
            e,
        ) && e@ == m),
        pairs_view(final(env)@) == docker_steps(cwd@, pairs_view(old(env)@), steps@, probes@).1,
{
    let mut out = copy_str(dockerfile_header());
    let ghost head = out@;
    let mut k: usize = 0;
    while k < mounts.len()
        invariant
            0 <= k <= mounts@.len(),
            out@ == head + mount_mkdirs(cwd@, mounts@.subrange(0, k as int)),
        decreases mounts@.len() - k,
    {
        let p = join(cwd, &mounts[k].build_path);
        push_str(&mut out, "RUN mkdir -p ");
        push_str(&mut out, &p);
        push_str(&mut out, "\n");
        assert(mounts@.subrange(0, k + 1).map_values(|m: Mount| mkdir_line(absolute_in(cwd@, m.build_path@))).drop_last()
            =~= mounts@.subrange(0, k as int).map_values(|m: Mount| mkdir_line(absolute_in(cwd@, m.build_path@))));
        k = k + 1;
    }
    assert(mounts@.subrange(0, mounts@.len() as int) =~= mounts@);
    let ghost prefix = out@;
    let ghost env0 = pairs_view(env@);
    let missing = AssetProbe::Missing;
    let mut i: usize = 0;
    assert(steps@.subrange(0, 0) =~= Seq::<Step>::empty());
    while i < steps.len()
        invariant
            0 <= i <= steps@.len(),
            env0 == pairs_view(old(env)@),
            missing == AssetProbe::Missing,
            prefix == dockerfile_header_text() + mount_mkdirs(cwd@, mounts@),
            docker_steps(cwd@, env0, steps@.subrange(0, i as int), probes@).0 matches Ok(t) && out@ == prefix + t,
            pairs_view(env@) == docker_steps(cwd@, env0, steps@.subrange(0, i as int), probes@).1,
        decreases steps@.len() - i,
    {
        let ghost pre = steps@.subrange(0, i as int);
        let ghost post = steps@.subrange(0, i + 1);
        assert(post.drop_last() =~= pre);
        assert(post.last() == steps@[i as int]);
        let probe = probe_for(probes, i, &missing);
        match docker_step(&mut out, cwd, env, &steps[i], probe) {
            Ok(()) => {},
            Err(e) => {
                proof {
                    lemma_docker_steps_stop(cwd@, env0, steps@, probes@, i + 1);
                }
                assert(steps@.subrange(0, steps@.len() as int) =~= steps@);
                return Err(e);
            },
        }
        i = i + 1;
    }
    assert(steps@.subrange(0, steps@.len() as int) =~= steps@);
    push_str(&mut out, "\nFROM scratch\n");
    let ghost body = out@;
    let mut k: usize = 0;
    while k < mounts.len()
        invariant
            0 <= k <= mounts@.len(),
            out@ == body + concat_all(mounts@.subrange(0, k as int).map_values(|m: Mount| export_line(m))),
        decreases mounts@.len() - k,
    {
        push_str(&mut out, "COPY --from=build ");
        push_str(&mut out, &mounts[k].build_path);
        push_str(&mut out, " ");
        push_str(&mut out, &mounts[k].build_path);
        push_str(&mut out, "\n");
        assert(mounts@.subrange(0, k + 1).map_values(|m: Mount| export_line(m)).drop_last()
            =~= mounts@.subrange(0, k as int).map_values(|m: Mount| export_line(m)));
        k = k + 1;
    }
    assert(mounts@.subrange(0, mounts@.len() as int) =~= mounts@);
    Ok(out)
}

/// Once a run of steps has failed, the steps after it change nothing.
proof fn lemma_docker_steps_stop(
    cwd: Seq<char>,
    env: Seq<(Seq<char>, Seq<char>)>,
    steps: Seq<Step>,
    probes: Seq<AssetProbe>,
    i: int,
)
    requires
        0 <= i <= steps.len(),
        docker_steps(cwd, env, steps.subrange(0, i), probes).0 is Err,
    ensures
        docker_steps(cwd, env, steps, probes) == docker_steps(cwd, env, steps.subrange(0, i), probes),
    decreases steps.len() - i,
{
    if i < steps.len() {
        assert(steps.subrange(0, i + 1).drop_last() =~= steps.subrange(0, i));
        lemma_docker_steps_stop(cwd, env, steps, probes, i + 1);
    } else {
        assert(steps.subrange(0, i) =~= steps);
    }
}

// ---------------------------------------------------------------------------
// Paths and the docker client

/// Where the Docker backend keeps its files under the `.anybuild`
/// directory.
#[derive(Debug, Clone, PartialEq, Eq)]
pub struct DockerPaths {
    pub anybuild_dir: String,
    pub docker_path: String,
    pub docker_out_path: String,
    pub docker_file_path: String,
    pub docker_name_path: String,
    pub docker_ignore_path: String,
}

impl DockerPaths {
    /// The paths for a source tree, the anybuild dir defaulting to
    /// `<source>/.anybuild`.
    pub fn new(src_dir: &str, anybuild_dir: Option<&str>) -> (r: Self)
        ensures
            r.anybuild_dir@ == (match anybuild_dir {
                Some(d) => d@,
                None => join_spec(src_dir@, ".anybuild"@),
            }),
            r.docker_path@ == join_spec(r.anybuild_dir@, "docker"@),
            r.docker_out_path@ == join_spec(r.docker_path@, "out"@),
            r.docker_file_path@ == join_spec(r.docker_path@, "Dockerfile"@),
            r.docker_name_path@ == join_spec(r.docker_path@, "name"@),
            r.docker_ignore_path@ == join_spec(r.docker_path@, "Dockerfile.dockerignore"@),
    {
        let dir = match anybuild_dir {
            Some(d) => copy_str(d),
            None => join(src_dir, ".anybuild"),
        };
        let docker_path = join(&dir, "docker");
        DockerPaths {
            docker_out_path: join(&docker_path, "out"),
            docker_file_path: join(&docker_path, "Dockerfile"),
            docker_name_path: join(&docker_path, "name"),
            docker_ignore_path: join(&docker_path, "Dockerfile.dockerignore"),
            docker_path,
            anybuild_dir: dir,
        }
    }

    /// Where a mount lives inside the build container.
    pub fn build_mount_path(&self, name: &str) -> (r: String)
        ensures
            r@ == container_mount_path(name@),
    {
        crate::plan::ContainerServeLayout::serve_mount_path(name)
    }

    /// Where a mount's exported files land on the host.
    pub fn artifact_mount_path(&self, name: &str) -> (r: String)
        ensures
            r@ == (if name@ == "app"@ {
                join_spec(self.docker_out_path@, "app"@)
            } else {
                join_spec(self.docker_out_path@, join_spec("opt"@, name@))
            }),
    {
        if eq_str(name, "app") {
            join(&self.docker_out_path, "app")
        } else {
            let rel = join("opt", name);
            join(&self.docker_out_path, &rel)
        }
    }

    /// Where a named volume lives on the host.
    pub fn volume_path(&self, name: &str) -> (r: String)
        ensures
            r@ == join_spec(join_spec(self.anybuild_dir@, "volumes"@), name@),
    {
        let v = join(&self.anybuild_dir, "volumes");
        join(&v, name)
    }
}

/// The ignore file written beside the Dockerfile.
pub fn docker_ignore_contents() -> (r: &'static str)
    ensures
        r@ == "\n.anybuild\nAnybuild\n.shipit\nShipit\n"@,
{
    "\n.anybuild\nAnybuild\n.shipit\nShipit\n"
}

/// The platform Docker artifacts are built for.
pub fn docker_platform() -> (r: &'static str)
    ensures
        r@ == "linux/amd64"@,
{
    "linux/amd64"
}

/// The arguments of `<client> build`, and the directory it runs in: the
/// raw options string, when given, is one more argument.
pub fn docker_build_command(paths: &DockerPaths, src_dir: &str, image: &str, opts: Option<&str>, cwd: &str) -> (r: (
    Vec<String>,
    String,
))
    ensures
        text_views(r.0@) == seq![
            "build"@,
            "-f"@,
            join_spec(cwd@, paths.docker_file_path@),
            "-t"@,
            image@,
            "--platform"@,
            "linux/amd64"@,
            "--output"@,
            join_spec(cwd@, paths.docker_out_path@),
            "."@,
        ] + (match opts {
            Some(o) => seq![o@],
            None => seq![],
        }),
        r.1@ == join_spec(cwd@, src_dir@),
{
    let mut args: Vec<String> = Vec::new();
    args.push(copy_str("build"));
    args.push(copy_str("-f"));
    args.push(join(cwd, &paths.docker_file_path));
    args.push(copy_str("-t"));
    args.push(copy_str(image));
    args.push(copy_str("--platform"));
    args.push(copy_str("linux/amd64"));
    args.push(copy_str("--output"));
    args.push(join(cwd, &paths.docker_out_path));
    args.push(copy_str("."));
    match opts {
        Some(o) => args.push(copy_str(o)),
        None => {},
    }
    assert(text_views(args@) =~= seq![
        "build"@,
        "-f"@,
        join_spec(cwd@, paths.docker_file_path@),
        "-t"@,
        image@,
        "--platform"@,
        "linux/amd64"@,
        "--output"@,
        join_spec(cwd@, paths.docker_out_path@),
        "."@,
    ] + (match opts {
        Some(o) => seq![o@],
        None => seq![],
    }));
    (args, join(cwd, src_dir))
}

} // verus!
