//! The local build backend's decisions: what each plan step does on the
//! host, as a list of effects the caller performs in order.
//!
//! The state that steps change (the working directory and the build
//! environment) is kept here; nothing a step does depends on how an earlier
//! effect turned out, except that the build stops at the first failure.
use vstd::prelude::*;
use crate::env_map::{
    clone_pairs, map_get, map_get_exec, map_get_or_empty, map_insert, map_insert_all,
    map_insert_all_exec, map_insert_exec, pairs_view,
};
use crate::event::text_views;
use crate::json::{json_quoted, json_string_literal};
use crate::local::{shorten_from, shorten_local_build_paths};
use crate::paths::{
    cleaned_path, join, join_spec, normalize_absolute, pythonic_join, pythonic_join_spec,
};
use crate::plan::{
    is_download_source, package_text, CopyStep, EnvStep, Mount, PathStep, RunStep, Step,
    UseStep, WriteFileStep,
};
use crate::render::{join_strings, join_texts};
use crate::text::{chars_of, copy_str, eq_str, push_str, split_pat, split_pat_exec, string_of, views};

verus! {

// ---------------------------------------------------------------------------
// Outside calls

/// What `shell_words::split` makes of a command line: its words, or
/// nothing when a quote is left open.
pub uninterp spec fn shell_words_of(line: Seq<char>) -> Option<Seq<Seq<char>>>;

/// `shell_words::split`: the words of a command line under POSIX shell
/// quoting, or `None` when a quote is left open.
#[verifier::external_body]
fn shell_words_split(line: &str) -> (r: Option<Vec<String>>)
    ensures
        r is None <==> shell_words_of(line@) is None,
        r matches Some(words) ==> shell_words_of(line@) == Some(text_views(words@)),
{
    shell_words::split(line).ok()
}

/// What `{:?}` prints for a string.
pub uninterp spec fn debug_text(s: Seq<char>) -> Seq<char>;

/// `<str as Debug>::fmt`: the string quoted and escaped as Rust writes it.
#[verifier::external_body]
pub(crate) fn debug_quoted(s: &str) -> (r: String)
    ensures
        r@ == debug_text(s@),
{
    format!("{:?}", s)
}

// ---------------------------------------------------------------------------
// Effects

/// One thing the caller does on the host.
#[derive(Debug, Clone, PartialEq, Eq)]
pub enum LocalEffect {
    /// Report a build step with this description.
    Report(String),
    /// Create a directory and its parents.
    CreateDirAll(String),
    /// Copy an input from the source tree, a directory recursively, creating
    /// the target's parent directories first.
    CopyInput { source: String, target: String },
    /// Download a URL to a file, creating its parent directories first.
    Download { url: String, target: String },
    /// Copy from the source tree or the assets: a directory recursively
    /// without the entries whose names match `ignore`, a file as is, and
    /// fail with `Source <shown_source> is not a file or directory`
    /// otherwise; the target's parent directories are created first.
    CopyFromBase { source: String, target: String, ignore: Vec<String>, shown_source: String },
    /// Write a file, creating its parent directories first.
    WriteFile { path: String, content: String },
    /// Run a command line under `bash -c`.
    RunCommand(LocalCommand),
    /// Stop the build with this message.
    Fail(String),
}

/// A command to run: `program` must be found as an executable along
/// `search_paths` (or, when it holds a `/`, at that path), else the build
/// fails with `Program is not installed: <program>`. The command runs in
/// `cwd` with exactly the variables `env`, and `PATH` set to `path`.
#[derive(Debug, Clone, PartialEq, Eq)]
pub struct LocalCommand {
    pub program: String,
    pub command: String,
    pub search_paths: Vec<String>,
    pub path: String,
    pub cwd: String,
    pub env: Vec<(String, String)>,
}

pub struct CommandView {
    pub program: Seq<char>,
    pub command: Seq<char>,
    pub search_paths: Seq<Seq<char>>,
    pub path: Seq<char>,
    pub cwd: Seq<char>,
    pub env: Seq<(Seq<char>, Seq<char>)>,
}

pub enum EffectView {
    Report(Seq<char>),
    CreateDirAll(Seq<char>),
    CopyInput(Seq<char>, Seq<char>),
    Download(Seq<char>, Seq<char>),
    CopyFromBase(Seq<char>, Seq<char>, Seq<Seq<char>>, Seq<char>),
    WriteFile(Seq<char>, Seq<char>),
    RunCommand(CommandView),
    Fail(Seq<char>),
}

impl View for LocalCommand {
    type V = CommandView;

    open spec fn view(&self) -> CommandView {
        CommandView {
            program: self.program@,
            command: self.command@,
            search_paths: text_views(self.search_paths@),
            path: self.path@,
            cwd: self.cwd@,
            env: pairs_view(self.env@),
        }
    }
}

impl View for LocalEffect {
    type V = EffectView;

    open spec fn view(&self) -> EffectView {
        match self {
            LocalEffect::Report(t) => EffectView::Report(t@),
            LocalEffect::CreateDirAll(p) => EffectView::CreateDirAll(p@),
            LocalEffect::CopyInput { source, target } => EffectView::CopyInput(source@, target@),
            LocalEffect::Download { url, target } => EffectView::Download(url@, target@),
            LocalEffect::CopyFromBase { source, target, ignore, shown_source } => EffectView::CopyFromBase(
                source@,
                target@,
                text_views(ignore@),
                shown_source@,
            ),
            LocalEffect::WriteFile { path, content } => EffectView::WriteFile(path@, content@),
            LocalEffect::RunCommand(c) => EffectView::RunCommand(c@),
            LocalEffect::Fail(m) => EffectView::Fail(m@),
        }
    }
}

pub open spec fn effects_view(v: Seq<LocalEffect>) -> Seq<EffectView> {
    v.map_values(|e: LocalEffect| e@)
}

// ---------------------------------------------------------------------------
// State

/// What the backend knows while it runs the steps: the source tree, the
/// assets, the build root, the current working directory of steps, the
/// process's working directory, the host's `PATH` entries, and the build
/// environment so far.
pub struct LocalBuildState {
    pub src_dir: String,
    pub assets_path: String,
    pub build_path: String,
    pub workdir: String,
    pub cwd: String,
    pub host_path: Vec<String>,
    pub env: Vec<(String, String)>,
}

pub struct LocalStateView {
    pub src_dir: Seq<char>,
    pub assets_path: Seq<char>,
    pub build_path: Seq<char>,
    pub workdir: Seq<char>,
    pub cwd: Seq<char>,
    pub host_path: Seq<Seq<char>>,
    pub env: Seq<(Seq<char>, Seq<char>)>,
}

impl View for LocalBuildState {
    type V = LocalStateView;

    open spec fn view(&self) -> LocalStateView {
        LocalStateView {
            src_dir: self.src_dir@,
            assets_path: self.assets_path@,
            build_path: self.build_path@,
            workdir: self.workdir@,
            cwd: self.cwd@,
            host_path: text_views(self.host_path@),
            env: pairs_view(self.env@),
        }
    }
}

pub open spec fn opt_text(o: Option<String>) -> Option<Seq<char>> {
    match o {
        Some(s) => Some(s@),
        None => None,
    }
}

/// `<anybuild dir>/local`, the anybuild dir defaulting to
/// `<source>/.anybuild`.
pub open spec fn local_path_for(src_dir: Seq<char>, anybuild_dir: Option<Seq<char>>) -> Seq<char> {
    let dir = match anybuild_dir {
        Some(d) => d,
        None => join_spec(src_dir, ".anybuild"@),
    };
    join_spec(dir, "local"@)
}

impl LocalBuildState {
    /// The state before the first step: steps work in `<local>/build`.
    pub fn new(
        src_dir: String,
        assets_path: String,
        anybuild_dir: Option<String>,
        cwd: String,
        host_path: Vec<String>,
        env: Vec<(String, String)>,
    ) -> (r: Self)
        ensures
            r@.src_dir == src_dir@,
            r@.assets_path == assets_path@,
            r@.build_path == join_spec(local_path_for(src_dir@, opt_text(anybuild_dir)), "build"@),
            r@.workdir == r@.build_path,
            r@.cwd == cwd@,
            r@.host_path == text_views(host_path@),
            r@.env == pairs_view(env@),
    {
        let dir = match anybuild_dir {
            Some(d) => d,
            None => join(&src_dir, ".anybuild"),
        };
        let local = join(&dir, "local");
        let build_path = join(&local, "build");
        let workdir = copy_str(&build_path);
        LocalBuildState { src_dir, assets_path, build_path, workdir, cwd, host_path, env }
    }
}

// ---------------------------------------------------------------------------
// What each step does

/// A description as reported: the build root shown as `/`.
pub open spec fn shown(st: LocalStateView, text: Seq<char>) -> Seq<char> {
    if st.build_path.len() == 0 {
        text
    } else {
        shorten_from(text, st.build_path, 0)
    }
}

pub open spec fn report(st: LocalStateView, text: Seq<char>) -> EffectView {
    EffectView::Report(shown(st, text))
}

pub open spec fn opt_texts(o: Option<Vec<String>>) -> Seq<Seq<char>> {
    match o {
        Some(v) => text_views(v@),
        None => seq![],
    }
}

/// Each input copied from the source tree to the same place under the
/// working directory.
pub open spec fn input_effects(st: LocalStateView, inputs: Seq<Seq<char>>) -> Seq<EffectView>
    decreases inputs.len(),
{
    if inputs.len() == 0 {
        seq![]
    } else {
        let input = inputs.last();
        let target = pythonic_join_spec(st.workdir, input);
        input_effects(st, inputs.drop_last()) + seq![
            report(st, "Copying "@ + input + " to "@ + target),
            EffectView::CopyInput(pythonic_join_spec(st.src_dir, input), target),
        ]
    }
}

/// The directories searched for a program: the build `PATH` entries taken
/// relative to the working directory, then the host's.
pub open spec fn search_paths(st: LocalStateView) -> Seq<Seq<char>> {
    split_pat(map_get_or_empty(st.env, "PATH"@), ":"@).map_values(
        |p: Seq<char>| pythonic_join_spec(st.workdir, p),
    ) + st.host_path
}

pub open spec fn command_effects(st: LocalStateView, line: Seq<char>) -> Seq<EffectView> {
    match shell_words_of(line) {
        None => seq![
            EffectView::Fail(
                "Failed to parse command "@ + debug_text(line) + ": missing closing quote"@,
            ),
        ],
        Some(words) => if words.len() == 0 {
            seq![EffectView::Fail("Program is not installed: "@)]
        } else {
            seq![
                EffectView::RunCommand(
                    CommandView {
                        program: words[0],
                        command: line,
                        search_paths: search_paths(st),
                        path: join_texts(search_paths(st), ":"@),
                        cwd: st.workdir,
                        env: st.env,
                    },
                ),
            ]
        },
    }
}

pub open spec fn run_effects(st: LocalStateView, step: RunStep) -> Seq<EffectView> {
    let inputs = opt_texts(step.inputs);
    let extra = if inputs.len() > 0 {
        " # using "@ + join_texts(inputs, ", "@)
    } else {
        seq![]
    };
    input_effects(st, inputs) + seq![report(st, "$ "@ + step.command@ + extra)] + command_effects(
        st,
        step.command@,
    )
}

/// The directory a copy reads from.
pub open spec fn copy_base(st: LocalStateView, base: Seq<char>) -> Option<Seq<char>> {
    if base == "source"@ {
        Some(st.src_dir)
    } else if base == "assets"@ {
        Some(st.assets_path)
    } else {
        None
    }
}

/// Why an empty path cannot be compared with another.
pub open spec fn empty_path_text() -> Seq<char> {
    "cannot make an empty path absolute"@
}

pub open spec fn copy_effects(st: LocalStateView, step: CopyStep) -> Seq<EffectView> {
    let source = step.source@;
    let target = step.target@;
    let ignore = opt_texts(step.ignore);
    if is_download_source(source) {
        seq![
            report(st, "Download from "@ + source + " to "@ + target),
            EffectView::Download(source, pythonic_join_spec(st.workdir, target)),
        ]
    } else {
        match copy_base(st, step.base@) {
            None => seq![EffectView::Fail("Unknown base: "@ + step.base@)],
            Some(base) => {
                let extra = if ignore.len() > 0 {
                    " # ignoring "@ + join_texts(ignore, ", "@)
                } else {
                    seq![]
                };
                let from = pythonic_join_spec(base, source);
                let to = pythonic_join_spec(st.workdir, target);
                let head = seq![report(st, "Copy to "@ + target + " from "@ + source + extra)];
                if from.len() == 0 || to.len() == 0 {
                    head.push(EffectView::Fail(empty_path_text()))
                } else if cleaned_path(join_spec(st.cwd, from)) == cleaned_path(join_spec(st.cwd, to)) {
                    head
                } else {
                    head.push(
                        EffectView::CopyFromBase(from, to, ignore + seq![".anybuild"@, "Anybuild"@], source),
                    )
                }
            },
        }
    }
}

/// `NAME="value"` for each variable, the value as a JSON string.
pub open spec fn assignments(vars: Seq<(Seq<char>, Seq<char>)>) -> Seq<Seq<char>> {
    vars.map_values(|p: (Seq<char>, Seq<char>)| p.0 + "="@ + json_quoted(p.1))
}

pub open spec fn package_texts(deps: Seq<crate::plan::Package>) -> Seq<Seq<char>> {
    deps.map_values(|p: crate::plan::Package| package_text(p))
}

/// The `PATH` after a path step: the new entry before the old value.
pub open spec fn prepended_path(env: Seq<(Seq<char>, Seq<char>)>, entry: Seq<char>) -> Seq<char> {
    entry + ":"@ + map_get_or_empty(env, "PATH"@)
}

/// What one step does.
pub open spec fn local_step_effects(st: LocalStateView, step: Step) -> Seq<EffectView> {
    match step {
        Step::Use(s) => seq![
            report(st, "Using dependencies: "@ + join_texts(package_texts(s.dependencies@), ", "@)),
        ],
        Step::Workdir(s) => seq![
            report(st, "Working in "@ + s.path@),
            EffectView::CreateDirAll(s.path@),
        ],
        Step::Run(s) => run_effects(st, s),
        Step::Copy(s) => copy_effects(st, s),
        Step::Env(s) => seq![
            report(
                st,
                "Setting environment variables: "@ + join_texts(
                    assignments(pairs_view(s.variables@)),
                    " "@,
                ),
            ),
        ],
        Step::Path(s) => seq![report(st, "Add "@ + s.path@ + " to PATH"@)],
        Step::WriteFile(s) => seq![
            report(st, "Write file "@ + join_spec(st.workdir, s.path@)),
            EffectView::WriteFile(join_spec(st.workdir, s.path@), s.content@),
        ],
    }
}

/// The state after one step.
pub open spec fn local_step_next(st: LocalStateView, step: Step) -> LocalStateView {
    match step {
        Step::Workdir(s) => LocalStateView { workdir: s.path@, ..st },
        Step::Env(s) => LocalStateView { env: map_insert_all(st.env, pairs_view(s.variables@)), ..st },
        Step::Path(s) => LocalStateView {
            env: map_insert(st.env, "PATH"@, prepended_path(st.env, s.path@)),
            ..st
        },
        _ => st,
    }
}

pub open spec fn has_failure(e: Seq<EffectView>) -> bool {
    exists|i: int| 0 <= i < e.len() && (#[trigger] e[i]) is Fail
}

/// The effects of a run of steps and the state after them; after the first
/// failure nothing more happens.
pub open spec fn steps_effects(st: LocalStateView, steps: Seq<Step>) -> (Seq<EffectView>, LocalStateView)
    decreases steps.len(),
{
    if steps.len() == 0 {
        (seq![], st)
    } else {
        let (before, s1) = steps_effects(st, steps.drop_last());
        if has_failure(before) {
            (before, s1)
        } else {
            (before + local_step_effects(s1, steps.last()), local_step_next(s1, steps.last()))
        }
    }
}

/// Each mount's build directory created.
pub open spec fn mount_dirs(mounts: Seq<Mount>) -> Seq<EffectView> {
    mounts.map_values(|m: Mount| EffectView::CreateDirAll(m.build_path@))
}


// ---------------------------------------------------------------------------
// Planning the steps

fn report_effect(st: &LocalBuildState, text: &str) -> (e: LocalEffect)
    ensures
        e@ == report(st@, text@),
{
    LocalEffect::Report(shorten_local_build_paths(text, &st.build_path))
}

fn push_effect(out: &mut Vec<LocalEffect>, e: LocalEffect)
    ensures
        effects_view(final(out)@) == effects_view(old(out)@).push(e@),
{
    out.push(e);
    assert(effects_view(out@) =~= effects_view(old(out)@).push(e@));
}

fn input_copies(st: &LocalBuildState, inputs: &Vec<String>, out: &mut Vec<LocalEffect>)
    ensures
        effects_view(final(out)@) == effects_view(old(out)@) + input_effects(st@, text_views(inputs@)),
{
    let ghost start = effects_view(out@);
    let mut i: usize = 0;
    while i < inputs.len()
        invariant
            0 <= i <= inputs@.len(),
            effects_view(out@) == start + input_effects(st@, text_views(inputs@.subrange(0, i as int))),
        decreases inputs@.len() - i,
    {
        let ghost prev = text_views(inputs@.subrange(0, i as int));
        let ghost next = text_views(inputs@.subrange(0, i + 1));
        assert(next.drop_last() =~= prev);
        assert(next.last() == inputs@[i as int]@);
        let input = inputs[i].as_str();
        let target = pythonic_join(&st.workdir, input);
        let mut text = copy_str("Copying ");
        push_str(&mut text, input);
        push_str(&mut text, " to ");
        push_str(&mut text, &target);
        push_effect(out, report_effect(st, &text));
        let source = pythonic_join(&st.src_dir, input);
        push_effect(out, LocalEffect::CopyInput { source, target });
        assert(effects_view(out@) =~= start + input_effects(st@, next));
        i = i + 1;
    }
    assert(inputs@.subrange(0, inputs@.len() as int) =~= inputs@);
}

fn search_paths_exec(st: &LocalBuildState) -> (r: Vec<String>)
    ensures
        text_views(r@) == search_paths(st@),
{
    let value = match map_get_exec(&st.env, "PATH") {
        Some(v) => v,
        None => String::new(),
    };
    assert(value@ == map_get_or_empty(st@.env, "PATH"@));
    let sep = chars_of(":");
    proof {
        reveal_strlit(":");
    }
    let pieces = split_pat_exec(&chars_of(value.as_str()), &sep);
    let ghost parts = split_pat(value@, ":"@);
    let mut r: Vec<String> = Vec::new();
    let mut i: usize = 0;
    while i < pieces.len()
        invariant
            0 <= i <= pieces@.len(),
            r@.len() == i,
            views(pieces@) == parts,
            text_views(r@) == parts.subrange(0, i as int).map_values(
                |p: Seq<char>| pythonic_join_spec(st@.workdir, p),
            ),
        decreases pieces@.len() - i,
    {
        let piece = string_of(&pieces[i]);
        assert(piece@ == parts[i as int]);
        let ghost before = r@;
        let item = pythonic_join(&st.workdir, piece.as_str());
        r.push(item);
        assert(text_views(r@) =~= text_views(before).push(item@));
        assert(parts.subrange(0, i + 1).map_values(|p: Seq<char>| pythonic_join_spec(st@.workdir, p))
            =~= parts.subrange(0, i as int).map_values(|p: Seq<char>| pythonic_join_spec(st@.workdir, p)).push(
            pythonic_join_spec(st@.workdir, parts[i as int]),
        ));
        i = i + 1;
    }
    assert(parts.subrange(0, parts.len() as int) =~= parts);
    let ghost joined = text_views(r@);
    let ghost n = r@.len();
    let mut j: usize = 0;
    while j < st.host_path.len()
        invariant
            0 <= j <= st.host_path@.len(),
            r@.len() == n + j,
            joined.len() == n,
            text_views(r@) == joined + text_views(st.host_path@.subrange(0, j as int)),
        decreases st.host_path@.len() - j,
    {
        let ghost before = r@;
        let item = st.host_path[j].clone();
        r.push(item);
        assert(text_views(r@) =~= text_views(before).push(item@));
        assert(text_views(st.host_path@.subrange(0, j + 1)) =~= text_views(st.host_path@.subrange(0, j as int)).push(
            st.host_path@[j as int]@,
        ));
        assert(text_views(r@) =~= joined + text_views(st.host_path@.subrange(0, j + 1)));
        j = j + 1;
    }
    assert(st.host_path@.subrange(0, st.host_path@.len() as int) =~= st.host_path@);
    r
}

fn command_effect(st: &LocalBuildState, line: &str) -> (e: LocalEffect)
    ensures
        seq![e@] == command_effects(st@, line@),
{
    match shell_words_split(line) {
        None => {
            let mut text = copy_str("Failed to parse command ");
            let quoted = debug_quoted(line);
            push_str(&mut text, &quoted);
            push_str(&mut text, ": missing closing quote");
            LocalEffect::Fail(text)
        },
        Some(words) => {
            if words.len() == 0 {
                LocalEffect::Fail(copy_str("Program is not installed: "))
            } else {
                let paths = search_paths_exec(st);
                let path = join_strings(&paths, ":");
                LocalEffect::RunCommand(
                    LocalCommand {
                        program: words[0].clone(),
                        command: copy_str(line),
                        search_paths: paths,
                        path,
                        cwd: copy_str(&st.workdir),
                        env: clone_pairs(&st.env),
                    },
                )
            }
        },
    }
}

fn run_step(st: &LocalBuildState, step: &RunStep) -> (r: Vec<LocalEffect>)
    ensures
        effects_view(r@) == run_effects(st@, *step),
{
    let mut out: Vec<LocalEffect> = Vec::new();
    let empty: Vec<String> = Vec::new();
    let inputs = match &step.inputs {
        Some(v) => v,
        None => &empty,
    };
    assert(text_views(inputs@) == opt_texts(step.inputs));
    assert(effects_view(out@) =~= seq![]);
    input_copies(st, inputs, &mut out);
    let ghost extra = if text_views(inputs@).len() > 0 {
        " # using "@ + join_texts(text_views(inputs@), ", "@)
    } else {
        Seq::<char>::empty()
    };
    let mut text = copy_str("$ ");
    push_str(&mut text, &step.command);
    if inputs.len() > 0 {
        push_str(&mut text, " # using ");
        let all = join_strings(inputs, ", ");
        push_str(&mut text, &all);
    }
    assert(text@ =~= "$ "@ + step.command@ + extra);
    push_effect(&mut out, report_effect(st, &text));
    push_effect(&mut out, command_effect(st, &step.command));
    r_eq(out)
}

/// The vector itself (a named return keeps the proofs above readable).
fn r_eq(v: Vec<LocalEffect>) -> (r: Vec<LocalEffect>)
    ensures
        r@ == v@,
{
    v
}


fn copy_step(st: &LocalBuildState, step: &CopyStep) -> (r: Vec<LocalEffect>)
    ensures
        effects_view(r@) == copy_effects(st@, *step),
{
    let mut out: Vec<LocalEffect> = Vec::new();
    assert(effects_view(out@) =~= seq![]);
    if step.is_download() {
        let mut text = copy_str("Download from ");
        push_str(&mut text, &step.source);
        push_str(&mut text, " to ");
        push_str(&mut text, &step.target);
        push_effect(&mut out, report_effect(st, &text));
        let target = pythonic_join(&st.workdir, &step.target);
        push_effect(&mut out, LocalEffect::Download { url: copy_str(&step.source), target });
        assert(effects_view(out@) =~= copy_effects(st@, *step));
        return out;
    }
    let base: &String = if eq_str(&step.base, "source") {
        &st.src_dir
    } else if eq_str(&step.base, "assets") {
        &st.assets_path
    } else {
        let mut text = copy_str("Unknown base: ");
        push_str(&mut text, &step.base);
        push_effect(&mut out, LocalEffect::Fail(text));
        assert(effects_view(out@) =~= copy_effects(st@, *step));
        return out;
    };
    let empty: Vec<String> = Vec::new();
    let ignore = match &step.ignore {
        Some(v) => v,
        None => &empty,
    };
    assert(text_views(ignore@) == opt_texts(step.ignore));
    let ghost extra = if text_views(ignore@).len() > 0 {
        " # ignoring "@ + join_texts(text_views(ignore@), ", "@)
    } else {
        Seq::<char>::empty()
    };
    let mut text = copy_str("Copy to ");
    push_str(&mut text, &step.target);
    push_str(&mut text, " from ");
    push_str(&mut text, &step.source);
    if ignore.len() > 0 {
        push_str(&mut text, " # ignoring ");
        let all = join_strings(ignore, ", ");
        push_str(&mut text, &all);
    }
    assert(text@ =~= "Copy to "@ + step.target@ + " from "@ + step.source@ + extra);
    push_effect(&mut out, report_effect(st, &text));
    let from = pythonic_join(base, &step.source);
    let to = pythonic_join(&st.workdir, &step.target);
    let a = normalize_absolute(&from, &st.cwd);
    let b = normalize_absolute(&to, &st.cwd);
    match (a, b) {
        (Ok(x), Ok(y)) => {
            if eq_str(&x, &y) {
                assert(effects_view(out@) =~= copy_effects(st@, *step));
                return out;
            }
            let mut all_ignore: Vec<String> = crate::auto::clone_strings(ignore);
            all_ignore.push(copy_str(".anybuild"));
            all_ignore.push(copy_str("Anybuild"));
            assert(text_views(all_ignore@) =~= text_views(ignore@) + seq![".anybuild"@, "Anybuild"@]);
            push_effect(
                &mut out,
                LocalEffect::CopyFromBase {
                    source: from,
                    target: to,
                    ignore: all_ignore,
                    shown_source: copy_str(&step.source),
                },
            );
        },
        _ => {
            push_effect(&mut out, LocalEffect::Fail(copy_str("cannot make an empty path absolute")));
        },
    }
    assert(effects_view(out@) =~= copy_effects(st@, *step));
    out
}

fn assignments_exec(vars: &Vec<(String, String)>) -> (r: Vec<String>)
    ensures
        text_views(r@) == assignments(pairs_view(vars@)),
{
    let mut r: Vec<String> = Vec::new();
    let mut i: usize = 0;
    while i < vars.len()
        invariant
            0 <= i <= vars@.len(),
            r@.len() == i,
            text_views(r@) == assignments(pairs_view(vars@).subrange(0, i as int)),
        decreases vars@.len() - i,
    {
        let mut item = copy_str(vars[i].0.as_str());
        push_str(&mut item, "=");
        let quoted = json_string_literal(vars[i].1.as_str());
        push_str(&mut item, &quoted);
        let ghost before = r@;
        r.push(item);
        assert(text_views(r@) =~= text_views(before).push(item@));
        assert(pairs_view(vars@).subrange(0, i + 1) =~= pairs_view(vars@).subrange(0, i as int).push(
            pairs_view(vars@)[i as int],
        ));
        assert(assignments(pairs_view(vars@).subrange(0, i + 1)) =~= assignments(
            pairs_view(vars@).subrange(0, i as int),
        ).push(item@));
        i = i + 1;
    }
    assert(pairs_view(vars@).subrange(0, vars@.len() as int) =~= pairs_view(vars@));
    r
}

/// The variables as `NAME="value"` assignments separated by spaces, each
/// value written as a JSON string.
pub fn display_environment_variables(vars: &Vec<(String, String)>) -> (r: String)
    ensures
        r@ == join_texts(assignments(pairs_view(vars@)), " "@),
{
    let texts = assignments_exec(vars);
    join_strings(&texts, " ")
}

fn env_step(st: &mut LocalBuildState, step: &EnvStep) -> (r: Vec<LocalEffect>)
    ensures
        effects_view(r@) == local_step_effects(old(st)@, Step::Env(*step)),
        final(st)@ == local_step_next(old(st)@, Step::Env(*step)),
{
    let all = display_environment_variables(&step.variables);
    let mut text = copy_str("Setting environment variables: ");
    push_str(&mut text, &all);
    let mut out: Vec<LocalEffect> = Vec::new();
    let e = report_effect(st, &text);
    push_effect(&mut out, e);
    assert(effects_view(out@) =~= local_step_effects(old(st)@, Step::Env(*step)));
    map_insert_all_exec(&mut st.env, &step.variables);
    out
}

fn path_step(st: &mut LocalBuildState, step: &PathStep) -> (r: Vec<LocalEffect>)
    ensures
        effects_view(r@) == local_step_effects(old(st)@, Step::Path(*step)),
        final(st)@ == local_step_next(old(st)@, Step::Path(*step)),
{
    let mut text = copy_str("Add ");
    push_str(&mut text, &step.path);
    push_str(&mut text, " to PATH");
    let mut out: Vec<LocalEffect> = Vec::new();
    let e = report_effect(st, &text);
    push_effect(&mut out, e);
    assert(effects_view(out@) =~= local_step_effects(old(st)@, Step::Path(*step)));
    let old_path = match map_get_exec(&st.env, "PATH") {
        Some(v) => v,
        None => String::new(),
    };
    let mut value = copy_str(&step.path);
    push_str(&mut value, ":");
    push_str(&mut value, &old_path);
    assert(value@ == prepended_path(old(st)@.env, step.path@));
    map_insert_exec(&mut st.env, "PATH", &value);
    out
}

fn use_step(st: &LocalBuildState, step: &UseStep) -> (r: Vec<LocalEffect>)
    ensures
        effects_view(r@) == local_step_effects(st@, Step::Use(*step)),
{
    let mut names: Vec<String> = Vec::new();
    let mut i: usize = 0;
    while i < step.dependencies.len()
        invariant
            0 <= i <= step.dependencies@.len(),
            names@.len() == i,
            text_views(names@) == package_texts(step.dependencies@.subrange(0, i as int)),
        decreases step.dependencies@.len() - i,
    {
        let item = step.dependencies[i].display();
        let ghost before = names@;
        names.push(item);
        assert(text_views(names@) =~= text_views(before).push(item@));
        assert(package_texts(step.dependencies@.subrange(0, i + 1)) =~= package_texts(
            step.dependencies@.subrange(0, i as int),
        ).push(package_text(step.dependencies@[i as int])));
        i = i + 1;
    }
    assert(step.dependencies@.subrange(0, step.dependencies@.len() as int) =~= step.dependencies@);
    let all = join_strings(&names, ", ");
    let mut text = copy_str("Using dependencies: ");
    push_str(&mut text, &all);
    let mut out: Vec<LocalEffect> = Vec::new();
    push_effect(&mut out, report_effect(st, &text));
    assert(effects_view(out@) =~= local_step_effects(st@, Step::Use(*step)));
    out
}

fn write_step(st: &LocalBuildState, step: &WriteFileStep) -> (r: Vec<LocalEffect>)
    ensures
        effects_view(r@) == local_step_effects(st@, Step::WriteFile(*step)),
{
    let target = join(&st.workdir, &step.path);
    let mut text = copy_str("Write file ");
    push_str(&mut text, &target);
    let mut out: Vec<LocalEffect> = Vec::new();
    push_effect(&mut out, report_effect(st, &text));
    push_effect(&mut out, LocalEffect::WriteFile { path: target, content: copy_str(&step.content) });
    assert(effects_view(out@) =~= local_step_effects(st@, Step::WriteFile(*step)));
    out
}

/// What one plan step does on the host, and the state it leaves.
pub fn local_step(st: &mut LocalBuildState, step: &Step) -> (r: Vec<LocalEffect>)
    ensures
        effects_view(r@) == local_step_effects(old(st)@, *step),
        final(st)@ == local_step_next(old(st)@, *step),
{
    match step {
        Step::Use(s) => use_step(st, s),
        Step::Workdir(s) => {
            let mut text = copy_str("Working in ");
            push_str(&mut text, &s.path);
            let mut out: Vec<LocalEffect> = Vec::new();
            push_effect(&mut out, report_effect(st, &text));
            push_effect(&mut out, LocalEffect::CreateDirAll(copy_str(&s.path)));
            assert(effects_view(out@) =~= local_step_effects(old(st)@, *step));
            st.workdir = copy_str(&s.path);
            out
        },
        Step::Run(s) => run_step(st, s),
        Step::Copy(s) => copy_step(st, s),
        Step::Env(s) => env_step(st, s),
        Step::Path(s) => path_step(st, s),
        Step::WriteFile(s) => write_step(st, s),
    }
}

fn any_failure(effects: &Vec<LocalEffect>) -> (r: bool)
    ensures
        r == has_failure(effects_view(effects@)),
{
    let mut i: usize = 0;
    while i < effects.len()
        invariant
            0 <= i <= effects@.len(),
            forall|j: int| 0 <= j < i ==> !(effects_view(effects@)[j] is Fail),
        decreases effects@.len() - i,
    {
        if let LocalEffect::Fail(_) = &effects[i] {
            assert(effects_view(effects@)[i as int] is Fail);
            return true;
        }
        i = i + 1;
    }
    false
}

/// Everything a local build does: each mount's build directory created,
/// then the steps in order, stopping after the first failure. The state
/// left holds the environment the build ends with.
pub fn local_build_effects(st: &mut LocalBuildState, mounts: &Vec<Mount>, steps: &Vec<Step>) -> (r: Vec<
    LocalEffect,
>)
    ensures
        effects_view(r@) == mount_dirs(mounts@) + steps_effects(old(st)@, steps@).0,
        final(st)@ == steps_effects(old(st)@, steps@).1,
{
    let mut out: Vec<LocalEffect> = Vec::new();
    let mut k: usize = 0;
    while k < mounts.len()
        invariant
            0 <= k <= mounts@.len(),
            out@.len() == k,
            effects_view(out@) == mount_dirs(mounts@.subrange(0, k as int)),
        decreases mounts@.len() - k,
    {
        push_effect(&mut out, LocalEffect::CreateDirAll(copy_str(&mounts[k].build_path)));
        assert(mount_dirs(mounts@.subrange(0, k + 1)) =~= mount_dirs(mounts@.subrange(0, k as int)).push(
            EffectView::CreateDirAll(mounts@[k as int].build_path@),
        ));
        k = k + 1;
    }
    assert(mounts@.subrange(0, mounts@.len() as int) =~= mounts@);
    let ghost dirs = effects_view(out@);
    let ghost start = st@;
    let mut steps_out: Vec<LocalEffect> = Vec::new();
    let mut i: usize = 0;
    assert(steps@.subrange(0, 0) =~= Seq::<Step>::empty());
    assert(effects_view(steps_out@) =~= seq![]);
    while i < steps.len()
        invariant
            0 <= i <= steps@.len(),
            effects_view(out@) == dirs,
            dirs == mount_dirs(mounts@),
            start == old(st)@,
            (effects_view(steps_out@), st@) == steps_effects(start, steps@.subrange(0, i as int)),
            !has_failure(effects_view(steps_out@)),
        decreases steps@.len() - i,
    {
        let ghost prefix = steps@.subrange(0, i + 1);
        assert(prefix.drop_last() =~= steps@.subrange(0, i as int));
        assert(prefix.last() == steps@[i as int]);
        let ghost before = effects_view(steps_out@);
        let mut more = local_step(st, &steps[i]);
        let failed = any_failure(&more);
        let ghost added = effects_view(more@);
        steps_out.append(&mut more);
        assert(effects_view(steps_out@) =~= before + added);
        i = i + 1;
        if failed {
            assert(has_failure(effects_view(steps_out@))) by {
                let j = choose|j: int| 0 <= j < added.len() && (#[trigger] added[j]) is Fail;
                assert(effects_view(steps_out@)[before.len() + j] is Fail);
            }
            proof {
                lemma_steps_stop_after_failure(start, steps@, i as int);
            }
            assert(steps@.subrange(0, steps@.len() as int) =~= steps@);
            let ghost so = effects_view(steps_out@);
            let ghost o = out@;
            out.append(&mut steps_out);
            assert(effects_view(out@) =~= effects_view(o) + so);
            assert(effects_view(out@) =~= dirs + steps_effects(start, steps@).0);
            return out;
        }
        assert(!has_failure(effects_view(steps_out@))) by {
            if has_failure(effects_view(steps_out@)) {
                let j = choose|j: int| 0 <= j < effects_view(steps_out@).len() && (
                #[trigger] effects_view(steps_out@)[j]) is Fail;
                if j < before.len() {
                    assert(before[j] is Fail);
                } else {
                    assert(added[j - before.len()] is Fail);
                }
            }
        }
    }
    assert(steps@.subrange(0, steps@.len() as int) =~= steps@);
    let ghost so = effects_view(steps_out@);
    let ghost o = out@;
    out.append(&mut steps_out);
    assert(effects_view(out@) =~= effects_view(o) + so);
    assert(effects_view(out@) =~= dirs + steps_effects(start, steps@).0);
    out
}

/// Once a run of steps has failed, the steps after it change nothing.
proof fn lemma_steps_stop_after_failure(st: LocalStateView, steps: Seq<Step>, i: int)
    requires
        0 <= i <= steps.len(),
        has_failure(steps_effects(st, steps.subrange(0, i)).0),
    ensures
        steps_effects(st, steps) == steps_effects(st, steps.subrange(0, i)),
    decreases steps.len() - i,
{
    if i < steps.len() {
        let p = steps.subrange(0, i + 1);
        assert(p.drop_last() =~= steps.subrange(0, i));
        lemma_steps_stop_after_failure(st, steps, i + 1);
    } else {
        assert(steps.subrange(0, i) =~= steps);
    }
}

/// The `PATH` a build leaves for the runtime.
pub fn runtime_path(st: &LocalBuildState) -> (r: Option<String>)
    ensures
        r matches Some(v) ==> map_get(st@.env, "PATH"@) == Some(v@),
        r is None ==> map_get(st@.env, "PATH"@) is None,
{
    map_get_exec(&st.env, "PATH")
}

/// After an environment step each variable it sets reads the last value
/// the step gives it, every other keeps its value, the existing variables
/// keep their order and the new ones follow them in the step's order, and
/// the step is reported once, as its `NAME="value"` assignments.
pub proof fn law_env_step_sets_variables(st: LocalStateView, step: EnvStep, k: Seq<char>)
    ensures
        map_get(local_step_next(st, Step::Env(step)).env, k) == match map_get(pairs_view(step.variables@), k) {
            Some(v) => Some(v),
            None => map_get(st.env, k),
        },
        local_step_next(st, Step::Env(step)).env.len() >= st.env.len(),
        forall|i: int| 0 <= i < st.env.len() ==> (#[trigger] local_step_next(st, Step::Env(step)).env[i]).0 == st.env[i].0,
        forall|i: int|
            st.env.len() <= i < local_step_next(st, Step::Env(step)).env.len() ==> map_get(
                st.env,
                (#[trigger] local_step_next(st, Step::Env(step)).env[i]).0,
            ) is None && map_get(pairs_view(step.variables@), local_step_next(st, Step::Env(step)).env[i].0) is Some,
        crate::env_map::map_keys(local_step_next(st, Step::Env(step)).env) == crate::env_map::map_keys(st.env)
            + crate::env_map::appended_keys(st.env, pairs_view(step.variables@)),
        local_step_next(st, Step::Env(step)).workdir == st.workdir,
        local_step_next(st, Step::Env(step)).cwd == st.cwd,
        local_step_effects(st, Step::Env(step)) == seq![
            report(st, "Setting environment variables: "@ + join_texts(assignments(pairs_view(step.variables@)), " "@)),
        ],
{
    crate::env_map::law_insert_all_appends_new_keys(st.env, pairs_view(step.variables@));
    crate::volumes::lemma_get_after_insert_all(st.env, pairs_view(step.variables@), k);
    crate::env_map::law_insert_all_keeps_key_order(st.env, pairs_view(step.variables@));
}

} // verus!
