//! What a `pyproject.toml` adds to an install context: itself and `uv.lock`
//! as inputs and manifests, the README/LICENSE-like files beside it, and
//! the local paths its dependencies, its uv path sources and its uv
//! workspace members point at.
//!
//! The caller reads the files: it hands in the parsed document, the files
//! found beside it, what the file system says about each local path
//! (`pyproject_local_refs` names them, in order), and the member
//! directories its workspace patterns match that hold a `pyproject.toml`.
use vstd::prelude::*;
use crate::event::text_views;
use crate::install_context::{
    add_unique, clean_relative_spec, looks_like_file_spec, python_dependency_strings,
    python_dependency_strings_spec, python_local_ref, python_local_ref_spec, relative_to_root,
    relative_to_root_spec, resolve_local_ref, resolve_local_ref_spec, uv_source_paths,
    uv_source_paths_spec, InstallContext, PathFacts,
};
use crate::json::JsonValue;
use crate::text::copy_str;

verus! {

/// An install context as plain values.
pub struct ContextView {
    pub inputs: Seq<Seq<char>>,
    pub local_paths: Seq<Seq<char>>,
    pub manifests: Seq<Seq<char>>,
    pub requires_all_files: bool,
    pub reasons: Seq<Seq<char>>,
}

pub open spec fn context_view(c: InstallContext) -> ContextView {
    ContextView {
        inputs: text_views(c.inputs@),
        local_paths: text_views(c.local_paths@),
        manifests: text_views(c.manifest_paths@),
        requires_all_files: c.requires_all_files,
        reasons: text_views(c.reasons@),
    }
}

/// `add_input`: the cleaned value, unless it is there already.
pub open spec fn with_input(c: ContextView, value: Seq<char>) -> ContextView {
    ContextView { inputs: add_unique(c.inputs, clean_relative_spec(value)), ..c }
}

/// `add_manifest`.
pub open spec fn with_manifest(c: ContextView, path: Seq<char>) -> ContextView {
    ContextView { manifests: add_unique(c.manifests, path), ..c }
}

/// `add_local_path` (see `local_path_added`).
pub open spec fn with_local(c: ContextView, f: PathFacts, root: Seq<char>, reason: Seq<char>) -> ContextView {
    let file = looks_like_file_spec(f);
    let local_paths = add_unique(c.local_paths, f.path@);
    match relative_to_root_spec(f.path@, root) {
        Some(rel) => if file {
            ContextView { inputs: add_unique(c.inputs, rel), local_paths, ..c }
        } else {
            ContextView { local_paths, requires_all_files: true, reasons: add_unique(c.reasons, reason), ..c }
        },
        None => ContextView {
            local_paths,
            requires_all_files: true,
            reasons: add_unique(c.reasons, reason),
            ..c
        },
    }
}

/// Each local path in turn, each with its reason; all need every file
/// when they are not file inputs.
pub open spec fn with_locals(
    c: ContextView,
    facts: Seq<PathFacts>,
    reasons: Seq<Seq<char>>,
    root: Seq<char>,
) -> ContextView
    decreases facts.len(),
{
    if facts.len() == 0 {
        c
    } else {
        with_local(
            with_locals(c, facts.drop_last(), reasons, root),
            facts.last(),
            root,
            reasons[facts.len() - 1],
        )
    }
}

/// Each file beside the manifest that lies under the root, as an input.
pub open spec fn with_root_inputs(c: ContextView, paths: Seq<Seq<char>>, root: Seq<char>) -> ContextView
    decreases paths.len(),
{
    if paths.len() == 0 {
        c
    } else {
        let before = with_root_inputs(c, paths.drop_last(), root);
        match relative_to_root_spec(paths.last(), root) {
            Some(rel) => with_input(before, rel),
            None => before,
        }
    }
}

pub open spec fn dependency_reason() -> Seq<char> {
    "Python local path dependencies need source files"@
}

pub open spec fn source_reason() -> Seq<char> {
    "uv path sources need source files"@
}

pub open spec fn member_reason() -> Seq<char> {
    "uv workspace members need source files"@
}

/// The local paths the dependency strings point at, in order.
pub open spec fn dependency_refs(deps: Seq<Seq<char>>, dir: Seq<char>) -> Seq<Seq<char>>
    decreases deps.len(),
{
    if deps.len() == 0 {
        seq![]
    } else {
        let rest = dependency_refs(deps.drop_last(), dir);
        match python_local_ref_spec(deps.last(), dir) {
            Some(r) => rest.push(r),
            None => rest,
        }
    }
}

/// The local paths the uv path sources point at, in order.
pub open spec fn source_refs(paths: Seq<Seq<char>>, dir: Seq<char>) -> Seq<Seq<char>>
    decreases paths.len(),
{
    if paths.len() == 0 {
        seq![]
    } else {
        let rest = source_refs(paths.drop_last(), dir);
        match resolve_local_ref_spec(dir, paths.last(), true) {
            Some(r) => rest.push(r),
            None => rest,
        }
    }
}

/// The local paths of a document whose directory is `dir`: those of its
/// dependency strings, then those of its uv path sources.
pub open spec fn pyproject_refs_spec(data: JsonValue, dir: Seq<char>) -> Seq<Seq<char>> {
    dependency_refs(python_dependency_strings_spec(data), dir) + source_refs(uv_source_paths_spec(data), dir)
}

/// Why each of those paths needs its source files.
pub open spec fn pyproject_reasons_spec(data: JsonValue, dir: Seq<char>) -> Seq<Seq<char>> {
    Seq::new(dependency_refs(python_dependency_strings_spec(data), dir).len(), |i: int| dependency_reason())
        + Seq::new(source_refs(uv_source_paths_spec(data), dir).len(), |i: int| source_reason())
}

/// What a `pyproject.toml` at `<root>/pyproject.toml` adds: itself, then
/// `uv.lock` when there is one, as inputs and manifests; the files beside
/// it; and, when it parses, the local paths of its dependencies and uv
/// sources (`ref_facts`) and its uv workspace members (`members`).
pub open spec fn pyproject_context_spec(
    c: ContextView,
    root: Seq<char>,
    pyproject_path: Seq<char>,
    uv_lock_path: Option<Seq<char>>,
    beside: Seq<Seq<char>>,
    data: Option<JsonValue>,
    ref_facts: Seq<PathFacts>,
    members: Seq<PathFacts>,
) -> ContextView {
    let c1 = with_manifest(with_input(c, "pyproject.toml"@), pyproject_path);
    let c2 = match uv_lock_path {
        Some(p) => with_manifest(with_input(c1, "uv.lock"@), p),
        None => c1,
    };
    let c3 = with_root_inputs(c2, beside, root);
    match data {
        None => c3,
        Some(d) => with_locals(
            with_locals(c3, ref_facts, pyproject_reasons_spec(d, root), root),
            members,
            Seq::new(members.len(), |i: int| member_reason()),
            root,
        ),
    }
}

/// The local paths a parsed `pyproject.toml` in `dir` points at, in order,
/// for the caller to look up.
pub fn pyproject_local_refs(data: &JsonValue, dir: &str) -> (r: (Vec<String>, Vec<String>))
    ensures
        text_views(r.0@) == pyproject_refs_spec(*data, dir@),
        text_views(r.1@) == pyproject_reasons_spec(*data, dir@),
{
    let deps = python_dependency_strings(data);
    let mut refs: Vec<String> = Vec::new();
    let mut reasons: Vec<String> = Vec::new();
    let ghost ds = text_views(deps@);
    let mut i: usize = 0;
    while i < deps.len()
        invariant
            0 <= i <= deps@.len(),
            ds == text_views(deps@),
            text_views(refs@) == dependency_refs(ds.subrange(0, i as int), dir@),
            text_views(reasons@) == Seq::new(refs@.len(), |k: int| dependency_reason()),
        decreases deps@.len() - i,
    {
        assert(ds.subrange(0, i + 1).drop_last() =~= ds.subrange(0, i as int));
        if let Some(r) = python_local_ref(deps[i].as_str(), dir) {
            let ghost before = text_views(refs@);
            let ghost rb = text_views(reasons@);
            refs.push(r);
            let why = copy_str("Python local path dependencies need source files");
            reasons.push(why);
            assert(text_views(refs@) =~= before.push(r@));
            assert(text_views(reasons@) =~= rb.push(why@));
            proof {
                reveal_strlit("Python local path dependencies need source files");
            }
            assert(text_views(reasons@) =~= Seq::new(refs@.len(), |k: int| dependency_reason()));
        }
        i = i + 1;
    }
    assert(ds.subrange(0, deps@.len() as int) =~= ds);
    let ghost first = text_views(refs@);
    let ghost first_reasons = text_views(reasons@);
    let paths = uv_source_paths(data);
    let ghost ps = text_views(paths@);
    let mut j: usize = 0;
    while j < paths.len()
        invariant
            0 <= j <= paths@.len(),
            ps == text_views(paths@),
            text_views(refs@) == first + source_refs(ps.subrange(0, j as int), dir@),
            text_views(reasons@) == first_reasons + Seq::new(
                source_refs(ps.subrange(0, j as int), dir@).len(),
                |k: int| source_reason(),
            ),
        decreases paths@.len() - j,
    {
        assert(ps.subrange(0, j + 1).drop_last() =~= ps.subrange(0, j as int));
        if let Some(r) = resolve_local_ref(dir, paths[j].as_str(), true) {
            let ghost before = text_views(refs@);
            let ghost rb = text_views(reasons@);
            refs.push(r);
            let why = copy_str("uv path sources need source files");
            reasons.push(why);
            assert(text_views(refs@) =~= before.push(r@));
            assert(text_views(reasons@) =~= rb.push(why@));
            proof {
                reveal_strlit("uv path sources need source files");
            }
            assert(text_views(reasons@) =~= first_reasons + Seq::new(
                source_refs(ps.subrange(0, j + 1), dir@).len(),
                |k: int| source_reason(),
            ));
        }
        j = j + 1;
    }
    assert(ps.subrange(0, paths@.len() as int) =~= ps);
    (refs, reasons)
}

proof fn lemma_local_added(old: InstallContext, new: InstallContext, f: PathFacts, root: Seq<char>, reason: Seq<char>)
    requires
        crate::install_context::local_path_added(old, new, f, root, reason, true),
    ensures
        context_view(new) == with_local(context_view(old), f, root, reason),
{
}

fn add_locals(ctx: &mut InstallContext, facts: &Vec<PathFacts>, reasons: &Vec<String>, root: &str)
    requires
        reasons@.len() >= facts@.len(),
    ensures
        context_view(*final(ctx)) == with_locals(context_view(*old(ctx)), facts@, text_views(reasons@), root@),
{
    let ghost start = context_view(*ctx);
    let ghost rs = text_views(reasons@);
    let mut i: usize = 0;
    while i < facts.len()
        invariant
            0 <= i <= facts@.len(),
            reasons@.len() >= facts@.len(),
            rs == text_views(reasons@),
            context_view(*ctx) == with_locals(start, facts@.subrange(0, i as int), rs, root@),
        decreases facts@.len() - i,
    {
        let ghost before = *ctx;
        let ghost pre = facts@.subrange(0, i + 1);
        assert(pre.drop_last() =~= facts@.subrange(0, i as int));
        ctx.add_local_path(&facts[i], root, reasons[i].as_str(), true);
        proof {
            lemma_local_added(before, *ctx, facts@[i as int], root@, rs[i as int]);
        }
        i = i + 1;
    }
    assert(facts@.subrange(0, facts@.len() as int) =~= facts@);
}

fn add_root_inputs(ctx: &mut InstallContext, paths: &Vec<String>, root: &str)
    ensures
        context_view(*final(ctx)) == with_root_inputs(context_view(*old(ctx)), text_views(paths@), root@),
{
    let ghost start = context_view(*ctx);
    let ghost ps = text_views(paths@);
    let mut i: usize = 0;
    while i < paths.len()
        invariant
            0 <= i <= paths@.len(),
            ps == text_views(paths@),
            context_view(*ctx) == with_root_inputs(start, ps.subrange(0, i as int), root@),
        decreases paths@.len() - i,
    {
        assert(ps.subrange(0, i + 1).drop_last() =~= ps.subrange(0, i as int));
        if let Some(rel) = relative_to_root(paths[i].as_str(), root) {
            ctx.add_input(&rel);
        }
        i = i + 1;
    }
    assert(ps.subrange(0, paths@.len() as int) =~= ps);
}

/// Add what the `pyproject.toml` at `pyproject_path` (directly under
/// `root`) needs. `uv_lock_path` is the resolved `uv.lock` beside it when
/// there is one; `beside` the files beside it whose names start with
/// README, LICENSE, LICENCE, MAINTAINERS or AUTHORS, each prefix's sorted
/// in turn; `data` the parsed document, none when it cannot be read or
/// parsed; `ref_facts` what the file system says of each path
/// `pyproject_local_refs` names, resolved, in the same order; `members` the directories the uv
/// workspace member patterns match that hold a `pyproject.toml`.
pub fn discover_python_pyproject(
    ctx: &mut InstallContext,
    root: &str,
    pyproject_path: &str,
    uv_lock_path: Option<&str>,
    beside: &Vec<String>,
    data: Option<&JsonValue>,
    ref_facts: &Vec<PathFacts>,
    members: &Vec<PathFacts>,
)
    requires
        data matches Some(d) ==> ref_facts@.len() == pyproject_refs_spec(*d, root@).len(),
    ensures
        context_view(*final(ctx)) == pyproject_context_spec(
            context_view(*old(ctx)),
            root@,
            pyproject_path@,
            crate::python::opt_view(uv_lock_path),
            text_views(beside@),
            match data {
                Some(d) => Some(*d),
                None => None,
            },
            ref_facts@,
            members@,
        ),
{
    ctx.add_input("pyproject.toml");
    ctx.add_manifest(pyproject_path);
    if let Some(p) = uv_lock_path {
        ctx.add_input("uv.lock");
        ctx.add_manifest(p);
    }
    add_root_inputs(ctx, beside, root);
    if let Some(d) = data {
        let (refs, reasons) = pyproject_local_refs(d, root);
        assert(reasons@.len() == text_views(reasons@).len());
        assert(refs@.len() == text_views(refs@).len());
        assert(pyproject_reasons_spec(*d, root@).len() == pyproject_refs_spec(*d, root@).len());
        add_locals(ctx, ref_facts, &reasons, root);
        let mut member_reasons: Vec<String> = Vec::new();
        let mut k: usize = 0;
        while k < members.len()
            invariant
                0 <= k <= members@.len(),
                text_views(member_reasons@) == Seq::new(k as nat, |i: int| member_reason()),
            decreases members@.len() - k,
        {
            let ghost mb = text_views(member_reasons@);
            let why = copy_str("uv workspace members need source files");
            member_reasons.push(why);
            assert(text_views(member_reasons@) =~= mb.push(why@));
            proof {
                reveal_strlit("uv workspace members need source files");
            }
            assert(text_views(member_reasons@) =~= Seq::new((k + 1) as nat, |i: int| member_reason()));
            k = k + 1;
        }
        add_locals(ctx, members, &member_reasons, root);
    }
}

/// The entries of `paths` whose flag is set, in order.
pub open spec fn flagged(paths: Seq<Seq<char>>, flags: Seq<bool>) -> Seq<Seq<char>>
    decreases paths.len(),
{
    if paths.len() == 0 || flags.len() == 0 {
        seq![]
    } else {
        let rest = flagged(paths.drop_last(), flags.drop_last());
        if flags.last() {
            rest.push(paths.last())
        } else {
            rest
        }
    }
}

/// A Python project's dependency files: the manifests of its install
/// context that are files (`is_file`, one flag per manifest).
pub fn dependency_files(manifests: &Vec<String>, is_file: &Vec<bool>) -> (r: Vec<String>)
    requires
        is_file@.len() == manifests@.len(),
    ensures
        text_views(r@) == flagged(text_views(manifests@), is_file@),
{
    let ghost ms = text_views(manifests@);
    let mut out: Vec<String> = Vec::new();
    let mut i: usize = 0;
    while i < manifests.len()
        invariant
            0 <= i <= manifests@.len(),
            is_file@.len() == manifests@.len(),
            ms == text_views(manifests@),
            text_views(out@) == flagged(ms.subrange(0, i as int), is_file@.subrange(0, i as int)),
        decreases manifests@.len() - i,
    {
        assert(ms.subrange(0, i + 1).drop_last() =~= ms.subrange(0, i as int));
        assert(is_file@.subrange(0, i + 1).drop_last() =~= is_file@.subrange(0, i as int));
        if is_file[i] {
            let ghost before = text_views(out@);
            out.push(manifests[i].clone());
            assert(text_views(out@) =~= before.push(ms[i as int]));
        }
        i = i + 1;
    }
    assert(ms.subrange(0, manifests@.len() as int) =~= ms);
    assert(is_file@.subrange(0, manifests@.len() as int) =~= is_file@);
    out
}

} // verus!
