//! What a `requirements.txt` adds to an install context: the file itself
//! as an input and manifest, the requirements files it includes (visited
//! in turn, each once), and the local paths its lines point at.
//!
//! The caller reads each file and resolves each path; it visits a file
//! with `begin_requirements_file`, then goes through `requirement_refs` in
//! order: an included file is visited at once (depth first), a local path
//! is added with `add_local_path`.
use vstd::prelude::*;
use crate::event::text_views;
use crate::install_context::{
    add_unique, clean_relative_spec, from_utf8_lossy, include_refs_from, relative_to_root,
    relative_to_root_spec, requirement_file_ref_spec, requirement_include_refs,
    requirement_local_ref, requirement_local_ref_spec, requirement_tokens, resolve_requirement_file_ref,
    split_requirement_line, text_lines, text_lines_exec, utf8_lossy, InstallContext,
};
use crate::paths::last_slash;
use crate::text::{chars_of, copy_str, string_of_range};

verus! {

/// One thing a requirements line points at.
#[derive(Debug, Clone, PartialEq, Eq)]
pub enum RequirementRef {
    /// Another requirements file, to visit.
    Include(String),
    /// A local path a dependency points at, which needs its source files.
    Local(String),
}

pub open spec fn ref_view(r: RequirementRef) -> (bool, Seq<char>) {
    match r {
        RequirementRef::Include(p) => (true, p@),
        RequirementRef::Local(p) => (false, p@),
    }
}

pub open spec fn refs_view(rs: Seq<RequirementRef>) -> Seq<(bool, Seq<char>)> {
    rs.map_values(|r: RequirementRef| ref_view(r))
}

/// The directory of a resolved file: everything before its last `/`, or
/// the root.
pub open spec fn parent_dir(path: Seq<char>) -> Seq<char> {
    let k = last_slash(path);
    if k > 0 {
        path.subrange(0, k)
    } else {
        "/"@
    }
}

/// The included files that resolve, in order.
pub open spec fn include_files(refs: Seq<Seq<char>>, dir: Seq<char>) -> Seq<(bool, Seq<char>)>
    decreases refs.len(),
{
    if refs.len() == 0 {
        seq![]
    } else {
        let rest = include_files(refs.drop_last(), dir);
        match requirement_file_ref_spec(dir, refs.last()) {
            Some(p) => rest.push((true, p)),
            None => rest,
        }
    }
}

/// What one line points at: its included files, then its local path.
pub open spec fn line_refs(line: Seq<char>, dir: Seq<char>) -> Seq<(bool, Seq<char>)> {
    let tokens = requirement_tokens(line);
    if tokens.len() == 0 {
        seq![]
    } else {
        include_files(include_refs_from(tokens, 0), dir) + match requirement_local_ref_spec(tokens, dir) {
            Some(p) => seq![(false, p)],
            None => seq![],
        }
    }
}

pub open spec fn lines_refs(lines: Seq<Seq<char>>, dir: Seq<char>) -> Seq<(bool, Seq<char>)>
    decreases lines.len(),
{
    if lines.len() == 0 {
        seq![]
    } else {
        lines_refs(lines.drop_last(), dir) + line_refs(lines.last(), dir)
    }
}

/// What the requirements file at `path` (resolved) with these bytes points
/// at, line by line.
pub open spec fn requirement_refs_spec(path: Seq<char>, bytes: Seq<u8>) -> Seq<(bool, Seq<char>)> {
    lines_refs(text_lines(utf8_lossy(bytes)), parent_dir(path))
}

fn parent_dir_exec(path: &str) -> (r: String)
    ensures
        r@ == parent_dir(path@),
{
    let v = chars_of(path);
    let mut k: usize = v.len();
    assert(v@.subrange(0, v@.len() as int) =~= v@);
    while k > 0 && v[k - 1] != '/'
        invariant
            0 <= k <= v@.len(),
            last_slash(v@) == last_slash(v@.subrange(0, k as int)),
        decreases k,
    {
        assert(v@.subrange(0, k as int).drop_last() =~= v@.subrange(0, k - 1));
        k = k - 1;
    }
    if k > 1 {
        assert(v@.subrange(0, k as int).last() == '/');
        string_of_range(&v, 0, k - 1)
    } else {
        proof {
            if k == 1 {
                assert(v@.subrange(0, 1).last() == '/');
            } else {
                assert(v@.subrange(0, 0).len() == 0);
            }
        }
        copy_str("/")
    }
}

fn push_line_refs(out: &mut Vec<RequirementRef>, line: &str, dir: &str)
    ensures
        refs_view(final(out)@) == refs_view(old(out)@) + line_refs(line@, dir@),
{
    let tokens = split_requirement_line(line);
    if tokens.len() == 0 {
        assert(refs_view(out@) + line_refs(line@, dir@) =~= refs_view(out@));
        return;
    }
    let ghost start = refs_view(out@);
    let includes = requirement_include_refs(&tokens);
    let ghost inc = text_views(includes@);
    let mut i: usize = 0;
    while i < includes.len()
        invariant
            0 <= i <= includes@.len(),
            inc == text_views(includes@),
            refs_view(out@) == start + include_files(inc.subrange(0, i as int), dir@),
        decreases includes@.len() - i,
    {
        assert(inc.subrange(0, i + 1).drop_last() =~= inc.subrange(0, i as int));
        if let Some(p) = resolve_requirement_file_ref(dir, includes[i].as_str()) {
            let ghost before = refs_view(out@);
            out.push(RequirementRef::Include(p));
            assert(refs_view(out@) =~= before.push((true, p@)));
            assert(start + include_files(inc.subrange(0, i + 1), dir@) =~= before.push((true, p@)));
        }
        i = i + 1;
    }
    assert(inc.subrange(0, includes@.len() as int) =~= inc);
    let ghost mid = refs_view(out@);
    match requirement_local_ref(&tokens, dir) {
        Some(p) => {
            out.push(RequirementRef::Local(p));
            assert(refs_view(out@) =~= mid.push((false, p@)));
            assert(refs_view(out@) =~= start + line_refs(line@, dir@));
        },
        None => {
            assert(refs_view(out@) =~= start + line_refs(line@, dir@));
        },
    }
}

/// What the requirements file at `path` (resolved), with these contents,
/// points at, in line order: included files to visit and local paths to
/// add.
pub fn requirement_refs(path: &str, bytes: &Vec<u8>) -> (r: Vec<RequirementRef>)
    ensures
        refs_view(r@) == requirement_refs_spec(path@, bytes@),
{
    let text = from_utf8_lossy(bytes.as_slice());
    let lines = text_lines_exec(text.as_str());
    let dir = parent_dir_exec(path);
    let ghost ls = text_views(lines@);
    let mut out: Vec<RequirementRef> = Vec::new();
    let mut i: usize = 0;
    assert(refs_view(out@) =~= lines_refs(ls.subrange(0, 0), dir@));
    while i < lines.len()
        invariant
            0 <= i <= lines@.len(),
            ls == text_views(lines@),
            refs_view(out@) == lines_refs(ls.subrange(0, i as int), dir@),
        decreases lines@.len() - i,
    {
        assert(ls.subrange(0, i + 1).drop_last() =~= ls.subrange(0, i as int));
        push_line_refs(&mut out, lines[i].as_str(), dir.as_str());
        i = i + 1;
    }
    assert(ls.subrange(0, lines@.len() as int) =~= ls);
    out
}

/// Start visiting the requirements file at `path` (resolved): a file
/// visited before is skipped (`false`); otherwise it is recorded, added as
/// an input when it lies under `root`, and as a manifest.
pub fn begin_requirements_file(ctx: &mut InstallContext, visited: &mut Vec<String>, root: &str, path: &str) -> (r: bool)
    ensures
        r == !text_views(old(visited)@).contains(path@),
        text_views(final(visited)@) == add_unique(text_views(old(visited)@), path@),
        !r ==> *final(ctx) == *old(ctx),
        r ==> text_views(final(ctx).inputs@) == match relative_to_root_spec(path@, root@) {
            Some(rel) => add_unique(text_views(old(ctx).inputs@), clean_relative_spec(rel)),
            None => text_views(old(ctx).inputs@),
        },
        r ==> text_views(final(ctx).manifest_paths@) == add_unique(text_views(old(ctx).manifest_paths@), path@),
        final(ctx).local_paths == old(ctx).local_paths,
        final(ctx).requires_all_files == old(ctx).requires_all_files,
        final(ctx).reasons == old(ctx).reasons,
{
    if crate::python::contains_text(visited, path) {
        return false;
    }
    let ghost before = text_views(visited@);
    visited.push(copy_str(path));
    assert(text_views(visited@) =~= before.push(path@));
    if let Some(rel) = relative_to_root(path, root) {
        ctx.add_input(&rel);
    }
    ctx.add_manifest(path);
    true
}

} // verus!
