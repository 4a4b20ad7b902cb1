//! What a JavaScript package adds to an install context: its
//! `package.json` as an input and manifest, and the local paths its
//! dependencies point at (visited in turn when they are directories).
//!
//! The caller reads each `package.json` and resolves each path; it visits a
//! package with `begin_js_package`, then adds each of `js_package_refs` with
//! `add_local_path` and visits it when it is a directory.
use vstd::prelude::*;
use crate::env_map::pairs_view;
use crate::event::text_views;
use crate::install_context::{
    add_unique, clean_relative_spec, js_local_ref, js_local_ref_spec, relative_to_root,
    relative_to_root_spec, InstallContext,
};
use crate::json::JsonValue;
use crate::text::copy_str;

verus! {

/// The local paths of one table's entries whose specs are strings.
pub open spec fn section_refs(
    members: Seq<(String, JsonValue)>,
    dir: Seq<char>,
    workspace: Seq<(Seq<char>, Seq<char>)>,
) -> Seq<Seq<char>>
    decreases members.len(),
{
    if members.len() == 0 {
        seq![]
    } else {
        let rest = section_refs(members.drop_last(), dir, workspace);
        match members.last().1 {
            JsonValue::String(spec) => match js_local_ref_spec(members.last().0@, spec@, dir, workspace) {
                Some(p) => rest.push(p),
                None => rest,
            },
            _ => rest,
        }
    }
}

pub open spec fn table_refs(
    package_json: JsonValue,
    section: Seq<char>,
    dir: Seq<char>,
    workspace: Seq<(Seq<char>, Seq<char>)>,
) -> Seq<Seq<char>> {
    match package_json.spec_get(section) {
        Some(JsonValue::Object(members)) => section_refs(members@, dir, workspace),
        _ => seq![],
    }
}

/// The local paths a package's dependencies point at: each table in turn,
/// its entries in order.
pub open spec fn js_package_refs_spec(
    package_json: JsonValue,
    dir: Seq<char>,
    workspace: Seq<(Seq<char>, Seq<char>)>,
) -> Seq<Seq<char>> {
    table_refs(package_json, "dependencies"@, dir, workspace) + table_refs(package_json, "devDependencies"@, dir, workspace)
        + table_refs(package_json, "optionalDependencies"@, dir, workspace) + table_refs(
        package_json,
        "peerDependencies"@,
        dir,
        workspace,
    )
}

fn push_table_refs(
    out: &mut Vec<String>,
    package_json: &JsonValue,
    section: &str,
    dir: &str,
    workspace: &Vec<(String, String)>,
)
    ensures
        text_views(final(out)@) == text_views(old(out)@) + table_refs(*package_json, section@, dir@, pairs_view(workspace@)),
{
    let ghost start = text_views(out@);
    let ghost ws = pairs_view(workspace@);
    match crate::json::get(package_json, section) {
        Some(JsonValue::Object(members)) => {
            let mut i: usize = 0;
            assert(start + section_refs(members@.subrange(0, 0), dir@, ws) =~= start);
            while i < members.len()
                invariant
                    0 <= i <= members@.len(),
                    ws == pairs_view(workspace@),
                    text_views(out@) == start + section_refs(members@.subrange(0, i as int), dir@, ws),
                decreases members@.len() - i,
            {
                let ghost next = members@.subrange(0, i + 1);
                assert(next.drop_last() =~= members@.subrange(0, i as int));
                assert(next.last() == members@[i as int]);
                if let JsonValue::String(spec) = &members[i].1 {
                    if let Some(p) = js_local_ref(members[i].0.as_str(), spec.as_str(), dir, workspace) {
                        let ghost before = text_views(out@);
                        out.push(p);
                        assert(text_views(out@) =~= before.push(p@));
                    }
                }
                i = i + 1;
            }
            assert(members@.subrange(0, members@.len() as int) =~= members@);
        },
        _ => {
            assert(text_views(out@) =~= start + table_refs(*package_json, section@, dir@, ws));
        },
    }
}

/// The local paths the dependencies of the package in `dir` point at, for
/// the caller to add and visit; `workspace` names the workspace's packages
/// (name, resolved directory).
pub fn js_package_refs(package_json: &JsonValue, dir: &str, workspace: &Vec<(String, String)>) -> (r: Vec<String>)
    ensures
        text_views(r@) == js_package_refs_spec(*package_json, dir@, pairs_view(workspace@)),
{
    let mut out: Vec<String> = Vec::new();
    assert(text_views(out@) =~= Seq::<Seq<char>>::empty());
    push_table_refs(&mut out, package_json, "dependencies", dir, workspace);
    push_table_refs(&mut out, package_json, "devDependencies", dir, workspace);
    push_table_refs(&mut out, package_json, "optionalDependencies", dir, workspace);
    push_table_refs(&mut out, package_json, "peerDependencies", dir, workspace);
    out
}

/// Start visiting the package in `dir` (resolved): a package visited before
/// is skipped, and so is one whose `package.json` could not be read as an
/// object (`readable` false), after it is recorded; otherwise its
/// `package.json` (at `package_json_path`) is added as a manifest and, when
/// it lies under `root`, as an input.
pub fn begin_js_package(
    ctx: &mut InstallContext,
    visited: &mut Vec<String>,
    root: &str,
    dir: &str,
    package_json_path: &str,
    readable: bool,
) -> (r: bool)
    ensures
        r == (!text_views(old(visited)@).contains(dir@) && readable),
        text_views(final(visited)@) == add_unique(text_views(old(visited)@), dir@),
        !r ==> *final(ctx) == *old(ctx),
        r ==> text_views(final(ctx).manifest_paths@) == add_unique(text_views(old(ctx).manifest_paths@), package_json_path@),
        r ==> text_views(final(ctx).inputs@) == match relative_to_root_spec(package_json_path@, root@) {
            Some(rel) => add_unique(text_views(old(ctx).inputs@), clean_relative_spec(rel)),
            None => text_views(old(ctx).inputs@),
        },
        final(ctx).local_paths == old(ctx).local_paths,
        final(ctx).requires_all_files == old(ctx).requires_all_files,
        final(ctx).reasons == old(ctx).reasons,
{
    if crate::python::contains_text(visited, dir) {
        return false;
    }
    let ghost before = text_views(visited@);
    visited.push(copy_str(dir));
    assert(text_views(visited@) =~= before.push(dir@));
    if !readable {
        return false;
    }
    ctx.add_manifest(package_json_path);
    if let Some(rel) = relative_to_root(package_json_path, root) {
        ctx.add_input(&rel);
    }
    true
}

/// The workspace patterns that include packages; those starting with `!`
/// exclude and are skipped.
pub open spec fn including_patterns_spec(patterns: Seq<Seq<char>>) -> Seq<Seq<char>> {
    patterns.filter(|p: Seq<char>| !(p.len() > 0 && p[0] == '!'))
}

pub fn including_patterns(patterns: &Vec<String>) -> (r: Vec<String>)
    ensures
        text_views(r@) == including_patterns_spec(text_views(patterns@)),
{
    let ghost ps = text_views(patterns@);
    let mut out: Vec<String> = Vec::new();
    let mut i: usize = 0;
    while i < patterns.len()
        invariant
            0 <= i <= patterns@.len(),
            ps == text_views(patterns@),
            text_views(out@) == including_patterns_spec(ps.subrange(0, i as int)),
        decreases patterns@.len() - i,
    {
        proof {
            reveal(Seq::filter);
        }
        assert(ps.subrange(0, i + 1).drop_last() =~= ps.subrange(0, i as int));
        let chars = crate::text::chars_of(patterns[i].as_str());
        if !(chars.len() > 0 && chars[0] == '!') {
            let ghost before = text_views(out@);
            out.push(patterns[i].clone());
            assert(text_views(out@) =~= before.push(ps[i as int]));
        }
        i = i + 1;
    }
    assert(ps.subrange(0, patterns@.len() as int) =~= ps);
    out
}

/// Whether a path has a `node_modules` component.
pub open spec fn under_node_modules(path: Seq<char>) -> bool {
    crate::text::split_pat(path, seq!['/']).contains("node_modules"@)
}

/// The workspace package a matched directory holds: its `package.json`'s
/// non-empty string name and its resolved directory, unless the directory
/// lies under `node_modules` or its `package.json` is missing or an empty
/// object.
pub open spec fn workspace_package_spec(
    path: Seq<char>,
    resolved: Seq<char>,
    package_json: Option<JsonValue>,
) -> Option<(Seq<char>, Seq<char>)> {
    if under_node_modules(path) {
        None
    } else {
        match package_json {
            Some(JsonValue::Object(members)) => if members@.len() == 0 {
                None
            } else {
                match crate::json::member_of(members@, "name"@) {
                    Some(JsonValue::String(name)) => if name@.len() > 0 {
                        Some((name@, resolved))
                    } else {
                        None
                    },
                    _ => None,
                }
            },
            _ => None,
        }
    }
}

pub fn workspace_package(path: &str, resolved: &str, package_json: Option<&JsonValue>) -> (r: Option<(String, String)>)
    ensures
        match workspace_package_spec(
            path@,
            resolved@,
            match package_json {
                Some(j) => Some(*j),
                None => None,
            },
        ) {
            Some(p) => (r matches Some(q) && q.0@ == p.0 && q.1@ == p.1),
            None => r is None,
        },
{
    let chars = crate::text::chars_of(path);
    let mut slash: Vec<char> = Vec::new();
    slash.push('/');
    assert(slash@ =~= seq!['/']);
    let parts = crate::text::split_pat_exec(&chars, &slash);
    let ghost ps = crate::text::views(parts@);
    let mut i: usize = 0;
    while i < parts.len()
        invariant
            0 <= i <= parts@.len(),
            ps == crate::text::views(parts@),
            ps == crate::text::split_pat(path@, seq!['/']),
            forall|j: int| 0 <= j < i ==> ps[j] != "node_modules"@,
        decreases parts@.len() - i,
    {
        let part = crate::text::string_of(&parts[i]);
        if crate::text::eq_str(part.as_str(), "node_modules") {
            assert(ps[i as int] == "node_modules"@);
            return None;
        }
        i = i + 1;
    }
    assert(!ps.contains("node_modules"@));
    let document = match package_json {
        Some(d) => d,
        None => return None,
    };
    match document {
        JsonValue::Object(members) => {
            if members.len() == 0 {
                return None;
            }
            match crate::json::get(document, "name") {
                Some(JsonValue::String(name)) => if name.unicode_len() > 0 {
                    Some((name.clone(), copy_str(resolved)))
                } else {
                    None
                },
                _ => None,
            }
        },
        _ => None,
    }
}

} // verus!
