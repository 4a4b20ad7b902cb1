//! Copying a directory tree while skipping entries whose name matches an
//! ignore pattern, at every level. The caller lists each directory and performs the
//! actions; which entries are copied, and where, is decided here.
use vstd::prelude::*;
use crate::paths::{join, join_spec};
use crate::event::text_views;
use crate::text::{copy_str, push_str};

verus! {

/// Whether `globset` accepts a pattern.
pub uninterp spec fn glob_accepts(pattern: Seq<char>) -> bool;

/// Whether an accepted pattern matches a name.
pub uninterp spec fn glob_matches(pattern: Seq<char>, name: Seq<char>) -> bool;

/// `globset::Glob::new(pattern)` succeeds.
#[verifier::external_body]
fn glob_valid(pattern: &str) -> (r: bool)
    ensures
        r == glob_accepts(pattern@),
{
    globset::Glob::new(pattern).is_ok()
}

/// Why `globset` cannot build a set of accepted patterns, if it cannot:
/// the error's text.
pub uninterp spec fn glob_set_failure(patterns: Seq<Seq<char>>) -> Option<Seq<char>>;

/// `globset::GlobSetBuilder::build` over the globs of the patterns, in
/// order: the text of its error, or none when the set builds.
#[verifier::external_body]
fn glob_set_error(patterns: &Vec<String>) -> (r: Option<String>)
    requires
        all_accepted(crate::event::text_views(patterns@)),
    ensures
        crate::python::opt_string_view(r) == glob_set_failure(crate::event::text_views(patterns@)),
{
    let mut builder = globset::GlobSetBuilder::new();
    for pattern in patterns.iter() {
        if let Ok(glob) = globset::Glob::new(pattern) {
            builder.add(glob);
        }
    }
    builder.build().err().map(|e| e.to_string())
}

/// `globset::GlobSet::is_match` on the set of the patterns: whether any of
/// its globs matches the path `name`.
#[verifier::external_body]
fn glob_set_match(patterns: &Vec<String>, name: &str) -> (r: bool)
    requires
        ignore_set_ok(crate::event::text_views(patterns@)),
    ensures
        r == (exists|i: int| 0 <= i < patterns@.len() && glob_matches(#[trigger] text_views(patterns@)[i], name@)),
{
    let mut builder = globset::GlobSetBuilder::new();
    for pattern in patterns.iter() {
        if let Ok(glob) = globset::Glob::new(pattern) {
            builder.add(glob);
        }
    }
    match builder.build() {
        Ok(set) => set.is_match(std::path::Path::new(name)),
        Err(_) => false,
    }
}

pub open spec fn all_accepted(patterns: Seq<Seq<char>>) -> bool {
    forall|i: int| 0 <= i < patterns.len() ==> glob_accepts(#[trigger] patterns[i])
}

/// Every pattern is a glob, and together they build a set.
pub open spec fn ignore_set_ok(patterns: Seq<Seq<char>>) -> bool {
    all_accepted(patterns) && glob_set_failure(patterns) is None
}

/// The first pattern `globset` rejects.
pub open spec fn first_rejected(patterns: Seq<Seq<char>>, i: int) -> bool {
    0 <= i < patterns.len() && !glob_accepts(patterns[i]) && forall|j: int| 0 <= j < i ==> glob_accepts(#[trigger] patterns[j])
}

/// The error for the first ignore pattern that is not a valid glob, if
/// any; else the error of building the set, if any.
pub fn check_ignore_patterns(patterns: &Vec<String>) -> (r: Result<(), String>)
    ensures
        r is Ok <==> ignore_set_ok(crate::event::text_views(patterns@)),
        r matches Err(e) ==> (exists|i: int| first_rejected(crate::event::text_views(patterns@), i) && e@
            == "Invalid ignore pattern: "@ + patterns@[i]@) || (all_accepted(crate::event::text_views(patterns@))
            && glob_set_failure(crate::event::text_views(patterns@)) == Some(e@)),
        !all_accepted(crate::event::text_views(patterns@)) ==> (r matches Err(e) && exists|i: int|
            first_rejected(crate::event::text_views(patterns@), i) && e@ == "Invalid ignore pattern: "@ + patterns@[i]@),
{
    let ghost ps = crate::event::text_views(patterns@);
    let mut i: usize = 0;
    while i < patterns.len()
        invariant
            0 <= i <= patterns@.len(),
            ps == crate::event::text_views(patterns@),
            forall|j: int| 0 <= j < i ==> glob_accepts(#[trigger] ps[j]),
        decreases patterns@.len() - i,
    {
        if !glob_valid(patterns[i].as_str()) {
            let mut m = copy_str("Invalid ignore pattern: ");
            push_str(&mut m, patterns[i].as_str());
            assert(first_rejected(ps, i as int));
            return Err(m);
        }
        i = i + 1;
    }
    match glob_set_error(patterns) {
        Some(e) => Err(e),
        None => Ok(()),
    }
}

/// A name is ignored when some pattern matches it.
pub open spec fn ignored(patterns: Seq<Seq<char>>, name: Seq<char>) -> bool {
    exists|i: int| 0 <= i < patterns.len() && glob_matches(#[trigger] patterns[i], name)
}

pub fn is_ignored(patterns: &Vec<String>, name: &str) -> (r: bool)
    requires
        ignore_set_ok(crate::event::text_views(patterns@)),
    ensures
        r == ignored(crate::event::text_views(patterns@), name@),
{
    glob_set_match(patterns, name)
}

/// One step of a copy.
#[derive(Debug, Clone, PartialEq, Eq)]
pub enum CopyAction {
    /// Create a directory (and its parents) if it does not exist.
    CreateDir(String),
    /// Copy a file, replacing the target.
    CopyFile { from: String, to: String },
    /// Copy a subdirectory the same way.
    Descend { from: String, to: String },
}

pub open spec fn action_view(a: CopyAction) -> (int, Seq<char>, Seq<char>) {
    match a {
        CopyAction::CreateDir(d) => (0, d@, seq![]),
        CopyAction::CopyFile { from, to } => (1, from@, to@),
        CopyAction::Descend { from, to } => (2, from@, to@),
    }
}

/// The actions for one directory's entries (name, is a directory):
/// those not ignored, in listing order.
pub open spec fn entry_actions(
    source: Seq<char>,
    target: Seq<char>,
    entries: Seq<(Seq<char>, bool)>,
    patterns: Seq<Seq<char>>,
) -> Seq<(int, Seq<char>, Seq<char>)>
    decreases entries.len(),
{
    if entries.len() == 0 {
        seq![]
    } else {
        let rest = entry_actions(source, target, entries.drop_last(), patterns);
        let e = entries.last();
        if ignored(patterns, e.0) {
            rest
        } else {
            rest.push((if e.1 { 2int } else { 1int }, join_spec(source, e.0), join_spec(target, e.0)))
        }
    }
}

pub open spec fn entry_views(entries: Seq<(String, bool)>) -> Seq<(Seq<char>, bool)> {
    entries.map_values(|e: (String, bool)| (e.0@, e.1))
}

/// What copying the directory `source` into `target` does, given the
/// entries listed in `source`: create `target`, then copy each file and
/// descend into each subdirectory whose name no pattern matches.
pub fn copy_dir_actions(source: &str, target: &str, entries: &Vec<(String, bool)>, patterns: &Vec<String>) -> (r: Vec<
    CopyAction,
>)
    requires
        ignore_set_ok(crate::event::text_views(patterns@)),
    ensures
        r@.map_values(|a: CopyAction| action_view(a)) == seq![(0int, target@, Seq::<char>::empty())] + entry_actions(
            source@,
            target@,
            entry_views(entries@),
            crate::event::text_views(patterns@),
        ),
{
    let ghost ps = crate::event::text_views(patterns@);
    let ghost es = entry_views(entries@);
    let mut out: Vec<CopyAction> = Vec::new();
    out.push(CopyAction::CreateDir(copy_str(target)));
    let ghost head = seq![(0int, target@, Seq::<char>::empty())];
    assert(out@.map_values(|a: CopyAction| action_view(a)) =~= head + entry_actions(source@, target@, es.subrange(0, 0), ps));
    let mut i: usize = 0;
    while i < entries.len()
        invariant
            0 <= i <= entries@.len(),
            ps == crate::event::text_views(patterns@),
            es == entry_views(entries@),
            ignore_set_ok(ps),
            head == seq![(0int, target@, Seq::<char>::empty())],
            out@.map_values(|a: CopyAction| action_view(a)) == head + entry_actions(source@, target@, es.subrange(0, i as int), ps),
        decreases entries@.len() - i,
    {
        let ghost prefix = es.subrange(0, i + 1);
        assert(prefix.drop_last() =~= es.subrange(0, i as int));
        assert(prefix.last() == es[i as int]);
        let name = entries[i].0.as_str();
        if !is_ignored(patterns, name) {
            let from = join(source, name);
            let to = join(target, name);
            let ghost before = out@.map_values(|a: CopyAction| action_view(a));
            if entries[i].1 {
                out.push(CopyAction::Descend { from, to });
            } else {
                out.push(CopyAction::CopyFile { from, to });
            }
            assert(out@.map_values(|a: CopyAction| action_view(a)) =~= before.push(
                (if entries@[i as int].1 { 2int } else { 1int }, join_spec(source@, name@), join_spec(target@, name@)),
            ));
        }
        i = i + 1;
    }
    assert(es.subrange(0, entries@.len() as int) =~= es);
    out
}

// ---------------------------------------------------------------------------
// Whole trees

/// A directory listing taken ahead of copying: a file, or a subdirectory
/// with its own listing.
#[derive(Debug, PartialEq, Eq)]
pub enum TreeEntry {
    File { name: String },
    Dir { name: String, entries: Vec<TreeEntry> },
}

pub open spec fn tree_entry_name(e: TreeEntry) -> Seq<char> {
    match e {
        TreeEntry::File { name } => name@,
        TreeEntry::Dir { name, .. } => name@,
    }
}

/// What copying the entries of `source` into `target` does, at every
/// level: an ignored entry is skipped whole; a file is copied; a
/// subdirectory is created and its entries copied the same way.
pub open spec fn entries_plan(
    source: Seq<char>,
    target: Seq<char>,
    entries: Seq<TreeEntry>,
    patterns: Seq<Seq<char>>,
) -> Seq<(int, Seq<char>, Seq<char>)>
    decreases entries, 0int,
{
    if entries.len() == 0 {
        seq![]
    } else {
        proof {
            assert(decreases_to!(entries => entries[entries.len() - 1]));
        }
        entries_plan(source, target, entries.drop_last(), patterns) + entry_plan(
            source,
            target,
            entries.last(),
            patterns,
        )
    }
}

pub open spec fn entry_plan(
    source: Seq<char>,
    target: Seq<char>,
    e: TreeEntry,
    patterns: Seq<Seq<char>>,
) -> Seq<(int, Seq<char>, Seq<char>)>
    decreases e, 1int,
{
    if ignored(patterns, tree_entry_name(e)) {
        seq![]
    } else {
        match e {
            TreeEntry::File { name } => seq![(1int, join_spec(source, name@), join_spec(target, name@))],
            TreeEntry::Dir { name, entries } => {
                proof {
                    assert(decreases_to!(e => entries));
                    assert(decreases_to!(entries => entries@));
                }
                seq![(0int, join_spec(target, name@), Seq::<char>::empty())] + entries_plan(
                    join_spec(source, name@),
                    join_spec(target, name@),
                    entries@,
                    patterns,
                )
            },
        }
    }
}

/// A base path with names joined on, one level each.
pub open spec fn joined(base: Seq<char>, names: Seq<Seq<char>>) -> Seq<char>
    decreases names.len(),
{
    if names.len() == 0 {
        base
    } else {
        joined(join_spec(base, names[0]), names.drop_first())
    }
}

/// An action reached through `names`, none of them ignored.
pub open spec fn reached_through(
    a: (int, Seq<char>, Seq<char>),
    source: Seq<char>,
    target: Seq<char>,
    patterns: Seq<Seq<char>>,
    names: Seq<Seq<char>>,
) -> bool {
    &&& names.len() >= 1
    &&& forall|j: int| 0 <= j < names.len() ==> !ignored(patterns, #[trigger] names[j])
    &&& a.0 == 1 ==> a.1 == joined(source, names) && a.2 == joined(target, names)
    &&& a.0 == 0 ==> a.1 == joined(target, names)
    &&& (a.0 == 0 || a.0 == 1)
}

pub open spec fn plan_skips_ignored(
    plan: Seq<(int, Seq<char>, Seq<char>)>,
    source: Seq<char>,
    target: Seq<char>,
    patterns: Seq<Seq<char>>,
) -> bool {
    forall|k: int| 0 <= k < plan.len() ==> #[trigger] reachable(plan[k], source, target, patterns)
}

/// Some route of names, none ignored, reaches the action.
pub open spec fn reachable(
    a: (int, Seq<char>, Seq<char>),
    source: Seq<char>,
    target: Seq<char>,
    patterns: Seq<Seq<char>>,
) -> bool {
    exists|names: Seq<Seq<char>>| #[trigger] reached_through(a, source, target, patterns, names)
}

proof fn lemma_joined_step(base: Seq<char>, name: Seq<char>, names: Seq<Seq<char>>)
    ensures
        joined(base, seq![name] + names) == joined(join_spec(base, name), names),
{
    assert((seq![name] + names).drop_first() =~= names);
    assert((seq![name] + names)[0] == name);
}

proof fn lemma_entry_skips(source: Seq<char>, target: Seq<char>, e: TreeEntry, patterns: Seq<Seq<char>>)
    ensures
        plan_skips_ignored(entry_plan(source, target, e, patterns), source, target, patterns),
    decreases e, 1int,
{
    let plan = entry_plan(source, target, e, patterns);
    if !ignored(patterns, tree_entry_name(e)) {
        match e {
            TreeEntry::File { name } => {
                let names = seq![name@];
                lemma_joined_step(source, name@, seq![]);
                lemma_joined_step(target, name@, seq![]);
                assert(seq![name@] + Seq::<Seq<char>>::empty() =~= names);
                assert(plan.len() == 1);
                assert(reached_through(plan[0], source, target, patterns, names));
                assert forall|k: int| 0 <= k < plan.len() implies #[trigger] reachable(plan[k], source, target, patterns) by {
                    assert(k == 0);
                    assert(reached_through(plan[0], source, target, patterns, names));
                }
            },
            TreeEntry::Dir { name, entries } => {
                assert(decreases_to!(e => entries));
                assert(decreases_to!(entries => entries@));
                let s2 = join_spec(source, name@);
                let t2 = join_spec(target, name@);
                let inner = entries_plan(s2, t2, entries@, patterns);
                lemma_entries_skips(s2, t2, entries@, patterns);
                assert forall|k: int| 0 <= k < plan.len() implies #[trigger] reachable(plan[k], source, target, patterns) by {
                    if k == 0 {
                        let names = seq![name@];
                        lemma_joined_step(target, name@, seq![]);
                        assert(seq![name@] + Seq::<Seq<char>>::empty() =~= names);
                        assert(reached_through(plan[0], source, target, patterns, names));
                    } else {
                        assert(plan[k] == inner[k - 1]);
                        assert(reachable(inner[k - 1], s2, t2, patterns));
                        let rest = choose|rest: Seq<Seq<char>>| #[trigger] reached_through(inner[k - 1], s2, t2, patterns, rest);
                        let names = seq![name@] + rest;
                        lemma_joined_step(source, name@, rest);
                        lemma_joined_step(target, name@, rest);
                        assert forall|j: int| 0 <= j < names.len() implies !ignored(patterns, #[trigger] names[j]) by {
                            if j > 0 {
                                assert(names[j] == rest[j - 1]);
                            }
                        }
                        assert(reached_through(plan[k], source, target, patterns, names));
                    }
                }
            },
        }
    } else {
        assert(plan.len() == 0);
    }
}

proof fn lemma_entries_skips(source: Seq<char>, target: Seq<char>, entries: Seq<TreeEntry>, patterns: Seq<Seq<char>>)
    ensures
        plan_skips_ignored(entries_plan(source, target, entries, patterns), source, target, patterns),
    decreases entries, 0int,
{
    if entries.len() > 0 {
        assert(decreases_to!(entries => entries[entries.len() - 1]));
        lemma_entries_skips(source, target, entries.drop_last(), patterns);
        lemma_entry_skips(source, target, entries.last(), patterns);
        let a = entries_plan(source, target, entries.drop_last(), patterns);
        let b = entry_plan(source, target, entries.last(), patterns);
        let plan = entries_plan(source, target, entries, patterns);
        assert(plan == a + b);
        assert forall|k: int| 0 <= k < plan.len() implies #[trigger] reachable(plan[k], source, target, patterns) by {
            if k < a.len() {
                assert(plan[k] == a[k]);
                assert(reachable(a[k], source, target, patterns));
                let w = choose|w: Seq<Seq<char>>| #[trigger] reached_through(a[k], source, target, patterns, w);
                assert(reached_through(plan[k], source, target, patterns, w));
            } else {
                assert(plan[k] == b[k - a.len()]);
                assert(reachable(b[k - a.len()], source, target, patterns));
                let w = choose|w: Seq<Seq<char>>| #[trigger] reached_through(b[k - a.len()], source, target, patterns, w);
                assert(reached_through(plan[k], source, target, patterns, w));
            }
        }
        assert(plan_skips_ignored(plan, source, target, patterns));
    } else {
        assert(entries_plan(source, target, entries, patterns).len() == 0);
    }
}

/// Copying a whole tree skips ignored names at every level: everything it
/// creates or copies is reached through names none of which a pattern
/// matches, at the same place under the target as under the source.
pub proof fn law_tree_copy_skips_ignored_names(
    source: Seq<char>,
    target: Seq<char>,
    entries: Seq<TreeEntry>,
    patterns: Seq<Seq<char>>,
)
    ensures
        plan_skips_ignored(entries_plan(source, target, entries, patterns), source, target, patterns),
{
    lemma_entries_skips(source, target, entries, patterns);
}

/// The name paths of the files of a listed tree, in listing order.
pub open spec fn entries_files(entries: Seq<TreeEntry>) -> Seq<Seq<Seq<char>>>
    decreases entries, 0int,
{
    if entries.len() == 0 {
        seq![]
    } else {
        proof {
            assert(decreases_to!(entries => entries[entries.len() - 1]));
        }
        entries_files(entries.drop_last()) + entry_files(entries.last())
    }
}

pub open spec fn entry_files(e: TreeEntry) -> Seq<Seq<Seq<char>>>
    decreases e, 1int,
{
    match e {
        TreeEntry::File { name } => seq![seq![name@]],
        TreeEntry::Dir { name, entries } => {
            proof {
                assert(decreases_to!(e => entries));
                assert(decreases_to!(entries => entries@));
            }
            entries_files(entries@).map_values(|p: Seq<Seq<char>>| seq![name@] + p)
        },
    }
}

/// No name along the path is ignored.
pub open spec fn path_kept(patterns: Seq<Seq<char>>, path: Seq<Seq<char>>) -> bool {
    forall|k: int| 0 <= k < path.len() ==> !ignored(patterns, #[trigger] path[k])
}

proof fn lemma_entry_copies(source: Seq<char>, target: Seq<char>, e: TreeEntry, patterns: Seq<Seq<char>>)
    ensures
        forall|j: int|
            0 <= j < entry_files(e).len() && path_kept(patterns, #[trigger] entry_files(e)[j]) ==> entry_plan(
                source,
                target,
                e,
                patterns,
            ).contains((1int, joined(source, entry_files(e)[j]), joined(target, entry_files(e)[j]))),
    decreases e, 1int,
{
    let plan = entry_plan(source, target, e, patterns);
    match e {
        TreeEntry::File { name } => {
            assert forall|j: int|
                0 <= j < entry_files(e).len() && path_kept(patterns, #[trigger] entry_files(e)[j]) implies plan.contains(
                (1int, joined(source, entry_files(e)[j]), joined(target, entry_files(e)[j])),
            ) by {
                let p = entry_files(e)[j];
                assert(p == seq![name@]);
                assert(!ignored(patterns, p[0]));
                lemma_joined_step(source, name@, seq![]);
                lemma_joined_step(target, name@, seq![]);
                assert(seq![name@] + Seq::<Seq<char>>::empty() =~= p);
                assert(plan[0] == (1int, joined(source, p), joined(target, p)));
            }
        },
        TreeEntry::Dir { name, entries } => {
            assert(decreases_to!(e => entries));
            assert(decreases_to!(entries => entries@));
            let s2 = join_spec(source, name@);
            let t2 = join_spec(target, name@);
            lemma_entries_copies(s2, t2, entries@, patterns);
            let inner_files = entries_files(entries@);
            let inner = entries_plan(s2, t2, entries@, patterns);
            assert forall|j: int|
                0 <= j < entry_files(e).len() && path_kept(patterns, #[trigger] entry_files(e)[j]) implies plan.contains(
                (1int, joined(source, entry_files(e)[j]), joined(target, entry_files(e)[j])),
            ) by {
                let p = entry_files(e)[j];
                let q = inner_files[j];
                assert(p == seq![name@] + q);
                assert(p[0] == name@);
                assert(!ignored(patterns, p[0]));
                assert forall|k: int| 0 <= k < q.len() implies !ignored(patterns, #[trigger] q[k]) by {
                    assert(q[k] == p[k + 1]);
                }
                assert(path_kept(patterns, q));
                lemma_joined_step(source, name@, q);
                lemma_joined_step(target, name@, q);
                let a = (1int, joined(s2, q), joined(t2, q));
                assert(inner.contains(a));
                let m = choose|m: int| 0 <= m < inner.len() && inner[m] == a;
                assert(plan[m + 1] == inner[m]);
            }
        },
    }
}

proof fn lemma_entries_copies(source: Seq<char>, target: Seq<char>, entries: Seq<TreeEntry>, patterns: Seq<Seq<char>>)
    ensures
        forall|j: int|
            0 <= j < entries_files(entries).len() && path_kept(patterns, #[trigger] entries_files(entries)[j])
                ==> entries_plan(source, target, entries, patterns).contains(
                (1int, joined(source, entries_files(entries)[j]), joined(target, entries_files(entries)[j])),
            ),
    decreases entries, 0int,
{
    if entries.len() > 0 {
        assert(decreases_to!(entries => entries[entries.len() - 1]));
        lemma_entries_copies(source, target, entries.drop_last(), patterns);
        lemma_entry_copies(source, target, entries.last(), patterns);
        let fa = entries_files(entries.drop_last());
        let fb = entry_files(entries.last());
        let a = entries_plan(source, target, entries.drop_last(), patterns);
        let b = entry_plan(source, target, entries.last(), patterns);
        let files = entries_files(entries);
        let plan = entries_plan(source, target, entries, patterns);
        assert(files == fa + fb);
        assert(plan == a + b);
        assert forall|j: int| 0 <= j < files.len() && path_kept(patterns, #[trigger] files[j]) implies plan.contains(
            (1int, joined(source, files[j]), joined(target, files[j])),
        ) by {
            let x = (1int, joined(source, files[j]), joined(target, files[j]));
            if j < fa.len() {
                assert(files[j] == fa[j]);
                assert(a.contains(x));
                let m = choose|m: int| 0 <= m < a.len() && a[m] == x;
                assert(plan[m] == a[m]);
            } else {
                assert(files[j] == fb[j - fa.len()]);
                assert(b.contains(x));
                let m = choose|m: int| 0 <= m < b.len() && b[m] == x;
                assert(plan[a.len() + m] == b[m]);
            }
        }
    }
}

/// Copying a whole tree copies every file none of whose path components
/// is ignored, from its place under the source to the same place under the
/// target.
pub proof fn law_tree_copy_copies_kept_files(
    source: Seq<char>,
    target: Seq<char>,
    entries: Seq<TreeEntry>,
    patterns: Seq<Seq<char>>,
)
    ensures
        forall|j: int|
            0 <= j < entries_files(entries).len() && path_kept(patterns, #[trigger] entries_files(entries)[j])
                ==> entries_plan(source, target, entries, patterns).contains(
                (1int, joined(source, entries_files(entries)[j]), joined(target, entries_files(entries)[j])),
            ),
{
    lemma_entries_copies(source, target, entries, patterns);
}

/// The actions that copy a whole tree listed ahead: create `target`, then
/// each entry as `entries_plan` says.
pub fn copy_tree_plan(source: &str, target: &str, entries: &Vec<TreeEntry>, patterns: &Vec<String>) -> (r: Vec<CopyAction>)
    requires
        ignore_set_ok(text_views(patterns@)),
    ensures
        r@.map_values(|a: CopyAction| action_view(a)) == seq![(0int, target@, Seq::<char>::empty())] + entries_plan(
            source@,
            target@,
            entries@,
            text_views(patterns@),
        ),
{
    let mut out: Vec<CopyAction> = Vec::new();
    out.push(CopyAction::CreateDir(copy_str(target)));
    assert(out@.map_values(|a: CopyAction| action_view(a)) =~= seq![(0int, target@, Seq::<char>::empty())]);
    push_entries_plan(&mut out, source, target, entries, patterns);
    assert(seq![(0int, target@, Seq::<char>::empty())] + entries_plan(source@, target@, entries@, text_views(patterns@))
        =~= seq![(0int, target@, Seq::<char>::empty())] + entries_plan(source@, target@, entries@, text_views(patterns@)));
    out
}

fn push_entries_plan(out: &mut Vec<CopyAction>, source: &str, target: &str, entries: &Vec<TreeEntry>, patterns: &Vec<String>)
    requires
        ignore_set_ok(text_views(patterns@)),
    ensures
        final(out)@.map_values(|a: CopyAction| action_view(a)) == old(out)@.map_values(|a: CopyAction| action_view(a))
            + entries_plan(source@, target@, entries@, text_views(patterns@)),
    decreases entries@, 0int,
{
    let ghost ps = text_views(patterns@);
    let ghost start = out@.map_values(|a: CopyAction| action_view(a));
    let mut i: usize = 0;
    assert(entries@.subrange(0, 0) =~= Seq::<TreeEntry>::empty());
    assert(start + entries_plan(source@, target@, entries@.subrange(0, 0), ps) =~= start);
    while i < entries.len()
        invariant
            0 <= i <= entries@.len(),
            ps == text_views(patterns@),
            ignore_set_ok(ps),
            out@.map_values(|a: CopyAction| action_view(a)) == start + entries_plan(
                source@,
                target@,
                entries@.subrange(0, i as int),
                ps,
            ),
        decreases entries@.len() - i,
    {
        let ghost next = entries@.subrange(0, i + 1);
        assert(next.drop_last() =~= entries@.subrange(0, i as int));
        assert(next.last() == entries@[i as int]);
        assert(decreases_to!(entries@ => entries@[i as int]));
        push_entry_plan(out, source, target, &entries[i], patterns);
        assert(start + entries_plan(source@, target@, next, ps) =~= start + entries_plan(
            source@,
            target@,
            entries@.subrange(0, i as int),
            ps,
        ) + entry_plan(source@, target@, entries@[i as int], ps));
        i = i + 1;
    }
    assert(entries@.subrange(0, entries@.len() as int) =~= entries@);
}

fn push_entry_plan(out: &mut Vec<CopyAction>, source: &str, target: &str, e: &TreeEntry, patterns: &Vec<String>)
    requires
        ignore_set_ok(text_views(patterns@)),
    ensures
        final(out)@.map_values(|a: CopyAction| action_view(a)) == old(out)@.map_values(|a: CopyAction| action_view(a))
            + entry_plan(source@, target@, *e, text_views(patterns@)),
    decreases *e, 1int,
{
    let ghost before = out@.map_values(|a: CopyAction| action_view(a));
    let name = match e {
        TreeEntry::File { name } => name,
        TreeEntry::Dir { name, .. } => name,
    };
    if is_ignored(patterns, name.as_str()) {
        assert(before + Seq::<(int, Seq<char>, Seq<char>)>::empty() =~= before);
        return;
    }
    match e {
        TreeEntry::File { name } => {
            let from = join(source, name.as_str());
            let to = join(target, name.as_str());
            out.push(CopyAction::CopyFile { from, to });
            assert(out@.map_values(|a: CopyAction| action_view(a)) =~= before + seq![
                (1int, join_spec(source@, name@), join_spec(target@, name@)),
            ]);
        },
        TreeEntry::Dir { name, entries } => {
            let from = join(source, name.as_str());
            let to = join(target, name.as_str());
            out.push(CopyAction::CreateDir(copy_str(to.as_str())));
            let ghost mid = out@.map_values(|a: CopyAction| action_view(a));
            assert(mid =~= before + seq![(0int, join_spec(target@, name@), Seq::<char>::empty())]);
            assert(decreases_to!(*e => *entries));
            push_entries_plan(out, from.as_str(), to.as_str(), entries, patterns);
            assert(out@.map_values(|a: CopyAction| action_view(a)) =~= before + (seq![
                (0int, join_spec(target@, name@), Seq::<char>::empty()),
            ] + entries_plan(join_spec(source@, name@), join_spec(target@, name@), entries@, text_views(patterns@))));
        },
    }
}

} // verus!
