//! Where a project's files live: the workspace root, the app inside it,
//! the Anybuild file, and the `.anybuild` state directory.
//!
//! Paths are Unix paths held as strings. Resolving them against the file
//! system (canonicalizing, checking existence) is done by the caller, which
//! hands the results to the functions here.
use vstd::prelude::*;
use crate::text::{
    char_pred, chars_of, has_prefix, is_alnum, is_alnum_char, push_str,
    string_of, string_of_range, trim_end_by, trim_start_by,
};

verus! {

// ---------------------------------------------------------------------------
// Joining

/// `PathBuf::join`: an absolute segment replaces the base; otherwise the
/// two are joined with one separator.
pub open spec fn join_spec(base: Seq<char>, seg: Seq<char>) -> Seq<char> {
    if seg.len() > 0 && seg[0] == '/' {
        seg
    } else if base.len() == 0 {
        seg
    } else if base.last() == '/' {
        base + seg
    } else {
        base + seq!['/'] + seg
    }
}

/// `base.join(seg)`.
pub fn join(base: &str, seg: &str) -> (r: String)
    ensures
        r@ == join_spec(base@, seg@),
{
    let b = chars_of(base);
    let s = chars_of(seg);
    if s.len() > 0 && s[0] == '/' {
        return string_of(&s);
    }
    if b.len() == 0 {
        return string_of(&s);
    }
    let mut r = string_of(&b);
    if b[b.len() - 1] != '/' {
        crate::text::push_char(&mut r, '/');
    }
    push_str(&mut r, seg);
    r
}

/// `pathlib`'s `/`: an empty part leaves the base, an absolute part
/// replaces it.
pub open spec fn pythonic_join_spec(base: Seq<char>, part: Seq<char>) -> Seq<char> {
    if part.len() == 0 {
        base
    } else {
        join_spec(base, part)
    }
}

/// Join like `pathlib.Path.__truediv__`.
pub fn pythonic_join(base: &str, part: &str) -> (r: String)
    ensures
        r@ == pythonic_join_spec(base@, part@),
{
    if part.unicode_len() == 0 {
        return crate::text::copy_str(base);
    }
    join(base, part)
}

// ---------------------------------------------------------------------------
// Slugs

/// The characters a slug keeps: `[A-Za-z0-9._-]`.
pub open spec fn slug_char(c: char) -> bool {
    is_alnum(c) || c == '.' || c == '_' || c == '-'
}

/// Every character of `s` with `from` replaced by `to`.
pub open spec fn replace_char(s: Seq<char>, from: char, to: char) -> Seq<char> {
    s.map_values(|c: char| if c == from { to } else { c })
}

/// Each run of characters outside `[A-Za-z0-9._-]` replaced by `r`;
/// `in_run` says whether such a run was already open.
pub open spec fn replace_runs(s: Seq<char>, r: Seq<char>, in_run: bool) -> Seq<char>
    decreases s.len(),
{
    if s.len() == 0 {
        seq![]
    } else if slug_char(s[0]) {
        seq![s[0]] + replace_runs(s.drop_first(), r, false)
    } else if !in_run {
        r + replace_runs(s.drop_first(), r, true)
    } else {
        replace_runs(s.drop_first(), r, true)
    }
}

/// `s` without leading and trailing `c`.
pub open spec fn trim_char(s: Seq<char>, c: char) -> Seq<char> {
    trim_end_by(trim_start_by(s, char_pred(c)), char_pred(c))
}

/// The slug of an app subdirectory, used in file names.
pub open spec fn slug_spec(subdir: Seq<char>) -> Seq<char> {
    let t = trim_char(replace_runs(replace_char(subdir, '/', '-'), seq!['-'], false), '-');
    if t.len() == 0 {
        "app"@
    } else {
        t
    }
}

/// The pattern `[^A-Za-z0-9._-]+`, replaced run by run.
pub struct SlugRe;

/// The slug pattern.
pub fn regex_lite(pattern: &str) -> (r: SlugRe) {
    SlugRe
}

impl SlugRe {
    /// Replace each run of characters outside `[A-Za-z0-9._-]` by
    /// `replacement`.
    pub fn replace_all(&self, text: &str, replacement: &str) -> (r: String)
        ensures
            r@ == replace_runs(text@, replacement@, false),
    {
        let chars = chars_of(text);
        let mut out = String::new();
        let mut in_run = false;
        let mut i: usize = 0;
        assert(chars@.skip(0) =~= chars@);
        while i < chars.len()
            invariant
                0 <= i <= chars@.len(),
                chars@ == text@,
                out@ + replace_runs(chars@.skip(i as int), replacement@, in_run) == replace_runs(
                    text@,
                    replacement@,
                    false,
                ),
            decreases chars@.len() - i,
        {
            let ch = chars[i];
            let ghost rest = chars@.skip(i as int);
            assert(rest.drop_first() =~= chars@.skip(i + 1));
            assert(rest[0] == ch);
            let ghost before = out@;
            let keep = is_alnum_char(ch) || ch == '.' || ch == '_' || ch == '-';
            if keep {
                crate::text::push_char(&mut out, ch);
                in_run = false;
                assert(out@ + replace_runs(chars@.skip(i + 1), replacement@, false) =~= before + (
                seq![ch] + replace_runs(rest.drop_first(), replacement@, false)));
            } else if !in_run {
                push_str(&mut out, replacement);
                in_run = true;
                assert(out@ + replace_runs(chars@.skip(i + 1), replacement@, true) =~= before + (
                replacement@ + replace_runs(rest.drop_first(), replacement@, true)));
            }
            i = i + 1;
        }
        assert(chars@.skip(i as int) =~= Seq::<char>::empty());
        assert(out@ + Seq::<char>::empty() =~= out@);
        out
    }
}

/// `s` with every `from` replaced by `to`.
pub(crate) fn replace_char_exec(s: &str, from: char, to: char) -> (r: String)
    ensures
        r@ == replace_char(s@, from, to),
{
    let chars = chars_of(s);
    let mut out: Vec<char> = Vec::new();
    let mut i: usize = 0;
    while i < chars.len()
        invariant
            0 <= i <= chars@.len(),
            chars@ == s@,
            out@ == replace_char(chars@.subrange(0, i as int), from, to),
        decreases chars@.len() - i,
    {
        let c = chars[i];
        out.push(if c == from { to } else { c });
        assert(replace_char(chars@.subrange(0, i + 1), from, to) =~= replace_char(
            chars@.subrange(0, i as int),
            from,
            to,
        ).push(if c == from { to } else { c }));
        i = i + 1;
    }
    assert(chars@.subrange(0, chars@.len() as int) =~= chars@);
    string_of(&out)
}

/// `s.trim_matches(c)`.
fn trim_char_exec(s: &String, c: char) -> (r: String)
    ensures
        r@ == trim_char(s@, c),
{
    let v = chars_of(s.as_str());
    let mut a: usize = 0;
    assert(v@.subrange(0, v@.len() as int) =~= v@);
    while a < v.len() && v[a] == c
        invariant
            0 <= a <= v@.len(),
            trim_start_by(v@, char_pred(c)) == trim_start_by(v@.subrange(a as int, v@.len() as int), char_pred(c)),
        decreases v@.len() - a,
    {
        let ghost sub = v@.subrange(a as int, v@.len() as int);
        assert(sub.drop_first() =~= v@.subrange(a + 1, v@.len() as int));
        a = a + 1;
    }
    let ghost start = v@.subrange(a as int, v@.len() as int);
    assert(trim_start_by(start, char_pred(c)) == start);
    let mut b: usize = v.len();
    while b > a && v[b - 1] == c
        invariant
            a <= b <= v@.len(),
            trim_end_by(start, char_pred(c)) == trim_end_by(v@.subrange(a as int, b as int), char_pred(c)),
        decreases b - a,
    {
        let ghost sub = v@.subrange(a as int, b as int);
        assert(sub.drop_last() =~= v@.subrange(a as int, b - 1));
        b = b - 1;
    }
    string_of_range(&v, a, b)
}

/// The slug of an app subdirectory: `/` and runs of other characters
/// outside `[A-Za-z0-9._-]` become `-`, outer dashes are dropped, and an
/// empty result becomes `app`.
pub fn anybuild_subdir_slug(subdir: &str) -> (r: String)
    ensures
        r@ == slug_spec(subdir@),
{
    let replaced = replace_char_exec(subdir, '/', '-');
    let re = regex_lite("[^A-Za-z0-9._-]+");
    let dash = "-";
    let slug = re.replace_all(replaced.as_str(), dash);
    proof {
        reveal_strlit("-");
        assert(dash@ =~= seq!['-']);
    }
    let trimmed = trim_char_exec(&slug, '-');
    if trimmed.unicode_len() == 0 {
        "app".to_owned()
    } else {
        trimmed
    }
}

proof fn lemma_replace_runs_chars(s: Seq<char>, in_run: bool)
    ensures
        forall|i: int| 0 <= i < replace_runs(s, seq!['-'], in_run).len() ==> slug_char(
            #[trigger] replace_runs(s, seq!['-'], in_run)[i],
        ),
    decreases s.len(),
{
    if s.len() > 0 {
        lemma_replace_runs_chars(s.drop_first(), false);
        lemma_replace_runs_chars(s.drop_first(), true);
        let r = replace_runs(s, seq!['-'], in_run);
        assert forall|i: int| 0 <= i < r.len() implies slug_char(#[trigger] r[i]) by {
            if slug_char(s[0]) {
                if i > 0 {
                    assert(r[i] == replace_runs(s.drop_first(), seq!['-'], false)[i - 1]);
                }
            } else if !in_run {
                if i > 0 {
                    assert(r[i] == replace_runs(s.drop_first(), seq!['-'], true)[i - 1]);
                }
            } else {
                assert(r[i] == replace_runs(s.drop_first(), seq!['-'], true)[i]);
            }
        }
    }
}

proof fn lemma_trim_start_suffix(s: Seq<char>, c: char)
    ensures
        exists|k: int| 0 <= k <= s.len() && trim_start_by(s, char_pred(c)) == s.subrange(k, s.len() as int),
        trim_start_by(s, char_pred(c)).len() > 0 ==> trim_start_by(s, char_pred(c))[0] != c,
    decreases s.len(),
{
    if s.len() > 0 && char_pred(c)(s[0]) {
        lemma_trim_start_suffix(s.drop_first(), c);
        let k = choose|k: int| 0 <= k <= s.drop_first().len() && trim_start_by(s.drop_first(), char_pred(c))
            == s.drop_first().subrange(k, s.drop_first().len() as int);
        assert(s.drop_first().subrange(k, s.drop_first().len() as int) =~= s.subrange(k + 1, s.len() as int));
    } else {
        assert(s.subrange(0, s.len() as int) =~= s);
    }
}

proof fn lemma_trim_end_prefix(s: Seq<char>, c: char)
    ensures
        exists|k: int| 0 <= k <= s.len() && trim_end_by(s, char_pred(c)) == s.subrange(0, k),
        trim_end_by(s, char_pred(c)).len() > 0 ==> trim_end_by(s, char_pred(c)).last() != c,
    decreases s.len(),
{
    if s.len() > 0 && char_pred(c)(s.last()) {
        lemma_trim_end_prefix(s.drop_last(), c);
        let k = choose|k: int| 0 <= k <= s.drop_last().len() && trim_end_by(s.drop_last(), char_pred(c))
            == s.drop_last().subrange(0, k);
        assert(s.drop_last().subrange(0, k) =~= s.subrange(0, k));
    } else {
        assert(s.subrange(0, s.len() as int) =~= s);
    }
}

proof fn lemma_replace_runs_keeps_slug_chars(s: Seq<char>)
    requires
        forall|i: int| 0 <= i < s.len() ==> slug_char(#[trigger] s[i]),
    ensures
        replace_runs(s, seq!['-'], false) == s,
    decreases s.len(),
{
    if s.len() > 0 {
        assert forall|i: int| 0 <= i < s.drop_first().len() implies slug_char(#[trigger] s.drop_first()[i]) by {
            assert(s.drop_first()[i] == s[i + 1]);
        }
        lemma_replace_runs_keeps_slug_chars(s.drop_first());
        assert(seq![s[0]] + s.drop_first() =~= s);
    }
}

/// The slug of a slug is itself.
pub proof fn law_slug_is_idempotent(subdir: Seq<char>)
    ensures
        slug_spec(slug_spec(subdir)) == slug_spec(subdir),
{
    law_slug_is_a_safe_name(subdir);
    let t = slug_spec(subdir);
    assert(replace_char(t, '/', '-') =~= t) by {
        assert forall|i: int| 0 <= i < t.len() implies replace_char(t, '/', '-')[i] == t[i] by {
            assert(slug_char(t[i]));
        }
    }
    lemma_replace_runs_keeps_slug_chars(t);
    assert(trim_start_by(t, char_pred('-')) == t);
    assert(trim_end_by(t, char_pred('-')) == t);
}

/// A slug is never empty, holds only `[A-Za-z0-9._-]`, and neither starts
/// nor ends with `-`.
pub proof fn law_slug_is_a_safe_name(subdir: Seq<char>)
    ensures
        slug_spec(subdir).len() > 0,
        forall|i: int| 0 <= i < slug_spec(subdir).len() ==> slug_char(#[trigger] slug_spec(subdir)[i]),
        slug_spec(subdir)[0] != '-',
        slug_spec(subdir).last() != '-',
{
    let runs = replace_runs(replace_char(subdir, '/', '-'), seq!['-'], false);
    lemma_replace_runs_chars(replace_char(subdir, '/', '-'), false);
    let s1 = trim_start_by(runs, char_pred('-'));
    lemma_trim_start_suffix(runs, '-');
    let k1 = choose|k: int| 0 <= k <= runs.len() && s1 == runs.subrange(k, runs.len() as int);
    let t = trim_end_by(s1, char_pred('-'));
    lemma_trim_end_prefix(s1, '-');
    let k2 = choose|k: int| 0 <= k <= s1.len() && t == s1.subrange(0, k);
    reveal_strlit("app");
    if t.len() > 0 {
        assert forall|i: int| 0 <= i < t.len() implies slug_char(#[trigger] t[i]) by {
            assert(t[i] == runs[k1 + i]);
        }
        lemma_trim_start_suffix(t, '-');
        assert(t[0] == s1[0]);
    }
}

// ---------------------------------------------------------------------------
// Project paths

/// The resolved locations of a project.
#[derive(Debug, Clone, PartialEq, Eq)]
pub struct ProjectPaths {
    pub workspace_root: String,
    pub app_path: String,
    pub subdir: Option<String>,
}

/// `Anybuild`, or `Anybuild.<slug>` for an app in a subdirectory.
pub open spec fn default_anybuild_path_spec(paths: ProjectPaths) -> Seq<char> {
    match paths.subdir {
        None => join_spec(paths.workspace_root@, "Anybuild"@),
        Some(subdir) => join_spec(paths.workspace_root@, "Anybuild."@ + slug_spec(subdir@)),
    }
}

/// Where the Anybuild file of a project is expected.
pub fn default_anybuild_path(paths: &ProjectPaths) -> (r: String)
    ensures
        r@ == default_anybuild_path_spec(*paths),
{
    match &paths.subdir {
        None => join(paths.workspace_root.as_str(), "Anybuild"),
        Some(subdir) => {
            let mut name = "Anybuild.".to_owned();
            let slug = anybuild_subdir_slug(subdir.as_str());
            push_str(&mut name, slug.as_str());
            join(paths.workspace_root.as_str(), name.as_str())
        },
    }
}

/// `Shipit`, or `Shipit.<slug>`: the file's name before it was renamed.
pub open spec fn legacy_anybuild_path_spec(paths: ProjectPaths) -> Seq<char> {
    match paths.subdir {
        None => join_spec(paths.workspace_root@, "Shipit"@),
        Some(subdir) => join_spec(paths.workspace_root@, "Shipit."@ + slug_spec(subdir@)),
    }
}

/// Where an Anybuild file of an older release may still be.
pub fn legacy_anybuild_path(paths: &ProjectPaths) -> (r: String)
    ensures
        r@ == legacy_anybuild_path_spec(*paths),
{
    match &paths.subdir {
        None => join(paths.workspace_root.as_str(), "Shipit"),
        Some(subdir) => {
            let mut name = "Shipit.".to_owned();
            let slug = anybuild_subdir_slug(subdir.as_str());
            push_str(&mut name, slug.as_str());
            join(paths.workspace_root.as_str(), name.as_str())
        },
    }
}

/// `.anybuild`, or `.anybuild/<slug>` for an app in a subdirectory.
pub open spec fn default_anybuild_dir_spec(paths: ProjectPaths) -> Seq<char> {
    let dir = join_spec(paths.workspace_root@, ".anybuild"@);
    match paths.subdir {
        None => dir,
        Some(subdir) => join_spec(dir, slug_spec(subdir@)),
    }
}

/// The state directory of a project.
pub fn default_anybuild_dir(paths: &ProjectPaths) -> (r: String)
    ensures
        r@ == default_anybuild_dir_spec(*paths),
{
    let dir = join(paths.workspace_root.as_str(), ".anybuild");
    match &paths.subdir {
        None => dir,
        Some(subdir) => {
            let slug = anybuild_subdir_slug(subdir.as_str());
            join(dir.as_str(), slug.as_str())
        },
    }
}

/// Why project paths could not be resolved.
#[derive(Debug, Clone, PartialEq, Eq)]
pub enum PathError {
    ProjectMissing(String),
    SubdirAbsolute,
    SubdirMissing(String),
    SubdirOutside,
    SubdirNotDirectory(String),
    AnybuildMissing { path: String, command: String },
}

/// The message of a path error.
pub open spec fn path_error_text(e: PathError) -> Seq<char> {
    match e {
        PathError::ProjectMissing(p) => "The path "@ + p@ + " does not exist"@,
        PathError::SubdirAbsolute => "--subdir must be relative to the project path"@,
        PathError::SubdirMissing(s) => "--subdir does not exist: "@ + s@,
        PathError::SubdirOutside => "--subdir must stay inside the project path"@,
        PathError::SubdirNotDirectory(s) => "--subdir is not a directory: "@ + s@,
        PathError::AnybuildMissing { path, command } => "Anybuild file not found at "@ + path@
            + ". Run `"@ + command@ + "` to create it."@,
    }
}

impl PathError {
    /// The message of the error.
    pub fn message(&self) -> (r: String)
        ensures
            r@ == path_error_text(*self),
    {
        match self {
            PathError::ProjectMissing(p) => {
                let mut r = "The path ".to_owned();
                push_str(&mut r, p.as_str());
                push_str(&mut r, " does not exist");
                r
            },
            PathError::SubdirAbsolute => "--subdir must be relative to the project path".to_owned(),
            PathError::SubdirMissing(s) => {
                let mut r = "--subdir does not exist: ".to_owned();
                push_str(&mut r, s.as_str());
                r
            },
            PathError::SubdirOutside => "--subdir must stay inside the project path".to_owned(),
            PathError::SubdirNotDirectory(s) => {
                let mut r = "--subdir is not a directory: ".to_owned();
                push_str(&mut r, s.as_str());
                r
            },
            PathError::AnybuildMissing { path, command } => {
                let mut r = "Anybuild file not found at ".to_owned();
                push_str(&mut r, path.as_str());
                push_str(&mut r, ". Run `");
                push_str(&mut r, command.as_str());
                push_str(&mut r, "` to create it.");
                r
            },
        }
    }
}

/// The app subdirectory that `--subdir` names: relative, without outer
/// slashes; none for the workspace root itself.
pub open spec fn subdir_text_spec(subdir: Seq<char>) -> Result<Option<Seq<char>>, PathError> {
    if subdir.len() > 0 && subdir[0] == '/' {
        Err(PathError::SubdirAbsolute)
    } else {
        let t = trim_char(subdir, '/');
        if t.len() == 0 || t == seq!['.'] {
            Ok(None)
        } else {
            Ok(Some(t))
        }
    }
}

/// Read `--subdir`: the subdirectory to resolve, if any.
pub fn subdir_text(subdir: &str) -> (r: Result<Option<String>, PathError>)
    ensures
        match subdir_text_spec(subdir@) {
            Err(e) => r == Err::<Option<String>, PathError>(e),
            Ok(None) => r == Ok::<Option<String>, PathError>(None),
            Ok(Some(t)) => r matches Ok(Some(s)) && s@ == t,
        },
{
    let given = chars_of(subdir);
    if given.len() > 0 && given[0] == '/' {
        return Err(PathError::SubdirAbsolute);
    }
    let text = trim_char_exec(&subdir.to_owned(), '/');
    let v = chars_of(text.as_str());
    if v.len() == 0 || (v.len() == 1 && v[0] == '.') {
        assert(v.len() == 1 ==> v@ =~= seq!['.']);
        return Ok(None);
    }
    assert(v@ != seq!['.']);
    Ok(Some(text))
}

/// `app.strip_prefix(root)` for canonical paths, compared component-wise.
pub open spec fn strip_root_spec(app: Seq<char>, root: Seq<char>) -> Option<Seq<char>> {
    if app == root {
        Some(seq![])
    } else if root.len() > 0 && root.last() == '/' && has_prefix(app, root) {
        Some(app.skip(root.len() as int))
    } else if has_prefix(app, root + seq!['/']) {
        Some(app.skip(root.len() as int + 1))
    } else {
        None
    }
}

pub(crate) fn strip_root(app: &str, root: &str) -> (r: Option<String>)
    ensures
        match strip_root_spec(app@, root@) {
            None => r is None,
            Some(t) => r matches Some(s) && s@ == t,
        },
{
    let a = chars_of(app);
    let b = chars_of(root);
    if crate::text::eq_chars(&a, &b) {
        return Some(String::new());
    }
    if b.len() > 0 && b[b.len() - 1] == '/' && crate::text::starts_with_chars(&a, &b) {
        return Some(string_of_range(&a, b.len(), a.len()));
    }
    let mut with_sep = b.clone();
    with_sep.push('/');
    assert(with_sep@ =~= b@ + seq!['/']);
    if crate::text::starts_with_chars(&a, &with_sep) {
        assert(b.len() + 1 <= a.len());
        return Some(string_of_range(&a, b.len() + 1, a.len()));
    }
    None
}

/// How the paths of a project resolve, given what the file system said:
/// the canonical workspace root, and for a subdirectory its canonical path
/// (none when it does not exist) and whether it is a directory.
pub open spec fn project_paths_spec(
    root: Seq<char>,
    subdir: Option<Seq<char>>,
    app: Option<Seq<char>>,
    app_is_dir: bool,
) -> Result<(Seq<char>, Seq<char>, Option<Seq<char>>), PathError> {
    match subdir {
        None => Ok((root, root, None)),
        Some(s) => match subdir_text_spec(s) {
            Err(e) => Err(e),
            Ok(None) => Ok((root, root, None)),
            Ok(Some(t)) => match app {
                None => Err(PathError::SubdirMissing(arbitrary())),
                Some(a) => match strip_root_spec(a, root) {
                    None => Err(PathError::SubdirOutside),
                    Some(rel) => if !app_is_dir {
                        Err(PathError::SubdirNotDirectory(arbitrary()))
                    } else {
                        Ok((root, a, Some(rel)))
                    },
                },
            },
        },
    }
}

/// Resolve the paths of a project from the file system's answers; errors
/// name the subdirectory as given after trimming its slashes.
pub fn resolve_project_paths(
    workspace_root: &str,
    subdir: Option<&str>,
    app_path: Option<&str>,
    app_is_dir: bool,
) -> (r: Result<ProjectPaths, PathError>)
    ensures
        match project_paths_spec(workspace_root@, match subdir {
            Some(s) => Some(s@),
            None => None,
        }, match app_path {
            Some(a) => Some(a@),
            None => None,
        }, app_is_dir) {
            Ok((root, app, sub)) => r matches Ok(p) && p.workspace_root@ == root && p.app_path@
                == app && match sub {
                None => p.subdir is None,
                Some(s) => p.subdir matches Some(ps) && ps@ == s,
            },
            Err(PathError::SubdirMissing(_)) => r matches Err(PathError::SubdirMissing(t)) && Some(
                Some(t@),
            ) == (match subdir {
                Some(s) => match subdir_text_spec(s@) {
                    Ok(o) => Some(o),
                    Err(_) => None,
                },
                None => None,
            }),
            Err(PathError::SubdirNotDirectory(_)) => r matches Err(PathError::SubdirNotDirectory(t))
                && Some(Some(t@)) == (match subdir {
                Some(s) => match subdir_text_spec(s@) {
                    Ok(o) => Some(o),
                    Err(_) => None,
                },
                None => None,
            }),
            Err(e) => r == Err::<ProjectPaths, PathError>(e),
        },
{
    let root = workspace_root.to_owned();
    let Some(subdir) = subdir else {
        return Ok(ProjectPaths { workspace_root: root.clone(), app_path: root, subdir: None });
    };
    let text = match subdir_text(subdir) {
        Err(e) => {
            return Err(e);
        },
        Ok(None) => {
            return Ok(ProjectPaths { workspace_root: root.clone(), app_path: root, subdir: None });
        },
        Ok(Some(t)) => t,
    };
    let Some(app) = app_path else {
        return Err(PathError::SubdirMissing(text));
    };
    let normalized = match strip_root(app, workspace_root) {
        None => {
            return Err(PathError::SubdirOutside);
        },
        Some(n) => n,
    };
    if !app_is_dir {
        return Err(PathError::SubdirNotDirectory(text));
    }
    Ok(ProjectPaths { workspace_root: root, app_path: app.to_owned(), subdir: Some(normalized) })
}

/// The command that creates a missing Anybuild file.
pub open spec fn generate_command_spec(paths: ProjectPaths) -> Seq<char> {
    match paths.subdir {
        None => "anybuild generate "@ + paths.workspace_root@,
        Some(s) => "anybuild generate "@ + paths.workspace_root@ + " --subdir="@ + s@,
    }
}

/// Where the Anybuild file is, given whether it was found there: the
/// default place (after any legacy file was renamed to it) or the path
/// named by `--anybuild-path`.
pub fn get_anybuild_path(paths: &ProjectPaths, anybuild_path: Option<&str>, found: bool) -> (r: Result<
    String,
    PathError,
>)
    ensures
        found ==> match anybuild_path {
            None => r matches Ok(p) && p@ == default_anybuild_path_spec(*paths),
            Some(given) => r matches Ok(p) && p@ == given@,
        },
        !found ==> match anybuild_path {
            None => r matches Err(PathError::AnybuildMissing { path, command }) && path@
                == default_anybuild_path_spec(*paths) && command@ == generate_command_spec(*paths),
            Some(given) => r matches Err(PathError::AnybuildMissing { path, command }) && path@
                == given@ && command@ == "anybuild generate "@ + paths.workspace_root@ + " -o "@
                + given@,
        },
{
    match anybuild_path {
        None => {
            let default = default_anybuild_path(paths);
            if !found {
                let mut command = "anybuild generate ".to_owned();
                push_str(&mut command, paths.workspace_root.as_str());
                if let Some(subdir) = &paths.subdir {
                    push_str(&mut command, " --subdir=");
                    push_str(&mut command, subdir.as_str());
                }
                return Err(PathError::AnybuildMissing { path: default, command });
            }
            Ok(default)
        },
        Some(path) => {
            if !found {
                let mut command = "anybuild generate ".to_owned();
                push_str(&mut command, paths.workspace_root.as_str());
                push_str(&mut command, " -o ");
                push_str(&mut command, path);
                return Err(PathError::AnybuildMissing { path: path.to_owned(), command });
            }
            Ok(path.to_owned())
        },
    }
}

// ---------------------------------------------------------------------------
// Volumes

/// The state directory: the given one, else `<src>/.anybuild`.
pub open spec fn effective_anybuild_dir_spec(src_dir: Seq<char>, anybuild_dir: Option<Seq<char>>) -> Seq<char> {
    match anybuild_dir {
        Some(d) => d,
        None => join_spec(src_dir, ".anybuild"@),
    }
}

fn effective_anybuild_dir(src_dir: &str, anybuild_dir: Option<&str>) -> (r: String)
    ensures
        r@ == effective_anybuild_dir_spec(src_dir@, match anybuild_dir {
            Some(d) => Some(d@),
            None => None,
        }),
{
    match anybuild_dir {
        Some(d) => d.to_owned(),
        None => join(src_dir, ".anybuild"),
    }
}

/// Where volume contents are kept: `volumes` in the state directory.
pub fn get_volumes_dir(src_dir: &str, anybuild_dir: Option<&str>) -> (r: String)
    ensures
        r@ == join_spec(effective_anybuild_dir_spec(src_dir@, match anybuild_dir {
            Some(d) => Some(d@),
            None => None,
        }), "volumes"@),
{
    let dir = effective_anybuild_dir(src_dir, anybuild_dir);
    join(dir.as_str(), "volumes")
}

/// Where the volume name to guest path mappings are persisted.
pub fn get_volume_mappings_path(src_dir: &str, anybuild_dir: Option<&str>) -> (r: String)
    ensures
        r@ == join_spec(effective_anybuild_dir_spec(src_dir@, match anybuild_dir {
            Some(d) => Some(d@),
            None => None,
        }), "volumes.json"@),
{
    let dir = effective_anybuild_dir(src_dir, anybuild_dir);
    join(dir.as_str(), "volumes.json")
}

/// Why a `NAME:/guest/path` volume mapping was rejected.
#[derive(Debug, Clone, PartialEq, Eq)]
pub enum VolumeSpecError {
    MissingColon(String),
    EmptyName(String),
    EmptyGuestPath(String),
    RelativeGuestPath(String),
}

/// The message of a volume mapping error.
pub open spec fn volume_error_text(e: VolumeSpecError) -> Seq<char> {
    match e {
        VolumeSpecError::MissingColon(s) => "Invalid volume mapping '"@ + s@ + "'. Expected NAME:/guest/path"@,
        VolumeSpecError::EmptyName(s) => "Invalid volume mapping '"@ + s@ + "'. Volume name cannot be empty"@,
        VolumeSpecError::EmptyGuestPath(s) => "Invalid volume mapping '"@ + s@ + "'. Guest path cannot be empty"@,
        VolumeSpecError::RelativeGuestPath(s) => "Invalid volume mapping '"@ + s@ + "'. Guest path must be absolute"@,
    }
}

impl VolumeSpecError {
    /// The message of the error.
    pub fn message(&self) -> (r: String)
        ensures
            r@ == volume_error_text(*self),
    {
        let (spec, tail) = match self {
            VolumeSpecError::MissingColon(s) => (s, "'. Expected NAME:/guest/path"),
            VolumeSpecError::EmptyName(s) => (s, "'. Volume name cannot be empty"),
            VolumeSpecError::EmptyGuestPath(s) => (s, "'. Guest path cannot be empty"),
            VolumeSpecError::RelativeGuestPath(s) => (s, "'. Guest path must be absolute"),
        };
        let mut r = "Invalid volume mapping '".to_owned();
        push_str(&mut r, spec.as_str());
        push_str(&mut r, tail);
        r
    }
}

/// What a volume mapping names, or why it is rejected: it is split at its
/// first colon, and needs a name and an absolute guest path.
pub open spec fn volume_spec_result(spec: String) -> Result<(Seq<char>, Seq<char>), VolumeSpecError> {
    match crate::text::first_occurrence(spec@, seq![':']) {
        None => Err(VolumeSpecError::MissingColon(spec)),
        Some(i) => {
            let name = spec@.subrange(0, i);
            let guest = spec@.subrange(i + 1, spec@.len() as int);
            if name.len() == 0 {
                Err(VolumeSpecError::EmptyName(spec))
            } else if guest.len() == 0 {
                Err(VolumeSpecError::EmptyGuestPath(spec))
            } else if guest[0] != '/' {
                Err(VolumeSpecError::RelativeGuestPath(spec))
            } else {
                Ok((name, guest))
            }
        },
    }
}

/// Parse a `NAME:/guest/path` volume mapping.
pub fn parse_volume_spec(spec: &String) -> (r: Result<(String, String), VolumeSpecError>)
    ensures
        match volume_spec_result(*spec) {
            Ok((name, guest)) => r matches Ok(v) && v.0@ == name && v.1@ == guest,
            Err(e) => r == Err::<(String, String), VolumeSpecError>(e),
        },
{
    let s = chars_of(spec.as_str());
    let mut colon: Vec<char> = Vec::new();
    colon.push(':');
    assert(colon@ =~= seq![':']);
    let i = match crate::text::find_from(&s, &colon, 0) {
        Some(i) => i,
        None => {
            assert(!crate::text::contains_seq(s@, colon@));
            return Err(VolumeSpecError::MissingColon(spec.clone()));
        },
    };
    proof {
        crate::text::lemma_first_occurrence(s@, colon@, i as int);
    }
    assert(crate::text::occurs_at(s@, colon@, i as int));
    assert(i < s.len());
    if i == 0 {
        return Err(VolumeSpecError::EmptyName(spec.clone()));
    }
    if i + 1 == s.len() {
        return Err(VolumeSpecError::EmptyGuestPath(spec.clone()));
    }
    if s[i + 1] != '/' {
        return Err(VolumeSpecError::RelativeGuestPath(spec.clone()));
    }
    Ok((string_of_range(&s, 0, i), string_of_range(&s, i + 1, s.len())))
}

// ---------------------------------------------------------------------------
// Normalizing

/// What `path_clean::clean` makes of a path.
pub uninterp spec fn cleaned_path(path: Seq<char>) -> Seq<char>;

/// `path_clean::clean`: the path normalized lexically, with `.` components
/// dropped, `..` folded into the component before it, and repeated
/// separators merged; the file system is not consulted.
#[verifier::external_body]
fn clean_path(path: &str) -> (r: String)
    ensures
        r@ == cleaned_path(path@),
{
    path_clean::clean(path).to_string_lossy().into_owned()
}

/// Why a path could not be made absolute.
#[derive(Debug, Clone, Copy, PartialEq, Eq, Structural)]
pub enum NormalizeError {
    EmptyPath,
}

/// Make a path absolute against the working directory `cwd`, then
/// normalize it lexically, without touching the file system.
pub fn normalize_absolute(path: &str, cwd: &str) -> (r: Result<String, NormalizeError>)
    ensures
        path@.len() == 0 <==> r is Err,
        r matches Ok(p) ==> p@ == cleaned_path(join_spec(cwd@, path@)),
{
    if path.unicode_len() == 0 {
        return Err(NormalizeError::EmptyPath);
    }
    let absolute = join(cwd, path);
    Ok(clean_path(absolute.as_str()))
}


// ---------------------------------------------------------------------------
// Parents

/// The path without trailing separators, keeping a lone root.
pub open spec fn strip_trailing_slashes(p: Seq<char>) -> Seq<char>
    decreases p.len(),
{
    if p.len() > 1 && p.last() == '/' {
        strip_trailing_slashes(p.drop_last())
    } else {
        p
    }
}

/// The index of the last separator, or -1.
pub open spec fn last_slash(p: Seq<char>) -> int
    decreases p.len(),
{
    if p.len() == 0 {
        -1
    } else if p.last() == '/' {
        p.len() - 1
    } else {
        last_slash(p.drop_last())
    }
}

/// `Path::parent`: the path without its last component, none for the
/// empty path and the root, and the empty path for a single relative
/// component. (A `.` segment is taken as an ordinary name here.)
pub open spec fn path_parent_spec(p: Seq<char>) -> Option<Seq<char>> {
    let t = strip_trailing_slashes(p);
    if t.len() == 0 || t == seq!['/'] {
        None
    } else {
        let k = last_slash(t);
        if k < 0 {
            Some(seq![])
        } else {
            let head = strip_trailing_slashes(t.subrange(0, k));
            if head.len() == 0 {
                Some(seq!['/'])
            } else {
                Some(head)
            }
        }
    }
}

/// The length of `v[..n]` without its trailing separators.
fn strip_trailing_len(v: &Vec<char>, n: usize) -> (r: usize)
    requires
        n <= v@.len(),
    ensures
        r <= n,
        v@.subrange(0, r as int) == strip_trailing_slashes(v@.subrange(0, n as int)),
{
    let mut m = n;
    while m > 1 && v[m - 1] == '/'
        invariant
            0 <= m <= n <= v@.len(),
            strip_trailing_slashes(v@.subrange(0, m as int)) == strip_trailing_slashes(
                v@.subrange(0, n as int),
            ),
        decreases m,
    {
        assert(v@.subrange(0, m as int).drop_last() =~= v@.subrange(0, m - 1));
        m = m - 1;
    }
    m
}

/// `Path::parent` on a string path.
pub fn path_parent(p: &str) -> (r: Option<String>)
    ensures
        r is None <==> path_parent_spec(p@) is None,
        r matches Some(q) ==> path_parent_spec(p@) == Some(q@),
{
    let v = chars_of(p);
    let n = v.len();
    assert(v@.subrange(0, n as int) =~= v@);
    let t = strip_trailing_len(&v, n);
    let ghost tv = v@.subrange(0, t as int);
    if t == 0 || (t == 1 && v[0] == '/') {
        assert(t == 1 ==> tv =~= seq!['/']);
        return None;
    }
    assert(tv != seq!['/']) by {
        if tv == seq!['/'] {
            assert(tv.len() == 1 && tv[0] == '/');
        }
    }
    let mut k = t;
    while k > 0 && v[k - 1] != '/'
        invariant
            0 <= k <= t <= v@.len(),
            tv == v@.subrange(0, t as int),
            last_slash(v@.subrange(0, k as int)) == last_slash(tv),
        decreases k,
    {
        assert(v@.subrange(0, k as int).drop_last() =~= v@.subrange(0, k - 1));
        k = k - 1;
    }
    if k == 0 {
        assert(last_slash(v@.subrange(0, 0)) == -1);
        return Some(String::new());
    }
    let slash = k - 1;
    assert(last_slash(tv) == slash);
    let h = strip_trailing_len(&v, slash);
    assert(tv.subrange(0, slash as int) =~= v@.subrange(0, slash as int));
    if h == 0 {
        let mut root = String::new();
        crate::text::push_char(&mut root, '/');
        assert(root@ =~= seq!['/']);
        return Some(root);
    }
    Some(string_of_range(&v, 0, h))
}

/// A resolved project's application path lies under its workspace root,
/// and a subdirectory found below it is a directory; a subdirectory that
/// trims to nothing or `.` selects the root itself.
pub proof fn law_app_path_lies_under_root(
    root: Seq<char>,
    subdir: Option<Seq<char>>,
    app: Option<Seq<char>>,
    app_is_dir: bool,
)
    ensures
        project_paths_spec(root, subdir, app, app_is_dir) matches Ok((r, a, sub)) ==> r == root && has_prefix(a, root)
            && (sub matches Some(rel) ==> app_is_dir && app == Some(a) && strip_root_spec(a, root) == Some(rel)),
        subdir is None ==> project_paths_spec(root, subdir, app, app_is_dir) == Ok::<
            (Seq<char>, Seq<char>, Option<Seq<char>>),
            PathError,
        >((root, root, None)),
        subdir matches Some(s) && subdir_text_spec(s) == Ok::<Option<Seq<char>>, PathError>(None)
            ==> project_paths_spec(root, subdir, app, app_is_dir) == Ok::<
            (Seq<char>, Seq<char>, Option<Seq<char>>),
            PathError,
        >((root, root, None)),
{
    assert(root.subrange(0, root.len() as int) =~= root);
    if let Some(a) = app {
        let with_sep = root + seq!['/'];
        if has_prefix(a, with_sep) {
            assert(a.subrange(0, root.len() as int) =~= with_sep.subrange(0, root.len() as int));
            assert(with_sep.subrange(0, root.len() as int) =~= root);
        }
    }
}

/// A subdirectory found below the root is reached by joining the root and
/// its relative path.
pub proof fn law_found_subdir_joins_root(
    root: Seq<char>,
    subdir: Option<Seq<char>>,
    app: Option<Seq<char>>,
    app_is_dir: bool,
)
    requires
        root.len() > 0,
    ensures
        match project_paths_spec(root, subdir, app, app_is_dir) {
            Ok((r, a, Some(rel))) => rel.len() > 0 && rel[0] != '/' ==> a == join_spec(root, rel),
            _ => true,
        },
{
    if let Ok((r, a, Some(rel))) = project_paths_spec(root, subdir, app, app_is_dir) {
        if rel.len() > 0 && rel[0] != '/' {
            assert(strip_root_spec(a, root) == Some(rel));
            if a == root {
            } else if root.last() == '/' && has_prefix(a, root) {
                assert(a.subrange(0, root.len() as int) == root);
                assert(rel == a.skip(root.len() as int));
                assert(root + a.skip(root.len() as int) =~= a);
            } else {
                assert(has_prefix(a, root + seq!['/']));
                assert(a.subrange(0, root.len() as int + 1) == root + seq!['/']);
                if root.last() == '/' {
                    assert(a.subrange(0, root.len() as int) =~= (root + seq!['/']).subrange(0, root.len() as int));
                    assert((root + seq!['/']).subrange(0, root.len() as int) =~= root);
                    assert(false);
                }
                assert(rel == a.skip(root.len() as int + 1));
                assert(root + seq!['/'] + a.skip(root.len() as int + 1) =~= a);
            }
        }
    }
}

/// The whole law of resolved project paths: the root is the given
/// (canonical) root; the app path lies under it; no subdirectory, or one
/// that trims to nothing or `.`, selects the root itself; and a found
/// subdirectory is a directory, reached by joining the root and its
/// relative path.
pub proof fn law_resolved_project_paths(
    root: Seq<char>,
    subdir: Option<Seq<char>>,
    app: Option<Seq<char>>,
    app_is_dir: bool,
)
    requires
        root.len() > 0,
    ensures
        match project_paths_spec(root, subdir, app, app_is_dir) {
            Ok((r, a, sub)) => {
                &&& r == root
                &&& has_prefix(a, root)
                &&& (subdir is None || (subdir matches Some(s) && subdir_text_spec(s) == Ok::<
                    Option<Seq<char>>,
                    PathError,
                >(None))) ==> sub is None && a == root
                &&& sub matches Some(rel) ==> app_is_dir && (rel.len() > 0 && rel[0] != '/' ==> a == join_spec(
                    root,
                    rel,
                ))
            },
            Err(_) => true,
        },
{
    law_app_path_lies_under_root(root, subdir, app, app_is_dir);
    law_found_subdir_joins_root(root, subdir, app, app_is_dir);
}

} // verus!
