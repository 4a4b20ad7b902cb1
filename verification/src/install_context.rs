//! Which files a dependency install needs: the manifests and local paths a
//! Python or JavaScript project's dependencies point at.
//!
//! Paths are resolved by the caller (symlinks followed, `..` folded); what
//! the file system says about them is handed in, and the decisions are made
//! here.
use vstd::prelude::*;
use crate::event::text_views;
use crate::paths::{
    join, join_spec, last_slash, replace_char, replace_char_exec, strip_root, strip_root_spec,
    strip_trailing_slashes,
};
use crate::text::{
    chars_of, copy_str, eq_str, has_prefix, has_suffix, push_str, string_of, string_of_range,
    trim, trim_start_by, trim_str,
};

verus! {

/// A list with `x` added at the end unless it is there already.
pub open spec fn add_unique(v: Seq<Seq<char>>, x: Seq<char>) -> Seq<Seq<char>> {
    if v.contains(x) {
        v
    } else {
        v.push(x)
    }
}

/// No text occurs twice.
pub open spec fn no_duplicates(v: Seq<Seq<char>>) -> bool {
    forall|i: int, j: int| 0 <= i < j < v.len() ==> v[i] != v[j]
}

fn push_unique(v: &mut Vec<String>, x: &str)
    ensures
        text_views(final(v)@) == add_unique(text_views(old(v)@), x@),
{
    if !crate::python::contains_text(v, x) {
        v.push(copy_str(x));
        assert(text_views(v@) =~= text_views(old(v)@).push(x@));
    }
}

/// `value` as a relative POSIX path: backslashes as slashes, trimmed, a
/// leading `./` dropped, and `.` for nothing.
pub open spec fn clean_relative_spec(value: Seq<char>) -> Seq<char> {
    let t = trim(replace_char(value, '\\', '/'));
    let u = if has_prefix(t, "./"@) {
        t.subrange(2, t.len() as int)
    } else {
        t
    };
    if u.len() == 0 {
        "."@
    } else {
        u
    }
}

pub fn clean_relative(value: &str) -> (r: String)
    ensures
        r@ == clean_relative_spec(value@),
{
    let replaced = replace_char_exec(value, '\\', '/');
    let t = trim_str(&replaced);
    let v = chars_of(t.as_str());
    let u = if crate::text::starts_with_str(t.as_str(), "./") {
        proof {
            reveal_strlit("./");
        }
        string_of_range(&v, 2, v.len())
    } else {
        string_of(&v)
    };
    if u.unicode_len() == 0 {
        copy_str(".")
    } else {
        u
    }
}

/// What the file system says about a resolved path.
#[derive(Debug, Clone, PartialEq, Eq)]
pub struct PathFacts {
    pub path: String,
    pub exists: bool,
    pub is_file: bool,
}

/// The last component of a path (nothing for the root or `..`).
pub open spec fn file_name_spec(p: Seq<char>) -> Seq<char> {
    let t = strip_trailing_slashes(p);
    let name = t.subrange(last_slash(t) + 1, t.len() as int);
    if name == ".."@ {
        seq![]
    } else {
        name
    }
}

/// Everything from the first `.` on, or nothing.
pub open spec fn suffixes_of(name: Seq<char>) -> Seq<char> {
    let j = crate::text::first_char_index(name, '.');
    if j >= 0 {
        name.subrange(j, name.len() as int)
    } else {
        seq![]
    }
}

pub open spec fn archive_suffix(s: Seq<char>) -> bool {
    s == ".whl"@ || s == ".zip"@ || s == ".tar"@ || s == ".tar.gz"@ || s == ".tgz"@ || s == ".tar.bz2"@
        || s == ".tar.xz"@
}

/// An existing path is a file dependency when it is a file; a missing one
/// when its name ends in a package archive's suffixes.
pub open spec fn looks_like_file_spec(f: PathFacts) -> bool {
    if f.exists {
        f.is_file
    } else {
        let name = file_name_spec(f.path@);
        if name.len() > 0 && name.last() == '.' {
            false
        } else {
            archive_suffix(suffixes_of(trim_start_by(name, |c: char| c == '.')))
        }
    }
}


fn file_name(p: &str) -> (r: String)
    ensures
        r@ == file_name_spec(p@),
{
    let v = chars_of(p);
    let n = v.len();
    assert(v@.subrange(0, n as int) =~= v@);
    let t = strip_trailing_len_pub(&v, n);
    let ghost tv = v@.subrange(0, t as int);
    let mut k = t;
    while k > 0 && v[k - 1] != '/'
        invariant
            0 <= k <= t <= v@.len(),
            tv == v@.subrange(0, t as int),
            last_slash(v@.subrange(0, k as int)) == last_slash(tv),
        decreases k,
    {
        assert(v@.subrange(0, k as int).drop_last() =~= v@.subrange(0, k - 1));
        k = k - 1;
    }
    assert(k > 0 ==> v@.subrange(0, k as int).last() == '/');
    assert(last_slash(tv) + 1 == k as int);
    let name = string_of_range(&v, k, t);
    assert(name@ =~= tv.subrange(last_slash(tv) + 1, tv.len() as int));
    if eq_str(name.as_str(), "..") {
        String::new()
    } else {
        name
    }
}

/// The length of `v[..n]` without trailing separators.
fn strip_trailing_len_pub(v: &Vec<char>, n: usize) -> (r: usize)
    requires
        n <= v@.len(),
    ensures
        r <= n,
        v@.subrange(0, r as int) == strip_trailing_slashes(v@.subrange(0, n as int)),
{
    let mut m = n;
    while m > 1 && v[m - 1] == '/'
        invariant
            0 <= m <= n <= v@.len(),
            strip_trailing_slashes(v@.subrange(0, m as int)) == strip_trailing_slashes(
                v@.subrange(0, n as int),
            ),
        decreases m,
    {
        assert(v@.subrange(0, m as int).drop_last() =~= v@.subrange(0, m - 1));
        m = m - 1;
    }
    m
}

pub fn looks_like_file_dependency(f: &PathFacts) -> (r: bool)
    ensures
        r == looks_like_file_spec(*f),
{
    if f.exists {
        return f.is_file;
    }
    let name = chars_of(file_name(&f.path).as_str());
    if name.len() > 0 && name[name.len() - 1] == '.' {
        return false;
    }
    let mut a: usize = 0;
    assert(name@.subrange(0, name@.len() as int) =~= name@);
    while a < name.len() && name[a] == '.'
        invariant
            0 <= a <= name@.len(),
            trim_start_by(name@, |c: char| c == '.') == trim_start_by(
                name@.subrange(a as int, name@.len() as int),
                |c: char| c == '.',
            ),
        decreases name@.len() - a,
    {
        assert(name@.subrange(a as int, name@.len() as int).drop_first() =~= name@.subrange(a + 1, name@.len() as int));
        a = a + 1;
    }
    let trimmed = crate::text::slice_vec(&name, a, name.len());
    assert(trim_start_by(trimmed@, |c: char| c == '.') == trimmed@);
    let suffix = match crate::text::find_char(&trimmed, '.') {
        Some(j) => string_of_range(&trimmed, j, trimmed.len()),
        None => String::new(),
    };
    let s = suffix.as_str();
    eq_str(s, ".whl") || eq_str(s, ".zip") || eq_str(s, ".tar") || eq_str(s, ".tar.gz") || eq_str(s, ".tgz")
        || eq_str(s, ".tar.bz2") || eq_str(s, ".tar.xz")
}

/// A path relative to a root, cleaned; none outside the root.
pub open spec fn relative_to_root_spec(path: Seq<char>, root: Seq<char>) -> Option<Seq<char>> {
    match strip_root_spec(path, root) {
        Some(rel) => Some(clean_relative_spec(rel)),
        None => None,
    }
}

/// `path` relative to `root` (both resolved), as a clean POSIX path.
pub fn relative_to_root(path: &str, root: &str) -> (r: Option<String>)
    ensures
        r is None <==> relative_to_root_spec(path@, root@) is None,
        r matches Some(t) ==> relative_to_root_spec(path@, root@) == Some(t@),
{
    match strip_root(path, root) {
        Some(rel) => Some(clean_relative(&rel)),
        None => None,
    }
}

/// What an install reads: input files, local paths outside them, the
/// manifests, and whether it needs every file of the project (with the
/// reasons why).
#[derive(Debug, Clone, PartialEq, Eq)]
pub struct InstallContext {
    pub inputs: Vec<String>,
    pub local_paths: Vec<String>,
    pub manifest_paths: Vec<String>,
    pub requires_all_files: bool,
    pub reasons: Vec<String>,
}

/// No list of the context holds a text twice.
pub open spec fn context_wf(c: InstallContext) -> bool {
    &&& no_duplicates(text_views(c.inputs@))
    &&& no_duplicates(text_views(c.local_paths@))
    &&& no_duplicates(text_views(c.manifest_paths@))
    &&& no_duplicates(text_views(c.reasons@))
}

impl Default for InstallContext {
    fn default() -> (r: Self)
        ensures
            r.inputs@.len() == 0,
            r.local_paths@.len() == 0,
            r.manifest_paths@.len() == 0,
            !r.requires_all_files,
            r.reasons@.len() == 0,
            context_wf(r),
    {
        InstallContext {
            inputs: Vec::new(),
            local_paths: Vec::new(),
            manifest_paths: Vec::new(),
            requires_all_files: false,
            reasons: Vec::new(),
        }
    }
}

/// What adding a local path does to the context.
pub open spec fn local_path_added(
    old: InstallContext,
    new: InstallContext,
    f: PathFacts,
    root: Seq<char>,
    reason: Seq<char>,
    require_all_files: bool,
) -> bool {
    let file = looks_like_file_spec(f);
    let (inputs, all, reasons) = match relative_to_root_spec(f.path@, root) {
        Some(rel) => if file {
            (add_unique(text_views(old.inputs@), rel), old.requires_all_files, text_views(old.reasons@))
        } else if require_all_files {
            (text_views(old.inputs@), true, add_unique(text_views(old.reasons@), reason))
        } else {
            (text_views(old.inputs@), old.requires_all_files, text_views(old.reasons@))
        },
        None => if require_all_files || !file {
            (text_views(old.inputs@), true, add_unique(text_views(old.reasons@), reason))
        } else {
            (text_views(old.inputs@), old.requires_all_files, text_views(old.reasons@))
        },
    };
    &&& text_views(new.local_paths@) == add_unique(text_views(old.local_paths@), f.path@)
    &&& text_views(new.inputs@) == inputs
    &&& new.requires_all_files == all
    &&& text_views(new.reasons@) == reasons
    &&& new.manifest_paths == old.manifest_paths
}

impl InstallContext {
    /// Add an input file, cleaned, unless it is there already.
    pub fn add_input(&mut self, value: &str)
        ensures
            text_views(final(self).inputs@) == add_unique(text_views(old(self).inputs@), clean_relative_spec(value@)),
            final(self).local_paths == old(self).local_paths,
            final(self).manifest_paths == old(self).manifest_paths,
            final(self).requires_all_files == old(self).requires_all_files,
            final(self).reasons == old(self).reasons,
    {
        let cleaned = clean_relative(value);
        push_unique(&mut self.inputs, &cleaned);
    }

    /// Add a (resolved) manifest path unless it is there already.
    pub fn add_manifest(&mut self, resolved: &str)
        ensures
            text_views(final(self).manifest_paths@) == add_unique(text_views(old(self).manifest_paths@), resolved@),
            final(self).inputs == old(self).inputs,
            final(self).local_paths == old(self).local_paths,
            final(self).requires_all_files == old(self).requires_all_files,
            final(self).reasons == old(self).reasons,
    {
        push_unique(&mut self.manifest_paths, resolved);
    }

    /// Add a (resolved) local path a dependency points at, under the
    /// (resolved) project root: a file inside the root becomes an input;
    /// otherwise, when all files are required or the path is not a file
    /// dependency outside the root, the install needs every file, for
    /// `reason`.
    pub fn add_local_path(&mut self, path: &PathFacts, root: &str, reason: &str, require_all_files: bool)
        ensures
            local_path_added(*old(self), *final(self), *path, root@, reason@, require_all_files),
    {
        push_unique(&mut self.local_paths, &path.path);
        let file = looks_like_file_dependency(path);
        match relative_to_root(&path.path, root) {
            Some(rel) => {
                if file {
                    push_unique(&mut self.inputs, &rel);
                } else if require_all_files {
                    self.requires_all_files = true;
                    push_unique(&mut self.reasons, reason);
                }
            },
            None => {
                if require_all_files || !file {
                    self.requires_all_files = true;
                    push_unique(&mut self.reasons, reason);
                }
            },
        }
    }
}

/// Adding to a list without duplicates keeps it without duplicates.
pub proof fn law_add_unique_keeps_no_duplicates(v: Seq<Seq<char>>, x: Seq<char>)
    requires
        no_duplicates(v),
    ensures
        no_duplicates(add_unique(v, x)),
        add_unique(v, x).contains(x),
        forall|y: Seq<char>| v.contains(y) ==> add_unique(v, x).contains(y),
{
    if !v.contains(x) {
        let w = v.push(x);
        assert forall|i: int, j: int| 0 <= i < j < w.len() implies w[i] != w[j] by {
            if j == v.len() {
                assert(v[i] != x);
            }
        }
        assert(w[v.len() as int] == x);
        assert forall|y: Seq<char>| v.contains(y) implies w.contains(y) by {
            let k = choose|k: int| 0 <= k < v.len() && v[k] == y;
            assert(w[k] == y);
        }
    }
}

/// Every way of adding to a context keeps each of its lists without
/// duplicates.
pub proof fn law_context_stays_duplicate_free(
    old: InstallContext,
    new: InstallContext,
    f: PathFacts,
    root: Seq<char>,
    reason: Seq<char>,
    require_all_files: bool,
)
    requires
        context_wf(old),
        local_path_added(old, new, f, root, reason, require_all_files),
    ensures
        context_wf(new),
{
    law_add_unique_keeps_no_duplicates(text_views(old.local_paths@), f.path@);
    law_add_unique_keeps_no_duplicates(text_views(old.reasons@), reason);
    match relative_to_root_spec(f.path@, root) {
        Some(rel) => {
            law_add_unique_keeps_no_duplicates(text_views(old.inputs@), rel);
        },
        None => {},
    }
}


// ---------------------------------------------------------------------------
// Requirement lines

/// Where a pip comment starts: a `#` at the start or after whitespace.
pub open spec fn comment_start(s: Seq<char>, i: int, after_ws: bool) -> int
    decreases s.len() - i,
{
    if i >= s.len() {
        s.len() as int
    } else if s[i] == '#' && after_ws {
        i
    } else {
        comment_start(s, i + 1, crate::text::is_ws(s[i]))
    }
}

/// The whitespace-separated tokens of a requirements line before its
/// comment; URL fragments (`#` inside a token) stay.
pub open spec fn requirement_tokens(line: Seq<char>) -> Seq<Seq<char>> {
    crate::text::words(line.subrange(0, comment_start(line, 0, true)))
}

pub fn split_requirement_line(line: &str) -> (r: Vec<String>)
    ensures
        text_views(r@) == requirement_tokens(line@),
{
    let v = chars_of(line);
    let mut i: usize = 0;
    let mut after_ws = true;
    while i < v.len() && !(v[i] == '#' && after_ws)
        invariant
            0 <= i <= v@.len(),
            comment_start(v@, 0, true) == comment_start(v@, i as int, after_ws),
        decreases v@.len() - i,
    {
        after_ws = crate::text::is_ws_char(v[i]);
        i = i + 1;
    }
    let head = crate::text::slice_vec(&v, 0, i);
    let words = crate::text::words_exec(&head);
    let mut r: Vec<String> = Vec::new();
    let mut k: usize = 0;
    while k < words.len()
        invariant
            0 <= k <= words@.len(),
            r@.len() == k,
            text_views(r@) == crate::text::views(words@).subrange(0, k as int),
        decreases words@.len() - k,
    {
        let w = string_of(&words[k]);
        let ghost before = r@;
        r.push(w);
        assert(text_views(r@) =~= text_views(before).push(w@));
        assert(crate::text::views(words@).subrange(0, k + 1) =~= crate::text::views(words@).subrange(0, k as int).push(words@[k as int]@));
        k = k + 1;
    }
    assert(crate::text::views(words@).subrange(0, words@.len() as int) =~= crate::text::views(words@));
    r
}

pub open spec fn is_include_flag(t: Seq<char>) -> bool {
    t == "-r"@ || t == "--requirement"@ || t == "-c"@ || t == "--constraint"@
}

/// The file an inline include flag (`-rfile`, `--requirement=file`, ...)
/// names.
pub open spec fn inline_include(t: Seq<char>) -> Seq<Seq<char>> {
    if has_prefix(t, "-r"@) && t != "-r"@ {
        seq![t.subrange(2, t.len() as int)]
    } else if has_prefix(t, "-c"@) && t != "-c"@ {
        seq![t.subrange(2, t.len() as int)]
    } else if has_prefix(t, "--requirement="@) && t != "--requirement="@ {
        seq![t.subrange(14, t.len() as int)]
    } else if has_prefix(t, "--constraint="@) && t != "--constraint="@ {
        seq![t.subrange(13, t.len() as int)]
    } else {
        seq![]
    }
}

/// The requirement and constraint files a line includes, from token `i`.
pub open spec fn include_refs_from(t: Seq<Seq<char>>, i: int) -> Seq<Seq<char>>
    decreases t.len() - i,
{
    if i < 0 || i >= t.len() {
        seq![]
    } else if is_include_flag(t[i]) && i + 1 < t.len() {
        seq![t[i + 1]] + include_refs_from(t, i + 2)
    } else {
        inline_include(t[i]) + include_refs_from(t, i + 1)
    }
}

fn inline_include_exec(t: &str) -> (r: Option<String>)
    ensures
        match r {
            Some(x) => inline_include(t@) == seq![x@],
            None => inline_include(t@) == Seq::<Seq<char>>::empty(),
        },
{
    let v = chars_of(t);
    proof {
        reveal_strlit("-r");
        reveal_strlit("-c");
        reveal_strlit("--requirement=");
        reveal_strlit("--constraint=");
    }
    if crate::text::starts_with_str(t, "-r") && !eq_str(t, "-r") {
        return Some(string_of_range(&v, 2, v.len()));
    }
    if crate::text::starts_with_str(t, "-c") && !eq_str(t, "-c") {
        return Some(string_of_range(&v, 2, v.len()));
    }
    if crate::text::starts_with_str(t, "--requirement=") && !eq_str(t, "--requirement=") {
        return Some(string_of_range(&v, 14, v.len()));
    }
    if crate::text::starts_with_str(t, "--constraint=") && !eq_str(t, "--constraint=") {
        return Some(string_of_range(&v, 13, v.len()));
    }
    None
}

/// The files a requirements line includes with `-r`, `-c` and their long
/// and inline forms.
pub fn requirement_include_refs(tokens: &Vec<String>) -> (r: Vec<String>)
    ensures
        text_views(r@) == include_refs_from(text_views(tokens@), 0),
{
    let ghost t = text_views(tokens@);
    let mut r: Vec<String> = Vec::new();
    let mut i: usize = 0;
    while i < tokens.len()
        invariant
            0 <= i <= tokens@.len() + 1,
            t == text_views(tokens@),
            text_views(r@) + include_refs_from(t, i as int) == include_refs_from(t, 0),
        decreases tokens@.len() + 1 - i,
    {
        let tok = tokens[i].as_str();
        let flag = eq_str(tok, "-r") || eq_str(tok, "--requirement") || eq_str(tok, "-c") || eq_str(
            tok,
            "--constraint",
        );
        let ghost before = text_views(r@);
        if flag && i + 1 < tokens.len() {
            r.push(tokens[i + 1].clone());
            assert(text_views(r@) =~= before.push(t[i + 1]));
            assert(text_views(r@) + include_refs_from(t, i + 2) =~= before + include_refs_from(t, i as int));
            i = i + 2;
        } else {
            match inline_include_exec(tok) {
                Some(x) => {
                    let ghost xv = x@;
                    r.push(x);
                    assert(text_views(r@) =~= before.push(xv));
                    assert(text_views(r@) + include_refs_from(t, i + 1) =~= before + include_refs_from(t, i as int));
                },
                None => {
                    assert(before + include_refs_from(t, i + 1) =~= before + include_refs_from(t, i as int));
                },
            }
            i = i + 1;
        }
    }
    assert(include_refs_from(t, i as int) =~= Seq::<Seq<char>>::empty());
    assert(text_views(r@) + Seq::<Seq<char>>::empty() =~= text_views(r@));
    r
}


// ---------------------------------------------------------------------------
// Local references

pub open spec fn is_path_like_spec(v: Seq<char>) -> bool {
    has_prefix(v, "./"@) || has_prefix(v, "../"@) || has_prefix(v, "/"@) || has_prefix(v, "~"@) || v
        == "."@ || v == ".."@
}

pub fn is_path_like(v: &str) -> (r: bool)
    ensures
        r == is_path_like_spec(v@),
{
    crate::text::starts_with_str(v, "./") || crate::text::starts_with_str(v, "../")
        || crate::text::starts_with_str(v, "/") || crate::text::starts_with_str(v, "~") || eq_str(v, ".")
        || eq_str(v, "..")
}

pub open spec fn scheme_char(c: char) -> bool {
    crate::text::is_alnum(c) || c == '+' || c == '-' || c == '.'
}

/// `urlparse(v).scheme` is not empty: a letter, then letters, digits,
/// `+`, `-` or `.`, before the first `:`.
pub open spec fn has_url_scheme_spec(v: Seq<char>) -> bool {
    let pos = crate::text::first_char_index(v, ':');
    pos > 0 && crate::text::is_alpha(v[0]) && forall|j: int| 1 <= j < pos ==> scheme_char(#[trigger] v[j])
}

pub fn has_url_scheme(v: &str) -> (r: bool)
    ensures
        r == has_url_scheme_spec(v@),
{
    let c = chars_of(v);
    let pos = match crate::text::find_char(&c, ':') {
        Some(p) => p,
        None => return false,
    };
    if pos == 0 {
        return false;
    }
    if !crate::text::is_alpha_char(c[0]) {
        return false;
    }
    let mut j: usize = 1;
    while j < pos
        invariant
            1 <= j <= pos < c@.len(),
            c@ == v@,
            pos as int == crate::text::first_char_index(v@, ':'),
            crate::text::is_alpha(c@[0]),
            forall|k: int| 1 <= k < j ==> scheme_char(#[trigger] c@[k]),
        decreases pos - j,
    {
        let ch = c[j];
        if !(crate::text::is_alnum_char(ch) || ch == '+' || ch == '-' || ch == '.') {
            assert(!scheme_char(c@[j as int]));
            return false;
        }
        j = j + 1;
    }
    true
}

pub open spec fn url_stop(c: char) -> bool {
    c == '/' || c == '?' || c == '#'
}

/// `urlparse("file:" + raw)`: the network location and the path (the
/// fragment, query and the last segment's `;params` dropped).
pub open spec fn file_url_parts_spec(raw: Seq<char>) -> (Seq<char>, Seq<char>) {
    let (netloc, rest) = if has_prefix(raw, "//"@) {
        let after = raw.subrange(2, raw.len() as int);
        let nl = crate::text::before_first(after, stop_pred(0));
        (nl, after.subrange(nl.len() as int, after.len() as int))
    } else {
        (Seq::<char>::empty(), raw)
    };
    let rest1 = crate::text::before_first(rest, stop_pred(1));
    let rest2 = crate::text::before_first(rest1, stop_pred(2));
    let k = crate::python::last_index_of(rest2, '/');
    let path = if k >= 0 {
        let off = crate::text::first_char_index(rest2.subrange(k, rest2.len() as int), ';');
        if off >= 0 {
            rest2.subrange(0, k + off)
        } else {
            rest2
        }
    } else {
        crate::text::before_first(rest2, stop_pred(3))
    };
    (netloc, path)
}

/// The characters that end a part of a file URL.
pub open spec fn stop_pred(stop: u8) -> spec_fn(char) -> bool {
    |c: char| if stop == 0 {
        url_stop(c)
    } else if stop == 1 {
        c == '#'
    } else if stop == 2 {
        c == '?'
    } else {
        c == ';'
    }
}

fn is_stop(c: char, stop: u8) -> (r: bool)
    ensures
        r == stop_pred(stop)(c),
{
    if stop == 0 {
        c == '/' || c == '?' || c == '#'
    } else if stop == 1 {
        c == '#'
    } else if stop == 2 {
        c == '?'
    } else {
        c == ';'
    }
}

/// The prefix of `v[from..]` before the first stopping character.
fn before_first_exec(v: &Vec<char>, from: usize, stop: u8) -> (r: Vec<char>)
    requires
        from <= v@.len(),
    ensures
        r@ == crate::text::before_first(v@.subrange(from as int, v@.len() as int), stop_pred(stop)),
        r@.len() <= v@.len() - from,
        r@ == v@.subrange(from as int, from + r@.len()),
{
    let mut i = from;
    while i < v.len() && !is_stop(v[i], stop)
        invariant
            from <= i <= v@.len(),
            forall|k: int| from <= k < i ==> !stop_pred(stop)(#[trigger] v@[k]),
        decreases v@.len() - i,
    {
        i = i + 1;
    }
    proof {
        let s = v@.subrange(from as int, v@.len() as int);
        assert forall|j: int| 0 <= j < i - from implies !stop_pred(stop)(#[trigger] s[j]) by {
            assert(s[j] == v@[from + j]);
        }
        if i < v.len() {
            assert(s[i - from] == v@[i as int]);
        }
        lemma_before_first_at(s, (i - from) as int, stop_pred(stop));
    }
    assert(v@.subrange(from as int, i as int) =~= v@.subrange(from as int, v@.len() as int).subrange(0, i - from));
    crate::text::slice_vec(v, from, i)
}

proof fn lemma_before_first_at(s: Seq<char>, k: int, pred: spec_fn(char) -> bool)
    requires
        0 <= k <= s.len(),
        forall|j: int| 0 <= j < k ==> !pred(#[trigger] s[j]),
        k == s.len() || pred(s[k]),
    ensures
        crate::text::before_first(s, pred) == s.subrange(0, k),
    decreases k,
{
    if k > 0 {
        let t = s.drop_first();
        assert forall|j: int| 0 <= j < k - 1 implies !pred(#[trigger] t[j]) by {
            assert(t[j] == s[j + 1]);
        }
        if k < s.len() {
            assert(t[k - 1] == s[k]);
        }
        lemma_before_first_at(t, k - 1, pred);
        assert(seq![s[0]] + t.subrange(0, k - 1) =~= s.subrange(0, k));
    } else {
        assert(s.subrange(0, 0) =~= Seq::<char>::empty());
    }
}

fn last_index_exec(v: &Vec<char>, c: char) -> (r: Option<usize>)
    ensures
        r matches Some(k) ==> k as int == crate::python::last_index_of(v@, c) && k < v@.len(),
        r is None ==> crate::python::last_index_of(v@, c) == -1,
{
    let mut k = v.len();
    assert(v@.subrange(0, k as int) =~= v@);
    while k > 0 && v[k - 1] != c
        invariant
            0 <= k <= v@.len(),
            crate::python::last_index_of(v@.subrange(0, k as int), c) == crate::python::last_index_of(v@, c),
        decreases k,
    {
        assert(v@.subrange(0, k as int).drop_last() =~= v@.subrange(0, k - 1));
        k = k - 1;
    }
    if k == 0 {
        None
    } else {
        Some(k - 1)
    }
}

pub fn file_url_parts(raw: &str) -> (r: (String, String))
    ensures
        (r.0@, r.1@) == file_url_parts_spec(raw@),
{
    let v = chars_of(raw);
    proof {
        reveal_strlit("//");
    }
    let (netloc, rest) = if crate::text::starts_with_str(raw, "//") {
        let nl = before_first_exec(&v, 2, 0);
        let nn = nl.len();
        let vn = v.len();
        assert(nn <= vn - 2);
        let rest = crate::text::slice_vec(&v, 2 + nn, vn);
        assert(rest@ =~= v@.subrange(2, v@.len() as int).subrange(nl@.len() as int, v@.len() - 2));
        (nl, rest)
    } else {
        (Vec::new(), crate::text::slice_vec(&v, 0, v.len()))
    };
    assert(v@.subrange(0, v@.len() as int) =~= v@);
    let rest1 = before_first_exec(&rest, 0, 1);
    assert(rest@.subrange(0, rest@.len() as int) =~= rest@);
    let rest2 = before_first_exec(&rest1, 0, 2);
    assert(rest1@.subrange(0, rest1@.len() as int) =~= rest1@);
    let path = match last_index_exec(&rest2, '/') {
        Some(k) => {
            let tail = crate::text::slice_vec(&rest2, k, rest2.len());
            match crate::text::find_char(&tail, ';') {
                Some(off) => crate::text::slice_vec(&rest2, 0, k + off),
                None => crate::text::slice_vec(&rest2, 0, rest2.len()),
            }
        },
        None => before_first_exec(&rest2, 0, 3),
    };
    assert(rest2@.subrange(0, rest2@.len() as int) =~= rest2@);
    (string_of(&netloc), string_of(&path))
}


/// The value of a hexadecimal digit byte.
pub open spec fn hex_value(b: u8) -> Option<u8> {
    if 48 <= b <= 57 {
        Some((b - 48) as u8)
    } else if 97 <= b <= 102 {
        Some((b - 87) as u8)
    } else if 65 <= b <= 70 {
        Some((b - 55) as u8)
    } else {
        None
    }
}

/// `%XY` escapes decoded; a `%` without two hex digits after it stays.
pub open spec fn percent_decode(b: Seq<u8>) -> Seq<u8>
    decreases b.len(),
{
    if b.len() == 0 {
        seq![]
    } else if b[0] == 37 && b.len() >= 3 && hex_value(b[1]) is Some && hex_value(b[2]) is Some {
        seq![(hex_value(b[1]).unwrap() * 16 + hex_value(b[2]).unwrap()) as u8] + percent_decode(
            b.subrange(3, b.len() as int),
        )
    } else {
        seq![b[0]] + percent_decode(b.subrange(1, b.len() as int))
    }
}

fn hex_value_exec(b: u8) -> (r: Option<u8>)
    ensures
        r == hex_value(b),
{
    if 48 <= b && b <= 57 {
        Some(b - 48)
    } else if 97 <= b && b <= 102 {
        Some(b - 87)
    } else if 65 <= b && b <= 70 {
        Some(b - 55)
    } else {
        None
    }
}

fn percent_decode_exec(b: &[u8]) -> (r: Vec<u8>)
    ensures
        r@ == percent_decode(b@),
{
    let mut out: Vec<u8> = Vec::new();
    let mut i: usize = 0;
    assert(b@.subrange(0, b@.len() as int) =~= b@);
    while i < b.len()
        invariant
            0 <= i <= b@.len(),
            out@ + percent_decode(b@.subrange(i as int, b@.len() as int)) == percent_decode(b@),
        decreases b@.len() - i,
    {
        let ghost rest = b@.subrange(i as int, b@.len() as int);
        let ghost before = out@;
        if b[i] == 37 && b.len() - i > 2 {
            match (hex_value_exec(b[i + 1]), hex_value_exec(b[i + 2])) {
                (Some(h), Some(l)) => {
                    let byte: u8 = h * 16 + l;
                    out.push(byte);
                    assert(rest.subrange(3, rest.len() as int) =~= b@.subrange(i + 3, b@.len() as int));
                    assert(out@ + percent_decode(b@.subrange(i + 3, b@.len() as int)) =~= before + percent_decode(rest));
                    i = i + 3;
                    continue;
                },
                _ => {},
            }
        }
        out.push(b[i]);
        assert(rest.subrange(1, rest.len() as int) =~= b@.subrange(i + 1, b@.len() as int));
        assert(out@ + percent_decode(b@.subrange(i + 1, b@.len() as int)) =~= before + percent_decode(rest));
        i = i + 1;
    }
    assert(b@.subrange(i as int, b@.len() as int) =~= Seq::<u8>::empty());
    assert(out@ + Seq::<u8>::empty() =~= out@);
    out
}

/// What `String::from_utf8_lossy` makes of some bytes.
pub uninterp spec fn utf8_lossy(bytes: Seq<u8>) -> Seq<char>;

/// `String::from_utf8_lossy`: the bytes as UTF-8, each invalid sequence
/// replaced by U+FFFD.
#[verifier::external_body]
pub(crate) fn from_utf8_lossy(bytes: &[u8]) -> (r: String)
    ensures
        r@ == utf8_lossy(bytes@),
{
    String::from_utf8_lossy(bytes).into_owned()
}

/// urllib's `unquote`: percent escapes decoded as UTF-8, invalid bytes
/// replaced.
pub open spec fn unquote_spec(value: Seq<char>) -> Seq<char> {
    utf8_lossy(percent_decode(vstd::utf8::encode_utf8(value)))
}

pub fn unquote(value: &str) -> (r: String)
    ensures
        r@ == unquote_spec(value@),
{
    let decoded = percent_decode_exec(value.as_bytes());
    from_utf8_lossy(decoded.as_slice())
}

pub proof fn lemma_trim_len(s: Seq<char>)
    ensures
        trim(s).len() <= s.len(),
{
    lemma_trim_start_len(s);
    lemma_trim_end_len(crate::text::trim_start(s));
}

proof fn lemma_trim_start_len(s: Seq<char>)
    ensures
        crate::text::trim_start(s).len() <= s.len(),
    decreases s.len(),
{
    if s.len() > 0 && crate::text::ws_pred()(s[0]) {
        lemma_trim_start_len(s.drop_first());
    }
}

proof fn lemma_trim_end_len(s: Seq<char>)
    ensures
        crate::text::trim_end(s).len() <= s.len(),
    decreases s.len(),
{
    if s.len() > 0 && crate::text::ws_pred()(s.last()) {
        lemma_trim_end_len(s.drop_last());
    }
}

/// The path a local dependency reference points at, to be resolved by the
/// caller: `file:` URLs (with a host other than `localhost` kept as
/// `//host`), `link:` and `git+file:` references, and paths (bare relative
/// ones only when `allow_bare_relative`), relative ones joined to
/// `base_dir`; none for other URLs and names.
pub open spec fn resolve_local_ref_spec(base_dir: Seq<char>, value: Seq<char>, allow_bare_relative: bool) -> Option<Seq<char>>
    decreases value.len(),
{
    let v = trim(value);
    if v.len() == 0 {
        None
    } else if has_prefix(v, "file:"@) {
        let parts = file_url_parts_spec(v.subrange(5, v.len() as int));
        let decoded = unquote_spec(parts.1);
        let p = if parts.0.len() > 0 && parts.0 != "localhost"@ {
            "//"@ + parts.0 + decoded
        } else {
            decoded
        };
        if has_prefix(p, "/"@) {
            Some(p)
        } else {
            Some(join_spec(base_dir, p))
        }
    } else if has_prefix(v, "link:"@) {
        proof {
            lemma_trim_len(value);
            reveal_strlit("link:");
        }
        resolve_local_ref_spec(base_dir, v.subrange(5, v.len() as int), allow_bare_relative)
    } else if has_prefix(v, "git+file:"@) {
        proof {
            lemma_trim_len(value);
            reveal_strlit("git+file:");
        }
        resolve_local_ref_spec(base_dir, v.subrange(4, v.len() as int), allow_bare_relative)
    } else if has_url_scheme_spec(v) {
        None
    } else if !is_path_like_spec(v) && !allow_bare_relative {
        None
    } else if has_prefix(v, "/"@) {
        Some(v)
    } else {
        Some(join_spec(base_dir, v))
    }
}

pub fn resolve_local_ref(base_dir: &str, value: &str, allow_bare_relative: bool) -> (r: Option<String>)
    ensures
        r is None <==> resolve_local_ref_spec(base_dir@, value@, allow_bare_relative) is None,
        r matches Some(p) ==> resolve_local_ref_spec(base_dir@, value@, allow_bare_relative) == Some(p@),
    decreases value@.len(),
{
    let v = trim_str(value);
    let c = chars_of(v.as_str());
    if c.len() == 0 {
        return None;
    }
    proof {
        reveal_strlit("file:");
        reveal_strlit("link:");
        reveal_strlit("git+file:");
        reveal_strlit("/");
        lemma_trim_len(value@);
    }
    if crate::text::starts_with_str(v.as_str(), "file:") {
        let raw = string_of_range(&c, 5, c.len());
        let (netloc, part) = file_url_parts(raw.as_str());
        let decoded = unquote(part.as_str());
        let p = if netloc.unicode_len() > 0 && !eq_str(netloc.as_str(), "localhost") {
            let mut t = copy_str("//");
            push_str(&mut t, netloc.as_str());
            push_str(&mut t, decoded.as_str());
            t
        } else {
            decoded
        };
        if crate::text::starts_with_str(p.as_str(), "/") {
            return Some(p);
        }
        return Some(join(base_dir, p.as_str()));
    }
    if crate::text::starts_with_str(v.as_str(), "link:") {
        let rest = string_of_range(&c, 5, c.len());
        return resolve_local_ref(base_dir, rest.as_str(), allow_bare_relative);
    }
    if crate::text::starts_with_str(v.as_str(), "git+file:") {
        let rest = string_of_range(&c, 4, c.len());
        return resolve_local_ref(base_dir, rest.as_str(), allow_bare_relative);
    }
    if has_url_scheme(v.as_str()) {
        return None;
    }
    if !is_path_like(v.as_str()) && !allow_bare_relative {
        return None;
    }
    if crate::text::starts_with_str(v.as_str(), "/") {
        return Some(v);
    }
    Some(join(base_dir, v.as_str()))
}

pub open spec fn requirement_file_ref_spec(base_dir: Seq<char>, value: Seq<char>) -> Option<Seq<char>> {
    match resolve_local_ref_spec(base_dir, value, false) {
        Some(p) => Some(p),
        None => {
            let t = trim(value);
            if t.len() == 0 {
                None
            } else if has_prefix(t, "/"@) {
                Some(t)
            } else {
                Some(join_spec(base_dir, t))
            }
        },
    }
}

/// A requirements file another one includes: a local reference, else the
/// (trimmed) path itself.
pub fn resolve_requirement_file_ref(base_dir: &str, value: &str) -> (r: Option<String>)
    ensures
        r is None <==> requirement_file_ref_spec(base_dir@, value@) is None,
        r matches Some(p) ==> requirement_file_ref_spec(base_dir@, value@) == Some(p@),
{
    if let Some(p) = resolve_local_ref(base_dir, value, false) {
        return Some(p);
    }
    let t = trim_str(value);
    if t.unicode_len() == 0 {
        return None;
    }
    if crate::text::starts_with_str(t.as_str(), "/") {
        return Some(t);
    }
    Some(join(base_dir, t.as_str()))
}


/// `@ <ref>` in a PEP 508 dependency (a direct reference).
pub open spec fn direct_ref_pattern() -> Seq<char> {
    "@\\s*([^;\\s]+)"@
}

/// The local path a requirements line (as tokens) installs from: an
/// editable path, a direct reference, or a lone path-like token.
pub open spec fn requirement_local_ref_spec(tokens: Seq<Seq<char>>, base_dir: Seq<char>) -> Option<Seq<char>> {
    let t0 = tokens[0];
    if is_include_flag(t0) {
        None
    } else if (t0 == "-e"@ || t0 == "--editable"@) && tokens.len() > 1 {
        resolve_local_ref_spec(base_dir, tokens[1], false)
    } else if has_prefix(t0, "--editable="@) {
        resolve_local_ref_spec(base_dir, t0.subrange(11, t0.len() as int), false)
    } else {
        match crate::python::regex_capture(direct_ref_pattern(), crate::render::join_texts(tokens, " "@)) {
            Some(c) => resolve_local_ref_spec(base_dir, c, false),
            None => if tokens.len() == 1 {
                match resolve_local_ref_spec(base_dir, t0, false) {
                    Some(p) => Some(p),
                    None => if crate::text::contains_char(t0, '/') && !crate::text::contains_seq(t0, "://"@) {
                        requirement_file_ref_spec(base_dir, t0)
                    } else {
                        None
                    },
                }
            } else {
                None
            },
        }
    }
}

pub fn requirement_local_ref(tokens: &Vec<String>, base_dir: &str) -> (r: Option<String>)
    requires
        tokens@.len() > 0,
    ensures
        r is None <==> requirement_local_ref_spec(text_views(tokens@), base_dir@) is None,
        r matches Some(p) ==> requirement_local_ref_spec(text_views(tokens@), base_dir@) == Some(p@),
{
    let t0 = tokens[0].as_str();
    assert(text_views(tokens@)[0] == t0@);
    if eq_str(t0, "-r") || eq_str(t0, "--requirement") || eq_str(t0, "-c") || eq_str(t0, "--constraint") {
        return None;
    }
    if (eq_str(t0, "-e") || eq_str(t0, "--editable")) && tokens.len() > 1 {
        assert(text_views(tokens@)[1] == tokens@[1]@);
        return resolve_local_ref(base_dir, tokens[1].as_str(), false);
    }
    if crate::text::starts_with_str(t0, "--editable=") {
        proof {
            reveal_strlit("--editable=");
        }
        let c = chars_of(t0);
        let rest = string_of_range(&c, 11, c.len());
        return resolve_local_ref(base_dir, rest.as_str(), false);
    }
    let joined = crate::render::join_strings(tokens, " ");
    match crate::python::regex_first_capture("@\\s*([^;\\s]+)", joined.as_str()) {
        Some(c) => resolve_local_ref(base_dir, c.as_str(), false),
        None => {
            if tokens.len() == 1 {
                if let Some(p) = resolve_local_ref(base_dir, t0, false) {
                    return Some(p);
                }
                let c = chars_of(t0);
                if crate::text::contains_char_exec(&c, '/') && !crate::text::contains_str(t0, "://") {
                    return resolve_requirement_file_ref(base_dir, t0);
                }
            }
            None
        },
    }
}

pub open spec fn python_local_ref_spec(value: Seq<char>, base_dir: Seq<char>) -> Option<Seq<char>> {
    match crate::python::regex_capture(direct_ref_pattern(), value) {
        Some(c) => resolve_local_ref_spec(base_dir, c, true),
        None => resolve_local_ref_spec(base_dir, value, false),
    }
}

/// The local path a pyproject dependency string points at.
pub fn python_local_ref(value: &str, base_dir: &str) -> (r: Option<String>)
    ensures
        r is None <==> python_local_ref_spec(value@, base_dir@) is None,
        r matches Some(p) ==> python_local_ref_spec(value@, base_dir@) == Some(p@),
{
    match crate::python::regex_first_capture("@\\s*([^;\\s]+)", value) {
        Some(c) => resolve_local_ref(base_dir, c.as_str(), true),
        None => resolve_local_ref(base_dir, value, false),
    }
}

pub open spec fn js_local_ref_spec(
    name: Seq<char>,
    spec: Seq<char>,
    base_dir: Seq<char>,
    workspace_packages: Seq<(Seq<char>, Seq<char>)>,
) -> Option<Seq<char>> {
    if has_prefix(spec, "workspace:"@) {
        let target = spec.subrange(10, spec.len() as int);
        if is_path_like_spec(target) {
            resolve_local_ref_spec(base_dir, target, true)
        } else {
            crate::env_map::map_get(workspace_packages, name)
        }
    } else if has_prefix(spec, "file:"@) || has_prefix(spec, "link:"@) {
        resolve_local_ref_spec(base_dir, spec, true)
    } else if is_path_like_spec(spec) {
        resolve_local_ref_spec(base_dir, spec, false)
    } else {
        None
    }
}

/// The local path a package.json dependency points at: `workspace:`
/// references (by path, else the workspace package of that name),
/// `file:`/`link:` references and paths.
pub fn js_local_ref(name: &str, spec: &str, base_dir: &str, workspace_packages: &Vec<(String, String)>) -> (r: Option<String>)
    ensures
        r is None <==> js_local_ref_spec(name@, spec@, base_dir@, crate::env_map::pairs_view(workspace_packages@)) is None,
        r matches Some(p) ==> js_local_ref_spec(name@, spec@, base_dir@, crate::env_map::pairs_view(workspace_packages@))
            == Some(p@),
{
    if crate::text::starts_with_str(spec, "workspace:") {
        proof {
            reveal_strlit("workspace:");
        }
        let c = chars_of(spec);
        let target = string_of_range(&c, 10, c.len());
        if is_path_like(target.as_str()) {
            return resolve_local_ref(base_dir, target.as_str(), true);
        }
        return crate::env_map::map_get_exec(workspace_packages, name);
    }
    if crate::text::starts_with_str(spec, "file:") || crate::text::starts_with_str(spec, "link:") {
        return resolve_local_ref(base_dir, spec, true);
    }
    if is_path_like(spec) {
        return resolve_local_ref(base_dir, spec, false);
    }
    None
}


// ---------------------------------------------------------------------------
// Workspace patterns

/// A simple YAML scalar: a quoted string up to its closing quote (none
/// when unclosed), or a plain one up to ` #`, trimmed.
pub open spec fn yaml_scalar_spec(item: Seq<char>) -> Option<Seq<char>> {
    let t = trim(item);
    if has_prefix(t, "\""@) {
        let rest = t.subrange(1, t.len() as int);
        let i = crate::text::first_char_index(rest, '"');
        if i >= 0 {
            Some(rest.subrange(0, i))
        } else {
            None
        }
    } else if has_prefix(t, "'"@) {
        let rest = t.subrange(1, t.len() as int);
        let i = crate::text::first_char_index(rest, '\'');
        if i >= 0 {
            Some(rest.subrange(0, i))
        } else {
            None
        }
    } else {
        let end = match crate::text::first_occurrence(t, " #"@) {
            Some(k) => k,
            None => t.len() as int,
        };
        Some(trim(t.subrange(0, end)))
    }
}

pub fn yaml_scalar(item: &str) -> (r: Option<String>)
    ensures
        r is None <==> yaml_scalar_spec(item@) is None,
        r matches Some(v) ==> yaml_scalar_spec(item@) == Some(v@),
{
    let t = trim_str(item);
    let c = chars_of(t.as_str());
    proof {
        reveal_strlit("\"");
        reveal_strlit("'");
    }
    assert("\""@ =~= seq!['"']);
    assert("'"@ =~= seq!['\'']);
    if c.len() > 0 && (c[0] == '"' || c[0] == '\'') {
        let q = c[0];
        assert(c@.subrange(0, 1) =~= seq![q]);
        assert(has_prefix(c@, "\""@) ==> c@.subrange(0, 1)[0] == '"');
        assert(has_prefix(c@, "\""@) <==> q == '"');
        assert(has_prefix(c@, "'"@) ==> c@.subrange(0, 1)[0] == '\'');
        assert(has_prefix(c@, "'"@) <==> q == '\'');
        let rest = crate::text::slice_vec(&c, 1, c.len());
        return match crate::text::find_char(&rest, q) {
            Some(i) => Some(string_of_range(&rest, 0, i)),
            None => None,
        };
    }
    assert(!has_prefix(c@, "\""@) && !has_prefix(c@, "'"@)) by {
        if c@.len() > 0 {
            assert(c@.subrange(0, 1) =~= seq![c@[0]]);
            assert(has_prefix(c@, "\""@) ==> c@.subrange(0, 1)[0] == '"');
            assert(has_prefix(c@, "'"@) ==> c@.subrange(0, 1)[0] == '\'');
        }
    }
    let pat = chars_of(" #");
    let end = match crate::text::find_from(&c, &pat, 0) {
        Some(k) => {
            proof {
                crate::text::lemma_first_occurrence(c@, pat@, k as int);
            }
            k
        },
        None => {
            assert(!crate::text::contains_seq(c@, pat@));
            c.len()
        },
    };
    let (a, b) = crate::text::trim_range(&c, 0, end);
    Some(string_of_range(&c, a, b))
}

/// A line without the `\r` before its line feed.
pub open spec fn strip_cr(l: Seq<char>) -> Seq<char> {
    if l.len() > 0 && l.last() == '\r' {
        l.drop_last()
    } else {
        l
    }
}

/// `str::lines`: split at line feeds, each ended line without a carriage
/// return before its line feed, and no empty line after a final line feed.
pub open spec fn text_lines(s: Seq<char>) -> Seq<Seq<char>> {
    let parts = crate::text::split_pat(s, "\n"@);
    let n = parts.len() as int;
    let ended = parts.subrange(0, n - 1).map_values(|l: Seq<char>| strip_cr(l));
    if parts[n - 1].len() == 0 {
        ended
    } else {
        ended.push(parts[n - 1])
    }
}

/// The non-empty scalars of a flow list's items.
pub open spec fn flow_items(parts: Seq<Seq<char>>) -> Seq<Seq<char>>
    decreases parts.len(),
{
    if parts.len() == 0 {
        seq![]
    } else {
        let before = flow_items(parts.drop_last());
        match yaml_scalar_spec(trim(parts.last())) {
            Some(v) => if v.len() > 0 {
                before.push(v)
            } else {
                before
            },
            None => before,
        }
    }
}

/// One line of `pnpm-workspace.yaml`, with whether the `packages:` block
/// is open and the patterns so far.
pub open spec fn pnpm_step(st: (bool, Seq<Seq<char>>), raw: Seq<char>) -> (bool, Seq<Seq<char>>) {
    let line = crate::text::trim_end(raw);
    let trimmed = crate::text::trim_start(line);
    if trimmed.len() == 0 || has_prefix(trimmed, "#"@) {
        st
    } else if has_prefix(trimmed, "-"@) {
        if st.0 {
            match yaml_scalar_spec(trim(trimmed.subrange(1, trimmed.len() as int))) {
                Some(v) => if v.len() > 0 {
                    (st.0, st.1.push(v))
                } else {
                    st
                },
                None => st,
            }
        } else {
            st
        }
    } else if line.len() != trimmed.len() {
        st
    } else if has_prefix(trimmed, "packages:"@) {
        let rest = trim(trimmed.subrange(9, trimmed.len() as int));
        let pats = if has_prefix(rest, "["@) {
            st.1 + flow_items(
                crate::text::split_pat(
                    crate::text::trim_end_by(rest.subrange(1, rest.len() as int), |c: char| c == ']'),
                    ","@,
                ),
            )
        } else {
            st.1
        };
        (rest.len() == 0, pats)
    } else {
        (false, st.1)
    }
}

pub open spec fn pnpm_fold(lines: Seq<Seq<char>>) -> (bool, Seq<Seq<char>>)
    decreases lines.len(),
{
    if lines.len() == 0 {
        (false, seq![])
    } else {
        pnpm_step(pnpm_fold(lines.drop_last()), lines.last())
    }
}

/// The package patterns of a `pnpm-workspace.yaml`: the items of its
/// top-level `packages:` block or flow list.
pub open spec fn pnpm_patterns_spec(text: Seq<char>) -> Seq<Seq<char>> {
    pnpm_fold(text_lines(text)).1
}


fn strip_cr_exec(v: &Vec<char>) -> (r: String)
    ensures
        r@ == strip_cr(v@),
{
    if v.len() > 0 && v[v.len() - 1] == '\r' {
        let r = string_of_range(v, 0, v.len() - 1);
        assert(r@ =~= v@.drop_last());
        r
    } else {
        string_of(v)
    }
}

pub fn text_lines_exec(text: &str) -> (r: Vec<String>)
    ensures
        text_views(r@) == text_lines(text@),
{
    let sep = chars_of("\n");
    proof {
        reveal_strlit("\n");
    }
    let parts = crate::text::split_pat_exec(&chars_of(text), &sep);
    let ghost ps = crate::text::views(parts@);
    proof {
        crate::text::lemma_split_pat_from_len(text@, "\n"@, 0, 0);
    }
    let n = parts.len();
    let mut r: Vec<String> = Vec::new();
    let mut i: usize = 0;
    while i + 1 < n
        invariant
            0 <= i <= n - 1,
            n == parts@.len(),
            n >= 1,
            ps == crate::text::views(parts@),
            r@.len() == i,
            text_views(r@) == ps.subrange(0, i as int).map_values(|l: Seq<char>| strip_cr(l)),
        decreases n - i,
    {
        let line = strip_cr_exec(&parts[i]);
        let ghost before = r@;
        r.push(line);
        assert(text_views(r@) =~= text_views(before).push(line@));
        assert(ps.subrange(0, i + 1).map_values(|l: Seq<char>| strip_cr(l)) =~= ps.subrange(0, i as int).map_values(
            |l: Seq<char>| strip_cr(l),
        ).push(strip_cr(ps[i as int])));
        i = i + 1;
    }
    if parts[n - 1].len() > 0 {
        let last = string_of(&parts[n - 1]);
        let ghost before = r@;
        r.push(last);
        assert(text_views(r@) =~= text_views(before).push(last@));
    }
    r
}

fn yaml_items_exec(parts: &Vec<Vec<char>>) -> (r: Vec<String>)
    ensures
        text_views(r@) == flow_items(crate::text::views(parts@)),
{
    let ghost ps = crate::text::views(parts@);
    let mut r: Vec<String> = Vec::new();
    let mut i: usize = 0;
    while i < parts.len()
        invariant
            0 <= i <= parts@.len(),
            ps == crate::text::views(parts@),
            text_views(r@) == flow_items(ps.subrange(0, i as int)),
        decreases parts@.len() - i,
    {
        assert(ps.subrange(0, i + 1).drop_last() =~= ps.subrange(0, i as int));
        let (a, b) = crate::text::trim_range(&parts[i], 0, parts[i].len());
        assert(parts@[i as int]@.subrange(0, parts@[i as int]@.len() as int) =~= parts@[i as int]@);
        let item = string_of_range(&parts[i], a, b);
        match yaml_scalar(item.as_str()) {
            Some(v) => {
                if v.unicode_len() > 0 {
                    let ghost before = r@;
                    r.push(v);
                    assert(text_views(r@) =~= text_views(before).push(v@));
                }
            },
            None => {},
        }
        i = i + 1;
    }
    assert(ps.subrange(0, parts@.len() as int) =~= ps);
    r
}

/// The length of `v` without trailing whitespace.
fn trim_end_len(v: &Vec<char>) -> (r: usize)
    ensures
        r <= v@.len(),
        v@.subrange(0, r as int) == crate::text::trim_end(v@),
{
    let mut b = v.len();
    while b > 0 && crate::text::is_ws_char(v[b - 1])
        invariant
            0 <= b <= v@.len(),
            forall|i: int| b <= i < v@.len() ==> crate::text::is_ws(v@[i]),
        decreases b,
    {
        b = b - 1;
    }
    proof {
        crate::text::lemma_trim_end_by_index(v@, crate::text::ws_pred(), b as int);
    }
    b
}

/// The index of the first non-whitespace character of `v[..to]`.
fn trim_start_at(v: &Vec<char>, to: usize) -> (r: usize)
    requires
        to <= v@.len(),
    ensures
        r <= to,
        v@.subrange(r as int, to as int) == crate::text::trim_start(v@.subrange(0, to as int)),
{
    let ghost sub = v@.subrange(0, to as int);
    let mut a: usize = 0;
    while a < to && crate::text::is_ws_char(v[a])
        invariant
            0 <= a <= to <= v@.len(),
            forall|i: int| 0 <= i < a ==> crate::text::is_ws(v@[i]),
        decreases to - a,
    {
        a = a + 1;
    }
    proof {
        assert forall|i: int| 0 <= i < a implies crate::text::ws_pred()(sub[i]) by {
            assert(sub[i] == v@[i]);
        }
        if a < to {
            assert(sub[a as int] == v@[a as int]);
        }
        crate::text::lemma_trim_start_by_index(sub, crate::text::ws_pred(), a as int);
        assert(sub.subrange(a as int, sub.len() as int) =~= v@.subrange(a as int, to as int));
    }
    a
}

fn pnpm_line(in_packages: &mut bool, patterns: &mut Vec<String>, raw: &str)
    ensures
        (*final(in_packages), text_views(final(patterns)@)) == pnpm_step((*old(in_packages), text_views(old(patterns)@)), raw@),
{
    let v = chars_of(raw);
    let end = trim_end_len(&v);
    let start = trim_start_at(&v, end);
    let ghost line = v@.subrange(0, end as int);
    let ghost trimmed = v@.subrange(start as int, end as int);
    assert(line == crate::text::trim_end(raw@));
    assert(trimmed == crate::text::trim_start(line));
    proof {
        reveal_strlit("#");
        reveal_strlit("-");
        reveal_strlit("[");
    }
    assert("#"@ =~= seq!['#']);
    assert("-"@ =~= seq!['-']);
    assert("["@ =~= seq!['[']);
    if start == end {
        return;
    }
    assert(trimmed.subrange(0, 1) =~= seq![v@[start as int]]);
    if v[start] == '#' {
        assert(has_prefix(trimmed, "#"@));
        return;
    }
    assert(!has_prefix(trimmed, "#"@)) by {
        assert(has_prefix(trimmed, "#"@) ==> trimmed.subrange(0, 1)[0] == '#');
    }
    if v[start] == '-' {
        assert(has_prefix(trimmed, "-"@));
        if *in_packages {
            let item = string_of_range(&v, start + 1, end);
            assert(item@ =~= trimmed.subrange(1, trimmed.len() as int));
            let t = trim_str(item.as_str());
            match yaml_scalar(t.as_str()) {
                Some(val) => {
                    if val.unicode_len() > 0 {
                        let ghost before = text_views(patterns@);
                        patterns.push(val);
                        assert(text_views(patterns@) =~= before.push(val@));
                    }
                },
                None => {},
            }
        }
        return;
    }
    assert(!has_prefix(trimmed, "-"@)) by {
        assert(has_prefix(trimmed, "-"@) ==> trimmed.subrange(0, 1)[0] == '-');
    }
    if start != 0 {
        return;
    }
    let t = string_of_range(&v, start, end);
    assert(t@ == trimmed);
    if crate::text::starts_with_str(t.as_str(), "packages:") {
        proof {
            reveal_strlit("packages:");
        }
        let tc = chars_of(t.as_str());
        let after = string_of_range(&tc, 9, tc.len());
        let rest = trim_str(after.as_str());
        let rc = chars_of(rest.as_str());
        if rc.len() > 0 && rc[0] == '[' {
            assert(rc@.subrange(0, 1) =~= seq!['[']);
            assert(has_prefix(rest@, "["@));
            let mut m = rc.len();
            let ghost inner0 = rc@.subrange(1, rc@.len() as int);
            assert(rc@.subrange(1, m as int) =~= inner0);
            while m > 1 && rc[m - 1] == ']'
                invariant
                    1 <= m <= rc@.len(),
                    crate::text::trim_end_by(inner0, |c: char| c == ']') == crate::text::trim_end_by(
                        rc@.subrange(1, m as int),
                        |c: char| c == ']',
                    ),
                decreases m,
            {
                assert(rc@.subrange(1, m as int).drop_last() =~= rc@.subrange(1, m - 1));
                m = m - 1;
            }
            let inner = crate::text::slice_vec(&rc, 1, m);
            let comma = chars_of(",");
            proof {
                reveal_strlit(",");
            }
            let parts = crate::text::split_pat_exec(&inner, &comma);
            let items = yaml_items_exec(&parts);
            let ghost before = text_views(patterns@);
            append_strings(patterns, &items);
            assert(text_views(patterns@) == before + text_views(items@));
        } else {
            assert(!has_prefix(rest@, "["@)) by {
                if rc@.len() > 0 {
                    assert(has_prefix(rest@, "["@) ==> rc@.subrange(0, 1)[0] == '[');
                }
            }
        }
        *in_packages = rc.len() == 0;
    } else {
        *in_packages = false;
    }
}

fn append_strings(v: &mut Vec<String>, more: &Vec<String>)
    ensures
        text_views(final(v)@) == text_views(old(v)@) + text_views(more@),
{
    let ghost start = text_views(v@);
    let mut i: usize = 0;
    while i < more.len()
        invariant
            0 <= i <= more@.len(),
            text_views(v@) == start + text_views(more@.subrange(0, i as int)),
        decreases more@.len() - i,
    {
        let ghost before = text_views(v@);
        let item = more[i].clone();
        v.push(item);
        assert(text_views(v@) =~= before.push(item@));
        assert(text_views(more@.subrange(0, i + 1)) =~= text_views(more@.subrange(0, i as int)).push(more@[i as int]@));
        i = i + 1;
    }
    assert(more@.subrange(0, more@.len() as int) =~= more@);
}

/// The package patterns of a `pnpm-workspace.yaml` text.
pub fn pnpm_workspace_patterns(text: &str) -> (r: Vec<String>)
    ensures
        text_views(r@) == pnpm_patterns_spec(text@),
{
    let lines = text_lines_exec(text);
    let ghost ls = text_views(lines@);
    let mut in_packages = false;
    let mut patterns: Vec<String> = Vec::new();
    let mut i: usize = 0;
    while i < lines.len()
        invariant
            0 <= i <= lines@.len(),
            ls == text_views(lines@),
            (in_packages, text_views(patterns@)) == pnpm_fold(ls.subrange(0, i as int)),
        decreases lines@.len() - i,
    {
        assert(ls.subrange(0, i + 1).drop_last() =~= ls.subrange(0, i as int));
        pnpm_line(&mut in_packages, &mut patterns, lines[i].as_str());
        i = i + 1;
    }
    assert(ls.subrange(0, lines@.len() as int) =~= ls);
    patterns
}


/// The string items of a JSON array.
pub open spec fn string_items(items: Seq<crate::json::JsonValue>) -> Seq<Seq<char>>
    decreases items.len(),
{
    if items.len() == 0 {
        seq![]
    } else {
        let before = string_items(items.drop_last());
        match items.last() {
            crate::json::JsonValue::String(s) => before.push(s@),
            _ => before,
        }
    }
}

/// The `workspaces` patterns of a package.json: its array, or the
/// `packages` array of its object form.
pub open spec fn package_json_patterns_spec(pj: crate::json::JsonValue) -> Seq<Seq<char>> {
    match pj.spec_get("workspaces"@) {
        Some(crate::json::JsonValue::Array(items)) => string_items(items@),
        Some(w) => match w.spec_get("packages"@) {
            Some(crate::json::JsonValue::Array(items)) => string_items(items@),
            _ => seq![],
        },
        None => seq![],
    }
}

fn string_items_exec(items: &Vec<crate::json::JsonValue>) -> (r: Vec<String>)
    ensures
        text_views(r@) == string_items(items@),
{
    let mut r: Vec<String> = Vec::new();
    let mut i: usize = 0;
    while i < items.len()
        invariant
            0 <= i <= items@.len(),
            text_views(r@) == string_items(items@.subrange(0, i as int)),
        decreases items@.len() - i,
    {
        assert(items@.subrange(0, i + 1).drop_last() =~= items@.subrange(0, i as int));
        match &items[i] {
            crate::json::JsonValue::String(s) => {
                let ghost before = text_views(r@);
                let item = s.clone();
                r.push(item);
                assert(text_views(r@) =~= before.push(item@));
            },
            _ => {},
        }
        i = i + 1;
    }
    assert(items@.subrange(0, items@.len() as int) =~= items@);
    r
}

pub fn package_json_workspace_patterns(pj: &crate::json::JsonValue) -> (r: Vec<String>)
    ensures
        text_views(r@) == package_json_patterns_spec(*pj),
{
    match crate::json::get(pj, "workspaces") {
        Some(crate::json::JsonValue::Array(items)) => string_items_exec(items),
        Some(w) => match crate::json::get(w, "packages") {
            Some(crate::json::JsonValue::Array(items)) => string_items_exec(items),
            _ => Vec::new(),
        },
        None => Vec::new(),
    }
}

// ---------------------------------------------------------------------------
// pyproject.toml

/// Every string in a value, depth first (tables in their key order).
pub open spec fn value_strings(v: crate::json::JsonValue) -> Seq<Seq<char>>
    decreases v, 1int,
{
    match v {
        crate::json::JsonValue::String(s) => seq![s@],
        crate::json::JsonValue::Array(items) => {
            proof {
                assert(decreases_to!(v => items));
                assert(decreases_to!(items => items@));
            }
            items_strings(items@)
        },
        crate::json::JsonValue::Object(members) => {
            proof {
                assert(decreases_to!(v => members));
                assert(decreases_to!(members => members@));
            }
            members_strings(members@)
        },
        _ => seq![],
    }
}

pub open spec fn items_strings(items: Seq<crate::json::JsonValue>) -> Seq<Seq<char>>
    decreases items, 0int,
{
    if items.len() == 0 {
        seq![]
    } else {
        proof {
            assert(decreases_to!(items => items[items.len() - 1]));
        }
        items_strings(items.drop_last()) + value_strings(items.last())
    }
}

pub open spec fn members_strings(members: Seq<(String, crate::json::JsonValue)>) -> Seq<Seq<char>>
    decreases members, 0int,
{
    if members.len() == 0 {
        seq![]
    } else {
        proof {
            assert(decreases_to!(members => members[members.len() - 1]));
            assert(decreases_to!(members[members.len() - 1] => members[members.len() - 1].1));
        }
        members_strings(members.drop_last()) + value_strings(members.last().1)
    }
}

/// Push every string of a value, depth first.
pub fn collect_strings(value: &crate::json::JsonValue, out: &mut Vec<String>)
    ensures
        text_views(final(out)@) == text_views(old(out)@) + value_strings(*value),
    decreases value,
{
    let ghost start = text_views(out@);
    match value {
        crate::json::JsonValue::String(s) => {
            out.push(s.clone());
            assert(text_views(out@) =~= start + value_strings(*value));
        },
        crate::json::JsonValue::Array(items) => {
            let mut i: usize = 0;
            assert(start + items_strings(items@.subrange(0, 0)) =~= start);
            while i < items.len()
                invariant
                    0 <= i <= items@.len(),
                    *value == crate::json::JsonValue::Array(*items),
                    text_views(out@) == start + items_strings(items@.subrange(0, i as int)),
                decreases items@.len() - i,
            {
                assert(decreases_to!(*value => value->Array_0));
                assert(decreases_to!(*items => items@));
                assert(decreases_to!(items@ => items@[i as int]));
                assert(decreases_to!(*value => items@[i as int]));
                collect_strings(&items[i], out);
                let ghost next = items@.subrange(0, i + 1);
                assert(next.drop_last() =~= items@.subrange(0, i as int));
                assert(next.last() == items@[i as int]);
                assert(text_views(out@) =~= start + items_strings(next));
                i = i + 1;
            }
            assert(items@.subrange(0, items@.len() as int) =~= items@);
        },
        crate::json::JsonValue::Object(members) => {
            let mut i: usize = 0;
            assert(start + members_strings(members@.subrange(0, 0)) =~= start);
            while i < members.len()
                invariant
                    0 <= i <= members@.len(),
                    *value == crate::json::JsonValue::Object(*members),
                    text_views(out@) == start + members_strings(members@.subrange(0, i as int)),
                decreases members@.len() - i,
            {
                assert(decreases_to!(*value => value->Object_0));
                assert(decreases_to!(*members => members@));
                assert(decreases_to!(members@ => members@[i as int]));
                assert(decreases_to!(members@[i as int] => members@[i as int].1));
                assert(decreases_to!(*value => members@[i as int].1));
                collect_strings(&members[i].1, out);
                let ghost next = members@.subrange(0, i + 1);
                assert(next.drop_last() =~= members@.subrange(0, i as int));
                assert(next.last() == members@[i as int]);
                assert(text_views(out@) =~= start + members_strings(next));
                i = i + 1;
            }
            assert(members@.subrange(0, members@.len() as int) =~= members@);
        },
        _ => {
            assert(text_views(out@) =~= start + value_strings(*value));
        },
    }
}

/// The strings of an array (none for another value).
pub open spec fn string_list_spec(v: Option<crate::json::JsonValue>) -> Seq<Seq<char>> {
    match v {
        Some(crate::json::JsonValue::Array(items)) => string_items(items@),
        _ => seq![],
    }
}

/// The string lists of a table's values, in key order.
pub open spec fn member_lists(members: Seq<(String, crate::json::JsonValue)>) -> Seq<Seq<char>>
    decreases members.len(),
{
    if members.len() == 0 {
        seq![]
    } else {
        member_lists(members.drop_last()) + string_list_spec(Some(members.last().1))
    }
}

/// The dependency strings of a `pyproject.toml` (its TOML as a value):
/// `project.dependencies`, then each `project.optional-dependencies` list,
/// then every string of `dependency-groups`.
pub open spec fn python_dependency_strings_spec(data: crate::json::JsonValue) -> Seq<Seq<char>> {
    let project = match data.spec_get("project"@) {
        Some(crate::json::JsonValue::Object(_)) => {
            let p = data.spec_get("project"@)->Some_0;
            string_list_spec(p.spec_get("dependencies"@)) + match p.spec_get("optional-dependencies"@) {
                Some(crate::json::JsonValue::Object(m)) => member_lists(m@),
                _ => seq![],
            }
        },
        _ => seq![],
    };
    let groups = match data.spec_get("dependency-groups"@) {
        Some(crate::json::JsonValue::Object(m)) => members_strings(m@),
        _ => seq![],
    };
    project + groups
}

fn push_string_list(out: &mut Vec<String>, v: Option<&crate::json::JsonValue>)
    ensures
        text_views(final(out)@) == text_views(old(out)@) + string_list_spec(match v {
            Some(j) => Some(*j),
            None => None,
        }),
{
    let ghost start = text_views(out@);
    if let Some(crate::json::JsonValue::Array(items)) = v {
        let list = string_items_exec(items);
        let mut i: usize = 0;
        while i < list.len()
            invariant
                0 <= i <= list@.len(),
                text_views(out@) == start + text_views(list@).subrange(0, i as int),
            decreases list@.len() - i,
        {
            let ghost before = text_views(out@);
            let item = list[i].clone();
            out.push(item);
            assert(text_views(out@) =~= before.push(item@));
            assert(text_views(list@).subrange(0, i + 1) =~= text_views(list@).subrange(0, i as int).push(list@[i as int]@));
            assert(text_views(out@) =~= start + text_views(list@).subrange(0, i + 1));
            i = i + 1;
        }
        assert(text_views(list@).subrange(0, list@.len() as int) =~= text_views(list@));
    } else {
        assert(text_views(out@) =~= start + seq![]);
    }
}

/// The dependency strings of a `pyproject.toml` (see
/// `python_dependency_strings_spec`).
pub fn python_dependency_strings(data: &crate::json::JsonValue) -> (r: Vec<String>)
    ensures
        text_views(r@) == python_dependency_strings_spec(*data),
{
    let mut out: Vec<String> = Vec::new();
    if let Some(p) = crate::json::get(data, "project") {
        if let crate::json::JsonValue::Object(_) = p {
            push_string_list(&mut out, crate::json::get(p, "dependencies"));
            if let Some(crate::json::JsonValue::Object(m)) = crate::json::get(p, "optional-dependencies") {
                let ghost start = text_views(out@);
                let mut i: usize = 0;
                assert(start + member_lists(m@.subrange(0, 0)) =~= start);
                while i < m.len()
                    invariant
                        0 <= i <= m@.len(),
                        text_views(out@) == start + member_lists(m@.subrange(0, i as int)),
                    decreases m@.len() - i,
                {
                    push_string_list(&mut out, Some(&m[i].1));
                    let ghost next = m@.subrange(0, i + 1);
                    assert(next.drop_last() =~= m@.subrange(0, i as int));
                    assert(next.last() == m@[i as int]);
                    assert(text_views(out@) =~= start + member_lists(next));
                    i = i + 1;
                }
                assert(m@.subrange(0, m@.len() as int) =~= m@);
            }
        }
    }
    let ghost before_groups = text_views(out@);
    if let Some(g) = crate::json::get(data, "dependency-groups") {
        if let crate::json::JsonValue::Object(_) = g {
            collect_strings(g, &mut out);
        }
    }
    assert(text_views(out@) =~= python_dependency_strings_spec(*data));
    out
}

/// The `tool.uv` table of a `pyproject.toml`, if it is one.
pub open spec fn uv_table(data: crate::json::JsonValue) -> Option<crate::json::JsonValue> {
    match data.spec_get("tool"@) {
        Some(crate::json::JsonValue::Object(_)) => match data.spec_get("tool"@)->Some_0.spec_get("uv"@) {
            Some(crate::json::JsonValue::Object(m)) => Some(crate::json::JsonValue::Object(m)),
            _ => None,
        },
        _ => None,
    }
}

/// The `path` of each `tool.uv.sources` entry that is a table with one.
pub open spec fn source_paths(members: Seq<(String, crate::json::JsonValue)>) -> Seq<Seq<char>>
    decreases members.len(),
{
    if members.len() == 0 {
        seq![]
    } else {
        let rest = source_paths(members.drop_last());
        let v = members.last().1;
        match v {
            crate::json::JsonValue::Object(_) => match v.spec_get("path"@) {
                Some(crate::json::JsonValue::String(p)) => rest.push(p@),
                _ => rest,
            },
            _ => rest,
        }
    }
}

pub open spec fn uv_source_paths_spec(data: crate::json::JsonValue) -> Seq<Seq<char>> {
    match uv_table(data) {
        Some(uv) => match uv.spec_get("sources"@) {
            Some(crate::json::JsonValue::Object(m)) => source_paths(m@),
            _ => seq![],
        },
        None => seq![],
    }
}

fn uv_of(data: &crate::json::JsonValue) -> (r: Option<&crate::json::JsonValue>)
    ensures
        match r {
            Some(v) => uv_table(*data) == Some(*v),
            None => uv_table(*data) is None,
        },
{
    match crate::json::get(data, "tool") {
        Some(tool) => match tool {
            crate::json::JsonValue::Object(_) => match crate::json::get(tool, "uv") {
                Some(uv) => match uv {
                    crate::json::JsonValue::Object(_) => Some(uv),
                    _ => None,
                },
                None => None,
            },
            _ => None,
        },
        None => None,
    }
}

/// The paths of the `tool.uv.sources` entries of a `pyproject.toml`.
pub fn uv_source_paths(data: &crate::json::JsonValue) -> (r: Vec<String>)
    ensures
        text_views(r@) == uv_source_paths_spec(*data),
{
    let mut out: Vec<String> = Vec::new();
    if let Some(uv) = uv_of(data) {
        if let Some(crate::json::JsonValue::Object(m)) = crate::json::get(uv, "sources") {
            let mut i: usize = 0;
            while i < m.len()
                invariant
                    0 <= i <= m@.len(),
                    text_views(out@) == source_paths(m@.subrange(0, i as int)),
                decreases m@.len() - i,
            {
                let ghost next = m@.subrange(0, i + 1);
                assert(next.drop_last() =~= m@.subrange(0, i as int));
                assert(next.last() == m@[i as int]);
                let v = &m[i].1;
                if let crate::json::JsonValue::Object(_) = v {
                    if let Some(crate::json::JsonValue::String(p)) = crate::json::get(v, "path") {
                        let ghost before = text_views(out@);
                        out.push(p.clone());
                        assert(text_views(out@) =~= before.push(p@));
                    }
                }
                i = i + 1;
            }
            assert(m@.subrange(0, m@.len() as int) =~= m@);
        }
    }
    out
}

pub open spec fn uv_workspace_members_spec(data: crate::json::JsonValue) -> Seq<Seq<char>> {
    match uv_table(data) {
        Some(uv) => match uv.spec_get("workspace"@) {
            Some(crate::json::JsonValue::Object(_)) => match uv.spec_get("workspace"@)->Some_0.spec_get("members"@) {
                Some(crate::json::JsonValue::Array(items)) => string_items(items@),
                _ => seq![],
            },
            _ => seq![],
        },
        None => seq![],
    }
}

/// The `tool.uv.workspace.members` patterns of a `pyproject.toml`.
pub fn uv_workspace_members(data: &crate::json::JsonValue) -> (r: Vec<String>)
    ensures
        text_views(r@) == uv_workspace_members_spec(*data),
{
    match uv_of(data) {
        Some(uv) => match crate::json::get(uv, "workspace") {
            Some(w) => match w {
                crate::json::JsonValue::Object(_) => match crate::json::get(w, "members") {
                    Some(crate::json::JsonValue::Array(items)) => string_items_exec(items),
                    _ => Vec::new(),
                },
                _ => Vec::new(),
            },
            None => Vec::new(),
        },
        None => Vec::new(),
    }
}

} // verus!
