//! Matching a workspace pattern (`packages/*`, `libs/.*`) against the
//! directories under a root, one `/`-separated segment at a time: empty
//! and `.` segments are skipped, `..` goes up, a literal segment keeps the
//! paths that exist, and a glob segment keeps the entries whose names it
//! matches, names starting with `.` only when the segment does too.
//!
//! The caller lists directories and checks existence; which paths are kept
//! is decided here. The matched paths are finally resolved by the caller
//! and sorted with `sorted_texts_exec`.
use vstd::prelude::*;
use crate::event::text_views;
use crate::paths::{join, join_spec};
use crate::text::{chars_of, copy_str, split_pat, split_pat_exec, views};

verus! {

/// What `globset` makes of one segment matched against one name: whether
/// it matches, or none when the segment is not a valid glob.
pub uninterp spec fn segment_match(segment: Seq<char>, name: Seq<char>) -> Option<bool>;

/// `globset::GlobBuilder::new(segment).literal_separator(true).build()`,
/// then `is_match(name)`; none when the segment does not build.
#[verifier::external_body]
fn segment_glob_match(segment: &str, name: &str) -> (r: Option<bool>)
    ensures
        r == segment_match(segment@, name@),
{
    match globset::GlobBuilder::new(segment).literal_separator(true).build() {
        Ok(glob) => Some(glob.compile_matcher().is_match(name)),
        Err(_) => None,
    }
}

/// Whether a glob segment admits an entry: names starting with `.` only
/// when the segment starts with `.` too; none when the segment is not a
/// valid glob.
pub open spec fn segment_admits_spec(segment: Seq<char>, name: Seq<char>) -> Option<bool> {
    if segment_match(segment, name) is None {
        None
    } else if name.len() > 0 && name[0] == '.' && !(segment.len() > 0 && segment[0] == '.') {
        Some(false)
    } else {
        segment_match(segment, name)
    }
}

pub fn segment_admits(segment: &str, name: &str) -> (r: Option<bool>)
    ensures
        r == segment_admits_spec(segment@, name@),
{
    let m = segment_glob_match(segment, name);
    if m.is_none() {
        return None;
    }
    let n = chars_of(name);
    let s = chars_of(segment);
    if n.len() > 0 && n[0] == '.' && !(s.len() > 0 && s[0] == '.') {
        return Some(false);
    }
    m
}

/// What a segment does.
#[derive(Debug, Clone, Copy, PartialEq, Eq, Structural)]
pub enum SegmentKind {
    /// Empty or `.`: nothing.
    Skip,
    /// `..`: every path goes up.
    Up,
    /// No `*`, `?` or `[`: every path joined with it, where that exists.
    Literal,
    /// A glob: the entries of every path whose names it admits.
    Pattern,
}

pub open spec fn segment_kind_spec(s: Seq<char>) -> SegmentKind {
    if s.len() == 0 || s == "."@ {
        SegmentKind::Skip
    } else if s == ".."@ {
        SegmentKind::Up
    } else if s.contains('*') || s.contains('?') || s.contains('[') {
        SegmentKind::Pattern
    } else {
        SegmentKind::Literal
    }
}

pub fn segment_kind(segment: &str) -> (r: SegmentKind)
    ensures
        r == segment_kind_spec(segment@),
{
    let v = chars_of(segment);
    proof {
        reveal_strlit(".");
        reveal_strlit("..");
    }
    if v.len() == 0 || (v.len() == 1 && v[0] == '.') {
        if v.len() == 1 {
            assert(v@ =~= "."@);
        }
        return SegmentKind::Skip;
    }
    if v.len() == 2 && v[0] == '.' && v[1] == '.' {
        assert(v@ =~= ".."@);
        return SegmentKind::Up;
    }
    assert(v@ != "."@);
    assert(v@ != ".."@) by {
        if v@ == ".."@ {
            assert(v@.len() == 2 && v@[0] == '.' && v@[1] == '.');
        }
    }
    let mut i: usize = 0;
    while i < v.len()
        invariant
            0 <= i <= v@.len(),
            v@ == segment@,
            v@.len() != 0,
            v@ != "."@,
            v@ != ".."@,
            forall|k: int| 0 <= k < i ==> v@[k] != '*' && v@[k] != '?' && v@[k] != '[',
        decreases v@.len() - i,
    {
        if v[i] == '*' || v[i] == '?' || v[i] == '[' {
            assert(v@.contains(v@[i as int]));
            return SegmentKind::Pattern;
        }
        i = i + 1;
    }
    SegmentKind::Literal
}

/// The segments of a pattern.
pub fn pattern_segments(pattern: &str) -> (r: Vec<String>)
    ensures
        text_views(r@) == split_pat(pattern@, seq!['/']),
{
    let chars = chars_of(pattern);
    let mut slash: Vec<char> = Vec::new();
    slash.push('/');
    assert(slash@ =~= seq!['/']);
    let parts = split_pat_exec(&chars, &slash);
    let mut out: Vec<String> = Vec::new();
    let mut i: usize = 0;
    while i < parts.len()
        invariant
            0 <= i <= parts@.len(),
            text_views(out@) == views(parts@).subrange(0, i as int),
        decreases parts@.len() - i,
    {
        let ghost before = text_views(out@);
        let piece = crate::text::string_of(&parts[i]);
        out.push(piece);
        assert(text_views(out@) =~= before.push(parts@[i as int]@));
        i = i + 1;
    }
    assert(views(parts@).subrange(0, parts@.len() as int) =~= views(parts@));
    out
}

/// Every path one level up.
pub open spec fn up_all(paths: Seq<Seq<char>>) -> Seq<Seq<char>> {
    paths.map_values(|p: Seq<char>| join_spec(p, ".."@))
}

pub fn glob_up(paths: &Vec<String>) -> (r: Vec<String>)
    ensures
        text_views(r@) == up_all(text_views(paths@)),
{
    let mut out: Vec<String> = Vec::new();
    let mut i: usize = 0;
    while i < paths.len()
        invariant
            0 <= i <= paths@.len(),
            text_views(out@) == up_all(text_views(paths@).subrange(0, i as int)),
        decreases paths@.len() - i,
    {
        let ghost before = text_views(out@);
        let p = join(paths[i].as_str(), "..");
        assert(p@ == join_spec(text_views(paths@)[i as int], ".."@));
        out.push(p);
        assert(text_views(out@) =~= before.push(p@));
        assert(text_views(out@) =~= up_all(text_views(paths@).subrange(0, i + 1)));
        i = i + 1;
    }
    assert(text_views(paths@).subrange(0, paths@.len() as int) =~= text_views(paths@));
    out
}

/// Every path joined with a literal segment, where the joined path exists
/// (`exists`, one flag per path).
pub open spec fn literal_step(paths: Seq<Seq<char>>, segment: Seq<char>, exists: Seq<bool>) -> Seq<Seq<char>>
    decreases paths.len(),
{
    if paths.len() == 0 || exists.len() == 0 {
        seq![]
    } else {
        let rest = literal_step(paths.drop_last(), segment, exists.drop_last());
        if exists.last() {
            rest.push(join_spec(paths.last(), segment))
        } else {
            rest
        }
    }
}

pub fn glob_literal(paths: &Vec<String>, segment: &str, exists: &Vec<bool>) -> (r: Vec<String>)
    requires
        exists@.len() == paths@.len(),
    ensures
        text_views(r@) == literal_step(text_views(paths@), segment@, exists@),
{
    let ghost ps = text_views(paths@);
    let mut out: Vec<String> = Vec::new();
    let mut i: usize = 0;
    while i < paths.len()
        invariant
            0 <= i <= paths@.len(),
            exists@.len() == paths@.len(),
            ps == text_views(paths@),
            text_views(out@) == literal_step(ps.subrange(0, i as int), segment@, exists@.subrange(0, i as int)),
        decreases paths@.len() - i,
    {
        assert(ps.subrange(0, i + 1).drop_last() =~= ps.subrange(0, i as int));
        assert(exists@.subrange(0, i + 1).drop_last() =~= exists@.subrange(0, i as int));
        if exists[i] {
            let ghost before = text_views(out@);
            let p = join(paths[i].as_str(), segment);
            out.push(p);
            assert(text_views(out@) =~= before.push(join_spec(ps[i as int], segment@)));
        }
        i = i + 1;
    }
    assert(ps.subrange(0, paths@.len() as int) =~= ps);
    assert(exists@.subrange(0, paths@.len() as int) =~= exists@);
    out
}

/// The entries of one directory a glob segment admits, joined to it, in
/// listing order.
pub open spec fn admitted_entries(dir: Seq<char>, names: Seq<Seq<char>>, segment: Seq<char>) -> Seq<Seq<char>>
    decreases names.len(),
{
    if names.len() == 0 {
        seq![]
    } else {
        let rest = admitted_entries(dir, names.drop_last(), segment);
        if segment_admits_spec(segment, names.last()) == Some(true) {
            rest.push(join_spec(dir, names.last()))
        } else {
            rest
        }
    }
}

/// The admitted entries of every directory, directory by directory.
pub open spec fn pattern_step(paths: Seq<Seq<char>>, listings: Seq<Seq<Seq<char>>>, segment: Seq<char>) -> Seq<Seq<char>>
    decreases paths.len(),
{
    if paths.len() == 0 || listings.len() == 0 {
        seq![]
    } else {
        pattern_step(paths.drop_last(), listings.drop_last(), segment) + admitted_entries(
            paths.last(),
            listings.last(),
            segment,
        )
    }
}

pub open spec fn listings_view(listings: Seq<Vec<String>>) -> Seq<Seq<Seq<char>>> {
    listings.map_values(|l: Vec<String>| text_views(l@))
}

fn push_admitted(out: &mut Vec<String>, dir: &str, names: &Vec<String>, segment: &str)
    ensures
        text_views(final(out)@) == text_views(old(out)@) + admitted_entries(dir@, text_views(names@), segment@),
{
    let ghost start = text_views(out@);
    let ghost ns = text_views(names@);
    let mut i: usize = 0;
    assert(start + admitted_entries(dir@, ns.subrange(0, 0), segment@) =~= start);
    while i < names.len()
        invariant
            0 <= i <= names@.len(),
            ns == text_views(names@),
            text_views(out@) == start + admitted_entries(dir@, ns.subrange(0, i as int), segment@),
        decreases names@.len() - i,
    {
        assert(ns.subrange(0, i + 1).drop_last() =~= ns.subrange(0, i as int));
        if segment_admits(segment, names[i].as_str()) == Some(true) {
            let ghost before = text_views(out@);
            let p = join(dir, names[i].as_str());
            out.push(p);
            assert(text_views(out@) =~= before.push(join_spec(dir@, ns[i as int])));
        }
        i = i + 1;
    }
    assert(ns.subrange(0, names@.len() as int) =~= ns);
}

/// A glob segment applied to the paths, given each path's directory
/// listing (`listings`, one per path; empty where it cannot be read):
/// none when the segment is not a valid glob, which ends the whole match
/// with nothing.
pub fn glob_pattern(paths: &Vec<String>, segment: &str, listings: &Vec<Vec<String>>) -> (r: Option<Vec<String>>)
    requires
        listings@.len() == paths@.len(),
    ensures
        segment_match(segment@, seq![]) is None ==> r is None,
        segment_match(segment@, seq![]) is Some ==> (r matches Some(v) && text_views(v@) == pattern_step(
            text_views(paths@),
            listings_view(listings@),
            segment@,
        )),
{
    let empty = String::new();
    if segment_glob_match(segment, empty.as_str()).is_none() {
        return None;
    }
    let ghost ps = text_views(paths@);
    let ghost ls = listings_view(listings@);
    let mut out: Vec<String> = Vec::new();
    let mut i: usize = 0;
    while i < paths.len()
        invariant
            0 <= i <= paths@.len(),
            listings@.len() == paths@.len(),
            ps == text_views(paths@),
            ls == listings_view(listings@),
            text_views(out@) == pattern_step(ps.subrange(0, i as int), ls.subrange(0, i as int), segment@),
        decreases paths@.len() - i,
    {
        assert(ps.subrange(0, i + 1).drop_last() =~= ps.subrange(0, i as int));
        assert(ls.subrange(0, i + 1).drop_last() =~= ls.subrange(0, i as int));
        assert(ls[i as int] == text_views(listings@[i as int]@));
        push_admitted(&mut out, paths[i].as_str(), &listings[i], segment);
        i = i + 1;
    }
    assert(ps.subrange(0, paths@.len() as int) =~= ps);
    assert(ls.subrange(0, paths@.len() as int) =~= ls);
    Some(out)
}

} // verus!
