//! npm-style version ranges (the `semantic_version.NpmSpec` subset used to
//! tell framework generations apart).
use vstd::prelude::*;

use crate::text::{
    before_first, char_pred, chars_of, eq_chars, has_prefix, parse_u64, parse_u64_exec, slice_vec,
    split_pat, split_pat_exec, starts_with_chars, string_of, trim, trim_range, trim_start_by,
    trim_str, views, words, words_exec,
};

verus! {

/// A release triple `major.minor.patch`.
pub type Triple = (u64, u64, u64);

/// A release triple as integers, so that `+ 1` never wraps.
pub open spec fn ints(v: Triple) -> (int, int, int) {
    (v.0 as int, v.1 as int, v.2 as int)
}

/// Lexicographic `<` on triples.
pub open spec fn vlt(a: (int, int, int), b: (int, int, int)) -> bool {
    a.0 < b.0 || (a.0 == b.0 && (a.1 < b.1 || (a.1 == b.1 && a.2 < b.2)))
}

/// Lexicographic `<=` on triples.
pub open spec fn vle(a: (int, int, int), b: (int, int, int)) -> bool {
    vlt(a, b) || a == b
}

/// A version where `x`, `X` or `*` (or a missing part) leaves a component
/// open.
#[derive(Clone, Copy, Debug, PartialEq, Eq)]
pub struct PartialVersion {
    pub major: Option<u64>,
    pub minor: Option<u64>,
    pub patch: Option<u64>,
}

pub open spec fn unwrap_or_zero(x: Option<u64>) -> u64 {
    match x {
        Some(v) => v,
        None => 0,
    }
}

/// The lowest release a partial version admits.
pub open spec fn floor_spec(p: PartialVersion) -> Triple {
    (unwrap_or_zero(p.major), unwrap_or_zero(p.minor), unwrap_or_zero(p.patch))
}

impl PartialVersion {
    /// The lowest release this partial version admits.
    pub fn floor(self) -> (r: Triple)
        ensures
            r == floor_spec(self),
    {
        (
            match self.major {
                Some(v) => v,
                None => 0,
            },
            match self.minor {
                Some(v) => v,
                None => 0,
            },
            match self.patch {
                Some(v) => v,
                None => 0,
            },
        )
    }
}

pub open spec fn is_dash_or_plus(c: char) -> bool {
    c == '-' || c == '+'
}

pub open spec fn dash_or_plus() -> spec_fn(char) -> bool {
    |c: char| is_dash_or_plus(c)
}

/// `semantic_version.Version`: exactly three numeric parts before any
/// pre-release or build suffix.
pub open spec fn parse_strict_version_spec(version: Seq<char>) -> Option<Triple> {
    let release = before_first(version, dash_or_plus());
    let parts = split_pat(release, seq!['.']);
    if parts.len() == 3 && parse_u64(parts[0]) is Some && parse_u64(parts[1]) is Some
        && parse_u64(parts[2]) is Some {
        Some((parse_u64(parts[0])->0, parse_u64(parts[1])->0, parse_u64(parts[2])->0))
    } else {
        None
    }
}

/// One dotted component of a partial version: `Some(None)` is a wildcard,
/// `None` a parse failure.
pub open spec fn parse_component(part: Seq<char>) -> Option<Option<u64>> {
    if part == seq!['x'] || part == seq!['X'] || part == seq!['*'] {
        Some(None)
    } else if part.len() == 0 {
        None
    } else {
        match parse_u64(part) {
            Some(n) => Some(Some(n)),
            None => None,
        }
    }
}

pub open spec fn component_at(parts: Seq<Seq<char>>, k: int) -> Option<u64> {
    if 0 <= k < parts.len() {
        match parse_component(parts[k]) {
            Some(c) => c,
            None => None,
        }
    } else {
        None
    }
}

/// The text of a partial version token once trimmed, stripped of leading
/// `v`s and cut at any `-`/`+` suffix.
pub open spec fn partial_core(token: Seq<char>) -> Seq<char> {
    before_first(trim_start_by(trim(token), char_pred('v')), dash_or_plus())
}

pub open spec fn parse_partial_spec(token: Seq<char>) -> Option<PartialVersion> {
    let t = partial_core(token);
    let parts = split_pat(t, seq!['.']);
    if t.len() == 0 || parts.len() > 3 || exists|k: int|
        0 <= k < parts.len() && (#[trigger] parse_component(parts[k])) is None {
        None
    } else {
        Some(
            PartialVersion {
                major: component_at(parts, 0),
                minor: component_at(parts, 1),
                patch: component_at(parts, 2),
            },
        )
    }
}

/// The comparison a comparator token asks for.
#[derive(Clone, Copy, Debug, PartialEq, Eq)]
pub enum CmpOp {
    Exact,
    Caret,
    Tilde,
    Ge,
    Gt,
    Lt,
    Le,
}

/// Split a comparator token into its operator and operand.
pub open spec fn split_op(token: Seq<char>) -> (CmpOp, Seq<char>) {
    if has_prefix(token, seq!['>', '=']) {
        (CmpOp::Ge, token.skip(2))
    } else if has_prefix(token, seq!['<', '=']) {
        (CmpOp::Le, token.skip(2))
    } else if has_prefix(token, seq!['>']) {
        (CmpOp::Gt, token.skip(1))
    } else if has_prefix(token, seq!['<']) {
        (CmpOp::Lt, token.skip(1))
    } else if has_prefix(token, seq!['~', '>']) {
        (CmpOp::Tilde, token.skip(2))
    } else if has_prefix(token, seq!['~']) {
        (CmpOp::Tilde, token.skip(1))
    } else if has_prefix(token, seq!['^']) {
        (CmpOp::Caret, token.skip(1))
    } else if has_prefix(token, seq!['=']) {
        (CmpOp::Exact, token.skip(1))
    } else {
        (CmpOp::Exact, token)
    }
}

/// Whether release `v` satisfies `op p`.
pub open spec fn op_holds(op: CmpOp, p: PartialVersion, v: Triple) -> bool {
    let f = ints(floor_spec(p));
    let x = ints(v);
    match op {
        CmpOp::Exact => match (p.major, p.minor, p.patch) {
            (None, _, _) => true,
            (Some(m), None, _) => vle(f, x) && vlt(x, (m + 1, 0, 0)),
            (Some(m), Some(n), None) => vle(f, x) && vlt(x, (m as int, n + 1, 0)),
            _ => x == f,
        },
        CmpOp::Caret => if p.major is None {
            true
        } else if f.0 > 0 || p.minor is None {
            vle(f, x) && vlt(x, (f.0 + 1, 0, 0))
        } else if f.1 > 0 || p.patch is None {
            vle(f, x) && vlt(x, (0, f.1 + 1, 0))
        } else {
            vle(f, x) && vlt(x, (0, 0, f.2 + 1))
        },
        CmpOp::Tilde => if p.major is None {
            true
        } else if p.minor is None {
            vle(f, x) && vlt(x, (f.0 + 1, 0, 0))
        } else {
            vle(f, x) && vlt(x, (f.0, f.1 + 1, 0))
        },
        CmpOp::Ge => vle(f, x),
        CmpOp::Gt => match (p.major, p.minor, p.patch) {
            (None, _, _) => false,
            (Some(m), None, _) => vle((m + 1, 0, 0), x),
            (Some(m), Some(n), None) => vle((m as int, n + 1, 0), x),
            _ => vlt(f, x),
        },
        CmpOp::Lt => vlt(x, f),
        CmpOp::Le => match (p.major, p.minor, p.patch) {
            (None, _, _) => true,
            (Some(m), None, _) => vlt(x, (m + 1, 0, 0)),
            (Some(m), Some(n), None) => vlt(x, (m as int, n + 1, 0)),
            _ => vle(x, f),
        },
    }
}

/// One comparator token against release `v`; `None` when it does not parse.
pub open spec fn comparator_spec(v: Triple, token: Seq<char>) -> Option<bool> {
    let (op, rest) = split_op(token);
    match parse_partial_spec(rest) {
        Some(p) => Some(op_holds(op, p, v)),
        None => None,
    }
}

/// Space-separated comparators, all of which must hold; the first that
/// fails to parse or to hold decides.
pub open spec fn all_comparators(v: Triple, tokens: Seq<Seq<char>>) -> Option<bool>
    decreases tokens.len(),
{
    if tokens.len() == 0 {
        Some(true)
    } else {
        match comparator_spec(v, tokens[0]) {
            None => None,
            Some(false) => Some(false),
            Some(true) => all_comparators(v, tokens.drop_first()),
        }
    }
}

/// The upper bound of a hyphen range `low - high`.
pub open spec fn hyphen_upper_ok(v: Triple, high: PartialVersion) -> bool {
    let x = ints(v);
    match (high.major, high.minor, high.patch) {
        (None, _, _) => true,
        (Some(m), None, _) => vlt(x, (m + 1, 0, 0)),
        (Some(m), Some(n), None) => vlt(x, (m as int, n + 1, 0)),
        _ => vle(x, ints(floor_spec(high))),
    }
}

pub open spec fn is_dash_token(t: Seq<char>) -> bool {
    t == seq!['-']
}

/// One `||`-free clause of a range against release `v`.
pub open spec fn clause_spec(v: Triple, clause: Seq<char>) -> Option<bool> {
    let tokens = words(clause);
    if clause.len() == 0 {
        Some(true)
    } else if exists|i: int| 0 <= i < tokens.len() && is_dash_token(#[trigger] tokens[i]) {
        if tokens.len() != 3 || !is_dash_token(tokens[1]) || is_dash_token(tokens[0]) {
            None
        } else {
            match (parse_partial_spec(tokens[0]), parse_partial_spec(tokens[2])) {
                (Some(low), Some(high)) => Some(
                    vle(ints(floor_spec(low)), ints(v)) && hyphen_upper_ok(v, high),
                ),
                _ => None,
            }
        }
    } else {
        all_comparators(v, tokens)
    }
}

/// Clauses joined by `||`: `None` if any clause fails to parse, otherwise
/// whether some clause holds.
pub open spec fn any_clause(v: Triple, clauses: Seq<Seq<char>>) -> Option<bool>
    decreases clauses.len(),
{
    if clauses.len() == 0 {
        Some(false)
    } else {
        match clause_spec(v, trim(clauses[0])) {
            None => None,
            Some(b) => match any_clause(v, clauses.drop_first()) {
                None => None,
                Some(r) => Some(b || r),
            },
        }
    }
}

/// Does release `v` satisfy the npm range `spec`? `None` when the range
/// does not parse.
pub open spec fn npm_spec_matches(v: Triple, spec: Seq<char>) -> Option<bool> {
    let s = trim(spec);
    if s.len() == 0 {
        Some(true)
    } else {
        any_clause(v, split_pat(s, seq!['|', '|']))
    }
}

// ---------------------------------------------------------------------------
// Executable counterparts

fn lit1(c: char) -> (r: Vec<char>)
    ensures
        r@ == seq![c],
{
    let mut r: Vec<char> = Vec::new();
    r.push(c);
    r
}

fn lit2(a: char, b: char) -> (r: Vec<char>)
    ensures
        r@ == seq![a, b],
{
    let mut r: Vec<char> = Vec::new();
    r.push(a);
    r.push(b);
    r
}

/// The prefix of `s` before the first `-` or `+`.
fn before_dash_or_plus(s: &Vec<char>, from: usize) -> (r: Vec<char>)
    requires
        from <= s@.len(),
    ensures
        r@ == before_first(s@.subrange(from as int, s@.len() as int), dash_or_plus()),
    decreases s@.len() - from,
{
    let ghost t = s@.subrange(from as int, s@.len() as int);
    if from == s.len() {
        return Vec::new();
    }
    if s[from] == '-' || s[from] == '+' {
        return Vec::new();
    }
    let rest = before_dash_or_plus(s, from + 1);
    assert(t.drop_first() =~= s@.subrange(from + 1, s@.len() as int));
    let mut r = lit1(s[from]);
    let mut k: usize = 0;
    let ghost r0 = r@;
    while k < rest.len()
        invariant
            0 <= k <= rest@.len(),
            r@ == r0 + rest@.subrange(0, k as int),
        decreases rest@.len() - k,
    {
        r.push(rest[k]);
        assert(rest@.subrange(0, k + 1) =~= rest@.subrange(0, k as int).push(rest@[k as int]));
        k = k + 1;
    }
    assert(rest@.subrange(0, rest@.len() as int) =~= rest@);
    r
}

/// `semantic_version.Version(version)` as a release triple.
pub fn parse_strict_version(version: &str) -> (r: Option<Triple>)
    ensures
        r == parse_strict_version_spec(version@),
{
    let v = chars_of(version);
    let release = before_dash_or_plus(&v, 0);
    assert(v@.subrange(0, v@.len() as int) =~= v@);
    let dot = lit1('.');
    let parts = split_pat_exec(&release, &dot);
    if parts.len() != 3 {
        return None;
    }
    let a = parse_u64_exec(&parts[0]);
    let b = parse_u64_exec(&parts[1]);
    let c = parse_u64_exec(&parts[2]);
    match (a, b, c) {
        (Some(a), Some(b), Some(c)) => Some((a, b, c)),
        _ => None,
    }
}

fn parse_component_exec(part: &Vec<char>) -> (r: Option<Option<u64>>)
    ensures
        r == parse_component(part@),
{
    if part.len() == 1 && (part[0] == 'x' || part[0] == 'X' || part[0] == '*') {
        assert(part@ =~= seq![part@[0]]);
        return Some(None);
    }
    proof {
        if part@ == seq!['x'] || part@ == seq!['X'] || part@ == seq!['*'] {
            assert(part@[0] == 'x' || part@[0] == 'X' || part@[0] == '*');
        }
    }
    if part.len() == 0 {
        return None;
    }
    match parse_u64_exec(part) {
        Some(n) => Some(Some(n)),
        None => None,
    }
}

/// Parse a partial version such as `1`, `1.2`, `v1.x` or `*`.
pub fn parse_partial(token: &str) -> (r: Option<PartialVersion>)
    ensures
        r == parse_partial_spec(token@),
{
    let v = chars_of(token);
    let (a, b) = trim_range(&v, 0, v.len());
    assert(v@.subrange(0, v@.len() as int) =~= v@);
    let mut a2 = a;
    while a2 < b && v[a2] == 'v'
        invariant
            a <= a2 <= b <= v@.len(),
            trim_start_by(v@.subrange(a as int, b as int), char_pred('v')) == trim_start_by(
                v@.subrange(a2 as int, b as int),
                char_pred('v'),
            ),
        decreases b - a2,
    {
        assert(v@.subrange(a2 as int, b as int).drop_first() =~= v@.subrange(a2 + 1, b as int));
        a2 = a2 + 1;
    }
    let stripped = slice_vec(&v, a2, b);
    assert(trim_start_by(stripped@, char_pred('v')) == stripped@) by {
        if stripped@.len() > 0 {
            assert(stripped@[0] == v@[a2 as int]);
        }
    }
    let core = before_dash_or_plus(&stripped, 0);
    assert(stripped@.subrange(0, stripped@.len() as int) =~= stripped@);
    assert(core@ == partial_core(token@));
    if core.len() == 0 {
        return None;
    }
    let dot = lit1('.');
    let parts = split_pat_exec(&core, &dot);
    if parts.len() > 3 {
        return None;
    }
    let mut comps: Vec<Option<u64>> = Vec::new();
    let mut k: usize = 0;
    while k < parts.len()
        invariant
            core@ == partial_core(token@),
            core@.len() > 0,
            views(parts@) == split_pat(core@, seq!['.']),
            parts@.len() <= 3,
            0 <= k <= parts@.len(),
            comps@.len() == k,
            forall|j: int| 0 <= j < k ==> parse_component(#[trigger] views(parts@)[j]) == Some(
                comps@[j],
            ),
        decreases parts@.len() - k,
    {
        match parse_component_exec(&parts[k]) {
            Some(c) => {
                comps.push(c);
            },
            None => {
                assert(parse_component(views(parts@)[k as int]) is None);
                return None;
            },
        }
        k = k + 1;
    }
    let ghost ps = views(parts@);
    assert(forall|j: int| 0 <= j < ps.len() ==> (#[trigger] parse_component(ps[j])) is Some);
    let major = if comps.len() > 0 { comps[0] } else { None };
    let minor = if comps.len() > 1 { comps[1] } else { None };
    let patch = if comps.len() > 2 { comps[2] } else { None };
    assert(major == component_at(ps, 0));
    assert(minor == component_at(ps, 1));
    assert(patch == component_at(ps, 2));
    Some(PartialVersion { major, minor, patch })
}

/// `a < b` on triples of integers given as `u128`.
fn lt3(a: (u128, u128, u128), b: (u128, u128, u128)) -> (r: bool)
    ensures
        r == vlt((a.0 as int, a.1 as int, a.2 as int), (b.0 as int, b.1 as int, b.2 as int)),
{
    a.0 < b.0 || (a.0 == b.0 && (a.1 < b.1 || (a.1 == b.1 && a.2 < b.2)))
}

fn le3(a: (u128, u128, u128), b: (u128, u128, u128)) -> (r: bool)
    ensures
        r == vle((a.0 as int, a.1 as int, a.2 as int), (b.0 as int, b.1 as int, b.2 as int)),
{
    lt3(a, b) || (a.0 == b.0 && a.1 == b.1 && a.2 == b.2)
}

fn wide(v: Triple) -> (r: (u128, u128, u128))
    ensures
        (r.0 as int, r.1 as int, r.2 as int) == ints(v),
{
    (v.0 as u128, v.1 as u128, v.2 as u128)
}

fn op_holds_exec(op: CmpOp, p: PartialVersion, v: Triple) -> (r: bool)
    ensures
        r == op_holds(op, p, v),
{
    let f = wide(p.floor());
    let x = wide(v);
    match op {
        CmpOp::Exact => match (p.major, p.minor, p.patch) {
            (None, _, _) => true,
            (Some(m), None, _) => le3(f, x) && lt3(x, (m as u128 + 1, 0, 0)),
            (Some(m), Some(n), None) => le3(f, x) && lt3(x, (m as u128, n as u128 + 1, 0)),
            _ => x.0 == f.0 && x.1 == f.1 && x.2 == f.2,
        },
        CmpOp::Caret => {
            if p.major.is_none() {
                true
            } else if f.0 > 0 || p.minor.is_none() {
                le3(f, x) && lt3(x, (f.0 + 1, 0, 0))
            } else if f.1 > 0 || p.patch.is_none() {
                le3(f, x) && lt3(x, (0, f.1 + 1, 0))
            } else {
                le3(f, x) && lt3(x, (0, 0, f.2 + 1))
            }
        },
        CmpOp::Tilde => {
            if p.major.is_none() {
                true
            } else if p.minor.is_none() {
                le3(f, x) && lt3(x, (f.0 + 1, 0, 0))
            } else {
                le3(f, x) && lt3(x, (f.0, f.1 + 1, 0))
            }
        },
        CmpOp::Ge => le3(f, x),
        CmpOp::Gt => match (p.major, p.minor, p.patch) {
            (None, _, _) => false,
            (Some(m), None, _) => le3((m as u128 + 1, 0, 0), x),
            (Some(m), Some(n), None) => le3((m as u128, n as u128 + 1, 0), x),
            _ => lt3(f, x),
        },
        CmpOp::Lt => lt3(x, f),
        CmpOp::Le => match (p.major, p.minor, p.patch) {
            (None, _, _) => true,
            (Some(m), None, _) => lt3(x, (m as u128 + 1, 0, 0)),
            (Some(m), Some(n), None) => lt3(x, (m as u128, n as u128 + 1, 0)),
            _ => le3(x, f),
        },
    }
}

fn split_op_exec(token: &Vec<char>) -> (r: (CmpOp, Vec<char>))
    ensures
        r.0 == split_op(token@).0,
        r.1@ == split_op(token@).1,
{
    let ge = lit2('>', '=');
    let le = lit2('<', '=');
    let gt = lit1('>');
    let lt = lit1('<');
    let tg = lit2('~', '>');
    let tl = lit1('~');
    let ca = lit1('^');
    let eq = lit1('=');
    let n = token.len();
    if starts_with_chars(token, &ge) {
        (CmpOp::Ge, slice_vec(token, 2, n))
    } else if starts_with_chars(token, &le) {
        (CmpOp::Le, slice_vec(token, 2, n))
    } else if starts_with_chars(token, &gt) {
        (CmpOp::Gt, slice_vec(token, 1, n))
    } else if starts_with_chars(token, &lt) {
        (CmpOp::Lt, slice_vec(token, 1, n))
    } else if starts_with_chars(token, &tg) {
        (CmpOp::Tilde, slice_vec(token, 2, n))
    } else if starts_with_chars(token, &tl) {
        (CmpOp::Tilde, slice_vec(token, 1, n))
    } else if starts_with_chars(token, &ca) {
        (CmpOp::Caret, slice_vec(token, 1, n))
    } else if starts_with_chars(token, &eq) {
        (CmpOp::Exact, slice_vec(token, 1, n))
    } else {
        (CmpOp::Exact, slice_vec(token, 0, n))
    }
}

/// One comparator token (`^1.2`, `>=3`, `~0.4`, `1.x`) against a release;
/// `None` when the token does not parse.
pub fn comparator_matches(version: Triple, token: &str) -> (r: Option<bool>)
    ensures
        r == comparator_spec(version, token@),
{
    let t = chars_of(token);
    let (op, rest) = split_op_exec(&t);
    let rest_s = string_of(&rest);
    match parse_partial(rest_s.as_str()) {
        Some(p) => Some(op_holds_exec(op, p, version)),
        None => None,
    }
}

/// One clause of a range (comparators or a hyphen range) against a
/// release; `None` when the clause does not parse.
pub fn clause_matches(version: Triple, clause: &str) -> (r: Option<bool>)
    ensures
        r == clause_spec(version, clause@),
{
    let c = chars_of(clause);
    if c.len() == 0 {
        return Some(true);
    }
    let tokens = words_exec(&c);
    let ghost ts = views(tokens@);
    let dash = lit1('-');
    let mut has_dash = false;
    let mut i: usize = 0;
    while i < tokens.len()
        invariant
            ts == views(tokens@),
            dash@ == seq!['-'],
            0 <= i <= tokens@.len(),
            has_dash == exists|j: int| 0 <= j < i && is_dash_token(#[trigger] ts[j]),
        decreases tokens@.len() - i,
    {
        if eq_chars(&tokens[i], &dash) {
            assert(is_dash_token(ts[i as int]));
            has_dash = true;
        }
        i = i + 1;
    }
    if has_dash {
        if tokens.len() != 3 || !eq_chars(&tokens[1], &dash) || eq_chars(&tokens[0], &dash) {
            return None;
        }
        let low_s = string_of(&tokens[0]);
        let high_s = string_of(&tokens[2]);
        let low = parse_partial(low_s.as_str());
        let high = parse_partial(high_s.as_str());
        match (low, high) {
            (Some(low), Some(high)) => {
                let x = wide(version);
                let lower_ok = le3(wide(low.floor()), x);
                let upper_ok = match (high.major, high.minor, high.patch) {
                    (None, _, _) => true,
                    (Some(m), None, _) => lt3(x, (m as u128 + 1, 0, 0)),
                    (Some(m), Some(n), None) => lt3(x, (m as u128, n as u128 + 1, 0)),
                    _ => le3(x, wide(high.floor())),
                };
                Some(lower_ok && upper_ok)
            },
            _ => None,
        }
    } else {
        assert(ts.skip(0) =~= ts);
        assert(clause_spec(version, clause@) == all_comparators(version, ts));
        let mut k: usize = 0;
        while k < tokens.len()
            invariant
                ts == views(tokens@),
                clause_spec(version, clause@) == all_comparators(version, ts),
                0 <= k <= tokens@.len(),
                all_comparators(version, ts) == all_comparators(version, ts.skip(k as int)),
            decreases tokens@.len() - k,
        {
            let tok = string_of(&tokens[k]);
            let ghost rest = ts.skip(k as int);
            assert(rest[0] == ts[k as int]);
            assert(rest.drop_first() =~= ts.skip(k + 1));
            match comparator_matches(version, tok.as_str()) {
                None => {
                    return None;
                },
                Some(false) => {
                    return Some(false);
                },
                Some(true) => {},
            }
            k = k + 1;
        }
        assert(ts.skip(k as int).len() == 0);
        Some(true)
    }
}

/// Does release `version` satisfy the npm range `spec`? `None` when the
/// range does not parse (the callers' fallback path).
pub fn version_matches_npm_spec(version: Triple, spec: &str) -> (r: Option<bool>)
    ensures
        r == npm_spec_matches(version, spec@),
{
    let trimmed = trim_str(spec);
    let s = chars_of(trimmed.as_str());
    if s.len() == 0 {
        return Some(true);
    }
    let bars = lit2('|', '|');
    let clauses = split_pat_exec(&s, &bars);
    let ghost cs = views(clauses@);
    let mut any = false;
    let mut k: usize = 0;
    assert(cs.skip(0) =~= cs);
    assert(npm_spec_matches(version, spec@) == any_clause(version, cs));
    while k < clauses.len()
        invariant
            cs == views(clauses@),
            npm_spec_matches(version, spec@) == any_clause(version, cs),
            0 <= k <= clauses@.len(),
            any_clause(version, cs) == match any_clause(version, cs.skip(k as int)) {
                None => None,
                Some(r) => Some(any || r),
            },
        decreases clauses@.len() - k,
    {
        let clause_s = string_of(&clauses[k]);
        let trimmed_clause = trim_str(clause_s.as_str());
        let ghost rest = cs.skip(k as int);
        assert(rest[0] == cs[k as int]);
        assert(rest.drop_first() =~= cs.skip(k + 1));
        match clause_matches(version, trimmed_clause.as_str()) {
            None => {
                return None;
            },
            Some(b) => {
                any = b || any;
            },
        }
        k = k + 1;
    }
    assert(cs.skip(k as int).len() == 0);
    Some(any)
}

} // verus!
