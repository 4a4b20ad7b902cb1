//! Character-level string helpers shared by the library.
//!
//! Strings are reasoned about through their views, `Seq<char>`. Scanning
//! code works on `Vec<char>` copies and builds `String` results.
use vstd::prelude::*;

verus! {

// ---------------------------------------------------------------------------
// Character classes

/// `char::is_whitespace`: the Unicode `White_Space` property.
pub open spec fn is_ws(c: char) -> bool {
    ||| ('\u{9}' <= c && c <= '\u{d}')
    ||| c == ' '
    ||| c == '\u{85}'
    ||| c == '\u{a0}'
    ||| c == '\u{1680}'
    ||| ('\u{2000}' <= c && c <= '\u{200a}')
    ||| c == '\u{2028}'
    ||| c == '\u{2029}'
    ||| c == '\u{202f}'
    ||| c == '\u{205f}'
    ||| c == '\u{3000}'
}

pub open spec fn is_digit(c: char) -> bool {
    '0' <= c && c <= '9'
}

pub open spec fn is_lower(c: char) -> bool {
    'a' <= c && c <= 'z'
}

pub open spec fn is_upper(c: char) -> bool {
    'A' <= c && c <= 'Z'
}

pub open spec fn is_alnum(c: char) -> bool {
    is_digit(c) || is_lower(c) || is_upper(c)
}

pub open spec fn is_alpha(c: char) -> bool {
    is_lower(c) || is_upper(c)
}

/// `char::to_ascii_lowercase`.
pub open spec fn lower_char(c: char) -> char {
    if is_upper(c) {
        ((c as u32) + 32) as char
    } else {
        c
    }
}

/// `char::to_ascii_uppercase`.
pub open spec fn upper_char(c: char) -> char {
    if is_lower(c) {
        ((c as u32) - 32) as char
    } else {
        c
    }
}

pub open spec fn lower_seq(s: Seq<char>) -> Seq<char> {
    s.map_values(|c: char| lower_char(c))
}

pub open spec fn upper_seq(s: Seq<char>) -> Seq<char> {
    s.map_values(|c: char| upper_char(c))
}

pub fn is_ws_char(c: char) -> (r: bool)
    ensures
        r == is_ws(c),
{
    ('\u{9}' <= c && c <= '\u{d}') || c == ' ' || c == '\u{85}' || c == '\u{a0}' || c
        == '\u{1680}' || ('\u{2000}' <= c && c <= '\u{200a}') || c == '\u{2028}' || c
        == '\u{2029}' || c == '\u{202f}' || c == '\u{205f}' || c == '\u{3000}'
}

pub fn is_digit_char(c: char) -> (r: bool)
    ensures
        r == is_digit(c),
{
    '0' <= c && c <= '9'
}

pub fn is_alnum_char(c: char) -> (r: bool)
    ensures
        r == is_alnum(c),
{
    ('0' <= c && c <= '9') || ('a' <= c && c <= 'z') || ('A' <= c && c <= 'Z')
}

pub fn is_alpha_char(c: char) -> (r: bool)
    ensures
        r == is_alpha(c),
{
    ('a' <= c && c <= 'z') || ('A' <= c && c <= 'Z')
}

pub fn lower_char_exec(c: char) -> (r: char)
    ensures
        r == lower_char(c),
{
    if 'A' <= c && c <= 'Z' {
        let code: u32 = c as u32 + 32;
        assert(0x61 <= code <= 0x7a);
        char_from_ascii(code)
    } else {
        c
    }
}

pub fn upper_char_exec(c: char) -> (r: char)
    ensures
        r == upper_char(c),
{
    if 'a' <= c && c <= 'z' {
        let code: u32 = c as u32 - 32;
        char_from_ascii(code)
    } else {
        c
    }
}

/// A character from an ASCII code point.
fn char_from_ascii(code: u32) -> (c: char)
    requires
        code < 128,
    ensures
        c == code as char,
{
    let b: u8 = code as u8;
    b as char
}

// ---------------------------------------------------------------------------
// Sequences of characters

pub open spec fn has_prefix(s: Seq<char>, p: Seq<char>) -> bool {
    p.len() <= s.len() && s.subrange(0, p.len() as int) == p
}

pub open spec fn has_suffix(s: Seq<char>, p: Seq<char>) -> bool {
    p.len() <= s.len() && s.subrange(s.len() - p.len(), s.len() as int) == p
}

/// `p` occurs in `s` starting at index `i`.
pub open spec fn occurs_at(s: Seq<char>, p: Seq<char>, i: int) -> bool {
    0 <= i && i + p.len() <= s.len() && s.subrange(i, i + p.len()) == p
}

pub open spec fn contains_seq(s: Seq<char>, p: Seq<char>) -> bool {
    exists|i: int| occurs_at(s, p, i)
}

pub open spec fn contains_char(s: Seq<char>, c: char) -> bool {
    exists|i: int| 0 <= i < s.len() && s[i] == c
}

/// The first index at which `p` occurs in `s`.
pub open spec fn first_occurrence(s: Seq<char>, p: Seq<char>) -> Option<int> {
    if contains_seq(s, p) {
        Some(choose|i: int| occurs_at(s, p, i) && forall|j: int| 0 <= j < i ==> !occurs_at(s, p, j))
    } else {
        None
    }
}

/// Drop leading characters that satisfy `pred`.
pub open spec fn trim_start_by(s: Seq<char>, pred: spec_fn(char) -> bool) -> Seq<char>
    decreases s.len(),
{
    if s.len() > 0 && pred(s[0]) {
        trim_start_by(s.drop_first(), pred)
    } else {
        s
    }
}

/// Drop trailing characters that satisfy `pred`.
pub open spec fn trim_end_by(s: Seq<char>, pred: spec_fn(char) -> bool) -> Seq<char>
    decreases s.len(),
{
    if s.len() > 0 && pred(s.last()) {
        trim_end_by(s.drop_last(), pred)
    } else {
        s
    }
}

pub open spec fn ws_pred() -> spec_fn(char) -> bool {
    |c: char| is_ws(c)
}

pub open spec fn char_pred(x: char) -> spec_fn(char) -> bool {
    |c: char| c == x
}

/// `str::trim_start`.
pub open spec fn trim_start(s: Seq<char>) -> Seq<char> {
    trim_start_by(s, ws_pred())
}

/// `str::trim_end`.
pub open spec fn trim_end(s: Seq<char>) -> Seq<char> {
    trim_end_by(s, ws_pred())
}

/// `str::trim`.
pub open spec fn trim(s: Seq<char>) -> Seq<char> {
    trim_end(trim_start(s))
}

/// `n` copies of `c`.
pub open spec fn repeat_char(c: char, n: nat) -> Seq<char> {
    Seq::new(n, |i: int| c)
}

/// Left-aligned padding to `width` characters (`{:<width$}`).
pub open spec fn pad_right(s: Seq<char>, width: nat) -> Seq<char> {
    if s.len() >= width {
        s
    } else {
        s + repeat_char(' ', (width - s.len()) as nat)
    }
}

/// Right-aligned padding to `width` characters (`{:>width$}`).
pub open spec fn pad_left(s: Seq<char>, width: nat) -> Seq<char> {
    if s.len() >= width {
        s
    } else {
        repeat_char(' ', (width - s.len()) as nat) + s
    }
}

// ---------------------------------------------------------------------------
// Trimming: index-level characterization

pub proof fn lemma_trim_start_by_index(s: Seq<char>, pred: spec_fn(char) -> bool, k: int)
    requires
        0 <= k <= s.len(),
        forall|i: int| 0 <= i < k ==> pred(s[i]),
        k == s.len() || !pred(s[k]),
    ensures
        trim_start_by(s, pred) == s.subrange(k, s.len() as int),
    decreases k,
{
    if k == 0 {
        assert(s.subrange(0, s.len() as int) =~= s);
    } else {
        let t = s.drop_first();
        assert forall|i: int| 0 <= i < k - 1 implies pred(t[i]) by {
            assert(t[i] == s[i + 1]);
        }
        if k - 1 < t.len() {
            assert(t[k - 1] == s[k]);
        }
        lemma_trim_start_by_index(t, pred, k - 1);
        assert(t.subrange(k - 1, t.len() as int) =~= s.subrange(k, s.len() as int));
    }
}

pub proof fn lemma_trim_end_by_index(s: Seq<char>, pred: spec_fn(char) -> bool, k: int)
    requires
        0 <= k <= s.len(),
        forall|i: int| k <= i < s.len() ==> pred(s[i]),
        k == 0 || !pred(s[k - 1]),
    ensures
        trim_end_by(s, pred) == s.subrange(0, k),
    decreases s.len() - k,
{
    if k == s.len() {
        assert(s.subrange(0, k) =~= s);
    } else {
        let t = s.drop_last();
        assert forall|i: int| k <= i < t.len() implies pred(t[i]) by {
            assert(t[i] == s[i]);
        }
        if k > 0 {
            assert(t[k - 1] == s[k - 1]);
        }
        lemma_trim_end_by_index(t, pred, k);
        assert(t.subrange(0, k) =~= s.subrange(0, k));
    }
}

/// Index of the first character of `s[from..]` that is not whitespace.
pub fn skip_ws(s: &Vec<char>, from: usize) -> (k: usize)
    requires
        from <= s@.len(),
    ensures
        from <= k <= s@.len(),
        forall|i: int| from <= i < k ==> is_ws(s@[i]),
        k == s@.len() || !is_ws(s@[k as int]),
{
    let mut k = from;
    while k < s.len() && is_ws_char(s[k])
        invariant
            from <= k <= s@.len(),
            forall|i: int| from <= i < k ==> is_ws(s@[i]),
        decreases s@.len() - k,
    {
        k = k + 1;
    }
    k
}

/// `s[from..to]` with surrounding whitespace removed, as a range.
pub fn trim_range(s: &Vec<char>, from: usize, to: usize) -> (r: (usize, usize))
    requires
        from <= to <= s@.len(),
    ensures
        from <= r.0 <= r.1 <= to,
        s@.subrange(r.0 as int, r.1 as int) == trim(s@.subrange(from as int, to as int)),
{
    let ghost sub = s@.subrange(from as int, to as int);
    let mut a = from;
    while a < to && is_ws_char(s[a])
        invariant
            from <= a <= to <= s@.len(),
            forall|i: int| from <= i < a ==> is_ws(s@[i]),
        decreases to - a,
    {
        a = a + 1;
    }
    proof {
        assert forall|i: int| 0 <= i < a - from implies ws_pred()(sub[i]) by {
            assert(sub[i] == s@[i + from]);
        }
        if a < to {
            assert(sub[a - from] == s@[a as int]);
        }
        lemma_trim_start_by_index(sub, ws_pred(), a - from);
    }
    let ghost mid = s@.subrange(a as int, to as int);
    assert(mid =~= sub.subrange(a - from, sub.len() as int));
    let mut b = to;
    while b > a && is_ws_char(s[b - 1])
        invariant
            from <= a <= b <= to <= s@.len(),
            forall|i: int| b <= i < to ==> is_ws(s@[i]),
        decreases b - a,
    {
        b = b - 1;
    }
    proof {
        assert forall|i: int| b - a <= i < mid.len() implies ws_pred()(mid[i]) by {
            assert(mid[i] == s@[i + a]);
        }
        if b > a {
            assert(mid[b - a - 1] == s@[b - 1]);
        }
        lemma_trim_end_by_index(mid, ws_pred(), b - a);
        assert(mid.subrange(0, b - a) =~= s@.subrange(a as int, b as int));
    }
    (a, b)
}

// ---------------------------------------------------------------------------
// Conversions

/// The characters of a string, in order.
pub fn chars_of(s: &str) -> (out: Vec<char>)
    ensures
        out@ == s@,
{
    let mut out: Vec<char> = Vec::new();
    for c in it: s.chars()
        invariant
            out@ == it.seq().take(it.index() as int),
    {
        out.push(c);
    }
    out
}

/// `String::push`.
#[verifier::external_body]
pub(crate) fn push_char(s: &mut String, c: char)
    ensures
        final(s)@ == old(s)@.push(c),
{
    s.push(c);
}

/// `String::push_str`.
#[verifier::external_body]
pub(crate) fn push_str(s: &mut String, t: &str)
    ensures
        final(s)@ == old(s)@ + t@,
{
    s.push_str(t);
}

/// The string made of `v[from..to]`.
pub fn string_of_range(v: &Vec<char>, from: usize, to: usize) -> (s: String)
    requires
        from <= to <= v@.len(),
    ensures
        s@ == v@.subrange(from as int, to as int),
{
    let mut s = String::new();
    let mut i = from;
    while i < to
        invariant
            from <= i <= to <= v@.len(),
            s@ == v@.subrange(from as int, i as int),
        decreases to - i,
    {
        push_char(&mut s, v[i]);
        assert(v@.subrange(from as int, i + 1) =~= v@.subrange(from as int, i as int).push(
            v@[i as int],
        ));
        i = i + 1;
    }
    s
}

/// The string made of all of `v`.
pub fn string_of(v: &Vec<char>) -> (s: String)
    ensures
        s@ == v@,
{
    let s = string_of_range(v, 0, v.len());
    assert(v@.subrange(0, v@.len() as int) =~= v@);
    s
}

/// A copy of a string.
pub fn copy_str(s: &str) -> (r: String)
    ensures
        r@ == s@,
{
    s.to_owned()
}

/// String equality by contents.
pub fn eq_str(a: &str, b: &str) -> (r: bool)
    ensures
        r == (a@ == b@),
{
    let x = chars_of(a);
    let y = chars_of(b);
    eq_chars(&x, &y)
}

pub fn eq_chars(x: &Vec<char>, y: &Vec<char>) -> (r: bool)
    ensures
        r == (x@ == y@),
{
    if x.len() != y.len() {
        return false;
    }
    let mut i: usize = 0;
    while i < x.len()
        invariant
            x@.len() == y@.len(),
            0 <= i <= x@.len(),
            forall|j: int| 0 <= j < i ==> x@[j] == y@[j],
        decreases x@.len() - i,
    {
        if x[i] != y[i] {
            return false;
        }
        i = i + 1;
    }
    assert(x@ =~= y@);
    true
}

/// `p` occurs in `s` at index `i`.
pub fn occurs_at_exec(s: &Vec<char>, p: &Vec<char>, i: usize) -> (r: bool)
    ensures
        r == occurs_at(s@, p@, i as int),
{
    if i > s.len() || p.len() > s.len() - i {
        return false;
    }
    let n = s.len();
    let mut j: usize = 0;
    while j < p.len()
        invariant
            n == s@.len(),
            i + p@.len() <= s@.len(),
            0 <= j <= p@.len(),
            forall|k: int| 0 <= k < j ==> s@[i + k] == p@[k],
        decreases p@.len() - j,
    {
        assert(i + j < n);
        if s[i + j] != p[j] {
            assert(s@.subrange(i as int, i + p@.len())[j as int] != p@[j as int]);
            return false;
        }
        j = j + 1;
    }
    assert(s@.subrange(i as int, i + p@.len()) =~= p@);
    true
}

pub fn starts_with_chars(s: &Vec<char>, p: &Vec<char>) -> (r: bool)
    ensures
        r == has_prefix(s@, p@),
{
    occurs_at_exec(s, p, 0)
}

pub fn starts_with_str(s: &str, p: &str) -> (r: bool)
    ensures
        r == has_prefix(s@, p@),
{
    let x = chars_of(s);
    let y = chars_of(p);
    starts_with_chars(&x, &y)
}

pub fn ends_with_chars(s: &Vec<char>, p: &Vec<char>) -> (r: bool)
    ensures
        r == has_suffix(s@, p@),
{
    if p.len() > s.len() {
        return false;
    }
    occurs_at_exec(s, p, s.len() - p.len())
}

pub fn ends_with_str(s: &str, p: &str) -> (r: bool)
    ensures
        r == has_suffix(s@, p@),
{
    let x = chars_of(s);
    let y = chars_of(p);
    ends_with_chars(&x, &y)
}

/// The first index at or after `from` where `p` occurs in `s`.
pub fn find_from(s: &Vec<char>, p: &Vec<char>, from: usize) -> (r: Option<usize>)
    requires
        from <= s@.len(),
    ensures
        match r {
            Some(i) => from <= i && occurs_at(s@, p@, i as int) && forall|j: int|
                from <= j < i ==> !occurs_at(s@, p@, j),
            None => forall|j: int| from <= j ==> !occurs_at(s@, p@, j),
        },
{
    let mut i = from;
    while i < s.len()
        invariant
            from <= i <= s@.len(),
            forall|j: int| from <= j < i ==> !occurs_at(s@, p@, j),
        decreases s@.len() - i,
    {
        if occurs_at_exec(s, p, i) {
            return Some(i);
        }
        i = i + 1;
    }
    if occurs_at_exec(s, p, i) {
        return Some(i);
    }
    None
}

pub proof fn lemma_first_occurrence(s: Seq<char>, p: Seq<char>, i: int)
    requires
        occurs_at(s, p, i),
        forall|j: int| 0 <= j < i ==> !occurs_at(s, p, j),
    ensures
        first_occurrence(s, p) == Some(i),
{
    let k = choose|k: int| occurs_at(s, p, k) && forall|j: int| 0 <= j < k ==> !occurs_at(s, p, j);
    assert(occurs_at(s, p, k) && forall|j: int| 0 <= j < k ==> !occurs_at(s, p, j));
    if k < i {
        assert(!occurs_at(s, p, k));
    }
    if i < k {
        assert(!occurs_at(s, p, i));
    }
}

/// Does `p` occur anywhere in `s`?
pub fn contains_chars(s: &Vec<char>, p: &Vec<char>) -> (r: bool)
    ensures
        r == contains_seq(s@, p@),
{
    match find_from(s, p, 0) {
        Some(i) => true,
        None => false,
    }
}

pub fn contains_str(s: &str, p: &str) -> (r: bool)
    ensures
        r == contains_seq(s@, p@),
{
    let x = chars_of(s);
    let y = chars_of(p);
    contains_chars(&x, &y)
}

pub fn contains_char_exec(s: &Vec<char>, c: char) -> (r: bool)
    ensures
        r == contains_char(s@, c),
{
    let mut i: usize = 0;
    while i < s.len()
        invariant
            0 <= i <= s@.len(),
            forall|j: int| 0 <= j < i ==> s@[j] != c,
        decreases s@.len() - i,
    {
        if s[i] == c {
            return true;
        }
        i = i + 1;
    }
    false
}

/// `str::trim` as a new string.
pub fn trim_str(s: &str) -> (r: String)
    ensures
        r@ == trim(s@),
{
    let v = chars_of(s);
    let (a, b) = trim_range(&v, 0, v.len());
    assert(v@.subrange(0, v@.len() as int) =~= v@);
    string_of_range(&v, a, b)
}

/// `n` copies of `c`.
pub fn repeat(c: char, n: usize) -> (r: String)
    ensures
        r@ == repeat_char(c, n as nat),
{
    let mut r = String::new();
    let mut i: usize = 0;
    while i < n
        invariant
            0 <= i <= n,
            r@ == repeat_char(c, i as nat),
        decreases n - i,
    {
        push_char(&mut r, c);
        assert(repeat_char(c, (i + 1) as nat) =~= repeat_char(c, i as nat).push(c));
        i = i + 1;
    }
    r
}

/// Append `t` padded on the right to `width` characters.
pub fn push_padded_right(out: &mut String, t: &str, width: usize)
    ensures
        final(out)@ == old(out)@ + pad_right(t@, width as nat),
{
    let n = t.unicode_len();
    push_str(out, t);
    if n < width {
        let pad = repeat(' ', width - n);
        push_str(out, pad.as_str());
    }
    assert(old(out)@ + pad_right(t@, width as nat) =~= final(out)@) by {
        if n < width {
            assert(old(out)@ + t@ + repeat_char(' ', (width - n) as nat) =~= old(out)@ + (t@
                + repeat_char(' ', (width - t@.len()) as nat)));
        }
    }
}

/// Append `t` padded on the left to `width` characters.
pub fn push_padded_left(out: &mut String, t: &str, width: usize)
    ensures
        final(out)@ == old(out)@ + pad_left(t@, width as nat),
{
    let n = t.unicode_len();
    if n < width {
        let pad = repeat(' ', width - n);
        push_str(out, pad.as_str());
    }
    push_str(out, t);
    assert(old(out)@ + pad_left(t@, width as nat) =~= final(out)@);
}

// ---------------------------------------------------------------------------
// Splitting

/// The views of a sequence of character vectors.
pub open spec fn views(v: Seq<Vec<char>>) -> Seq<Seq<char>> {
    v.map_values(|x: Vec<char>| x@)
}

/// `str::split` with a non-empty pattern, scanning from index `i` with the
/// current piece starting at `start`.
pub open spec fn split_pat_from(s: Seq<char>, p: Seq<char>, start: int, i: int) -> Seq<Seq<char>>
    decreases s.len() - i,
{
    if i >= s.len() || p.len() == 0 {
        seq![s.subrange(start, s.len() as int)]
    } else if occurs_at(s, p, i) {
        seq![s.subrange(start, i)] + split_pat_from(s, p, i + p.len(), i + p.len())
    } else {
        split_pat_from(s, p, start, i + 1)
    }
}

/// `s.split(p)` for a non-empty pattern `p`.
pub open spec fn split_pat(s: Seq<char>, p: Seq<char>) -> Seq<Seq<char>> {
    split_pat_from(s, p, 0, 0)
}

/// `str::split_whitespace`, scanning from `i`; `start < 0` means no word
/// is open.
pub open spec fn words_from(s: Seq<char>, start: int, i: int) -> Seq<Seq<char>>
    decreases s.len() - i,
{
    if i >= s.len() {
        if start >= 0 {
            seq![s.subrange(start, s.len() as int)]
        } else {
            seq![]
        }
    } else if is_ws(s[i]) {
        if start >= 0 {
            seq![s.subrange(start, i)] + words_from(s, -1, i + 1)
        } else {
            words_from(s, -1, i + 1)
        }
    } else {
        words_from(s, if start >= 0 { start } else { i }, i + 1)
    }
}

/// `s.split_whitespace()`.
pub open spec fn words(s: Seq<char>) -> Seq<Seq<char>> {
    words_from(s, -1, 0)
}

/// The prefix of `s` before the first character satisfying `pred`
/// (`s.split(pred).next()`).
pub open spec fn before_first(s: Seq<char>, pred: spec_fn(char) -> bool) -> Seq<char>
    decreases s.len(),
{
    if s.len() == 0 {
        s
    } else if pred(s[0]) {
        seq![]
    } else {
        seq![s[0]] + before_first(s.drop_first(), pred)
    }
}

pub proof fn lemma_split_pat_from_len(s: Seq<char>, p: Seq<char>, start: int, i: int)
    ensures
        split_pat_from(s, p, start, i).len() >= 1,
    decreases s.len() - i,
{
    if i >= s.len() || p.len() == 0 {
    } else if occurs_at(s, p, i) {
        lemma_split_pat_from_len(s, p, i + p.len(), i + p.len());
    } else {
        lemma_split_pat_from_len(s, p, start, i + 1);
    }
}

/// `s.split(p)` for a non-empty pattern, as owned pieces.
pub fn split_pat_exec(s: &Vec<char>, p: &Vec<char>) -> (r: Vec<Vec<char>>)
    requires
        p@.len() > 0,
    ensures
        views(r@) == split_pat(s@, p@),
{
    let mut r: Vec<Vec<char>> = Vec::new();
    let mut start: usize = 0;
    let mut i: usize = 0;
    while i < s.len()
        invariant
            0 <= start <= i <= s@.len(),
            p@.len() > 0,
            views(r@) + split_pat_from(s@, p@, start as int, i as int) == split_pat(s@, p@),
        decreases s@.len() - i,
    {
        if occurs_at_exec(s, p, i) {
            let piece = slice_vec(s, start, i);
            let ghost before = views(r@);
            r.push(piece);
            assert(views(r@) =~= before.push(s@.subrange(start as int, i as int)));
            assert(views(r@) + split_pat_from(s@, p@, (i + p.len()) as int, (i + p.len()) as int)
                =~= before + split_pat_from(s@, p@, start as int, i as int));
            i = i + p.len();
            start = i;
        } else {
            i = i + 1;
        }
    }
    let piece = slice_vec(s, start, s.len());
    let ghost before = views(r@);
    r.push(piece);
    assert(views(r@) =~= before + split_pat_from(s@, p@, start as int, i as int));
    r
}

/// A copy of `v[from..to]`.
pub fn slice_vec(v: &Vec<char>, from: usize, to: usize) -> (r: Vec<char>)
    requires
        from <= to <= v@.len(),
    ensures
        r@ == v@.subrange(from as int, to as int),
{
    let mut r: Vec<char> = Vec::new();
    let mut i = from;
    while i < to
        invariant
            from <= i <= to <= v@.len(),
            r@ == v@.subrange(from as int, i as int),
        decreases to - i,
    {
        r.push(v[i]);
        assert(v@.subrange(from as int, i + 1) =~= v@.subrange(from as int, i as int).push(v@[i as int]));
        i = i + 1;
    }
    r
}

/// `s.split_whitespace()`, as owned words.
pub fn words_exec(s: &Vec<char>) -> (r: Vec<Vec<char>>)
    ensures
        views(r@) == words(s@),
{
    let mut r: Vec<Vec<char>> = Vec::new();
    let mut open = false;
    let mut start: usize = 0;
    let mut i: usize = 0;
    while i < s.len()
        invariant
            0 <= i <= s@.len(),
            open ==> start <= i,
            views(r@) + words_from(s@, if open { start as int } else { -1 }, i as int) == words(s@),
        decreases s@.len() - i,
    {
        if is_ws_char(s[i]) {
            if open {
                let piece = slice_vec(s, start, i);
                let ghost before = views(r@);
                r.push(piece);
                assert(views(r@) + words_from(s@, -1, i + 1) =~= before + words_from(s@, start as int, i as int));
                open = false;
            }
        } else {
            if !open {
                open = true;
                start = i;
            }
        }
        i = i + 1;
    }
    if open {
        let piece = slice_vec(s, start, s.len());
        let ghost before = views(r@);
        r.push(piece);
        assert(views(r@) =~= before + words_from(s@, start as int, i as int));
    } else {
        assert(views(r@) =~= views(r@) + words_from(s@, -1, i as int));
    }
    r
}

// ---------------------------------------------------------------------------
// Decimal rendering and parsing

/// The value of a string of decimal digits.
pub open spec fn digits_value(d: Seq<char>) -> nat
    decreases d.len(),
{
    if d.len() == 0 {
        0
    } else {
        digits_value(d.drop_last()) * 10 + ((d.last() as u32) - ('0' as u32)) as nat
    }
}

pub open spec fn all_digits(d: Seq<char>) -> bool {
    forall|i: int| 0 <= i < d.len() ==> is_digit(#[trigger] d[i])
}

/// `str::parse::<u64>`: an optional `+`, then one or more ASCII digits,
/// with the value in range.
pub open spec fn parse_u64(s: Seq<char>) -> Option<u64> {
    let d = if s.len() > 0 && s[0] == '+' { s.drop_first() } else { s };
    if d.len() > 0 && all_digits(d) && digits_value(d) <= u64::MAX {
        Some(digits_value(d) as u64)
    } else {
        None
    }
}

/// Decimal rendering of a natural number (`to_string`).
pub open spec fn decimal(n: nat) -> Seq<char>
    decreases n,
{
    if n < 10 {
        seq![(n + 48) as char]
    } else {
        decimal(n / 10).push(((n % 10) + 48) as char)
    }
}

pub fn parse_u64_exec(s: &Vec<char>) -> (r: Option<u64>)
    ensures
        r == parse_u64(s@),
{
    let from: usize = if s.len() > 0 && s[0] == '+' { 1 } else { 0 };
    let ghost d = if s@.len() > 0 && s@[0] == '+' { s@.drop_first() } else { s@ };
    assert(d =~= s@.subrange(from as int, s@.len() as int));
    assert(parse_u64(s@) == (if d.len() > 0 && all_digits(d) && digits_value(d) <= u64::MAX {
        Some(digits_value(d) as u64)
    } else {
        None
    }));
    if from >= s.len() {
        return None;
    }
    let mut value: u64 = 0;
    let mut i = from;
    while i < s.len()
        invariant
            from <= i <= s@.len(),
            d == s@.subrange(from as int, s@.len() as int),
            parse_u64(s@) == (if d.len() > 0 && all_digits(d) && digits_value(d) <= u64::MAX {
                Some(digits_value(d) as u64)
            } else {
                None
            }),
            all_digits(s@.subrange(from as int, i as int)),
            value as nat == digits_value(s@.subrange(from as int, i as int)),
        decreases s@.len() - i,
    {
        let c = s[i];
        let ghost pre = s@.subrange(from as int, i as int);
        let ghost next = s@.subrange(from as int, i + 1);
        assert(next.drop_last() =~= pre);
        assert(next.last() == c);
        if !is_digit_char(c) {
            assert(d[i - from] == c);
            assert(!all_digits(d));
            return None;
        }
        let digit: u64 = (c as u32 - '0' as u32) as u64;
        if value > (u64::MAX - digit) / 10 {
            proof {
                assert(d.subrange(0, i + 1 - from) =~= next);
                if all_digits(d) {
                    lemma_digits_value_monotone(d, (i + 1 - from) as int);
                }
            }
            return None;
        }
        value = value * 10 + digit;
        i = i + 1;
    }
    assert(s@.subrange(from as int, i as int) =~= d);
    Some(value)
}

/// A longer digit prefix never has a smaller value.
proof fn lemma_digits_value_monotone(d: Seq<char>, k: int)
    requires
        0 <= k <= d.len(),
        all_digits(d),
    ensures
        digits_value(d.subrange(0, k)) <= digits_value(d),
    decreases d.len() - k,
{
    if k < d.len() {
        lemma_digits_value_monotone(d, k + 1);
        let a = d.subrange(0, k);
        let b = d.subrange(0, k + 1);
        assert(b.drop_last() =~= a);
        assert(is_digit(d[k]));
        assert(digits_value(b) == digits_value(a) * 10 + ((d[k] as u32) - ('0' as u32)) as nat);
    } else {
        assert(d.subrange(0, k) =~= d);
    }
}

/// Decimal rendering of `n`.
pub fn decimal_string(n: u64) -> (r: String)
    ensures
        r@ == decimal(n as nat),
    decreases n,
{
    if n < 10 {
        let mut r = String::new();
        let c = char_from_ascii((n + 48) as u32);
        push_char(&mut r, c);
        assert(r@ =~= seq![(n + 48) as char]);
        r
    } else {
        let mut r = decimal_string(n / 10);
        let c = char_from_ascii((n % 10 + 48) as u32);
        push_char(&mut r, c);
        r
    }
}


// ---------------------------------------------------------------------------
// Replacing

/// `str::replace` for a non-empty pattern: every occurrence of `p`, found
/// left to right without overlaps, is replaced by `r`.
pub open spec fn replace_all(s: Seq<char>, p: Seq<char>, r: Seq<char>) -> Seq<char>
    decreases s.len(),
{
    if s.len() == 0 || p.len() == 0 {
        s
    } else if has_prefix(s, p) {
        r + replace_all(s.skip(p.len() as int), p, r)
    } else {
        seq![s[0]] + replace_all(s.drop_first(), p, r)
    }
}

/// A string in which `p` does not occur is left unchanged.
pub proof fn lemma_replace_all_absent(s: Seq<char>, p: Seq<char>, r: Seq<char>)
    requires
        !contains_seq(s, p),
    ensures
        replace_all(s, p, r) == s,
    decreases s.len(),
{
    if s.len() == 0 || p.len() == 0 {
    } else {
        if has_prefix(s, p) {
            assert(occurs_at(s, p, 0));
        }
        assert forall|i: int| !occurs_at(s.drop_first(), p, i) by {
            if occurs_at(s.drop_first(), p, i) {
                assert(s.drop_first().subrange(i, i + p.len()) =~= s.subrange(i + 1, i + 1 + p.len()));
                assert(occurs_at(s, p, i + 1));
            }
        }
        lemma_replace_all_absent(s.drop_first(), p, r);
        assert(seq![s[0]] + s.drop_first() =~= s);
    }
}

/// `s.replace(p, r)` for a non-empty pattern.
pub fn replace_all_exec(s: &Vec<char>, p: &Vec<char>, r: &Vec<char>) -> (out: Vec<char>)
    requires
        p@.len() > 0,
    ensures
        out@ == replace_all(s@, p@, r@),
{
    let mut out: Vec<char> = Vec::new();
    let mut i: usize = 0;
    assert(s@.skip(0) =~= s@);
    while i < s.len()
        invariant
            0 <= i <= s@.len(),
            p@.len() > 0,
            out@ + replace_all(s@.skip(i as int), p@, r@) == replace_all(s@, p@, r@),
        decreases s@.len() - i,
    {
        let ghost rest = s@.skip(i as int);
        if occurs_at_exec(s, p, i) {
            assert(rest.subrange(0, p@.len() as int) =~= s@.subrange(i as int, i + p@.len()));
            assert(has_prefix(rest, p@));
            assert(rest.skip(p@.len() as int) =~= s@.skip(i + p@.len()));
            let ghost before = out@;
            let mut k: usize = 0;
            while k < r.len()
                invariant
                    0 <= k <= r@.len(),
                    out@ == before + r@.subrange(0, k as int),
                decreases r@.len() - k,
            {
                out.push(r[k]);
                assert(r@.subrange(0, k + 1) =~= r@.subrange(0, k as int).push(r@[k as int]));
                k = k + 1;
            }
            assert(r@.subrange(0, r@.len() as int) =~= r@);
            assert(out@ + replace_all(s@.skip(i + p@.len()), p@, r@) =~= before + (r@
                + replace_all(rest.skip(p@.len() as int), p@, r@)));
            i = i + p.len();
        } else {
            assert(rest.len() > 0);
            assert(!has_prefix(rest, p@)) by {
                if has_prefix(rest, p@) {
                    assert(rest.subrange(0, p@.len() as int) =~= s@.subrange(i as int, i + p@.len()));
                    assert(occurs_at(s@, p@, i as int));
                }
            }
            assert(rest.drop_first() =~= s@.skip(i + 1));
            assert(rest[0] == s@[i as int]);
            let ghost before = out@;
            out.push(s[i]);
            assert(out@ + replace_all(s@.skip(i + 1), p@, r@) =~= before + (seq![rest[0]]
                + replace_all(rest.drop_first(), p@, r@)));
            i = i + 1;
        }
    }
    assert(s@.skip(i as int) =~= Seq::<char>::empty());
    assert(out@ + Seq::<char>::empty() =~= out@);
    out
}

/// `s.to_ascii_uppercase()`.
pub fn upper_vec(s: &Vec<char>) -> (out: Vec<char>)
    ensures
        out@ == upper_seq(s@),
{
    let mut out: Vec<char> = Vec::new();
    let mut i: usize = 0;
    while i < s.len()
        invariant
            0 <= i <= s@.len(),
            out@ == upper_seq(s@.subrange(0, i as int)),
        decreases s@.len() - i,
    {
        out.push(upper_char_exec(s[i]));
        assert(upper_seq(s@.subrange(0, i + 1)) =~= upper_seq(s@.subrange(0, i as int)).push(
            upper_char(s@[i as int]),
        ));
        i = i + 1;
    }
    assert(s@.subrange(0, s@.len() as int) =~= s@);
    out
}

/// `s.to_ascii_lowercase()`.
pub fn lower_vec(s: &Vec<char>) -> (out: Vec<char>)
    ensures
        out@ == lower_seq(s@),
{
    let mut out: Vec<char> = Vec::new();
    let mut i: usize = 0;
    while i < s.len()
        invariant
            0 <= i <= s@.len(),
            out@ == lower_seq(s@.subrange(0, i as int)),
        decreases s@.len() - i,
    {
        out.push(lower_char_exec(s[i]));
        assert(lower_seq(s@.subrange(0, i + 1)) =~= lower_seq(s@.subrange(0, i as int)).push(
            lower_char(s@[i as int]),
        ));
        i = i + 1;
    }
    assert(s@.subrange(0, s@.len() as int) =~= s@);
    out
}


// ---------------------------------------------------------------------------
// Ordering and concatenation

/// Lexicographic order by code point (for UTF-8 text, the byte order that
/// `String`'s `Ord` uses).
pub open spec fn seq_lt(a: Seq<char>, b: Seq<char>) -> bool
    decreases a.len(),
{
    if a.len() == 0 {
        b.len() > 0
    } else if b.len() == 0 {
        false
    } else if a[0] != b[0] {
        (a[0] as int) < (b[0] as int)
    } else {
        seq_lt(a.drop_first(), b.drop_first())
    }
}

pub proof fn lemma_seq_lt_asymmetric(a: Seq<char>, b: Seq<char>)
    ensures
        seq_lt(a, b) ==> !seq_lt(b, a) && a != b,
    decreases a.len(),
{
    if a.len() > 0 && b.len() > 0 && a[0] == b[0] {
        lemma_seq_lt_asymmetric(a.drop_first(), b.drop_first());
    }
}

pub proof fn lemma_seq_lt_total(a: Seq<char>, b: Seq<char>)
    ensures
        a != b ==> seq_lt(a, b) || seq_lt(b, a),
    decreases a.len(),
{
    if a.len() > 0 && b.len() > 0 && a[0] == b[0] {
        lemma_seq_lt_total(a.drop_first(), b.drop_first());
        if a.drop_first() == b.drop_first() {
            assert(a =~= seq![a[0]] + a.drop_first());
            assert(b =~= seq![b[0]] + b.drop_first());
        }
    } else if a.len() == 0 && b.len() == 0 {
        assert(a =~= b);
    }
}

pub proof fn lemma_seq_lt_transitive(a: Seq<char>, b: Seq<char>, c: Seq<char>)
    requires
        seq_lt(a, b),
        seq_lt(b, c),
    ensures
        seq_lt(a, c),
    decreases a.len(),
{
    if a.len() > 0 && b.len() > 0 && c.len() > 0 && a[0] == b[0] && b[0] == c[0] {
        lemma_seq_lt_transitive(a.drop_first(), b.drop_first(), c.drop_first());
    }
}

/// `a < b` on texts.
pub fn lt_chars(a: &Vec<char>, b: &Vec<char>) -> (r: bool)
    ensures
        r == seq_lt(a@, b@),
{
    let mut i: usize = 0;
    assert(a@.subrange(0, a@.len() as int) =~= a@);
    assert(b@.subrange(0, b@.len() as int) =~= b@);
    while i < a.len() && i < b.len() && a[i] == b[i]
        invariant
            0 <= i <= a@.len(),
            i <= b@.len(),
            seq_lt(a@, b@) == seq_lt(a@.subrange(i as int, a@.len() as int), b@.subrange(
                i as int,
                b@.len() as int,
            )),
        decreases a@.len() - i,
    {
        let ghost sa = a@.subrange(i as int, a@.len() as int);
        let ghost sb = b@.subrange(i as int, b@.len() as int);
        assert(sa.drop_first() =~= a@.subrange(i + 1, a@.len() as int));
        assert(sb.drop_first() =~= b@.subrange(i + 1, b@.len() as int));
        i = i + 1;
    }
    let ghost sa = a@.subrange(i as int, a@.len() as int);
    let ghost sb = b@.subrange(i as int, b@.len() as int);
    if i == a.len() {
        return i < b.len();
    }
    if i == b.len() {
        return false;
    }
    assert(sa[0] == a@[i as int] && sb[0] == b@[i as int]);
    assert(sa[0] != sb[0]);
    a[i] < b[i]
}

/// `x` put into the ordered list `r`, unless it is there already.
pub open spec fn insert_sorted(r: Seq<Seq<char>>, x: Seq<char>) -> Seq<Seq<char>>
    decreases r.len(),
{
    if r.len() == 0 {
        seq![x]
    } else if r[0] == x {
        r
    } else if seq_lt(x, r[0]) {
        seq![x] + r
    } else {
        seq![r[0]] + insert_sorted(r.drop_first(), x)
    }
}

/// The distinct texts of `s` in order (`sort` then `dedup`).
pub open spec fn sorted_unique(s: Seq<Seq<char>>) -> Seq<Seq<char>>
    decreases s.len(),
{
    if s.len() == 0 {
        seq![]
    } else {
        insert_sorted(sorted_unique(s.drop_last()), s.last())
    }
}

pub open spec fn strictly_sorted(r: Seq<Seq<char>>) -> bool {
    forall|i: int, j: int| 0 <= i < j < r.len() ==> seq_lt(r[i], r[j])
}

proof fn lemma_insert_sorted_skip(r: Seq<Seq<char>>, x: Seq<char>, i: int)
    requires
        0 <= i <= r.len(),
        forall|k: int| 0 <= k < i ==> seq_lt(#[trigger] r[k], x),
    ensures
        insert_sorted(r, x) == r.subrange(0, i) + insert_sorted(r.subrange(i, r.len() as int), x),
    decreases i,
{
    if i == 0 {
        assert(r.subrange(0, 0) + r.subrange(0, r.len() as int) =~= r.subrange(0, r.len() as int));
        assert(r.subrange(0, r.len() as int) =~= r);
        assert(r.subrange(0, 0) + insert_sorted(r, x) =~= insert_sorted(r, x));
    } else {
        lemma_seq_lt_asymmetric(r[0], x);
        let t = r.drop_first();
        assert forall|k: int| 0 <= k < i - 1 implies seq_lt(#[trigger] t[k], x) by {
            assert(t[k] == r[k + 1]);
        }
        lemma_insert_sorted_skip(t, x, i - 1);
        assert(t.subrange(i - 1, t.len() as int) =~= r.subrange(i, r.len() as int));
        assert(seq![r[0]] + t.subrange(0, i - 1) =~= r.subrange(0, i));
    }
}

/// The distinct texts of `v`, sorted.
pub fn sorted_unique_exec(v: &Vec<String>) -> (r: Vec<String>)
    ensures
        crate::event::text_views(r@) == sorted_unique(crate::event::text_views(v@)),
{
    let ghost ps = crate::event::text_views(v@);
    let mut sorted: Vec<String> = Vec::new();
    let mut j: usize = 0;
    while j < v.len()
        invariant
            0 <= j <= v@.len(),
            ps == crate::event::text_views(v@),
            crate::event::text_views(sorted@) == sorted_unique(ps.subrange(0, j as int)),
        decreases v@.len() - j,
    {
        let ghost post = ps.subrange(0, j + 1);
        assert(post.drop_last() =~= ps.subrange(0, j as int));
        sorted = insert_sorted_exec(&sorted, v[j].as_str());
        j = j + 1;
    }
    assert(ps.subrange(0, v@.len() as int) =~= ps);
    sorted
}

/// Put `x` into the ordered list `r` unless it is already there.
pub fn insert_sorted_exec(r: &Vec<String>, x: &str) -> (out: Vec<String>)
    ensures
        crate::event::text_views(out@) == insert_sorted(crate::event::text_views(r@), x@),
{
    let ghost rv = crate::event::text_views(r@);
    let xs = chars_of(x);
    let mut out: Vec<String> = Vec::new();
    let mut i: usize = 0;
    while i < r.len() && lt_chars(&chars_of(r[i].as_str()), &xs)
        invariant
            0 <= i <= r@.len(),
            rv == crate::event::text_views(r@),
            xs@ == x@,
            out@.len() == i,
            crate::event::text_views(out@) == rv.subrange(0, i as int),
            forall|k: int| 0 <= k < i ==> seq_lt(#[trigger] rv[k], x@),
        decreases r@.len() - i,
    {
        let ghost before = out@;
        let item = r[i].clone();
        out.push(item);
        assert(crate::event::text_views(out@) =~= crate::event::text_views(before).push(item@));
        assert(crate::event::text_views(out@) =~= rv.subrange(0, i + 1));
        i = i + 1;
    }
    proof {
        lemma_insert_sorted_skip(rv, x@, i as int);
    }
    let ghost rest = rv.subrange(i as int, rv.len() as int);
    let mut insert_here = true;
    if i < r.len() {
        assert(rest[0] == rv[i as int]);
        if eq_str(r[i].as_str(), x) {
            insert_here = false;
        } else {
            proof {
                lemma_seq_lt_total(x@, rv[i as int]);
            }
        }
    }
    if insert_here {
        out.push(copy_str(x));
    }
    let ghost mid = crate::event::text_views(out@);
    let mut j: usize = i;
    while j < r.len()
        invariant
            i <= j <= r@.len(),
            rv == crate::event::text_views(r@),
            out@.len() == mid.len() + (j - i),
            crate::event::text_views(out@) == mid + rv.subrange(i as int, j as int),
        decreases r@.len() - j,
    {
        let ghost before = out@;
        let item = r[j].clone();
        out.push(item);
        assert(crate::event::text_views(out@) =~= crate::event::text_views(before).push(item@));
        assert(crate::event::text_views(out@) =~= mid + rv.subrange(i as int, j + 1));
        j = j + 1;
    }
    assert(crate::event::text_views(out@) =~= insert_sorted(rv, x@));
    out
}

/// `x` put into the ordered list `r` after every text not greater than it.
pub open spec fn insert_ordered(r: Seq<Seq<char>>, x: Seq<char>) -> Seq<Seq<char>>
    decreases r.len(),
{
    if r.len() == 0 {
        seq![x]
    } else if seq_lt(x, r[0]) {
        seq![x] + r
    } else {
        seq![r[0]] + insert_ordered(r.drop_first(), x)
    }
}

/// The texts of `s` in order, equal ones kept (a stable sort).
pub open spec fn sorted_texts(s: Seq<Seq<char>>) -> Seq<Seq<char>>
    decreases s.len(),
{
    if s.len() == 0 {
        seq![]
    } else {
        insert_ordered(sorted_texts(s.drop_last()), s.last())
    }
}

proof fn lemma_insert_ordered_skip(r: Seq<Seq<char>>, x: Seq<char>, i: int)
    requires
        0 <= i <= r.len(),
        forall|k: int| 0 <= k < i ==> !seq_lt(x, #[trigger] r[k]),
    ensures
        insert_ordered(r, x) == r.subrange(0, i) + insert_ordered(r.subrange(i, r.len() as int), x),
    decreases i,
{
    if i == 0 {
        assert(r.subrange(0, r.len() as int) =~= r);
        assert(r.subrange(0, 0) + insert_ordered(r, x) =~= insert_ordered(r, x));
    } else {
        let t = r.drop_first();
        assert forall|k: int| 0 <= k < i - 1 implies !seq_lt(x, #[trigger] t[k]) by {
            assert(t[k] == r[k + 1]);
        }
        lemma_insert_ordered_skip(t, x, i - 1);
        assert(t.subrange(i - 1, t.len() as int) =~= r.subrange(i, r.len() as int));
        assert(seq![r[0]] + t.subrange(0, i - 1) =~= r.subrange(0, i));
    }
}

/// Put `x` into the ordered list `r`, after the texts not greater than it.
pub fn insert_ordered_exec(r: &Vec<String>, x: &str) -> (out: Vec<String>)
    ensures
        crate::event::text_views(out@) == insert_ordered(crate::event::text_views(r@), x@),
{
    let ghost rv = crate::event::text_views(r@);
    let xs = chars_of(x);
    let mut out: Vec<String> = Vec::new();
    let mut i: usize = 0;
    while i < r.len() && !lt_chars(&xs, &chars_of(r[i].as_str()))
        invariant
            0 <= i <= r@.len(),
            rv == crate::event::text_views(r@),
            xs@ == x@,
            crate::event::text_views(out@) == rv.subrange(0, i as int),
            forall|k: int| 0 <= k < i ==> !seq_lt(x@, #[trigger] rv[k]),
        decreases r@.len() - i,
    {
        let ghost before = out@;
        let item = r[i].clone();
        out.push(item);
        assert(crate::event::text_views(out@) =~= crate::event::text_views(before).push(item@));
        assert(crate::event::text_views(out@) =~= rv.subrange(0, i + 1));
        i = i + 1;
    }
    proof {
        lemma_insert_ordered_skip(rv, x@, i as int);
    }
    let ghost rest = rv.subrange(i as int, rv.len() as int);
    if i < r.len() {
        assert(rest[0] == rv[i as int]);
    }
    out.push(copy_str(x));
    let ghost mid = crate::event::text_views(out@);
    assert(mid =~= rv.subrange(0, i as int).push(x@));
    let mut j: usize = i;
    while j < r.len()
        invariant
            i <= j <= r@.len(),
            rv == crate::event::text_views(r@),
            crate::event::text_views(out@) == mid + rv.subrange(i as int, j as int),
        decreases r@.len() - j,
    {
        let ghost before = out@;
        let item = r[j].clone();
        out.push(item);
        assert(crate::event::text_views(out@) =~= crate::event::text_views(before).push(item@));
        assert(crate::event::text_views(out@) =~= mid + rv.subrange(i as int, j + 1));
        j = j + 1;
    }
    assert(crate::event::text_views(out@) =~= insert_ordered(rv, x@));
    out
}

/// The texts of `v`, sorted, equal ones kept.
pub fn sorted_texts_exec(v: &Vec<String>) -> (r: Vec<String>)
    ensures
        crate::event::text_views(r@) == sorted_texts(crate::event::text_views(v@)),
{
    let ghost ps = crate::event::text_views(v@);
    let mut sorted: Vec<String> = Vec::new();
    let mut j: usize = 0;
    while j < v.len()
        invariant
            0 <= j <= v@.len(),
            ps == crate::event::text_views(v@),
            crate::event::text_views(sorted@) == sorted_texts(ps.subrange(0, j as int)),
        decreases v@.len() - j,
    {
        let ghost post = ps.subrange(0, j + 1);
        assert(post.drop_last() =~= ps.subrange(0, j as int));
        sorted = insert_ordered_exec(&sorted, v[j].as_str());
        j = j + 1;
    }
    assert(ps.subrange(0, v@.len() as int) =~= ps);
    sorted
}

/// The texts joined end to end.
pub open spec fn concat_all(ts: Seq<Seq<char>>) -> Seq<char>
    decreases ts.len(),
{
    if ts.len() == 0 {
        seq![]
    } else {
        concat_all(ts.drop_last()) + ts.last()
    }
}


// ---------------------------------------------------------------------------
// Finding a character

/// The index of the first `c` in `s`, or -1.
pub open spec fn first_char_index(s: Seq<char>, c: char) -> int
    decreases s.len(),
{
    if s.len() == 0 {
        -1
    } else if s[0] == c {
        0
    } else if first_char_index(s.drop_first(), c) < 0 {
        -1
    } else {
        first_char_index(s.drop_first(), c) + 1
    }
}

pub proof fn lemma_first_char_index(s: Seq<char>, c: char, i: int)
    requires
        0 <= i <= s.len(),
        forall|j: int| 0 <= j < i ==> s[j] != c,
    ensures
        i < s.len() && s[i] == c ==> first_char_index(s, c) == i,
        i == s.len() ==> first_char_index(s, c) == -1,
    decreases i,
{
    if i > 0 {
        let t = s.drop_first();
        assert forall|j: int| 0 <= j < i - 1 implies t[j] != c by {
            assert(t[j] == s[j + 1]);
        }
        lemma_first_char_index(t, c, i - 1);
        if i < s.len() && s[i] == c {
            assert(t[i - 1] == c);
        }
    } else if s.len() == 0 {
    }
}

/// The index of the first `c` in `v`.
pub fn find_char(v: &Vec<char>, c: char) -> (r: Option<usize>)
    ensures
        r matches Some(i) ==> i as int == first_char_index(v@, c) && i < v@.len() && v@[i as int] == c,
        r is None ==> first_char_index(v@, c) == -1,
{
    let mut i: usize = 0;
    while i < v.len()
        invariant
            0 <= i <= v@.len(),
            forall|j: int| 0 <= j < i ==> v@[j] != c,
        decreases v@.len() - i,
    {
        if v[i] == c {
            proof {
                lemma_first_char_index(v@, c, i as int);
            }
            return Some(i);
        }
        i = i + 1;
    }
    proof {
        lemma_first_char_index(v@, c, i as int);
    }
    None
}

} // verus!
