//! Text shown while the local backend builds: the real build directory is
//! shown as the virtual root `/` that the build sees.
use vstd::prelude::*;
use crate::text::{chars_of, find_from, occurs_at, push_str, string_of};

verus! {

/// The first index at or after `pos` where `p` occurs in `d`.
#[verifier::opaque]
pub open spec fn next_occurrence(d: Seq<char>, p: Seq<char>, pos: int) -> Option<int> {
    if exists|k: int| pos <= k && occurs_at(d, p, k) {
        Some(choose|k: int| pos <= k && occurs_at(d, p, k) && forall|j: int| pos <= j < k ==> !occurs_at(d, p, j))
    } else {
        None
    }
}

proof fn lemma_next_occurrence(d: Seq<char>, p: Seq<char>, pos: int, k: int)
    requires
        pos <= k,
        occurs_at(d, p, k),
        forall|j: int| pos <= j < k ==> !occurs_at(d, p, j),
    ensures
        next_occurrence(d, p, pos) == Some(k),
{
    reveal(next_occurrence);
    let c = choose|c: int| pos <= c && occurs_at(d, p, c) && forall|j: int| pos <= j < c ==> !occurs_at(d, p, j);
    assert(pos <= c && occurs_at(d, p, c) && forall|j: int| pos <= j < c ==> !occurs_at(d, p, j));
    if c < k {
        assert(!occurs_at(d, p, c));
    }
    if k < c {
        assert(!occurs_at(d, p, k));
    }
}

proof fn lemma_no_next_occurrence(d: Seq<char>, p: Seq<char>, pos: int)
    requires
        forall|j: int| pos <= j ==> !occurs_at(d, p, j),
    ensures
        next_occurrence(d, p, pos) is None,
{
    reveal(next_occurrence);
}

/// Characters that end a path inside a shell command line.
pub open spec fn ends_path(c: char) -> bool {
    c == ' ' || c == '\t' || c == '\n' || c == '\r' || c == '\'' || c == '"' || c == ';' || c == ':'
        || c == '|' || c == '&' || c == ')' || c == ']' || c == '}' || c == ','
}

/// `d[pos..]` with each whole occurrence of the build path `bp` shown as
/// `/`: followed by a separator, the two merge into one `/`; followed by
/// the end or a character that ends a path, it becomes `/`; a longer name
/// that merely starts with it is kept.
pub open spec fn shorten_from(d: Seq<char>, bp: Seq<char>, pos: int) -> Seq<char>
    decreases d.len() - pos,
{
    if pos < 0 || pos > d.len() || bp.len() == 0 {
        seq![]
    } else {
        match next_occurrence(d, bp, pos) {
            None => d.subrange(pos, d.len() as int),
            Some(k) => {
                let a = k + bp.len();
                if pos <= k && a <= d.len() {
                    if a < d.len() && (d[a] == '/' || d[a] == '\\') {
                        d.subrange(pos, k) + seq!['/'] + shorten_from(d, bp, a + 1)
                    } else if a == d.len() || ends_path(d[a]) {
                        d.subrange(pos, k) + seq!['/'] + shorten_from(d, bp, a)
                    } else {
                        d.subrange(pos, k) + bp + shorten_from(d, bp, a)
                    }
                } else {
                    seq![]
                }
            },
        }
    }
}

fn ends_path_exec(c: char) -> (r: bool)
    ensures
        r == ends_path(c),
{
    c == ' ' || c == '\t' || c == '\n' || c == '\r' || c == '\'' || c == '"' || c == ';' || c == ':'
        || c == '|' || c == '&' || c == ')' || c == ']' || c == '}' || c == ','
}

/// Append `v[from..to]` to `out`.
fn push_range(out: &mut Vec<char>, v: &Vec<char>, from: usize, to: usize)
    requires
        from <= to <= v@.len(),
    ensures
        final(out)@ == old(out)@ + v@.subrange(from as int, to as int),
{
    let ghost before = out@;
    let mut i = from;
    while i < to
        invariant
            from <= i <= to <= v@.len(),
            out@ == before + v@.subrange(from as int, i as int),
        decreases to - i,
    {
        out.push(v[i]);
        assert(v@.subrange(from as int, i + 1) =~= v@.subrange(from as int, i as int).push(v@[i as int]));
        i = i + 1;
    }
}

/// Show the local build directory as the root the build sees.
#[verifier::rlimit(40)]
pub fn shorten_local_build_paths(description: &str, build_path: &str) -> (r: String)
    ensures
        build_path@.len() == 0 ==> r@ == description@,
        build_path@.len() > 0 ==> r@ == shorten_from(description@, build_path@, 0),
{
    let d = chars_of(description);
    let bp = chars_of(build_path);
    if bp.len() == 0 {
        return string_of(&d);
    }
    let mut out: Vec<char> = Vec::new();
    let mut pos: usize = 0;
    loop
        invariant
            0 <= pos <= d@.len(),
            bp@.len() > 0,
            d@ == description@,
            bp@ == build_path@,
            out@ + shorten_from(d@, bp@, pos as int) == shorten_from(d@, bp@, 0),
        decreases d@.len() - pos,
    {
        let ghost before = out@;
        match find_from(&d, &bp, pos) {
            None => {
                proof {
                    lemma_no_next_occurrence(d@, bp@, pos as int);
                }
                push_range(&mut out, &d, pos, d.len());
                return string_of(&out);
            },
            Some(k) => {
                proof {
                    lemma_next_occurrence(d@, bp@, pos as int, k as int);
                }
                assert(occurs_at(d@, bp@, k as int));
                let n = bp.len();
                assert(k + n <= d@.len());
                let a: usize = k + n;
                push_range(&mut out, &d, pos, k);
                if a < d.len() && (d[a] == '/' || d[a] == '\\') {
                    out.push('/');
                    assert(out@ + shorten_from(d@, bp@, a + 1) =~= before + (d@.subrange(pos as int, k as int)
                        + seq!['/'] + shorten_from(d@, bp@, a + 1)));
                    pos = a + 1;
                } else if a == d.len() || ends_path_exec(d[a]) {
                    out.push('/');
                    assert(out@ + shorten_from(d@, bp@, a as int) =~= before + (d@.subrange(pos as int, k as int)
                        + seq!['/'] + shorten_from(d@, bp@, a as int)));
                    pos = a;
                } else {
                    push_range(&mut out, &bp, 0, bp.len());
                    assert(bp@.subrange(0, bp@.len() as int) =~= bp@);
                    assert(out@ + shorten_from(d@, bp@, a as int) =~= before + (d@.subrange(pos as int, k as int)
                        + bp@ + shorten_from(d@, bp@, a as int)));
                    pos = a;
                }
            },
        }
    }
}

} // verus!
