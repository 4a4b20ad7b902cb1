//! Volume mappings: which guest path each named volume is mounted at, as
//! given on the command line and persisted by earlier builds.
use vstd::prelude::*;
use crate::env_map::{
    key_index, lemma_key_index, law_get_after_insert, law_insert_leaves_other_keys, map_get, map_insert,
    map_insert_all, map_insert_all_exec, map_insert_exec, pairs_view,
};
use crate::paths::{parse_volume_spec, volume_spec_result, VolumeSpecError};

verus! {

/// The mappings of `NAME:/guest/path` specs in order, a later spec for a
/// name replacing an earlier one in place; the first invalid spec's error.
#[verifier::opaque]
pub open spec fn cli_mappings(specs: Seq<String>) -> Result<Seq<(Seq<char>, Seq<char>)>, VolumeSpecError>
    decreases specs.len(),
{
    if specs.len() == 0 {
        Ok(seq![])
    } else {
        match cli_mappings(specs.drop_last()) {
            Err(e) => Err(e),
            Ok(m) => match volume_spec_result(specs.last()) {
                Err(e) => Err(e),
                Ok((name, guest)) => Ok(map_insert(m, name, guest)),
            },
        }
    }
}

fn insert_spec(out: &mut Vec<(String, String)>, spec: &String) -> (r: Result<(), VolumeSpecError>)
    ensures
        match volume_spec_result(*spec) {
            Ok((name, guest)) => r is Ok && pairs_view(final(out)@) == map_insert(pairs_view(old(out)@), name, guest),
            Err(e) => r == Err::<(), VolumeSpecError>(e),
        },
{
    match parse_volume_spec(spec) {
        Ok(v) => {
            map_insert_exec(out, v.0.as_str(), v.1.as_str());
            Ok(())
        },
        Err(e) => Err(e),
    }
}

/// Parse the `--volume` specs into a name to guest-path mapping.
#[verifier::spinoff_prover]
#[verifier::rlimit(80)]
pub fn parse_cli_volume_mappings(specs: &Vec<String>) -> (r: Result<Vec<(String, String)>, VolumeSpecError>)
    ensures
        match cli_mappings(specs@) {
            Ok(m) => (r matches Ok(v) && pairs_view(v@) == m),
            Err(e) => r == Err::<Vec<(String, String)>, VolumeSpecError>(e),
        },
{
    let mut out: Vec<(String, String)> = Vec::new();
    let mut i: usize = 0;
    proof {
        reveal(cli_mappings);
        assert(cli_mappings(specs@.subrange(0, 0)) == Ok::<Seq<(Seq<char>, Seq<char>)>, VolumeSpecError>(seq![]));
        assert(pairs_view(out@) =~= seq![]);
    }
    while i < specs.len()
        invariant
            0 <= i <= specs@.len(),
            cli_mappings(specs@.subrange(0, i as int)) == Ok::<Seq<(Seq<char>, Seq<char>)>, VolumeSpecError>(pairs_view(out@)),
        decreases specs@.len() - i,
    {
        proof {
            lemma_prefix_step(specs@, i as int);
        }
        match insert_spec(&mut out, &specs[i]) {
            Ok(()) => {},
            Err(e) => {
                proof {
                    lemma_error_persists(specs@, i as int + 1);
                }
                return Err(e);
            },
        }
        i = i + 1;
    }
    assert(specs@.subrange(0, specs@.len() as int) =~= specs@);
    Ok(out)
}

proof fn lemma_prefix_step(specs: Seq<String>, i: int)
    requires
        0 <= i < specs.len(),
    ensures
        cli_mappings(specs.subrange(0, i + 1)) == match cli_mappings(specs.subrange(0, i)) {
            Err(e) => Err(e),
            Ok(m) => match volume_spec_result(specs[i]) {
                Err(e) => Err(e),
                Ok((name, guest)) => Ok(map_insert(m, name, guest)),
            },
        },
{
    reveal(cli_mappings);
    let prefix = specs.subrange(0, i + 1);
    assert(prefix.drop_last() =~= specs.subrange(0, i));
    assert(prefix.last() == specs[i]);
}

/// An error in a prefix of the specs is the error of all of them.
proof fn lemma_error_persists(specs: Seq<String>, n: int)
    requires
        0 <= n <= specs.len(),
        cli_mappings(specs.subrange(0, n)) is Err,
    ensures
        cli_mappings(specs) == cli_mappings(specs.subrange(0, n)),
    decreases specs.len() - n,
{
    reveal(cli_mappings);
    if n == specs.len() {
        assert(specs.subrange(0, n) =~= specs);
    } else {
        let next = specs.subrange(0, n + 1);
        assert(next.drop_last() =~= specs.subrange(0, n));
        lemma_error_persists(specs, n + 1);
    }
}

/// The mapping sets merged in order: a later set's entry for a name
/// replaces an earlier one in place.
pub open spec fn merged(sets: Seq<Seq<(Seq<char>, Seq<char>)>>) -> Seq<(Seq<char>, Seq<char>)>
    decreases sets.len(),
{
    if sets.len() == 0 {
        seq![]
    } else {
        map_insert_all(merged(sets.drop_last()), sets.last())
    }
}

pub open spec fn set_views(sets: Seq<Vec<(String, String)>>) -> Seq<Seq<(Seq<char>, Seq<char>)>> {
    sets.map_values(|s: Vec<(String, String)>| pairs_view(s@))
}

/// Merge mapping sets, later ones overriding earlier ones.
pub fn merge_volume_mappings(sets: &Vec<Vec<(String, String)>>) -> (r: Vec<(String, String)>)
    ensures
        pairs_view(r@) == merged(set_views(sets@)),
{
    let ghost views = set_views(sets@);
    let mut out: Vec<(String, String)> = Vec::new();
    let mut i: usize = 0;
    while i < sets.len()
        invariant
            0 <= i <= sets@.len(),
            views == set_views(sets@),
            pairs_view(out@) == merged(views.subrange(0, i as int)),
        decreases sets@.len() - i,
    {
        let ghost prefix = views.subrange(0, i + 1);
        assert(prefix.drop_last() =~= views.subrange(0, i as int));
        assert(prefix.last() == pairs_view(sets@[i as int]@));
        map_insert_all_exec(&mut out, &sets[i]);
        i = i + 1;
    }
    assert(views.subrange(0, sets@.len() as int) =~= views);
    out
}

/// Inserting entries in order leaves a key with the last value the
/// entries give it, or its old value when they give none.
pub proof fn lemma_get_after_insert_all(m: Seq<(Seq<char>, Seq<char>)>, vars: Seq<(Seq<char>, Seq<char>)>, k: Seq<char>)
    ensures
        map_get(map_insert_all(m, vars), k) == match map_get(vars, k) {
            Some(v) => Some(v),
            None => map_get(m, k),
        },
    decreases vars.len(),
{
    if vars.len() > 0 {
        let rest = vars.drop_last();
        lemma_get_after_insert_all(m, rest, k);
        let last = vars.last();
        if last.0 == k {
            law_get_after_insert(map_insert_all(m, rest), k, last.1);
        } else {
            law_insert_leaves_other_keys(map_insert_all(m, rest), last.0, last.1, k);
            lemma_key_index(vars, k);
            lemma_key_index(rest, k);
            if key_index(rest, k) >= 0 {
                assert(vars[key_index(rest, k)] == rest[key_index(rest, k)]);
            }
        }
    }
}

/// A volume named in a later mapping set is mounted where that set says;
/// one it does not name keeps the earlier sets' mount.
pub proof fn law_later_mappings_win(sets: Seq<Seq<(Seq<char>, Seq<char>)>>, last: Seq<(Seq<char>, Seq<char>)>, name: Seq<char>)
    ensures
        map_get(merged(sets.push(last)), name) == match map_get(last, name) {
            Some(v) => Some(v),
            None => map_get(merged(sets), name),
        },
{
    assert(sets.push(last).drop_last() =~= sets);
    lemma_get_after_insert_all(merged(sets), last, name);
}

} // verus!
