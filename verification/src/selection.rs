//! Which provider builds a project: every provider that recognises the
//! project is scored by its evidence, and the highest score wins, earlier
//! providers of the registry winning ties.
use vstd::prelude::*;
use crate::base::{blank, is_blank, BaseConfig};
use crate::node::NodeEvidence;
use crate::node_static::NodeStaticEvidence;
use crate::php::PhpEvidence;
use crate::python::PythonEvidence;
use crate::text::{chars_of, copy_str, eq_chars, lower_seq, lower_vec, push_str};

verus! {

// ---------------------------------------------------------------------------
// The registry

/// A provider, in registry order.
#[derive(Debug, Clone, Copy, PartialEq, Eq, Structural)]
pub enum ProviderKind {
    Laravel,
    Hugo,
    Mkdocs,
    Python,
    Wordpress,
    Php,
    NodeStatic,
    Node,
    Jekyll,
    Go,
    StaticFile,
}

impl ProviderKind {
    /// The position in the registry, which resolves equal scores.
    pub open spec fn registry_index(self) -> int {
        match self {
            ProviderKind::Laravel => 0,
            ProviderKind::Hugo => 1,
            ProviderKind::Mkdocs => 2,
            ProviderKind::Python => 3,
            ProviderKind::Wordpress => 4,
            ProviderKind::Php => 5,
            ProviderKind::NodeStatic => 6,
            ProviderKind::Node => 7,
            ProviderKind::Jekyll => 8,
            ProviderKind::Go => 9,
            ProviderKind::StaticFile => 10,
        }
    }

    pub fn index(self) -> (r: u8)
        ensures
            r as int == self.registry_index(),
    {
        match self {
            ProviderKind::Laravel => 0,
            ProviderKind::Hugo => 1,
            ProviderKind::Mkdocs => 2,
            ProviderKind::Python => 3,
            ProviderKind::Wordpress => 4,
            ProviderKind::Php => 5,
            ProviderKind::NodeStatic => 6,
            ProviderKind::Node => 7,
            ProviderKind::Jekyll => 8,
            ProviderKind::Go => 9,
            ProviderKind::StaticFile => 10,
        }
    }

    pub open spec fn spec_name(self) -> Seq<char> {
        match self {
            ProviderKind::Laravel => "laravel"@,
            ProviderKind::Hugo => "hugo"@,
            ProviderKind::Mkdocs => "mkdocs"@,
            ProviderKind::Python => "python"@,
            ProviderKind::Wordpress => "wordpress"@,
            ProviderKind::Php => "php"@,
            ProviderKind::NodeStatic => "node-static"@,
            ProviderKind::Node => "node"@,
            ProviderKind::Jekyll => "jekyll"@,
            ProviderKind::Go => "go"@,
            ProviderKind::StaticFile => "staticfile"@,
        }
    }

    /// The provider's name.
    pub fn name(self) -> (r: &'static str)
        ensures
            r@ == self.spec_name(),
    {
        match self {
            ProviderKind::Laravel => "laravel",
            ProviderKind::Hugo => "hugo",
            ProviderKind::Mkdocs => "mkdocs",
            ProviderKind::Python => "python",
            ProviderKind::Wordpress => "wordpress",
            ProviderKind::Php => "php",
            ProviderKind::NodeStatic => "node-static",
            ProviderKind::Node => "node",
            ProviderKind::Jekyll => "jekyll",
            ProviderKind::Go => "go",
            ProviderKind::StaticFile => "staticfile",
        }
    }

    /// The provider whose name equals `name`, ignoring ASCII case.
    pub open spec fn spec_from_name(name: Seq<char>) -> Option<ProviderKind> {
        let n = lower_seq(name);
        if n == "laravel"@ {
            Some(ProviderKind::Laravel)
        } else if n == "hugo"@ {
            Some(ProviderKind::Hugo)
        } else if n == "mkdocs"@ {
            Some(ProviderKind::Mkdocs)
        } else if n == "python"@ {
            Some(ProviderKind::Python)
        } else if n == "wordpress"@ {
            Some(ProviderKind::Wordpress)
        } else if n == "php"@ {
            Some(ProviderKind::Php)
        } else if n == "node-static"@ {
            Some(ProviderKind::NodeStatic)
        } else if n == "node"@ {
            Some(ProviderKind::Node)
        } else if n == "jekyll"@ {
            Some(ProviderKind::Jekyll)
        } else if n == "go"@ {
            Some(ProviderKind::Go)
        } else if n == "staticfile"@ {
            Some(ProviderKind::StaticFile)
        } else {
            None
        }
    }

    pub fn from_name(name: &str) -> (r: Option<ProviderKind>)
        ensures
            r == Self::spec_from_name(name@),
    {
        let n = lower_vec(&chars_of(name));
        let all = [
            ProviderKind::Laravel,
            ProviderKind::Hugo,
            ProviderKind::Mkdocs,
            ProviderKind::Python,
            ProviderKind::Wordpress,
            ProviderKind::Php,
            ProviderKind::NodeStatic,
            ProviderKind::Node,
            ProviderKind::Jekyll,
            ProviderKind::Go,
            ProviderKind::StaticFile,
        ];
        let mut i: usize = 0;
        while i < 11
            invariant
                0 <= i <= 11,
                n@ == lower_seq(name@),
                all@ == seq![
                    ProviderKind::Laravel,
                    ProviderKind::Hugo,
                    ProviderKind::Mkdocs,
                    ProviderKind::Python,
                    ProviderKind::Wordpress,
                    ProviderKind::Php,
                    ProviderKind::NodeStatic,
                    ProviderKind::Node,
                    ProviderKind::Jekyll,
                    ProviderKind::Go,
                    ProviderKind::StaticFile,
                ],
                forall|k: int| 0 <= k < i ==> (#[trigger] all@[k]).spec_name() != lower_seq(name@),
            decreases 11 - i,
        {
            let kind = all[i];
            if eq_chars(&chars_of(kind.name()), &n) {
                return Some(kind);
            }
            i = i + 1;
        }
        proof {
            reveal_strlit("laravel");
            reveal_strlit("hugo");
            reveal_strlit("mkdocs");
            reveal_strlit("python");
            reveal_strlit("wordpress");
            reveal_strlit("php");
            reveal_strlit("node-static");
            reveal_strlit("node");
            reveal_strlit("jekyll");
            reveal_strlit("go");
            reveal_strlit("staticfile");
            assert(all@[0].spec_name() != lower_seq(name@));
            assert(all@[1].spec_name() != lower_seq(name@));
            assert(all@[2].spec_name() != lower_seq(name@));
            assert(all@[3].spec_name() != lower_seq(name@));
            assert(all@[4].spec_name() != lower_seq(name@));
            assert(all@[5].spec_name() != lower_seq(name@));
            assert(all@[6].spec_name() != lower_seq(name@));
            assert(all@[7].spec_name() != lower_seq(name@));
            assert(all@[8].spec_name() != lower_seq(name@));
            assert(all@[9].spec_name() != lower_seq(name@));
            assert(all@[10].spec_name() != lower_seq(name@));
        }
        None
    }
}

// ---------------------------------------------------------------------------
// Evidence and scores

/// What a static site generator's detection found: its config with the
/// tool's own marker, or only the expected layout.
#[derive(Debug, Clone, Copy, PartialEq, Eq, Structural)]
pub enum SiteEvidence {
    Strong,
    Layout,
}

/// What the WordPress detection found.
#[derive(Debug, Clone, Copy, PartialEq, Eq, Structural)]
pub enum WordpressEvidence {
    Site,
    Extension,
}

/// What the static-file detection found.
#[derive(Debug, Clone, Copy, PartialEq, Eq, Structural)]
pub enum StaticFileEvidence {
    Staticfile,
    Html,
    UnbuiltNodeSite,
    Fallback,
    StartCommand,
}

/// Why a provider recognised a project.
#[derive(Debug, Clone, Copy, PartialEq, Eq, Structural)]
pub enum DetectionEvidence {
    Laravel,
    Hugo(SiteEvidence),
    Mkdocs,
    Python(PythonEvidence),
    Wordpress(WordpressEvidence),
    Php(PhpEvidence),
    NodeStatic(NodeStaticEvidence),
    Node(NodeEvidence),
    Jekyll(SiteEvidence),
    Go,
    StaticFile(StaticFileEvidence),
}

impl DetectionEvidence {
    pub open spec fn spec_kind(self) -> ProviderKind {
        match self {
            DetectionEvidence::Laravel => ProviderKind::Laravel,
            DetectionEvidence::Hugo(_) => ProviderKind::Hugo,
            DetectionEvidence::Mkdocs => ProviderKind::Mkdocs,
            DetectionEvidence::Python(_) => ProviderKind::Python,
            DetectionEvidence::Wordpress(_) => ProviderKind::Wordpress,
            DetectionEvidence::Php(_) => ProviderKind::Php,
            DetectionEvidence::NodeStatic(_) => ProviderKind::NodeStatic,
            DetectionEvidence::Node(_) => ProviderKind::Node,
            DetectionEvidence::Jekyll(_) => ProviderKind::Jekyll,
            DetectionEvidence::Go => ProviderKind::Go,
            DetectionEvidence::StaticFile(_) => ProviderKind::StaticFile,
        }
    }

    /// The provider that found the evidence.
    pub fn kind(self) -> (r: ProviderKind)
        ensures
            r == self.spec_kind(),
    {
        match self {
            DetectionEvidence::Laravel => ProviderKind::Laravel,
            DetectionEvidence::Hugo(_) => ProviderKind::Hugo,
            DetectionEvidence::Mkdocs => ProviderKind::Mkdocs,
            DetectionEvidence::Python(_) => ProviderKind::Python,
            DetectionEvidence::Wordpress(_) => ProviderKind::Wordpress,
            DetectionEvidence::Php(_) => ProviderKind::Php,
            DetectionEvidence::NodeStatic(_) => ProviderKind::NodeStatic,
            DetectionEvidence::Node(_) => ProviderKind::Node,
            DetectionEvidence::Jekyll(_) => ProviderKind::Jekyll,
            DetectionEvidence::Go => ProviderKind::Go,
            DetectionEvidence::StaticFile(_) => ProviderKind::StaticFile,
        }
    }

    pub open spec fn spec_score(self) -> i32 {
        match self {
            DetectionEvidence::Laravel => 95,
            DetectionEvidence::Hugo(e) => match e {
                SiteEvidence::Strong => 80,
                SiteEvidence::Layout => 40,
            },
            DetectionEvidence::Mkdocs => 85,
            DetectionEvidence::Python(e) => match e {
                PythonEvidence::DjangoDependencies => 70,
                PythonEvidence::Dependencies => 50,
                PythonEvidence::Command => 80,
                PythonEvidence::Entrypoint => 10,
            },
            DetectionEvidence::Wordpress(e) => match e {
                WordpressEvidence::Site => 80,
                WordpressEvidence::Extension => 75,
            },
            DetectionEvidence::Php(e) => match e {
                PhpEvidence::DrupalWeb => 70,
                PhpEvidence::Framework => 65,
                PhpEvidence::ComposerEntrypoint => 60,
                PhpEvidence::Entrypoint => 20,
                PhpEvidence::StartCommand => 70,
                PhpEvidence::InstallCommand => 30,
            },
            DetectionEvidence::NodeStatic(e) => match e {
                NodeStaticEvidence::Strong => 60,
                NodeStaticEvidence::Weak => 20,
            },
            DetectionEvidence::Node(e) => match e {
                NodeEvidence::StartCommand => 35,
                NodeEvidence::PackageWithStart => 30,
                NodeEvidence::Package => 10,
                NodeEvidence::FrameworkWithStart => 45,
                NodeEvidence::Framework => 10,
                NodeEvidence::Entrypoint => 30,
            },
            DetectionEvidence::Jekyll(e) => match e {
                SiteEvidence::Strong => 85,
                SiteEvidence::Layout => 40,
            },
            DetectionEvidence::Go => 80,
            DetectionEvidence::StaticFile(e) => match e {
                StaticFileEvidence::Staticfile => 50,
                StaticFileEvidence::Html => 15,
                StaticFileEvidence::UnbuiltNodeSite => 15,
                StaticFileEvidence::Fallback => 10,
                StaticFileEvidence::StartCommand => 70,
            },
        }
    }

    /// The detection score of the evidence.
    pub fn score(self) -> (r: i32)
        ensures
            r == self.spec_score(),
    {
        match self {
            DetectionEvidence::Laravel => 95,
            DetectionEvidence::Hugo(e) => match e {
                SiteEvidence::Strong => 80,
                SiteEvidence::Layout => 40,
            },
            DetectionEvidence::Mkdocs => 85,
            DetectionEvidence::Python(e) => match e {
                PythonEvidence::DjangoDependencies => 70,
                PythonEvidence::Dependencies => 50,
                PythonEvidence::Command => 80,
                PythonEvidence::Entrypoint => 10,
            },
            DetectionEvidence::Wordpress(e) => match e {
                WordpressEvidence::Site => 80,
                WordpressEvidence::Extension => 75,
            },
            DetectionEvidence::Php(e) => match e {
                PhpEvidence::DrupalWeb => 70,
                PhpEvidence::Framework => 65,
                PhpEvidence::ComposerEntrypoint => 60,
                PhpEvidence::Entrypoint => 20,
                PhpEvidence::StartCommand => 70,
                PhpEvidence::InstallCommand => 30,
            },
            DetectionEvidence::NodeStatic(e) => match e {
                NodeStaticEvidence::Strong => 60,
                NodeStaticEvidence::Weak => 20,
            },
            DetectionEvidence::Node(e) => match e {
                NodeEvidence::StartCommand => 35,
                NodeEvidence::PackageWithStart => 30,
                NodeEvidence::Package => 10,
                NodeEvidence::FrameworkWithStart => 45,
                NodeEvidence::Framework => 10,
                NodeEvidence::Entrypoint => 30,
            },
            DetectionEvidence::Jekyll(e) => match e {
                SiteEvidence::Strong => 85,
                SiteEvidence::Layout => 40,
            },
            DetectionEvidence::Go => 80,
            DetectionEvidence::StaticFile(e) => match e {
                StaticFileEvidence::Staticfile => 50,
                StaticFileEvidence::Html => 15,
                StaticFileEvidence::UnbuiltNodeSite => 15,
                StaticFileEvidence::Fallback => 10,
                StaticFileEvidence::StartCommand => 70,
            },
        }
    }
}

// ---------------------------------------------------------------------------
// Selection

/// A provider that recognised the project, with the evidence its scoring
/// found (none when the scoring did not confirm the detection).
#[derive(Debug, Clone, Copy, PartialEq, Eq, Structural)]
pub struct Candidate {
    pub kind: ProviderKind,
    pub evidence: Option<DetectionEvidence>,
}

/// Candidate `a` ranks before `b`: a higher score, or an equal score and
/// an earlier place in the registry.
pub open spec fn ranks_before(a: Candidate, b: Candidate) -> bool {
    let sa = a.evidence->Some_0.spec_score();
    let sb = b.evidence->Some_0.spec_score();
    sa > sb || (sa == sb && a.kind.registry_index() < b.kind.registry_index())
}

pub open spec fn same_rank(a: Candidate, b: Candidate) -> bool {
    a.evidence->Some_0.spec_score() == b.evidence->Some_0.spec_score() && a.kind == b.kind
}

/// Every candidate's detection was confirmed by its scoring.
pub open spec fn all_scored(c: Seq<Candidate>) -> bool {
    forall|i: int| 0 <= i < c.len() ==> (#[trigger] c[i]).evidence is Some
}

/// The first candidate whose scoring did not confirm it.
pub open spec fn first_unscored(c: Seq<Candidate>, i: int) -> bool {
    0 <= i < c.len() && c[i].evidence is None && forall|j: int| 0 <= j < i ==> (#[trigger] c[j]).evidence is Some
}

/// `i` is the candidate that wins: it ranks before every other, and before
/// every later one that ties with it.
pub open spec fn wins(c: Seq<Candidate>, i: int) -> bool {
    &&& 0 <= i < c.len()
    &&& forall|j: int| 0 <= j < c.len() && j != i ==> ranks_before(c[i], #[trigger] c[j]) || (same_rank(c[i], c[j]) && i < j)
}

pub open spec fn unconfirmed_message(kind: ProviderKind) -> Seq<char> {
    kind.spec_name() + " returned a config without matching its detection evidence"@
}

pub open spec fn no_provider_message() -> Seq<char> {
    "Anybuild could not detect a provider for this project"@
}

fn score_of(c: &Candidate) -> (r: i32)
    requires
        c.evidence is Some,
    ensures
        r == c.evidence->Some_0.spec_score(),
{
    match c.evidence {
        Some(e) => e.score(),
        None => 0,
    }
}

/// The index of the winning candidate; candidates are listed in the order
/// the providers were asked. Fails when a candidate's scoring did not
/// confirm its detection, or when there is none.
pub fn select_candidate(candidates: &Vec<Candidate>) -> (r: Result<usize, String>)
    ensures
        !all_scored(candidates@) ==> exists|i: int| first_unscored(candidates@, i) && (r matches Err(e) && e@
            == unconfirmed_message(candidates@[i].kind)),
        all_scored(candidates@) && candidates@.len() == 0 ==> (r matches Err(e) && e@ == no_provider_message()),
        all_scored(candidates@) && candidates@.len() > 0 ==> (r matches Ok(i) && wins(candidates@, i as int)),
{
    let mut k: usize = 0;
    while k < candidates.len()
        invariant
            0 <= k <= candidates@.len(),
            forall|j: int| 0 <= j < k ==> (#[trigger] candidates@[j]).evidence is Some,
        decreases candidates@.len() - k,
    {
        if candidates[k].evidence.is_none() {
            let mut m = copy_str(candidates[k].kind.name());
            push_str(&mut m, " returned a config without matching its detection evidence");
            assert(first_unscored(candidates@, k as int));
            return Err(m);
        }
        k = k + 1;
    }
    if candidates.len() == 0 {
        return Err(copy_str("Anybuild could not detect a provider for this project"));
    }
    let mut best: usize = 0;
    let mut i: usize = 1;
    while i < candidates.len()
        invariant
            1 <= i <= candidates@.len(),
            0 <= best < i,
            all_scored(candidates@),
            forall|j: int| 0 <= j < i && j != best ==> ranks_before(candidates@[best as int], #[trigger] candidates@[j])
                || (same_rank(candidates@[best as int], candidates@[j]) && best < j),
        decreases candidates@.len() - i,
    {
        let sb = score_of(&candidates[best]);
        let si = score_of(&candidates[i]);
        if si > sb || (si == sb && candidates[i].kind.index() < candidates[best].kind.index()) {
            let ghost old_best = best as int;
            best = i;
            assert forall|j: int| 0 <= j < i + 1 && j != best implies ranks_before(candidates@[best as int], #[trigger] candidates@[j])
                || (same_rank(candidates@[best as int], candidates@[j]) && best < j) by {
                if j != old_best {
                    assert(ranks_before(candidates@[old_best], candidates@[j]) || same_rank(candidates@[old_best], candidates@[j]));
                }
            }
        } else {
            assert(ranks_before(candidates@[best as int], candidates@[i as int]) || same_rank(candidates@[best as int], candidates@[i as int]));
        }
        i = i + 1;
    }
    Ok(best)
}

/// No two candidates come from the same provider.
pub open spec fn distinct_kinds(c: Seq<Candidate>) -> bool {
    forall|i: int, j: int| 0 <= i < j < c.len() ==> c[i].kind != c[j].kind
}

/// The winner does not depend on the order in which the providers were
/// asked: two listings of the same candidates, each provider at most once,
/// pick the same one.
pub proof fn law_winner_is_order_independent(a: Seq<Candidate>, b: Seq<Candidate>, i: int, j: int)
    requires
        all_scored(a),
        distinct_kinds(a),
        distinct_kinds(b),
        forall|x: Candidate| a.contains(x) <==> b.contains(x),
        wins(a, i),
        wins(b, j),
    ensures
        a[i] == b[j],
{
    if a[i] != b[j] {
        assert(a.contains(a[i]));
        assert(b.contains(b[j]));
        let k = choose|k: int| 0 <= k < b.len() && b[k] == a[i];
        let m = choose|m: int| 0 <= m < a.len() && a[m] == b[j];
        assert(all_scored(b)) by {
            assert forall|n: int| 0 <= n < b.len() implies (#[trigger] b[n]).evidence is Some by {
                assert(b.contains(b[n]));
                let q = choose|q: int| 0 <= q < a.len() && a[q] == b[n];
                assert(a[q].evidence is Some);
            }
        }
        assert(m != i);
        assert(k != j);
        assert(ranks_before(a[i], a[m]) || (same_rank(a[i], a[m]) && i < m));
        assert(ranks_before(b[j], b[k]) || (same_rank(b[j], b[k]) && j < k));
        if same_rank(a[i], a[m]) {
            if i < m {
                assert(a[i].kind != a[m].kind);
            } else {
                assert(a[m].kind != a[i].kind);
            }
        }
        if same_rank(b[j], b[k]) {
            if j < k {
                assert(b[j].kind != b[k].kind);
            } else {
                assert(b[k].kind != b[j].kind);
            }
        }
    }
}

/// The serve name of a project: the configured one, else the name of its
/// directory (empty counts as unset).
pub fn finish_name(base: &mut BaseConfig, directory_name: &str)
    ensures
        blank(old(base).name) ==> (final(base).name matches Some(n) && n@ == directory_name@),
        !blank(old(base).name) ==> final(base).name == old(base).name,
        final(base).port == old(base).port,
        final(base).commands == old(base).commands,
        final(base).app_subdir == old(base).app_subdir,
        final(base).runtime_dependencies == old(base).runtime_dependencies,
        final(base).database == old(base).database,
{
    if is_blank(&base.name) {
        base.name = Some(copy_str(directory_name));
    }
}

/// The provider `--use-provider` names, when it names one (in any case);
/// it is used without detection.
pub fn chosen_provider(use_provider: Option<&str>) -> (r: Option<ProviderKind>)
    ensures
        r == match use_provider {
            Some(name) => ProviderKind::spec_from_name(name@),
            None => None,
        },
{
    match use_provider {
        Some(name) => ProviderKind::from_name(name),
        None => None,
    }
}

/// A provider built on a more general one outranks it: MkDocs evidence
/// beats every Python evidence (an MkDocs site is also a Python project)
/// and Laravel evidence beats every PHP evidence (a Laravel app is also a
/// PHP app). So among confirmed candidates the general provider never wins
/// while the specific one is among them.
pub proof fn law_specific_provider_outranks_general(c: Seq<Candidate>, w: int, k: int)
    requires
        all_scored(c),
        wins(c, w),
        0 <= k < c.len(),
    ensures
        forall|e: PythonEvidence| #[trigger] DetectionEvidence::Python(e).spec_score() < DetectionEvidence::Mkdocs.spec_score(),
        forall|e: PhpEvidence| #[trigger] DetectionEvidence::Php(e).spec_score() < DetectionEvidence::Laravel.spec_score(),
        c[k].evidence == Some(DetectionEvidence::Mkdocs) ==> !(c[w].evidence->Some_0 is Python),
        c[k].evidence == Some(DetectionEvidence::Laravel) ==> !(c[w].evidence->Some_0 is Php),
{
    assert forall|e: PythonEvidence| #[trigger] DetectionEvidence::Python(e).spec_score() < DetectionEvidence::Mkdocs.spec_score() by {
        match e {
            PythonEvidence::DjangoDependencies => {},
            PythonEvidence::Dependencies => {},
            PythonEvidence::Command => {},
            PythonEvidence::Entrypoint => {},
        }
    }
    assert forall|e: PhpEvidence| #[trigger] DetectionEvidence::Php(e).spec_score() < DetectionEvidence::Laravel.spec_score() by {
        match e {
            PhpEvidence::DrupalWeb => {},
            PhpEvidence::Framework => {},
            PhpEvidence::ComposerEntrypoint => {},
            PhpEvidence::Entrypoint => {},
            PhpEvidence::StartCommand => {},
            PhpEvidence::InstallCommand => {},
        }
    }
    if k != w {
        assert(ranks_before(c[w], c[k]) || (same_rank(c[w], c[k]) && w < k));
        if c[w].evidence->Some_0 is Python {
            let e = c[w].evidence->Some_0->Python_0;
            assert(DetectionEvidence::Python(e).spec_score() < DetectionEvidence::Mkdocs.spec_score());
        }
        if c[w].evidence->Some_0 is Php {
            let e = c[w].evidence->Some_0->Php_0;
            assert(DetectionEvidence::Php(e).spec_score() < DetectionEvidence::Laravel.spec_score());
        }
    }
}

} // verus!
