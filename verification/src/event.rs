//! Structured events emitted by SDK operations, and the redaction of secret
//! values out of them.
use vstd::prelude::*;
use crate::json::JsonValue;
use crate::text::{
    chars_of, contains_chars, contains_seq, lemma_replace_all_absent, replace_all,
    replace_all_exec, string_of, upper_seq, upper_vec,
};

verus! {

#[derive(Debug, Clone, Copy, PartialEq, Eq, Structural)]
pub enum DiagnosticLevel {
    Info,
    Warning,
}

#[derive(Debug, Clone, PartialEq, Eq)]
pub struct ProviderDetail {
    pub label: String,
    pub value: String,
}

#[derive(Debug, Clone, Copy, PartialEq, Eq, Structural)]
pub enum PackagePhase {
    Build,
    Deploy,
    Both,
}

#[derive(Debug, Clone, PartialEq, Eq)]
pub struct BuildPlanPackage {
    pub name: String,
    pub version: Option<String>,
    pub architecture: Option<String>,
    pub phase: PackagePhase,
}

#[derive(Debug, Clone, PartialEq, Eq)]
pub enum BuildPlanStep {
    Run { command: String, group: Option<String> },
    Copy { source: String, target: String, base: String },
    Environment { variables: Vec<String> },
    Path { path: String },
    Workdir { path: String },
    WriteFile { path: String },
}

#[derive(Debug, Clone, PartialEq, Eq)]
pub struct DeployScript {
    pub name: String,
    pub command: String,
}

#[derive(Debug, Clone, PartialEq, Eq)]
pub struct WasmerPackageMapping {
    pub source: String,
    pub target: String,
}

#[derive(Debug, Clone, Copy, PartialEq, Eq, Structural)]
pub enum ProcessStream {
    Stdout,
    Stderr,
}

/// How the output of child processes is handled.
#[derive(Debug, Clone, Copy, PartialEq, Eq, Structural, Default)]
pub enum ProcessIo {
    #[default]
    Inherit,
    Events,
}

/// What an operation reports while it works.
#[derive(Debug, Clone, PartialEq, Eq)]
pub enum Event {
    Diagnostic { level: DiagnosticLevel, message: String },
    LegacyRenamed { from: String, to: String },
    ProviderDetected { provider: String, details: Vec<ProviderDetail> },
    ProviderDeclared { provider: String, details: Vec<ProviderDetail> },
    AnybuildGenerating { path: String, provider: String, config: JsonValue },
    BuildPlan {
        packages: Vec<BuildPlanPackage>,
        steps: Vec<BuildPlanStep>,
        prepare_steps: Vec<BuildPlanStep>,
        deploy_scripts: Vec<DeployScript>,
    },
    FileWritten { kind: String, path: String },
    SectionStarted { title: String },
    WasmerPackageMappings { mappings: Vec<WasmerPackageMapping> },
    Success { message: String },
    WasmerFileContent { filename: String, content: String, language: String },
    BuildStarted,
    BuildStep { description: String },
    CommandStarted { name: String, command: Option<String> },
    ProcessOutput { stream: ProcessStream, text: String },
    Content { content: String, language: Option<String> },
    ArtifactCreated { path: String },
    Deployment { description: String },
}

// ---------------------------------------------------------------------------
// Secrets

/// The words that mark an environment variable as secret.
pub open spec fn sensitive_markers() -> Seq<Seq<char>> {
    seq!["TOKEN"@, "PASSWORD"@, "SECRET"@, "CREDENTIAL"@, "API_KEY"@]
}

/// A variable is secret when its upper-cased name contains a marker.
pub open spec fn sensitive_name(name: Seq<char>) -> bool {
    exists|i: int| 0 <= i < 5 && contains_seq(upper_seq(name), #[trigger] sensitive_markers()[i])
}

/// Is `name` the name of a secret variable?
pub fn is_sensitive_name(name: &str) -> (r: bool)
    ensures
        r == sensitive_name(name@),
{
    let upper = upper_vec(&chars_of(name));
    let markers: [&str; 5] = ["TOKEN", "PASSWORD", "SECRET", "CREDENTIAL", "API_KEY"];
    let mut i: usize = 0;
    while i < 5
        invariant
            0 <= i <= 5,
            upper@ == upper_seq(name@),
            markers@.len() == 5,
            forall|j: int| 0 <= j < 5 ==> markers@[j]@ == #[trigger] sensitive_markers()[j],
            forall|j: int| 0 <= j < i ==> !contains_seq(upper@, #[trigger] sensitive_markers()[j]),
        decreases 5 - i,
    {
        let marker = chars_of(markers[i]);
        if contains_chars(&upper, &marker) {
            assert(contains_seq(upper_seq(name@), sensitive_markers()[i as int]));
            return true;
        }
        i = i + 1;
    }
    false
}

pub open spec fn text_views(v: Seq<String>) -> Seq<Seq<char>> {
    v.map_values(|s: String| s@)
}

/// Secrets are never empty.
pub open spec fn valid_secrets(secrets: Seq<Seq<char>>) -> bool {
    forall|i: int| 0 <= i < secrets.len() ==> (#[trigger] secrets[i]).len() > 0
}

/// The secret values of an environment: the non-empty values of the
/// variables with a secret name, in order.
pub open spec fn secret_values_of(environment: Seq<(String, String)>) -> Seq<Seq<char>>
    decreases environment.len(),
{
    if environment.len() == 0 {
        seq![]
    } else {
        let rest = secret_values_of(environment.drop_last());
        let (name, value) = environment.last();
        if sensitive_name(name@) && value@.len() > 0 {
            rest.push(value@)
        } else {
            rest
        }
    }
}

/// The secret values of an environment, as an operation collects them
/// when it starts.
pub fn secret_values(environment: &Vec<(String, String)>) -> (r: Vec<String>)
    ensures
        text_views(r@) == secret_values_of(environment@),
        valid_secrets(text_views(r@)),
{
    let mut r: Vec<String> = Vec::new();
    let mut i: usize = 0;
    while i < environment.len()
        invariant
            0 <= i <= environment@.len(),
            text_views(r@) == secret_values_of(environment@.subrange(0, i as int)),
            valid_secrets(text_views(r@)),
        decreases environment@.len() - i,
    {
        let ghost pre = environment@.subrange(0, i + 1);
        assert(pre.drop_last() =~= environment@.subrange(0, i as int));
        let name = &environment[i].0;
        let value = &environment[i].1;
        if is_sensitive_name(name.as_str()) && value.unicode_len() > 0 {
            let ghost before = r@;
            r.push(value.clone());
            assert(text_views(r@) =~= text_views(before).push(value@));
        }
        i = i + 1;
    }
    assert(environment@.subrange(0, environment@.len() as int) =~= environment@);
    r
}

/// Add one more secret value, unless it is empty or already known.
pub fn with_secret(secrets: &Vec<String>, secret: &str) -> (r: Vec<String>)
    requires
        valid_secrets(text_views(secrets@)),
    ensures
        valid_secrets(text_views(r@)),
        (secret@.len() == 0 || text_views(secrets@).contains(secret@)) ==> text_views(r@)
            == text_views(secrets@),
        !(secret@.len() == 0 || text_views(secrets@).contains(secret@)) ==> text_views(r@)
            == text_views(secrets@).push(secret@),
{
    let mut r: Vec<String> = Vec::new();
    let mut known = false;
    let mut i: usize = 0;
    while i < secrets.len()
        invariant
            0 <= i <= secrets@.len(),
            text_views(r@) == text_views(secrets@.subrange(0, i as int)),
            known == (exists|j: int| 0 <= j < i && #[trigger] secrets@[j]@ == secret@),
        decreases secrets@.len() - i,
    {
        let ghost before = r@;
        if crate::text::eq_str(secrets[i].as_str(), secret) {
            known = true;
        }
        assert(known == (exists|j: int| 0 <= j < i + 1 && #[trigger] secrets@[j]@ == secret@)) by {
            if secrets@[i as int]@ == secret@ {
                assert(0 <= i < i + 1 && secrets@[i as int]@ == secret@);
            }
        }
        r.push(secrets[i].clone());
        assert(text_views(secrets@.subrange(0, i + 1)) =~= text_views(secrets@.subrange(0, i as int)).push(secrets@[i as int]@));
        assert(text_views(r@) =~= text_views(before).push(secrets@[i as int]@));
        i = i + 1;
    }
    assert(secrets@.subrange(0, secrets@.len() as int) =~= secrets@);
    assert(known == text_views(secrets@).contains(secret@)) by {
        if known {
            let j = choose|j: int| 0 <= j < secrets@.len() && #[trigger] secrets@[j]@ == secret@;
            assert(text_views(secrets@)[j] == secret@);
        }
        if text_views(secrets@).contains(secret@) {
            let j = choose|j: int| 0 <= j < text_views(secrets@).len() && text_views(secrets@)[j] == secret@;
            assert(secrets@[j]@ == secret@);
        }
    }
    if !known && secret.unicode_len() > 0 {
        let ghost before = r@;
        r.push(crate::text::copy_str(secret));
        assert(text_views(r@) =~= text_views(before).push(secret@));
    }
    r
}

// ---------------------------------------------------------------------------
// Redaction

/// Replace each secret, in order, by `[REDACTED]`.
pub open spec fn redact_seq(secrets: Seq<Seq<char>>, t: Seq<char>) -> Seq<char>
    decreases secrets.len(),
{
    if secrets.len() == 0 {
        t
    } else {
        replace_all(redact_seq(secrets.drop_last(), t), secrets.last(), "[REDACTED]"@)
    }
}

/// Text in which no secret occurs is left as it is.
pub proof fn law_redaction_keeps_text_without_secrets(secrets: Seq<Seq<char>>, t: Seq<char>)
    requires
        forall|i: int| 0 <= i < secrets.len() ==> !contains_seq(t, #[trigger] secrets[i]),
    ensures
        redact_seq(secrets, t) == t,
    decreases secrets.len(),
{
    if secrets.len() > 0 {
        assert forall|i: int| 0 <= i < secrets.drop_last().len() implies !contains_seq(
            t,
            #[trigger] secrets.drop_last()[i],
        ) by {
            assert(secrets.drop_last()[i] == secrets[i]);
        }
        law_redaction_keeps_text_without_secrets(secrets.drop_last(), t);
        assert(!contains_seq(t, secrets[secrets.len() - 1]));
        lemma_replace_all_absent(t, secrets.last(), "[REDACTED]"@);
    }
}

/// `text` with every secret replaced by `[REDACTED]`.
pub fn redact(secrets: &Vec<String>, text: &String) -> (r: String)
    requires
        valid_secrets(text_views(secrets@)),
    ensures
        r@ == redact_seq(text_views(secrets@), text@),
{
    let marker = chars_of("[REDACTED]");
    let mut current = chars_of(text.as_str());
    let mut i: usize = 0;
    while i < secrets.len()
        invariant
            0 <= i <= secrets@.len(),
            valid_secrets(text_views(secrets@)),
            marker@ == "[REDACTED]"@,
            current@ == redact_seq(text_views(secrets@.subrange(0, i as int)), text@),
        decreases secrets@.len() - i,
    {
        let ghost sv = text_views(secrets@.subrange(0, i + 1));
        assert(sv.drop_last() =~= text_views(secrets@.subrange(0, i as int)));
        assert(sv.last() == text_views(secrets@)[i as int]);
        let pattern = chars_of(secrets[i].as_str());
        current = replace_all_exec(&current, &pattern, &marker);
        i = i + 1;
    }
    assert(secrets@.subrange(0, secrets@.len() as int) =~= secrets@);
    string_of(&current)
}

pub open spec fn text_redacted(secrets: Seq<Seq<char>>, a: String, b: String) -> bool {
    b@ == redact_seq(secrets, a@)
}

pub open spec fn opt_redacted(secrets: Seq<Seq<char>>, a: Option<String>, b: Option<String>) -> bool {
    match (a, b) {
        (None, None) => true,
        (Some(x), Some(y)) => text_redacted(secrets, x, y),
        _ => false,
    }
}

pub open spec fn texts_redacted(secrets: Seq<Seq<char>>, a: Seq<String>, b: Seq<String>) -> bool {
    a.len() == b.len() && forall|i: int| 0 <= i < a.len() ==> text_redacted(secrets, a[i], #[trigger] b[i])
}

fn redact_opt(secrets: &Vec<String>, text: &Option<String>) -> (r: Option<String>)
    requires
        valid_secrets(text_views(secrets@)),
    ensures
        opt_redacted(text_views(secrets@), *text, r),
{
    match text {
        Some(t) => Some(redact(secrets, t)),
        None => None,
    }
}

fn redact_all(secrets: &Vec<String>, texts: &Vec<String>) -> (r: Vec<String>)
    requires
        valid_secrets(text_views(secrets@)),
    ensures
        texts_redacted(text_views(secrets@), texts@, r@),
{
    let mut r: Vec<String> = Vec::new();
    let mut i: usize = 0;
    while i < texts.len()
        invariant
            0 <= i <= texts@.len(),
            valid_secrets(text_views(secrets@)),
            r@.len() == i,
            forall|j: int| 0 <= j < i ==> text_redacted(text_views(secrets@), texts@[j], #[trigger] r@[j]),
        decreases texts@.len() - i,
    {
        r.push(redact(secrets, &texts[i]));
        i = i + 1;
    }
    r
}

pub open spec fn detail_redacted(secrets: Seq<Seq<char>>, a: ProviderDetail, b: ProviderDetail) -> bool {
    b.label == a.label && text_redacted(secrets, a.value, b.value)
}

pub open spec fn package_redacted(secrets: Seq<Seq<char>>, a: BuildPlanPackage, b: BuildPlanPackage) -> bool {
    &&& text_redacted(secrets, a.name, b.name)
    &&& opt_redacted(secrets, a.version, b.version)
    &&& opt_redacted(secrets, a.architecture, b.architecture)
    &&& b.phase == a.phase
}

pub open spec fn script_redacted(secrets: Seq<Seq<char>>, a: DeployScript, b: DeployScript) -> bool {
    text_redacted(secrets, a.name, b.name) && text_redacted(secrets, a.command, b.command)
}

pub open spec fn mapping_redacted(
    secrets: Seq<Seq<char>>,
    a: WasmerPackageMapping,
    b: WasmerPackageMapping,
) -> bool {
    text_redacted(secrets, a.source, b.source) && text_redacted(secrets, a.target, b.target)
}

/// Every text of a build-plan step is redacted, but a working directory.
pub open spec fn step_redacted(secrets: Seq<Seq<char>>, a: BuildPlanStep, b: BuildPlanStep) -> bool {
    match (a, b) {
        (BuildPlanStep::Run { command: c1, group: g1 }, BuildPlanStep::Run { command: c2, group: g2 }) =>
            text_redacted(secrets, c1, c2) && opt_redacted(secrets, g1, g2),
        (
            BuildPlanStep::Copy { source: s1, target: t1, base: b1 },
            BuildPlanStep::Copy { source: s2, target: t2, base: b2 },
        ) => text_redacted(secrets, s1, s2) && text_redacted(secrets, t1, t2) && text_redacted(
            secrets,
            b1,
            b2,
        ),
        (BuildPlanStep::Environment { variables: v1 }, BuildPlanStep::Environment { variables: v2 }) =>
            texts_redacted(secrets, v1@, v2@),
        (BuildPlanStep::Path { path: p1 }, BuildPlanStep::Path { path: p2 }) => text_redacted(
            secrets,
            p1,
            p2,
        ),
        (BuildPlanStep::Workdir { path: p1 }, BuildPlanStep::Workdir { path: p2 }) => p1 == p2,
        (BuildPlanStep::WriteFile { path: p1 }, BuildPlanStep::WriteFile { path: p2 }) =>
            text_redacted(secrets, p1, p2),
        _ => false,
    }
}

/// A build-plan step with its secrets redacted.
pub fn redact_build_plan_step(secrets: &Vec<String>, step: &BuildPlanStep) -> (r: BuildPlanStep)
    requires
        valid_secrets(text_views(secrets@)),
    ensures
        step_redacted(text_views(secrets@), *step, r),
{
    match step {
        BuildPlanStep::Run { command, group } => BuildPlanStep::Run {
            command: redact(secrets, command),
            group: redact_opt(secrets, group),
        },
        BuildPlanStep::Copy { source, target, base } => BuildPlanStep::Copy {
            source: redact(secrets, source),
            target: redact(secrets, target),
            base: redact(secrets, base),
        },
        BuildPlanStep::Environment { variables } => BuildPlanStep::Environment {
            variables: redact_all(secrets, variables),
        },
        BuildPlanStep::Path { path } => BuildPlanStep::Path { path: redact(secrets, path) },
        BuildPlanStep::Workdir { path } => BuildPlanStep::Workdir { path: path.clone() },
        BuildPlanStep::WriteFile { path } => BuildPlanStep::WriteFile { path: redact(secrets, path) },
    }
}

pub open spec fn details_redacted(
    secrets: Seq<Seq<char>>,
    a: Seq<ProviderDetail>,
    b: Seq<ProviderDetail>,
) -> bool {
    a.len() == b.len() && forall|i: int| 0 <= i < a.len() ==> detail_redacted(secrets, a[i], #[trigger] b[i])
}

pub open spec fn packages_redacted(
    secrets: Seq<Seq<char>>,
    a: Seq<BuildPlanPackage>,
    b: Seq<BuildPlanPackage>,
) -> bool {
    a.len() == b.len() && forall|i: int| 0 <= i < a.len() ==> package_redacted(secrets, a[i], #[trigger] b[i])
}

pub open spec fn steps_redacted(
    secrets: Seq<Seq<char>>,
    a: Seq<BuildPlanStep>,
    b: Seq<BuildPlanStep>,
) -> bool {
    a.len() == b.len() && forall|i: int| 0 <= i < a.len() ==> step_redacted(secrets, a[i], #[trigger] b[i])
}

pub open spec fn scripts_redacted(
    secrets: Seq<Seq<char>>,
    a: Seq<DeployScript>,
    b: Seq<DeployScript>,
) -> bool {
    a.len() == b.len() && forall|i: int| 0 <= i < a.len() ==> script_redacted(secrets, a[i], #[trigger] b[i])
}

pub open spec fn mappings_redacted(
    secrets: Seq<Seq<char>>,
    a: Seq<WasmerPackageMapping>,
    b: Seq<WasmerPackageMapping>,
) -> bool {
    a.len() == b.len() && forall|i: int| 0 <= i < a.len() ==> mapping_redacted(secrets, a[i], #[trigger] b[i])
}

fn redact_details(secrets: &Vec<String>, details: &Vec<ProviderDetail>) -> (r: Vec<ProviderDetail>)
    requires
        valid_secrets(text_views(secrets@)),
    ensures
        details_redacted(text_views(secrets@), details@, r@),
{
    let mut r: Vec<ProviderDetail> = Vec::new();
    let mut i: usize = 0;
    while i < details.len()
        invariant
            0 <= i <= details@.len(),
            valid_secrets(text_views(secrets@)),
            r@.len() == i,
            forall|j: int| 0 <= j < i ==> detail_redacted(text_views(secrets@), details@[j], #[trigger] r@[j]),
        decreases details@.len() - i,
    {
        let d = &details[i];
        r.push(ProviderDetail { label: d.label.clone(), value: redact(secrets, &d.value) });
        i = i + 1;
    }
    r
}

fn redact_packages(secrets: &Vec<String>, packages: &Vec<BuildPlanPackage>) -> (r: Vec<BuildPlanPackage>)
    requires
        valid_secrets(text_views(secrets@)),
    ensures
        packages_redacted(text_views(secrets@), packages@, r@),
{
    let mut r: Vec<BuildPlanPackage> = Vec::new();
    let mut i: usize = 0;
    while i < packages.len()
        invariant
            0 <= i <= packages@.len(),
            valid_secrets(text_views(secrets@)),
            r@.len() == i,
            forall|j: int| 0 <= j < i ==> package_redacted(text_views(secrets@), packages@[j], #[trigger] r@[j]),
        decreases packages@.len() - i,
    {
        let p = &packages[i];
        r.push(BuildPlanPackage {
            name: redact(secrets, &p.name),
            version: redact_opt(secrets, &p.version),
            architecture: redact_opt(secrets, &p.architecture),
            phase: p.phase,
        });
        i = i + 1;
    }
    r
}

fn redact_steps(secrets: &Vec<String>, steps: &Vec<BuildPlanStep>) -> (r: Vec<BuildPlanStep>)
    requires
        valid_secrets(text_views(secrets@)),
    ensures
        steps_redacted(text_views(secrets@), steps@, r@),
{
    let mut r: Vec<BuildPlanStep> = Vec::new();
    let mut i: usize = 0;
    while i < steps.len()
        invariant
            0 <= i <= steps@.len(),
            valid_secrets(text_views(secrets@)),
            r@.len() == i,
            forall|j: int| 0 <= j < i ==> step_redacted(text_views(secrets@), steps@[j], #[trigger] r@[j]),
        decreases steps@.len() - i,
    {
        r.push(redact_build_plan_step(secrets, &steps[i]));
        i = i + 1;
    }
    r
}

fn redact_scripts(secrets: &Vec<String>, scripts: &Vec<DeployScript>) -> (r: Vec<DeployScript>)
    requires
        valid_secrets(text_views(secrets@)),
    ensures
        scripts_redacted(text_views(secrets@), scripts@, r@),
{
    let mut r: Vec<DeployScript> = Vec::new();
    let mut i: usize = 0;
    while i < scripts.len()
        invariant
            0 <= i <= scripts@.len(),
            valid_secrets(text_views(secrets@)),
            r@.len() == i,
            forall|j: int| 0 <= j < i ==> script_redacted(text_views(secrets@), scripts@[j], #[trigger] r@[j]),
        decreases scripts@.len() - i,
    {
        let s = &scripts[i];
        r.push(DeployScript { name: redact(secrets, &s.name), command: redact(secrets, &s.command) });
        i = i + 1;
    }
    r
}

fn redact_mappings(secrets: &Vec<String>, mappings: &Vec<WasmerPackageMapping>) -> (r: Vec<WasmerPackageMapping>)
    requires
        valid_secrets(text_views(secrets@)),
    ensures
        mappings_redacted(text_views(secrets@), mappings@, r@),
{
    let mut r: Vec<WasmerPackageMapping> = Vec::new();
    let mut i: usize = 0;
    while i < mappings.len()
        invariant
            0 <= i <= mappings@.len(),
            valid_secrets(text_views(secrets@)),
            r@.len() == i,
            forall|j: int| 0 <= j < i ==> mapping_redacted(text_views(secrets@), mappings@[j], #[trigger] r@[j]),
        decreases mappings@.len() - i,
    {
        let m = &mappings[i];
        r.push(WasmerPackageMapping { source: redact(secrets, &m.source), target: redact(secrets, &m.target) });
        i = i + 1;
    }
    r
}

/// Every string of a JSON value is redacted; keys and the shape stay.
pub open spec fn json_redacted(secrets: Seq<Seq<char>>, a: JsonValue, b: JsonValue) -> bool
    decreases a,
{
    match (a, b) {
        (JsonValue::String(x), JsonValue::String(y)) => text_redacted(secrets, x, y),
        (JsonValue::Array(xs), JsonValue::Array(ys)) => xs@.len() == ys@.len() && forall|i: int|
            0 <= i < xs@.len() ==> json_redacted(secrets, #[trigger] xs@[i], ys@[i]),
        (JsonValue::Object(xs), JsonValue::Object(ys)) => xs@.len() == ys@.len() && forall|i: int|
            0 <= i < xs@.len() ==> (#[trigger] xs@[i]).0 == ys@[i].0 && json_redacted(
                secrets,
                xs@[i].1,
                ys@[i].1,
            ),
        (JsonValue::Null, JsonValue::Null) => true,
        (JsonValue::Bool(x), JsonValue::Bool(y)) => x == y,
        (JsonValue::Number(x), JsonValue::Number(y)) => x == y,
        _ => false,
    }
}

/// A JSON value with the secrets in its strings redacted.
pub fn redact_json(secrets: &Vec<String>, value: &JsonValue) -> (r: JsonValue)
    requires
        valid_secrets(text_views(secrets@)),
    ensures
        json_redacted(text_views(secrets@), *value, r),
    decreases value,
{
    match value {
        JsonValue::String(s) => JsonValue::String(redact(secrets, s)),
        JsonValue::Array(values) => {
            let mut r: Vec<JsonValue> = Vec::new();
            let mut i: usize = 0;
            while i < values.len()
                invariant
                    0 <= i <= values@.len(),
                    valid_secrets(text_views(secrets@)),
                    r@.len() == i,
                    forall|j: int| 0 <= j < i ==> json_redacted(text_views(secrets@), #[trigger] values@[j], r@[j]),
                    *value == JsonValue::Array(*values),
                decreases values@.len() - i,
            {
                assert(decreases_to!(*value => value->Array_0));
                assert(decreases_to!(*values => values@));
                assert(decreases_to!(values@ => values@[i as int]));
                assert(decreases_to!(*value => values@[i as int]));
                r.push(redact_json(secrets, &values[i]));
                i = i + 1;
            }
            JsonValue::Array(r)
        },
        JsonValue::Object(members) => {
            let mut r: Vec<(String, JsonValue)> = Vec::new();
            let mut i: usize = 0;
            while i < members.len()
                invariant
                    0 <= i <= members@.len(),
                    valid_secrets(text_views(secrets@)),
                    r@.len() == i,
                    forall|j: int| 0 <= j < i ==> (#[trigger] members@[j]).0 == r@[j].0 && json_redacted(
                        text_views(secrets@),
                        members@[j].1,
                        r@[j].1,
                    ),
                    *value == JsonValue::Object(*members),
                decreases members@.len() - i,
            {
                assert(decreases_to!(*value => value->Object_0));
                assert(decreases_to!(*members => members@));
                assert(decreases_to!(members@ => members@[i as int]));
                assert(decreases_to!(members@[i as int] => members@[i as int].1));
                assert(decreases_to!(*value => members@[i as int].1));
                let v = redact_json(secrets, &members[i].1);
                r.push((members[i].0.clone(), v));
                i = i + 1;
            }
            JsonValue::Object(r)
        },
        JsonValue::Null => JsonValue::Null,
        JsonValue::Bool(b) => JsonValue::Bool(*b),
        JsonValue::Number(n) => JsonValue::Number(n.clone()),
    }
}

/// What redaction does to each kind of event: every user-visible text is
/// redacted; names, languages, kinds and paths are kept.
pub open spec fn event_redacted(secrets: Seq<Seq<char>>, a: Event, b: Event) -> bool {
    match (a, b) {
        (Event::Diagnostic { level: l1, message: m1 }, Event::Diagnostic { level: l2, message: m2 }) =>
            l1 == l2 && text_redacted(secrets, m1, m2),
        (
            Event::ProviderDetected { provider: p1, details: d1 },
            Event::ProviderDetected { provider: p2, details: d2 },
        ) => p1 == p2 && details_redacted(secrets, d1@, d2@),
        (
            Event::ProviderDeclared { provider: p1, details: d1 },
            Event::ProviderDeclared { provider: p2, details: d2 },
        ) => p1 == p2 && details_redacted(secrets, d1@, d2@),
        (
            Event::AnybuildGenerating { path: p1, provider: v1, config: c1 },
            Event::AnybuildGenerating { path: p2, provider: v2, config: c2 },
        ) => p1 == p2 && v1 == v2 && json_redacted(secrets, c1, c2),
        (
            Event::BuildPlan { packages: a1, steps: s1, prepare_steps: q1, deploy_scripts: d1 },
            Event::BuildPlan { packages: a2, steps: s2, prepare_steps: q2, deploy_scripts: d2 },
        ) => packages_redacted(secrets, a1@, a2@) && steps_redacted(secrets, s1@, s2@)
            && steps_redacted(secrets, q1@, q2@) && scripts_redacted(secrets, d1@, d2@),
        (Event::BuildStep { description: x }, Event::BuildStep { description: y }) => text_redacted(
            secrets,
            x,
            y,
        ),
        (Event::SectionStarted { title: x }, Event::SectionStarted { title: y }) => text_redacted(
            secrets,
            x,
            y,
        ),
        (Event::WasmerPackageMappings { mappings: x }, Event::WasmerPackageMappings { mappings: y }) =>
            mappings_redacted(secrets, x@, y@),
        (Event::Success { message: x }, Event::Success { message: y }) => text_redacted(secrets, x, y),
        (
            Event::WasmerFileContent { filename: f1, content: c1, language: l1 },
            Event::WasmerFileContent { filename: f2, content: c2, language: l2 },
        ) => f1 == f2 && l1 == l2 && text_redacted(secrets, c1, c2),
        (
            Event::CommandStarted { name: n1, command: c1 },
            Event::CommandStarted { name: n2, command: c2 },
        ) => n1 == n2 && opt_redacted(secrets, c1, c2),
        (Event::ProcessOutput { stream: s1, text: t1 }, Event::ProcessOutput { stream: s2, text: t2 }) =>
            s1 == s2 && text_redacted(secrets, t1, t2),
        (Event::Content { content: c1, language: l1 }, Event::Content { content: c2, language: l2 }) =>
            l1 == l2 && text_redacted(secrets, c1, c2),
        (Event::Deployment { description: x }, Event::Deployment { description: y }) => text_redacted(
            secrets,
            x,
            y,
        ),
        (Event::LegacyRenamed { .. }, _) => b == a,
        (Event::FileWritten { .. }, _) => b == a,
        (Event::BuildStarted, _) => b == a,
        (Event::ArtifactCreated { .. }, _) => b == a,
        _ => false,
    }
}

/// An event with every secret value replaced by `[REDACTED]`, as an
/// operation emits it.
pub fn redact_event(secrets: &Vec<String>, event: Event) -> (r: Event)
    requires
        valid_secrets(text_views(secrets@)),
    ensures
        event_redacted(text_views(secrets@), event, r),
{
    match event {
        Event::Diagnostic { level, message } => Event::Diagnostic {
            level,
            message: redact(secrets, &message),
        },
        Event::ProviderDetected { provider, details } => Event::ProviderDetected {
            provider,
            details: redact_details(secrets, &details),
        },
        Event::ProviderDeclared { provider, details } => Event::ProviderDeclared {
            provider,
            details: redact_details(secrets, &details),
        },
        Event::AnybuildGenerating { path, provider, config } => Event::AnybuildGenerating {
            path,
            provider,
            config: redact_json(secrets, &config),
        },
        Event::BuildPlan { packages, steps, prepare_steps, deploy_scripts } => Event::BuildPlan {
            packages: redact_packages(secrets, &packages),
            steps: redact_steps(secrets, &steps),
            prepare_steps: redact_steps(secrets, &prepare_steps),
            deploy_scripts: redact_scripts(secrets, &deploy_scripts),
        },
        Event::BuildStep { description } => Event::BuildStep { description: redact(secrets, &description) },
        Event::SectionStarted { title } => Event::SectionStarted { title: redact(secrets, &title) },
        Event::WasmerPackageMappings { mappings } => Event::WasmerPackageMappings {
            mappings: redact_mappings(secrets, &mappings),
        },
        Event::Success { message } => Event::Success { message: redact(secrets, &message) },
        Event::WasmerFileContent { filename, content, language } => Event::WasmerFileContent {
            filename,
            content: redact(secrets, &content),
            language,
        },
        Event::CommandStarted { name, command } => Event::CommandStarted {
            name,
            command: redact_opt(secrets, &command),
        },
        Event::ProcessOutput { stream, text } => Event::ProcessOutput {
            stream,
            text: redact(secrets, &text),
        },
        Event::Content { content, language } => Event::Content {
            content: redact(secrets, &content),
            language,
        },
        Event::Deployment { description } => Event::Deployment {
            description: redact(secrets, &description),
        },
        other => other,
    }
}

/// What a finished command's output gives when child output is reported
/// as events: its standard output, then its standard error, each as text
/// (invalid UTF-8 replaced) and each only when non-empty.
pub open spec fn output_event_texts(stdout: Seq<u8>, stderr: Seq<u8>) -> Seq<(ProcessStream, Seq<char>)> {
    (if stdout.len() > 0 {
        seq![(ProcessStream::Stdout, crate::install_context::utf8_lossy(stdout))]
    } else {
        seq![]
    }) + (if stderr.len() > 0 {
        seq![(ProcessStream::Stderr, crate::install_context::utf8_lossy(stderr))]
    } else {
        seq![]
    })
}

pub open spec fn output_event_view(e: Event) -> (ProcessStream, Seq<char>) {
    match e {
        Event::ProcessOutput { stream, text } => (stream, text@),
        _ => (ProcessStream::Stdout, seq![]),
    }
}

/// The events for a finished command's output (see `output_event_texts`).
pub fn process_output_events(stdout: &Vec<u8>, stderr: &Vec<u8>) -> (r: Vec<Event>)
    ensures
        r@.len() == output_event_texts(stdout@, stderr@).len(),
        forall|i: int|
            0 <= i < r@.len() ==> (#[trigger] r@[i]) is ProcessOutput && output_event_view(r@[i])
                == output_event_texts(stdout@, stderr@)[i],
{
    let mut r: Vec<Event> = Vec::new();
    if stdout.len() > 0 {
        let text = crate::install_context::from_utf8_lossy(stdout.as_slice());
        r.push(Event::ProcessOutput { stream: ProcessStream::Stdout, text });
    }
    if stderr.len() > 0 {
        let text = crate::install_context::from_utf8_lossy(stderr.as_slice());
        r.push(Event::ProcessOutput { stream: ProcessStream::Stderr, text });
    }
    r
}

} // verus!
