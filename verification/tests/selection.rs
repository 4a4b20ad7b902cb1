use anybuild::base::BaseConfig;
use anybuild::node::NodeEvidence;
use anybuild::php::PhpEvidence;
use anybuild::python::PythonEvidence;
use anybuild::node_static::NodeStaticEvidence;
use anybuild::selection::{
    finish_name, select_candidate, Candidate, DetectionEvidence, ProviderKind, SiteEvidence,
    StaticFileEvidence,
};

fn candidate(evidence: DetectionEvidence) -> Candidate {
    Candidate { kind: evidence.kind(), evidence: Some(evidence) }
}

#[test]
fn the_highest_score_wins() {
    // A Hugo site with a stray index.php: Hugo's strong evidence beats the
    // PHP entry point.
    let candidates = vec![
        candidate(DetectionEvidence::Hugo(SiteEvidence::Strong)),
        candidate(DetectionEvidence::Php(PhpEvidence::Entrypoint)),
    ];
    assert_eq!(select_candidate(&candidates), Ok(0));
    let reversed = vec![candidates[1], candidates[0]];
    assert_eq!(select_candidate(&reversed), Ok(1));
}

#[test]
fn node_static_beats_a_plain_package() {
    let candidates = vec![
        candidate(DetectionEvidence::NodeStatic(NodeStaticEvidence::Strong)),
        candidate(DetectionEvidence::Node(NodeEvidence::Package)),
        candidate(DetectionEvidence::StaticFile(StaticFileEvidence::Fallback)),
    ];
    let winner = select_candidate(&candidates).unwrap();
    assert_eq!(candidates[winner].kind, ProviderKind::NodeStatic);
}

#[test]
fn equal_scores_go_to_the_earlier_provider() {
    // Python's command evidence and Go both score 80; Python comes first
    // in the registry.
    let candidates = vec![
        candidate(DetectionEvidence::Go),
        candidate(DetectionEvidence::Python(PythonEvidence::Command)),
    ];
    let winner = select_candidate(&candidates).unwrap();
    assert_eq!(candidates[winner].kind, ProviderKind::Python);
    assert_eq!(DetectionEvidence::Go.score(), 80);
    assert_eq!(DetectionEvidence::Python(PythonEvidence::Command).score(), 80);
}

#[test]
fn unconfirmed_and_missing_candidates_are_errors() {
    let candidates = vec![
        candidate(DetectionEvidence::Mkdocs),
        Candidate { kind: ProviderKind::Jekyll, evidence: None },
    ];
    assert_eq!(
        select_candidate(&candidates),
        Err("jekyll returned a config without matching its detection evidence".to_owned())
    );
    assert_eq!(
        select_candidate(&Vec::new()),
        Err("Anybuild could not detect a provider for this project".to_owned())
    );
}

#[test]
fn provider_names_ignore_ascii_case() {
    assert_eq!(ProviderKind::from_name("staticfile"), Some(ProviderKind::StaticFile));
    assert_eq!(ProviderKind::from_name("Node-Static"), Some(ProviderKind::NodeStatic));
    assert_eq!(ProviderKind::from_name("PHP"), Some(ProviderKind::Php));
    assert_eq!(ProviderKind::from_name("ruby"), None);
    assert_eq!(ProviderKind::NodeStatic.name(), "node-static");
}

#[test]
fn scores_follow_the_evidence() {
    assert_eq!(DetectionEvidence::Laravel.score(), 95);
    assert_eq!(DetectionEvidence::Jekyll(SiteEvidence::Layout).score(), 40);
    assert_eq!(DetectionEvidence::Php(PhpEvidence::DrupalWeb).score(), 70);
    assert_eq!(DetectionEvidence::Node(NodeEvidence::FrameworkWithStart).score(), 45);
    assert_eq!(DetectionEvidence::StaticFile(StaticFileEvidence::StartCommand).score(), 70);
}

#[test]
fn blank_names_default_to_the_directory() {
    let mut base = BaseConfig::default();
    finish_name(&mut base, "my-app");
    assert_eq!(base.name.as_deref(), Some("my-app"));
    let mut empty = BaseConfig { name: Some(String::new()), ..BaseConfig::default() };
    finish_name(&mut empty, "dir");
    assert_eq!(empty.name.as_deref(), Some("dir"));
    let mut named = BaseConfig { name: Some("api".to_owned()), ..BaseConfig::default() };
    finish_name(&mut named, "dir");
    assert_eq!(named.name.as_deref(), Some("api"));
}

#[test]
fn a_named_provider_is_chosen_without_detection() {
    assert_eq!(anybuild::selection::chosen_provider(Some("PHP")), Some(ProviderKind::Php));
    assert_eq!(anybuild::selection::chosen_provider(Some("nope")), None);
    assert_eq!(anybuild::selection::chosen_provider(None), None);
}
