use anybuild::auto::RenderOptions;
use anybuild::event::{
    BuildPlanPackage, BuildPlanStep, DeployScript, DiagnosticLevel, Event, PackagePhase,
    ProviderDetail, WasmerPackageMapping,
};
use anybuild::render::{
    choose_syntax, file_name, highlight_lines, provider_display_name, render_build_plan, render_build_progress,
    render_event, render_panel, render_provider_status, render_section_header, render_success,
    render_wasmer_package_mappings,
};

fn strip_ansi(text: &str) -> String {
    let mut out = String::new();
    let mut chars = text.chars().peekable();
    while let Some(c) = chars.next() {
        if c == '\x1b' {
            for c in chars.by_ref() {
                if c == 'm' {
                    break;
                }
            }
        } else {
            out.push(c);
        }
    }
    out
}

const TOML: &str = "[package]\nname = \"demo\"\nversion = \"1.0\"";

#[test]
fn plain_panel_geometry_is_stable() {
    let plain = render_panel(TOML, None, false);
    assert!(plain.contains("│   1 [package]"));
    assert!(!plain.contains('\x1b'));
}

#[test]
fn colored_panel_strips_back_to_plain() {
    let plain = render_panel(TOML, Some("toml"), false);
    let colored = render_panel(TOML, Some("toml"), true);
    assert_eq!(strip_ansi(&colored), plain);
}

#[test]
fn long_lines_crop_identically_when_colored() {
    let long = format!("key = \"{}\"", "x".repeat(200));
    let plain = render_panel(&long, Some("toml"), false);
    let colored = render_panel(&long, Some("toml"), true);
    assert_eq!(strip_ansi(&colored), plain);
}

#[test]
fn unknown_language_falls_back_to_plain_text() {
    let colored = render_panel(TOML, Some("not-a-lang"), true);
    assert!(strip_ansi(&colored).contains("name = \"demo\""));
}

#[test]
fn build_plan_renders_all_steps_and_package_phases() {
    let packages = vec![
        BuildPlanPackage {
            name: "node".to_owned(),
            version: Some("24".to_owned()),
            architecture: None,
            phase: PackagePhase::Both,
        },
        BuildPlanPackage {
            name: "npm".to_owned(),
            version: None,
            architecture: None,
            phase: PackagePhase::Build,
        },
    ];
    let steps = vec![
        BuildPlanStep::Workdir {
            path: "opt/build".to_owned(),
        },
        BuildPlanStep::Environment {
            variables: vec!["CI".to_owned()],
        },
        BuildPlanStep::Run {
            command: "npm ci".to_owned(),
            group: Some("install".to_owned()),
        },
        BuildPlanStep::Run {
            command: "npm install extra".to_owned(),
            group: Some("install".to_owned()),
        },
        BuildPlanStep::Copy {
            source: ".".to_owned(),
            target: ".".to_owned(),
            base: "source".to_owned(),
        },
        BuildPlanStep::Run {
            command: "npm run build".to_owned(),
            group: Some("build".to_owned()),
        },
        BuildPlanStep::Run {
            command: "npm prune".to_owned(),
            group: None,
        },
    ];
    let deploy = vec![DeployScript {
        name: "start".to_owned(),
        command: "npm run start".to_owned(),
    }];
    let prepare = vec![BuildPlanStep::Run {
        command: "npm run migrate".to_owned(),
        group: None,
    }];

    let plain = render_build_plan(&packages, &steps, &prepare, &deploy, true, false);
    assert!(plain.contains("node  │  24\n"));
    assert!(plain.contains("npm   │  -   │  only build"));
    assert!(plain.contains("  ▸ workdir\n    opt/build"));
    assert!(plain.contains("  ▸ install\n    $ npm ci\n    $ npm install extra"));
    assert!(plain.contains("  ▸ copy\n    . → ."));
    assert!(plain.contains("    $ npm prune"));
    assert!(plain.contains("  Prepare\n  ──────────\n    $ npm run migrate"));
    assert!(plain.contains("  Deploy scripts\n"));
    assert!(plain.contains("  ▸ start\n    $ npm run start"));

    let concise = render_build_plan(&packages, &steps, &prepare, &deploy, false, false);
    assert!(!concise.contains("▸ workdir"));
    assert!(!concise.contains("▸ copy"));
    assert!(!concise.contains("▸ environment"));
    assert!(!concise.contains("npm prune"));
    assert!(concise.contains("▸ install"));
    assert!(concise.contains("▸ build"));

    let colored = render_build_plan(&packages, &steps, &prepare, &deploy, true, true);
    assert_eq!(strip_ansi(&colored), plain);
    assert!(colored.contains("\x1b[95mnode"));
    assert!(colored.contains("\x1b[96m24"));
    assert!(colored.contains("\x1b[38;5;245m$"));
    assert!(colored.contains("\x1b[1mnpm ci"));
}

#[test]
fn build_execution_uses_section_and_subdued_progress_styles() {
    assert_eq!(
        render_section_header("Starting Build...", false),
        "  Starting Build...\n  ─────────────────\n"
    );
    assert_eq!(
        render_build_progress("Copy to . from .", false),
        "\n  Copy to . from .\n"
    );
    assert!(render_build_progress("Copy to . from .", true)
        .contains("\x1b[38;5;245mCopy to . from ."));
}

#[test]
fn wasmer_package_mappings_are_aligned_like_packages() {
    let mappings = vec![
        WasmerPackageMapping {
            source: "node@24".to_owned(),
            target: "wasmer/edgejs-quickjs@=0.1.0".to_owned(),
        },
        WasmerPackageMapping {
            source: "bash".to_owned(),
            target: "wasmer/bash@=1.0.25".to_owned(),
        },
    ];

    assert_eq!(
        render_wasmer_package_mappings(&mappings, false),
        "  Mapping dependencies to Wasmer packages:\n\n  node@24  │  wasmer/edgejs-quickjs@=0.1.0\n  bash     │  wasmer/bash@=1.0.25\n"
    );
}

#[test]
fn success_result_uses_an_indented_railpack_style_box() {
    let plain = render_success("Build complete in 1.08s", false);
    assert!(plain.starts_with("\n  ╭"));
    assert!(plain.contains("\n  │ Build complete in 1.08s │\n"));
    assert!(plain.ends_with("╯\n"));

    let colored = render_success("Build complete in 1.08s", true);
    assert_eq!(strip_ansi(&colored), plain);
    assert!(colored.contains("\x1b[38;2;125;86;244m"));
}

#[test]
fn provider_status_bolds_only_the_provider_name() {
    assert_eq!(
        render_provider_status("Detected", "Node.js", "provider", false),
        "  Detected Node.js provider\n"
    );
    assert_eq!(
        render_provider_status("Detected", "Node.js", "provider", true),
        "  Detected \x1b[1mNode.js\x1b[0m provider\n"
    );
}

#[test]
fn section_header_rule_is_at_least_ten_wide() {
    assert_eq!(render_section_header("Go", false), "  Go\n  ──────────\n");
}

#[test]
fn plain_panel_layout_is_exact() {
    assert_eq!(
        render_panel("a\nbc", None, false),
        "┌────────┐\n│   1 a  │\n│   2 bc │\n└────────┘\n"
    );
}

#[test]
fn highlighting_keeps_the_text_of_each_line() {
    let lines = vec!["[package]".to_owned(), "name = \"demo\"".to_owned()];
    let highlighted = highlight_lines(&lines, "toml", 5).unwrap();
    assert_eq!(highlighted.len(), 2);
    assert_eq!(strip_ansi(&highlighted[0]), "[pack");
    assert_eq!(strip_ansi(&highlighted[1]), "name ");
    assert!(highlighted[0].contains('\x1b'));
    assert!(highlight_lines(&lines, "not-a-lang", 5).is_none());
}

#[test]
fn provider_names_are_displayed() {
    assert_eq!(provider_display_name("node"), "Node.js");
    assert_eq!(provider_display_name("node-static"), "static Node.js");
    assert_eq!(provider_display_name("python"), "Python");
    assert_eq!(provider_display_name("custom"), "custom");
}

#[test]
fn file_names_are_the_last_component() {
    assert_eq!(file_name("/a/b/Shipit"), "Shipit");
    assert_eq!(file_name("/a/b/.shipit/"), ".shipit");
    assert_eq!(file_name("Anybuild"), "Anybuild");
    assert_eq!(file_name("/"), "/");
}

#[test]
fn events_are_rendered_to_their_streams() {
    let options = RenderOptions {
        show_detailed_steps: false,
        show_wasmer_files: false,
    };
    let out = render_event(
        &Event::Diagnostic {
            level: DiagnosticLevel::Warning,
            message: "careful".to_owned(),
        },
        options,
        false,
    );
    assert_eq!(out.stderr, "Warning: careful\n");
    assert_eq!(out.stdout, "");
    let out = render_event(
        &Event::LegacyRenamed {
            from: "/p/.shipit".to_owned(),
            to: "/p/.anybuild".to_owned(),
        },
        options,
        false,
    );
    assert_eq!(out.stderr, "Renamed legacy .shipit directory to .anybuild.\n");
    let out = render_event(
        &Event::ProviderDetected {
            provider: "node".to_owned(),
            details: vec![ProviderDetail {
                label: "Framework".to_owned(),
                value: "Next.js".to_owned(),
            }],
        },
        options,
        false,
    );
    assert_eq!(
        out.stderr,
        "  Detected Node.js provider\n    Framework: Next.js\n"
    );
    let out = render_event(
        &Event::Deployment {
            description: "deployed".to_owned(),
        },
        options,
        false,
    );
    assert_eq!(out.stdout, "deployed\n");
    assert_eq!(out.stderr, "");
    let out = render_event(
        &Event::FileWritten {
            kind: "anybuild".to_owned(),
            path: "/p/Anybuild".to_owned(),
        },
        options,
        false,
    );
    assert_eq!(out.stderr, "\n  Generated Anybuild at /p/Anybuild\n");
    let out = render_event(
        &Event::WasmerFileContent {
            filename: "wasmer.toml".to_owned(),
            content: "x".to_owned(),
            language: "toml".to_owned(),
        },
        options,
        false,
    );
    assert_eq!(out.stderr, "");
    let out = render_event(
        &Event::CommandStarted {
            name: "start".to_owned(),
            command: None,
        },
        options,
        false,
    );
    assert_eq!(out.stderr, "\n  Run start command\n  ─────────────────\n");
}

#[test]
fn syntax_choice_prefers_the_token_then_a_name_ignoring_case() {
    let names: Vec<String> = vec!["Plain Text".to_owned(), "TOML".to_owned(), "toml".to_owned()];
    assert_eq!(choose_syntax(true, &names, "toml"), Some(None));
    assert_eq!(choose_syntax(false, &names, "Toml"), Some(Some(1)));
    assert_eq!(choose_syntax(false, &names, "yaml"), None);
}

#[test]
fn highlighting_finds_a_language_by_name() {
    let lines = vec!["[package]".to_owned()];
    assert!(highlight_lines(&lines, "toml", 40).is_some());
    assert!(highlight_lines(&lines, "no-such-language", 40).is_none());
}

#[test]
fn file_names_skip_trailing_separators_and_dot_components() {
    assert_eq!(file_name("a/b/."), "b");
    assert_eq!(file_name("a/b/./"), "b");
    assert_eq!(file_name("/x/Anybuild/"), "Anybuild");
    assert_eq!(file_name("."), ".");
    assert_eq!(file_name("a/.."), "a/..");
}
