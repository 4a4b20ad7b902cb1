use anybuild::json::JsonValue;
use anybuild::node::{
    check_package_json_deps, detect_framework, detection_evidence, detect_package_manager, get_build_command,
    infer_start_command, script_commands, split_command, NodeError, NodeEvidence, NodeFramework, PackageManager,
};
use anybuild::node_static::{static_script_commands, NodeStaticEvidence};
use anybuild::selection::DetectionEvidence;

fn s(text: &str) -> JsonValue {
    JsonValue::String(text.to_owned())
}

fn obj(members: &[(&str, JsonValue)]) -> JsonValue {
    JsonValue::Object(members.iter().map(|(k, v)| (k.to_string(), v.clone())).collect())
}

fn scripts(pairs: &[(&str, &str)]) -> JsonValue {
    obj(&pairs.iter().map(|(k, v)| (*k, s(v))).collect::<Vec<_>>())
}

fn found(package_json: &JsonValue) -> Vec<String> {
    let names = anybuild::node::framework_dependency_names();
    check_package_json_deps(Some(package_json), &names)
}

#[test]
fn test_new_static_builder_commands_are_detected() {
    let cases: &[(&str, &[NodeFramework])] = &[
        ("npx @11ty/eleventy", &[NodeFramework::Eleventy]),
        ("vitepress build docs", &[NodeFramework::Vitepress]),
        ("vuepress build docs", &[NodeFramework::Vuepress]),
        ("hexo g", &[NodeFramework::Hexo]),
        ("metalsmith", &[NodeFramework::Metalsmith]),
        ("grunt assemble", &[NodeFramework::Assemble]),
        ("harp compile src www", &[NodeFramework::Harp]),
        ("ng build", &[NodeFramework::IonicAngular, NodeFramework::Angular]),
        ("brunch build --production", &[NodeFramework::Brunch]),
        ("react-scripts build", &[NodeFramework::IonicReact, NodeFramework::CreateReactApp]),
        ("ember build --environment=production", &[NodeFramework::Ember]),
        ("parcel build src/index.html", &[NodeFramework::Parcel]),
        ("polymer build", &[NodeFramework::Polymer]),
        ("preact build", &[NodeFramework::Preact]),
        ("stencil build", &[NodeFramework::Stencil]),
        ("svelte-kit build", &[NodeFramework::Sveltekit]),
        ("umi build", &[NodeFramework::Umijs]),
        ("vue-cli-service build", &[NodeFramework::Vue]),
        ("nuxt generate", &[NodeFramework::NuxtOld]),
        ("sanity build", &[NodeFramework::Sanity]),
        ("storybook build", &[NodeFramework::Storybook]),
    ];
    for (command, frameworks) in cases {
        assert_eq!(NodeFramework::detect_from_command(command), *frameworks, "{command}");
    }
}

#[test]
fn test_node_framework_static_capability_is_explicit() {
    assert!(NodeFramework::Next.can_be_static());
    assert!(NodeFramework::Eleventy.can_be_static());
    assert!(!NodeFramework::Express.can_be_static());
}

#[test]
fn test_node_package_manager_lockfile_selection() {
    // Lockfile presence in the order npm, pnpm, yarn, bun (bun.lock and
    // bun.lockb both count for bun).
    for (present, manager) in [
        ([true, false, false, false], PackageManager::Npm),
        ([false, true, false, false], PackageManager::Pnpm),
        ([false, false, true, false], PackageManager::Yarn),
        ([false, false, false, true], PackageManager::Bun),
    ] {
        assert_eq!(detect_package_manager(None, false, present), manager);
    }
}

#[test]
fn test_node_package_manager_defaults_to_npm() {
    assert_eq!(detect_package_manager(None, false, [false; 4]), PackageManager::Npm);
}

#[test]
fn test_node_package_manager_uses_package_manager_field() {
    assert_eq!(
        detect_package_manager(Some("pnpm@10.0.0"), false, [true, false, false, false]),
        PackageManager::Pnpm
    );
}

#[test]
fn test_node_package_manager_uses_pnpm_workspace() {
    assert_eq!(detect_package_manager(None, true, [true, false, false, false]), PackageManager::Pnpm);
}

#[test]
fn test_node_check_deps_returns_matching_dependencies() {
    let package_json = obj(&[
        ("dependencies", obj(&[("express", s("5.1.0"))])),
        ("devDependencies", obj(&[("hono", s("^4.12.23"))])),
    ]);
    let mut found_deps = check_package_json_deps(Some(&package_json), &vec!["express", "elysia", "hono"]);
    found_deps.sort();
    assert_eq!(found_deps, ["express", "hono"]);
}

#[test]
fn test_node_command_splitting_honors_shell_quotes() {
    assert_eq!(
        split_command("vite build --out-dir 'dist site'"),
        ["vite", "build", "--out-dir", "dist site"]
    );
}

#[test]
fn test_common_entry_without_package_json_needs_node_evidence() {
    let none: Option<String> = None;
    assert_eq!(detection_evidence(&none, &none, None, false, false, true), Some(NodeEvidence::Entrypoint));
    assert_eq!(detection_evidence(&none, &none, None, false, false, false), None);
    let inferred = infer_start_command(None, false, Some("app.js"), false);
    assert_eq!(inferred.command, Ok(Some("node app.js".to_owned())));
}

#[test]
fn test_node_provider_detects_hydrogen_config_file() {
    let package_json = obj(&[]);
    let none: Option<String> = None;
    assert_eq!(
        detection_evidence(&none, &none, Some(&package_json), true, true, false),
        Some(NodeEvidence::Framework)
    );
    assert_eq!(
        detect_framework(Some(&package_json), &found(&package_json), true),
        Some(NodeFramework::Hydrogen)
    );
}

fn next_app() -> JsonValue {
    obj(&[
        ("scripts", scripts(&[("build", "next build"), ("start", "next start")])),
        (
            "dependencies",
            obj(&[("next", s("^14.2.14")), ("react", s("^18.3.1")), ("react-dom", s("^18.3.1"))]),
        ),
    ])
}

#[test]
fn test_node_provider_detects_nextjs_runtime_app() {
    let package_json = next_app();
    let framework = detect_framework(Some(&package_json), &found(&package_json), false);
    assert_eq!(framework, Some(NodeFramework::Next));
    assert_eq!(
        get_build_command(Some(&package_json), PackageManager::Npm, framework, None),
        Ok(Some("npx -y next-bundle@1.0.0 --build-command 'npm run build'".to_owned()))
    );
    assert_eq!(NodeFramework::Next.start_command(), Some("node server.mjs"));
}

#[test]
fn test_nextjs_build_command_uses_package_manager() {
    let package_json = obj(&[
        ("scripts", scripts(&[("build", "next build")])),
        ("dependencies", obj(&[("next", s("^14.2.14"))])),
    ]);
    for (manager, build_command) in [
        (PackageManager::Npm, "npx -y next-bundle@1.0.0 --build-command 'npm run build'"),
        (PackageManager::Pnpm, "pnpm dlx next-bundle@1.0.0 --build-command 'pnpm run build'"),
        (PackageManager::Yarn, "yarn dlx next-bundle@1.0.0 --build-command 'yarn run build'"),
        (PackageManager::Bun, "bunx next-bundle@1.0.0 --build-command 'bun run build'"),
    ] {
        assert_eq!(
            get_build_command(Some(&package_json), manager, Some(NodeFramework::Next), None),
            Ok(Some(build_command.to_owned()))
        );
    }
}

#[test]
fn test_nextjs_build_command_wraps_explicit_build_command() {
    let package_json = obj(&[("dependencies", obj(&[("next", s("^14.2.14"))]))]);
    assert_eq!(
        get_build_command(
            Some(&package_json),
            PackageManager::Npm,
            Some(NodeFramework::Next),
            Some("next build --debug")
        ),
        Ok(Some("npx -y next-bundle@1.0.0 --build-command 'next build --debug'".to_owned()))
    );
}

#[test]
fn test_nextjs_build_command_rejects_nul_byte() {
    let package_json = obj(&[("dependencies", obj(&[("next", s("^14.2.14"))]))]);
    assert_eq!(
        get_build_command(
            Some(&package_json),
            PackageManager::Npm,
            Some(NodeFramework::Next),
            Some("next build\0--debug")
        ),
        Err(NodeError::UnquotableBuildCommand)
    );
}

#[test]
fn test_node_script_commands_uses_build_by_default() {
    let package_json = obj(&[(
        "scripts",
        scripts(&[("generate", "node generate.js"), ("build", "node build.js")]),
    )]);
    assert_eq!(script_commands(Some(&package_json), &vec!["build"]), vec!["node build.js"]);
}

#[test]
fn test_node_start_command_uses_package_script() {
    let package_json = obj(&[("scripts", scripts(&[("start", "node server.js")]))]);
    let inferred = infer_start_command(Some(&package_json), true, None, true);
    assert_eq!(inferred.command, Ok(Some("node server.js".to_owned())));
    assert!(inferred.warnings.is_empty());
}

#[test]
fn test_nitro_infers_node_server_start_command() {
    let package_json = obj(&[
        ("scripts", scripts(&[("build", "vite build")])),
        ("dependencies", obj(&[("nitro", s("3.0.0"))])),
    ]);
    let framework = detect_framework(Some(&package_json), &found(&package_json), false);
    assert_eq!(framework, Some(NodeFramework::Nitro));
    assert_eq!(NodeFramework::Nitro.start_command(), Some("node .output/server/index.mjs"));
}

#[test]
fn test_node_start_command_uses_package_main() {
    let package_json = obj(&[("main", s("src/server.js"))]);
    let inferred = infer_start_command(Some(&package_json), true, None, true);
    assert_eq!(inferred.command, Ok(Some("node src/server.js".to_owned())));
}

#[test]
fn test_node_start_command_ignores_empty_script_and_uses_package_main() {
    let package_json = obj(&[("scripts", scripts(&[("start", "  ")])), ("main", s("src/server.js"))]);
    let inferred = infer_start_command(Some(&package_json), true, None, true);
    assert_eq!(inferred.command, Ok(Some("node src/server.js".to_owned())));
}

#[test]
fn test_node_start_command_uses_common_entry_file() {
    let inferred = infer_start_command(None, false, Some("server.js"), true);
    assert_eq!(inferred.command, Ok(Some("node server.js".to_owned())));
    assert!(inferred.warnings.is_empty());
}

#[test]
fn start_inference_warns_when_nothing_is_found() {
    let package_json = obj(&[]);
    let inferred = infer_start_command(Some(&package_json), true, None, true);
    assert_eq!(inferred.command, Ok(None));
    assert_eq!(
        inferred.warnings,
        [
            "no start or main script found in package.json",
            "no entry file found for Node project (tried: server.js, app.js, index.js, src/server.js, src/index.js)",
        ]
    );
}

#[test]
fn test_node_static_script_commands_prefers_build_over_fallbacks() {
    let package_json = obj(&[(
        "scripts",
        scripts(&[
            ("build", "vite build"),
            ("generate", "vite generate"),
            ("docs:build", "vitepress build docs"),
        ]),
    )]);
    assert_eq!(static_script_commands(Some(&package_json), &vec!["build"]), vec!["vite build"]);
}

#[test]
fn test_node_static_defaults_to_npm_without_lockfile() {
    let package_json = obj(&[
        ("scripts", scripts(&[("build", "vitepress build docs")])),
        ("dependencies", obj(&[("vitepress", s("^1.6.4"))])),
    ]);
    let manager = detect_package_manager(None, false, [false; 4]);
    assert_eq!(manager, PackageManager::Npm);
    assert_eq!(
        get_build_command(Some(&package_json), manager, Some(NodeFramework::Vitepress), None),
        Ok(Some("npm run build".to_owned()))
    );
}

#[test]
fn test_node_static_uses_pnpm_when_lockfile_is_present() {
    let package_json = obj(&[
        ("scripts", scripts(&[("build", "vitepress build docs")])),
        ("dependencies", obj(&[("vitepress", s("^1.6.4"))])),
    ]);
    let manager = detect_package_manager(None, false, [false, true, false, false]);
    assert_eq!(manager, PackageManager::Pnpm);
    assert_eq!(
        get_build_command(Some(&package_json), manager, Some(NodeFramework::Vitepress), None),
        Ok(Some("pnpm run build".to_owned()))
    );
}

fn static_evidence(
    package_json: &JsonValue,
    build: Option<&str>,
    hydrogen: bool,
    next_configs: &[&str],
) -> Option<NodeStaticEvidence> {
    let build = build.map(|b| b.to_owned());
    let texts: Vec<String> = next_configs.iter().map(|t| t.to_string()).collect();
    anybuild::node_static::detection_evidence(Some(package_json), &build, hydrogen, false, &texts)
}

fn next_export_app() -> JsonValue {
    obj(&[
        ("scripts", scripts(&[("build", "next export")])),
        ("dependencies", obj(&[("next", s("^14.2.14"))])),
    ])
}

#[test]
fn test_next_build_without_start_command_uses_node_static() {
    let package_json = obj(&[
        ("scripts", scripts(&[("build", "next build")])),
        ("dependencies", obj(&[("next", s("^14.2.14"))])),
    ]);
    let evidence = static_evidence(&package_json, Some("next build"), false, &[]);
    assert_eq!(evidence, Some(NodeStaticEvidence::Weak));
    let score = DetectionEvidence::NodeStatic(evidence.unwrap()).score();
    assert_eq!(score, 20);
    let start: Option<String> = None;
    let install: Option<String> = None;
    let node = detection_evidence(&start, &install, Some(&package_json), false, true, false).unwrap();
    assert!(DetectionEvidence::Node(node).score() < score);
}

#[test]
fn test_explicit_next_export_command_stays_node_static() {
    let evidence = static_evidence(&next_export_app(), Some("next export"), false, &[]);
    assert_eq!(evidence, Some(NodeStaticEvidence::Strong));
    assert_eq!(DetectionEvidence::NodeStatic(evidence.unwrap()).score(), 60);
}

#[test]
fn test_next_output_export_config_uses_node_static() {
    let config = "const nextConfig = {\n  output: \"export\",\n};\n\nexport default nextConfig;\n";
    assert!(anybuild::node_static::next_config_exports_static(&vec![config.to_owned()]));
    assert!(!anybuild::node_static::next_config_exports_static(&vec!["module.exports = {}".to_owned()]));
    let package_json = obj(&[("dependencies", obj(&[("next", s("^14.2.14"))]))]);
    assert_eq!(static_evidence(&package_json, None, false, &[config]), Some(NodeStaticEvidence::Strong));
    assert_eq!(static_evidence(&package_json, None, false, &[]), Some(NodeStaticEvidence::Weak));
}

#[test]
fn test_elysia_dependency_uses_node_provider() {
    let package_json = obj(&[
        ("scripts", scripts(&[("build", "vite build"), ("start", "node server.js")])),
        (
            "dependencies",
            obj(&[("@elysia/node", s("^1.4.6")), ("elysia", s("^1.4.28")), ("vite", s("^7.2.4"))]),
        ),
    ]);
    assert_eq!(static_evidence(&package_json, None, false, &[]), None);
}

#[test]
fn test_nuxt_generate_fallback_uses_node_static() {
    let package_json = obj(&[
        ("scripts", scripts(&[("build", "nuxt build"), ("generate", "nuxt generate")])),
        ("dependencies", obj(&[("nuxt", s("^3.8.1"))])),
    ]);
    assert_eq!(static_evidence(&package_json, None, false, &[]), Some(NodeStaticEvidence::Strong));
}

#[test]
fn test_runtime_vite_like_frameworks_are_not_node_static() {
    for dependencies in [
        obj(&[("@react-router/dev", s("^7.1.5")), ("vite", s("^5.0.0"))]),
        obj(&[("@remix-run/node", s("^2.10.0")), ("@remix-run/dev", s("^2.10.0"))]),
        obj(&[("@tanstack/react-start", s("^1.0.0")), ("vite", s("^5.0.0"))]),
        obj(&[("@solidjs/start", s("^1.0.0")), ("vite", s("^5.0.0"))]),
        obj(&[("@sveltejs/adapter-node", s("^5.0.0")), ("@sveltejs/kit", s("^2.16.1"))]),
        obj(&[("nitropack", s("^2.11.0")), ("vite", s("^5.0.0"))]),
        obj(&[("@shopify/hydrogen", s("^2026.4.2")), ("vite", s("^7.0.0"))]),
    ] {
        let package_json = obj(&[
            ("scripts", scripts(&[("build", "vite build"), ("start", "node server.js")])),
            ("dependencies", dependencies),
        ]);
        assert_eq!(static_evidence(&package_json, None, false, &[]), None);
    }
}

#[test]
fn test_hydrogen_config_is_not_node_static() {
    let package_json = obj(&[
        ("scripts", scripts(&[("build", "vite build"), ("start", "node server.js")])),
        ("dependencies", obj(&[("vite", s("^7.0.0"))])),
    ]);
    assert_eq!(static_evidence(&package_json, None, true, &[]), None);
    assert_eq!(static_evidence(&package_json, None, false, &[]), Some(NodeStaticEvidence::Strong));
}

#[test]
fn static_remix_output_keeps_node_static() {
    let package_json = obj(&[
        ("scripts", scripts(&[("build", "remix build"), ("start", "serve -l 3000 public")])),
        ("dependencies", obj(&[("@remix-run/node", s("^2.2.0"))])),
        ("devDependencies", obj(&[("@remix-run/dev", s("^2.2.0"))])),
    ]);
    let build: Option<String> = None;
    assert_eq!(
        anybuild::node_static::detection_evidence(Some(&package_json), &build, false, true, &Vec::new()),
        Some(NodeStaticEvidence::Strong)
    );
    assert_eq!(
        anybuild::node_static::detection_evidence(Some(&package_json), &build, false, false, &Vec::new()),
        None
    );
}

#[test]
fn entry_files_need_node_evidence() {
    use_entry_checks();
}

fn use_entry_checks() {
    let looks = anybuild::node::looks_like_node_entry;
    assert!(looks("import http from \"node:http\";\n\nhttp.createServer((_req, res) => {\n  res.end(\"ok\");\n}).listen(process.env.PORT || 8080);\n"));
    assert!(looks("const http = require(\"http\");\n"));
    assert!(looks("#!/usr/bin/env node\r\nconsole.log(1)\n"));
    assert!(looks("module.exports = {};\n"));
    assert!(looks("const fs = await import('fs/promises');\n"));
    assert!(!looks("console.log('ok')\n"));
    assert!(!looks("#!/usr/bin/env python\nprint(1)\n"));
    assert!(!looks(""));
}

#[test]
fn static_output_directories_come_from_project_configs() {
    use_static_dirs();
}

fn use_static_dirs() {
    let ns = |f: NodeFramework, pj: Option<&JsonValue>, angular: Option<&JsonValue>, metalsmith: &Vec<JsonValue>, grunt: &Vec<String>| {
        anybuild::node_static::get_static_dir(f, pj, angular, metalsmith, grunt, false, false)
    };
    let none_v: Vec<JsonValue> = Vec::new();
    let none_t: Vec<String> = Vec::new();
    let angular = obj(&[
        ("defaultProject", s("web")),
        (
            "projects",
            obj(&[
                ("admin", obj(&[("architect", obj(&[("build", obj(&[("options", obj(&[("outputPath", s("dist/admin"))]))]))]))])),
                (
                    "web",
                    obj(&[("architect", obj(&[("build", obj(&[("options", obj(&[("outputPath", obj(&[("base", s("./dist/web/"))]))]))]))]))]),
                ),
            ]),
        ),
    ]);
    assert_eq!(ns(NodeFramework::Angular, None, Some(&angular), &none_v, &none_t), Ok("dist/web".to_owned()));
    let metalsmith = vec![obj(&[("destination", s("")), ("dest", s("./build/"))])];
    assert_eq!(ns(NodeFramework::Metalsmith, None, None, &metalsmith, &none_t), Ok("build".to_owned()));
    let grunt = vec!["assemble: { site: { dest: './site' } }".to_owned()];
    assert_eq!(ns(NodeFramework::Assemble, None, None, &none_v, &grunt), Ok("site".to_owned()));
    let harp = obj(&[("scripts", scripts(&[("build", "harp compile src www")]))]);
    assert_eq!(ns(NodeFramework::Harp, Some(&harp), None, &none_v, &none_t), Ok("www".to_owned()));
    let harp_o = obj(&[("scripts", scripts(&[("build", "harp compile -o out src")]))]);
    assert_eq!(ns(NodeFramework::Harp, Some(&harp_o), None, &none_v, &none_t), Ok("out".to_owned()));
    let vitepress = obj(&[("scripts", scripts(&[("build", "vitepress build docs")]))]);
    assert_eq!(ns(NodeFramework::Vitepress, Some(&vitepress), None, &none_v, &none_t), Ok("docs/.vitepress/dist".to_owned()));
    assert_eq!(
        anybuild::node_static::get_static_dir(NodeFramework::Vuepress, None, None, &none_v, &none_t, false, true),
        Ok("docs/.vuepress/dist".to_owned())
    );
    assert_eq!(ns(NodeFramework::Express, None, None, &none_v, &none_t), Err(NodeFramework::Express));
    assert_eq!(ns(NodeFramework::NuxtV3, None, None, &none_v, &none_t), Ok(".output/public".to_owned()));
}

#[test]
fn staticfiles_set_the_site_directory() {
    let root = anybuild::node_static::staticfile_config_root;
    assert_eq!(root("# comment\nroot: site\n"), Some(Some("site".to_owned())));
    assert_eq!(root("gzip: true\nroot: ''\n"), Some(None));
    assert_eq!(root("\n# only comments\n"), None);
    let dir = anybuild::node_static::static_dir_from;
    assert_eq!(dir(Some("env".to_owned()), Some("root: dist"), true), Some("dist".to_owned()));
    assert_eq!(dir(Some("env".to_owned()), None, true), Some("public".to_owned()));
    assert_eq!(dir(Some("env".to_owned()), Some("# nothing"), false), Some("env".to_owned()));
}

fn node_winner(package_json: &JsonValue) -> anybuild::selection::ProviderKind {
    use_selection(package_json)
}

fn use_selection(package_json: &JsonValue) -> anybuild::selection::ProviderKind {
    let none: Option<String> = None;
    let mut candidates = Vec::new();
    if let Some(e) = anybuild::node_static::detection_evidence(Some(package_json), &none, false, false, &Vec::new()) {
        candidates.push(anybuild::selection::Candidate {
            kind: anybuild::selection::ProviderKind::NodeStatic,
            evidence: Some(DetectionEvidence::NodeStatic(e)),
        });
    }
    if let Some(e) = detection_evidence(&none, &none, Some(package_json), false, true, false) {
        candidates.push(anybuild::selection::Candidate {
            kind: anybuild::selection::ProviderKind::Node,
            evidence: Some(DetectionEvidence::Node(e)),
        });
    }
    let winner = anybuild::selection::select_candidate(&candidates).unwrap();
    candidates[winner].kind
}

#[test]
fn test_node_provider_detects_generic_node_example() {
    // The generic Node example: a package with a start script and a server.
    let package_json = obj(&[
        ("name", s("node")),
        ("scripts", scripts(&[("start", "node server.js")])),
        ("dependencies", obj(&[("express", s("^4.19.2"))])),
    ]);
    assert_eq!(node_winner(&package_json), anybuild::selection::ProviderKind::Node);
    assert_eq!(anybuild::selection::ProviderKind::Node.name(), "node");
}

#[test]
fn test_node_provider_detects_astro_runtime_example() {
    // The Astro example renders on the server through the Node adapter.
    let package_json = obj(&[
        ("name", s("node-astro")),
        ("scripts", scripts(&[("dev", "astro dev"), ("build", "astro build"), ("start", "node ./dist/server/entry.mjs")])),
        ("dependencies", obj(&[("astro", s("^4.15.0")), ("@astrojs/node", s("^8.3.3"))])),
    ]);
    assert_eq!(node_winner(&package_json), anybuild::selection::ProviderKind::Node);
}
