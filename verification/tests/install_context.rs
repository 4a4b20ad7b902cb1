use anybuild::workspace_glob::{glob_literal, glob_pattern, glob_up, pattern_segments, segment_admits, segment_kind, SegmentKind};
use anybuild::text::sorted_texts_exec;
use anybuild::documents::{parse_json_document, parse_json_object, parse_toml_document};
use anybuild::event::{process_output_events, Event, ProcessStream};
use anybuild::install_context::{
    clean_relative, file_url_parts, has_url_scheme, is_path_like, js_local_ref,
    looks_like_file_dependency, package_json_workspace_patterns, pnpm_workspace_patterns,
    python_local_ref, relative_to_root, requirement_include_refs, requirement_local_ref,
    resolve_local_ref, resolve_requirement_file_ref, split_requirement_line, text_lines_exec,
    unquote, yaml_scalar, InstallContext, PathFacts, python_dependency_strings, uv_source_paths,
    uv_workspace_members,
};
use anybuild::copy_tree::{check_ignore_patterns, copy_dir_actions, copy_tree_plan, is_ignored, CopyAction, TreeEntry};
use anybuild::json::JsonValue;
use anybuild::pyproject::{discover_python_pyproject, pyproject_local_refs};
use anybuild::requirements::{begin_requirements_file, requirement_refs, RequirementRef};
use anybuild::js_install::{begin_js_package, including_patterns, js_package_refs, workspace_package};

fn strings(items: &[&str]) -> Vec<String> {
    items.iter().map(|s| (*s).to_owned()).collect()
}

#[test]
fn test_requirement_line_strips_pip_comments() {
    assert_eq!(
        split_requirement_line("-r deps/base.txt # install dependencies"),
        ["-r", "deps/base.txt"]
    );
    assert!(split_requirement_line("  # comment").is_empty());
}

#[test]
fn test_requirement_line_preserves_url_fragments() {
    assert_eq!(
        split_requirement_line("package @ https://example.com/repo.git#subdirectory=package"),
        [
            "package",
            "@",
            "https://example.com/repo.git#subdirectory=package"
        ]
    );
}

#[test]
fn include_references_cover_flags_and_inline_forms() {
    assert_eq!(
        requirement_include_refs(&strings(&["-r", "base.txt", "-cconstraints.txt"])),
        ["base.txt", "constraints.txt"]
    );
    assert_eq!(
        requirement_include_refs(&strings(&["--requirement=a.txt", "--constraint", "b.txt"])),
        ["a.txt", "b.txt"]
    );
    assert_eq!(requirement_include_refs(&strings(&["-r"])), Vec::<String>::new());
}

#[test]
fn local_references_resolve_against_the_base_directory() {
    assert_eq!(
        resolve_local_ref("/app", "../shared", false).as_deref(),
        Some("/app/../shared")
    );
    assert_eq!(resolve_local_ref("/app", "shared", false), None);
    assert_eq!(
        resolve_local_ref("/app", "shared", true).as_deref(),
        Some("/app/shared")
    );
    assert_eq!(
        resolve_local_ref("/app", "file:///opt/pkg%20one", false).as_deref(),
        Some("/opt/pkg one")
    );
    assert_eq!(
        resolve_local_ref("/app", "file://host/share/pkg", false).as_deref(),
        Some("//host/share/pkg")
    );
    assert_eq!(
        resolve_local_ref("/app", "link:../ui", false).as_deref(),
        Some("/app/../ui")
    );
    assert_eq!(
        resolve_local_ref("/app", "git+file:///srv/repo", false).as_deref(),
        Some("/srv/repo")
    );
    assert_eq!(resolve_local_ref("/app", "https://example.com/x.whl", true), None);
    assert_eq!(resolve_local_ref("/app", "   ", true), None);
}

#[test]
fn requirement_lines_name_their_local_paths() {
    assert_eq!(
        requirement_local_ref(&strings(&["-e", "../shared"]), "/app").as_deref(),
        Some("/app/../shared")
    );
    assert_eq!(
        requirement_local_ref(&strings(&["--editable=./lib"]), "/app").as_deref(),
        Some("/app/./lib")
    );
    assert_eq!(
        requirement_local_ref(&strings(&["pkg", "@", "file:///opt/pkg"]), "/app").as_deref(),
        Some("/opt/pkg")
    );
    assert_eq!(
        requirement_local_ref(&strings(&["vendor/pkg.whl"]), "/app").as_deref(),
        Some("/app/vendor/pkg.whl")
    );
    assert_eq!(requirement_local_ref(&strings(&["-r", "x.txt"]), "/app"), None);
    assert_eq!(requirement_local_ref(&strings(&["flask==3.0.0"]), "/app"), None);
    assert_eq!(
        resolve_requirement_file_ref("/app", "deps/base.txt").as_deref(),
        Some("/app/deps/base.txt")
    );
}

#[test]
fn pyproject_dependencies_with_direct_references() {
    assert_eq!(
        python_local_ref("shared @ file:///srv/shared", "/app").as_deref(),
        Some("/srv/shared")
    );
    assert_eq!(
        python_local_ref("shared @ https://example.com/shared.whl", "/app"),
        None
    );
    assert_eq!(python_local_ref("./libs/core", "/app").as_deref(), Some("/app/./libs/core"));
}

#[test]
fn javascript_references_follow_workspace_and_file_protocols() {
    let workspace = vec![("@app/ui".to_owned(), "/repo/packages/ui".to_owned())];
    assert_eq!(
        js_local_ref("@app/ui", "workspace:*", "/repo", &workspace).as_deref(),
        Some("/repo/packages/ui")
    );
    assert_eq!(
        js_local_ref("x", "workspace:../x", "/repo/app", &workspace).as_deref(),
        Some("/repo/app/../x")
    );
    assert_eq!(
        js_local_ref("shared", "file:../shared", "/repo/app", &workspace).as_deref(),
        Some("/repo/app/../shared")
    );
    assert_eq!(js_local_ref("react", "^18.0.0", "/repo", &workspace), None);
}

#[test]
fn url_helpers_follow_urllib() {
    assert_eq!(
        file_url_parts("//host/a/b;params?q#frag"),
        ("host".to_owned(), "/a/b".to_owned())
    );
    assert_eq!(file_url_parts("relative;x"), (String::new(), "relative".to_owned()));
    assert_eq!(unquote("a%2Fb%zz%41"), "a/b%zzA");
    assert!(has_url_scheme("git+https://x"));
    assert!(!has_url_scheme("C"));
    assert!(!has_url_scheme(":x"));
    assert!(!has_url_scheme("1http://x"));
    assert!(is_path_like("~/x"));
    assert!(is_path_like(".."));
    assert!(!is_path_like("pkg"));
}

#[test]
fn context_lists_stay_distinct() {
    let mut context = InstallContext::default();
    context.add_input("./requirements.txt");
    context.add_input("requirements.txt");
    context.add_input("deps\\base.txt");
    assert_eq!(context.inputs, ["requirements.txt", "deps/base.txt"]);
    context.add_manifest("/app/requirements.txt");
    context.add_manifest("/app/requirements.txt");
    assert_eq!(context.manifest_paths, ["/app/requirements.txt"]);
    assert_eq!(clean_relative("  "), ".");
}

#[test]
fn local_paths_inside_and_outside_the_root() {
    let mut context = InstallContext::default();
    let wheel = PathFacts {
        path: "/app/vendor/pkg.whl".to_owned(),
        exists: true,
        is_file: true,
    };
    context.add_local_path(&wheel, "/app", "reason", true);
    assert_eq!(context.inputs, ["vendor/pkg.whl"]);
    assert!(!context.requires_all_files);

    let shared = PathFacts {
        path: "/shared".to_owned(),
        exists: true,
        is_file: false,
    };
    context.add_local_path(&shared, "/app", "needs files", true);
    context.add_local_path(&shared, "/app", "needs files", true);
    assert!(context.requires_all_files);
    assert_eq!(context.reasons, ["needs files"]);
    assert_eq!(context.local_paths, ["/app/vendor/pkg.whl", "/shared"]);

    let missing_archive = PathFacts {
        path: "/elsewhere/.pkg.tar.gz".to_owned(),
        exists: false,
        is_file: false,
    };
    assert!(looks_like_file_dependency(&missing_archive));
    let missing_dir = PathFacts {
        path: "/elsewhere/pkg".to_owned(),
        exists: false,
        is_file: false,
    };
    assert!(!looks_like_file_dependency(&missing_dir));
    assert_eq!(relative_to_root("/app", "/app").as_deref(), Some("."));
    assert_eq!(relative_to_root("/apple", "/app"), None);
}

#[test]
fn pnpm_workspace_files_list_their_packages() {
    let text = "packages:\n  - 'apps/*'\n  - \"packages/*\" # libs\n  -\n# comment\nother:\n  - nope\n";
    assert_eq!(pnpm_workspace_patterns(text), ["apps/*", "packages/*"]);
    assert_eq!(
        pnpm_workspace_patterns("packages: ['a/*', \"b/*\"]\n"),
        ["a/*", "b/*"]
    );
    assert_eq!(yaml_scalar("'unclosed"), None);
    assert_eq!(yaml_scalar(" plain # note ").as_deref(), Some("plain"));
    assert_eq!(text_lines_exec("a\r\nb\n\nc\r"), ["a", "b", "", "c\r"]);
}

#[test]
fn package_json_workspaces_in_both_forms() {
    let array = JsonValue::Object(vec![(
        "workspaces".to_owned(),
        JsonValue::Array(vec![
            JsonValue::String("packages/*".to_owned()),
            JsonValue::Null,
        ]),
    )]);
    assert_eq!(package_json_workspace_patterns(&array), ["packages/*"]);
    let object = JsonValue::Object(vec![(
        "workspaces".to_owned(),
        JsonValue::Object(vec![(
            "packages".to_owned(),
            JsonValue::Array(vec![JsonValue::String("apps/*".to_owned())]),
        )]),
    )]);
    assert_eq!(package_json_workspace_patterns(&object), ["apps/*"]);
    assert!(package_json_workspace_patterns(&JsonValue::Null).is_empty());
}

fn s(text: &str) -> JsonValue {
    JsonValue::String(text.to_owned())
}

fn obj(members: &[(&str, JsonValue)]) -> JsonValue {
    JsonValue::Object(members.iter().map(|(k, v)| (k.to_string(), v.clone())).collect())
}

fn arr(items: &[JsonValue]) -> JsonValue {
    JsonValue::Array(items.to_vec())
}

#[test]
fn test_python_pyproject_context_detects_uv_path_source() {
    // [project] dependencies = ["shared"]; [tool.uv.sources] shared = { path = "packages/shared" }
    let data = obj(&[
        ("project", obj(&[("name", s("app")), ("dependencies", arr(&[s("shared")]))])),
        ("tool", obj(&[("uv", obj(&[("sources", obj(&[("shared", obj(&[("path", s("packages/shared"))]))]))]))])),
    ]);
    assert_eq!(python_dependency_strings(&data), ["shared"]);
    assert_eq!(python_local_ref("shared", "/repo"), None);
    assert_eq!(uv_source_paths(&data), ["packages/shared"]);
    assert_eq!(resolve_local_ref("/repo", "packages/shared", true).as_deref(), Some("/repo/packages/shared"));
}

#[test]
fn test_python_pyproject_context_ignores_remote_direct_url() {
    let data = obj(&[(
        "project",
        obj(&[("name", s("app")), ("dependencies", arr(&[s("shared @ https://example.com/shared.whl")]))]),
    )]);
    let deps = python_dependency_strings(&data);
    assert_eq!(deps, ["shared @ https://example.com/shared.whl"]);
    assert_eq!(python_local_ref(&deps[0], "/repo"), None);
    assert!(uv_source_paths(&data).is_empty());
}

#[test]
fn pyproject_dependency_strings_cover_optional_and_groups() {
    let data = obj(&[
        (
            "dependency-groups",
            obj(&[("dev", arr(&[s("pytest"), obj(&[("include-group", s("lint"))])])), ("lint", arr(&[s("ruff")]))]),
        ),
        (
            "project",
            obj(&[
                ("dependencies", arr(&[s("flask"), JsonValue::Bool(true)])),
                ("optional-dependencies", obj(&[("docs", arr(&[s("mkdocs")])), ("pg", arr(&[s("psycopg")]))])),
            ]),
        ),
        ("tool", obj(&[("uv", obj(&[("workspace", obj(&[("members", arr(&[s("packages/*")]))]))]))])),
    ]);
    assert_eq!(python_dependency_strings(&data), ["flask", "mkdocs", "psycopg", "pytest", "lint", "ruff"]);
    assert_eq!(uv_workspace_members(&data), ["packages/*"]);
}

#[test]
fn ignore_patterns_use_fnmatch_star_and_question() {
    let patterns = strings(&["*.log", "node_modules", ".anybuild", "Anybuild", "cache?"]);
    assert_eq!(check_ignore_patterns(&patterns), Ok(()));
    assert!(is_ignored(&patterns, "debug.log"));
    assert!(is_ignored(&patterns, "node_modules"));
    assert!(is_ignored(&patterns, "cache1"));
    assert!(!is_ignored(&patterns, "cache12"));
    assert!(!is_ignored(&patterns, "index.html"));
    assert_eq!(check_ignore_patterns(&strings(&["ok", "a[b"])), Err("Invalid ignore pattern: a[b".to_owned()));
}

#[test]
fn copy_tree_skips_ignored_basenames_at_every_level() {
    let patterns = strings(&["*.log", "node_modules", ".anybuild", "Anybuild"]);
    let entries = vec![
        ("index.html".to_owned(), false),
        ("debug.log".to_owned(), false),
        ("nested".to_owned(), true),
        (".anybuild".to_owned(), true),
        ("Anybuild".to_owned(), false),
    ];
    assert_eq!(
        copy_dir_actions("/src", "/dst", &entries, &patterns),
        vec![
            CopyAction::CreateDir("/dst".to_owned()),
            CopyAction::CopyFile { from: "/src/index.html".to_owned(), to: "/dst/index.html".to_owned() },
            CopyAction::Descend { from: "/src/nested".to_owned(), to: "/dst/nested".to_owned() },
        ]
    );
    let nested = vec![
        ("keep.txt".to_owned(), false),
        ("trace.log".to_owned(), false),
        ("node_modules".to_owned(), true),
    ];
    assert_eq!(
        copy_dir_actions("/src/nested", "/dst/nested", &nested, &patterns),
        vec![
            CopyAction::CreateDir("/dst/nested".to_owned()),
            CopyAction::CopyFile { from: "/src/nested/keep.txt".to_owned(), to: "/dst/nested/keep.txt".to_owned() },
        ]
    );
}

fn facts(path: &str, exists: bool, is_file: bool) -> PathFacts {
    PathFacts { path: path.to_owned(), exists, is_file }
}

#[test]
fn pyproject_adds_manifests_neighbours_and_local_paths() {
    let data = JsonValue::Object(vec![
        (
            "project".to_owned(),
            JsonValue::Object(vec![(
                "dependencies".to_owned(),
                JsonValue::Array(vec![JsonValue::String("pkg @ file:///repo/app/libs/pkg".to_owned())]),
            )]),
        ),
        (
            "tool".to_owned(),
            JsonValue::Object(vec![(
                "uv".to_owned(),
                JsonValue::Object(vec![(
                    "sources".to_owned(),
                    JsonValue::Object(vec![(
                        "shared".to_owned(),
                        JsonValue::Object(vec![("path".to_owned(), JsonValue::String("../shared".to_owned()))]),
                    )]),
                )]),
            )]),
        ),
    ]);
    let (refs, reasons) = pyproject_local_refs(&data, "/repo/app");
    assert_eq!(refs, strings(&["/repo/app/libs/pkg", "/repo/app/../shared"]));
    assert_eq!(
        reasons,
        strings(&["Python local path dependencies need source files", "uv path sources need source files"])
    );

    let mut ctx = InstallContext::default();
    let ref_facts = vec![facts("/repo/app/libs/pkg", true, false), facts("/repo/shared", true, false)];
    let members = vec![facts("/repo/app/packages/core", true, false)];
    discover_python_pyproject(
        &mut ctx,
        "/repo/app",
        "/repo/app/pyproject.toml",
        Some("/repo/app/uv.lock"),
        &strings(&["/repo/app/README.md", "/repo/app/LICENSE"]),
        Some(&data),
        &ref_facts,
        &members,
    );
    assert_eq!(ctx.inputs, strings(&["pyproject.toml", "uv.lock", "README.md", "LICENSE"]));
    assert_eq!(ctx.manifest_paths, strings(&["/repo/app/pyproject.toml", "/repo/app/uv.lock"]));
    assert_eq!(
        ctx.local_paths,
        strings(&["/repo/app/libs/pkg", "/repo/shared", "/repo/app/packages/core"])
    );
    assert!(ctx.requires_all_files);
    assert_eq!(
        ctx.reasons,
        strings(&[
            "Python local path dependencies need source files",
            "uv path sources need source files",
            "uv workspace members need source files",
        ])
    );
}

#[test]
fn unparsed_pyproject_adds_only_its_files() {
    let mut ctx = InstallContext::default();
    discover_python_pyproject(&mut ctx, "/r", "/r/pyproject.toml", None, &Vec::new(), None, &Vec::new(), &Vec::new());
    assert_eq!(ctx.inputs, strings(&["pyproject.toml"]));
    assert_eq!(ctx.manifest_paths, strings(&["/r/pyproject.toml"]));
    assert!(!ctx.requires_all_files);
}

fn file(name: &str) -> TreeEntry {
    TreeEntry::File { name: name.to_owned() }
}

fn dir(name: &str, entries: Vec<TreeEntry>) -> TreeEntry {
    TreeEntry::Dir { name: name.to_owned(), entries }
}

#[test]
fn copy_tree_plan_skips_ignored_basenames_at_every_level() {
    let patterns = strings(&["*.log", "node_modules", ".anybuild", "Anybuild", "cache-?"]);
    assert!(check_ignore_patterns(&patterns).is_ok());
    let tree = vec![
        file("app.py"),
        file("debug.log"),
        file("Anybuild"),
        dir(".anybuild", vec![file("state")]),
        dir("cache-1", vec![file("x")]),
        dir("cache-22", vec![file("y")]),
        dir("nested", vec![file("trace.log"), file("keep.txt"), dir("node_modules", vec![file("m.js")])]),
    ];
    let plan = copy_tree_plan("/src", "/dst", &tree, &patterns);
    assert_eq!(
        plan,
        vec![
            CopyAction::CreateDir("/dst".to_owned()),
            CopyAction::CopyFile { from: "/src/app.py".to_owned(), to: "/dst/app.py".to_owned() },
            CopyAction::CreateDir("/dst/cache-22".to_owned()),
            CopyAction::CopyFile { from: "/src/cache-22/y".to_owned(), to: "/dst/cache-22/y".to_owned() },
            CopyAction::CreateDir("/dst/nested".to_owned()),
            CopyAction::CopyFile { from: "/src/nested/keep.txt".to_owned(), to: "/dst/nested/keep.txt".to_owned() },
        ]
    );
}

#[test]
fn requirements_files_point_at_includes_and_local_paths_in_line_order() {
    let bytes = b"-r base.txt  # shared pins\r\n-e ./libs/pkg\nrequests==2.32.0\n\n-c /etc/constraints.txt\n".to_vec();
    let refs = requirement_refs("/app/requirements.txt", &bytes);
    assert_eq!(
        refs,
        vec![
            RequirementRef::Include("/app/base.txt".to_owned()),
            RequirementRef::Local("/app/./libs/pkg".to_owned()),
            RequirementRef::Include("/etc/constraints.txt".to_owned()),
        ]
    );
}

#[test]
fn requirements_files_are_visited_once() {
    let mut ctx = InstallContext::default();
    let mut visited = Vec::new();
    assert!(begin_requirements_file(&mut ctx, &mut visited, "/app", "/app/requirements.txt"));
    assert!(!begin_requirements_file(&mut ctx, &mut visited, "/app", "/app/requirements.txt"));
    assert!(begin_requirements_file(&mut ctx, &mut visited, "/app", "/etc/constraints.txt"));
    assert_eq!(ctx.inputs, strings(&["requirements.txt"]));
    assert_eq!(ctx.manifest_paths, strings(&["/app/requirements.txt", "/etc/constraints.txt"]));
}

fn jobj(members: &[(&str, JsonValue)]) -> JsonValue {
    JsonValue::Object(members.iter().map(|(k, v)| (k.to_string(), v.clone())).collect())
}

fn jstr(text: &str) -> JsonValue {
    JsonValue::String(text.to_owned())
}

#[test]
fn js_package_refs_follow_tables_in_order() {
    let package_json = jobj(&[
        ("name", jstr("app")),
        ("dependencies", jobj(&[("react", jstr("^18.0.0")), ("ui", jstr("workspace:*")), ("local", jstr("file:../local"))])),
        ("devDependencies", jobj(&[("tools", jstr("link:./tools"))])),
    ]);
    let workspace = vec![("ui".to_owned(), "/repo/packages/ui".to_owned())];
    assert_eq!(
        js_package_refs(&package_json, "/repo/app", &workspace),
        strings(&["/repo/packages/ui", "/repo/app/../local", "/repo/app/./tools"])
    );
}

#[test]
fn js_packages_are_visited_once_and_unreadable_ones_skipped() {
    let mut ctx = InstallContext::default();
    let mut visited = Vec::new();
    assert!(begin_js_package(&mut ctx, &mut visited, "/repo", "/repo", "/repo/package.json", true));
    assert!(!begin_js_package(&mut ctx, &mut visited, "/repo", "/repo", "/repo/package.json", true));
    assert!(!begin_js_package(&mut ctx, &mut visited, "/repo", "/repo/broken", "/repo/broken/package.json", false));
    assert_eq!(ctx.inputs, strings(&["package.json"]));
    assert_eq!(ctx.manifest_paths, strings(&["/repo/package.json"]));
    assert_eq!(visited, strings(&["/repo", "/repo/broken"]));
}

#[test]
fn workspace_packages_need_a_name_and_skip_node_modules() {
    assert_eq!(including_patterns(&strings(&["packages/*", "!packages/skip"])), strings(&["packages/*"]));
    let named = jobj(&[("name", jstr("ui"))]);
    assert_eq!(
        workspace_package("/repo/packages/ui", "/repo/packages/ui", Some(&named)),
        Some(("ui".to_owned(), "/repo/packages/ui".to_owned()))
    );
    assert_eq!(workspace_package("/repo/node_modules/ui", "/repo/node_modules/ui", Some(&named)), None);
    assert_eq!(workspace_package("/repo/packages/x", "/repo/packages/x", Some(&jobj(&[]))), None);
    assert_eq!(workspace_package("/repo/packages/y", "/repo/packages/y", None), None);
}

#[test]
fn documents_parse_into_library_values() {
    let toml = parse_toml_document("[project]\nname = \"app\"\ndependencies = [\"flask\"]\n").unwrap();
    assert_eq!(python_dependency_strings(&toml), ["flask"]);
    assert!(parse_toml_document("[project\n").is_none());
    assert_eq!(
        parse_json_document("{\"name\": \"ui\", \"private\": true}"),
        Some(JsonValue::Object(vec![
            ("name".to_owned(), JsonValue::String("ui".to_owned())),
            ("private".to_owned(), JsonValue::Bool(true)),
        ]))
    );
    assert_eq!(parse_json_object("[1]"), None);
    assert_eq!(parse_json_object("{"), None);
}

#[test]
fn dependency_files_are_the_manifests_that_are_files() {
    let manifests = strings(&["/app/pyproject.toml", "/app/missing.txt", "/app/requirements.txt"]);
    assert_eq!(
        anybuild::pyproject::dependency_files(&manifests, &vec![true, false, true]),
        strings(&["/app/pyproject.toml", "/app/requirements.txt"])
    );
}

#[test]
fn process_output_becomes_events_stdout_first_and_only_when_non_empty() {
    let events = process_output_events(&b"out".to_vec(), &b"err".to_vec());
    assert_eq!(
        events,
        vec![
            Event::ProcessOutput { stream: ProcessStream::Stdout, text: "out".to_owned() },
            Event::ProcessOutput { stream: ProcessStream::Stderr, text: "err".to_owned() },
        ]
    );
    assert_eq!(
        process_output_events(&Vec::new(), &b"e".to_vec()),
        vec![Event::ProcessOutput { stream: ProcessStream::Stderr, text: "e".to_owned() }]
    );
    assert!(process_output_events(&Vec::new(), &Vec::new()).is_empty());
}

#[test]
fn test_workspace_globs_skip_implicit_dotfiles() {
    let current = strings(&["/t/packages"]);
    let listings = vec![strings(&["visible", ".hidden"])];
    assert_eq!(glob_pattern(&current, "*", &listings), Some(strings(&["/t/packages/visible"])));
    assert_eq!(glob_pattern(&current, ".*", &listings), Some(strings(&["/t/packages/.hidden"])));
    assert_eq!(segment_admits("*", ".hidden"), Some(false));
    assert_eq!(segment_admits("*", "visible"), Some(true));
    assert_eq!(segment_admits("a[", "a"), None);
    assert_eq!(glob_pattern(&current, "a[", &listings), None);
}

#[test]
fn workspace_patterns_walk_segment_by_segment() {
    assert_eq!(pattern_segments("packages/*/"), strings(&["packages", "*", ""]));
    assert_eq!(segment_kind(""), SegmentKind::Skip);
    assert_eq!(segment_kind("."), SegmentKind::Skip);
    assert_eq!(segment_kind(".."), SegmentKind::Up);
    assert_eq!(segment_kind("packages"), SegmentKind::Literal);
    assert_eq!(segment_kind("pkg-?"), SegmentKind::Pattern);
    assert_eq!(segment_kind("[ab]"), SegmentKind::Pattern);
    assert_eq!(glob_up(&strings(&["/r/a"])), strings(&["/r/a/.."]));
    assert_eq!(
        glob_literal(&strings(&["/r", "/s"]), "packages", &vec![true, false]),
        strings(&["/r/packages"])
    );
    assert_eq!(
        sorted_texts_exec(&strings(&["/r/b", "/r/a", "/r/b"])),
        strings(&["/r/a", "/r/b", "/r/b"])
    );
}
