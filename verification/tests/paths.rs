use anybuild::local::shorten_local_build_paths;
use anybuild::paths::{
    anybuild_subdir_slug, default_anybuild_dir, default_anybuild_path, get_anybuild_path,
    get_volume_mappings_path, get_volumes_dir, join, legacy_anybuild_path, normalize_absolute,
    parse_volume_spec, pythonic_join, resolve_project_paths, subdir_text, NormalizeError,
    PathError, ProjectPaths, VolumeSpecError,
};

fn paths(subdir: Option<&str>) -> ProjectPaths {
    ProjectPaths {
        workspace_root: "/work".to_owned(),
        app_path: "/work".to_owned(),
        subdir: subdir.map(str::to_owned),
    }
}

#[test]
fn pythonic_join_matches_pathlib() {
    assert_eq!(pythonic_join("/a/b", ""), "/a/b");
    assert_eq!(pythonic_join("/a/b", "c"), "/a/b/c");
    assert_eq!(pythonic_join("/a/b", "/opt/x"), "/opt/x");
}

#[test]
fn local_build_progress_uses_virtual_absolute_paths() {
    let root = "/Users/example/project/.anybuild/local/build";

    assert_eq!(
        shorten_local_build_paths(
            "$ mkdir -p /Users/example/project/.anybuild/local/build/opt/assets",
            root,
        ),
        "$ mkdir -p /opt/assets"
    );
    assert_eq!(
        shorten_local_build_paths(
            "Copy to /Users/example/project/.anybuild/local/build/opt/assets/optimize-node-modules.sh from node/optimize-node-modules.sh",
            root,
        ),
        "Copy to /opt/assets/optimize-node-modules.sh from node/optimize-node-modules.sh"
    );
    assert_eq!(
        shorten_local_build_paths(
            "$ bash /Users/example/project/.anybuild/local/build/opt/assets/optimize-node-modules.sh node_modules",
            root,
        ),
        "$ bash /opt/assets/optimize-node-modules.sh node_modules"
    );
    assert_eq!(
        shorten_local_build_paths(
            "$ cp -R . /Users/example/project/.anybuild/local/build/app",
            root,
        ),
        "$ cp -R . /app"
    );
    assert_eq!(
        shorten_local_build_paths("$ cd /Users/example/project/.anybuild/local/build", root,),
        "$ cd /"
    );
    assert_eq!(
        shorten_local_build_paths(
            "$ touch /Users/example/project/.anybuild/local/build-cache",
            root,
        ),
        "$ touch /Users/example/project/.anybuild/local/build-cache"
    );
}

#[test]
fn shortening_with_an_empty_build_path_keeps_the_text() {
    assert_eq!(shorten_local_build_paths("$ ls /x", ""), "$ ls /x");
}

#[test]
fn normalize_absolute_rejects_an_empty_path() {
    assert!(normalize_absolute("", "/cwd").is_err());
    assert_eq!(normalize_absolute("", "/cwd"), Err(NormalizeError::EmptyPath));
}

#[test]
fn normalize_absolute_makes_paths_absolute_and_cleans_components() {
    assert_eq!(
        normalize_absolute("parent/child/../file", "/cwd").unwrap(),
        "/cwd/parent/file"
    );
    assert_eq!(normalize_absolute("/a/./b//c/..", "/cwd").unwrap(), "/a/b");
}

#[test]
fn slugs_keep_safe_characters_only() {
    assert_eq!(anybuild_subdir_slug("apps/site"), "apps-site");
    assert_eq!(anybuild_subdir_slug("apps/my site!"), "apps-my-site");
    assert_eq!(anybuild_subdir_slug("/"), "app");
    assert_eq!(anybuild_subdir_slug("--a.b_c--"), "a.b_c");
    assert_eq!(anybuild_subdir_slug("é/ü"), "app");
}

#[test]
fn test_subdir_uses_app_specific_anybuild_by_default() {
    assert_eq!(default_anybuild_path(&paths(None)), "/work/Anybuild");
    assert_eq!(
        default_anybuild_path(&paths(Some("apps/site"))),
        "/work/Anybuild.apps-site"
    );
    assert_eq!(legacy_anybuild_path(&paths(None)), "/work/Shipit");
    assert_eq!(
        legacy_anybuild_path(&paths(Some("apps/site"))),
        "/work/Shipit.apps-site"
    );
}

#[test]
fn test_subdir_anybuild_dir_uses_app_specific_slug() {
    assert_eq!(default_anybuild_dir(&paths(None)), "/work/.anybuild");
    assert_eq!(
        default_anybuild_dir(&paths(Some("apps/site"))),
        "/work/.anybuild/apps-site"
    );
}

#[test]
fn test_subdir_validation_rejects_invalid_paths() {
    assert_eq!(subdir_text("/abs"), Err(PathError::SubdirAbsolute));
    assert_eq!(subdir_text("./"), Ok(None));
    assert_eq!(subdir_text("/"), Err(PathError::SubdirAbsolute));
    assert_eq!(subdir_text("apps/site/"), Ok(Some("apps/site".to_owned())));
    assert_eq!(
        resolve_project_paths("/work", Some("missing"), None, false),
        Err(PathError::SubdirMissing("missing".to_owned()))
    );
    assert_eq!(
        resolve_project_paths("/work", Some("../other"), Some("/other"), true),
        Err(PathError::SubdirOutside)
    );
    assert_eq!(
        resolve_project_paths("/work", Some("file.txt"), Some("/work/file.txt"), false),
        Err(PathError::SubdirNotDirectory("file.txt".to_owned()))
    );
    assert_eq!(
        PathError::SubdirOutside.message(),
        "--subdir must stay inside the project path"
    );
}

#[test]
fn project_paths_resolve_inside_the_workspace() {
    let resolved = resolve_project_paths("/work", Some("apps/site/"), Some("/work/apps/site"), true)
        .unwrap();
    assert_eq!(resolved.workspace_root, "/work");
    assert_eq!(resolved.app_path, "/work/apps/site");
    assert_eq!(resolved.subdir.as_deref(), Some("apps/site"));
    let root = resolve_project_paths("/work", None, None, false).unwrap();
    assert_eq!(root.app_path, "/work");
    assert_eq!(root.subdir, None);
}

#[test]
fn missing_anybuild_files_name_the_generate_command() {
    let err = get_anybuild_path(&paths(Some("apps/site")), None, false).unwrap_err();
    assert_eq!(
        err.message(),
        "Anybuild file not found at /work/Anybuild.apps-site. Run `anybuild generate /work --subdir=apps/site` to create it."
    );
    let err = get_anybuild_path(&paths(None), Some("/x/A"), false).unwrap_err();
    assert_eq!(
        err.message(),
        "Anybuild file not found at /x/A. Run `anybuild generate /work -o /x/A` to create it."
    );
    assert_eq!(get_anybuild_path(&paths(None), None, true).unwrap(), "/work/Anybuild");
}

#[test]
fn volume_paths_live_in_the_state_directory() {
    assert_eq!(get_volumes_dir("/src", None), "/src/.anybuild/volumes");
    assert_eq!(get_volumes_dir("/src", Some("/state")), "/state/volumes");
    assert_eq!(
        get_volume_mappings_path("/src", Some("/state")),
        "/state/volumes.json"
    );
}

#[test]
fn volume_specs_need_a_name_and_an_absolute_guest_path() {
    assert_eq!(
        parse_volume_spec(&"db:/var/lib/db".to_owned()),
        Ok(("db".to_owned(), "/var/lib/db".to_owned()))
    );
    let err = parse_volume_spec(&"nocolon".to_owned()).unwrap_err();
    assert_eq!(
        err.message(),
        "Invalid volume mapping 'nocolon'. Expected NAME:/guest/path"
    );
    assert_eq!(
        parse_volume_spec(&":/x".to_owned()),
        Err(VolumeSpecError::EmptyName(":/x".to_owned()))
    );
    assert_eq!(
        parse_volume_spec(&"a:".to_owned()),
        Err(VolumeSpecError::EmptyGuestPath("a:".to_owned()))
    );
    assert_eq!(
        parse_volume_spec(&"a:rel".to_owned()),
        Err(VolumeSpecError::RelativeGuestPath("a:rel".to_owned()))
    );
}

#[test]
fn joining_paths_adds_one_separator() {
    assert_eq!(join("/a/", "b"), "/a/b");
    assert_eq!(join("", "b"), "b");
    assert_eq!(join("/a", "/b"), "/b");
}
