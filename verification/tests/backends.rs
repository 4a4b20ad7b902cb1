use anybuild::docker_build::{
    dependency_install_contents, docker_build_command, dockerfile_contents, AssetProbe,
    DockerPaths,
};
use anybuild::env_map::{map_get_exec, map_insert_exec};
use anybuild::local_build::{
    display_environment_variables, local_build_effects, local_step, runtime_path, LocalBuildState,
    LocalCommand, LocalEffect,
};
use anybuild::plan::{
    ContainerServeLayout, CopyStep, EnvStep, LocalLayout, MountLayout, Mount, Package, PathStep,
    RunStep, Step, UseStep, WorkdirStep, WriteFileStep,
};

fn b64(bytes: &[u8]) -> String {
    base64::Engine::encode(&base64::engine::general_purpose::STANDARD, bytes)
}

fn package(name: &str, version: Option<&str>) -> Package {
    Package {
        name: name.to_owned(),
        version: version.map(str::to_owned),
        architecture: None,
    }
}

#[test]
fn test_mount_paths() {
    let paths = DockerPaths::new("/tmp/project/src", None);
    assert_eq!(paths.anybuild_dir, "/tmp/project/src/.anybuild");
    assert_eq!(paths.build_mount_path("app"), "/app");
    assert_eq!(paths.build_mount_path("data"), "/opt/data");
    assert_eq!(
        paths.artifact_mount_path("app"),
        format!("{}/app", paths.docker_out_path)
    );
    assert_eq!(
        paths.artifact_mount_path("data"),
        format!("{}/opt/data", paths.docker_out_path)
    );
    assert_eq!(
        paths.volume_path("db"),
        format!("{}/volumes/db", paths.anybuild_dir)
    );
}

#[test]
fn test_dockerfile_contents_renders_steps_like_python() {
    let mounts = vec![Mount {
        name: "app".to_owned(),
        build_path: "/app".to_owned(),
        serve_path: "/app".to_owned(),
    }];
    let steps = vec![
        Step::Workdir(WorkdirStep {
            path: "/app".to_owned(),
        }),
        Step::Use(UseStep {
            dependencies: vec![
                package("php", Some("8.3")),
                package("composer", None),
                package("node", None),
                package("bash", None),
            ],
        }),
        Step::Env(EnvStep {
            variables: vec![("FOO".to_owned(), "bar".to_owned())],
        }),
        Step::Path(PathStep {
            path: "/custom/bin".to_owned(),
        }),
        Step::Run(RunStep {
            command: "npm install".to_owned(),
            inputs: Some(vec!["package.json".to_owned(), "web/app.json".to_owned()]),
            outputs: None,
            group: None,
        }),
        Step::Copy(CopyStep {
            source: ".".to_owned(),
            target: "/app".to_owned(),
            ignore: Some(vec!["node_modules".to_owned()]),
            base: "source".to_owned(),
        }),
        Step::Copy(CopyStep {
            source: "cfg.ini".to_owned(),
            target: "/app/cfg.ini".to_owned(),
            ignore: None,
            base: "assets".to_owned(),
        }),
        Step::WriteFile(WriteFileStep {
            path: "/etc/motd".to_owned(),
            content: "hello".to_owned(),
        }),
    ];
    let mut probes = vec![AssetProbe::Missing; 8];
    probes[6] = AssetProbe::File(b"hi".to_vec());

    let mut env = vec![("HOME".to_owned(), "/root".to_owned())];
    let contents = dockerfile_contents("/work", &mut env, &mounts, &steps, &probes).unwrap();

    assert!(contents.starts_with(
        "# syntax=docker/dockerfile:1.7-labs\nFROM debian:trixie-slim AS build\n"
    ));
    assert!(contents.contains("RUN curl https://mise.run | sh\n"));
    assert!(contents.contains("RUN mkdir -p /app\n"));
    assert!(contents.contains("WORKDIR /app\n"));
    assert!(contents.contains("RUN mise use --global \"ubi:adwinying/php@8.3\"\n"));
    assert!(contents.contains(
        "RUN curl -L --output /usr/bin/composer https://github.com/composer/composer/releases/download/2.9.2/composer.phar && chmod +x /usr/bin/composer\n"
    ));
    assert!(contents.contains("RUN mise use --global \"node\"\n"));
    assert!(!contents.contains("RUN mise use --global \"bash\"\n"));
    assert!(contents.contains("ENV FOO=bar\n"));
    assert!(contents.contains("ENV PATH=/custom/bin:$PATH\n"));
    assert_eq!(map_get_exec(&env, "FOO"), Some("bar".to_owned()));
    assert_eq!(map_get_exec(&env, "PATH"), Some("/custom/bin:".to_owned()));
    assert!(contents.contains("RUN mkdir -p web\n"));
    assert!(contents.contains(
        "RUN \\\n  --mount=type=bind,source=package.json,target=package.json \\\n  --mount=type=bind,source=web/app.json,target=web/app.json \\\n  npm install\n"
    ));
    assert!(contents.contains("COPY \\\n  --exclude=node_modules \\\n  . /app\n"));
    let expected_b64 = b64(b"hi");
    assert!(contents.contains(&format!(
        "RUN echo '{expected_b64}' | base64 -d > /app/cfg.ini\n"
    )));
    let motd_b64 = b64(b"hello");
    assert!(contents.contains(&format!(
        "RUN mkdir -p /etc && echo '{motd_b64}' | base64 -d > /etc/motd\n"
    )));
    assert!(contents.ends_with("\nFROM scratch\nCOPY --from=build /app /app\n"));
}

#[test]
fn test_dockerfile_asset_errors() {
    let mut env = Vec::new();
    let step = |source: &str| {
        vec![Step::Copy(CopyStep {
            source: source.to_owned(),
            target: "/x".to_owned(),
            ignore: None,
            base: "assets".to_owned(),
        })]
    };

    let missing = dockerfile_contents(
        "/work",
        &mut env,
        &vec![],
        &step("missing.txt"),
        &vec![AssetProbe::Missing],
    );
    assert_eq!(missing.unwrap_err(), "Asset missing.txt does not exist");

    let dir = dockerfile_contents(
        "/work",
        &mut env,
        &vec![],
        &step("dir"),
        &vec![AssetProbe::Directory],
    );
    assert_eq!(
        dir.unwrap_err(),
        "Asset dir is a directory, anybuild doesn't currently support coppying assets directories inside Docker"
    );
}

#[test]
fn test_download_copy_uses_add() {
    let mut env = Vec::new();
    let contents = dockerfile_contents(
        "/work",
        &mut env,
        &vec![],
        &vec![Step::Copy(CopyStep {
            source: "https://example.com/x.tar.gz".to_owned(),
            target: "/tmp/x.tar.gz".to_owned(),
            ignore: None,
            base: "source".to_owned(),
        })],
        &vec![],
    )
    .unwrap();
    assert!(contents.contains("ADD https://example.com/x.tar.gz /tmp/x.tar.gz\n"));
}

#[test]
fn relative_mount_and_workdir_paths_are_made_absolute() {
    let mut env = Vec::new();
    let mounts = vec![Mount {
        name: "data".to_owned(),
        build_path: "data".to_owned(),
        serve_path: "/opt/data".to_owned(),
    }];
    let steps = vec![Step::Workdir(WorkdirStep {
        path: "sub".to_owned(),
    })];
    let contents = dockerfile_contents("/work", &mut env, &mounts, &steps, &vec![]).unwrap();
    assert!(contents.contains("RUN mkdir -p /work/data\n"));
    assert!(contents.contains("WORKDIR /work/sub\n"));
    assert!(contents.ends_with("COPY --from=build data data\n"));
}

#[test]
fn run_inputs_share_one_sorted_mkdir_per_parent() {
    let mut env = Vec::new();
    let steps = vec![Step::Run(RunStep {
        command: "make".to_owned(),
        inputs: Some(vec![
            "b/x".to_owned(),
            "a/y".to_owned(),
            "b/z".to_owned(),
            "./top".to_owned(),
        ]),
        outputs: None,
        group: None,
    })];
    let contents = dockerfile_contents("/work", &mut env, &vec![], &steps, &vec![]).unwrap();
    assert!(contents.contains("RUN mkdir -p a\nRUN mkdir -p b\nRUN \\\n"));
    assert_eq!(contents.matches("RUN mkdir -p b\n").count(), 1);
}

#[test]
fn dependency_install_lines_cover_special_packages() {
    assert_eq!(dependency_install_contents(&package("bash", None)), "");
    assert_eq!(
        dependency_install_contents(&package("composer", Some("2.8.0"))),
        "RUN curl -L --output /usr/bin/composer https://github.com/composer/composer/releases/download/2.8.0/composer.phar && chmod +x /usr/bin/composer\n"
    );
    assert_eq!(
        dependency_install_contents(&package("static-web-server", Some("2.36.0"))),
        "ENV SWS_INSTALL_VERSION=2.36.0\nRUN curl --proto '=https' --tlsv1.2 -sSfL https://get.static-web-server.net | sh\n"
    );
    assert_eq!(
        dependency_install_contents(&package("hugo", Some("0.140.0"))),
        "RUN mise use --global \"ubi:gohugoio/hugo[matching=extended]@0.140.0\"\n"
    );
    assert!(dependency_install_contents(&package("pie", None)).contains("/usr/bin/pie"));
}

#[test]
fn docker_client_arguments_follow_the_paths() {
    let paths = DockerPaths::new("/src", Some("/state"));
    let (args, cwd) = docker_build_command(&paths, "/src", "image", Some("--no-cache"), "/here");
    assert_eq!(
        args,
        vec![
            "build",
            "-f",
            "/state/docker/Dockerfile",
            "-t",
            "image",
            "--platform",
            "linux/amd64",
            "--output",
            "/state/docker/out",
            ".",
            "--no-cache"
        ]
    );
    assert_eq!(cwd, "/src");
}

#[test]
fn environment_variables_are_displayed_as_assignments() {
    let vars = vec![
        ("NODE_ENV".to_owned(), "production".to_owned()),
        ("MESSAGE".to_owned(), "say \"hello\"\nnow".to_owned()),
    ];
    assert_eq!(
        display_environment_variables(&vars),
        r#"NODE_ENV="production" MESSAGE="say \"hello\"\nnow""#
    );
}

fn state() -> LocalBuildState {
    LocalBuildState::new(
        "/src".to_owned(),
        "/assets".to_owned(),
        None,
        "/cwd".to_owned(),
        vec!["/usr/bin".to_owned()],
        vec![],
    )
}

#[test]
fn local_steps_plan_host_effects() {
    let mut st = state();
    assert_eq!(st.build_path, "/src/.anybuild/local/build");
    let effects = local_step(
        &mut st,
        &Step::Run(RunStep {
            command: "npm ci".to_owned(),
            inputs: Some(vec!["package.json".to_owned()]),
            outputs: None,
            group: None,
        }),
    );
    assert_eq!(
        effects,
        vec![
            LocalEffect::Report("Copying package.json to /package.json".to_owned()),
            LocalEffect::CopyInput {
                source: "/src/package.json".to_owned(),
                target: "/src/.anybuild/local/build/package.json".to_owned(),
            },
            LocalEffect::Report("$ npm ci # using package.json".to_owned()),
            LocalEffect::RunCommand(LocalCommand {
                program: "npm".to_owned(),
                command: "npm ci".to_owned(),
                search_paths: vec![
                    "/src/.anybuild/local/build".to_owned(),
                    "/usr/bin".to_owned()
                ],
                path: "/src/.anybuild/local/build:/usr/bin".to_owned(),
                cwd: "/src/.anybuild/local/build".to_owned(),
                env: vec![],
            }),
        ]
    );
}

#[test]
fn local_path_and_env_steps_update_the_environment() {
    let mut st = state();
    let effects = local_step(
        &mut st,
        &Step::Path(PathStep {
            path: "/opt/bin".to_owned(),
        }),
    );
    assert_eq!(
        effects,
        vec![LocalEffect::Report("Add /opt/bin to PATH".to_owned())]
    );
    local_step(
        &mut st,
        &Step::Env(EnvStep {
            variables: vec![("A".to_owned(), "1".to_owned())],
        }),
    );
    assert_eq!(runtime_path(&st), Some("/opt/bin:".to_owned()));
    assert_eq!(map_get_exec(&st.env, "A"), Some("1".to_owned()));
}

#[test]
fn local_copy_steps_check_the_base_and_skip_self_copies() {
    let mut st = state();
    let bad = local_step(
        &mut st,
        &Step::Copy(CopyStep {
            source: "x".to_owned(),
            target: "y".to_owned(),
            ignore: None,
            base: "elsewhere".to_owned(),
        }),
    );
    assert_eq!(bad, vec![LocalEffect::Fail("Unknown base: elsewhere".to_owned())]);

    st.workdir = "/src".to_owned();
    let same = local_step(
        &mut st,
        &Step::Copy(CopyStep {
            source: ".".to_owned(),
            target: ".".to_owned(),
            ignore: None,
            base: "source".to_owned(),
        }),
    );
    assert_eq!(same, vec![LocalEffect::Report("Copy to . from .".to_owned())]);

    let copy = local_step(
        &mut st,
        &Step::Copy(CopyStep {
            source: "cfg.ini".to_owned(),
            target: "/app/cfg.ini".to_owned(),
            ignore: Some(vec!["*.log".to_owned()]),
            base: "assets".to_owned(),
        }),
    );
    assert_eq!(
        copy,
        vec![
            LocalEffect::Report("Copy to /app/cfg.ini from cfg.ini # ignoring *.log".to_owned()),
            LocalEffect::CopyFromBase {
                source: "/assets/cfg.ini".to_owned(),
                target: "/app/cfg.ini".to_owned(),
                ignore: vec![
                    "*.log".to_owned(),
                    ".anybuild".to_owned(),
                    "Anybuild".to_owned()
                ],
                shown_source: "cfg.ini".to_owned(),
            },
        ]
    );
}

#[test]
fn local_build_stops_at_the_first_failure() {
    let mut st = state();
    let mounts = vec![Mount {
        name: "app".to_owned(),
        build_path: "/src/.anybuild/local/build/app".to_owned(),
        serve_path: "/src/.anybuild/local/build/app".to_owned(),
    }];
    let steps = vec![
        Step::Run(RunStep {
            command: "echo 'open".to_owned(),
            inputs: None,
            outputs: None,
            group: None,
        }),
        Step::Workdir(WorkdirStep {
            path: "/never".to_owned(),
        }),
    ];
    let effects = local_build_effects(&mut st, &mounts, &steps);
    assert_eq!(
        effects,
        vec![
            LocalEffect::CreateDirAll("/src/.anybuild/local/build/app".to_owned()),
            LocalEffect::Report("$ echo 'open".to_owned()),
            LocalEffect::Fail(
                "Failed to parse command \"echo 'open\": missing closing quote".to_owned()
            ),
        ]
    );
    assert_eq!(st.workdir, "/src/.anybuild/local/build");
}

#[test]
fn local_write_and_use_steps() {
    let mut st = state();
    let write = local_step(
        &mut st,
        &Step::WriteFile(WriteFileStep {
            path: "etc/conf".to_owned(),
            content: "x".to_owned(),
        }),
    );
    assert_eq!(
        write,
        vec![
            LocalEffect::Report("Write file /etc/conf".to_owned()),
            LocalEffect::WriteFile {
                path: "/src/.anybuild/local/build/etc/conf".to_owned(),
                content: "x".to_owned(),
            },
        ]
    );
    let deps = local_step(
        &mut st,
        &Step::Use(UseStep {
            dependencies: vec![
                Package {
                    name: "python".to_owned(),
                    version: Some("3.13".to_owned()),
                    architecture: Some("64-bit".to_owned()),
                },
                package("uv", None),
            ],
        }),
    );
    assert_eq!(
        deps,
        vec![LocalEffect::Report(
            "Using dependencies: python(64-bit)@3.13, uv".to_owned()
        )]
    );
}

#[test]
fn layouts_place_mounts_and_volumes() {
    let layout = LocalLayout::new("/p/.anybuild".to_owned());
    assert_eq!(layout.build_path(), "/p/.anybuild/local/build");
    assert_eq!(layout.build_mount_path("app"), "/p/.anybuild/local/build/app");
    assert_eq!(layout.serve_mount_path("db"), "/p/.anybuild/local/build/opt/db");
    assert_eq!(layout.volume_path("db"), "/p/.anybuild/volumes/db");
    assert_eq!(ContainerServeLayout::serve_mount_path("app"), "/app");
    assert_eq!(ContainerServeLayout::serve_mount_path("cache"), "/opt/cache");
}

#[test]
fn ordered_maps_replace_in_place_and_append_new_keys() {
    let mut m = vec![("A".to_owned(), "1".to_owned()), ("B".to_owned(), "2".to_owned())];
    map_insert_exec(&mut m, "A", "3");
    map_insert_exec(&mut m, "C", "4");
    assert_eq!(
        m,
        vec![
            ("A".to_owned(), "3".to_owned()),
            ("B".to_owned(), "2".to_owned()),
            ("C".to_owned(), "4".to_owned())
        ]
    );
    assert_eq!(map_get_exec(&m, "B"), Some("2".to_owned()));
    assert_eq!(map_get_exec(&m, "Z"), None);
}
