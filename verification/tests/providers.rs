use anybuild::base::{BaseConfig, CustomCommands};
use anybuild::context::{apply_overrides, serve_port, EnvironmentOptions};
use anybuild::jekyll::{load_jekyll_config, JekyllConfig};
use anybuild::mkdocs::{with_mkdocs_dependency, MkdocsConfig};
use anybuild::node::{NodeConfig, NodeConfigFields, NodeFramework, PackageManager};
use anybuild::node_static::NodeStaticConfig;
use anybuild::selection::SiteEvidence;
use anybuild::volumes::{merge_volume_mappings, parse_cli_volume_mappings};
use anybuild::workspace::{apply_node_workspace_config, apply_subdir_provider_config, rewrite_package_manager_command};

fn env(pairs: &[(&str, &str)]) -> Vec<(String, String)> {
    pairs.iter().map(|(k, v)| (k.to_string(), v.to_string())).collect()
}

fn pairs(items: &[(&str, &str)]) -> Vec<(String, String)> {
    env(items)
}

#[test]
fn node_settings_default_and_overlay() {
    let defaults = NodeConfigFields::default();
    assert_eq!(defaults.use_edgejs, Some(false));
    assert_eq!(defaults.node_version.as_deref(), Some("24"));
    assert_eq!(defaults.optimize_node_dependencies, Some(true));
    assert_eq!(defaults.remove_native_binaries, Some(false));
    assert_eq!(NodeConfigFields::from_env(&env(&[])).unwrap(), defaults);

    let fields = NodeConfigFields::from_env(&env(&[
        ("ANYBUILD_PACKAGE_MANAGER", "pnpm"),
        ("ANYBUILD_FRAMEWORK", "next"),
        ("ANYBUILD_EXTRA_DEPENDENCIES", "[\"sharp\", \"bcrypt\", \"sharp\"]"),
        ("SHIPIT_NODE_VERSION", "22"),
        ("ANYBUILD_INSTALL_REQUIRES_ALL_FILES", "yes"),
        ("ANYBUILD_INSTALL_INPUTS", "[\"package.json\"]"),
    ]))
    .unwrap();
    assert_eq!(fields.package_manager, Some(PackageManager::Pnpm));
    assert_eq!(fields.framework, Some(NodeFramework::Next));
    assert_eq!(fields.extra_dependencies, ["bcrypt", "sharp"]);
    assert_eq!(fields.node_version.as_deref(), Some("22"));
    assert!(fields.install_requires_all_files);
    assert_eq!(fields.install_inputs, Some(vec!["package.json".to_owned()]));
}

#[test]
fn malformed_node_overrides_are_reported() {
    assert_eq!(
        NodeConfigFields::from_env(&env(&[("ANYBUILD_EDGEJS_ENABLE", "x"), ("ANYBUILD_USE_EDGEJS", "enabled")])),
        Err("Invalid value for ANYBUILD_USE_EDGEJS: \"enabled\"; expected a boolean (true/false, yes/no, on/off, or 1/0)".to_owned())
    );
    assert_eq!(
        NodeConfigFields::from_env(&env(&[("ANYBUILD_FRAMEWORK", "not-a-framework")])),
        Err("Invalid value for ANYBUILD_FRAMEWORK: \"not-a-framework\"; expected a supported Node framework".to_owned())
    );
    assert_eq!(
        NodeConfigFields::from_env(&env(&[("ANYBUILD_PACKAGE_MANAGER", "pip")])),
        Err("Invalid value for ANYBUILD_PACKAGE_MANAGER: \"pip\"; expected a supported package manager".to_owned())
    );
    let error = NodeConfigFields::from_env(&env(&[("ANYBUILD_EXTRA_DEPENDENCIES", "not-json")])).unwrap_err();
    assert!(error.starts_with("Invalid value for ANYBUILD_EXTRA_DEPENDENCIES: \"not-json\"; expected valid JSON: "), "{error}");
}

#[test]
fn node_and_static_configs_carry_the_shared_settings() {
    let base = BaseConfig { name: Some("site".to_owned()), ..BaseConfig::default() };
    let node = NodeConfig::from_env(base.clone(), &env(&[])).unwrap();
    assert_eq!(node.base, base);
    assert_eq!(NodeConfig::default().base, BaseConfig::default());
    let site = NodeStaticConfig::from_env(base.clone(), &env(&[("ANYBUILD_CONVERT_REDIRECTS", "0"), ("ANYBUILD_STATIC_DIR", "dist")])).unwrap();
    assert_eq!(site.base, base);
    assert!(!site.convert_redirects);
    assert_eq!(site.static_dir.as_deref(), Some("dist"));
    assert_eq!(site.sws_version.as_deref(), Some("2.38.0"));
    let defaults = NodeStaticConfig::default();
    assert!(defaults.convert_redirects);
    assert_eq!(defaults.node, NodeConfigFields::default());
}

#[test]
fn mkdocs_sites_take_a_cross_platform_and_the_mkdocs_dependency() {
    let mut config = MkdocsConfig::default();
    assert!(config.set_cross_platform("linux/amd64"));
    assert_eq!(config.python.cross_platform.as_deref(), Some("linux/amd64"));
    let extra = vec!["requests".to_owned(), "zope".to_owned()];
    assert_eq!(with_mkdocs_dependency(&extra, false), ["mkdocs", "requests", "zope"]);
    assert_eq!(with_mkdocs_dependency(&extra, true), ["requests", "zope"]);
    assert!(anybuild::mkdocs::detected(true, &BaseConfig::default()));
    let building = BaseConfig {
        commands: CustomCommands { build: Some("mkdocs build".to_owned()), ..CustomCommands::default() },
        ..BaseConfig::default()
    };
    assert!(anybuild::mkdocs::detected(false, &building));
    assert!(!anybuild::mkdocs::detected(false, &BaseConfig::default()));
}

#[test]
fn jekyll_sites_default_to_their_destination() {
    assert_eq!(JekyllConfig::default().static_dir.as_deref(), Some("_site"));
    let config = load_jekyll_config(BaseConfig::default(), true, None, None, None, Some("public"), &env(&[("ANYBUILD_RUBY_VERSION", "3.3.0")]));
    assert_eq!(config.static_dir.as_deref(), Some("public"));
    assert_eq!(config.ruby_version.as_deref(), Some("3.3.0"));
    assert_eq!(config.jekyll_version.as_deref(), Some("4.3.0"));
    let kept = load_jekyll_config(BaseConfig::default(), true, None, Some("out".to_owned()), None, Some("public"), &env(&[]));
    assert_eq!(kept.static_dir.as_deref(), Some("out"));
    let fallback = load_jekyll_config(BaseConfig::default(), true, None, Some(String::new()), None, None, &env(&[]));
    assert_eq!(fallback.static_dir.as_deref(), Some("_site"));
    assert_eq!(anybuild::jekyll::detection_evidence(true, true, &BaseConfig::default()), Some(SiteEvidence::Strong));
    assert_eq!(anybuild::jekyll::detection_evidence(true, false, &BaseConfig::default()), Some(SiteEvidence::Layout));
    assert_eq!(anybuild::jekyll::detection_evidence(false, false, &BaseConfig::default()), None);
}

#[test]
fn subdirectory_apps_follow_the_workspace_package_manager() {
    let mut base = BaseConfig { app_subdir: Some("old".to_owned()), ..BaseConfig::default() };
    apply_subdir_provider_config(&mut base, None);
    assert_eq!(base.app_subdir, None);
    apply_subdir_provider_config(&mut base, Some("apps/web"));
    assert_eq!(base.app_subdir.as_deref(), Some("apps/web"));

    assert_eq!(
        rewrite_package_manager_command(Some("npm run build".to_owned()), PackageManager::Npm, PackageManager::Pnpm),
        Some("pnpm run build".to_owned())
    );
    assert_eq!(
        rewrite_package_manager_command(Some("vite build".to_owned()), PackageManager::Npm, PackageManager::Pnpm),
        Some("vite build".to_owned())
    );
    assert_eq!(rewrite_package_manager_command(None, PackageManager::Npm, PackageManager::Pnpm), None);

    let mut manager = Some(PackageManager::Npm);
    let mut build = Some("npm run build".to_owned());
    let mut commands = CustomCommands { build: Some("npm run build:site".to_owned()), ..CustomCommands::default() };
    apply_node_workspace_config(Some("apps/web"), true, false, PackageManager::Pnpm, &mut manager, &mut build, &mut commands);
    assert_eq!(manager, Some(PackageManager::Pnpm));
    assert_eq!(build.as_deref(), Some("pnpm run build"));
    assert_eq!(commands.build.as_deref(), Some("pnpm run build:site"));

    let mut manager = Some(PackageManager::Npm);
    let mut build = Some("npm run build".to_owned());
    let mut commands = CustomCommands::default();
    apply_node_workspace_config(Some("apps/web"), true, true, PackageManager::Pnpm, &mut manager, &mut build, &mut commands);
    assert_eq!(manager, Some(PackageManager::Npm));
    assert_eq!(build.as_deref(), Some("npm run build"));
}

#[test]
fn volume_mappings_parse_and_merge() {
    let specs = vec!["data:/data".to_owned(), "cache:/cache".to_owned(), "data:/srv/data".to_owned()];
    assert_eq!(parse_cli_volume_mappings(&specs).unwrap(), pairs(&[("data", "/srv/data"), ("cache", "/cache")]));
    let bad = vec!["data:/data".to_owned(), "nocolon".to_owned(), ":/x".to_owned()];
    assert_eq!(
        parse_cli_volume_mappings(&bad).unwrap_err().message(),
        "Invalid volume mapping 'nocolon'. Expected NAME:/guest/path"
    );
    let persisted = pairs(&[("data", "/data"), ("logs", "/logs")]);
    let cli = pairs(&[("logs", "/var/log"), ("tmp", "/tmp")]);
    assert_eq!(
        merge_volume_mappings(&vec![persisted, cli]),
        pairs(&[("data", "/data"), ("logs", "/var/log"), ("tmp", "/tmp")])
    );
}

#[test]
fn command_overrides_and_the_port() {
    assert_eq!(serve_port(None, &env(&[("PORT", "3000")])), Some(3000));
    assert_eq!(serve_port(None, &env(&[("PORT", "-1")])), None);
    assert_eq!(serve_port(None, &env(&[("PORT", "many")])), None);
    assert_eq!(serve_port(Some(9000), &env(&[("PORT", "3000")])), Some(9000));
    let mut base = BaseConfig::default();
    apply_overrides(&mut base, Some("web: gunicorn app:app"), None, Some("pip install ."), None, None, &env(&[("PORT", "5000")]));
    assert_eq!(base.commands.start.as_deref(), Some("web: gunicorn app:app"));
    assert_eq!(base.commands.install.as_deref(), Some("pip install ."));
    assert_eq!(base.port, Some(5000));
    let options = EnvironmentOptions { docker_client: Some("podman".to_owned()), ..EnvironmentOptions::default() };
    assert!(options.uses_docker_backend());
    assert!(!options.uses_wasmer_runner());
}
