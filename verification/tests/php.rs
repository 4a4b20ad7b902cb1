use anybuild::provider_config::ProviderConfig;
use anybuild::base::BaseConfig;
use anybuild::json::JsonValue;
use anybuild::php::{
    composer_build_script, composer_packages, detect_framework, detection_evidence, load_php_config,
    PhpConfig, PhpEvidence, PhpFramework, PhpLayout,
};

fn s(text: &str) -> JsonValue {
    JsonValue::String(text.to_owned())
}

fn obj(members: &[(&str, JsonValue)]) -> JsonValue {
    JsonValue::Object(members.iter().map(|(k, v)| (k.to_string(), v.clone())).collect())
}

fn no_env() -> Vec<(String, String)> {
    Vec::new()
}

#[test]
fn test_php_provider_detects_moodle_from_source() {
    let layout = PhpLayout {
        index_php: true,
        version_php: true,
        lib_setup_php: true,
        admin_cli_install_php: true,
        mod_dir: true,
        ..PhpLayout::default()
    };
    let packages = composer_packages(None);
    assert_eq!(detection_evidence(&layout, &packages, &BaseConfig::default()), Some(PhpEvidence::Framework));
    let config = load_php_config(&layout, None, BaseConfig::default(), &no_env()).unwrap();
    assert_eq!(config.framework, Some(PhpFramework::Moodle));
}

#[test]
fn test_php_provider_detects_drupal_from_source() {
    let layout = PhpLayout {
        web_index_php: true,
        web_drupal_core: true,
        composer_json: true,
        ..PhpLayout::default()
    };
    let composer = obj(&[
        ("name", s("drupal/recommended-project")),
        ("require", obj(&[("drupal/core-recommended", s("^11.0"))])),
    ]);
    let packages = composer_packages(Some(&composer));
    assert_eq!(packages, ["drupal/core-recommended", "drupal/recommended-project"]);
    assert_eq!(detection_evidence(&layout, &packages, &BaseConfig::default()), Some(PhpEvidence::DrupalWeb));
    let env = vec![("ANYBUILD_PHPIX".to_owned(), "true".to_owned())];
    let config = load_php_config(&layout, Some(&composer), BaseConfig::default(), &env).unwrap();
    assert_eq!(config.framework, Some(PhpFramework::Drupal));
    assert_eq!(config.public_dir.as_deref(), Some("web"));
    assert!(!config.phpix);
    assert!(config.use_composer);
}

#[test]
fn test_php_provider_detects_drupal_from_source_layout() {
    let layout = PhpLayout { index_php: true, drupal_core: true, ..PhpLayout::default() };
    let config = load_php_config(&layout, None, BaseConfig::default(), &no_env()).unwrap();
    assert_eq!(config.framework, Some(PhpFramework::Drupal));
}

#[test]
fn laravel_and_symfony_are_recognised() {
    let laravel = PhpLayout { artisan: true, composer_json: true, ..PhpLayout::default() };
    assert_eq!(detect_framework(&laravel, &Vec::new()), Some(PhpFramework::Laravel));
    let composer = obj(&[("require", obj(&[("Symfony/Console", s("^7"))]))]);
    let packages = composer_packages(Some(&composer));
    assert_eq!(packages, ["symfony/console"]);
    assert_eq!(detect_framework(&PhpLayout::default(), &packages), Some(PhpFramework::Symfony));
    assert_eq!(detect_framework(&PhpLayout::default(), &Vec::new()), None);
}

#[test]
fn composer_scripts_pick_the_build_hook() {
    let both = obj(&[("scripts", obj(&[("post-install-cmd", s("a")), ("post-update-cmd", s("b"))]))]);
    assert_eq!(composer_build_script(Some(&both)).as_deref(), Some("post-update-cmd"));
    let install = obj(&[("scripts", obj(&[("post-install-cmd", s("a"))]))]);
    assert_eq!(composer_build_script(Some(&install)).as_deref(), Some("post-install-cmd"));
    let listed = obj(&[("scripts", JsonValue::Array(vec![]))]);
    assert_eq!(composer_build_script(Some(&listed)), None);
}

#[test]
fn php_settings_come_from_the_environment() {
    let env = vec![("ANYBUILD_PHP_ARCHITECTURE".to_owned(), "invalid".to_owned())];
    assert_eq!(
        PhpConfig::from_env(BaseConfig::default(), &env),
        Err("Invalid value for ANYBUILD_PHP_ARCHITECTURE: \"invalid\"; expected 64-bit or 32-bit".to_owned())
    );
    let env = vec![
        ("ANYBUILD_FRAMEWORK".to_owned(), "symfony".to_owned()),
        ("ANYBUILD_PHPIX_WORKER_THREADS".to_owned(), "8".to_owned()),
    ];
    let config = PhpConfig::from_env(BaseConfig::default(), &env).unwrap();
    assert_eq!(config.framework, Some(PhpFramework::Symfony));
    assert_eq!(config.phpix_worker_threads, Some(8));
    assert_eq!(config.php_version.as_deref(), Some("8.3.29"));
    assert_eq!(config, PhpConfig { framework: Some(PhpFramework::Symfony), phpix_worker_threads: Some(8), ..PhpConfig::default() });
}

#[test]
fn php_evidence_from_commands() {
    let base = BaseConfig {
        commands: anybuild::base::CustomCommands { start: Some("php -S 0.0.0.0:8080".to_owned()), ..Default::default() },
        ..BaseConfig::default()
    };
    assert_eq!(detection_evidence(&PhpLayout::default(), &Vec::new(), &base), Some(PhpEvidence::StartCommand));
    assert_eq!(detection_evidence(&PhpLayout::default(), &Vec::new(), &BaseConfig::default()), None);
}

#[test]
fn laravel_settings_use_composer_and_keep_the_node_toolchain() {
    let mut php = anybuild::php::PhpConfig::default();
    php.phpix = true;
    php.public_dir = Some("public".to_owned());
    php.base.name = Some("from-php".to_owned());
    let mut node = anybuild::node::NodeConfigFields::default();
    node.build_command = Some("npm run build".to_owned());
    let mut base = anybuild::base::BaseConfig::default();
    base.name = Some("shared".to_owned());
    let config = anybuild::laravel::load_config(php, node.clone(), base.clone());
    assert!(config.use_composer);
    assert_eq!(config.phpix, Some(true));
    assert_eq!(config.public_dir.as_deref(), Some("public"));
    assert_eq!(config.base, base);
    assert_eq!(config.node, node);
    assert!(anybuild::laravel::detected(true, true));
    assert!(!anybuild::laravel::detected(true, false));
}

#[test]
fn cross_platform_is_set_for_python_and_mkdocs_only() {
    let mut python = ProviderConfig::Python(anybuild::python::PythonConfig::default());
    assert!(python.set_cross_platform("linux/arm64"));
    match &python {
        ProviderConfig::Python(c) => assert_eq!(c.cross_platform.as_deref(), Some("linux/arm64")),
        _ => panic!("still python"),
    }
    let mut mkdocs = ProviderConfig::Mkdocs(anybuild::mkdocs::MkdocsConfig::default());
    assert!(mkdocs.set_cross_platform("linux/amd64"));
    let mut php = ProviderConfig::Php(anybuild::php::PhpConfig::default());
    let before = php.clone();
    assert!(!php.set_cross_platform("linux/amd64"));
    assert_eq!(php, before);
}
