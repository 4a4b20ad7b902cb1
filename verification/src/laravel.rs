//! The Laravel provider's settings: a PHP application whose frontend assets
//! are built with the Node toolchain. Composer is always used; the Node
//! toolchain's settings come along, and PHP serves the application.
use vstd::prelude::*;
use crate::base::{BaseConfig, HasBase};
use crate::node::NodeConfigFields;
use crate::php::{PhpConfig, PhpFramework};

verus! {

#[derive(Debug, Clone, PartialEq, Eq)]
pub struct LaravelConfig {
    pub base: BaseConfig,
    /// The Node toolchain that builds the frontend assets.
    pub node: NodeConfigFields,
    pub php_framework: Option<PhpFramework>,
    /// Unspecified lets the selected runner choose its preferred engine.
    pub phpix: Option<bool>,
    pub use_composer: bool,
    pub composer_build_script: Option<String>,
    pub php_version: Option<String>,
    pub php_architecture: Option<String>,
    pub phpix_worker_threads: Option<i64>,
    pub public_dir: Option<String>,
}

impl Default for LaravelConfig {
    fn default() -> (r: Self)
        ensures
            r.php_framework is None,
            r.phpix is None,
            !r.use_composer,
            r.composer_build_script is None,
            crate::python::opt_string_view(r.php_version) == Some(crate::php::default_php_version()),
            r.php_architecture is None,
            r.phpix_worker_threads == Some(4i64),
            r.public_dir is None,
            r.base.port == Some(8080i64),
            r.node.use_edgejs == Some(false),
    {
        LaravelConfig {
            base: BaseConfig::default(),
            node: NodeConfigFields::default(),
            php_framework: None,
            phpix: None,
            use_composer: false,
            composer_build_script: None,
            php_version: Some("8.3.29".to_owned()),
            php_architecture: None,
            phpix_worker_threads: Some(4),
            public_dir: None,
        }
    }
}

impl HasBase for LaravelConfig {
    fn base(&self) -> &BaseConfig {
        &self.base
    }

    fn base_mut(&mut self) -> &mut BaseConfig {
        &mut self.base
    }
}

/// The Laravel settings made of the PHP settings (with Composer on), the
/// Node toolchain's settings, and the shared settings, which win over the
/// ones the PHP settings carry.
pub open spec fn laravel_config_spec(php: PhpConfig, node: NodeConfigFields, base: BaseConfig) -> LaravelConfig {
    LaravelConfig {
        base,
        node,
        php_framework: php.framework,
        phpix: Some(php.phpix),
        use_composer: true,
        composer_build_script: php.composer_build_script,
        php_version: php.php_version,
        php_architecture: php.php_architecture,
        phpix_worker_threads: php.phpix_worker_threads,
        public_dir: php.public_dir,
    }
}

/// Merge the loaded PHP settings, the loaded Node toolchain settings and
/// the shared settings into the Laravel settings.
pub fn load_config(php: PhpConfig, node: NodeConfigFields, base: BaseConfig) -> (r: LaravelConfig)
    ensures
        r == laravel_config_spec(php, node, base),
{
    LaravelConfig {
        base,
        node,
        php_framework: php.framework,
        phpix: Some(php.phpix),
        use_composer: true,
        composer_build_script: php.composer_build_script,
        php_version: php.php_version,
        php_architecture: php.php_architecture,
        phpix_worker_threads: php.phpix_worker_threads,
        public_dir: php.public_dir,
    }
}

/// A Laravel project has both an `artisan` script and a `composer.json`.
pub fn detected(has_artisan: bool, has_composer_json: bool) -> (r: bool)
    ensures
        r == (has_artisan && has_composer_json),
{
    has_artisan && has_composer_json
}

} // verus!
