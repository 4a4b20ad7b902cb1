//! The PHP provider: which framework a PHP project uses, where its docroot
//! is, whether Composer installs it, and how strongly it looks like PHP.
//!
//! Which files of the project exist is handed in as a `PhpLayout`, and
//! `composer.json` as parsed JSON; the decisions are made here.
use vstd::prelude::*;
use crate::base::{
    bool_override, enum_override, env_bool, env_int, env_str, env_value, err_view, int_override,
    invalid_value, str_override, BaseConfig, HasBase,
};
use crate::env_map::pairs_view;
use crate::event::text_views;
use crate::json::{get, JsonValue};
use crate::python::{contains_text, lowercase, opt_string_view, unicode_lower};
use crate::text::{copy_str, eq_str, has_prefix, sorted_unique, sorted_unique_exec, starts_with_str};

verus! {

// ---------------------------------------------------------------------------
// Frameworks

#[derive(Debug, Clone, Copy, PartialEq, Eq, Structural)]
pub enum PhpFramework {
    Laravel,
    Moodle,
    Symfony,
    Drupal,
}

impl PhpFramework {
    pub open spec fn spec_from_value(value: Seq<char>) -> Option<PhpFramework> {
        if value == "laravel"@ {
            Some(PhpFramework::Laravel)
        } else if value == "moodle"@ {
            Some(PhpFramework::Moodle)
        } else if value == "symfony"@ {
            Some(PhpFramework::Symfony)
        } else if value == "drupal"@ {
            Some(PhpFramework::Drupal)
        } else {
            None
        }
    }

    /// The framework a configuration value names, exactly as written.
    pub fn from_value(value: &str) -> (r: Option<PhpFramework>)
        ensures
            r == Self::spec_from_value(value@),
    {
        if eq_str(value, "laravel") {
            Some(PhpFramework::Laravel)
        } else if eq_str(value, "moodle") {
            Some(PhpFramework::Moodle)
        } else if eq_str(value, "symfony") {
            Some(PhpFramework::Symfony)
        } else if eq_str(value, "drupal") {
            Some(PhpFramework::Drupal)
        } else {
            None
        }
    }

    pub open spec fn spec_value(self) -> Seq<char> {
        match self {
            PhpFramework::Laravel => "laravel"@,
            PhpFramework::Moodle => "moodle"@,
            PhpFramework::Symfony => "symfony"@,
            PhpFramework::Drupal => "drupal"@,
        }
    }

    /// The configuration value of the framework.
    pub fn value(self) -> (r: &'static str)
        ensures
            r@ == self.spec_value(),
    {
        match self {
            PhpFramework::Laravel => "laravel",
            PhpFramework::Moodle => "moodle",
            PhpFramework::Symfony => "symfony",
            PhpFramework::Drupal => "drupal",
        }
    }
}

// ---------------------------------------------------------------------------
// Settings

#[derive(Debug, Clone, PartialEq, Eq)]
pub struct PhpConfig {
    pub base: BaseConfig,
    pub framework: Option<PhpFramework>,
    pub phpix: bool,
    pub use_composer: bool,
    pub composer_build_script: Option<String>,
    pub php_version: Option<String>,
    /// `64-bit` or `32-bit`.
    pub php_architecture: Option<String>,
    pub phpix_worker_threads: Option<i64>,
    /// Docroot subdirectory (`web`, `public`, `app`), or none for the root.
    pub public_dir: Option<String>,
}

pub open spec fn default_php_version() -> Seq<char> {
    "8.3.29"@
}

impl Default for PhpConfig {
    fn default() -> (r: Self)
        ensures
            r.base.port == Some(8080i64),
            r.base.name is None,
            r.framework is None,
            !r.phpix,
            !r.use_composer,
            r.composer_build_script is None,
            opt_string_view(r.php_version) == Some(default_php_version()),
            r.php_architecture is None,
            r.phpix_worker_threads == Some(4i64),
            r.public_dir is None,
    {
        PhpConfig {
            base: BaseConfig::default(),
            framework: None,
            phpix: false,
            use_composer: false,
            composer_build_script: None,
            php_version: Some("8.3.29".to_owned()),
            php_architecture: None,
            phpix_worker_threads: Some(4),
            public_dir: None,
        }
    }
}

impl HasBase for PhpConfig {
    fn base(&self) -> &BaseConfig {
        &self.base
    }

    fn base_mut(&mut self) -> &mut BaseConfig {
        &mut self.base
    }
}

pub open spec fn architecture_value(value: Seq<char>) -> Option<Seq<char>> {
    if value == "64-bit"@ || value == "32-bit"@ {
        Some(value)
    } else {
        None
    }
}

pub open spec fn framework_override(env: Seq<(Seq<char>, Seq<char>)>) -> Result<Option<PhpFramework>, Seq<char>> {
    enum_override(env, "framework"@, |v: Seq<char>| PhpFramework::spec_from_value(v), "a supported PHP framework"@)
}

pub open spec fn architecture_override(env: Seq<(Seq<char>, Seq<char>)>) -> Result<Option<Seq<char>>, Seq<char>> {
    enum_override(env, "php_architecture"@, |v: Seq<char>| architecture_value(v), "64-bit or 32-bit"@)
}

/// The first error among the PHP settings' overrides, in field order.
pub open spec fn php_env_error(env: Seq<(Seq<char>, Seq<char>)>) -> Option<Seq<char>> {
    if framework_override(env) is Err {
        Some(framework_override(env)->Err_0)
    } else if bool_override(env, "phpix"@) is Err {
        Some(bool_override(env, "phpix"@)->Err_0)
    } else if bool_override(env, "use_composer"@) is Err {
        Some(bool_override(env, "use_composer"@)->Err_0)
    } else if architecture_override(env) is Err {
        Some(architecture_override(env)->Err_0)
    } else if int_override(env, "phpix_worker_threads"@) is Err {
        Some(int_override(env, "phpix_worker_threads"@)->Err_0)
    } else {
        None
    }
}

pub open spec fn or_default<T>(o: Option<T>, d: T) -> T {
    match o {
        Some(v) => v,
        None => d,
    }
}

/// The PHP settings over `base`, each read from the environment over its
/// default (when `php_env_error` finds no error).
pub open spec fn php_from_env(env: Seq<(Seq<char>, Seq<char>)>, base: BaseConfig, c: PhpConfig) -> bool {
    &&& c.base == base
    &&& c.framework == framework_override(env)->Ok_0
    &&& c.phpix == or_default(bool_override(env, "phpix"@)->Ok_0, false)
    &&& c.use_composer == or_default(bool_override(env, "use_composer"@)->Ok_0, false)
    &&& opt_string_view(c.composer_build_script) == str_override(env, "composer_build_script"@)
    &&& opt_string_view(c.php_version) == Some(or_default(str_override(env, "php_version"@), default_php_version()))
    &&& opt_string_view(c.php_architecture) == architecture_override(env)->Ok_0
    &&& c.phpix_worker_threads == Some(or_default(int_override(env, "phpix_worker_threads"@)->Ok_0, 4i64))
    &&& opt_string_view(c.public_dir) == str_override(env, "public_dir"@)
}

fn framework_from_env(env: &Vec<(String, String)>) -> (r: Result<Option<PhpFramework>, String>)
    ensures
        err_view(r) == framework_override(pairs_view(env@)),
{
    match env_value(env, "framework") {
        None => Ok(None),
        Some((name, raw)) => match PhpFramework::from_value(&raw) {
            Some(f) => Ok(Some(f)),
            None => Err(invalid_value(&name, &raw, "a supported PHP framework")),
        },
    }
}

fn architecture_from_env(env: &Vec<(String, String)>) -> (r: Result<Option<String>, String>)
    ensures
        match architecture_override(pairs_view(env@)) {
            Ok(v) => (r matches Ok(a) && opt_string_view(a) == v),
            Err(m) => (r matches Err(e) && e@ == m),
        },
{
    match env_value(env, "php_architecture") {
        None => Ok(None),
        Some((name, raw)) => if eq_str(&raw, "64-bit") || eq_str(&raw, "32-bit") {
            Ok(Some(raw))
        } else {
            Err(invalid_value(&name, &raw, "64-bit or 32-bit"))
        },
    }
}

impl PhpConfig {
    /// The PHP settings over `base`, read from the environment.
    pub fn from_env(base: BaseConfig, env: &Vec<(String, String)>) -> (r: Result<PhpConfig, String>)
        ensures
            match php_env_error(pairs_view(env@)) {
                Some(m) => (r matches Err(e) && e@ == m),
                None => (r matches Ok(c) && php_from_env(pairs_view(env@), base, c)),
            },
    {
        let framework = match framework_from_env(env) {
            Ok(f) => f,
            Err(e) => return Err(e),
        };
        let phpix = match env_bool(env, "phpix") {
            Ok(b) => match b {
                Some(v) => v,
                None => false,
            },
            Err(e) => return Err(e),
        };
        let use_composer = match env_bool(env, "use_composer") {
            Ok(b) => match b {
                Some(v) => v,
                None => false,
            },
            Err(e) => return Err(e),
        };
        let composer_build_script = env_str(env, "composer_build_script");
        let php_version = match env_str(env, "php_version") {
            Some(v) => Some(v),
            None => Some(copy_str("8.3.29")),
        };
        let php_architecture = match architecture_from_env(env) {
            Ok(a) => a,
            Err(e) => return Err(e),
        };
        let phpix_worker_threads = match env_int(env, "phpix_worker_threads") {
            Ok(n) => match n {
                Some(v) => Some(v),
                None => Some(4),
            },
            Err(e) => return Err(e),
        };
        let public_dir = env_str(env, "public_dir");
        Ok(PhpConfig {
            base,
            framework,
            phpix,
            use_composer,
            composer_build_script,
            php_version,
            php_architecture,
            phpix_worker_threads,
            public_dir,
        })
    }
}

// ---------------------------------------------------------------------------
// Composer

pub open spec fn opt_json(v: Option<&JsonValue>) -> Option<JsonValue> {
    match v {
        Some(j) => Some(*j),
        None => None,
    }
}

/// The keys of a JSON object (none for another value).
pub open spec fn object_keys(v: Option<JsonValue>) -> Seq<Seq<char>> {
    match v {
        Some(JsonValue::Object(m)) => m@.map_values(|p: (String, JsonValue)| p.0@),
        _ => seq![],
    }
}

pub open spec fn lowered(s: Seq<Seq<char>>) -> Seq<Seq<char>> {
    s.map_values(|x: Seq<char>| unicode_lower(x))
}

/// The lowercased names of the required and dev-required packages, and of
/// the project itself.
pub open spec fn composer_names(c: JsonValue) -> Seq<Seq<char>> {
    lowered(object_keys(c.spec_get("require"@))) + lowered(object_keys(c.spec_get("require-dev"@)))
        + match c.spec_get("name"@) {
        Some(JsonValue::String(n)) => seq![unicode_lower(n@)],
        _ => seq![],
    }
}

/// The package names of `composer.json`, as a sorted set.
pub open spec fn composer_packages_spec(c: Option<JsonValue>) -> Seq<Seq<char>> {
    match c {
        Some(j) => sorted_unique(composer_names(j)),
        None => seq![],
    }
}

fn push_lowered_keys(out: &mut Vec<String>, v: Option<&JsonValue>)
    ensures
        text_views(final(out)@) == text_views(old(out)@) + lowered(object_keys(opt_json(v))),
{
    if let Some(JsonValue::Object(members)) = v {
        let ghost start = text_views(out@);
        let ghost keys = members@.map_values(|p: (String, JsonValue)| p.0@);
        let mut i: usize = 0;
        while i < members.len()
            invariant
                0 <= i <= members@.len(),
                keys == members@.map_values(|p: (String, JsonValue)| p.0@),
                text_views(out@) == start + lowered(keys.subrange(0, i as int)),
            decreases members@.len() - i,
        {
            let l = lowercase(members[i].0.as_str());
            let ghost before = text_views(out@);
            out.push(l);
            assert(text_views(out@) =~= before.push(l@));
            assert(lowered(keys.subrange(0, i + 1)) =~= lowered(keys.subrange(0, i as int)).push(unicode_lower(keys[i as int])));
            i = i + 1;
        }
        assert(keys.subrange(0, members@.len() as int) =~= keys);
    }
}

/// The package names `composer.json` mentions, sorted and distinct.
pub fn composer_packages(composer: Option<&JsonValue>) -> (r: Vec<String>)
    ensures
        text_views(r@) == composer_packages_spec(opt_json(composer)),
{
    match composer {
        None => Vec::new(),
        Some(c) => {
            let mut names: Vec<String> = Vec::new();
            push_lowered_keys(&mut names, get(c, "require"));
            push_lowered_keys(&mut names, get(c, "require-dev"));
            let ghost before = text_views(names@);
            if let Some(JsonValue::String(n)) = get(c, "name") {
                names.push(lowercase(n.as_str()));
            }
            assert(text_views(names@) =~= composer_names(*c));
            sorted_unique_exec(&names)
        },
    }
}

/// The Composer script to run after installing: `post-update-cmd`, else
/// `post-install-cmd`, when `composer.json` defines it.
pub open spec fn composer_build_script_spec(c: Option<JsonValue>) -> Option<Seq<char>> {
    match c {
        Some(j) => match j.spec_get("scripts"@) {
            Some(s) => if s matches JsonValue::Object(_) {
                if s.spec_get("post-update-cmd"@) is Some {
                    Some("post-update-cmd"@)
                } else if s.spec_get("post-install-cmd"@) is Some {
                    Some("post-install-cmd"@)
                } else {
                    None
                }
            } else {
                None
            },
            None => None,
        },
        None => None,
    }
}

pub fn composer_build_script(composer: Option<&JsonValue>) -> (r: Option<String>)
    ensures
        opt_string_view(r) == composer_build_script_spec(opt_json(composer)),
{
    match composer {
        None => None,
        Some(c) => match get(c, "scripts") {
            Some(s) => match s {
                JsonValue::Object(_) => if get(s, "post-update-cmd").is_some() {
                    Some(copy_str("post-update-cmd"))
                } else if get(s, "post-install-cmd").is_some() {
                    Some(copy_str("post-install-cmd"))
                } else {
                    None
                },
                _ => None,
            },
            None => None,
        },
    }
}

// ---------------------------------------------------------------------------
// Layout and framework

/// Which files and directories of a PHP project exist.
#[derive(Debug, Clone, Copy, PartialEq, Eq, Default)]
pub struct PhpLayout {
    pub version_php: bool,
    pub lib_setup_php: bool,
    pub admin_cli_install_php: bool,
    /// `mod` is a directory.
    pub mod_dir: bool,
    /// `theme` is a directory.
    pub theme_dir: bool,
    /// `core/lib/Drupal.php`.
    pub drupal_core: bool,
    /// `web/core/lib/Drupal.php`.
    pub web_drupal_core: bool,
    pub artisan: bool,
    pub composer_json: bool,
    pub composer_lock: bool,
    pub symfony_lock: bool,
    pub index_php: bool,
    pub public_index_php: bool,
    pub web_index_php: bool,
    pub app_index_php: bool,
}

pub open spec fn drupal_packages() -> Seq<Seq<char>> {
    seq!["drupal/core"@, "drupal/core-composer-scaffold"@, "drupal/core-recommended"@, "drupal/drupal"@, "drupal/recommended-project"@]
}

pub open spec fn moodle_layout(l: PhpLayout) -> bool {
    l.version_php && l.lib_setup_php && (l.admin_cli_install_php || l.mod_dir || l.theme_dir)
}

pub open spec fn has_drupal_package(packages: Seq<Seq<char>>) -> bool {
    exists|i: int| 0 <= i < drupal_packages().len() && packages.contains(#[trigger] drupal_packages()[i])
}

pub open spec fn has_symfony_package(packages: Seq<Seq<char>>) -> bool {
    exists|i: int| 0 <= i < packages.len() && has_prefix(#[trigger] packages[i], "symfony/"@)
}

/// The framework of a PHP project: Moodle by its layout, Drupal by its
/// layout or packages, Laravel by `artisan` beside `composer.json`,
/// Symfony by its lock file or packages.
pub open spec fn detect_framework_spec(l: PhpLayout, packages: Seq<Seq<char>>) -> Option<PhpFramework> {
    if moodle_layout(l) {
        Some(PhpFramework::Moodle)
    } else if l.drupal_core || l.web_drupal_core || has_drupal_package(packages) {
        Some(PhpFramework::Drupal)
    } else if l.artisan && l.composer_json {
        Some(PhpFramework::Laravel)
    } else if l.symfony_lock || has_symfony_package(packages) {
        Some(PhpFramework::Symfony)
    } else {
        None
    }
}

fn drupal_package_found(packages: &Vec<String>) -> (r: bool)
    ensures
        r == has_drupal_package(text_views(packages@)),
{
    let found = contains_text(packages, "drupal/core") || contains_text(packages, "drupal/core-composer-scaffold")
        || contains_text(packages, "drupal/core-recommended") || contains_text(packages, "drupal/drupal")
        || contains_text(packages, "drupal/recommended-project");
    proof {
        reveal_strlit("drupal/core");
        reveal_strlit("drupal/core-composer-scaffold");
        reveal_strlit("drupal/core-recommended");
        reveal_strlit("drupal/drupal");
        reveal_strlit("drupal/recommended-project");
        let d = drupal_packages();
        if has_drupal_package(text_views(packages@)) {
            let i = choose|i: int| 0 <= i < d.len() && text_views(packages@).contains(#[trigger] d[i]);
            assert(found);
        }
        if found {
            if text_views(packages@).contains("drupal/core"@) {
                assert(text_views(packages@).contains(d[0]));
            } else if text_views(packages@).contains("drupal/core-composer-scaffold"@) {
                assert(text_views(packages@).contains(d[1]));
            } else if text_views(packages@).contains("drupal/core-recommended"@) {
                assert(text_views(packages@).contains(d[2]));
            } else if text_views(packages@).contains("drupal/drupal"@) {
                assert(text_views(packages@).contains(d[3]));
            } else {
                assert(text_views(packages@).contains(d[4]));
            }
        }
    }
    found
}

fn symfony_package_found(packages: &Vec<String>) -> (r: bool)
    ensures
        r == has_symfony_package(text_views(packages@)),
{
    let mut i: usize = 0;
    while i < packages.len()
        invariant
            0 <= i <= packages@.len(),
            forall|k: int| 0 <= k < i ==> !has_prefix(#[trigger] text_views(packages@)[k], "symfony/"@),
        decreases packages@.len() - i,
    {
        if starts_with_str(packages[i].as_str(), "symfony/") {
            assert(has_prefix(text_views(packages@)[i as int], "symfony/"@));
            return true;
        }
        i = i + 1;
    }
    false
}

/// The framework of a PHP project (see `detect_framework_spec`), from its
/// layout and its Composer package names.
pub fn detect_framework(layout: &PhpLayout, packages: &Vec<String>) -> (r: Option<PhpFramework>)
    ensures
        r == detect_framework_spec(*layout, text_views(packages@)),
{
    if layout.version_php && layout.lib_setup_php && (layout.admin_cli_install_php || layout.mod_dir || layout.theme_dir) {
        return Some(PhpFramework::Moodle);
    }
    if layout.drupal_core || layout.web_drupal_core || drupal_package_found(packages) {
        return Some(PhpFramework::Drupal);
    }
    if layout.artisan && layout.composer_json {
        return Some(PhpFramework::Laravel);
    }
    if layout.symfony_lock || symfony_package_found(packages) {
        return Some(PhpFramework::Symfony);
    }
    None
}

// ---------------------------------------------------------------------------
// Loading

/// Composer installs the project: it has `composer.json` or
/// `composer.lock`, or its install command runs `composer`.
pub open spec fn uses_composer(l: PhpLayout, base: BaseConfig) -> bool {
    l.composer_json || l.composer_lock || (base.commands.install matches Some(i) && has_prefix(i@, "composer "@))
}

/// The docroot: `web` for Drupal with `web/index.php`, else the first of
/// `public` and `app` with an `index.php`.
pub open spec fn public_dir_spec(l: PhpLayout, framework: Option<PhpFramework>) -> Option<Seq<char>> {
    if framework == Some(PhpFramework::Drupal) && l.web_index_php {
        Some("web"@)
    } else if l.public_index_php {
        Some("public"@)
    } else if l.app_index_php {
        Some("app"@)
    } else {
        None
    }
}

/// The framework of a loaded project: the configured one, else the
/// detected one.
pub open spec fn loaded_framework(l: PhpLayout, composer: Option<JsonValue>, env: Seq<(Seq<char>, Seq<char>)>) -> Option<PhpFramework> {
    match framework_override(env)->Ok_0 {
        Some(f) => Some(f),
        None => detect_framework_spec(l, composer_packages_spec(composer)),
    }
}

/// A PHP project's settings: those of the environment, with Composer,
/// framework, phpix (never for Drupal) and docroot taken from the project.
pub open spec fn php_loaded(
    l: PhpLayout,
    composer: Option<JsonValue>,
    base: BaseConfig,
    env: Seq<(Seq<char>, Seq<char>)>,
    c: PhpConfig,
) -> bool {
    let framework = loaded_framework(l, composer, env);
    &&& c.base == base
    &&& c.framework == framework
    &&& c.phpix == (framework != Some(PhpFramework::Drupal) && or_default(bool_override(env, "phpix"@)->Ok_0, false))
    &&& c.use_composer == uses_composer(l, base)
    &&& opt_string_view(c.composer_build_script) == composer_build_script_spec(composer)
    &&& opt_string_view(c.php_version) == Some(or_default(str_override(env, "php_version"@), default_php_version()))
    &&& opt_string_view(c.php_architecture) == architecture_override(env)->Ok_0
    &&& c.phpix_worker_threads == Some(or_default(int_override(env, "phpix_worker_threads"@)->Ok_0, 4i64))
    &&& opt_string_view(c.public_dir) == public_dir_spec(l, framework)
}

fn install_uses_composer(base: &BaseConfig) -> (r: bool)
    ensures
        r == (base.commands.install matches Some(i) && has_prefix(i@, "composer "@)),
{
    match &base.commands.install {
        Some(i) => starts_with_str(i.as_str(), "composer "),
        None => false,
    }
}

/// Load a PHP project's settings from its layout, its parsed
/// `composer.json` (none when absent or not an object) and the
/// environment.
pub fn load_php_config(
    layout: &PhpLayout,
    composer: Option<&JsonValue>,
    base: BaseConfig,
    env: &Vec<(String, String)>,
) -> (r: Result<PhpConfig, String>)
    ensures
        match php_env_error(pairs_view(env@)) {
            Some(m) => (r matches Err(e) && e@ == m),
            None => (r matches Ok(c) && php_loaded(*layout, opt_json(composer), base, pairs_view(env@), c)),
        },
{
    let use_composer = layout.composer_json || layout.composer_lock || install_uses_composer(&base);
    let build_script = composer_build_script(composer);
    let mut config = match PhpConfig::from_env(base, env) {
        Ok(c) => c,
        Err(e) => return Err(e),
    };
    config.use_composer = use_composer;
    config.composer_build_script = build_script;
    if config.framework.is_none() {
        let packages = composer_packages(composer);
        config.framework = detect_framework(layout, &packages);
    }
    if config.framework == Some(PhpFramework::Drupal) {
        config.phpix = false;
    }
    config.public_dir = if config.framework == Some(PhpFramework::Drupal) && layout.web_index_php {
        Some(copy_str("web"))
    } else if layout.public_index_php {
        Some(copy_str("public"))
    } else if layout.app_index_php {
        Some(copy_str("app"))
    } else {
        None
    };
    Ok(config)
}

// ---------------------------------------------------------------------------
// Detection

/// Why a project looks like PHP.
#[derive(Debug, Clone, Copy, PartialEq, Eq, Structural)]
pub enum PhpEvidence {
    /// Drupal served from `web/`.
    DrupalWeb,
    /// Drupal, Moodle or Symfony with an `index.php`.
    Framework,
    /// `composer.json` and a `public/` or `web/` entry point.
    ComposerEntrypoint,
    /// An `index.php`.
    Entrypoint,
    /// The start command runs `php`.
    StartCommand,
    /// The install command runs `composer`.
    InstallCommand,
}

pub open spec fn php_evidence_spec(l: PhpLayout, packages: Seq<Seq<char>>, base: BaseConfig) -> Option<PhpEvidence> {
    let framework = detect_framework_spec(l, packages);
    if framework == Some(PhpFramework::Drupal) && l.web_index_php {
        Some(PhpEvidence::DrupalWeb)
    } else if (framework == Some(PhpFramework::Drupal) || framework == Some(PhpFramework::Moodle) || framework == Some(
        PhpFramework::Symfony,
    )) && (l.index_php || l.public_index_php || l.web_index_php) {
        Some(PhpEvidence::Framework)
    } else if l.composer_json && (l.public_index_php || l.web_index_php) {
        Some(PhpEvidence::ComposerEntrypoint)
    } else if l.index_php || l.public_index_php || l.web_index_php || l.app_index_php {
        Some(PhpEvidence::Entrypoint)
    } else if base.commands.start matches Some(s) && has_prefix(s@, "php "@) {
        Some(PhpEvidence::StartCommand)
    } else if base.commands.install matches Some(i) && has_prefix(i@, "composer "@) {
        Some(PhpEvidence::InstallCommand)
    } else {
        None
    }
}

/// Why a project looks like PHP (see `php_evidence_spec`), from its layout,
/// its Composer package names and its custom commands.
pub fn detection_evidence(layout: &PhpLayout, packages: &Vec<String>, base: &BaseConfig) -> (r: Option<PhpEvidence>)
    ensures
        r == php_evidence_spec(*layout, text_views(packages@), *base),
{
    let framework = detect_framework(layout, packages);
    if framework == Some(PhpFramework::Drupal) && layout.web_index_php {
        return Some(PhpEvidence::DrupalWeb);
    }
    if (framework == Some(PhpFramework::Drupal) || framework == Some(PhpFramework::Moodle) || framework == Some(
        PhpFramework::Symfony,
    )) && (layout.index_php || layout.public_index_php || layout.web_index_php) {
        return Some(PhpEvidence::Framework);
    }
    if layout.composer_json && (layout.public_index_php || layout.web_index_php) {
        return Some(PhpEvidence::ComposerEntrypoint);
    }
    if layout.index_php || layout.public_index_php || layout.web_index_php || layout.app_index_php {
        return Some(PhpEvidence::Entrypoint);
    }
    let start_php = match &base.commands.start {
        Some(s) => starts_with_str(s.as_str(), "php "),
        None => false,
    };
    if start_php {
        return Some(PhpEvidence::StartCommand);
    }
    if install_uses_composer(base) {
        return Some(PhpEvidence::InstallCommand);
    }
    None
}

} // verus!
