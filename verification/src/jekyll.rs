//! The Jekyll provider: a Ruby site built by Jekyll and served by the
//! static file server.
use vstd::prelude::*;
use crate::base::{blank, is_blank, str_override, BaseConfig, HasBase};
use crate::env_map::pairs_view;
use crate::node::opt_text;
use crate::selection::SiteEvidence;
use crate::text::{copy_str, has_prefix, starts_with_str};

verus! {

/// A Jekyll site's settings: the shared ones, the static file server's,
/// and the Ruby and Jekyll versions.
#[derive(Debug, Clone, PartialEq, Eq)]
pub struct JekyllConfig {
    pub base: BaseConfig,
    pub convert_redirects: bool,
    pub sws_version: Option<String>,
    /// Where Jekyll writes the site.
    pub static_dir: Option<String>,
    pub redirects_config: Option<String>,
    pub ruby_version: Option<String>,
    pub jekyll_version: Option<String>,
}

impl Default for JekyllConfig {
    fn default() -> (r: Self)
        ensures
            r.base.port == Some(8080i64),
            r.convert_redirects,
            opt_text(r.sws_version) == Some("2.38.0"@),
            opt_text(r.static_dir) == Some("_site"@),
            r.redirects_config is None,
            opt_text(r.ruby_version) == Some("3.4.7"@),
            opt_text(r.jekyll_version) == Some("4.3.0"@),
    {
        JekyllConfig {
            base: BaseConfig::default(),
            convert_redirects: true,
            sws_version: Some(copy_str("2.38.0")),
            static_dir: Some(copy_str("_site")),
            redirects_config: None,
            ruby_version: Some(copy_str("3.4.7")),
            jekyll_version: Some(copy_str("4.3.0")),
        }
    }
}

impl HasBase for JekyllConfig {
    fn base(&self) -> &BaseConfig {
        &self.base
    }

    fn base_mut(&mut self) -> &mut BaseConfig {
        &mut self.base
    }
}

/// Why a project looks like a Jekyll site: a `_config.yml` (or `.yaml`)
/// with a `Gemfile`, or a build command that runs `jekyll`, is strong;
/// the config alone is the layout.
pub open spec fn jekyll_evidence_spec(has_config: bool, has_gemfile: bool, base: BaseConfig) -> Option<SiteEvidence> {
    if has_config {
        if has_gemfile {
            Some(SiteEvidence::Strong)
        } else {
            Some(SiteEvidence::Layout)
        }
    } else if base.commands.build matches Some(b) && has_prefix(b@, "jekyll "@) {
        Some(SiteEvidence::Strong)
    } else {
        None
    }
}

pub fn detection_evidence(has_config: bool, has_gemfile: bool, base: &BaseConfig) -> (r: Option<SiteEvidence>)
    ensures
        r == jekyll_evidence_spec(has_config, has_gemfile, *base),
{
    if has_config {
        if has_gemfile {
            return Some(SiteEvidence::Strong);
        }
        return Some(SiteEvidence::Layout);
    }
    match &base.commands.build {
        Some(b) => if starts_with_str(b.as_str(), "jekyll ") {
            Some(SiteEvidence::Strong)
        } else {
            None
        },
        None => None,
    }
}

/// The versions read from the environment over their defaults, and the
/// site directory: the static file server's, else the `destination` of
/// the first Jekyll config file found, else `_site`.
pub open spec fn jekyll_loaded(
    c: JekyllConfig,
    staticfile_dir: Option<String>,
    destination: Option<Seq<char>>,
    env: Seq<(Seq<char>, Seq<char>)>,
) -> bool {
    &&& opt_text(c.ruby_version) == Some(
        match str_override(env, "ruby_version"@) {
            Some(v) => v,
            None => "3.4.7"@,
        },
    )
    &&& opt_text(c.jekyll_version) == Some(
        match str_override(env, "jekyll_version"@) {
            Some(v) => v,
            None => "4.3.0"@,
        },
    )
    &&& if blank(staticfile_dir) {
        opt_text(c.static_dir) == Some(
            match destination {
                Some(d) => d,
                None => "_site"@,
            },
        )
    } else {
        c.static_dir == staticfile_dir
    }
}

/// A Jekyll site's settings from the static file server's settings (its
/// shared settings, redirect conversion, server version and site
/// directory), the redirects rendered for the site directory chosen, the
/// `destination` of the first Jekyll config file found, and the
/// environment.
pub fn load_jekyll_config(
    base: BaseConfig,
    convert_redirects: bool,
    sws_version: Option<String>,
    staticfile_dir: Option<String>,
    redirects_config: Option<String>,
    destination: Option<&str>,
    env: &Vec<(String, String)>,
) -> (r: JekyllConfig)
    ensures
        jekyll_loaded(r, staticfile_dir, opt_text_ref(destination), pairs_view(env@)),
        r.base == base,
        r.convert_redirects == convert_redirects,
        r.sws_version == sws_version,
        r.redirects_config == redirects_config,
{
    let ruby_version = match crate::base::env_str(env, "ruby_version") {
        Some(v) => Some(v),
        None => Some(copy_str("3.4.7")),
    };
    let jekyll_version = match crate::base::env_str(env, "jekyll_version") {
        Some(v) => Some(v),
        None => Some(copy_str("4.3.0")),
    };
    let static_dir = if is_blank(&staticfile_dir) {
        match destination {
            Some(d) => Some(copy_str(d)),
            None => Some(copy_str("_site")),
        }
    } else {
        staticfile_dir
    };
    JekyllConfig { base, convert_redirects, sws_version, static_dir, redirects_config, ruby_version, jekyll_version }
}

pub open spec fn opt_text_ref(o: Option<&str>) -> Option<Seq<char>> {
    match o {
        Some(s) => Some(s@),
        None => None,
    }
}

} // verus!
