//! The MkDocs provider: a Python project that builds a static site with
//! MkDocs and serves it with the static file server.
use vstd::prelude::*;
use crate::base::{BaseConfig, HasBase};
use crate::event::text_views;
use crate::node::opt_text;
use crate::python::{contains_text, PythonConfig};
use crate::text::{copy_str, has_prefix, sorted_unique, sorted_unique_exec, starts_with_str};

verus! {

/// An MkDocs site's settings: the Python ones, the static file server's,
/// and the MkDocs version.
#[derive(Debug, Clone, PartialEq, Eq)]
pub struct MkdocsConfig {
    pub python: PythonConfig,
    pub convert_redirects: bool,
    pub sws_version: Option<String>,
    pub static_dir: Option<String>,
    pub redirects_config: Option<String>,
    pub mkdocs_version: Option<String>,
}

impl Default for MkdocsConfig {
    fn default() -> (r: Self)
        ensures
            crate::python::python_defaults(r.python),
            r.python.base.port == Some(8080i64),
            r.convert_redirects,
            opt_text(r.sws_version) == Some("2.38.0"@),
            r.static_dir is None,
            r.redirects_config is None,
            r.mkdocs_version is None,
    {
        MkdocsConfig {
            python: PythonConfig::default(),
            convert_redirects: true,
            sws_version: Some(copy_str("2.38.0")),
            static_dir: None,
            redirects_config: None,
            mkdocs_version: None,
        }
    }
}

impl HasBase for MkdocsConfig {
    fn base(&self) -> &BaseConfig {
        &self.python.base
    }

    fn base_mut(&mut self) -> &mut BaseConfig {
        &mut self.python.base
    }
}

impl MkdocsConfig {
    /// Set the platform to build for; MkDocs sites take it like Python
    /// apps do.
    pub fn set_cross_platform(&mut self, value: &str) -> (r: bool)
        ensures
            r,
            opt_text(final(self).python.cross_platform) == Some(value@),
            final(self).python.base == old(self).python.base,
            final(self).python.framework == old(self).python.framework,
            final(self).python.extra_dependencies == old(self).python.extra_dependencies,
            final(self).static_dir == old(self).static_dir,
            final(self).mkdocs_version == old(self).mkdocs_version,
    {
        self.python.cross_platform = Some(copy_str(value));
        true
    }
}

/// A project is an MkDocs site when it has `mkdocs.yml` or `mkdocs.yaml`,
/// or its build command runs `mkdocs`.
pub open spec fn mkdocs_detected(has_config: bool, base: BaseConfig) -> bool {
    has_config || (base.commands.build matches Some(b) && has_prefix(b@, "mkdocs "@))
}

/// Whether a project is an MkDocs site; `has_config` says whether
/// `mkdocs.yml` or `mkdocs.yaml` exists.
pub fn detected(has_config: bool, base: &BaseConfig) -> (r: bool)
    ensures
        r == mkdocs_detected(has_config, *base),
{
    has_config || match &base.commands.build {
        Some(b) => starts_with_str(b.as_str(), "mkdocs "),
        None => false,
    }
}

/// The Python extra dependencies of an MkDocs site: `mkdocs` is added
/// when the dependency files do not mention it and it is not listed.
pub open spec fn mkdocs_extra_dependencies(extra: Seq<Seq<char>>, mentioned: bool) -> Seq<Seq<char>> {
    if mentioned || extra.contains("mkdocs"@) {
        extra
    } else {
        sorted_unique(extra.push("mkdocs"@))
    }
}

/// Add `mkdocs` to a site's extra dependencies unless the dependency files
/// mention it (`mentioned`) or it is already listed.
pub fn with_mkdocs_dependency(extra: &Vec<String>, mentioned: bool) -> (r: Vec<String>)
    ensures
        text_views(r@) == mkdocs_extra_dependencies(text_views(extra@), mentioned),
{
    if mentioned || contains_text(extra, "mkdocs") {
        return extra.clone();
    }
    let mut pushed = extra.clone();
    let ghost before = text_views(pushed@);
    pushed.push(copy_str("mkdocs"));
    assert(text_views(pushed@) =~= before.push("mkdocs"@));
    sorted_unique_exec(&pushed)
}

} // verus!
