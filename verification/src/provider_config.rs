//! The settings of whichever provider a project was detected as.
use vstd::prelude::*;
use crate::jekyll::JekyllConfig;
use crate::laravel::LaravelConfig;
use crate::mkdocs::MkdocsConfig;
use crate::node::{opt_text, NodeConfig};
use crate::node_static::NodeStaticConfig;
use crate::php::PhpConfig;
use crate::python::PythonConfig;
use crate::selection::ProviderKind;
use crate::text::copy_str;

verus! {

/// One provider's settings.
#[derive(Debug, Clone, PartialEq, Eq)]
pub enum ProviderConfig {
    Laravel(LaravelConfig),
    Mkdocs(MkdocsConfig),
    Python(PythonConfig),
    Php(PhpConfig),
    NodeStatic(NodeStaticConfig),
    Node(NodeConfig),
    Jekyll(JekyllConfig),
}

impl ProviderConfig {
    /// The provider these settings belong to.
    pub fn kind(&self) -> (r: ProviderKind)
        ensures
            r == match *self {
                ProviderConfig::Laravel(_) => ProviderKind::Laravel,
                ProviderConfig::Mkdocs(_) => ProviderKind::Mkdocs,
                ProviderConfig::Python(_) => ProviderKind::Python,
                ProviderConfig::Php(_) => ProviderKind::Php,
                ProviderConfig::NodeStatic(_) => ProviderKind::NodeStatic,
                ProviderConfig::Node(_) => ProviderKind::Node,
                ProviderConfig::Jekyll(_) => ProviderKind::Jekyll,
            },
    {
        match self {
            ProviderConfig::Laravel(_) => ProviderKind::Laravel,
            ProviderConfig::Mkdocs(_) => ProviderKind::Mkdocs,
            ProviderConfig::Python(_) => ProviderKind::Python,
            ProviderConfig::Php(_) => ProviderKind::Php,
            ProviderConfig::NodeStatic(_) => ProviderKind::NodeStatic,
            ProviderConfig::Node(_) => ProviderKind::Node,
            ProviderConfig::Jekyll(_) => ProviderKind::Jekyll,
        }
    }

    /// Set the platform to build for, where the provider takes one (Python
    /// apps and MkDocs sites); says whether it did.
    pub fn set_cross_platform(&mut self, value: &str) -> (r: bool)
        ensures
            r == (*old(self) is Python || *old(self) is Mkdocs),
            *old(self) matches ProviderConfig::Python(o) ==> (*final(self) matches ProviderConfig::Python(n)
                && opt_text(n.cross_platform) == Some(value@) && n == (PythonConfig {
                cross_platform: n.cross_platform,
                ..o
            })),
            *old(self) matches ProviderConfig::Mkdocs(o) ==> (*final(self) matches ProviderConfig::Mkdocs(n)
                && opt_text(n.python.cross_platform) == Some(value@) && n == (MkdocsConfig {
                python: PythonConfig { cross_platform: n.python.cross_platform, ..o.python },
                ..o
            })),
            !r ==> *final(self) == *old(self),
    {
        match self {
            ProviderConfig::Python(config) => {
                config.cross_platform = Some(copy_str(value));
                true
            },
            ProviderConfig::Mkdocs(config) => {
                config.python.cross_platform = Some(copy_str(value));
                true
            },
            _ => false,
        }
    }
}

} // verus!
