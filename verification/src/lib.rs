use vstd::prelude::*;

pub mod args;
pub mod artifact;
pub mod auto;
pub mod aws_lambda;
pub mod base;
pub mod build_command;
pub mod cli;
pub mod commands;
pub mod copy_tree;
pub mod context;
pub mod deploy;
pub mod docker_build;
pub mod documents;
pub mod env_map;
pub mod error;
pub mod event;
pub mod fly;
pub mod install_context;
pub mod jekyll;
pub mod lambda_deploy;
pub mod js_install;
pub mod json;
pub mod laravel;
pub mod local;
pub mod local_build;
pub mod mkdocs;
pub mod node;
pub mod node_static;
pub mod options;
pub mod paths;
pub mod php;
pub mod plan;
pub mod pyproject;
pub mod provider_config;
pub mod python;
pub mod render;
pub mod requirements;
pub mod run;
pub mod selection;
pub mod text;
pub mod version;
pub mod volumes;
pub mod wasmer_deploy;
pub mod workspace;
pub mod workspace_glob;

verus! {

/// Version of the Anybuild library and CLI.
pub fn version() -> (r: &'static str)
    ensures
        r@ == "0.1.0"@,
{
    "0.1.0"
}

} // verus!
