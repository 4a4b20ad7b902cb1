//! Apps in a subdirectory of a workspace: the subdirectory is recorded, and
//! a Node app without its own lockfile follows the workspace's package
//! manager.
use vstd::prelude::*;
use crate::base::{BaseConfig, CustomCommands};
use crate::node::{opt_text, PackageManager};
use crate::text::{chars_of, copy_str, has_prefix, push_str, starts_with_str, string_of};

verus! {

/// Record the app's subdirectory; no subdirectory clears it.
pub fn apply_subdir_provider_config(base: &mut BaseConfig, subdir: Option<&str>)
    ensures
        opt_text(final(base).app_subdir) == match subdir {
            Some(s) => Some(s@),
            None => None,
        },
        final(base).name == old(base).name,
        final(base).port == old(base).port,
        final(base).commands == old(base).commands,
        final(base).runtime_dependencies == old(base).runtime_dependencies,
        final(base).database == old(base).database,
{
    base.app_subdir = match subdir {
        Some(s) => Some(copy_str(s)),
        None => None,
    };
}

/// `<old> run <rest>` becomes `<new> run <rest>`; other commands stay.
pub open spec fn rewrite_spec(command: Option<Seq<char>>, old: PackageManager, new: PackageManager) -> Option<Seq<char>> {
    match command {
        None => None,
        Some(c) => {
            let prefix = old.spec_value() + " run "@;
            if c.len() > 0 && has_prefix(c, prefix) {
                Some(new.spec_value() + " run "@ + c.subrange(prefix.len() as int, c.len() as int))
            } else {
                Some(c)
            }
        },
    }
}

pub fn rewrite_package_manager_command(command: Option<String>, old: PackageManager, new: PackageManager) -> (r: Option<String>)
    ensures
        opt_text(r) == rewrite_spec(opt_text(command), old, new),
{
    match command {
        None => None,
        Some(c) => {
            let mut prefix = copy_str(old.value());
            push_str(&mut prefix, " run ");
            if c.unicode_len() > 0 && starts_with_str(c.as_str(), prefix.as_str()) {
                let chars = chars_of(c.as_str());
                let n = chars_of(prefix.as_str()).len();
                let mut rest: Vec<char> = Vec::new();
                let mut i: usize = n;
                while i < chars.len()
                    invariant
                        n <= i <= chars@.len(),
                        rest@ == chars@.subrange(n as int, i as int),
                    decreases chars@.len() - i,
                {
                    rest.push(chars[i]);
                    i = i + 1;
                }
                let mut out = copy_str(new.value());
                push_str(&mut out, " run ");
                push_str(&mut out, &string_of(&rest));
                Some(out)
            } else {
                Some(c)
            }
        },
    }
}

/// An app follows its workspace's package manager when it lives in a
/// subdirectory and has a `package.json` but no lockfile of its own.
pub open spec fn follows_workspace(subdir: Option<&str>, app_has_package_json: bool, app_has_lockfile: bool) -> bool {
    (subdir matches Some(s) && s@.len() > 0) && app_has_package_json && !app_has_lockfile
}

/// Make a Node app in a workspace subdirectory use the workspace's package
/// manager (`workspace_manager`, detected at the workspace root) when it
/// has a `package.json` but no lockfile of its own.
pub fn apply_node_workspace_config(
    subdir: Option<&str>,
    app_has_package_json: bool,
    app_has_lockfile: bool,
    workspace_manager: PackageManager,
    package_manager: &mut Option<PackageManager>,
    build_command: &mut Option<String>,
    commands: &mut CustomCommands,
)
    ensures
        !follows_workspace(subdir, app_has_package_json, app_has_lockfile) || *old(package_manager) == Some(workspace_manager)
            ==> (*final(package_manager) == *old(package_manager) && *final(build_command) == *old(build_command)
            && *final(commands) == *old(commands)),
        follows_workspace(subdir, app_has_package_json, app_has_lockfile) && *old(package_manager) != Some(workspace_manager)
            ==> *final(package_manager) == Some(workspace_manager) && match *old(package_manager) {
            Some(m) => opt_text(*final(build_command)) == rewrite_spec(opt_text(*old(build_command)), m, workspace_manager)
                && opt_text(final(commands).build) == rewrite_spec(opt_text(old(commands).build), m, workspace_manager),
            None => *final(build_command) == *old(build_command) && final(commands).build == old(commands).build,
        },
        final(commands).install == old(commands).install,
        final(commands).start == old(commands).start,
        final(commands).after_deploy == old(commands).after_deploy,
{
    let applies = match subdir {
        Some(s) => s.unicode_len() > 0,
        None => false,
    };
    if !applies || !app_has_package_json || app_has_lockfile {
        return;
    }
    let current = *package_manager;
    if current == Some(workspace_manager) {
        return;
    }
    *package_manager = Some(workspace_manager);
    if let Some(m) = current {
        let b = build_command.take();
        *build_command = rewrite_package_manager_command(b, m, workspace_manager);
        let cb = commands.build.take();
        commands.build = rewrite_package_manager_command(cb, m, workspace_manager);
    }
}

} // verus!
