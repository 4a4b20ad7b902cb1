//! The static Node provider: which static-site generator a project uses
//! and where its build writes the site.
use vstd::prelude::*;
use crate::json::{get, JsonValue};
use crate::event::text_views;
use crate::node::{
    regex_is_match, regex_match, check_package_json_deps, detect_from_words, found, found_deps_spec, has_dependency, has_dependency_from_opt,
    has_dependency_major, has_dependency_major_spec, is_package_manager_build_command, manager_build_prefixes,
    non_empty, package_scripts, script_commands, script_commands_spec, script_named, script_named_exec, scripts_of,
    split_command, split_command_spec, NodeFramework,
};
use crate::text::{chars_of, contains_seq, contains_str, eq_str, has_prefix, push_str};

verus! {

/// The dependencies that mark a static-site generator.
pub open spec fn static_framework_dependencies() -> Seq<Seq<char>> {
    seq!["@angular/cli"@, "@11ty/eleventy"@, "@ionic/angular"@, "@ionic/react"@, "@stencil/core"@, "@vue/cli-service"@, "brunch"@, "ember-cli"@, "ember-source"@, "vitepress"@, "vuepress"@, "hexo"@, "hexo-cli"@, "metalsmith"@, "assemble"@, "grunt-assemble"@, "harp"@, "parcel"@, "polymer-cli"@, "preact-cli"@, "docusaurus"@, "@docusaurus/core"@, "react-scripts"@, "umi"@, "@sveltejs/kit"@, "sanity"@, "storybook"@, "astro"@, "vite"@, "next"@, "nuxt"@, "gatsby"@, "svelte"@, "@remix-run/dev"@, "@remix-run/vite"@]
}

/// The dependencies that mark a static-site generator.
pub fn static_framework_dependency_names() -> (r: Vec<&'static str>)
    ensures
        r@.map_values(|d: &str| d@) == static_framework_dependencies(),
{
    let mut v: Vec<&'static str> = Vec::new();
    v.push("@angular/cli");
    v.push("@11ty/eleventy");
    v.push("@ionic/angular");
    v.push("@ionic/react");
    v.push("@stencil/core");
    v.push("@vue/cli-service");
    v.push("brunch");
    v.push("ember-cli");
    v.push("ember-source");
    v.push("vitepress");
    v.push("vuepress");
    v.push("hexo");
    v.push("hexo-cli");
    v.push("metalsmith");
    v.push("assemble");
    v.push("grunt-assemble");
    v.push("harp");
    v.push("parcel");
    v.push("polymer-cli");
    v.push("preact-cli");
    v.push("docusaurus");
    v.push("@docusaurus/core");
    v.push("react-scripts");
    v.push("umi");
    v.push("@sveltejs/kit");
    v.push("sanity");
    v.push("storybook");
    v.push("astro");
    v.push("vite");
    v.push("next");
    v.push("nuxt");
    v.push("gatsby");
    v.push("svelte");
    v.push("@remix-run/dev");
    v.push("@remix-run/vite");
    assert(v@.map_values(|d: &str| d@) =~= static_framework_dependencies());
    v
}

/// The dependencies that make an app need a server at runtime.
pub open spec fn runtime_dependencies() -> Seq<Seq<char>> {
    seq!["@astrojs/node"@, "@sveltejs/adapter-node"@, "@react-router/dev"@, "@react-router/serve"@, "@remix-run/serve"@, "@tanstack/react-start"@, "@solidjs/start"@, "solid-start"@, "nitropack"@, "@shopify/hydrogen"@, "@shopify/remix-oxygen"@, "@redwoodjs/core"@, "@elysia/node"@, "elysia"@]
}

/// Does a found dependency need a server at runtime?
pub fn has_runtime_dependency(found_deps: &Vec<String>) -> (r: bool)
    ensures
        r == exists|i: int| 0 <= i < runtime_dependencies().len() && crate::event::text_views(found_deps@).contains(
            #[trigger] runtime_dependencies()[i],
        ),
{
    let mut v: Vec<&'static str> = Vec::new();
    v.push("@astrojs/node");
    v.push("@sveltejs/adapter-node");
    v.push("@react-router/dev");
    v.push("@react-router/serve");
    v.push("@remix-run/serve");
    v.push("@tanstack/react-start");
    v.push("@solidjs/start");
    v.push("solid-start");
    v.push("nitropack");
    v.push("@shopify/hydrogen");
    v.push("@shopify/remix-oxygen");
    v.push("@redwoodjs/core");
    v.push("@elysia/node");
    v.push("elysia");
    assert(v@.map_values(|d: &str| d@) =~= runtime_dependencies());
    let mut i: usize = 0;
    while i < v.len()
        invariant
            0 <= i <= v@.len(),
            v@.map_values(|d: &str| d@) == runtime_dependencies(),
            forall|j: int| 0 <= j < i ==> !crate::event::text_views(found_deps@).contains(#[trigger] runtime_dependencies()[j]),
        decreases v@.len() - i,
    {
        assert(runtime_dependencies()[i as int] == v@[i as int]@);
        if found(found_deps, v[i]) {
            return true;
        }
        i = i + 1;
    }
    false
}

/// The static-site generator of a project, from the dependencies found,
/// `package.json` (for version checks) and whether a Vite config file
/// exists: the first rule that applies decides.
pub open spec fn static_framework_spec(found: Seq<Seq<char>>, pj: Option<JsonValue>, vite_config: bool) -> Option<NodeFramework> {
    if found.contains("harp"@) {
        Some(NodeFramework::Harp)
    } else if found.contains("gatsby"@) {
        Some(NodeFramework::Gatsby)
    } else if found.contains("astro"@) {
        Some(NodeFramework::Astro)
    } else if found.contains("next"@) {
        Some(NodeFramework::Next)
    } else if found.contains("nuxt"@) {
        if has_dependency_from_opt(pj, "nuxt"@, Some("2"@)) || has_dependency_from_opt(pj, "nuxt"@, Some("1"@)) {
            Some(NodeFramework::NuxtOld)
        } else {
            Some(NodeFramework::NuxtV3)
        }
    } else if found.contains("vitepress"@) {
        Some(NodeFramework::Vitepress)
    } else if found.contains("vuepress"@) {
        Some(NodeFramework::Vuepress)
    } else if found.contains("hexo"@) || found.contains("hexo-cli"@) {
        Some(NodeFramework::Hexo)
    } else if found.contains("metalsmith"@) {
        Some(NodeFramework::Metalsmith)
    } else if found.contains("assemble"@) || found.contains("grunt-assemble"@) {
        Some(NodeFramework::Assemble)
    } else if found.contains("docusaurus"@) {
        Some(NodeFramework::DocusaurusOld)
    } else if found.contains("@docusaurus/core"@) {
        Some(NodeFramework::Docusaurus)
    } else if found.contains("sanity"@) {
        if has_dependency_major_spec(pj, "sanity"@, 3) {
            Some(NodeFramework::SanityV3)
        } else {
            Some(NodeFramework::Sanity)
        }
    } else if found.contains("@ionic/angular"@) {
        Some(NodeFramework::IonicAngular)
    } else if found.contains("@ionic/react"@) {
        Some(NodeFramework::IonicReact)
    } else if found.contains("@angular/cli"@) {
        Some(NodeFramework::Angular)
    } else if found.contains("react-scripts"@) {
        Some(NodeFramework::CreateReactApp)
    } else if found.contains("brunch"@) {
        Some(NodeFramework::Brunch)
    } else if found.contains("ember-cli"@) || found.contains("ember-source"@) {
        Some(NodeFramework::Ember)
    } else if found.contains("parcel"@) {
        Some(NodeFramework::Parcel)
    } else if found.contains("polymer-cli"@) {
        Some(NodeFramework::Polymer)
    } else if found.contains("preact-cli"@) {
        Some(NodeFramework::Preact)
    } else if found.contains("@stencil/core"@) {
        Some(NodeFramework::Stencil)
    } else if found.contains("umi"@) {
        Some(NodeFramework::Umijs)
    } else if found.contains("@vue/cli-service"@) {
        Some(NodeFramework::Vue)
    } else if found.contains("@11ty/eleventy"@) {
        Some(NodeFramework::Eleventy)
    } else if found.contains("@sveltejs/kit"@) {
        Some(NodeFramework::Sveltekit)
    } else if found.contains("svelte"@) {
        Some(NodeFramework::Svelte)
    } else if found.contains("@remix-run/dev"@) {
        if has_dependency_from_opt(pj, "@remix-run/dev"@, Some("1"@)) || has_dependency_from_opt(pj, "@remix-run/dev"@, Some("0"@)) {
            Some(NodeFramework::RemixOld)
        } else if found.contains("@remix-run/vite"@) || found.contains("vite"@) || vite_config {
            Some(NodeFramework::RemixV2)
        } else {
            Some(NodeFramework::RemixV2Classic)
        }
    } else if found.contains("vite"@) {
        Some(NodeFramework::Vite)
    } else if found.contains("storybook"@) {
        Some(NodeFramework::Storybook)
    } else {
        None
    }
}

/// Remix builds with Vite when Vite is a dependency or configured.
fn has_vite_remix(found_deps: &Vec<String>, vite_config: bool) -> (r: bool)
    ensures
        r == (crate::event::text_views(found_deps@).contains("@remix-run/vite"@) || crate::event::text_views(
            found_deps@,
        ).contains("vite"@) || vite_config),
{
    found(found_deps, "@remix-run/vite") || found(found_deps, "vite") || vite_config
}

/// The static-site generator of a project (see `static_framework_spec`).
pub fn detect_static_framework(package_json: Option<&JsonValue>, found_deps: &Vec<String>, vite_config: bool) -> (r: Option<NodeFramework>)
    ensures
        r == static_framework_spec(crate::event::text_views(found_deps@), match package_json {
            Some(j) => Some(*j),
            None => None,
        }, vite_config),
{
    if found(found_deps, "harp") {
        return Some(NodeFramework::Harp);
    }
    if found(found_deps, "gatsby") {
        return Some(NodeFramework::Gatsby);
    }
    if found(found_deps, "astro") {
        return Some(NodeFramework::Astro);
    }
    if found(found_deps, "next") {
        return Some(NodeFramework::Next);
    }
    if found(found_deps, "nuxt") {
        if has_dependency(package_json, "nuxt", Some("2")) || has_dependency(package_json, "nuxt", Some("1")) {
            return Some(NodeFramework::NuxtOld);
        }
        return Some(NodeFramework::NuxtV3);
    }
    if found(found_deps, "vitepress") {
        return Some(NodeFramework::Vitepress);
    }
    if found(found_deps, "vuepress") {
        return Some(NodeFramework::Vuepress);
    }
    if found(found_deps, "hexo") || found(found_deps, "hexo-cli") {
        return Some(NodeFramework::Hexo);
    }
    if found(found_deps, "metalsmith") {
        return Some(NodeFramework::Metalsmith);
    }
    if found(found_deps, "assemble") || found(found_deps, "grunt-assemble") {
        return Some(NodeFramework::Assemble);
    }
    if found(found_deps, "docusaurus") {
        return Some(NodeFramework::DocusaurusOld);
    }
    if found(found_deps, "@docusaurus/core") {
        return Some(NodeFramework::Docusaurus);
    }
    if found(found_deps, "sanity") {
        if has_dependency_major(package_json, "sanity", 3) {
            return Some(NodeFramework::SanityV3);
        }
        return Some(NodeFramework::Sanity);
    }
    if found(found_deps, "@ionic/angular") {
        return Some(NodeFramework::IonicAngular);
    }
    if found(found_deps, "@ionic/react") {
        return Some(NodeFramework::IonicReact);
    }
    if found(found_deps, "@angular/cli") {
        return Some(NodeFramework::Angular);
    }
    if found(found_deps, "react-scripts") {
        return Some(NodeFramework::CreateReactApp);
    }
    if found(found_deps, "brunch") {
        return Some(NodeFramework::Brunch);
    }
    if found(found_deps, "ember-cli") || found(found_deps, "ember-source") {
        return Some(NodeFramework::Ember);
    }
    if found(found_deps, "parcel") {
        return Some(NodeFramework::Parcel);
    }
    if found(found_deps, "polymer-cli") {
        return Some(NodeFramework::Polymer);
    }
    if found(found_deps, "preact-cli") {
        return Some(NodeFramework::Preact);
    }
    if found(found_deps, "@stencil/core") {
        return Some(NodeFramework::Stencil);
    }
    if found(found_deps, "umi") {
        return Some(NodeFramework::Umijs);
    }
    if found(found_deps, "@vue/cli-service") {
        return Some(NodeFramework::Vue);
    }
    if found(found_deps, "@11ty/eleventy") {
        return Some(NodeFramework::Eleventy);
    }
    if found(found_deps, "@sveltejs/kit") {
        return Some(NodeFramework::Sveltekit);
    }
    if found(found_deps, "svelte") {
        return Some(NodeFramework::Svelte);
    }
    if found(found_deps, "@remix-run/dev") {
        if has_dependency(package_json, "@remix-run/dev", Some("1")) || has_dependency(package_json, "@remix-run/dev", Some("0")) {
            return Some(NodeFramework::RemixOld);
        }
        if has_vite_remix(found_deps, vite_config) {
            return Some(NodeFramework::RemixV2);
        }
        return Some(NodeFramework::RemixV2Classic);
    }
    if found(found_deps, "vite") {
        return Some(NodeFramework::Vite);
    }
    if found(found_deps, "storybook") {
        return Some(NodeFramework::Storybook);
    }
    None
}

// ---------------------------------------------------------------------------
// Scripts

/// The build scripts, else the generate/export/docs:build fallbacks.
pub open spec fn static_script_commands_spec(pj: Option<JsonValue>, preferred: Seq<Seq<char>>) -> Seq<Seq<char>> {
    let commands = script_commands_spec(scripts_of(pj), preferred);
    if commands.len() == 0 {
        script_commands_spec(scripts_of(pj), seq!["generate"@, "export"@, "docs:build"@])
    } else {
        commands
    }
}

fn fallback_names() -> (r: Vec<&'static str>)
    ensures
        r@.map_values(|d: &str| d@) == seq!["generate"@, "export"@, "docs:build"@],
{
    let mut v: Vec<&'static str> = Vec::new();
    v.push("generate");
    v.push("export");
    v.push("docs:build");
    assert(v@.map_values(|d: &str| d@) =~= seq!["generate"@, "export"@, "docs:build"@]);
    v
}

/// The commands of the build scripts, falling back to the generate,
/// export and docs:build scripts when there is none.
pub fn static_script_commands(package_json: Option<&JsonValue>, preferred: &Vec<&str>) -> (r: Vec<String>)
    ensures
        crate::event::text_views(r@) == static_script_commands_spec(match package_json {
            Some(j) => Some(*j),
            None => None,
        }, preferred@.map_values(|p: &str| p@)),
{
    let commands = script_commands(package_json, preferred);
    if commands.len() == 0 {
        return script_commands(package_json, &fallback_names());
    }
    commands
}

fn build_names() -> (r: Vec<&'static str>)
    ensures
        r@.map_values(|d: &str| d@) == seq!["build"@],
{
    let mut v: Vec<&'static str> = Vec::new();
    v.push("build");
    assert(v@.map_values(|d: &str| d@) =~= seq!["build"@]);
    v
}

/// The words after the first occurrence of `executable` in a command.
pub open spec fn args_after_spec(words: Seq<Seq<char>>, executable: Seq<char>) -> Seq<Seq<char>>
    decreases words.len(),
{
    if words.len() == 0 {
        seq![]
    } else if words[0] == executable {
        words.drop_first()
    } else {
        args_after_spec(words.drop_first(), executable)
    }
}

/// The arguments given to `executable` in a command.
pub fn args_after_command(command: &str, executable: &str) -> (r: Vec<String>)
    ensures
        crate::event::text_views(r@) == args_after_spec(split_command_spec(command@), executable@),
{
    let tokens = split_command(command);
    let ghost ws = split_command_spec(command@);
    let mut i: usize = 0;
    assert(ws.skip(0) =~= ws);
    while i < tokens.len()
        invariant
            0 <= i <= tokens@.len(),
            ws == crate::event::text_views(tokens@),
            ws == split_command_spec(command@),
            args_after_spec(ws, executable@) == args_after_spec(ws.skip(i as int), executable@),
        decreases tokens@.len() - i,
    {
        let ghost rest = ws.skip(i as int);
        assert(rest[0] == tokens@[i as int]@);
        assert(rest.drop_first() =~= ws.skip(i + 1));
        if eq_str(tokens[i].as_str(), executable) {
            let mut r: Vec<String> = Vec::new();
            let mut j = i + 1;
            while j < tokens.len()
                invariant
                    i < j <= tokens@.len(),
                    ws == crate::event::text_views(tokens@),
                    crate::event::text_views(r@) == ws.subrange(i + 1, j as int),
                decreases tokens@.len() - j,
            {
                let ghost before = r@;
                r.push(tokens[j].clone());
                assert(crate::event::text_views(r@) =~= crate::event::text_views(before).push(tokens@[j as int]@));
                assert(ws.subrange(i + 1, j + 1) =~= ws.subrange(i + 1, j as int).push(ws[j as int]));
                j = j + 1;
            }
            assert(ws.subrange(i + 1, ws.len() as int) =~= rest.drop_first());
            return r;
        }
        i = i + 1;
    }
    assert(ws.skip(i as int) =~= Seq::<Seq<char>>::empty());
    Vec::new()
}

// ---------------------------------------------------------------------------
// Output directories

/// An output directory as written in a config: trimmed, without trailing
/// slashes or a leading `./`; `.` when nothing is left.
pub open spec fn clean_output_dir_spec(d: Seq<char>) -> Seq<char> {
    let t = crate::text::trim_end_by(crate::text::trim(d), crate::text::char_pred('/'));
    let u = if has_prefix_dot_slash(t) { t.skip(2) } else { t };
    if u.len() == 0 {
        seq!['.']
    } else {
        u
    }
}

pub open spec fn has_prefix_dot_slash(t: Seq<char>) -> bool {
    t.len() >= 2 && t[0] == '.' && t[1] == '/'
}

/// Normalize an output directory.
pub fn clean_output_dir(output_dir: &str) -> (r: String)
    ensures
        r@ == clean_output_dir_spec(output_dir@),
{
    let trimmed = crate::text::trim_str(output_dir);
    let v = chars_of(trimmed.as_str());
    let mut end = v.len();
    assert(v@.subrange(0, v@.len() as int) =~= v@);
    while end > 0 && v[end - 1] == '/'
        invariant
            0 <= end <= v@.len(),
            crate::text::trim_end_by(v@, crate::text::char_pred('/')) == crate::text::trim_end_by(
                v@.subrange(0, end as int),
                crate::text::char_pred('/'),
            ),
        decreases end,
    {
        assert(v@.subrange(0, end as int).drop_last() =~= v@.subrange(0, end - 1));
        end = end - 1;
    }
    let ghost t = v@.subrange(0, end as int);
    assert(crate::text::trim_end_by(t, crate::text::char_pred('/')) == t);
    let start: usize = if end >= 2 && v[0] == '.' && v[1] == '/' { 2 } else { 0 };
    if start == 0 {
        assert(t.skip(0) =~= t);
    }
    assert(v@.subrange(start as int, end as int) =~= (if has_prefix_dot_slash(t) { t.skip(2) } else { t }));
    if start == end {
        let mut r = String::new();
        crate::text::push_char(&mut r, '.');
        assert(r@ =~= seq!['.']);
        return r;
    }
    crate::text::string_of_range(&v, start, end)
}

/// `<root>/<output_dir>`, or the output directory alone under `.`.
pub open spec fn rooted_output_dir_spec(root: Seq<char>, output_dir: Seq<char>) -> Seq<char> {
    let r = clean_output_dir_spec(root);
    if r == seq!['.'] {
        output_dir
    } else {
        r + seq!['/'] + output_dir
    }
}

/// The output directory under a docs root.
pub fn rooted_output_dir(root: &str, output_dir: &str) -> (r: String)
    ensures
        r@ == rooted_output_dir_spec(root@, output_dir@),
{
    let r = clean_output_dir(root);
    let rc = chars_of(r.as_str());
    if rc.len() == 1 && rc[0] == '.' {
        assert(rc@ =~= seq!['.']);
        return output_dir.to_owned();
    }
    assert(rc@ != seq!['.']);
    let mut out = r;
    crate::text::push_char(&mut out, '/');
    push_str(&mut out, output_dir);
    out
}

/// `docs` when a docs directory (or its config directory) exists, else `.`.
pub fn default_docs_root(docs_config_exists: bool, docs_exists: bool) -> (r: String)
    ensures
        r@ == (if docs_config_exists || docs_exists { "docs"@ } else { "."@ }),
{
    if docs_config_exists || docs_exists {
        "docs".to_owned()
    } else {
        ".".to_owned()
    }
}

/// The first argument after `<executable> build` that is not an option.
pub open spec fn build_root_of(args: Seq<Seq<char>>) -> Option<Seq<char>>
    decreases args.len(),
{
    if args.len() == 0 {
        None
    } else if args[0].len() > 0 && args[0][0] == '-' {
        build_root_of(args.drop_first())
    } else {
        Some(clean_output_dir_spec(args[0]))
    }
}

pub open spec fn script_root_from(commands: Seq<Seq<char>>, executable: Seq<char>) -> Option<Seq<char>>
    decreases commands.len(),
{
    if commands.len() == 0 {
        None
    } else {
        let args = args_after_spec(split_command_spec(commands[0]), executable);
        if args.len() > 0 && args[0] == "build"@ && build_root_of(args.drop_first()) is Some {
            build_root_of(args.drop_first())
        } else {
            script_root_from(commands.drop_first(), executable)
        }
    }
}

fn first_positional(args: &Vec<String>, from: usize) -> (r: Option<String>)
    requires
        from <= args@.len(),
    ensures
        match build_root_of(crate::event::text_views(args@).skip(from as int)) {
            Some(d) => r matches Some(s) && s@ == d,
            None => r is None,
        },
{
    let ghost ws = crate::event::text_views(args@);
    let mut i = from;
    while i < args.len()
        invariant
            from <= i <= args@.len(),
            ws == crate::event::text_views(args@),
            build_root_of(ws.skip(from as int)) == build_root_of(ws.skip(i as int)),
        decreases args@.len() - i,
    {
        let ghost rest = ws.skip(i as int);
        assert(rest[0] == args@[i as int]@);
        assert(rest.drop_first() =~= ws.skip(i + 1));
        let c = chars_of(args[i].as_str());
        if !(c.len() > 0 && c[0] == '-') {
            return Some(clean_output_dir(args[i].as_str()));
        }
        i = i + 1;
    }
    assert(ws.skip(i as int) =~= Seq::<Seq<char>>::empty());
    None
}

/// The root a build script passes to `<executable> build`, if any.
pub fn script_build_root(package_json: Option<&JsonValue>, executable: &str) -> (r: Option<String>)
    ensures
        match script_root_from(static_script_commands_spec(match package_json {
            Some(j) => Some(*j),
            None => None,
        }, seq!["build"@]), executable@) {
            Some(d) => r matches Some(s) && s@ == d,
            None => r is None,
        },
{
    let commands = static_script_commands(package_json, &build_names());
    let ghost cs = crate::event::text_views(commands@);
    let mut i: usize = 0;
    assert(cs.skip(0) =~= cs);
    while i < commands.len()
        invariant
            0 <= i <= commands@.len(),
            cs == crate::event::text_views(commands@),
            cs == static_script_commands_spec(match package_json {
                Some(j) => Some(*j),
                None => None,
            }, seq!["build"@]),
            script_root_from(cs, executable@) == script_root_from(cs.skip(i as int), executable@),
        decreases commands@.len() - i,
    {
        let ghost rest = cs.skip(i as int);
        assert(rest[0] == commands@[i as int]@);
        assert(rest.drop_first() =~= cs.skip(i + 1));
        let args = args_after_command(commands[i].as_str(), executable);
        if args.len() > 0 && eq_str(args[0].as_str(), "build") {
            let ghost aw = crate::event::text_views(args@);
            assert(aw[0] == args@[0]@);
            assert(aw.drop_first() =~= aw.skip(1));
            if let Some(root) = first_positional(&args, 1) {
                return Some(root);
            }
        }
        i = i + 1;
    }
    assert(cs.skip(i as int) =~= Seq::<Seq<char>>::empty());
    None
}

// ---------------------------------------------------------------------------
// Detection

/// Every Node framework.
pub open spec fn all_frameworks() -> Seq<NodeFramework> {
    seq![NodeFramework::Angular, NodeFramework::Next, NodeFramework::Astro, NodeFramework::Brunch, NodeFramework::CreateReactApp, NodeFramework::Vite, NodeFramework::Gatsby, NodeFramework::Eleventy, NodeFramework::Ember, NodeFramework::Vitepress, NodeFramework::Vuepress, NodeFramework::Hexo, NodeFramework::IonicAngular, NodeFramework::IonicReact, NodeFramework::Metalsmith, NodeFramework::Assemble, NodeFramework::Harp, NodeFramework::Parcel, NodeFramework::Polymer, NodeFramework::Preact, NodeFramework::Stencil, NodeFramework::DocusaurusOld, NodeFramework::Docusaurus, NodeFramework::Svelte, NodeFramework::Sveltekit, NodeFramework::Umijs, NodeFramework::Vue, NodeFramework::Remix, NodeFramework::NuxtOld, NodeFramework::NuxtV3, NodeFramework::RemixOld, NodeFramework::RemixV2, NodeFramework::RemixV2Classic, NodeFramework::ReactRouter, NodeFramework::Nitro, NodeFramework::Solidstart, NodeFramework::TanstackStart, NodeFramework::Hydrogen, NodeFramework::Hono, NodeFramework::Express, NodeFramework::H3, NodeFramework::Koa, NodeFramework::Nestjs, NodeFramework::Elysia, NodeFramework::Fastify, NodeFramework::Xmcp, NodeFramework::Mastra, NodeFramework::Sanity, NodeFramework::SanityV3, NodeFramework::Storybook]
}

fn all_framework_list() -> (r: [NodeFramework; 50])
    ensures
        r@ == all_frameworks(),
{
    let a = [
        NodeFramework::Angular,
        NodeFramework::Next,
        NodeFramework::Astro,
        NodeFramework::Brunch,
        NodeFramework::CreateReactApp,
        NodeFramework::Vite,
        NodeFramework::Gatsby,
        NodeFramework::Eleventy,
        NodeFramework::Ember,
        NodeFramework::Vitepress,
        NodeFramework::Vuepress,
        NodeFramework::Hexo,
        NodeFramework::IonicAngular,
        NodeFramework::IonicReact,
        NodeFramework::Metalsmith,
        NodeFramework::Assemble,
        NodeFramework::Harp,
        NodeFramework::Parcel,
        NodeFramework::Polymer,
        NodeFramework::Preact,
        NodeFramework::Stencil,
        NodeFramework::DocusaurusOld,
        NodeFramework::Docusaurus,
        NodeFramework::Svelte,
        NodeFramework::Sveltekit,
        NodeFramework::Umijs,
        NodeFramework::Vue,
        NodeFramework::Remix,
        NodeFramework::NuxtOld,
        NodeFramework::NuxtV3,
        NodeFramework::RemixOld,
        NodeFramework::RemixV2,
        NodeFramework::RemixV2Classic,
        NodeFramework::ReactRouter,
        NodeFramework::Nitro,
        NodeFramework::Solidstart,
        NodeFramework::TanstackStart,
        NodeFramework::Hydrogen,
        NodeFramework::Hono,
        NodeFramework::Express,
        NodeFramework::H3,
        NodeFramework::Koa,
        NodeFramework::Nestjs,
        NodeFramework::Elysia,
        NodeFramework::Fastify,
        NodeFramework::Xmcp,
        NodeFramework::Mastra,
        NodeFramework::Sanity,
        NodeFramework::SanityV3,
        NodeFramework::Storybook,
    ];
    assert(a@ =~= all_frameworks());
    a
}

/// Dependencies that only ever build a static site.
pub open spec fn pure_static_dependencies() -> Seq<Seq<char>> {
    seq!["@angular/cli"@, "@11ty/eleventy"@, "@ionic/angular"@, "@ionic/react"@, "@stencil/core"@, "@vue/cli-service"@, "brunch"@, "ember-cli"@, "ember-source"@, "vitepress"@, "vuepress"@, "hexo"@, "hexo-cli"@, "metalsmith"@, "assemble"@, "grunt-assemble"@, "harp"@, "parcel"@, "polymer-cli"@, "preact-cli"@, "docusaurus"@, "@docusaurus/core"@, "react-scripts"@, "umi"@, "@sveltejs/kit"@, "sanity"@, "storybook"@]
}

/// Dependencies that can build a static site or a server.
pub open spec fn static_dependencies() -> Seq<Seq<char>> {
    seq!["astro"@, "vite"@, "next"@, "nuxt"@, "gatsby"@, "svelte"@, "@remix-run/dev"@]
}

/// The dependencies the detection looks for.
pub open spec fn static_detect_dependencies() -> Seq<Seq<char>> {
    static_framework_dependencies() + runtime_dependencies() + seq!["@remix-run/node"@]
}


fn pure_static_dependency_names() -> (r: Vec<&'static str>)
    ensures
        r@.map_values(|d: &str| d@) == pure_static_dependencies(),
{
    let mut v: Vec<&'static str> = Vec::new();
    v.push("@angular/cli");
    v.push("@11ty/eleventy");
    v.push("@ionic/angular");
    v.push("@ionic/react");
    v.push("@stencil/core");
    v.push("@vue/cli-service");
    v.push("brunch");
    v.push("ember-cli");
    v.push("ember-source");
    v.push("vitepress");
    v.push("vuepress");
    v.push("hexo");
    v.push("hexo-cli");
    v.push("metalsmith");
    v.push("assemble");
    v.push("grunt-assemble");
    v.push("harp");
    v.push("parcel");
    v.push("polymer-cli");
    v.push("preact-cli");
    v.push("docusaurus");
    v.push("@docusaurus/core");
    v.push("react-scripts");
    v.push("umi");
    v.push("@sveltejs/kit");
    v.push("sanity");
    v.push("storybook");
    assert(v@.map_values(|d: &str| d@) =~= pure_static_dependencies());
    v
}


fn static_dependency_names() -> (r: Vec<&'static str>)
    ensures
        r@.map_values(|d: &str| d@) == static_dependencies(),
{
    let mut v: Vec<&'static str> = Vec::new();
    v.push("astro");
    v.push("vite");
    v.push("next");
    v.push("nuxt");
    v.push("gatsby");
    v.push("svelte");
    v.push("@remix-run/dev");
    assert(v@.map_values(|d: &str| d@) =~= static_dependencies());
    v
}

fn static_detect_dependency_names() -> (r: Vec<&'static str>)
    ensures
        r@.map_values(|d: &str| d@) == static_detect_dependencies(),
{
    let mut v = static_framework_dependency_names();
    let ghost a = v@;
    v.push("@astrojs/node");
    v.push("@sveltejs/adapter-node");
    v.push("@react-router/dev");
    v.push("@react-router/serve");
    v.push("@remix-run/serve");
    v.push("@tanstack/react-start");
    v.push("@solidjs/start");
    v.push("solid-start");
    v.push("nitropack");
    v.push("@shopify/hydrogen");
    v.push("@shopify/remix-oxygen");
    v.push("@redwoodjs/core");
    v.push("@elysia/node");
    v.push("elysia");
    v.push("@remix-run/node");
    assert(v@.map_values(|d: &str| d@) =~= static_detect_dependencies());
    v
}

/// Some dependency of `list` was found.
pub open spec fn any_found(found: Seq<Seq<char>>, list: Seq<Seq<char>>) -> bool {
    exists|i: int| 0 <= i < list.len() && found.contains(#[trigger] list[i])
}

fn any_found_exec(found_deps: &Vec<String>, list: &Vec<&'static str>) -> (r: bool)
    ensures
        r == any_found(text_views(found_deps@), list@.map_values(|d: &str| d@)),
{
    let ghost l = list@.map_values(|d: &str| d@);
    let mut i: usize = 0;
    while i < list.len()
        invariant
            0 <= i <= list@.len(),
            l == list@.map_values(|d: &str| d@),
            forall|j: int| 0 <= j < i ==> !text_views(found_deps@).contains(#[trigger] l[j]),
        decreases list@.len() - i,
    {
        assert(l[i as int] == list@[i as int]@);
        if found(found_deps, list[i]) {
            return true;
        }
        i = i + 1;
    }
    false
}

/// The command runs some static-capable framework's static build.
pub open spec fn names_static_build(command: Seq<char>) -> bool {
    exists|i: int|
        0 <= i < all_frameworks().len() && (#[trigger] all_frameworks()[i]).spec_can_be_static()
            && (all_frameworks()[i].spec_build_static_command() matches Some(c) && contains_seq(command, c))
}

fn names_static_build_exec(command: &str, all: &[NodeFramework]) -> (r: bool)
    requires
        all@ == all_frameworks(),
    ensures
        r == names_static_build(command@),
{
    let mut i: usize = 0;
    while i < all.len()
        invariant
            0 <= i <= all@.len(),
            all@ == all_frameworks(),
            forall|j: int|
                0 <= j < i ==> !((#[trigger] all_frameworks()[j]).spec_can_be_static()
                    && (all_frameworks()[j].spec_build_static_command() matches Some(c) && contains_seq(command@, c))),
        decreases all@.len() - i,
    {
        let f = all[i];
        if f.can_be_static() {
            if let Some(c) = f.build_static_command() {
                if contains_str(command, c) {
                    return true;
                }
            }
        }
        i = i + 1;
    }
    false
}

/// The frameworks a command points to.
pub open spec fn command_frameworks(command: Seq<char>) -> Seq<NodeFramework> {
    detect_from_words(split_command_spec(command), 0)
}

/// A build script that makes a project static: it runs a static build, or
/// every framework it points to only builds static sites.
pub open spec fn static_script(command: Seq<char>) -> bool {
    names_static_build(command) || (command_frameworks(command).len() > 0 && forall|k: int|
        0 <= k < command_frameworks(command).len() ==> (#[trigger] command_frameworks(command)[k]).spec_is_pure_static())
}

fn all_pure_static(fs: &Vec<NodeFramework>) -> (r: bool)
    ensures
        r == forall|k: int| 0 <= k < fs@.len() ==> (#[trigger] fs@[k]).spec_is_pure_static(),
{
    let mut i: usize = 0;
    while i < fs.len()
        invariant
            0 <= i <= fs@.len(),
            forall|k: int| 0 <= k < i ==> (#[trigger] fs@[k]).spec_is_pure_static(),
        decreases fs@.len() - i,
    {
        if !fs[i].is_pure_static() {
            return false;
        }
        i = i + 1;
    }
    true
}

fn static_script_exec(command: &str, all: &[NodeFramework]) -> (r: bool)
    requires
        all@ == all_frameworks(),
    ensures
        r == static_script(command@),
{
    if names_static_build_exec(command, all) {
        return true;
    }
    let fs = NodeFramework::detect_from_command(command);
    fs.len() > 0 && all_pure_static(&fs)
}

/// The build scripts the detection reads: the static build scripts and the
/// generate/export/docs:build ones.
pub open spec fn detect_scripts(pj: Option<JsonValue>) -> Seq<Seq<char>> {
    static_script_commands_spec(pj, seq!["build"@]) + script_commands_spec(scripts_of(pj), seq!["generate"@, "export"@, "docs:build"@])
}

fn some_static_script(commands: &Vec<String>, all: &[NodeFramework]) -> (r: bool)
    requires
        all@ == all_frameworks(),
    ensures
        r == exists|i: int| 0 <= i < commands@.len() && static_script(#[trigger] text_views(commands@)[i]),
{
    let mut i: usize = 0;
    while i < commands.len()
        invariant
            0 <= i <= commands@.len(),
            all@ == all_frameworks(),
            forall|j: int| 0 <= j < i ==> !static_script(#[trigger] text_views(commands@)[j]),
        decreases commands@.len() - i,
    {
        if static_script_exec(commands[i].as_str(), all) {
            assert(static_script(text_views(commands@)[i as int]));
            return true;
        }
        i = i + 1;
    }
    false
}

/// `output: "export"` (or with single quotes) in a Next config.
pub open spec fn next_export_pattern() -> Seq<char> {
    "\\boutput\\s*:\\s*['\"]export['\"]"@
}

/// Some Next config text sets a static export.
pub open spec fn next_exports_static(config_texts: Seq<Seq<char>>) -> bool {
    exists|i: int| 0 <= i < config_texts.len() && regex_match(next_export_pattern(), #[trigger] config_texts[i])
}

/// Whether one of the Next config files' texts sets a static export.
pub fn next_config_exports_static(config_texts: &Vec<String>) -> (r: bool)
    ensures
        r == next_exports_static(text_views(config_texts@)),
{
    let mut i: usize = 0;
    while i < config_texts.len()
        invariant
            0 <= i <= config_texts@.len(),
            forall|j: int| 0 <= j < i ==> !regex_match(next_export_pattern(), #[trigger] text_views(config_texts@)[j]),
        decreases config_texts@.len() - i,
    {
        if regex_is_match("\\boutput\\s*:\\s*['\"]export['\"]", config_texts[i].as_str()) {
            assert(regex_match(next_export_pattern(), text_views(config_texts@)[i as int]));
            return true;
        }
        i = i + 1;
    }
    false
}

/// Why a project looks like a static Node site.
#[derive(Debug, Clone, Copy, PartialEq, Eq, Structural)]
pub enum NodeStaticEvidence {
    Strong,
    Weak,
}

/// A Remix app whose `public/index.html` is served statically by its start
/// script.
pub open spec fn static_remix_output(pj: Option<JsonValue>, public_index_html: bool) -> bool {
    let start = match script_named(scripts_of(pj), "start"@) {
        Some(s) => s,
        None => seq![],
    };
    public_index_html && contains_seq(start, "serve"@) && contains_seq(start, "public"@)
}

/// Why a project looks like a static Node site, from `package.json`, the
/// custom build command, whether a Hydrogen config exists, whether
/// `public/index.html` exists and whether a Next config sets a static
/// export. Runtime dependencies rule it out, as does `@remix-run/node`
/// without a static Remix output; a static build command, a build script
/// of static frameworks or a static export is strong evidence, static
/// dependencies alone are strong when all only build static sites and weak
/// otherwise, and a package-manager build command is weak.
pub open spec fn node_static_evidence_spec(
    pj: Option<JsonValue>,
    build: Option<Seq<char>>,
    has_hydrogen_config: bool,
    public_index_html: bool,
    next_export: bool,
) -> Option<NodeStaticEvidence> {
    let found = found_deps_spec(pj, static_detect_dependencies());
    let b = match build {
        Some(c) => if c.len() > 0 { Some(c) } else { None },
        None => None,
    };
    if any_found(found, runtime_dependencies()) || has_hydrogen_config {
        None
    } else if found.contains("@remix-run/node"@) && !static_remix_output(pj, public_index_html) {
        None
    } else if b matches Some(c) && names_static_build(c) {
        Some(NodeStaticEvidence::Strong)
    } else if b matches Some(c) && command_frameworks(c).len() > 0 && !command_frameworks(c).contains(NodeFramework::Next) {
        Some(NodeStaticEvidence::Strong)
    } else if found.contains("next"@) && next_export {
        Some(NodeStaticEvidence::Strong)
    } else if exists|i: int| 0 <= i < detect_scripts(pj).len() && static_script(#[trigger] detect_scripts(pj)[i]) {
        Some(NodeStaticEvidence::Strong)
    } else if any_found(found, pure_static_dependencies()) && !any_found(found, static_dependencies()) {
        Some(NodeStaticEvidence::Strong)
    } else if any_found(found, static_dependencies()) {
        Some(NodeStaticEvidence::Weak)
    } else if b matches Some(c) && exists|i: int| 0 <= i < 7 && has_prefix(c, #[trigger] manager_build_prefixes()[i]) {
        Some(NodeStaticEvidence::Weak)
    } else {
        None
    }
}

fn contains_framework(fs: &Vec<NodeFramework>, f: NodeFramework) -> (r: bool)
    ensures
        r == fs@.contains(f),
{
    let mut i: usize = 0;
    while i < fs.len()
        invariant
            0 <= i <= fs@.len(),
            forall|k: int| 0 <= k < i ==> fs@[k] != f,
        decreases fs@.len() - i,
    {
        if fs[i] == f {
            return true;
        }
        i = i + 1;
    }
    false
}

fn start_serves_public(package_json: Option<&JsonValue>, public_index_html: bool) -> (r: bool)
    ensures
        r == static_remix_output(match package_json {
            Some(j) => Some(*j),
            None => None,
        }, public_index_html),
{
    let scripts = package_scripts(package_json);
    let start = match script_named_exec(&scripts, "start") {
        Some(s) => s,
        None => String::new(),
    };
    public_index_html && contains_str(start.as_str(), "serve") && contains_str(start.as_str(), "public")
}

/// Why a project looks like a static Node site (see
/// `node_static_evidence_spec`); `next_config_texts` are the texts of the
/// Next config files that exist.
pub fn detection_evidence(
    package_json: Option<&JsonValue>,
    build: &Option<String>,
    has_hydrogen_config: bool,
    public_index_html: bool,
    next_config_texts: &Vec<String>,
) -> (r: Option<NodeStaticEvidence>)
    ensures
        r == node_static_evidence_spec(
            match package_json {
                Some(j) => Some(*j),
                None => None,
            },
            match build {
                Some(c) => Some(c@),
                None => None,
            },
            has_hydrogen_config,
            public_index_html,
            next_exports_static(text_views(next_config_texts@)),
        ),
{
    let ghost pj = match package_json {
        Some(j) => Some(*j),
        None => None,
    };
    let deps = static_detect_dependency_names();
    let found_deps = check_package_json_deps(package_json, &deps);
    assert(text_views(found_deps@) == found_deps_spec(pj, static_detect_dependencies()));
    if has_runtime_dependency(&found_deps) || has_hydrogen_config {
        return None;
    }
    if found(&found_deps, "@remix-run/node") && !start_serves_public(package_json, public_index_html) {
        return None;
    }
    let all = all_framework_list();
    let mut package_manager_build = false;
    if let Some(b) = non_empty(build) {
        if names_static_build_exec(b, &all) {
            return Some(NodeStaticEvidence::Strong);
        }
        let frameworks = NodeFramework::detect_from_command(b);
        if frameworks.len() > 0 && !contains_framework(&frameworks, NodeFramework::Next) {
            return Some(NodeStaticEvidence::Strong);
        }
        package_manager_build = is_package_manager_build_command(b);
    }
    if found(&found_deps, "next") && next_config_exports_static(next_config_texts) {
        return Some(NodeStaticEvidence::Strong);
    }
    let build_scripts = static_script_commands(package_json, &build_names());
    let fallback_scripts = script_commands(package_json, &fallback_names());
    let in_build = some_static_script(&build_scripts, &all);
    let in_fallback = some_static_script(&fallback_scripts, &all);
    proof {
        let d = detect_scripts(pj);
        let s1 = text_views(build_scripts@);
        let s2 = text_views(fallback_scripts@);
        assert(d =~= s1 + s2);
        if exists|i: int| 0 <= i < d.len() && static_script(#[trigger] d[i]) {
            let i = choose|i: int| 0 <= i < d.len() && static_script(#[trigger] d[i]);
            if i < s1.len() {
                assert(s1[i] == d[i]);
            } else {
                assert(s2[i - s1.len()] == d[i]);
            }
        }
        if in_build {
            let i = choose|i: int| 0 <= i < s1.len() && static_script(#[trigger] s1[i]);
            assert(d[i] == s1[i]);
        }
        if in_fallback {
            let i = choose|i: int| 0 <= i < s2.len() && static_script(#[trigger] s2[i]);
            assert(d[s1.len() + i] == s2[i]);
        }
    }
    if in_build || in_fallback {
        return Some(NodeStaticEvidence::Strong);
    }
    let has_pure = any_found_exec(&found_deps, &pure_static_dependency_names());
    let has_static = any_found_exec(&found_deps, &static_dependency_names());
    if has_pure && !has_static {
        return Some(NodeStaticEvidence::Strong);
    }
    if has_static {
        return Some(NodeStaticEvidence::Weak);
    }
    if package_manager_build {
        return Some(NodeStaticEvidence::Weak);
    }
    None
}

// ---------------------------------------------------------------------------
// Output directories from configs

pub open spec fn starts_with_dash(a: Seq<char>) -> bool {
    a.len() > 0 && a[0] == '-'
}

/// Harp's output directory from its arguments (after `compile`, when
/// given): the value of `--output`/`-o`, else the second positional
/// argument.
pub open spec fn harp_dir_from(args: Seq<Seq<char>>, i: int, positional: Seq<Seq<char>>) -> Option<Seq<char>>
    decreases args.len() - i,
{
    if i < 0 || i >= args.len() {
        if positional.len() >= 2 {
            Some(clean_output_dir_spec(positional[1]))
        } else {
            None
        }
    } else if (args[i] == "--output"@ || args[i] == "-o"@) && i + 1 < args.len() {
        Some(clean_output_dir_spec(args[i + 1]))
    } else if !starts_with_dash(args[i]) {
        harp_dir_from(args, i + 1, positional.push(args[i]))
    } else {
        harp_dir_from(args, i + 1, positional)
    }
}

pub open spec fn without_compile(args: Seq<Seq<char>>) -> Seq<Seq<char>> {
    if args.len() > 0 && args[0] == "compile"@ {
        args.drop_first()
    } else {
        args
    }
}

/// The first build command that runs `harp` with an output directory.
pub open spec fn harp_from_commands(commands: Seq<Seq<char>>) -> Option<Seq<char>>
    decreases commands.len(),
{
    if commands.len() == 0 {
        None
    } else {
        let args = args_after_spec(split_command_spec(commands[0]), "harp"@);
        match harp_dir_from(without_compile(args), 0, seq![]) {
            Some(d) => Some(d),
            None => harp_from_commands(commands.drop_first()),
        }
    }
}

pub open spec fn harp_output_dir_spec(pj: Option<JsonValue>) -> Option<Seq<char>> {
    harp_from_commands(static_script_commands_spec(pj, seq!["build"@]))
}

fn harp_dir_exec(args: &Vec<String>) -> (r: Option<String>)
    ensures
        match harp_dir_from(without_compile(text_views(args@)), 0, seq![]) {
            Some(d) => r matches Some(s) && s@ == d,
            None => r is None,
        },
{
    let ghost ws = without_compile(text_views(args@));
    let start: usize = if args.len() > 0 && eq_str(args[0].as_str(), "compile") { 1 } else { 0 };
    assert(ws =~= text_views(args@).skip(start as int));
    let mut positional: Vec<String> = Vec::new();
    assert(text_views(positional@) =~= seq![]);
    let mut i: usize = start;
    while i < args.len()
        invariant
            start <= i <= args@.len(),
            ws == text_views(args@).skip(start as int),
            ws == without_compile(text_views(args@)),
            harp_dir_from(ws, 0, seq![]) == harp_dir_from(ws, i - start, text_views(positional@)),
        decreases args@.len() - i,
    {
        let ghost k = i - start;
        assert(ws[k] == args@[i as int]@);
        let a = args[i].as_str();
        if (eq_str(a, "--output") || eq_str(a, "-o")) && i + 1 < args.len() {
            assert(ws[k + 1] == args@[i + 1]@);
            assert(harp_dir_from(ws, k, text_views(positional@)) == Some(clean_output_dir_spec(ws[k + 1])));
            return Some(clean_output_dir(args[i + 1].as_str()));
        }
        let dash = {
            let c = chars_of(a);
            c.len() > 0 && c[0] == '-'
        };
        if !dash {
            let ghost before = text_views(positional@);
            positional.push(args[i].clone());
            assert(text_views(positional@) =~= before.push(ws[k]));
        }
        i = i + 1;
    }
    if positional.len() >= 2 {
        Some(clean_output_dir(positional[1].as_str()))
    } else {
        None
    }
}

/// Harp's output directory from the build scripts.
pub fn harp_output_dir(package_json: Option<&JsonValue>) -> (r: Option<String>)
    ensures
        match harp_output_dir_spec(match package_json {
            Some(j) => Some(*j),
            None => None,
        }) {
            Some(d) => r matches Some(s) && s@ == d,
            None => r is None,
        },
{
    let names = build_names();
    let commands = static_script_commands(package_json, &names);
    let ghost cs = text_views(commands@);
    assert(names@.map_values(|p: &str| p@) == seq!["build"@]);
    assert(cs == static_script_commands_spec(match package_json {
        Some(j) => Some(*j),
        None => None,
    }, seq!["build"@]));
    let mut i: usize = 0;
    assert(cs.skip(0) =~= cs);
    while i < commands.len()
        invariant
            0 <= i <= commands@.len(),
            cs == text_views(commands@),
            cs == static_script_commands_spec(match package_json {
                Some(j) => Some(*j),
                None => None,
            }, seq!["build"@]),
            harp_from_commands(cs) == harp_from_commands(cs.skip(i as int)),
        decreases commands@.len() - i,
    {
        let ghost rest = cs.skip(i as int);
        assert(rest[0] == commands@[i as int]@);
        assert(rest.drop_first() =~= cs.skip(i + 1));
        let args = args_after_command(commands[i].as_str(), "harp");
        assert(text_views(args@) == args_after_spec(split_command_spec(rest[0]), "harp"@));
        let found = harp_dir_exec(&args);
        if let Some(d) = found {
            assert(harp_dir_from(without_compile(args_after_spec(split_command_spec(rest[0]), "harp"@)), 0, seq![]) == Some(d@));
            assert(harp_from_commands(rest) == Some(d@));
            return Some(d);
        }
        i = i + 1;
    }
    assert(cs.skip(i as int) =~= Seq::<Seq<char>>::empty());
    None
}

/// A non-empty string member of a config.
pub open spec fn nonempty_member(config: JsonValue, key: Seq<char>) -> Option<Seq<char>> {
    match config.spec_get(key) {
        Some(JsonValue::String(s)) => if s@.len() > 0 {
            Some(s@)
        } else {
            None
        },
        _ => None,
    }
}

fn nonempty_member_exec(config: &JsonValue, key: &str) -> (r: Option<String>)
    ensures
        match nonempty_member(*config, key@) {
            Some(d) => r matches Some(s) && s@ == d,
            None => r is None,
        },
{
    match get(config, key) {
        Some(JsonValue::String(s)) => if s.unicode_len() > 0 {
            Some(s.clone())
        } else {
            None
        },
        _ => None,
    }
}

/// Metalsmith's output directory from a config: `destination`, else
/// `dest`.
pub open spec fn metalsmith_dir(config: JsonValue) -> Option<Seq<char>> {
    match nonempty_member(config, "destination"@) {
        Some(d) => Some(clean_output_dir_spec(d)),
        None => match nonempty_member(config, "dest"@) {
            Some(d) => Some(clean_output_dir_spec(d)),
            None => None,
        },
    }
}

pub open spec fn first_metalsmith_dir(configs: Seq<JsonValue>) -> Option<Seq<char>>
    decreases configs.len(),
{
    if configs.len() == 0 {
        None
    } else {
        match metalsmith_dir(configs[0]) {
            Some(d) => Some(d),
            None => first_metalsmith_dir(configs.drop_first()),
        }
    }
}

/// Metalsmith's output directory from its config files that exist
/// (`metalsmith.json`, then `.metalsmith.json`, each parsed as an object).
pub fn metalsmith_output_dir(configs: &Vec<JsonValue>) -> (r: Option<String>)
    ensures
        match first_metalsmith_dir(configs@) {
            Some(d) => r matches Some(s) && s@ == d,
            None => r is None,
        },
{
    let mut i: usize = 0;
    assert(configs@.skip(0) =~= configs@);
    while i < configs.len()
        invariant
            0 <= i <= configs@.len(),
            first_metalsmith_dir(configs@) == first_metalsmith_dir(configs@.skip(i as int)),
        decreases configs@.len() - i,
    {
        let ghost rest = configs@.skip(i as int);
        assert(rest[0] == configs@[i as int]);
        assert(rest.drop_first() =~= configs@.skip(i + 1));
        if let Some(d) = nonempty_member_exec(&configs[i], "destination") {
            return Some(clean_output_dir(d.as_str()));
        }
        if let Some(d) = nonempty_member_exec(&configs[i], "dest") {
            return Some(clean_output_dir(d.as_str()));
        }
        i = i + 1;
    }
    assert(configs@.skip(i as int) =~= Seq::<JsonValue>::empty());
    None
}

/// The `dest` of an Assemble task in a Gruntfile.
pub open spec fn assemble_dest_pattern() -> Seq<char> {
    "\\bdest\\s*:\\s*['\"]([^'\"]+)['\"]"@
}

pub open spec fn first_assemble_dir(texts: Seq<Seq<char>>) -> Option<Seq<char>>
    decreases texts.len(),
{
    if texts.len() == 0 {
        None
    } else {
        match crate::python::regex_capture(assemble_dest_pattern(), texts[0]) {
            Some(d) => Some(clean_output_dir_spec(d)),
            None => first_assemble_dir(texts.drop_first()),
        }
    }
}

/// Assemble's output directory from the texts of the Gruntfiles that exist
/// (`Gruntfile.js`, then `Gruntfile.cjs`).
pub fn assemble_output_dir(texts: &Vec<String>) -> (r: Option<String>)
    ensures
        match first_assemble_dir(text_views(texts@)) {
            Some(d) => r matches Some(s) && s@ == d,
            None => r is None,
        },
{
    let ghost ts = text_views(texts@);
    let mut i: usize = 0;
    assert(ts.skip(0) =~= ts);
    while i < texts.len()
        invariant
            0 <= i <= texts@.len(),
            ts == text_views(texts@),
            first_assemble_dir(ts) == first_assemble_dir(ts.skip(i as int)),
        decreases texts@.len() - i,
    {
        let ghost rest = ts.skip(i as int);
        assert(rest[0] == texts@[i as int]@);
        assert(rest.drop_first() =~= ts.skip(i + 1));
        if let Some(d) = crate::python::regex_first_capture("\\bdest\\s*:\\s*['\"]([^'\"]+)['\"]", texts[i].as_str()) {
            return Some(clean_output_dir(d.as_str()));
        }
        i = i + 1;
    }
    assert(ts.skip(i as int) =~= Seq::<Seq<char>>::empty());
    None
}

/// An Angular `outputPath`: a non-empty string, or the `browser` (else
/// `base`) member of its object form.
pub open spec fn angular_output_path(v: Option<JsonValue>) -> Option<Seq<char>> {
    match v {
        Some(JsonValue::String(s)) => if s@.len() > 0 {
            Some(clean_output_dir_spec(s@))
        } else {
            None
        },
        Some(JsonValue::Object(m)) => match nonempty_member(JsonValue::Object(m), "browser"@) {
            Some(d) => Some(clean_output_dir_spec(d)),
            None => match nonempty_member(JsonValue::Object(m), "base"@) {
                Some(d) => Some(clean_output_dir_spec(d)),
                None => None,
            },
        },
        _ => None,
    }
}

/// The object member `key` of a value, when it is an object.
pub open spec fn object_member(v: JsonValue, key: Seq<char>) -> Option<JsonValue> {
    match v.spec_get(key) {
        Some(JsonValue::Object(m)) => Some(JsonValue::Object(m)),
        _ => None,
    }
}

/// The build output path under a project's `architect` (or `targets`)
/// table.
pub open spec fn target_output(project: JsonValue, root: Seq<char>) -> Option<Seq<char>> {
    match object_member(project, root) {
        Some(targets) => match object_member(targets, "build"@) {
            Some(build) => match object_member(build, "options"@) {
                Some(options) => angular_output_path(options.spec_get("outputPath"@)),
                None => None,
            },
            None => None,
        },
        None => None,
    }
}

pub open spec fn project_output(projects: JsonValue, name: Seq<char>) -> Option<Seq<char>> {
    match object_member(projects, name) {
        Some(project) => match target_output(project, "architect"@) {
            Some(d) => Some(d),
            None => target_output(project, "targets"@),
        },
        None => None,
    }
}

pub open spec fn first_project_output(projects: JsonValue, names: Seq<Seq<char>>) -> Option<Seq<char>>
    decreases names.len(),
{
    if names.len() == 0 {
        None
    } else {
        match project_output(projects, names[0]) {
            Some(d) => Some(d),
            None => first_project_output(projects, names.drop_first()),
        }
    }
}

/// The projects of an `angular.json` in the order they are tried: the
/// default project (when it is one of them) first, then all in order.
pub open spec fn angular_project_names(config: JsonValue, projects: JsonValue) -> Seq<Seq<char>> {
    let default = match config.spec_get("defaultProject"@) {
        Some(JsonValue::String(d)) => if projects.spec_get(d@) is Some {
            seq![d@]
        } else {
            seq![]
        },
        _ => seq![],
    };
    default + member_keys(projects)
}

/// The member names of an object, in order.
pub open spec fn member_keys(v: JsonValue) -> Seq<Seq<char>> {
    match v {
        JsonValue::Object(m) => m@.map_values(|p: (String, JsonValue)| p.0@),
        _ => seq![],
    }
}

/// The output directory an `angular.json` configures for its build.
pub open spec fn angular_output_dir_spec(config: JsonValue) -> Option<Seq<char>> {
    match object_member(config, "projects"@) {
        Some(projects) => first_project_output(projects, angular_project_names(config, projects)),
        None => None,
    }
}

fn object_member_exec<'a>(v: &'a JsonValue, key: &str) -> (r: Option<&'a JsonValue>)
    ensures
        match r {
            Some(o) => object_member(*v, key@) == Some(*o),
            None => object_member(*v, key@) is None,
        },
{
    match get(v, key) {
        Some(o) => match o {
            JsonValue::Object(_) => Some(o),
            _ => None,
        },
        None => None,
    }
}

fn angular_output_path_exec(v: Option<&JsonValue>) -> (r: Option<String>)
    ensures
        match angular_output_path(match v {
            Some(j) => Some(*j),
            None => None,
        }) {
            Some(d) => r matches Some(s) && s@ == d,
            None => r is None,
        },
{
    match v {
        Some(JsonValue::String(s)) => if s.unicode_len() > 0 {
            Some(clean_output_dir(s.as_str()))
        } else {
            None
        },
        Some(o) => match o {
            JsonValue::Object(_) => {
                if let Some(d) = nonempty_member_exec(o, "browser") {
                    return Some(clean_output_dir(d.as_str()));
                }
                match nonempty_member_exec(o, "base") {
                    Some(d) => Some(clean_output_dir(d.as_str())),
                    None => None,
                }
            },
            _ => None,
        },
        None => None,
    }
}

fn target_output_exec(project: &JsonValue, root: &str) -> (r: Option<String>)
    ensures
        match target_output(*project, root@) {
            Some(d) => r matches Some(s) && s@ == d,
            None => r is None,
        },
{
    let targets = match object_member_exec(project, root) {
        Some(t) => t,
        None => return None,
    };
    let build = match object_member_exec(targets, "build") {
        Some(b) => b,
        None => return None,
    };
    let options = match object_member_exec(build, "options") {
        Some(o) => o,
        None => return None,
    };
    angular_output_path_exec(get(options, "outputPath"))
}

fn project_output_exec(projects: &JsonValue, name: &str) -> (r: Option<String>)
    ensures
        match project_output(*projects, name@) {
            Some(d) => r matches Some(s) && s@ == d,
            None => r is None,
        },
{
    match object_member_exec(projects, name) {
        Some(project) => match target_output_exec(project, "architect") {
            Some(d) => Some(d),
            None => target_output_exec(project, "targets"),
        },
        None => None,
    }
}

/// The output directory configured in `angular.json` (parsed as an
/// object), if any.
pub fn angular_output_dir(config: &JsonValue) -> (r: Option<String>)
    ensures
        match angular_output_dir_spec(*config) {
            Some(d) => r matches Some(s) && s@ == d,
            None => r is None,
        },
{
    let projects = match object_member_exec(config, "projects") {
        Some(p) => p,
        None => return None,
    };
    let ghost names = angular_project_names(*config, *projects);
    let mut default_len: usize = 0;
    if let Some(JsonValue::String(d)) = get(config, "defaultProject") {
        if get(projects, d.as_str()).is_some() {
            default_len = 1;
            if let Some(out) = project_output_exec(projects, d.as_str()) {
                assert(names[0] == d@);
                return Some(out);
            }
            assert(names[0] == d@);
        }
    }
    let ghost keys = member_keys(*projects);
    assert(names =~= names.subrange(0, default_len as int) + keys);
    assert(first_project_output(*projects, names) == first_project_output(*projects, names.skip(default_len as int))) by {
        if default_len == 1 {
            assert(names.drop_first() =~= names.skip(1));
        } else {
            assert(names.skip(0) =~= names);
        }
    }
    assert(names.skip(default_len as int) =~= keys);
    if let JsonValue::Object(m) = projects {
        let mut i: usize = 0;
        assert(keys.skip(0) =~= keys);
        while i < m.len()
            invariant
                0 <= i <= m@.len(),
                *projects == JsonValue::Object(*m),
                angular_output_dir_spec(*config) == first_project_output(*projects, names),
                keys == m@.map_values(|p: (String, JsonValue)| p.0@),
                first_project_output(*projects, names) == first_project_output(*projects, keys.skip(i as int)),
            decreases m@.len() - i,
        {
            let ghost rest = keys.skip(i as int);
            assert(rest[0] == m@[i as int].0@);
            assert(rest.drop_first() =~= keys.skip(i + 1));
            if let Some(out) = project_output_exec(projects, m[i].0.as_str()) {
                assert(first_project_output(*projects, rest) == Some(out@));
                return Some(out);
            }
            i = i + 1;
        }
        assert(keys.skip(i as int) =~= Seq::<Seq<char>>::empty());
    }
    None
}

/// The static output directory of a framework: read from the project's
/// config for Angular, Metalsmith, Assemble and Harp (falling back to the
/// framework's default), under the docs root for VitePress and VuePress,
/// else the default; the framework itself when it has no default.
pub open spec fn static_dir_spec(
    framework: NodeFramework,
    pj: Option<JsonValue>,
    angular_config: Option<JsonValue>,
    metalsmith_configs: Seq<JsonValue>,
    gruntfile_texts: Seq<Seq<char>>,
    docs_config_exists: bool,
    docs_exists: bool,
) -> Result<Seq<char>, NodeFramework> {
    let default = match framework.spec_get_static_output_dir() {
        Some(d) => Ok(d),
        None => Err(framework),
    };
    let configured = match framework {
        NodeFramework::Angular | NodeFramework::IonicAngular => match angular_config {
            Some(c) => angular_output_dir_spec(c),
            None => None,
        },
        NodeFramework::Metalsmith => first_metalsmith_dir(metalsmith_configs),
        NodeFramework::Assemble => first_assemble_dir(gruntfile_texts),
        NodeFramework::Harp => harp_output_dir_spec(pj),
        _ => None,
    };
    let docs_root = |exe: Seq<char>| match script_root_from(static_script_commands_spec(pj, seq!["build"@]), exe) {
        Some(r) => r,
        None => if docs_config_exists || docs_exists { "docs"@ } else { "."@ },
    };
    match framework {
        NodeFramework::Vitepress => Ok(rooted_output_dir_spec(docs_root("vitepress"@), ".vitepress/dist"@)),
        NodeFramework::Vuepress => Ok(rooted_output_dir_spec(docs_root("vuepress"@), ".vuepress/dist"@)),
        _ => match configured {
            Some(d) => Ok(d),
            None => default,
        },
    }
}

fn docs_output_dir(
    package_json: Option<&JsonValue>,
    executable: &str,
    output_dir: &str,
    docs_config_exists: bool,
    docs_exists: bool,
) -> (r: String)
    ensures
        r@ == rooted_output_dir_spec(
            match script_root_from(static_script_commands_spec(match package_json {
                Some(j) => Some(*j),
                None => None,
            }, seq!["build"@]), executable@) {
                Some(root) => root,
                None => if docs_config_exists || docs_exists { "docs"@ } else { "."@ },
            },
            output_dir@,
        ),
{
    let root = match script_build_root(package_json, executable) {
        Some(r) => r,
        None => default_docs_root(docs_config_exists, docs_exists),
    };
    rooted_output_dir(root.as_str(), output_dir)
}

/// The static output directory of a framework (see `static_dir_spec`):
/// `angular_config` is `angular.json` parsed as an object,
/// `metalsmith_configs` the Metalsmith configs that exist (parsed as
/// objects), `gruntfile_texts` the Gruntfiles' texts, and the docs facts
/// whether `docs/.vitepress` (or `docs/.vuepress`) and `docs` exist.
pub fn get_static_dir(
    framework: NodeFramework,
    package_json: Option<&JsonValue>,
    angular_config: Option<&JsonValue>,
    metalsmith_configs: &Vec<JsonValue>,
    gruntfile_texts: &Vec<String>,
    docs_config_exists: bool,
    docs_exists: bool,
) -> (r: Result<String, NodeFramework>)
    ensures
        match static_dir_spec(
            framework,
            match package_json {
                Some(j) => Some(*j),
                None => None,
            },
            match angular_config {
                Some(j) => Some(*j),
                None => None,
            },
            metalsmith_configs@,
            text_views(gruntfile_texts@),
            docs_config_exists,
            docs_exists,
        ) {
            Ok(d) => r matches Ok(s) && s@ == d,
            Err(f) => r == Err::<String, NodeFramework>(f),
        },
{
    let configured = match framework {
        NodeFramework::Angular | NodeFramework::IonicAngular => match angular_config {
            Some(c) => angular_output_dir(c),
            None => None,
        },
        NodeFramework::Metalsmith => metalsmith_output_dir(metalsmith_configs),
        NodeFramework::Assemble => assemble_output_dir(gruntfile_texts),
        NodeFramework::Harp => harp_output_dir(package_json),
        NodeFramework::Vitepress => {
            return Ok(docs_output_dir(package_json, "vitepress", ".vitepress/dist", docs_config_exists, docs_exists));
        },
        NodeFramework::Vuepress => {
            return Ok(docs_output_dir(package_json, "vuepress", ".vuepress/dist", docs_config_exists, docs_exists));
        },
        _ => None,
    };
    match configured {
        Some(d) => Ok(d),
        None => match framework.get_static_output_dir() {
            Some(d) => Ok(d.to_owned()),
            None => Err(framework),
        },
    }
}

/// One line of a `Staticfile`: a `key: value` line records that the file
/// configures something, and a `root` key sets (or, empty, clears) the
/// root; blank lines and comments are skipped.
pub open spec fn staticfile_step(st: (bool, Option<Seq<char>>), raw: Seq<char>) -> (bool, Option<Seq<char>>) {
    let t = crate::text::trim(raw);
    let i = crate::text::first_char_index(t, ':');
    if t.len() == 0 || t[0] == '#' || i < 0 {
        st
    } else if crate::text::trim(t.subrange(0, i)) == "root"@ {
        let v = match crate::install_context::yaml_scalar_spec(t.subrange(i + 1, t.len() as int)) {
            Some(v) => v,
            None => seq![],
        };
        (true, if v.len() == 0 { None } else { Some(v) })
    } else {
        (true, st.1)
    }
}

pub open spec fn staticfile_fold(lines: Seq<Seq<char>>) -> (bool, Option<Seq<char>>)
    decreases lines.len(),
{
    if lines.len() == 0 {
        (false, None)
    } else {
        staticfile_step(staticfile_fold(lines.drop_last()), lines.last())
    }
}

/// What a `Staticfile` configures: nothing when no line is a `key:
/// value`, else its `root` (if any).
pub open spec fn staticfile_root_spec(text: Seq<char>) -> Option<Option<Seq<char>>> {
    let st = staticfile_fold(crate::install_context::text_lines(text));
    if st.0 {
        Some(st.1)
    } else {
        None
    }
}

/// The root a `Staticfile`'s text configures (see `staticfile_root_spec`).
pub fn staticfile_config_root(text: &str) -> (r: Option<Option<String>>)
    ensures
        match staticfile_root_spec(text@) {
            None => r is None,
            Some(None) => r == Some(None::<String>),
            Some(Some(root)) => (r matches Some(Some(s)) && s@ == root),
        },
{
    let lines = crate::install_context::text_lines_exec(text);
    let ghost ls = text_views(lines@);
    let mut any_key = false;
    let mut root: Option<String> = None;
    let mut i: usize = 0;
    while i < lines.len()
        invariant
            0 <= i <= lines@.len(),
            ls == text_views(lines@),
            staticfile_fold(ls.subrange(0, i as int)) == (any_key, crate::node::opt_text(root)),
        decreases lines@.len() - i,
    {
        let ghost prefix = ls.subrange(0, i + 1);
        assert(prefix.drop_last() =~= ls.subrange(0, i as int));
        assert(prefix.last() == lines@[i as int]@);
        let trimmed = crate::text::trim_str(lines[i].as_str());
        let chars = chars_of(trimmed.as_str());
        if chars.len() > 0 && chars[0] != '#' {
            if let Some(k) = crate::text::find_char(&chars, ':') {
                any_key = true;
                let key = crate::text::trim_str(crate::text::string_of_range(&chars, 0, k).as_str());
                if eq_str(key.as_str(), "root") {
                    let value = match crate::install_context::yaml_scalar(
                        crate::text::string_of_range(&chars, k + 1, chars.len()).as_str(),
                    ) {
                        Some(v) => v,
                        None => String::new(),
                    };
                    root = if value.unicode_len() == 0 {
                        None
                    } else {
                        Some(value)
                    };
                }
            }
        }
        i = i + 1;
    }
    assert(ls.subrange(0, lines@.len() as int) =~= ls);
    if any_key {
        Some(root)
    } else {
        None
    }
}

/// The site directory of a static site's settings: a `Staticfile` that
/// configures something sets it (even to none); otherwise `public` when it
/// holds an index page, else the environment's.
pub open spec fn static_site_dir(
    env_dir: Option<Seq<char>>,
    staticfile: Option<Option<Seq<char>>>,
    public_index: bool,
) -> Option<Seq<char>> {
    match staticfile {
        Some(root) => root,
        None => if public_index {
            Some("public"@)
        } else {
            env_dir
        },
    }
}

/// The site directory (see `static_site_dir`) from the environment's, the
/// `Staticfile`'s text (when it exists), and whether `public/index.html`
/// or `public/index.htm` exists.
pub fn static_dir_from(env_dir: Option<String>, staticfile_text: Option<&str>, public_index: bool) -> (r: Option<String>)
    ensures
        crate::node::opt_text(r) == static_site_dir(
            crate::node::opt_text(env_dir),
            match staticfile_text {
                Some(t) => match staticfile_root_spec(t@) {
                    Some(root) => Some(root),
                    None => None,
                },
                None => None,
            },
            public_index,
        ),
{
    let configured = match staticfile_text {
        Some(t) => staticfile_config_root(t),
        None => None,
    };
    match configured {
        Some(root) => root,
        None => if public_index {
            Some("public".to_owned())
        } else {
            env_dir
        },
    }
}

// ---------------------------------------------------------------------------
// Settings

/// A static Node site's settings: the shared ones, the static file
/// server's and the Node toolchain's.
#[derive(Debug, Clone, PartialEq, Eq)]
pub struct NodeStaticConfig {
    pub base: crate::base::BaseConfig,
    pub convert_redirects: bool,
    pub sws_version: Option<String>,
    pub static_dir: Option<String>,
    /// The `sws.toml` redirects rendered from a `_redirects` file.
    pub redirects_config: Option<String>,
    pub node: crate::node::NodeConfigFields,
}

pub open spec fn default_sws_version() -> Seq<char> {
    "2.38.0"@
}

impl Default for NodeStaticConfig {
    fn default() -> (r: Self)
        ensures
            r.base.port == Some(8080i64),
            r.base.name is None,
            r.convert_redirects,
            crate::node::opt_text(r.sws_version) == Some(default_sws_version()),
            r.static_dir is None,
            r.redirects_config is None,
            r.node.use_edgejs == Some(false),
            crate::node::opt_text(r.node.node_version) == Some("24"@),
    {
        let node = crate::node::NodeConfig::default();
        NodeStaticConfig {
            base: node.base,
            convert_redirects: true,
            sws_version: Some("2.38.0".to_owned()),
            static_dir: None,
            redirects_config: None,
            node: node.node,
        }
    }
}

/// The first error among the static site's overrides: the Node ones, then
/// `convert_redirects`.
pub open spec fn node_static_env_error(env: Seq<(Seq<char>, Seq<char>)>) -> Option<Seq<char>> {
    match crate::node::node_env_error(env) {
        Some(m) => Some(m),
        None => match crate::base::bool_override(env, "convert_redirects"@) {
            Err(m) => Some(m),
            Ok(_) => None,
        },
    }
}

impl NodeStaticConfig {
    /// The static site's settings over `base`, read from the environment.
    pub fn from_env(base: crate::base::BaseConfig, env: &Vec<(String, String)>) -> (r: Result<NodeStaticConfig, String>)
        ensures
            match node_static_env_error(crate::env_map::pairs_view(env@)) {
                Some(m) => (r matches Err(e) && e@ == m),
                None => (r matches Ok(c) && c.base == base && crate::node::node_fields_from_env(
                    crate::env_map::pairs_view(env@),
                    c.node,
                ) && c.convert_redirects == crate::node::bool_or(
                    crate::base::bool_override(crate::env_map::pairs_view(env@), "convert_redirects"@),
                    true,
                ) && crate::node::opt_text(c.sws_version) == Some(
                    match crate::base::str_override(crate::env_map::pairs_view(env@), "sws_version"@) {
                        Some(v) => v,
                        None => default_sws_version(),
                    },
                ) && crate::node::opt_text(c.static_dir) == crate::base::str_override(
                    crate::env_map::pairs_view(env@),
                    "static_dir"@,
                ) && crate::node::opt_text(c.redirects_config) == crate::base::str_override(
                    crate::env_map::pairs_view(env@),
                    "redirects_config"@,
                )),
            },
    {
        let node = match crate::node::NodeConfig::from_env(base, env) {
            Ok(n) => n,
            Err(e) => return Err(e),
        };
        let convert_redirects = match crate::base::env_bool(env, "convert_redirects") {
            Ok(Some(b)) => b,
            Ok(None) => true,
            Err(e) => return Err(e),
        };
        let sws_version = match crate::base::env_str(env, "sws_version") {
            Some(v) => Some(v),
            None => Some("2.38.0".to_owned()),
        };
        let static_dir = crate::base::env_str(env, "static_dir");
        let redirects_config = crate::base::env_str(env, "redirects_config");
        Ok(NodeStaticConfig { base: node.base, convert_redirects, sws_version, static_dir, redirects_config, node: node.node })
    }
}

impl crate::base::HasBase for NodeStaticConfig {
    fn base(&self) -> &crate::base::BaseConfig {
        &self.base
    }

    fn base_mut(&mut self) -> &mut crate::base::BaseConfig {
        &mut self.base
    }
}

/// The dependencies whose presence makes `static_framework_spec` name a framework.
pub open spec fn static_framework_marker(f: NodeFramework, name: Seq<char>) -> bool {
    match f {
        NodeFramework::Harp => name == "harp"@,
        NodeFramework::Gatsby => name == "gatsby"@,
        NodeFramework::Astro => name == "astro"@,
        NodeFramework::Next => name == "next"@,
        NodeFramework::NuxtOld | NodeFramework::NuxtV3 => name == "nuxt"@,
        NodeFramework::Vitepress => name == "vitepress"@,
        NodeFramework::Vuepress => name == "vuepress"@,
        NodeFramework::Hexo => name == "hexo"@ || name == "hexo-cli"@,
        NodeFramework::Metalsmith => name == "metalsmith"@,
        NodeFramework::Assemble => name == "assemble"@ || name == "grunt-assemble"@,
        NodeFramework::DocusaurusOld => name == "docusaurus"@,
        NodeFramework::Docusaurus => name == "@docusaurus/core"@,
        NodeFramework::Sanity | NodeFramework::SanityV3 => name == "sanity"@,
        NodeFramework::IonicAngular => name == "@ionic/angular"@,
        NodeFramework::IonicReact => name == "@ionic/react"@,
        NodeFramework::Angular => name == "@angular/cli"@,
        NodeFramework::CreateReactApp => name == "react-scripts"@,
        NodeFramework::Brunch => name == "brunch"@,
        NodeFramework::Ember => name == "ember-cli"@ || name == "ember-source"@,
        NodeFramework::Parcel => name == "parcel"@,
        NodeFramework::Polymer => name == "polymer-cli"@,
        NodeFramework::Preact => name == "preact-cli"@,
        NodeFramework::Stencil => name == "@stencil/core"@,
        NodeFramework::Umijs => name == "umi"@,
        NodeFramework::Vue => name == "@vue/cli-service"@,
        NodeFramework::Eleventy => name == "@11ty/eleventy"@,
        NodeFramework::Sveltekit => name == "@sveltejs/kit"@,
        NodeFramework::Svelte => name == "svelte"@,
        NodeFramework::RemixOld | NodeFramework::RemixV2 | NodeFramework::RemixV2Classic => name == "@remix-run/dev"@,
        NodeFramework::Vite => name == "vite"@,
        NodeFramework::Storybook => name == "storybook"@,
        _ => false,
    }
}

/// The static-site generator detected is always one whose own dependency
/// was found, and one is detected whenever any such dependency is found;
/// Gatsby is detected for a Gatsby site unless Harp, which is checked
/// first, is there too.
pub proof fn law_static_framework_follows_its_dependency(found: Seq<Seq<char>>, pj: Option<JsonValue>, vite_config: bool)
    ensures
        static_framework_spec(found, pj, vite_config) matches Some(f) ==> (exists|name: Seq<char>| found.contains(name) && #[trigger] static_framework_marker(f, name)),
        (exists|f: NodeFramework, name: Seq<char>| found.contains(name) && #[trigger] static_framework_marker(f, name)) ==> static_framework_spec(found, pj, vite_config) is Some,
        found.contains("gatsby"@) && !found.contains("harp"@) ==> static_framework_spec(found, pj, vite_config) == Some(NodeFramework::Gatsby),
{
    if found.contains("harp"@) {
        assert(static_framework_marker(NodeFramework::Harp, "harp"@));
    } else if found.contains("gatsby"@) {
        assert(static_framework_marker(NodeFramework::Gatsby, "gatsby"@));
    } else if found.contains("astro"@) {
        assert(static_framework_marker(NodeFramework::Astro, "astro"@));
    } else if found.contains("next"@) {
        assert(static_framework_marker(NodeFramework::Next, "next"@));
    } else if found.contains("nuxt"@) {
        assert(static_framework_marker(NodeFramework::NuxtOld, "nuxt"@));
        assert(static_framework_marker(NodeFramework::NuxtV3, "nuxt"@));
    } else if found.contains("vitepress"@) {
        assert(static_framework_marker(NodeFramework::Vitepress, "vitepress"@));
    } else if found.contains("vuepress"@) {
        assert(static_framework_marker(NodeFramework::Vuepress, "vuepress"@));
    } else if found.contains("hexo"@) || found.contains("hexo-cli"@) {
        if found.contains("hexo"@) {
            assert(static_framework_marker(NodeFramework::Hexo, "hexo"@));
        } else if found.contains("hexo-cli"@) {
            assert(static_framework_marker(NodeFramework::Hexo, "hexo-cli"@));
        }
    } else if found.contains("metalsmith"@) {
        assert(static_framework_marker(NodeFramework::Metalsmith, "metalsmith"@));
    } else if found.contains("assemble"@) || found.contains("grunt-assemble"@) {
        if found.contains("assemble"@) {
            assert(static_framework_marker(NodeFramework::Assemble, "assemble"@));
        } else if found.contains("grunt-assemble"@) {
            assert(static_framework_marker(NodeFramework::Assemble, "grunt-assemble"@));
        }
    } else if found.contains("docusaurus"@) {
        assert(static_framework_marker(NodeFramework::DocusaurusOld, "docusaurus"@));
    } else if found.contains("@docusaurus/core"@) {
        assert(static_framework_marker(NodeFramework::Docusaurus, "@docusaurus/core"@));
    } else if found.contains("sanity"@) {
        assert(static_framework_marker(NodeFramework::Sanity, "sanity"@));
        assert(static_framework_marker(NodeFramework::SanityV3, "sanity"@));
    } else if found.contains("@ionic/angular"@) {
        assert(static_framework_marker(NodeFramework::IonicAngular, "@ionic/angular"@));
    } else if found.contains("@ionic/react"@) {
        assert(static_framework_marker(NodeFramework::IonicReact, "@ionic/react"@));
    } else if found.contains("@angular/cli"@) {
        assert(static_framework_marker(NodeFramework::Angular, "@angular/cli"@));
    } else if found.contains("react-scripts"@) {
        assert(static_framework_marker(NodeFramework::CreateReactApp, "react-scripts"@));
    } else if found.contains("brunch"@) {
        assert(static_framework_marker(NodeFramework::Brunch, "brunch"@));
    } else if found.contains("ember-cli"@) || found.contains("ember-source"@) {
        if found.contains("ember-cli"@) {
            assert(static_framework_marker(NodeFramework::Ember, "ember-cli"@));
        } else if found.contains("ember-source"@) {
            assert(static_framework_marker(NodeFramework::Ember, "ember-source"@));
        }
    } else if found.contains("parcel"@) {
        assert(static_framework_marker(NodeFramework::Parcel, "parcel"@));
    } else if found.contains("polymer-cli"@) {
        assert(static_framework_marker(NodeFramework::Polymer, "polymer-cli"@));
    } else if found.contains("preact-cli"@) {
        assert(static_framework_marker(NodeFramework::Preact, "preact-cli"@));
    } else if found.contains("@stencil/core"@) {
        assert(static_framework_marker(NodeFramework::Stencil, "@stencil/core"@));
    } else if found.contains("umi"@) {
        assert(static_framework_marker(NodeFramework::Umijs, "umi"@));
    } else if found.contains("@vue/cli-service"@) {
        assert(static_framework_marker(NodeFramework::Vue, "@vue/cli-service"@));
    } else if found.contains("@11ty/eleventy"@) {
        assert(static_framework_marker(NodeFramework::Eleventy, "@11ty/eleventy"@));
    } else if found.contains("@sveltejs/kit"@) {
        assert(static_framework_marker(NodeFramework::Sveltekit, "@sveltejs/kit"@));
    } else if found.contains("svelte"@) {
        assert(static_framework_marker(NodeFramework::Svelte, "svelte"@));
    } else if found.contains("@remix-run/dev"@) {
        assert(static_framework_marker(NodeFramework::RemixOld, "@remix-run/dev"@));
        assert(static_framework_marker(NodeFramework::RemixV2, "@remix-run/dev"@));
        assert(static_framework_marker(NodeFramework::RemixV2Classic, "@remix-run/dev"@));
    } else if found.contains("vite"@) {
        assert(static_framework_marker(NodeFramework::Vite, "vite"@));
    } else if found.contains("storybook"@) {
        assert(static_framework_marker(NodeFramework::Storybook, "storybook"@));
    } else {
        assert forall|f: NodeFramework, name: Seq<char>| found.contains(name) implies !#[trigger] static_framework_marker(f, name) by {
            match f {
                NodeFramework::Angular => {},
                NodeFramework::Next => {},
                NodeFramework::Astro => {},
                NodeFramework::Brunch => {},
                NodeFramework::CreateReactApp => {},
                NodeFramework::Vite => {},
                NodeFramework::Gatsby => {},
                NodeFramework::Eleventy => {},
                NodeFramework::Ember => {},
                NodeFramework::Vitepress => {},
                NodeFramework::Vuepress => {},
                NodeFramework::Hexo => {},
                NodeFramework::IonicAngular => {},
                NodeFramework::IonicReact => {},
                NodeFramework::Metalsmith => {},
                NodeFramework::Assemble => {},
                NodeFramework::Harp => {},
                NodeFramework::Parcel => {},
                NodeFramework::Polymer => {},
                NodeFramework::Preact => {},
                NodeFramework::Stencil => {},
                NodeFramework::DocusaurusOld => {},
                NodeFramework::Docusaurus => {},
                NodeFramework::Svelte => {},
                NodeFramework::Sveltekit => {},
                NodeFramework::Umijs => {},
                NodeFramework::Vue => {},
                NodeFramework::Remix => {},
                NodeFramework::NuxtOld => {},
                NodeFramework::NuxtV3 => {},
                NodeFramework::RemixOld => {},
                NodeFramework::RemixV2 => {},
                NodeFramework::RemixV2Classic => {},
                NodeFramework::ReactRouter => {},
                NodeFramework::Nitro => {},
                NodeFramework::Solidstart => {},
                NodeFramework::TanstackStart => {},
                NodeFramework::Hydrogen => {},
                NodeFramework::Hono => {},
                NodeFramework::Express => {},
                NodeFramework::H3 => {},
                NodeFramework::Koa => {},
                NodeFramework::Nestjs => {},
                NodeFramework::Elysia => {},
                NodeFramework::Fastify => {},
                NodeFramework::Xmcp => {},
                NodeFramework::Mastra => {},
                NodeFramework::Sanity => {},
                NodeFramework::SanityV3 => {},
                NodeFramework::Storybook => {},
            }
        }
    }
}


/// A framework whose output directory no project file can move writes
/// its static site where its build command always does: the directory is
/// the framework's default whatever the project holds (Create React App's
/// `react-scripts build` writes `build`, Gatsby's `gatsby build` writes
/// `public`, and so on), and a framework with no static build has none.
pub proof fn law_static_dir_follows_build_tool(
    pj: Option<JsonValue>,
    angular_config: Option<JsonValue>,
    metalsmith_configs: Seq<JsonValue>,
    gruntfile_texts: Seq<Seq<char>>,
    docs_config_exists: bool,
    docs_exists: bool,
)
    ensures
        forall|f: NodeFramework| !(f is Angular || f is IonicAngular || f is Metalsmith || f is Assemble || f is Harp || f is Vitepress || f is Vuepress)
            ==> #[trigger] static_dir_spec(f, pj, angular_config, metalsmith_configs, gruntfile_texts, docs_config_exists, docs_exists) == match f.spec_get_static_output_dir() {
                Some(d) => Ok::<Seq<char>, NodeFramework>(d),
                None => Err(f),
            },
        static_dir_spec(NodeFramework::Next, pj, angular_config, metalsmith_configs, gruntfile_texts, docs_config_exists, docs_exists) == Ok::<Seq<char>, NodeFramework>("out"@)
            && NodeFramework::Next.spec_build_static_command() == Some("next export"@),
        static_dir_spec(NodeFramework::Eleventy, pj, angular_config, metalsmith_configs, gruntfile_texts, docs_config_exists, docs_exists) == Ok::<Seq<char>, NodeFramework>("_site"@)
            && NodeFramework::Eleventy.spec_build_static_command() == Some("@11ty/eleventy"@),
        static_dir_spec(NodeFramework::NuxtV3, pj, angular_config, metalsmith_configs, gruntfile_texts, docs_config_exists, docs_exists) == Ok::<Seq<char>, NodeFramework>(".output/public"@)
            && NodeFramework::NuxtV3.spec_build_static_command() == Some("nuxi generate"@),
        static_dir_spec(NodeFramework::Astro, pj, angular_config, metalsmith_configs, gruntfile_texts, docs_config_exists, docs_exists) == Ok::<Seq<char>, NodeFramework>("dist"@)
            && NodeFramework::Astro.spec_build_static_command() == Some("astro build"@),
        static_dir_spec(NodeFramework::Brunch, pj, angular_config, metalsmith_configs, gruntfile_texts, docs_config_exists, docs_exists) == Ok::<Seq<char>, NodeFramework>("public"@)
            && NodeFramework::Brunch.spec_build_static_command() == Some("brunch build --production"@),
        static_dir_spec(NodeFramework::CreateReactApp, pj, angular_config, metalsmith_configs, gruntfile_texts, docs_config_exists, docs_exists) == Ok::<Seq<char>, NodeFramework>("build"@)
            && NodeFramework::CreateReactApp.spec_build_static_command() == Some("react-scripts build"@),
        static_dir_spec(NodeFramework::Ember, pj, angular_config, metalsmith_configs, gruntfile_texts, docs_config_exists, docs_exists) == Ok::<Seq<char>, NodeFramework>("dist"@)
            && NodeFramework::Ember.spec_build_static_command() == Some("ember build"@),
        static_dir_spec(NodeFramework::Vite, pj, angular_config, metalsmith_configs, gruntfile_texts, docs_config_exists, docs_exists) == Ok::<Seq<char>, NodeFramework>("dist"@)
            && NodeFramework::Vite.spec_build_static_command() == Some("vite build"@),
        static_dir_spec(NodeFramework::NuxtOld, pj, angular_config, metalsmith_configs, gruntfile_texts, docs_config_exists, docs_exists) == Ok::<Seq<char>, NodeFramework>("dist"@)
            && NodeFramework::NuxtOld.spec_build_static_command() == Some("nuxt generate"@),
        static_dir_spec(NodeFramework::Gatsby, pj, angular_config, metalsmith_configs, gruntfile_texts, docs_config_exists, docs_exists) == Ok::<Seq<char>, NodeFramework>("public"@)
            && NodeFramework::Gatsby.spec_build_static_command() == Some("gatsby build"@),
        static_dir_spec(NodeFramework::Hexo, pj, angular_config, metalsmith_configs, gruntfile_texts, docs_config_exists, docs_exists) == Ok::<Seq<char>, NodeFramework>("public"@)
            && NodeFramework::Hexo.spec_build_static_command() == Some("hexo generate"@),
        static_dir_spec(NodeFramework::IonicReact, pj, angular_config, metalsmith_configs, gruntfile_texts, docs_config_exists, docs_exists) == Ok::<Seq<char>, NodeFramework>("dist"@)
            && NodeFramework::IonicReact.spec_build_static_command() == Some("vite build"@),
        static_dir_spec(NodeFramework::RemixOld, pj, angular_config, metalsmith_configs, gruntfile_texts, docs_config_exists, docs_exists) == Ok::<Seq<char>, NodeFramework>("build/client"@)
            && NodeFramework::RemixOld.spec_build_static_command() == Some("remix-ssg build"@),
        static_dir_spec(NodeFramework::Remix, pj, angular_config, metalsmith_configs, gruntfile_texts, docs_config_exists, docs_exists) == Ok::<Seq<char>, NodeFramework>("build/client"@)
            && NodeFramework::Remix.spec_build_static_command() == Some("remix build"@),
        static_dir_spec(NodeFramework::RemixV2, pj, angular_config, metalsmith_configs, gruntfile_texts, docs_config_exists, docs_exists) == Ok::<Seq<char>, NodeFramework>("build/client"@)
            && NodeFramework::RemixV2.spec_build_static_command() == Some("vite build"@),
        static_dir_spec(NodeFramework::RemixV2Classic, pj, angular_config, metalsmith_configs, gruntfile_texts, docs_config_exists, docs_exists) == Ok::<Seq<char>, NodeFramework>("public"@)
            && NodeFramework::RemixV2Classic.spec_build_static_command() == Some("remix build"@),
        static_dir_spec(NodeFramework::Parcel, pj, angular_config, metalsmith_configs, gruntfile_texts, docs_config_exists, docs_exists) == Ok::<Seq<char>, NodeFramework>("dist"@)
            && NodeFramework::Parcel.spec_build_static_command() == Some("parcel build"@),
        static_dir_spec(NodeFramework::Polymer, pj, angular_config, metalsmith_configs, gruntfile_texts, docs_config_exists, docs_exists) == Ok::<Seq<char>, NodeFramework>("build/default"@)
            && NodeFramework::Polymer.spec_build_static_command() == Some("polymer build"@),
        static_dir_spec(NodeFramework::Preact, pj, angular_config, metalsmith_configs, gruntfile_texts, docs_config_exists, docs_exists) == Ok::<Seq<char>, NodeFramework>("build"@)
            && NodeFramework::Preact.spec_build_static_command() == Some("preact build"@),
        static_dir_spec(NodeFramework::Stencil, pj, angular_config, metalsmith_configs, gruntfile_texts, docs_config_exists, docs_exists) == Ok::<Seq<char>, NodeFramework>("www"@)
            && NodeFramework::Stencil.spec_build_static_command() == Some("stencil build"@),
        static_dir_spec(NodeFramework::Docusaurus, pj, angular_config, metalsmith_configs, gruntfile_texts, docs_config_exists, docs_exists) == Ok::<Seq<char>, NodeFramework>("build"@)
            && NodeFramework::Docusaurus.spec_build_static_command() == Some("docusaurus build"@),
        static_dir_spec(NodeFramework::DocusaurusOld, pj, angular_config, metalsmith_configs, gruntfile_texts, docs_config_exists, docs_exists) == Ok::<Seq<char>, NodeFramework>("build"@)
            && NodeFramework::DocusaurusOld.spec_build_static_command() == Some("docusaurus build"@),
        static_dir_spec(NodeFramework::Svelte, pj, angular_config, metalsmith_configs, gruntfile_texts, docs_config_exists, docs_exists) == Ok::<Seq<char>, NodeFramework>("build"@)
            && NodeFramework::Svelte.spec_build_static_command() == Some("svelte-kit build"@),
        static_dir_spec(NodeFramework::Sveltekit, pj, angular_config, metalsmith_configs, gruntfile_texts, docs_config_exists, docs_exists) == Ok::<Seq<char>, NodeFramework>("build"@)
            && NodeFramework::Sveltekit.spec_build_static_command() == Some("svelte-kit build"@),
        static_dir_spec(NodeFramework::Umijs, pj, angular_config, metalsmith_configs, gruntfile_texts, docs_config_exists, docs_exists) == Ok::<Seq<char>, NodeFramework>("dist"@)
            && NodeFramework::Umijs.spec_build_static_command() == Some("umi build"@),
        static_dir_spec(NodeFramework::Vue, pj, angular_config, metalsmith_configs, gruntfile_texts, docs_config_exists, docs_exists) == Ok::<Seq<char>, NodeFramework>("dist"@)
            && NodeFramework::Vue.spec_build_static_command() == Some("vue-cli-service build"@),
        static_dir_spec(NodeFramework::Sanity, pj, angular_config, metalsmith_configs, gruntfile_texts, docs_config_exists, docs_exists) == Ok::<Seq<char>, NodeFramework>("dist"@)
            && NodeFramework::Sanity.spec_build_static_command() == Some("sanity build"@),
        static_dir_spec(NodeFramework::SanityV3, pj, angular_config, metalsmith_configs, gruntfile_texts, docs_config_exists, docs_exists) == Ok::<Seq<char>, NodeFramework>("dist"@)
            && NodeFramework::SanityV3.spec_build_static_command() == Some("sanity build"@),
        static_dir_spec(NodeFramework::Storybook, pj, angular_config, metalsmith_configs, gruntfile_texts, docs_config_exists, docs_exists) == Ok::<Seq<char>, NodeFramework>("storybook-static"@)
            && NodeFramework::Storybook.spec_build_static_command() == Some("storybook build"@),
{
}

} // verus!
