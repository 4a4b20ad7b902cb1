//! The Node provider: package managers, frameworks, and what a
//! `package.json` says about how a project builds and starts.
//!
//! The file system is read by the caller; the functions here decide from
//! what was read (`package.json` as a JSON value, which files exist).
use vstd::prelude::*;
use crate::base::{bool_override, env_value_spec, invalid_value_text, str_override};
use crate::json::{get, member_of, JsonValue};
use crate::text::{
    chars_of, eq_str, has_prefix, push_str, starts_with_str, trim, trim_str, words, words_exec,
};

verus! {

// ---------------------------------------------------------------------------
// Errors

/// Why a Node command could not be made.
#[derive(Debug, Clone, PartialEq, Eq)]
pub enum NodeError {
    /// A text that contains a NUL byte cannot be quoted for a shell.
    UnquotableBuildCommand,
    UnquotableEntryFile,
}

// ---------------------------------------------------------------------------
// Shell words

/// How `shlex` splits a command line into words (none for unbalanced
/// quotes or a trailing escape).
pub uninterp spec fn shlex_words(command: Seq<char>) -> Option<Seq<Seq<char>>>;

/// `shlex::split`: POSIX shell-like word splitting; none when quotes are
/// unbalanced or the text ends in an escape.
#[verifier::external_body]
fn shlex_split(command: &str) -> (r: Option<Vec<String>>)
    ensures
        match shlex_words(command@) {
            Some(ws) => r matches Some(v) && crate::event::text_views(v@) == ws,
            None => r is None,
        },
{
    shlex::split(command)
}

/// How `shlex` quotes a word for a shell.
pub uninterp spec fn shlex_quoted(word: Seq<char>) -> Seq<char>;

/// `shlex::try_quote`: the word quoted for a POSIX shell; an error exactly
/// when the word contains a NUL character.
#[verifier::external_body]
fn shlex_quote(word: &str) -> (r: Option<String>)
    ensures
        crate::text::contains_char(word@, '\0') <==> r is None,
        r matches Some(q) ==> q@ == shlex_quoted(word@),
{
    shlex::try_quote(word).ok().map(|quoted| quoted.into_owned())
}

/// The words of a command: shell-like splitting, or plain whitespace
/// splitting when the quoting is broken.
pub open spec fn split_command_spec(command: Seq<char>) -> Seq<Seq<char>> {
    match shlex_words(command) {
        Some(ws) => ws,
        None => words(command),
    }
}

/// Split a command line into words.
pub fn split_command(command: &str) -> (r: Vec<String>)
    ensures
        crate::event::text_views(r@) == split_command_spec(command@),
{
    match shlex_split(command) {
        Some(v) => v,
        None => {
            let ws = words_exec(&chars_of(command));
            let mut r: Vec<String> = Vec::new();
            let mut i: usize = 0;
            while i < ws.len()
                invariant
                    0 <= i <= ws@.len(),
                    crate::event::text_views(r@) == crate::text::views(ws@.subrange(0, i as int)),
                decreases ws@.len() - i,
            {
                let ghost before = r@;
                r.push(crate::text::string_of(&ws[i]));
                assert(crate::event::text_views(r@) =~= crate::event::text_views(before).push(ws@[i as int]@));
                assert(crate::text::views(ws@.subrange(0, i + 1)) =~= crate::text::views(ws@.subrange(0, i as int)).push(ws@[i as int]@));
                i = i + 1;
            }
            assert(ws@.subrange(0, ws@.len() as int) =~= ws@);
            r
        },
    }
}

// ---------------------------------------------------------------------------
// Package managers

#[derive(Debug, Clone, Copy, PartialEq, Eq, Structural)]
pub enum PackageManager {
    Npm,
    Pnpm,
    Yarn,
    Bun,
}

impl PackageManager {
    pub open spec fn spec_value(self) -> Seq<char> {
        match self {
            PackageManager::Npm => "npm"@,
            PackageManager::Pnpm => "pnpm"@,
            PackageManager::Yarn => "yarn"@,
            PackageManager::Bun => "bun"@,
        }
    }

    /// The package manager's command name.
    pub fn value(self) -> (r: &'static str)
        ensures
            r@ == self.spec_value(),
    {
        match self {
            PackageManager::Npm => "npm",
            PackageManager::Pnpm => "pnpm",
            PackageManager::Yarn => "yarn",
            PackageManager::Bun => "bun",
        }
    }

    pub open spec fn spec_from_name(name: Seq<char>) -> Option<PackageManager> {
        if name == "npm"@ {
            Some(PackageManager::Npm)
        } else if name == "pnpm"@ {
            Some(PackageManager::Pnpm)
        } else if name == "yarn"@ {
            Some(PackageManager::Yarn)
        } else if name == "bun"@ {
            Some(PackageManager::Bun)
        } else {
            None
        }
    }

    /// The package manager with a command name.
    pub fn from_name(name: &str) -> (r: Option<PackageManager>)
        ensures
            r == Self::spec_from_name(name@),
    {
        if eq_str(name, "npm") {
            Some(PackageManager::Npm)
        } else if eq_str(name, "pnpm") {
            Some(PackageManager::Pnpm)
        } else if eq_str(name, "yarn") {
            Some(PackageManager::Yarn)
        } else if eq_str(name, "bun") {
            Some(PackageManager::Bun)
        } else {
            None
        }
    }

    pub open spec fn spec_lockfiles(self) -> Seq<Seq<char>> {
        match self {
            PackageManager::Npm => seq!["package-lock.json"@],
            PackageManager::Pnpm => seq!["pnpm-lock.yaml"@],
            PackageManager::Yarn => seq!["yarn.lock"@],
            PackageManager::Bun => seq!["bun.lock"@, "bun.lockb"@],
        }
    }

    /// The lockfiles the package manager writes.
    pub fn lockfiles(self) -> (r: Vec<&'static str>)
        ensures
            r@.len() == self.spec_lockfiles().len(),
            forall|i: int| 0 <= i < r@.len() ==> (#[trigger] r@[i])@ == self.spec_lockfiles()[i],
    {
        let mut v: Vec<&'static str> = Vec::new();
        match self {
            PackageManager::Npm => v.push("package-lock.json"),
            PackageManager::Pnpm => v.push("pnpm-lock.yaml"),
            PackageManager::Yarn => v.push("yarn.lock"),
            PackageManager::Bun => {
                v.push("bun.lock");
                v.push("bun.lockb");
            },
        }
        v
    }

    /// `<manager> run <script>`.
    pub fn run_command(self, command: &str) -> (r: String)
        ensures
            r@ == self.spec_value() + " run "@ + command@,
    {
        let mut r = self.value().to_owned();
        push_str(&mut r, " run ");
        push_str(&mut r, command);
        r
    }

    pub open spec fn spec_runner(self) -> Seq<char> {
        match self {
            PackageManager::Npm => "npx"@,
            PackageManager::Pnpm => "pnpx"@,
            PackageManager::Yarn => "ypx"@,
            PackageManager::Bun => "bunx"@,
        }
    }

    /// The command through the manager's package runner.
    pub fn run_execute_command(self, command: &str) -> (r: String)
        ensures
            r@ == self.spec_runner() + " "@ + command@,
    {
        let mut r = match self {
            PackageManager::Npm => "npx".to_owned(),
            PackageManager::Pnpm => "pnpx".to_owned(),
            PackageManager::Yarn => "ypx".to_owned(),
            PackageManager::Bun => "bunx".to_owned(),
        };
        push_str(&mut r, " ");
        push_str(&mut r, command);
        r
    }

    pub open spec fn spec_dlx(self) -> Seq<char> {
        match self {
            PackageManager::Npm => "npx -y"@,
            PackageManager::Pnpm => "pnpm dlx"@,
            PackageManager::Yarn => "yarn dlx"@,
            PackageManager::Bun => "bunx"@,
        }
    }

    /// The command run from a freshly downloaded package.
    pub fn dlx_command(self, command: &str) -> (r: String)
        ensures
            r@ == self.spec_dlx() + " "@ + command@,
    {
        let mut r = match self {
            PackageManager::Npm => "npx -y".to_owned(),
            PackageManager::Pnpm => "pnpm dlx".to_owned(),
            PackageManager::Yarn => "yarn dlx".to_owned(),
            PackageManager::Bun => "bunx".to_owned(),
        };
        push_str(&mut r, " ");
        push_str(&mut r, command);
        r
    }
}

/// The manager named by a `packageManager` field (`name@version`); the
/// name is compared in lower case.
pub open spec fn manager_of_field(field: Seq<char>) -> Option<PackageManager> {
    PackageManager::spec_from_name(crate::text::lower_seq(crate::text::before_first(field, crate::text::char_pred('@'))))
}

/// The package manager of a project: the `packageManager` field when it
/// names one, pnpm in a pnpm workspace, the first manager (npm, pnpm,
/// yarn, bun) whose lockfile exists, else npm.
pub open spec fn package_manager_spec(field: Option<Seq<char>>, pnpm_workspace: bool, present: Seq<bool>) -> PackageManager {
    let named = match field {
        Some(f) => manager_of_field(f),
        None => None,
    };
    if named is Some {
        named->0
    } else if pnpm_workspace {
        PackageManager::Pnpm
    } else if present[0] {
        PackageManager::Npm
    } else if present[1] {
        PackageManager::Pnpm
    } else if present[2] {
        PackageManager::Yarn
    } else if present[3] {
        PackageManager::Bun
    } else {
        PackageManager::Npm
    }
}

/// The package manager of a project, from its `packageManager` field,
/// whether it has a `pnpm-workspace.yaml`, and which managers' lockfiles
/// exist (in the order npm, pnpm, yarn, bun).
pub fn detect_package_manager(field: Option<&str>, pnpm_workspace: bool, has_lockfile: [bool; 4]) -> (r: PackageManager)
    ensures
        r == package_manager_spec(match field {
            Some(f) => Some(f@),
            None => None,
        }, pnpm_workspace, has_lockfile@),
{
    if let Some(f) = field {
        let v = chars_of(f);
        let mut k: usize = 0;
        assert(v@.subrange(0, v@.len() as int) =~= v@);
        assert(v@.subrange(0, 0) + v@ =~= v@);
        while k < v.len() && v[k] != '@'
            invariant
                0 <= k <= v@.len(),
                crate::text::before_first(v@, crate::text::char_pred('@')) == v@.subrange(0, k as int)
                    + crate::text::before_first(v@.subrange(k as int, v@.len() as int), crate::text::char_pred('@')),
            decreases v@.len() - k,
        {
            let ghost rest = v@.subrange(k as int, v@.len() as int);
            assert(rest.drop_first() =~= v@.subrange(k + 1, v@.len() as int));
            assert(v@.subrange(0, k + 1) =~= v@.subrange(0, k as int) + seq![rest[0]]);
            k = k + 1;
        }
        assert(crate::text::before_first(v@.subrange(k as int, v@.len() as int), crate::text::char_pred('@')) =~= seq![]);
        assert(v@.subrange(0, k as int) + Seq::<char>::empty() =~= v@.subrange(0, k as int));
        let name = crate::text::lower_vec(&crate::text::slice_vec(&v, 0, k));
        let name_s = crate::text::string_of(&name);
        assert(name_s@ == crate::text::lower_seq(crate::text::before_first(f@, crate::text::char_pred('@'))));
        if let Some(m) = PackageManager::from_name(name_s.as_str()) {
            return m;
        }
    }
    if pnpm_workspace {
        return PackageManager::Pnpm;
    }
    if has_lockfile[0] {
        return PackageManager::Npm;
    }
    if has_lockfile[1] {
        return PackageManager::Pnpm;
    }
    if has_lockfile[2] {
        return PackageManager::Yarn;
    }
    if has_lockfile[3] {
        return PackageManager::Bun;
    }
    PackageManager::Npm
}

// ---------------------------------------------------------------------------
// Frameworks

/// A Node framework, by its configuration name.
#[derive(Debug, Clone, Copy, PartialEq, Eq, Structural)]
pub enum NodeFramework {
    Angular,
    Next,
    Astro,
    Brunch,
    CreateReactApp,
    Vite,
    Gatsby,
    Eleventy,
    Ember,
    Vitepress,
    Vuepress,
    Hexo,
    IonicAngular,
    IonicReact,
    Metalsmith,
    Assemble,
    Harp,
    Parcel,
    Polymer,
    Preact,
    Stencil,
    DocusaurusOld,
    Docusaurus,
    Svelte,
    Sveltekit,
    Umijs,
    Vue,
    Remix,
    NuxtOld,
    NuxtV3,
    RemixOld,
    RemixV2,
    RemixV2Classic,
    ReactRouter,
    Nitro,
    Solidstart,
    TanstackStart,
    Hydrogen,
    Hono,
    Express,
    H3,
    Koa,
    Nestjs,
    Elysia,
    Fastify,
    Xmcp,
    Mastra,
    Sanity,
    SanityV3,
    Storybook,
}

impl NodeFramework {
    /// The configuration name of the framework.
    pub open spec fn spec_value(self) -> Seq<char> {
        match self {
            NodeFramework::Angular => "angular"@,
            NodeFramework::Next => "next"@,
            NodeFramework::Astro => "astro"@,
            NodeFramework::Brunch => "brunch"@,
            NodeFramework::CreateReactApp => "create-react-app"@,
            NodeFramework::Vite => "vite"@,
            NodeFramework::Gatsby => "gatsby"@,
            NodeFramework::Eleventy => "eleventy"@,
            NodeFramework::Ember => "ember"@,
            NodeFramework::Vitepress => "vitepress"@,
            NodeFramework::Vuepress => "vuepress"@,
            NodeFramework::Hexo => "hexo"@,
            NodeFramework::IonicAngular => "ionic-angular"@,
            NodeFramework::IonicReact => "ionic-react"@,
            NodeFramework::Metalsmith => "metalsmith"@,
            NodeFramework::Assemble => "assemble"@,
            NodeFramework::Harp => "harp"@,
            NodeFramework::Parcel => "parcel"@,
            NodeFramework::Polymer => "polymer"@,
            NodeFramework::Preact => "preact"@,
            NodeFramework::Stencil => "stencil"@,
            NodeFramework::DocusaurusOld => "docusaurus-old"@,
            NodeFramework::Docusaurus => "docusaurus"@,
            NodeFramework::Svelte => "svelte"@,
            NodeFramework::Sveltekit => "sveltekit"@,
            NodeFramework::Umijs => "umijs"@,
            NodeFramework::Vue => "vue"@,
            NodeFramework::Remix => "remix"@,
            NodeFramework::NuxtOld => "nuxt"@,
            NodeFramework::NuxtV3 => "nuxt3"@,
            NodeFramework::RemixOld => "remix-old"@,
            NodeFramework::RemixV2 => "remix-v2"@,
            NodeFramework::RemixV2Classic => "remix-v2-classic"@,
            NodeFramework::ReactRouter => "react-router"@,
            NodeFramework::Nitro => "nitro"@,
            NodeFramework::Solidstart => "solidstart"@,
            NodeFramework::TanstackStart => "tanstack-start"@,
            NodeFramework::Hydrogen => "hydrogen"@,
            NodeFramework::Hono => "hono"@,
            NodeFramework::Express => "express"@,
            NodeFramework::H3 => "h3"@,
            NodeFramework::Koa => "koa"@,
            NodeFramework::Nestjs => "nestjs"@,
            NodeFramework::Elysia => "elysia"@,
            NodeFramework::Fastify => "fastify"@,
            NodeFramework::Xmcp => "xmcp"@,
            NodeFramework::Mastra => "mastra"@,
            NodeFramework::Sanity => "sanity"@,
            NodeFramework::SanityV3 => "sanity-v3"@,
            NodeFramework::Storybook => "storybook"@,
        }
    }

    /// The configuration name of the framework.
    pub fn value(self) -> (r: &'static str)
        ensures
            r@ == self.spec_value(),
    {
        match self {
            NodeFramework::Angular => "angular",
            NodeFramework::Next => "next",
            NodeFramework::Astro => "astro",
            NodeFramework::Brunch => "brunch",
            NodeFramework::CreateReactApp => "create-react-app",
            NodeFramework::Vite => "vite",
            NodeFramework::Gatsby => "gatsby",
            NodeFramework::Eleventy => "eleventy",
            NodeFramework::Ember => "ember",
            NodeFramework::Vitepress => "vitepress",
            NodeFramework::Vuepress => "vuepress",
            NodeFramework::Hexo => "hexo",
            NodeFramework::IonicAngular => "ionic-angular",
            NodeFramework::IonicReact => "ionic-react",
            NodeFramework::Metalsmith => "metalsmith",
            NodeFramework::Assemble => "assemble",
            NodeFramework::Harp => "harp",
            NodeFramework::Parcel => "parcel",
            NodeFramework::Polymer => "polymer",
            NodeFramework::Preact => "preact",
            NodeFramework::Stencil => "stencil",
            NodeFramework::DocusaurusOld => "docusaurus-old",
            NodeFramework::Docusaurus => "docusaurus",
            NodeFramework::Svelte => "svelte",
            NodeFramework::Sveltekit => "sveltekit",
            NodeFramework::Umijs => "umijs",
            NodeFramework::Vue => "vue",
            NodeFramework::Remix => "remix",
            NodeFramework::NuxtOld => "nuxt",
            NodeFramework::NuxtV3 => "nuxt3",
            NodeFramework::RemixOld => "remix-old",
            NodeFramework::RemixV2 => "remix-v2",
            NodeFramework::RemixV2Classic => "remix-v2-classic",
            NodeFramework::ReactRouter => "react-router",
            NodeFramework::Nitro => "nitro",
            NodeFramework::Solidstart => "solidstart",
            NodeFramework::TanstackStart => "tanstack-start",
            NodeFramework::Hydrogen => "hydrogen",
            NodeFramework::Hono => "hono",
            NodeFramework::Express => "express",
            NodeFramework::H3 => "h3",
            NodeFramework::Koa => "koa",
            NodeFramework::Nestjs => "nestjs",
            NodeFramework::Elysia => "elysia",
            NodeFramework::Fastify => "fastify",
            NodeFramework::Xmcp => "xmcp",
            NodeFramework::Mastra => "mastra",
            NodeFramework::Sanity => "sanity",
            NodeFramework::SanityV3 => "sanity-v3",
            NodeFramework::Storybook => "storybook",
        }
    }

    /// The framework with a configuration name.
    pub fn from_value(value: &str) -> (r: Option<NodeFramework>)
        ensures
            r matches Some(f) ==> f.spec_value() == value@,
            r is None ==> forall|f: NodeFramework| f.spec_value() != value@,
    {
        if crate::text::eq_str(value, "angular") {
            Some(NodeFramework::Angular)
        } else if crate::text::eq_str(value, "next") {
            Some(NodeFramework::Next)
        } else if crate::text::eq_str(value, "astro") {
            Some(NodeFramework::Astro)
        } else if crate::text::eq_str(value, "brunch") {
            Some(NodeFramework::Brunch)
        } else if crate::text::eq_str(value, "create-react-app") {
            Some(NodeFramework::CreateReactApp)
        } else if crate::text::eq_str(value, "vite") {
            Some(NodeFramework::Vite)
        } else if crate::text::eq_str(value, "gatsby") {
            Some(NodeFramework::Gatsby)
        } else if crate::text::eq_str(value, "eleventy") {
            Some(NodeFramework::Eleventy)
        } else if crate::text::eq_str(value, "ember") {
            Some(NodeFramework::Ember)
        } else if crate::text::eq_str(value, "vitepress") {
            Some(NodeFramework::Vitepress)
        } else if crate::text::eq_str(value, "vuepress") {
            Some(NodeFramework::Vuepress)
        } else if crate::text::eq_str(value, "hexo") {
            Some(NodeFramework::Hexo)
        } else if crate::text::eq_str(value, "ionic-angular") {
            Some(NodeFramework::IonicAngular)
        } else if crate::text::eq_str(value, "ionic-react") {
            Some(NodeFramework::IonicReact)
        } else if crate::text::eq_str(value, "metalsmith") {
            Some(NodeFramework::Metalsmith)
        } else if crate::text::eq_str(value, "assemble") {
            Some(NodeFramework::Assemble)
        } else if crate::text::eq_str(value, "harp") {
            Some(NodeFramework::Harp)
        } else if crate::text::eq_str(value, "parcel") {
            Some(NodeFramework::Parcel)
        } else if crate::text::eq_str(value, "polymer") {
            Some(NodeFramework::Polymer)
        } else if crate::text::eq_str(value, "preact") {
            Some(NodeFramework::Preact)
        } else if crate::text::eq_str(value, "stencil") {
            Some(NodeFramework::Stencil)
        } else if crate::text::eq_str(value, "docusaurus-old") {
            Some(NodeFramework::DocusaurusOld)
        } else if crate::text::eq_str(value, "docusaurus") {
            Some(NodeFramework::Docusaurus)
        } else if crate::text::eq_str(value, "svelte") {
            Some(NodeFramework::Svelte)
        } else if crate::text::eq_str(value, "sveltekit") {
            Some(NodeFramework::Sveltekit)
        } else if crate::text::eq_str(value, "umijs") {
            Some(NodeFramework::Umijs)
        } else if crate::text::eq_str(value, "vue") {
            Some(NodeFramework::Vue)
        } else if crate::text::eq_str(value, "remix") {
            Some(NodeFramework::Remix)
        } else if crate::text::eq_str(value, "nuxt") {
            Some(NodeFramework::NuxtOld)
        } else if crate::text::eq_str(value, "nuxt3") {
            Some(NodeFramework::NuxtV3)
        } else if crate::text::eq_str(value, "remix-old") {
            Some(NodeFramework::RemixOld)
        } else if crate::text::eq_str(value, "remix-v2") {
            Some(NodeFramework::RemixV2)
        } else if crate::text::eq_str(value, "remix-v2-classic") {
            Some(NodeFramework::RemixV2Classic)
        } else if crate::text::eq_str(value, "react-router") {
            Some(NodeFramework::ReactRouter)
        } else if crate::text::eq_str(value, "nitro") {
            Some(NodeFramework::Nitro)
        } else if crate::text::eq_str(value, "solidstart") {
            Some(NodeFramework::Solidstart)
        } else if crate::text::eq_str(value, "tanstack-start") {
            Some(NodeFramework::TanstackStart)
        } else if crate::text::eq_str(value, "hydrogen") {
            Some(NodeFramework::Hydrogen)
        } else if crate::text::eq_str(value, "hono") {
            Some(NodeFramework::Hono)
        } else if crate::text::eq_str(value, "express") {
            Some(NodeFramework::Express)
        } else if crate::text::eq_str(value, "h3") {
            Some(NodeFramework::H3)
        } else if crate::text::eq_str(value, "koa") {
            Some(NodeFramework::Koa)
        } else if crate::text::eq_str(value, "nestjs") {
            Some(NodeFramework::Nestjs)
        } else if crate::text::eq_str(value, "elysia") {
            Some(NodeFramework::Elysia)
        } else if crate::text::eq_str(value, "fastify") {
            Some(NodeFramework::Fastify)
        } else if crate::text::eq_str(value, "xmcp") {
            Some(NodeFramework::Xmcp)
        } else if crate::text::eq_str(value, "mastra") {
            Some(NodeFramework::Mastra)
        } else if crate::text::eq_str(value, "sanity") {
            Some(NodeFramework::Sanity)
        } else if crate::text::eq_str(value, "sanity-v3") {
            Some(NodeFramework::SanityV3)
        } else if crate::text::eq_str(value, "storybook") {
            Some(NodeFramework::Storybook)
        } else {
            proof {
                assert forall|f: NodeFramework| f.spec_value() != value@ by {
                    match f {
                        NodeFramework::Angular => {},
                        NodeFramework::Next => {},
                        NodeFramework::Astro => {},
                        NodeFramework::Brunch => {},
                        NodeFramework::CreateReactApp => {},
                        NodeFramework::Vite => {},
                        NodeFramework::Gatsby => {},
                        NodeFramework::Eleventy => {},
                        NodeFramework::Ember => {},
                        NodeFramework::Vitepress => {},
                        NodeFramework::Vuepress => {},
                        NodeFramework::Hexo => {},
                        NodeFramework::IonicAngular => {},
                        NodeFramework::IonicReact => {},
                        NodeFramework::Metalsmith => {},
                        NodeFramework::Assemble => {},
                        NodeFramework::Harp => {},
                        NodeFramework::Parcel => {},
                        NodeFramework::Polymer => {},
                        NodeFramework::Preact => {},
                        NodeFramework::Stencil => {},
                        NodeFramework::DocusaurusOld => {},
                        NodeFramework::Docusaurus => {},
                        NodeFramework::Svelte => {},
                        NodeFramework::Sveltekit => {},
                        NodeFramework::Umijs => {},
                        NodeFramework::Vue => {},
                        NodeFramework::Remix => {},
                        NodeFramework::NuxtOld => {},
                        NodeFramework::NuxtV3 => {},
                        NodeFramework::RemixOld => {},
                        NodeFramework::RemixV2 => {},
                        NodeFramework::RemixV2Classic => {},
                        NodeFramework::ReactRouter => {},
                        NodeFramework::Nitro => {},
                        NodeFramework::Solidstart => {},
                        NodeFramework::TanstackStart => {},
                        NodeFramework::Hydrogen => {},
                        NodeFramework::Hono => {},
                        NodeFramework::Express => {},
                        NodeFramework::H3 => {},
                        NodeFramework::Koa => {},
                        NodeFramework::Nestjs => {},
                        NodeFramework::Elysia => {},
                        NodeFramework::Fastify => {},
                        NodeFramework::Xmcp => {},
                        NodeFramework::Mastra => {},
                        NodeFramework::Sanity => {},
                        NodeFramework::SanityV3 => {},
                        NodeFramework::Storybook => {},
                    }
                }
            }
            None
        }
    }

    pub open spec fn spec_can_be_static(self) -> bool {
        matches!(self, NodeFramework::Angular | NodeFramework::Astro | NodeFramework::Brunch | NodeFramework::CreateReactApp | NodeFramework::Ember | NodeFramework::Vite | NodeFramework::Next | NodeFramework::Gatsby | NodeFramework::Eleventy | NodeFramework::Vitepress | NodeFramework::Vuepress | NodeFramework::Hexo | NodeFramework::IonicAngular | NodeFramework::IonicReact | NodeFramework::Metalsmith | NodeFramework::Assemble | NodeFramework::Harp | NodeFramework::Parcel | NodeFramework::Polymer | NodeFramework::Preact | NodeFramework::Stencil | NodeFramework::DocusaurusOld | NodeFramework::Docusaurus | NodeFramework::Svelte | NodeFramework::Sveltekit | NodeFramework::Umijs | NodeFramework::Vue | NodeFramework::Remix | NodeFramework::NuxtOld | NodeFramework::NuxtV3 | NodeFramework::RemixOld | NodeFramework::RemixV2 | NodeFramework::RemixV2Classic | NodeFramework::Sanity | NodeFramework::SanityV3 | NodeFramework::Storybook)
    }

    /// Whether the framework can produce a static site.
    pub fn can_be_static(self) -> (r: bool)
        ensures
            r == self.spec_can_be_static(),
    {
        matches!(self, NodeFramework::Angular | NodeFramework::Astro | NodeFramework::Brunch | NodeFramework::CreateReactApp | NodeFramework::Ember | NodeFramework::Vite | NodeFramework::Next | NodeFramework::Gatsby | NodeFramework::Eleventy | NodeFramework::Vitepress | NodeFramework::Vuepress | NodeFramework::Hexo | NodeFramework::IonicAngular | NodeFramework::IonicReact | NodeFramework::Metalsmith | NodeFramework::Assemble | NodeFramework::Harp | NodeFramework::Parcel | NodeFramework::Polymer | NodeFramework::Preact | NodeFramework::Stencil | NodeFramework::DocusaurusOld | NodeFramework::Docusaurus | NodeFramework::Svelte | NodeFramework::Sveltekit | NodeFramework::Umijs | NodeFramework::Vue | NodeFramework::Remix | NodeFramework::NuxtOld | NodeFramework::NuxtV3 | NodeFramework::RemixOld | NodeFramework::RemixV2 | NodeFramework::RemixV2Classic | NodeFramework::Sanity | NodeFramework::SanityV3 | NodeFramework::Storybook)
    }

    pub open spec fn spec_is_pure_static(self) -> bool {
        matches!(self, NodeFramework::Angular | NodeFramework::Brunch | NodeFramework::CreateReactApp | NodeFramework::Eleventy | NodeFramework::Ember | NodeFramework::Vitepress | NodeFramework::Vuepress | NodeFramework::Assemble | NodeFramework::Harp | NodeFramework::Hexo | NodeFramework::IonicAngular | NodeFramework::IonicReact | NodeFramework::Metalsmith | NodeFramework::Parcel | NodeFramework::Polymer | NodeFramework::Preact | NodeFramework::Stencil | NodeFramework::Docusaurus | NodeFramework::DocusaurusOld | NodeFramework::Svelte | NodeFramework::Sveltekit | NodeFramework::Umijs | NodeFramework::Vite | NodeFramework::Vue | NodeFramework::Sanity | NodeFramework::SanityV3 | NodeFramework::Storybook)
    }

    /// Whether the framework only ever produces a static site.
    pub fn is_pure_static(self) -> (r: bool)
        ensures
            r == self.spec_is_pure_static(),
    {
        matches!(self, NodeFramework::Angular | NodeFramework::Brunch | NodeFramework::CreateReactApp | NodeFramework::Eleventy | NodeFramework::Ember | NodeFramework::Vitepress | NodeFramework::Vuepress | NodeFramework::Assemble | NodeFramework::Harp | NodeFramework::Hexo | NodeFramework::IonicAngular | NodeFramework::IonicReact | NodeFramework::Metalsmith | NodeFramework::Parcel | NodeFramework::Polymer | NodeFramework::Preact | NodeFramework::Stencil | NodeFramework::Docusaurus | NodeFramework::DocusaurusOld | NodeFramework::Svelte | NodeFramework::Sveltekit | NodeFramework::Umijs | NodeFramework::Vite | NodeFramework::Vue | NodeFramework::Sanity | NodeFramework::SanityV3 | NodeFramework::Storybook)
    }

    pub open spec fn spec_get_static_output_dir(self) -> Option<Seq<char>> {
        match self {
            NodeFramework::Angular => Some("dist"@),
            NodeFramework::Next => Some("out"@),
            NodeFramework::Eleventy => Some("_site"@),
            NodeFramework::NuxtV3 => Some(".output/public"@),
            NodeFramework::Astro => Some("dist"@),
            NodeFramework::Brunch => Some("public"@),
            NodeFramework::CreateReactApp => Some("build"@),
            NodeFramework::Ember => Some("dist"@),
            NodeFramework::Vite => Some("dist"@),
            NodeFramework::NuxtOld => Some("dist"@),
            NodeFramework::Gatsby => Some("public"@),
            NodeFramework::Hexo => Some("public"@),
            NodeFramework::IonicAngular => Some("www"@),
            NodeFramework::IonicReact => Some("dist"@),
            NodeFramework::Vitepress => Some("docs/.vitepress/dist"@),
            NodeFramework::Vuepress => Some("docs/.vuepress/dist"@),
            NodeFramework::RemixOld => Some("build/client"@),
            NodeFramework::Remix => Some("build/client"@),
            NodeFramework::RemixV2 => Some("build/client"@),
            NodeFramework::RemixV2Classic => Some("public"@),
            NodeFramework::Assemble => Some("dist"@),
            NodeFramework::Harp => Some("www"@),
            NodeFramework::Parcel => Some("dist"@),
            NodeFramework::Polymer => Some("build/default"@),
            NodeFramework::Preact => Some("build"@),
            NodeFramework::Stencil => Some("www"@),
            NodeFramework::Docusaurus => Some("build"@),
            NodeFramework::DocusaurusOld => Some("build"@),
            NodeFramework::Svelte => Some("build"@),
            NodeFramework::Sveltekit => Some("build"@),
            NodeFramework::Umijs => Some("dist"@),
            NodeFramework::Vue => Some("dist"@),
            NodeFramework::Metalsmith => Some("build"@),
            NodeFramework::Sanity => Some("dist"@),
            NodeFramework::SanityV3 => Some("dist"@),
            NodeFramework::Storybook => Some("storybook-static"@),
            _ => None,
        }
    }

    /// The directory a static build writes, for static-capable frameworks.
    pub fn get_static_output_dir(self) -> (r: Option<&'static str>)
        ensures
            match self.spec_get_static_output_dir() {
                Some(t) => r matches Some(s) && s@ == t,
                None => r is None,
            },
    {
        match self {
            NodeFramework::Angular => Some("dist"),
            NodeFramework::Next => Some("out"),
            NodeFramework::Eleventy => Some("_site"),
            NodeFramework::NuxtV3 => Some(".output/public"),
            NodeFramework::Astro => Some("dist"),
            NodeFramework::Brunch => Some("public"),
            NodeFramework::CreateReactApp => Some("build"),
            NodeFramework::Ember => Some("dist"),
            NodeFramework::Vite => Some("dist"),
            NodeFramework::NuxtOld => Some("dist"),
            NodeFramework::Gatsby => Some("public"),
            NodeFramework::Hexo => Some("public"),
            NodeFramework::IonicAngular => Some("www"),
            NodeFramework::IonicReact => Some("dist"),
            NodeFramework::Vitepress => Some("docs/.vitepress/dist"),
            NodeFramework::Vuepress => Some("docs/.vuepress/dist"),
            NodeFramework::RemixOld => Some("build/client"),
            NodeFramework::Remix => Some("build/client"),
            NodeFramework::RemixV2 => Some("build/client"),
            NodeFramework::RemixV2Classic => Some("public"),
            NodeFramework::Assemble => Some("dist"),
            NodeFramework::Harp => Some("www"),
            NodeFramework::Parcel => Some("dist"),
            NodeFramework::Polymer => Some("build/default"),
            NodeFramework::Preact => Some("build"),
            NodeFramework::Stencil => Some("www"),
            NodeFramework::Docusaurus => Some("build"),
            NodeFramework::DocusaurusOld => Some("build"),
            NodeFramework::Svelte => Some("build"),
            NodeFramework::Sveltekit => Some("build"),
            NodeFramework::Umijs => Some("dist"),
            NodeFramework::Vue => Some("dist"),
            NodeFramework::Metalsmith => Some("build"),
            NodeFramework::Sanity => Some("dist"),
            NodeFramework::SanityV3 => Some("dist"),
            NodeFramework::Storybook => Some("storybook-static"),
            _ => None,
        }
    }

    pub open spec fn spec_build_static_command(self) -> Option<Seq<char>> {
        match self {
            NodeFramework::Angular => Some("ng build"@),
            NodeFramework::Gatsby => Some("gatsby build"@),
            NodeFramework::Eleventy => Some("@11ty/eleventy"@),
            NodeFramework::Vitepress => Some("vitepress build docs"@),
            NodeFramework::Vuepress => Some("vuepress build docs"@),
            NodeFramework::Hexo => Some("hexo generate"@),
            NodeFramework::Metalsmith => Some("metalsmith build"@),
            NodeFramework::Assemble => Some("grunt assemble"@),
            NodeFramework::Harp => Some("harp compile . www"@),
            NodeFramework::Brunch => Some("brunch build --production"@),
            NodeFramework::CreateReactApp => Some("react-scripts build"@),
            NodeFramework::Ember => Some("ember build"@),
            NodeFramework::IonicAngular => Some("ng build"@),
            NodeFramework::IonicReact => Some("vite build"@),
            NodeFramework::Parcel => Some("parcel build"@),
            NodeFramework::Polymer => Some("polymer build"@),
            NodeFramework::Preact => Some("preact build"@),
            NodeFramework::Stencil => Some("stencil build"@),
            NodeFramework::Astro => Some("astro build"@),
            NodeFramework::RemixOld => Some("remix-ssg build"@),
            NodeFramework::RemixV2 => Some("vite build"@),
            NodeFramework::RemixV2Classic => Some("remix build"@),
            NodeFramework::Docusaurus => Some("docusaurus build"@),
            NodeFramework::DocusaurusOld => Some("docusaurus build"@),
            NodeFramework::Svelte => Some("svelte-kit build"@),
            NodeFramework::Sveltekit => Some("svelte-kit build"@),
            NodeFramework::Umijs => Some("umi build"@),
            NodeFramework::Vite => Some("vite build"@),
            NodeFramework::Vue => Some("vue-cli-service build"@),
            NodeFramework::Next => Some("next export"@),
            NodeFramework::NuxtV3 => Some("nuxi generate"@),
            NodeFramework::NuxtOld => Some("nuxt generate"@),
            NodeFramework::Remix => Some("remix build"@),
            NodeFramework::Sanity => Some("sanity build"@),
            NodeFramework::SanityV3 => Some("sanity build"@),
            NodeFramework::Storybook => Some("storybook build"@),
            _ => None,
        }
    }

    /// The command that builds the static site, for static-capable frameworks.
    pub fn build_static_command(self) -> (r: Option<&'static str>)
        ensures
            match self.spec_build_static_command() {
                Some(t) => r matches Some(s) && s@ == t,
                None => r is None,
            },
    {
        match self {
            NodeFramework::Angular => Some("ng build"),
            NodeFramework::Gatsby => Some("gatsby build"),
            NodeFramework::Eleventy => Some("@11ty/eleventy"),
            NodeFramework::Vitepress => Some("vitepress build docs"),
            NodeFramework::Vuepress => Some("vuepress build docs"),
            NodeFramework::Hexo => Some("hexo generate"),
            NodeFramework::Metalsmith => Some("metalsmith build"),
            NodeFramework::Assemble => Some("grunt assemble"),
            NodeFramework::Harp => Some("harp compile . www"),
            NodeFramework::Brunch => Some("brunch build --production"),
            NodeFramework::CreateReactApp => Some("react-scripts build"),
            NodeFramework::Ember => Some("ember build"),
            NodeFramework::IonicAngular => Some("ng build"),
            NodeFramework::IonicReact => Some("vite build"),
            NodeFramework::Parcel => Some("parcel build"),
            NodeFramework::Polymer => Some("polymer build"),
            NodeFramework::Preact => Some("preact build"),
            NodeFramework::Stencil => Some("stencil build"),
            NodeFramework::Astro => Some("astro build"),
            NodeFramework::RemixOld => Some("remix-ssg build"),
            NodeFramework::RemixV2 => Some("vite build"),
            NodeFramework::RemixV2Classic => Some("remix build"),
            NodeFramework::Docusaurus => Some("docusaurus build"),
            NodeFramework::DocusaurusOld => Some("docusaurus build"),
            NodeFramework::Svelte => Some("svelte-kit build"),
            NodeFramework::Sveltekit => Some("svelte-kit build"),
            NodeFramework::Umijs => Some("umi build"),
            NodeFramework::Vite => Some("vite build"),
            NodeFramework::Vue => Some("vue-cli-service build"),
            NodeFramework::Next => Some("next export"),
            NodeFramework::NuxtV3 => Some("nuxi generate"),
            NodeFramework::NuxtOld => Some("nuxt generate"),
            NodeFramework::Remix => Some("remix build"),
            NodeFramework::Sanity => Some("sanity build"),
            NodeFramework::SanityV3 => Some("sanity build"),
            NodeFramework::Storybook => Some("storybook build"),
            _ => None,
        }
    }

}

/// The frameworks a build tool points to, most specific first.
pub open spec fn command_frameworks(token: Seq<char>) -> Option<Seq<NodeFramework>> {
    if token == "ng"@ {
        Some(seq![NodeFramework::IonicAngular, NodeFramework::Angular])
    } else if token == "gatsby"@ {
        Some(seq![NodeFramework::Gatsby])
    } else if token == "astro"@ {
        Some(seq![NodeFramework::Astro])
    } else if token == "@11ty/eleventy"@ {
        Some(seq![NodeFramework::Eleventy])
    } else if token == "eleventy"@ {
        Some(seq![NodeFramework::Eleventy])
    } else if token == "brunch"@ {
        Some(seq![NodeFramework::Brunch])
    } else if token == "react-scripts"@ {
        Some(seq![NodeFramework::IonicReact, NodeFramework::CreateReactApp])
    } else if token == "remix-ssg"@ {
        Some(seq![NodeFramework::RemixOld])
    } else if token == "remix"@ {
        Some(seq![NodeFramework::RemixV2Classic, NodeFramework::RemixV2])
    } else if token == "ember"@ {
        Some(seq![NodeFramework::Ember])
    } else if token == "vite"@ {
        Some(seq![NodeFramework::Vite])
    } else if token == "vitepress"@ {
        Some(seq![NodeFramework::Vitepress])
    } else if token == "vuepress"@ {
        Some(seq![NodeFramework::Vuepress])
    } else if token == "hexo"@ {
        Some(seq![NodeFramework::Hexo])
    } else if token == "metalsmith"@ {
        Some(seq![NodeFramework::Metalsmith])
    } else if token == "harp"@ {
        Some(seq![NodeFramework::Harp])
    } else if token == "parcel"@ {
        Some(seq![NodeFramework::Parcel])
    } else if token == "polymer"@ {
        Some(seq![NodeFramework::Polymer])
    } else if token == "preact"@ {
        Some(seq![NodeFramework::Preact])
    } else if token == "stencil"@ {
        Some(seq![NodeFramework::Stencil])
    } else if token == "docusaurus"@ {
        Some(seq![NodeFramework::Docusaurus, NodeFramework::DocusaurusOld])
    } else if token == "next"@ {
        Some(seq![NodeFramework::Next])
    } else if token == "nuxi"@ {
        Some(seq![NodeFramework::NuxtV3])
    } else if token == "nuxt"@ {
        Some(seq![NodeFramework::NuxtOld])
    } else if token == "svelte-kit"@ {
        Some(seq![NodeFramework::Sveltekit])
    } else if token == "umi"@ {
        Some(seq![NodeFramework::Umijs])
    } else if token == "vue-cli-service"@ {
        Some(seq![NodeFramework::Vue])
    } else if token == "sanity"@ {
        Some(seq![NodeFramework::Sanity])
    } else if token == "storybook"@ {
        Some(seq![NodeFramework::Storybook])
    } else {
        None
    }
}

fn command_frameworks_exec(token: &str) -> (r: Option<Vec<NodeFramework>>)
    ensures
        match command_frameworks(token@) {
            Some(fs) => r matches Some(v) && v@ == fs,
            None => r is None,
        },
{
    if crate::text::eq_str(token, "ng") {
        let mut v: Vec<NodeFramework> = Vec::new();
        v.push(NodeFramework::IonicAngular);
        v.push(NodeFramework::Angular);
        assert(v@ =~= seq![NodeFramework::IonicAngular, NodeFramework::Angular]);
        Some(v)
    } else if crate::text::eq_str(token, "gatsby") {
        let mut v: Vec<NodeFramework> = Vec::new();
        v.push(NodeFramework::Gatsby);
        assert(v@ =~= seq![NodeFramework::Gatsby]);
        Some(v)
    } else if crate::text::eq_str(token, "astro") {
        let mut v: Vec<NodeFramework> = Vec::new();
        v.push(NodeFramework::Astro);
        assert(v@ =~= seq![NodeFramework::Astro]);
        Some(v)
    } else if crate::text::eq_str(token, "@11ty/eleventy") {
        let mut v: Vec<NodeFramework> = Vec::new();
        v.push(NodeFramework::Eleventy);
        assert(v@ =~= seq![NodeFramework::Eleventy]);
        Some(v)
    } else if crate::text::eq_str(token, "eleventy") {
        let mut v: Vec<NodeFramework> = Vec::new();
        v.push(NodeFramework::Eleventy);
        assert(v@ =~= seq![NodeFramework::Eleventy]);
        Some(v)
    } else if crate::text::eq_str(token, "brunch") {
        let mut v: Vec<NodeFramework> = Vec::new();
        v.push(NodeFramework::Brunch);
        assert(v@ =~= seq![NodeFramework::Brunch]);
        Some(v)
    } else if crate::text::eq_str(token, "react-scripts") {
        let mut v: Vec<NodeFramework> = Vec::new();
        v.push(NodeFramework::IonicReact);
        v.push(NodeFramework::CreateReactApp);
        assert(v@ =~= seq![NodeFramework::IonicReact, NodeFramework::CreateReactApp]);
        Some(v)
    } else if crate::text::eq_str(token, "remix-ssg") {
        let mut v: Vec<NodeFramework> = Vec::new();
        v.push(NodeFramework::RemixOld);
        assert(v@ =~= seq![NodeFramework::RemixOld]);
        Some(v)
    } else if crate::text::eq_str(token, "remix") {
        let mut v: Vec<NodeFramework> = Vec::new();
        v.push(NodeFramework::RemixV2Classic);
        v.push(NodeFramework::RemixV2);
        assert(v@ =~= seq![NodeFramework::RemixV2Classic, NodeFramework::RemixV2]);
        Some(v)
    } else if crate::text::eq_str(token, "ember") {
        let mut v: Vec<NodeFramework> = Vec::new();
        v.push(NodeFramework::Ember);
        assert(v@ =~= seq![NodeFramework::Ember]);
        Some(v)
    } else if crate::text::eq_str(token, "vite") {
        let mut v: Vec<NodeFramework> = Vec::new();
        v.push(NodeFramework::Vite);
        assert(v@ =~= seq![NodeFramework::Vite]);
        Some(v)
    } else if crate::text::eq_str(token, "vitepress") {
        let mut v: Vec<NodeFramework> = Vec::new();
        v.push(NodeFramework::Vitepress);
        assert(v@ =~= seq![NodeFramework::Vitepress]);
        Some(v)
    } else if crate::text::eq_str(token, "vuepress") {
        let mut v: Vec<NodeFramework> = Vec::new();
        v.push(NodeFramework::Vuepress);
        assert(v@ =~= seq![NodeFramework::Vuepress]);
        Some(v)
    } else if crate::text::eq_str(token, "hexo") {
        let mut v: Vec<NodeFramework> = Vec::new();
        v.push(NodeFramework::Hexo);
        assert(v@ =~= seq![NodeFramework::Hexo]);
        Some(v)
    } else if crate::text::eq_str(token, "metalsmith") {
        let mut v: Vec<NodeFramework> = Vec::new();
        v.push(NodeFramework::Metalsmith);
        assert(v@ =~= seq![NodeFramework::Metalsmith]);
        Some(v)
    } else if crate::text::eq_str(token, "harp") {
        let mut v: Vec<NodeFramework> = Vec::new();
        v.push(NodeFramework::Harp);
        assert(v@ =~= seq![NodeFramework::Harp]);
        Some(v)
    } else if crate::text::eq_str(token, "parcel") {
        let mut v: Vec<NodeFramework> = Vec::new();
        v.push(NodeFramework::Parcel);
        assert(v@ =~= seq![NodeFramework::Parcel]);
        Some(v)
    } else if crate::text::eq_str(token, "polymer") {
        let mut v: Vec<NodeFramework> = Vec::new();
        v.push(NodeFramework::Polymer);
        assert(v@ =~= seq![NodeFramework::Polymer]);
        Some(v)
    } else if crate::text::eq_str(token, "preact") {
        let mut v: Vec<NodeFramework> = Vec::new();
        v.push(NodeFramework::Preact);
        assert(v@ =~= seq![NodeFramework::Preact]);
        Some(v)
    } else if crate::text::eq_str(token, "stencil") {
        let mut v: Vec<NodeFramework> = Vec::new();
        v.push(NodeFramework::Stencil);
        assert(v@ =~= seq![NodeFramework::Stencil]);
        Some(v)
    } else if crate::text::eq_str(token, "docusaurus") {
        let mut v: Vec<NodeFramework> = Vec::new();
        v.push(NodeFramework::Docusaurus);
        v.push(NodeFramework::DocusaurusOld);
        assert(v@ =~= seq![NodeFramework::Docusaurus, NodeFramework::DocusaurusOld]);
        Some(v)
    } else if crate::text::eq_str(token, "next") {
        let mut v: Vec<NodeFramework> = Vec::new();
        v.push(NodeFramework::Next);
        assert(v@ =~= seq![NodeFramework::Next]);
        Some(v)
    } else if crate::text::eq_str(token, "nuxi") {
        let mut v: Vec<NodeFramework> = Vec::new();
        v.push(NodeFramework::NuxtV3);
        assert(v@ =~= seq![NodeFramework::NuxtV3]);
        Some(v)
    } else if crate::text::eq_str(token, "nuxt") {
        let mut v: Vec<NodeFramework> = Vec::new();
        v.push(NodeFramework::NuxtOld);
        assert(v@ =~= seq![NodeFramework::NuxtOld]);
        Some(v)
    } else if crate::text::eq_str(token, "svelte-kit") {
        let mut v: Vec<NodeFramework> = Vec::new();
        v.push(NodeFramework::Sveltekit);
        assert(v@ =~= seq![NodeFramework::Sveltekit]);
        Some(v)
    } else if crate::text::eq_str(token, "umi") {
        let mut v: Vec<NodeFramework> = Vec::new();
        v.push(NodeFramework::Umijs);
        assert(v@ =~= seq![NodeFramework::Umijs]);
        Some(v)
    } else if crate::text::eq_str(token, "vue-cli-service") {
        let mut v: Vec<NodeFramework> = Vec::new();
        v.push(NodeFramework::Vue);
        assert(v@ =~= seq![NodeFramework::Vue]);
        Some(v)
    } else if crate::text::eq_str(token, "sanity") {
        let mut v: Vec<NodeFramework> = Vec::new();
        v.push(NodeFramework::Sanity);
        assert(v@ =~= seq![NodeFramework::Sanity]);
        Some(v)
    } else if crate::text::eq_str(token, "storybook") {
        let mut v: Vec<NodeFramework> = Vec::new();
        v.push(NodeFramework::Storybook);
        assert(v@ =~= seq![NodeFramework::Storybook]);
        Some(v)
    } else {
        None
    }
}

impl NodeFramework {
    /// The frameworks a build command points to: the first word that names
    /// a build tool decides (`grunt` followed by `assemble` means
    /// Assemble); none when no word does.
    pub fn detect_from_command(build_command: &str) -> (r: Vec<NodeFramework>)
        ensures
            r@ == detect_from_words(split_command_spec(build_command@), 0),
    {
        let tokens = split_command(build_command);
        let ghost ws = split_command_spec(build_command@);
        let mut i: usize = 0;
        while i < tokens.len()
            invariant
                0 <= i <= tokens@.len(),
                crate::event::text_views(tokens@) == ws,
                ws == split_command_spec(build_command@),
                detect_from_words(ws, 0) == detect_from_words(ws, i as int),
            decreases tokens@.len() - i,
        {
            assert(ws[i as int] == tokens@[i as int]@);
            if grunt_assemble(&tokens, i) {
                let mut v: Vec<NodeFramework> = Vec::new();
                v.push(NodeFramework::Assemble);
                assert(v@ =~= seq![NodeFramework::Assemble]);
                return v;
            }
            if let Some(v) = command_frameworks_exec(tokens[i].as_str()) {
                return v;
            }
            i = i + 1;
        }
        Vec::new()
    }

    /// The build command that also bundles the app: Next builds run
    /// through `next-bundle` with the original command quoted.
    pub fn bundle_build_command(self, package_manager: PackageManager, build_command: &str) -> (r: Result<String, NodeError>)
        ensures
            self != NodeFramework::Next ==> (r matches Ok(s) && s@ == build_command@),
            self == NodeFramework::Next && crate::text::contains_char(build_command@, '\0') ==> r
                == Err::<String, NodeError>(NodeError::UnquotableBuildCommand),
            self == NodeFramework::Next && !crate::text::contains_char(build_command@, '\0') ==> (r matches Ok(s)
                && s@ == package_manager.spec_dlx() + " "@ + ("next-bundle@1.0.0 --build-command "@ + shlex_quoted(
                build_command@,
            ))),
    {
        if self == NodeFramework::Next {
            let quoted = match shlex_quote(build_command) {
                Some(q) => q,
                None => {
                    return Err(NodeError::UnquotableBuildCommand);
                },
            };
            let mut command = "next-bundle@1.0.0 --build-command ".to_owned();
            push_str(&mut command, quoted.as_str());
            return Ok(package_manager.dlx_command(command.as_str()));
        }
        Ok(build_command.to_owned())
    }

    pub open spec fn spec_start_command(self) -> Option<Seq<char>> {
        match self {
            NodeFramework::Next => Some("node server.mjs"@),
            NodeFramework::Nitro => Some("node .output/server/index.mjs"@),
            _ => None,
        }
    }

    /// The command that starts a built app, for frameworks that fix one.
    pub fn start_command(self) -> (r: Option<&'static str>)
        ensures
            match self.spec_start_command() {
                Some(t) => r matches Some(s) && s@ == t,
                None => r is None,
            },
    {
        match self {
            NodeFramework::Next => Some("node server.mjs"),
            NodeFramework::Nitro => Some("node .output/server/index.mjs"),
            _ => None,
        }
    }
}

fn grunt_assemble(tokens: &Vec<String>, i: usize) -> (r: bool)
    requires
        i < tokens@.len(),
    ensures
        r == grunt_assemble_at(crate::event::text_views(tokens@), i as int),
{
    let ghost ws = crate::event::text_views(tokens@);
    assert(ws[i as int] == tokens@[i as int]@);
    if !eq_str(tokens[i].as_str(), "grunt") {
        return false;
    }
    let n = tokens.len();
    let mut j = i + 1;
    while j < n
        invariant
            i < j <= tokens@.len(),
            n == tokens@.len(),
            ws == crate::event::text_views(tokens@),
            ws[i as int] == "grunt"@,
            forall|k: int| i < k < j ==> #[trigger] ws[k] != "assemble"@,
        decreases tokens@.len() - j,
    {
        assert(ws[j as int] == tokens@[j as int]@);
        if eq_str(tokens[j].as_str(), "assemble") {
            assert(i < j < ws.len() && ws[j as int] == "assemble"@);
            return true;
        }
        j = j + 1;
    }
    false
}

/// Grunt with an `assemble` task later on the line.
pub open spec fn grunt_assemble_at(ws: Seq<Seq<char>>, i: int) -> bool {
    ws[i] == "grunt"@ && exists|k: int| i < k < ws.len() && #[trigger] ws[k] == "assemble"@
}

/// The frameworks named from word `i` on.
pub open spec fn detect_from_words(ws: Seq<Seq<char>>, i: int) -> Seq<NodeFramework>
    decreases ws.len() - i,
{
    if i < 0 || i >= ws.len() {
        seq![]
    } else if grunt_assemble_at(ws, i) {
        seq![NodeFramework::Assemble]
    } else {
        match command_frameworks(ws[i]) {
            Some(fs) => fs,
            None => detect_from_words(ws, i + 1),
        }
    }
}

// ---------------------------------------------------------------------------
// Commands

/// The build-command prefixes that run a package manager.
pub open spec fn manager_build_prefixes() -> Seq<Seq<char>> {
    seq!["npm run "@, "pnpm run "@, "pnpm "@, "yarn run "@, "yarn "@, "bun run "@, "bun "@]
}

/// Does the command run through a package manager?
pub fn is_package_manager_build_command(command: &str) -> (r: bool)
    ensures
        r == exists|i: int| 0 <= i < 7 && has_prefix(command@, #[trigger] manager_build_prefixes()[i]),
{
    let prefixes: [&str; 7] = ["npm run ", "pnpm run ", "pnpm ", "yarn run ", "yarn ", "bun run ", "bun "];
    let mut i: usize = 0;
    while i < 7
        invariant
            0 <= i <= 7,
            prefixes@.len() == 7,
            forall|j: int| 0 <= j < 7 ==> prefixes@[j]@ == #[trigger] manager_build_prefixes()[j],
            forall|j: int| 0 <= j < i ==> !has_prefix(command@, #[trigger] manager_build_prefixes()[j]),
        decreases 7 - i,
    {
        if starts_with_str(command, prefixes[i]) {
            assert(has_prefix(command@, manager_build_prefixes()[i as int]));
            return true;
        }
        i = i + 1;
    }
    false
}

/// The programs a Node start command begins with.
pub open spec fn start_programs() -> Seq<Seq<char>> {
    seq!["edge"@, "node"@, "npm"@, "npx"@, "pnpm"@, "pnpx"@, "yarn"@, "ypx"@, "bun"@, "bunx"@]
}

/// Does the command start a Node program?
pub fn is_node_command(command: &str) -> (r: bool)
    ensures
        r == (split_command_spec(command@).len() > 0 && start_programs().contains(split_command_spec(command@)[0])),
{
    let parts = split_command(command);
    if parts.len() == 0 {
        return false;
    }
    assert(split_command_spec(command@)[0] == parts@[0]@);
    let programs: [&str; 10] = ["edge", "node", "npm", "npx", "pnpm", "pnpx", "yarn", "ypx", "bun", "bunx"];
    let mut i: usize = 0;
    while i < 10
        invariant
            0 <= i <= 10,
            parts@.len() > 0,
            programs@.len() == 10,
            forall|j: int| 0 <= j < 10 ==> programs@[j]@ == #[trigger] start_programs()[j],
            forall|j: int| 0 <= j < i ==> start_programs()[j] != parts@[0]@,
            split_command_spec(command@)[0] == parts@[0]@,
            split_command_spec(command@).len() == parts@.len(),
        decreases 10 - i,
    {
        if eq_str(parts[0].as_str(), programs[i]) {
            assert(start_programs()[i as int] == parts@[0]@);
            assert(start_programs().contains(parts@[0]@));
            return true;
        }
        i = i + 1;
    }
    assert(!start_programs().contains(parts@[0]@)) by {
        if start_programs().contains(parts@[0]@) {
            let j = choose|j: int| 0 <= j < start_programs().len() && start_programs()[j] == parts@[0]@;
            assert(start_programs()[j] != parts@[0]@);
        }
    }
    false
}

/// A command that is set and not empty.
pub fn non_empty(value: &Option<String>) -> (r: Option<&str>)
    ensures
        match value {
            Some(s) => if s@.len() > 0 { r matches Some(t) && t@ == s@ } else { r is None },
            None => r is None,
        },
{
    match value {
        Some(s) => if s.unicode_len() > 0 {
            Some(s.as_str())
        } else {
            None
        },
        None => None,
    }
}

// ---------------------------------------------------------------------------
// package.json

/// The sections of `package.json` that list dependencies, in the order
/// they are consulted.
pub open spec fn dependency_sections() -> Seq<Seq<char>> {
    seq!["dependencies"@, "devDependencies"@, "peerDependencies"@]
}

/// The members of a section when it is an object.
pub open spec fn section_members(pj: JsonValue, section: Seq<char>) -> Option<Seq<(String, JsonValue)>> {
    match pj.spec_get(section) {
        Some(JsonValue::Object(m)) => Some(m@),
        _ => None,
    }
}

/// Some dependency section lists `dep`.
pub open spec fn dep_listed(pj: Option<JsonValue>, dep: Seq<char>) -> bool {
    match pj {
        Some(j) => exists|i: int|
            0 <= i < 3 && #[trigger] section_members(j, dependency_sections()[i]) is Some && member_of(
                section_members(j, dependency_sections()[i])->0,
                dep,
            ) is Some,
        None => false,
    }
}

/// The dependencies of `deps` that `package.json` lists, in the order of
/// `deps`.
pub open spec fn found_deps_spec(pj: Option<JsonValue>, deps: Seq<Seq<char>>) -> Seq<Seq<char>>
    decreases deps.len(),
{
    if deps.len() == 0 {
        seq![]
    } else {
        let rest = found_deps_spec(pj, deps.drop_last());
        if dep_listed(pj, deps.last()) {
            rest.push(deps.last())
        } else {
            rest
        }
    }
}

fn section_of<'a>(pj: &'a JsonValue, index: usize) -> (r: Option<&'a Vec<(String, JsonValue)>>)
    requires
        index < 3,
    ensures
        match section_members(*pj, dependency_sections()[index as int]) {
            Some(m) => r matches Some(v) && v@ == m,
            None => r is None,
        },
{
    let name = if index == 0 {
        "dependencies"
    } else if index == 1 {
        "devDependencies"
    } else {
        "peerDependencies"
    };
    match get(pj, name) {
        Some(JsonValue::Object(m)) => Some(m),
        _ => None,
    }
}

fn member_present<'a>(members: &'a Vec<(String, JsonValue)>, key: &str) -> (r: Option<&'a JsonValue>)
    ensures
        match member_of(members@, key@) {
            Some(v) => r matches Some(x) && *x == v,
            None => r is None,
        },
{
    let mut i = members.len();
    let k = chars_of(key);
    assert(members@.subrange(0, i as int) =~= members@);
    while i > 0
        invariant
            0 <= i <= members@.len(),
            k@ == key@,
            member_of(members@, key@) == member_of(members@.subrange(0, i as int), key@),
        decreases i,
    {
        let ghost pre = members@.subrange(0, i as int);
        assert(pre.drop_last() =~= members@.subrange(0, i - 1));
        assert(pre.last() == members@[i - 1]);
        let name = chars_of(members[i - 1].0.as_str());
        if crate::text::eq_chars(&name, &k) {
            return Some(&members[i - 1].1);
        }
        i = i - 1;
    }
    None
}

/// Is `dep` listed in some dependency section?
pub fn has_dep(package_json: Option<&JsonValue>, dep: &str) -> (r: bool)
    ensures
        r == dep_listed(match package_json {
            Some(j) => Some(*j),
            None => None,
        }, dep@),
{
    let Some(pj) = package_json else {
        return false;
    };
    let mut i: usize = 0;
    while i < 3
        invariant
            0 <= i <= 3,
            package_json == Some(pj),
            forall|j: int| 0 <= j < i ==> !(#[trigger] section_members(*pj, dependency_sections()[j]) is Some
                && member_of(section_members(*pj, dependency_sections()[j])->0, dep@) is Some),
        decreases 3 - i,
    {
        if let Some(members) = section_of(pj, i) {
            if member_present(members, dep).is_some() {
                assert(section_members(*pj, dependency_sections()[i as int]) is Some && member_of(
                    section_members(*pj, dependency_sections()[i as int])->0,
                    dep@,
                ) is Some);
                return true;
            }
        }
        i = i + 1;
    }
    false
}

/// The dependencies among `deps` that `package.json` lists.
pub fn check_package_json_deps(package_json: Option<&JsonValue>, deps: &Vec<&str>) -> (r: Vec<String>)
    ensures
        crate::event::text_views(r@) == found_deps_spec(match package_json {
            Some(j) => Some(*j),
            None => None,
        }, deps@.map_values(|d: &str| d@)),
{
    let ghost pj = match package_json {
        Some(j) => Some(*j),
        None => None,
    };
    let mut r: Vec<String> = Vec::new();
    let mut i: usize = 0;
    while i < deps.len()
        invariant
            0 <= i <= deps@.len(),
            pj == match package_json {
                Some(j) => Some(*j),
                None => None,
            },
            crate::event::text_views(r@) == found_deps_spec(pj, deps@.subrange(0, i as int).map_values(|d: &str| d@)),
        decreases deps@.len() - i,
    {
        let ghost pre = deps@.subrange(0, i as int).map_values(|d: &str| d@);
        let ghost next = deps@.subrange(0, i + 1).map_values(|d: &str| d@);
        assert(next.drop_last() =~= pre);
        assert(next.last() == deps@[i as int]@);
        if has_dep(package_json, deps[i]) {
            let ghost before = r@;
            r.push(deps[i].to_owned());
            assert(crate::event::text_views(r@) =~= crate::event::text_views(before).push(deps@[i as int]@));
        }
        i = i + 1;
    }
    assert(deps@.subrange(0, deps@.len() as int) =~= deps@);
    r
}

/// Is `d` among the found dependencies?
pub fn found(deps: &Vec<String>, d: &str) -> (r: bool)
    ensures
        r == crate::event::text_views(deps@).contains(d@),
{
    let mut i: usize = 0;
    while i < deps.len()
        invariant
            0 <= i <= deps@.len(),
            forall|j: int| 0 <= j < i ==> deps@[j]@ != d@,
        decreases deps@.len() - i,
    {
        if eq_str(deps[i].as_str(), d) {
            assert(crate::event::text_views(deps@)[i as int] == d@);
            return true;
        }
        i = i + 1;
    }
    assert(!crate::event::text_views(deps@).contains(d@)) by {
        if crate::event::text_views(deps@).contains(d@) {
            let j = choose|j: int| 0 <= j < deps@.len() && crate::event::text_views(deps@)[j] == d@;
            assert(deps@[j]@ != d@);
        }
    }
    false
}

/// The string entries of an object's members, in order.
pub open spec fn string_entries(members: Seq<(String, JsonValue)>) -> Seq<(Seq<char>, Seq<char>)>
    decreases members.len(),
{
    if members.len() == 0 {
        seq![]
    } else {
        let rest = string_entries(members.drop_last());
        match members.last().1 {
            JsonValue::String(v) => rest.push((members.last().0@, v@)),
            _ => rest,
        }
    }
}

/// The string-valued scripts of `package.json`, in file order.
pub open spec fn scripts_of(pj: Option<JsonValue>) -> Seq<(Seq<char>, Seq<char>)> {
    match pj {
        Some(j) => match j.spec_get("scripts"@) {
            Some(JsonValue::Object(m)) => string_entries(m@),
            _ => seq![],
        },
        None => seq![],
    }
}

pub open spec fn entry_views(v: Seq<(String, String)>) -> Seq<(Seq<char>, Seq<char>)> {
    v.map_values(|e: (String, String)| (e.0@, e.1@))
}

/// The string-valued scripts of `package.json`, as (name, command) pairs.
pub fn package_scripts(package_json: Option<&JsonValue>) -> (r: Vec<(String, String)>)
    ensures
        entry_views(r@) == scripts_of(match package_json {
            Some(j) => Some(*j),
            None => None,
        }),
{
    let mut r: Vec<(String, String)> = Vec::new();
    let Some(pj) = package_json else {
        return r;
    };
    let Some(JsonValue::Object(members)) = get(pj, "scripts") else {
        return r;
    };
    let mut i: usize = 0;
    while i < members.len()
        invariant
            0 <= i <= members@.len(),
            entry_views(r@) == string_entries(members@.subrange(0, i as int)),
        decreases members@.len() - i,
    {
        assert(members@.subrange(0, i + 1).drop_last() =~= members@.subrange(0, i as int));
        if let JsonValue::String(v) = &members[i].1 {
            let ghost before = r@;
            r.push((members[i].0.clone(), v.clone()));
            assert(entry_views(r@) =~= entry_views(before).push((members@[i as int].0@, v@)));
        }
        i = i + 1;
    }
    assert(members@.subrange(0, members@.len() as int) =~= members@);
    r
}

/// The command of the script named `name`, if any (the first such entry).
pub open spec fn script_named(entries: Seq<(Seq<char>, Seq<char>)>, name: Seq<char>) -> Option<Seq<char>>
    decreases entries.len(),
{
    if entries.len() == 0 {
        None
    } else if entries[0].0 == name {
        Some(entries[0].1)
    } else {
        script_named(entries.drop_first(), name)
    }
}

/// The commands of the preferred scripts that exist, in preference order.
pub open spec fn exact_scripts(entries: Seq<(Seq<char>, Seq<char>)>, preferred: Seq<Seq<char>>) -> Seq<Seq<char>>
    decreases preferred.len(),
{
    if preferred.len() == 0 {
        seq![]
    } else {
        let rest = exact_scripts(entries, preferred.drop_last());
        match script_named(entries, preferred.last()) {
            Some(c) => rest.push(c),
            None => rest,
        }
    }
}

/// The commands of scripts whose name starts with a preferred name, in
/// file order.
pub open spec fn prefixed_scripts(entries: Seq<(Seq<char>, Seq<char>)>, preferred: Seq<Seq<char>>) -> Seq<Seq<char>>
    decreases entries.len(),
{
    if entries.len() == 0 {
        seq![]
    } else {
        let rest = prefixed_scripts(entries.drop_last(), preferred);
        if exists|i: int| 0 <= i < preferred.len() && has_prefix(entries.last().0, #[trigger] preferred[i]) {
            rest.push(entries.last().1)
        } else {
            rest
        }
    }
}

/// The preferred scripts' commands (exact names, in preference order); when
/// none exists, those of scripts whose name starts with a preferred name.
pub open spec fn script_commands_spec(entries: Seq<(Seq<char>, Seq<char>)>, preferred: Seq<Seq<char>>) -> Seq<Seq<char>> {
    let exact = exact_scripts(entries, preferred);
    if exact.len() > 0 {
        exact
    } else {
        prefixed_scripts(entries, preferred)
    }
}

pub fn script_named_exec(entries: &Vec<(String, String)>, name: &str) -> (r: Option<String>)
    ensures
        match script_named(entry_views(entries@), name@) {
            Some(c) => r matches Some(s) && s@ == c,
            None => r is None,
        },
{
    let mut i: usize = 0;
    assert(entry_views(entries@).skip(0) =~= entry_views(entries@));
    while i < entries.len()
        invariant
            0 <= i <= entries@.len(),
            script_named(entry_views(entries@), name@) == script_named(entry_views(entries@).skip(i as int), name@),
        decreases entries@.len() - i,
    {
        let ghost rest = entry_views(entries@).skip(i as int);
        assert(rest[0] == (entries@[i as int].0@, entries@[i as int].1@));
        assert(rest.drop_first() =~= entry_views(entries@).skip(i + 1));
        if eq_str(entries[i].0.as_str(), name) {
            return Some(entries[i].1.clone());
        }
        i = i + 1;
    }
    None
}

/// The commands of the preferred scripts (see `script_commands_spec`).
pub fn script_commands(package_json: Option<&JsonValue>, preferred: &Vec<&str>) -> (r: Vec<String>)
    ensures
        crate::event::text_views(r@) == script_commands_spec(scripts_of(match package_json {
            Some(j) => Some(*j),
            None => None,
        }), preferred@.map_values(|p: &str| p@)),
{
    let scripts = package_scripts(package_json);
    let ghost entries = entry_views(scripts@);
    let ghost prefs = preferred@.map_values(|p: &str| p@);
    let mut exact: Vec<String> = Vec::new();
    let mut i: usize = 0;
    while i < preferred.len()
        invariant
            0 <= i <= preferred@.len(),
            entries == entry_views(scripts@),
            crate::event::text_views(exact@) == exact_scripts(entries, preferred@.subrange(0, i as int).map_values(|p: &str| p@)),
        decreases preferred@.len() - i,
    {
        let ghost pre = preferred@.subrange(0, i as int).map_values(|p: &str| p@);
        let ghost next = preferred@.subrange(0, i + 1).map_values(|p: &str| p@);
        assert(next.drop_last() =~= pre);
        assert(next.last() == preferred@[i as int]@);
        if let Some(c) = script_named_exec(&scripts, preferred[i]) {
            let ghost before = exact@;
            exact.push(c);
            assert(crate::event::text_views(exact@) =~= crate::event::text_views(before).push(exact@.last()@));
        }
        i = i + 1;
    }
    assert(preferred@.subrange(0, preferred@.len() as int) =~= preferred@);
    if exact.len() > 0 {
        return exact;
    }
    let mut r: Vec<String> = Vec::new();
    let mut k: usize = 0;
    while k < scripts.len()
        invariant
            0 <= k <= scripts@.len(),
            entries == entry_views(scripts@),
            prefs == preferred@.map_values(|p: &str| p@),
            crate::event::text_views(r@) == prefixed_scripts(entries.subrange(0, k as int), prefs),
        decreases scripts@.len() - k,
    {
        let ghost sub = entries.subrange(0, k + 1);
        assert(sub.drop_last() =~= entries.subrange(0, k as int));
        assert(sub.last() == (scripts@[k as int].0@, scripts@[k as int].1@));
        let mut matched = false;
        let mut j: usize = 0;
        while j < preferred.len()
            invariant
                0 <= j <= preferred@.len(),
                k < scripts@.len(),
                prefs == preferred@.map_values(|p: &str| p@),
                matched == exists|t: int| 0 <= t < j && has_prefix(scripts@[k as int].0@, #[trigger] prefs[t]),
            decreases preferred@.len() - j,
        {
            if starts_with_str(scripts[k].0.as_str(), preferred[j]) {
                assert(has_prefix(scripts@[k as int].0@, prefs[j as int]));
                matched = true;
            }
            j = j + 1;
        }
        if matched {
            let ghost before = r@;
            r.push(scripts[k].1.clone());
            assert(crate::event::text_views(r@) =~= crate::event::text_views(before).push(scripts@[k as int].1@));
        }
        k = k + 1;
    }
    assert(entries.subrange(0, scripts@.len() as int) =~= entries);
    r
}

/// The `name` of `package.json`, when it is a non-empty string.
pub open spec fn package_name_spec(pj: Option<JsonValue>) -> Option<Seq<char>> {
    match pj {
        Some(j) => match j.spec_get("name"@) {
            Some(JsonValue::String(n)) => if n@.len() > 0 {
                Some(n@)
            } else {
                None
            },
            _ => None,
        },
        None => None,
    }
}

/// The package's name, when it has a non-empty one.
pub fn package_json_name(package_json: Option<&JsonValue>) -> (r: Option<String>)
    ensures
        match package_name_spec(match package_json {
            Some(j) => Some(*j),
            None => None,
        }) {
            Some(n) => r matches Some(s) && s@ == n,
            None => r is None,
        },
{
    let pj = package_json?;
    match get(pj, "name") {
        Some(JsonValue::String(n)) => if n.unicode_len() > 0 {
            Some(n.clone())
        } else {
            None
        },
        _ => None,
    }
}

// ---------------------------------------------------------------------------
// Framework detection

/// The framework a Node project uses, from the dependencies found, whether
/// a Hydrogen config file exists, and the build scripts' commands: the
/// first rule that applies decides.
pub open spec fn detect_framework_spec(found: Seq<Seq<char>>, hydrogen_config: bool, build_scripts: Seq<Seq<char>>) -> Option<NodeFramework> {
    if found.contains("next"@) {
        Some(NodeFramework::Next)
    } else if found.contains("astro"@) {
        Some(NodeFramework::Astro)
    } else if found.contains("@shopify/hydrogen"@) || found.contains("@shopify/remix-oxygen"@) || hydrogen_config {
        Some(NodeFramework::Hydrogen)
    } else if found.contains("@react-router/dev"@) || found.contains("@react-router/node"@) || found.contains("@react-router/serve"@) {
        Some(NodeFramework::ReactRouter)
    } else if found.contains("@remix-run/dev"@) || found.contains("@remix-run/node"@) || found.contains("@remix-run/react"@) || found.contains("@remix-run/server-runtime"@) {
        Some(NodeFramework::Remix)
    } else if found.contains("@sveltejs/kit"@) {
        Some(NodeFramework::Sveltekit)
    } else if found.contains("nitropack"@) || found.contains("nitro"@) {
        Some(NodeFramework::Nitro)
    } else if found.contains("@solidjs/start"@) || found.contains("solid-start"@) {
        Some(NodeFramework::Solidstart)
    } else if found.contains("@tanstack/react-start"@) || found.contains("@tanstack/solid-start"@) {
        Some(NodeFramework::TanstackStart)
    } else if found.contains("@nestjs/common"@) || found.contains("@nestjs/core"@) || found.contains("@nestjs/platform-express"@) || found.contains("@nestjs/platform-fastify"@) {
        Some(NodeFramework::Nestjs)
    } else if found.contains("hono"@) || found.contains("@hono/node-server"@) {
        Some(NodeFramework::Hono)
    } else if found.contains("express"@) {
        Some(NodeFramework::Express)
    } else if found.contains("h3"@) {
        Some(NodeFramework::H3)
    } else if found.contains("koa"@) {
        Some(NodeFramework::Koa)
    } else if found.contains("elysia"@) || found.contains("@elysia/node"@) {
        Some(NodeFramework::Elysia)
    } else if found.contains("fastify"@) {
        Some(NodeFramework::Fastify)
    } else if found.contains("xmcp"@) {
        Some(NodeFramework::Xmcp)
    } else if found.contains("mastra"@) || found.contains("@mastra/core"@) {
        Some(NodeFramework::Mastra)
    } else if exists|i: int| 0 <= i < build_scripts.len() && split_command_spec(#[trigger] build_scripts[i]).contains("next"@) {
        Some(NodeFramework::Next)
    } else {
        None
    }
}

fn mentions_next(command: &str) -> (r: bool)
    ensures
        r == split_command_spec(command@).contains("next"@),
{
    let tokens = split_command(command);
    let mut i: usize = 0;
    while i < tokens.len()
        invariant
            0 <= i <= tokens@.len(),
            crate::event::text_views(tokens@) == split_command_spec(command@),
            forall|j: int| 0 <= j < i ==> tokens@[j]@ != "next"@,
        decreases tokens@.len() - i,
    {
        if eq_str(tokens[i].as_str(), "next") {
            assert(split_command_spec(command@)[i as int] == "next"@);
            return true;
        }
        i = i + 1;
    }
    assert(!split_command_spec(command@).contains("next"@)) by {
        if split_command_spec(command@).contains("next"@) {
            let j = choose|j: int| 0 <= j < split_command_spec(command@).len() && split_command_spec(command@)[j] == "next"@;
            assert(tokens@[j]@ != "next"@);
        }
    }
    false
}

/// The framework of a Node project (see `detect_framework_spec`); the
/// build scripts are those `script_commands` finds for `build`.
pub fn detect_framework(package_json: Option<&JsonValue>, found_deps: &Vec<String>, has_hydrogen_config: bool) -> (r: Option<NodeFramework>)
    ensures
        r == detect_framework_spec(
            crate::event::text_views(found_deps@),
            has_hydrogen_config,
            script_commands_spec(scripts_of(match package_json {
                Some(j) => Some(*j),
                None => None,
            }), seq!["build"@]),
        ),
{
    if found(found_deps, "next") {
        return Some(NodeFramework::Next);
    }
    if found(found_deps, "astro") {
        return Some(NodeFramework::Astro);
    }
    if found(found_deps, "@shopify/hydrogen") || found(found_deps, "@shopify/remix-oxygen") || has_hydrogen_config {
        return Some(NodeFramework::Hydrogen);
    }
    if found(found_deps, "@react-router/dev") || found(found_deps, "@react-router/node") || found(found_deps, "@react-router/serve") {
        return Some(NodeFramework::ReactRouter);
    }
    if found(found_deps, "@remix-run/dev") || found(found_deps, "@remix-run/node") || found(found_deps, "@remix-run/react") || found(found_deps, "@remix-run/server-runtime") {
        return Some(NodeFramework::Remix);
    }
    if found(found_deps, "@sveltejs/kit") {
        return Some(NodeFramework::Sveltekit);
    }
    if found(found_deps, "nitropack") || found(found_deps, "nitro") {
        return Some(NodeFramework::Nitro);
    }
    if found(found_deps, "@solidjs/start") || found(found_deps, "solid-start") {
        return Some(NodeFramework::Solidstart);
    }
    if found(found_deps, "@tanstack/react-start") || found(found_deps, "@tanstack/solid-start") {
        return Some(NodeFramework::TanstackStart);
    }
    if found(found_deps, "@nestjs/common") || found(found_deps, "@nestjs/core") || found(found_deps, "@nestjs/platform-express") || found(found_deps, "@nestjs/platform-fastify") {
        return Some(NodeFramework::Nestjs);
    }
    if found(found_deps, "hono") || found(found_deps, "@hono/node-server") {
        return Some(NodeFramework::Hono);
    }
    if found(found_deps, "express") {
        return Some(NodeFramework::Express);
    }
    if found(found_deps, "h3") {
        return Some(NodeFramework::H3);
    }
    if found(found_deps, "koa") {
        return Some(NodeFramework::Koa);
    }
    if found(found_deps, "elysia") || found(found_deps, "@elysia/node") {
        return Some(NodeFramework::Elysia);
    }
    if found(found_deps, "fastify") {
        return Some(NodeFramework::Fastify);
    }
    if found(found_deps, "xmcp") {
        return Some(NodeFramework::Xmcp);
    }
    if found(found_deps, "mastra") || found(found_deps, "@mastra/core") {
        return Some(NodeFramework::Mastra);
    }
    let mut preferred: Vec<&str> = Vec::new();
    preferred.push("build");
    assert(preferred@.map_values(|p: &str| p@) =~= seq!["build"@]);
    let scripts = script_commands(package_json, &preferred);
    let ghost sc = crate::event::text_views(scripts@);
    let ghost spec_result = detect_framework_spec(crate::event::text_views(found_deps@), has_hydrogen_config, sc);
    assert(spec_result == (if exists|i: int| 0 <= i < sc.len() && split_command_spec(#[trigger] sc[i]).contains("next"@) {
        Some(NodeFramework::Next)
    } else {
        None
    }));
    let mut i: usize = 0;
    while i < scripts.len()
        invariant
            0 <= i <= scripts@.len(),
            sc == crate::event::text_views(scripts@),
            sc == script_commands_spec(scripts_of(match package_json {
                Some(j) => Some(*j),
                None => None,
            }), seq!["build"@]),
            spec_result == detect_framework_spec(crate::event::text_views(found_deps@), has_hydrogen_config, sc),
            spec_result == (if exists|i: int| 0 <= i < sc.len() && split_command_spec(#[trigger] sc[i]).contains("next"@) {
                Some(NodeFramework::Next)
            } else {
                None
            }),
            forall|j: int| 0 <= j < i ==> !split_command_spec(#[trigger] crate::event::text_views(scripts@)[j]).contains("next"@),
        decreases scripts@.len() - i,
    {
        assert(crate::event::text_views(scripts@)[i as int] == scripts@[i as int]@);
        if mentions_next(scripts[i].as_str()) {
            return Some(NodeFramework::Next);
        }
        i = i + 1;
    }
    None
}

// ---------------------------------------------------------------------------
// Dependency versions

/// The version text of `dep` in the first section that gives it as a string.
pub open spec fn dependency_version_from(j: JsonValue, dep: Seq<char>, i: int) -> Option<Seq<char>>
    decreases 3 - i,
{
    if i < 0 || i >= 3 {
        None
    } else {
        match section_members(j, dependency_sections()[i]) {
            Some(m) => match member_of(m, dep) {
                Some(JsonValue::String(v)) => Some(v@),
                _ => dependency_version_from(j, dep, i + 1),
            },
            None => dependency_version_from(j, dep, i + 1),
        }
    }
}

pub open spec fn dependency_version_spec(pj: Option<JsonValue>, dep: Seq<char>) -> Option<Seq<char>> {
    match pj {
        Some(j) => dependency_version_from(j, dep, 0),
        None => None,
    }
}

/// The version `package.json` asks for `dep`.
pub fn dependency_version(package_json: Option<&JsonValue>, dep: &str) -> (r: Option<String>)
    ensures
        match dependency_version_spec(match package_json {
            Some(j) => Some(*j),
            None => None,
        }, dep@) {
            Some(v) => r matches Some(s) && s@ == v,
            None => r is None,
        },
{
    let pj = package_json?;
    let mut i: usize = 0;
    while i < 3
        invariant
            0 <= i <= 3,
            package_json == Some(pj),
            dependency_version_from(*pj, dep@, 0) == dependency_version_from(*pj, dep@, i as int),
        decreases 3 - i,
    {
        if let Some(members) = section_of(pj, i) {
            if let Some(JsonValue::String(v)) = member_present(members, dep) {
                return Some(v.clone());
            }
        }
        i = i + 1;
    }
    None
}

/// Whether `dep` is listed, and with a version: whether its range admits
/// that exact `X.Y.Z` version. A section whose range does not parse (or a
/// version that is not `X.Y.Z`) is passed over.
pub open spec fn has_dependency_from(j: JsonValue, dep: Seq<char>, version: Option<Seq<char>>, i: int) -> bool
    decreases 3 - i,
{
    if i < 0 || i >= 3 {
        false
    } else {
        match section_members(j, dependency_sections()[i]) {
            Some(m) => match member_of(m, dep) {
                Some(v) => match version {
                    None => true,
                    Some(ver) => match (crate::version::parse_strict_version_spec(ver), v) {
                        (Some(t), JsonValue::String(range)) => match crate::version::npm_spec_matches(t, range@) {
                            Some(b) => b,
                            None => has_dependency_from(j, dep, version, i + 1),
                        },
                        _ => has_dependency_from(j, dep, version, i + 1),
                    },
                },
                None => has_dependency_from(j, dep, version, i + 1),
            },
            None => has_dependency_from(j, dep, version, i + 1),
        }
    }
}

/// Does `package.json` depend on `dep` (in a range that admits `version`,
/// when one is given)?
pub fn has_dependency(package_json: Option<&JsonValue>, dep: &str, version: Option<&str>) -> (r: bool)
    ensures
        r == match package_json {
            Some(j) => has_dependency_from(*j, dep@, match version {
                Some(v) => Some(v@),
                None => None,
            }, 0),
            None => false,
        },
{
    let Some(pj) = package_json else {
        return false;
    };
    let ghost ver = match version {
        Some(v) => Some(v@),
        None => None,
    };
    let mut i: usize = 0;
    while i < 3
        invariant
            0 <= i <= 3,
            package_json == Some(pj),
            ver == match version {
                Some(v) => Some(v@),
                None => None,
            },
            has_dependency_from(*pj, dep@, ver, 0) == has_dependency_from(*pj, dep@, ver, i as int),
        decreases 3 - i,
    {
        if let Some(members) = section_of(pj, i) {
            if let Some(spec) = member_present(members, dep) {
                match version {
                    None => {
                        return true;
                    },
                    Some(v) => {
                        if let (Some(target), JsonValue::String(range)) = (crate::version::parse_strict_version(v), spec) {
                            if let Some(matched) = crate::version::version_matches_npm_spec(target, range.as_str()) {
                                return matched;
                            }
                        }
                    },
                }
            }
        }
        i = i + 1;
    }
    false
}

/// Characters stripped from the front of a range before comparing majors.
pub open spec fn range_operator(c: char) -> bool {
    c == '^' || c == '~' || c == '>' || c == '=' || c == '<' || c == ' '
}

/// Is `dep` at major version `major`: its range admits `major.999.999`,
/// or, when the range does not parse, it reads `major` or `major.…` once
/// leading operators are stripped.
pub open spec fn has_dependency_major_spec(pj: Option<JsonValue>, dep: Seq<char>, major: u64) -> bool {
    match dependency_version_spec(pj, dep) {
        None => false,
        Some(v) => match crate::version::npm_spec_matches((major, 999, 999), v) {
            Some(b) => b,
            None => {
                let normalized = crate::text::trim_start_by(v, |c: char| range_operator(c));
                normalized == crate::text::decimal(major as nat) || has_prefix(
                    normalized,
                    crate::text::decimal(major as nat) + seq!['.'],
                )
            },
        },
    }
}

/// Does `package.json` depend on major version `major` of `dep`?
pub fn has_dependency_major(package_json: Option<&JsonValue>, dep: &str, major: u64) -> (r: bool)
    ensures
        r == has_dependency_major_spec(match package_json {
            Some(j) => Some(*j),
            None => None,
        }, dep@, major),
{
    let Some(version) = dependency_version(package_json, dep) else {
        return false;
    };
    if let Some(matched) = crate::version::version_matches_npm_spec((major, 999, 999), version.as_str()) {
        return matched;
    }
    let v = chars_of(version.as_str());
    let mut k: usize = 0;
    assert(v@.subrange(0, v@.len() as int) =~= v@);
    while k < v.len() && (v[k] == '^' || v[k] == '~' || v[k] == '>' || v[k] == '=' || v[k] == '<' || v[k] == ' ')
        invariant
            0 <= k <= v@.len(),
            crate::text::trim_start_by(v@, |c: char| range_operator(c)) == crate::text::trim_start_by(
                v@.subrange(k as int, v@.len() as int),
                |c: char| range_operator(c),
            ),
        decreases v@.len() - k,
    {
        let ghost sub = v@.subrange(k as int, v@.len() as int);
        assert(sub.drop_first() =~= v@.subrange(k + 1, v@.len() as int));
        k = k + 1;
    }
    let normalized = crate::text::slice_vec(&v, k, v.len());
    assert(crate::text::trim_start_by(v@.subrange(k as int, v@.len() as int), |c: char| range_operator(c))
        == v@.subrange(k as int, v@.len() as int));
    let digits = chars_of(crate::text::decimal_string(major).as_str());
    let mut with_dot = digits.clone();
    with_dot.push('.');
    assert(with_dot@ =~= digits@ + seq!['.']);
    crate::text::eq_chars(&normalized, &digits) || crate::text::starts_with_chars(&normalized, &with_dot)
}

// ---------------------------------------------------------------------------
// Build and start commands

/// The build command before bundling: the explicit one, else the
/// `build` script through the manager, else `next build` for Next.
pub open spec fn base_build_command(pj: Option<JsonValue>, pm: PackageManager, framework: Option<NodeFramework>, explicit: Option<Seq<char>>) -> Option<Seq<char>> {
    if explicit is Some {
        explicit
    } else if script_named(scripts_of(pj), "build"@) is Some {
        Some(pm.spec_value() + " run "@ + "build"@)
    } else if framework == Some(NodeFramework::Next) {
        Some(pm.spec_runner() + " "@ + "next build"@)
    } else {
        None
    }
}

/// The build command of a Node project; Next builds are bundled.
pub fn get_build_command(
    package_json: Option<&JsonValue>,
    package_manager: PackageManager,
    framework: Option<NodeFramework>,
    explicit_build_command: Option<&str>,
) -> (r: Result<Option<String>, NodeError>)
    ensures
        ({
            let base = base_build_command(match package_json {
                Some(j) => Some(*j),
                None => None,
            }, package_manager, framework, match explicit_build_command {
                Some(c) => Some(c@),
                None => None,
            });
            match (base, framework) {
                (Some(c), Some(NodeFramework::Next)) => if crate::text::contains_char(c, '\0') {
                    r == Err::<Option<String>, NodeError>(NodeError::UnquotableBuildCommand)
                } else {
                    r matches Ok(Some(s)) && s@ == package_manager.spec_dlx() + " "@ + ("next-bundle@1.0.0 --build-command "@
                        + shlex_quoted(c))
                },
                (Some(c), _) => r matches Ok(Some(s)) && s@ == c,
                (None, _) => r == Ok::<Option<String>, NodeError>(None),
            }
        }),
{
    let scripts = package_scripts(package_json);
    let command: Option<String> = match explicit_build_command {
        Some(c) => Some(c.to_owned()),
        None => if script_named_exec(&scripts, "build").is_some() {
            Some(package_manager.run_command("build"))
        } else if framework == Some(NodeFramework::Next) {
            Some(package_manager.run_execute_command("next build"))
        } else {
            None
        },
    };
    match (command, framework) {
        (Some(c), Some(f)) => match f.bundle_build_command(package_manager, c.as_str()) {
            Ok(b) => Ok(Some(b)),
            Err(e) => Err(e),
        },
        (c, _) => Ok(c),
    }
}

/// The files tried, in order, as a Node app's entry point.
pub open spec fn common_entry_files() -> Seq<Seq<char>> {
    seq!["server.js"@, "app.js"@, "index.js"@, "src/server.js"@, "src/index.js"@]
}

/// The first entry file that exists (and, when evidence is required, looks
/// like Node code); `candidates[i]` says whether file `i` qualifies.
pub fn common_entry_file(candidates: [bool; 5]) -> (r: Option<&'static str>)
    ensures
        match r {
            Some(f) => exists|i: int| 0 <= i < 5 && candidates@[i] && f@ == common_entry_files()[i] && forall|j: int| 0 <= j < i ==> !candidates@[j],
            None => forall|i: int| 0 <= i < 5 ==> !candidates@[i],
        },
{
    let files: [&'static str; 5] = ["server.js", "app.js", "index.js", "src/server.js", "src/index.js"];
    let mut i: usize = 0;
    while i < 5
        invariant
            0 <= i <= 5,
            files@.len() == 5,
            forall|j: int| 0 <= j < 5 ==> files@[j]@ == #[trigger] common_entry_files()[j],
            forall|j: int| 0 <= j < i ==> !candidates@[j],
        decreases 5 - i,
    {
        if candidates[i] {
            assert(files@[i as int]@ == common_entry_files()[i as int]);
            return Some(files[i]);
        }
        i = i + 1;
    }
    None
}

/// `node <entry>`, the entry shell-quoted.
pub fn node_entry_command(entry_file: &str) -> (r: Result<String, NodeError>)
    ensures
        crate::text::contains_char(entry_file@, '\0') ==> r == Err::<String, NodeError>(NodeError::UnquotableEntryFile),
        !crate::text::contains_char(entry_file@, '\0') ==> (r matches Ok(s) && s@ == "node "@ + shlex_quoted(entry_file@)),
{
    match shlex_quote(entry_file) {
        Some(q) => {
            let mut r = "node ".to_owned();
            push_str(&mut r, q.as_str());
            Ok(r)
        },
        None => Err(NodeError::UnquotableEntryFile),
    }
}

/// What start-command inference found: the command (or why it could not
/// be made) and the warnings to report.
#[derive(Debug, PartialEq, Eq)]
pub struct StartInference {
    pub command: Result<Option<String>, NodeError>,
    pub warnings: Vec<String>,
}

/// The start command of a Node app: the trimmed `start` script, else
/// `node <main>`, else `node <entry file>`; warnings when asked for.
pub fn infer_start_command(
    package_json: Option<&JsonValue>,
    package_json_is_file: bool,
    entry_file: Option<&str>,
    warn: bool,
) -> (r: StartInference)
    ensures
        ({
            let pj = match package_json {
                Some(j) => Some(*j),
                None => None,
            };
            let start = script_named(scripts_of(pj), "start"@);
            let main = match pj {
                Some(j) => match j.spec_get("main"@) {
                    Some(JsonValue::String(m)) => Some(m@),
                    _ => None,
                },
                None => None,
            };
            if start is Some && trim(start->0).len() > 0 {
                r.warnings@.len() == 0 && (r.command matches Ok(Some(c)) && c@ == trim(start->0))
            } else if main is Some && trim(main->0).len() > 0 {
                r.warnings@.len() == 0 && if crate::text::contains_char(trim(main->0), '\0') {
                    r.command == Err::<Option<String>, NodeError>(NodeError::UnquotableEntryFile)
                } else {
                    r.command matches Ok(Some(c)) && c@ == "node "@ + shlex_quoted(trim(main->0))
                }
            } else {
                &&& crate::event::text_views(r.warnings@) == (if warn && package_json_is_file {
                    seq!["no start or main script found in package.json"@]
                } else {
                    seq![]
                }) + (if warn && entry_file is None {
                    seq!["no entry file found for Node project (tried: server.js, app.js, index.js, src/server.js, src/index.js)"@]
                } else {
                    seq![]
                })
                &&& match entry_file {
                    None => r.command == Ok::<Option<String>, NodeError>(None),
                    Some(e) => if crate::text::contains_char(e@, '\0') {
                        r.command == Err::<Option<String>, NodeError>(NodeError::UnquotableEntryFile)
                    } else {
                        r.command matches Ok(Some(c)) && c@ == "node "@ + shlex_quoted(e@)
                    },
                }
            }
        }),
{
    let scripts = package_scripts(package_json);
    if let Some(start) = script_named_exec(&scripts, "start") {
        let trimmed = trim_str(start.as_str());
        if trimmed.unicode_len() > 0 {
            return StartInference { command: Ok(Some(trimmed)), warnings: Vec::new() };
        }
    }
    if let Some(pj) = package_json {
        if let Some(JsonValue::String(main)) = get(pj, "main") {
            let trimmed = trim_str(main.as_str());
            if trimmed.unicode_len() > 0 {
                let command = match node_entry_command(trimmed.as_str()) {
                    Ok(c) => Ok(Some(c)),
                    Err(e) => Err(e),
                };
                return StartInference { command, warnings: Vec::new() };
            }
        }
    }
    let mut warnings: Vec<String> = Vec::new();
    if warn && package_json_is_file {
        warnings.push("no start or main script found in package.json".to_owned());
    }
    let command = match entry_file {
        Some(e) => match node_entry_command(e) {
            Ok(c) => Ok(Some(c)),
            Err(err) => Err(err),
        },
        None => Ok(None),
    };
    if entry_file.is_none() && warn {
        warnings.push("no entry file found for Node project (tried: server.js, app.js, index.js, src/server.js, src/index.js)".to_owned());
    }
    proof {
        let a: Seq<Seq<char>> = if warn && package_json_is_file {
            seq!["no start or main script found in package.json"@]
        } else {
            seq![]
        };
        let b: Seq<Seq<char>> = if warn && entry_file is None {
            seq!["no entry file found for Node project (tried: server.js, app.js, index.js, src/server.js, src/index.js)"@]
        } else {
            seq![]
        };
        assert(crate::event::text_views(warnings@) =~= a + b);
    }
    StartInference { command, warnings }
}

// ---------------------------------------------------------------------------
// Detection

/// The dependencies that point to a Node framework.
pub open spec fn framework_dependencies() -> Seq<Seq<char>> {
    seq!["next"@, "astro"@, "@react-router/dev"@, "@react-router/node"@, "@react-router/serve"@, "@remix-run/dev"@, "@remix-run/node"@, "@remix-run/react"@, "@remix-run/server-runtime"@, "@sveltejs/kit"@, "@sveltejs/adapter-node"@, "nitropack"@, "nitro"@, "@solidjs/start"@, "solid-start"@, "solid-js"@, "@tanstack/react-start"@, "@tanstack/solid-start"@, "@shopify/hydrogen"@, "@shopify/remix-oxygen"@, "@nestjs/common"@, "@nestjs/core"@, "@nestjs/platform-express"@, "@nestjs/platform-fastify"@, "hono"@, "@hono/node-server"@, "express"@, "h3"@, "koa"@, "elysia"@, "@elysia/node"@, "fastify"@, "xmcp"@, "mastra"@, "@mastra/core"@]
}

/// The dependencies that point to a Node framework.
pub fn framework_dependency_names() -> (r: Vec<&'static str>)
    ensures
        r@.map_values(|d: &str| d@) == framework_dependencies(),
{
    let mut v: Vec<&'static str> = Vec::new();
    v.push("next");
    v.push("astro");
    v.push("@react-router/dev");
    v.push("@react-router/node");
    v.push("@react-router/serve");
    v.push("@remix-run/dev");
    v.push("@remix-run/node");
    v.push("@remix-run/react");
    v.push("@remix-run/server-runtime");
    v.push("@sveltejs/kit");
    v.push("@sveltejs/adapter-node");
    v.push("nitropack");
    v.push("nitro");
    v.push("@solidjs/start");
    v.push("solid-start");
    v.push("solid-js");
    v.push("@tanstack/react-start");
    v.push("@tanstack/solid-start");
    v.push("@shopify/hydrogen");
    v.push("@shopify/remix-oxygen");
    v.push("@nestjs/common");
    v.push("@nestjs/core");
    v.push("@nestjs/platform-express");
    v.push("@nestjs/platform-fastify");
    v.push("hono");
    v.push("@hono/node-server");
    v.push("express");
    v.push("h3");
    v.push("koa");
    v.push("elysia");
    v.push("@elysia/node");
    v.push("fastify");
    v.push("xmcp");
    v.push("mastra");
    v.push("@mastra/core");
    assert(v@.map_values(|d: &str| d@) =~= framework_dependencies());
    v
}

/// The install commands that mark a Node project.
pub open spec fn install_commands() -> Seq<Seq<char>> {
    seq!["npm install"@, "npm ci"@, "npm i"@, "pnpm install"@, "pnpm ci"@, "pnpm i"@, "yarn install"@, "yarn ci"@, "yarn i"@, "bun install"@, "bun ci"@, "bun i"@]
}

/// Whether `package.json` has a non-blank `start` script.
pub open spec fn has_package_start(pj: Option<JsonValue>) -> bool {
    script_named(scripts_of(pj), "start"@) matches Some(s) && trim(s).len() > 0
}

/// Is the command one of the install commands that mark a Node project?
fn known_install_command(i: &str) -> (r: bool)
    ensures
        r == install_commands().contains(i@),
{
    let commands: [&str; 12] = ["npm install", "npm ci", "npm i", "pnpm install", "pnpm ci", "pnpm i", "yarn install", "yarn ci", "yarn i", "bun install", "bun ci", "bun i"];
    let mut k: usize = 0;
    while k < 12
        invariant
            0 <= k <= 12,
            commands@.len() == 12,
            forall|j: int| 0 <= j < 12 ==> commands@[j]@ == #[trigger] install_commands()[j],
            forall|j: int| 0 <= j < k ==> install_commands()[j] != i@,
        decreases 12 - k,
    {
        if eq_str(i, commands[k]) {
            assert(install_commands()[k as int] == i@);
            return true;
        }
        k = k + 1;
    }
    assert(!install_commands().contains(i@)) by {
        if install_commands().contains(i@) {
            let j = choose|j: int| 0 <= j < install_commands().len() && install_commands()[j] == i@;
            assert(install_commands()[j] != i@);
        }
    }
    false
}

/// Why a project looks like a Node app.
#[derive(Debug, Clone, Copy, PartialEq, Eq, Structural)]
pub enum NodeEvidence {
    /// The start command runs a Node tool.
    StartCommand,
    /// A `package.json` with a start script.
    PackageWithStart,
    /// A `package.json` without one.
    Package,
    /// A runtime framework, with a start script.
    FrameworkWithStart,
    /// A runtime framework without one.
    Framework,
    /// An entry file with Node code.
    Entrypoint,
}

/// Why a project looks like a Node app (none when it does not):
/// a Node start command, a known install command, a framework, a
/// `package.json`, or a common entry file that looks like Node code.
pub open spec fn node_evidence_spec(
    start: Option<Seq<char>>,
    install: Option<Seq<char>>,
    pj: Option<JsonValue>,
    has_hydrogen_config: bool,
    package_json_is_file: bool,
    node_entry_found: bool,
) -> Option<NodeEvidence> {
    let package_evidence = if has_package_start(pj) { NodeEvidence::PackageWithStart } else { NodeEvidence::Package };
    if start matches Some(st) && st.len() > 0 && split_command_spec(st).len() > 0 && start_programs().contains(split_command_spec(st)[0]) {
        Some(NodeEvidence::StartCommand)
    } else if install matches Some(i) && i.len() > 0 && install_commands().contains(i) {
        Some(package_evidence)
    } else if detect_framework_spec(
        found_deps_spec(pj, framework_dependencies()),
        has_hydrogen_config,
        script_commands_spec(scripts_of(pj), seq!["build"@]),
    ) is Some {
        Some(if has_package_start(pj) { NodeEvidence::FrameworkWithStart } else { NodeEvidence::Framework })
    } else if package_json_is_file {
        Some(package_evidence)
    } else if node_entry_found {
        Some(NodeEvidence::Entrypoint)
    } else {
        None
    }
}

/// Why a project looks like a Node app, from the custom start and install
/// commands, `package.json`, whether a Hydrogen config and a
/// `package.json` file exist, and whether a common entry file with Node
/// code was found.
pub fn detection_evidence(
    start: &Option<String>,
    install: &Option<String>,
    package_json: Option<&JsonValue>,
    has_hydrogen_config: bool,
    package_json_is_file: bool,
    node_entry_found: bool,
) -> (r: Option<NodeEvidence>)
    ensures
        r == node_evidence_spec(
            match start {
                Some(s) => Some(s@),
                None => None,
            },
            match install {
                Some(s) => Some(s@),
                None => None,
            },
            match package_json {
                Some(j) => Some(*j),
                None => None,
            },
            has_hydrogen_config,
            package_json_is_file,
            node_entry_found,
        ),
{
    if let Some(st) = non_empty(start) {
        if is_node_command(st) {
            return Some(NodeEvidence::StartCommand);
        }
    }
    let scripts = package_scripts(package_json);
    let has_start = match script_named_exec(&scripts, "start") {
        Some(s) => trim_str(s.as_str()).unicode_len() > 0,
        None => false,
    };
    let package_evidence = if has_start { NodeEvidence::PackageWithStart } else { NodeEvidence::Package };
    if let Some(i) = non_empty(install) {
        if known_install_command(i) {
            return Some(package_evidence);
        }
    }
    let deps = framework_dependency_names();
    let found_deps = check_package_json_deps(package_json, &deps);
    if detect_framework(package_json, &found_deps, has_hydrogen_config).is_some() {
        return Some(if has_start { NodeEvidence::FrameworkWithStart } else { NodeEvidence::Framework });
    }
    if package_json_is_file {
        return Some(package_evidence);
    }
    if node_entry_found {
        return Some(NodeEvidence::Entrypoint);
    }
    None
}

/// `has_dependency` over an optional `package.json`.
pub open spec fn has_dependency_from_opt(pj: Option<JsonValue>, dep: Seq<char>, version: Option<Seq<char>>) -> bool {
    match pj {
        Some(j) => has_dependency_from(j, dep, version, 0),
        None => false,
    }
}

// ---------------------------------------------------------------------------
// Settings

/// What `serde_json::from_str::<Vec<String>>` makes of a text: the strings
/// of a JSON array of strings, or the parser's error message.
pub uninterp spec fn json_string_list(raw: Seq<char>) -> Result<Seq<Seq<char>>, Seq<char>>;

/// `serde_json::from_str::<Vec<String>>`, with the error as its message.
#[verifier::external_body]
fn parse_string_list(raw: &str) -> (r: Result<Vec<String>, String>)
    ensures
        match json_string_list(raw@) {
            Ok(items) => (r matches Ok(v) && crate::event::text_views(v@) == items),
            Err(m) => (r matches Err(e) && e@ == m),
        },
{
    serde_json::from_str::<Vec<String>>(raw).map_err(|e| e.to_string())
}

/// A list field's override, read as a JSON array of strings.
pub open spec fn json_list_override(env: Seq<(Seq<char>, Seq<char>)>, field: Seq<char>) -> Result<Option<Seq<Seq<char>>>, Seq<char>> {
    match crate::base::env_value_spec(env, field) {
        None => Ok(None),
        Some(p) => match json_string_list(p.1) {
            Ok(items) => Ok(Some(items)),
            Err(m) => Err(crate::base::invalid_value_text(p.0, p.1, "valid JSON: "@ + m)),
        },
    }
}

fn env_string_list(env: &Vec<(String, String)>, field: &str) -> (r: Result<Option<Vec<String>>, String>)
    ensures
        match json_list_override(crate::env_map::pairs_view(env@), field@) {
            Ok(None) => r matches Ok(None),
            Ok(Some(items)) => (r matches Ok(Some(v)) && crate::event::text_views(v@) == items),
            Err(m) => (r matches Err(e) && e@ == m),
        },
{
    match crate::base::env_value(env, field) {
        None => Ok(None),
        Some((name, raw)) => match parse_string_list(&raw) {
            Ok(items) => Ok(Some(items)),
            Err(message) => {
                let mut expected = crate::text::copy_str("valid JSON: ");
                push_str(&mut expected, &message);
                Err(crate::base::invalid_value(&name, &raw, &expected))
            },
        },
    }
}

/// The package manager an override names, if it names one.
pub open spec fn manager_override(env: Seq<(Seq<char>, Seq<char>)>) -> Result<Option<PackageManager>, Seq<char>> {
    crate::base::enum_override(env, "package_manager"@, |v: Seq<char>| PackageManager::spec_from_name(v), "a supported package manager"@)
}

/// The framework override names no framework.
pub open spec fn framework_override_invalid(env: Seq<(Seq<char>, Seq<char>)>) -> bool {
    crate::base::env_value_spec(env, "framework"@) matches Some(p) && forall|f: NodeFramework| f.spec_value() != p.1
}

/// The first error among the Node settings' overrides, in field order.
pub open spec fn node_env_error(env: Seq<(Seq<char>, Seq<char>)>) -> Option<Seq<char>> {
    if bool_override(env, "use_edgejs"@) is Err {
        Some(bool_override(env, "use_edgejs"@)->Err_0)
    } else if bool_override(env, "precompile_edgejs"@) is Err {
        Some(bool_override(env, "precompile_edgejs"@)->Err_0)
    } else if manager_override(env) is Err {
        Some(manager_override(env)->Err_0)
    } else if framework_override_invalid(env) {
        let p = env_value_spec(env, "framework"@)->Some_0;
        Some(invalid_value_text(p.0, p.1, "a supported Node framework"@))
    } else if json_list_override(env, "extra_dependencies"@) is Err {
        Some(json_list_override(env, "extra_dependencies"@)->Err_0)
    } else if bool_override(env, "optimize_node_dependencies"@) is Err {
        Some(bool_override(env, "optimize_node_dependencies"@)->Err_0)
    } else if bool_override(env, "remove_native_binaries"@) is Err {
        Some(bool_override(env, "remove_native_binaries"@)->Err_0)
    } else if bool_override(env, "install_requires_all_files"@) is Err {
        Some(bool_override(env, "install_requires_all_files"@)->Err_0)
    } else if json_list_override(env, "install_inputs"@) is Err {
        Some(json_list_override(env, "install_inputs"@)->Err_0)
    } else {
        None
    }
}

/// The settings of the Node toolchain.
#[derive(Debug, Clone, PartialEq, Eq)]
pub struct NodeConfigFields {
    pub use_edgejs: Option<bool>,
    pub precompile_edgejs: Option<bool>,
    pub package_manager: Option<PackageManager>,
    pub framework: Option<NodeFramework>,
    /// A sorted set.
    pub extra_dependencies: Vec<String>,
    pub build_command: Option<String>,
    pub node_version: Option<String>,
    pub npm_version: Option<String>,
    pub pnpm_version: Option<String>,
    pub yarn_version: Option<String>,
    pub bun_version: Option<String>,
    pub optimize_node_dependencies: Option<bool>,
    /// Remove native binaries from `node_modules` when targeting Edge,
    /// where they cannot run.
    pub remove_native_binaries: Option<bool>,
    pub install_requires_all_files: bool,
    pub install_inputs: Option<Vec<String>>,
    pub package_name: Option<String>,
}

pub open spec fn opt_text(o: Option<String>) -> Option<Seq<char>> {
    match o {
        Some(s) => Some(s@),
        None => None,
    }
}

pub open spec fn opt_texts(o: Option<Vec<String>>) -> Option<Seq<Seq<char>>> {
    match o {
        Some(v) => Some(crate::event::text_views(v@)),
        None => None,
    }
}

pub open spec fn bool_or(r: Result<Option<bool>, Seq<char>>, d: bool) -> bool {
    match r {
        Ok(Some(b)) => b,
        _ => d,
    }
}

impl Default for NodeConfigFields {
    fn default() -> (r: Self)
        ensures
            r.use_edgejs == Some(false),
            r.precompile_edgejs is None,
            r.package_manager is None,
            r.framework is None,
            r.extra_dependencies@.len() == 0,
            r.build_command is None,
            opt_text(r.node_version) == Some("24"@),
            r.npm_version is None,
            r.pnpm_version is None,
            r.yarn_version is None,
            r.bun_version is None,
            r.optimize_node_dependencies == Some(true),
            r.remove_native_binaries == Some(false),
            !r.install_requires_all_files,
            r.install_inputs is None,
            r.package_name is None,
    {
        NodeConfigFields {
            use_edgejs: Some(false),
            precompile_edgejs: None,
            package_manager: None,
            framework: None,
            extra_dependencies: Vec::new(),
            build_command: None,
            node_version: Some("24".to_owned()),
            npm_version: None,
            pnpm_version: None,
            yarn_version: None,
            bun_version: None,
            optimize_node_dependencies: Some(true),
            remove_native_binaries: Some(false),
            install_requires_all_files: false,
            install_inputs: None,
            package_name: None,
        }
    }
}

/// The Node settings read from the environment over their defaults (when
/// `node_env_error` finds no error).
pub open spec fn node_fields_from_env(env: Seq<(Seq<char>, Seq<char>)>, c: NodeConfigFields) -> bool {
    &&& c.use_edgejs == Some(bool_or(bool_override(env, "use_edgejs"@), false))
    &&& c.precompile_edgejs == bool_override(env, "precompile_edgejs"@)->Ok_0
    &&& c.package_manager == manager_override(env)->Ok_0
    &&& (c.framework is None <==> env_value_spec(env, "framework"@) is None)
    &&& (c.framework matches Some(f) ==> f.spec_value() == env_value_spec(env, "framework"@)->Some_0.1)
    &&& crate::event::text_views(c.extra_dependencies@) == crate::text::sorted_unique(
        match json_list_override(env, "extra_dependencies"@) {
            Ok(Some(items)) => items,
            _ => seq![],
        },
    )
    &&& opt_text(c.build_command) == str_override(env, "build_command"@)
    &&& opt_text(c.node_version) == Some(
        match str_override(env, "node_version"@) {
            Some(v) => v,
            None => "24"@,
        },
    )
    &&& opt_text(c.npm_version) == str_override(env, "npm_version"@)
    &&& opt_text(c.pnpm_version) == str_override(env, "pnpm_version"@)
    &&& opt_text(c.yarn_version) == str_override(env, "yarn_version"@)
    &&& opt_text(c.bun_version) == str_override(env, "bun_version"@)
    &&& c.optimize_node_dependencies == Some(bool_or(bool_override(env, "optimize_node_dependencies"@), true))
    &&& c.remove_native_binaries == Some(bool_or(bool_override(env, "remove_native_binaries"@), false))
    &&& c.install_requires_all_files == bool_or(bool_override(env, "install_requires_all_files"@), false)
    &&& opt_texts(c.install_inputs) == json_list_override(env, "install_inputs"@)->Ok_0
    &&& opt_text(c.package_name) == str_override(env, "package_name"@)
}

fn bool_or_default(r: Result<Option<bool>, String>, d: bool) -> (out: Result<bool, String>)
    ensures
        match r {
            Ok(Some(b)) => out == Ok::<bool, String>(b),
            Ok(None) => out == Ok::<bool, String>(d),
            Err(e) => out == Err::<bool, String>(e),
        },
{
    match r {
        Ok(Some(b)) => Ok(b),
        Ok(None) => Ok(d),
        Err(e) => Err(e),
    }
}

fn str_or(o: Option<String>, d: &str) -> (r: Option<String>)
    ensures
        opt_text(r) == Some(
            match o {
                Some(s) => s@,
                None => d@,
            },
        ),
{
    match o {
        Some(s) => Some(s),
        None => Some(d.to_owned()),
    }
}

fn manager_from_env(env: &Vec<(String, String)>) -> (r: Result<Option<PackageManager>, String>)
    ensures
        crate::base::err_view(r) == manager_override(crate::env_map::pairs_view(env@)),
{
    match crate::base::env_value(env, "package_manager") {
        None => Ok(None),
        Some((name, raw)) => match PackageManager::from_name(&raw) {
            Some(m) => Ok(Some(m)),
            None => Err(crate::base::invalid_value(&name, &raw, "a supported package manager")),
        },
    }
}

fn framework_from_env(env: &Vec<(String, String)>) -> (r: Result<Option<NodeFramework>, String>)
    ensures
        framework_override_invalid(crate::env_map::pairs_view(env@)) ==> (r matches Err(e) && e@
            == crate::base::invalid_value_text(
            crate::base::env_value_spec(crate::env_map::pairs_view(env@), "framework"@)->Some_0.0,
            crate::base::env_value_spec(crate::env_map::pairs_view(env@), "framework"@)->Some_0.1,
            "a supported Node framework"@,
        )),
        !framework_override_invalid(crate::env_map::pairs_view(env@)) ==> (r matches Ok(f) && (f is None
            <==> crate::base::env_value_spec(crate::env_map::pairs_view(env@), "framework"@) is None) && (f matches Some(
            g,
        ) ==> g.spec_value() == crate::base::env_value_spec(crate::env_map::pairs_view(env@), "framework"@)->Some_0.1)),
{
    match crate::base::env_value(env, "framework") {
        None => Ok(None),
        Some((name, raw)) => match NodeFramework::from_value(&raw) {
            Some(f) => Ok(Some(f)),
            None => Err(crate::base::invalid_value(&name, &raw, "a supported Node framework")),
        },
    }
}

impl NodeConfigFields {
    /// The Node settings read from the environment.
    pub fn from_env(env: &Vec<(String, String)>) -> (r: Result<NodeConfigFields, String>)
        ensures
            match node_env_error(crate::env_map::pairs_view(env@)) {
                Some(m) => (r matches Err(e) && e@ == m),
                None => (r matches Ok(c) && node_fields_from_env(crate::env_map::pairs_view(env@), c)),
            },
    {
        let use_edgejs = match bool_or_default(crate::base::env_bool(env, "use_edgejs"), false) {
            Ok(b) => b,
            Err(e) => return Err(e),
        };
        let precompile_edgejs = match crate::base::env_bool(env, "precompile_edgejs") {
            Ok(b) => b,
            Err(e) => return Err(e),
        };
        let package_manager = match manager_from_env(env) {
            Ok(m) => m,
            Err(e) => return Err(e),
        };
        let framework = match framework_from_env(env) {
            Ok(f) => f,
            Err(e) => return Err(e),
        };
        let extra = match env_string_list(env, "extra_dependencies") {
            Ok(Some(items)) => items,
            Ok(None) => Vec::new(),
            Err(e) => return Err(e),
        };
        let extra_dependencies = crate::text::sorted_unique_exec(&extra);
        let build_command = crate::base::env_str(env, "build_command");
        let node_version = str_or(crate::base::env_str(env, "node_version"), "24");
        let npm_version = crate::base::env_str(env, "npm_version");
        let pnpm_version = crate::base::env_str(env, "pnpm_version");
        let yarn_version = crate::base::env_str(env, "yarn_version");
        let bun_version = crate::base::env_str(env, "bun_version");
        let optimize = match bool_or_default(crate::base::env_bool(env, "optimize_node_dependencies"), true) {
            Ok(b) => b,
            Err(e) => return Err(e),
        };
        let remove = match bool_or_default(crate::base::env_bool(env, "remove_native_binaries"), false) {
            Ok(b) => b,
            Err(e) => return Err(e),
        };
        let all_files = match bool_or_default(crate::base::env_bool(env, "install_requires_all_files"), false) {
            Ok(b) => b,
            Err(e) => return Err(e),
        };
        let install_inputs = match env_string_list(env, "install_inputs") {
            Ok(items) => items,
            Err(e) => return Err(e),
        };
        let package_name = crate::base::env_str(env, "package_name");
        proof {
            reveal_strlit("24");
        }
        Ok(NodeConfigFields {
            use_edgejs: Some(use_edgejs),
            precompile_edgejs,
            package_manager,
            framework,
            extra_dependencies,
            build_command,
            node_version,
            npm_version,
            pnpm_version,
            yarn_version,
            bun_version,
            optimize_node_dependencies: Some(optimize),
            remove_native_binaries: Some(remove),
            install_requires_all_files: all_files,
            install_inputs,
            package_name,
        })
    }
}

/// A Node app's settings: the shared ones and the Node toolchain's.
#[derive(Debug, Clone, PartialEq, Eq)]
pub struct NodeConfig {
    pub base: crate::base::BaseConfig,
    pub node: NodeConfigFields,
}

impl Default for NodeConfig {
    fn default() -> (r: Self)
        ensures
            r.base.port == Some(8080i64),
            r.base.name is None,
            r.node.use_edgejs == Some(false),
            opt_text(r.node.node_version) == Some("24"@),
    {
        NodeConfig { base: crate::base::BaseConfig::default(), node: NodeConfigFields::default() }
    }
}

impl NodeConfig {
    /// The Node settings over `base`, read from the environment.
    pub fn from_env(base: crate::base::BaseConfig, env: &Vec<(String, String)>) -> (r: Result<NodeConfig, String>)
        ensures
            match node_env_error(crate::env_map::pairs_view(env@)) {
                Some(m) => (r matches Err(e) && e@ == m),
                None => (r matches Ok(c) && c.base == base && node_fields_from_env(crate::env_map::pairs_view(env@), c.node)),
            },
    {
        match NodeConfigFields::from_env(env) {
            Ok(node) => Ok(NodeConfig { base, node }),
            Err(e) => Err(e),
        }
    }
}

impl crate::base::HasBase for NodeConfig {
    fn base(&self) -> &crate::base::BaseConfig {
        &self.base
    }

    fn base_mut(&mut self) -> &mut crate::base::BaseConfig {
        &mut self.base
    }
}

// ---------------------------------------------------------------------------
// Entry files

/// What `Regex::is_match` says of a pattern and a text.
pub uninterp spec fn regex_match(pattern: Seq<char>, text: Seq<char>) -> bool;

/// `Regex::new(pattern)` then `is_match(text)`; false for an invalid
/// pattern.
#[verifier::external_body]
pub(crate) fn regex_is_match(pattern: &str, text: &str) -> (r: bool)
    ensures
        r == regex_match(pattern@, text@),
{
    match regex::Regex::new(pattern) {
        Ok(re) => re.is_match(text),
        Err(_) => false,
    }
}

/// A `#!` line that runs `node` or `nodejs`.
pub open spec fn node_shebang_pattern() -> Seq<char> {
    "\\bnode(?:js)?\\b"@
}

/// CommonJS exports, `__dirname`/`__filename`, `process.<member>`, or a
/// `.listen(` call.
pub open spec fn node_marker_pattern() -> Seq<char> {
    "\\bmodule\\.exports\\b|\\bexports\\.|\\b__dirname\\b|\\b__filename\\b|\\bprocess\\.(?:env|argv|exit|cwd|platform|version)\\b|\\b[A-Za-z_$][\\w$]*\\.listen\\s*\\("@
}

/// `require` of a Node built-in module.
pub open spec fn node_require_pattern() -> Seq<char> {
    "\\brequire\\s*\\(\\s*['\"](?:node:)?(?:assert|buffer|child_process|cluster|crypto|dgram|dns|events|fs|http|http2|https|module|net|os|path|perf_hooks|process|querystring|readline|stream|timers|tls|tty|url|util|v8|vm|worker_threads|zlib)(?:/[^'\"\\s)]*)?['\"]\\s*\\)"@
}

/// Dynamic `import` of a Node built-in module.
pub open spec fn node_dynamic_import_pattern() -> Seq<char> {
    "\\bimport\\s*\\(\\s*['\"](?:node:)?(?:assert|buffer|child_process|cluster|crypto|dgram|dns|events|fs|http|http2|https|module|net|os|path|perf_hooks|process|querystring|readline|stream|timers|tls|tty|url|util|v8|vm|worker_threads|zlib)(?:/[^'\"\\s)]*)?['\"]\\s*\\)"@
}

/// `from` a Node built-in module.
pub open spec fn node_from_pattern() -> Seq<char> {
    "\\bfrom\\s*['\"](?:node:)?(?:assert|buffer|child_process|cluster|crypto|dgram|dns|events|fs|http|http2|https|module|net|os|path|perf_hooks|process|querystring|readline|stream|timers|tls|tty|url|util|v8|vm|worker_threads|zlib)(?:/[^'\"\\s)]*)?['\"]"@
}

/// Static `import` of a Node built-in module.
pub open spec fn node_import_pattern() -> Seq<char> {
    "\\bimport\\s*['\"](?:node:)?(?:assert|buffer|child_process|cluster|crypto|dgram|dns|events|fs|http|http2|https|module|net|os|path|perf_hooks|process|querystring|readline|stream|timers|tls|tty|url|util|v8|vm|worker_threads|zlib)(?:/[^'\"\\s)]*)?['\"]"@
}

/// The first line of a text, without its line break.
pub open spec fn first_line(s: Seq<char>) -> Seq<char> {
    let l = crate::text::before_first(s, crate::text::char_pred('\n'));
    if l.len() > 0 && l.last() == '\r' {
        l.drop_last()
    } else {
        l
    }
}

/// Source code that looks like a Node program: a `node` shebang, a Node
/// marker, or a reference to a Node built-in module.
pub open spec fn node_entry_spec(source: Seq<char>) -> bool {
    ||| (has_prefix(first_line(source), "#!"@) && regex_match(node_shebang_pattern(), first_line(source)))
    ||| regex_match(node_marker_pattern(), source)
    ||| regex_match(node_require_pattern(), source)
    ||| regex_match(node_dynamic_import_pattern(), source)
    ||| regex_match(node_from_pattern(), source)
    ||| regex_match(node_import_pattern(), source)
}

fn first_line_exec(source: &str) -> (r: String)
    ensures
        r@ == first_line(source@),
{
    let v = chars_of(source);
    let mut k: usize = 0;
    assert(v@.subrange(0, v@.len() as int) =~= v@);
    assert(v@.subrange(0, 0) + v@ =~= v@);
    while k < v.len() && v[k] != '\n'
        invariant
            0 <= k <= v@.len(),
            crate::text::before_first(v@, crate::text::char_pred('\n')) == v@.subrange(0, k as int)
                + crate::text::before_first(v@.subrange(k as int, v@.len() as int), crate::text::char_pred('\n')),
        decreases v@.len() - k,
    {
        let ghost rest = v@.subrange(k as int, v@.len() as int);
        assert(rest.drop_first() =~= v@.subrange(k + 1, v@.len() as int));
        assert(v@.subrange(0, k + 1) =~= v@.subrange(0, k as int) + seq![rest[0]]);
        k = k + 1;
    }
    assert(crate::text::before_first(v@.subrange(k as int, v@.len() as int), crate::text::char_pred('\n')) =~= seq![]);
    assert(v@.subrange(0, k as int) + Seq::<char>::empty() =~= v@.subrange(0, k as int));
    let end = if k > 0 && v[k - 1] == '\r' {
        k - 1
    } else {
        k
    };
    assert(k > 0 && v@[k - 1] == '\r' ==> v@.subrange(0, k as int).drop_last() =~= v@.subrange(0, k - 1));
    crate::text::string_of(&crate::text::slice_vec(&v, 0, end))
}

/// Whether an entry file's source looks like a Node program.
pub fn looks_like_node_entry(source: &str) -> (r: bool)
    ensures
        r == node_entry_spec(source@),
{
    let first = first_line_exec(source);
    if starts_with_str(first.as_str(), "#!") && regex_is_match("\\bnode(?:js)?\\b", first.as_str()) {
        return true;
    }
    regex_is_match("\\bmodule\\.exports\\b|\\bexports\\.|\\b__dirname\\b|\\b__filename\\b|\\bprocess\\.(?:env|argv|exit|cwd|platform|version)\\b|\\b[A-Za-z_$][\\w$]*\\.listen\\s*\\(", source)
        || regex_is_match("\\brequire\\s*\\(\\s*['\"](?:node:)?(?:assert|buffer|child_process|cluster|crypto|dgram|dns|events|fs|http|http2|https|module|net|os|path|perf_hooks|process|querystring|readline|stream|timers|tls|tty|url|util|v8|vm|worker_threads|zlib)(?:/[^'\"\\s)]*)?['\"]\\s*\\)", source)
        || regex_is_match("\\bimport\\s*\\(\\s*['\"](?:node:)?(?:assert|buffer|child_process|cluster|crypto|dgram|dns|events|fs|http|http2|https|module|net|os|path|perf_hooks|process|querystring|readline|stream|timers|tls|tty|url|util|v8|vm|worker_threads|zlib)(?:/[^'\"\\s)]*)?['\"]\\s*\\)", source)
        || regex_is_match("\\bfrom\\s*['\"](?:node:)?(?:assert|buffer|child_process|cluster|crypto|dgram|dns|events|fs|http|http2|https|module|net|os|path|perf_hooks|process|querystring|readline|stream|timers|tls|tty|url|util|v8|vm|worker_threads|zlib)(?:/[^'\"\\s)]*)?['\"]", source)
        || regex_is_match("\\bimport\\s*['\"](?:node:)?(?:assert|buffer|child_process|cluster|crypto|dgram|dns|events|fs|http|http2|https|module|net|os|path|perf_hooks|process|querystring|readline|stream|timers|tls|tty|url|util|v8|vm|worker_threads|zlib)(?:/[^'\"\\s)]*)?['\"]", source)
}

/// The dependencies whose presence makes `detect_framework_spec` name a framework.
pub open spec fn app_framework_marker(f: NodeFramework, name: Seq<char>) -> bool {
    match f {
        NodeFramework::Next => name == "next"@,
        NodeFramework::Astro => name == "astro"@,
        NodeFramework::Hydrogen => name == "@shopify/hydrogen"@ || name == "@shopify/remix-oxygen"@,
        NodeFramework::ReactRouter => name == "@react-router/dev"@ || name == "@react-router/node"@ || name == "@react-router/serve"@,
        NodeFramework::Remix => name == "@remix-run/dev"@ || name == "@remix-run/node"@ || name == "@remix-run/react"@ || name == "@remix-run/server-runtime"@,
        NodeFramework::Sveltekit => name == "@sveltejs/kit"@,
        NodeFramework::Nitro => name == "nitropack"@ || name == "nitro"@,
        NodeFramework::Solidstart => name == "@solidjs/start"@ || name == "solid-start"@,
        NodeFramework::TanstackStart => name == "@tanstack/react-start"@ || name == "@tanstack/solid-start"@,
        NodeFramework::Nestjs => name == "@nestjs/common"@ || name == "@nestjs/core"@ || name == "@nestjs/platform-express"@ || name == "@nestjs/platform-fastify"@,
        NodeFramework::Hono => name == "hono"@ || name == "@hono/node-server"@,
        NodeFramework::Express => name == "express"@,
        NodeFramework::H3 => name == "h3"@,
        NodeFramework::Koa => name == "koa"@,
        NodeFramework::Elysia => name == "elysia"@ || name == "@elysia/node"@,
        NodeFramework::Fastify => name == "fastify"@,
        NodeFramework::Xmcp => name == "xmcp"@,
        NodeFramework::Mastra => name == "mastra"@ || name == "@mastra/core"@,
        _ => false,
    }
}

/// The framework detected for a Node app is always one whose own
/// dependency was found, except Hydrogen, which its config file also
/// marks, and Next, which a build script that runs `next` also marks; one
/// is detected whenever any framework's dependency is found; and where the
/// found dependencies mark one framework only (and no Hydrogen config
/// exists), that framework is the one detected.
pub proof fn law_app_framework_follows_its_dependency(found: Seq<Seq<char>>, hydrogen_config: bool, build_scripts: Seq<Seq<char>>, sole: NodeFramework)
    ensures
        detect_framework_spec(found, hydrogen_config, build_scripts) matches Some(f) ==> (exists|name: Seq<char>| found.contains(name) && #[trigger] app_framework_marker(f, name))
            || (f == NodeFramework::Hydrogen && hydrogen_config)
            || (f == NodeFramework::Next && exists|i: int| 0 <= i < build_scripts.len() && split_command_spec(#[trigger] build_scripts[i]).contains("next"@)),
        (hydrogen_config || exists|f: NodeFramework, name: Seq<char>| found.contains(name) && #[trigger] app_framework_marker(f, name)) ==> detect_framework_spec(found, hydrogen_config, build_scripts) is Some,
        (exists|name: Seq<char>| found.contains(name) && #[trigger] app_framework_marker(sole, name))
            && (forall|f: NodeFramework, name: Seq<char>| found.contains(name) && #[trigger] app_framework_marker(f, name) ==> f == sole)
            && !hydrogen_config ==> detect_framework_spec(found, hydrogen_config, build_scripts) == Some(sole),
{
    if found.contains("next"@) {
        if found.contains("next"@) {
            assert(app_framework_marker(NodeFramework::Next, "next"@));
        }
    } else if found.contains("astro"@) {
        if found.contains("astro"@) {
            assert(app_framework_marker(NodeFramework::Astro, "astro"@));
        }
    } else if found.contains("@shopify/hydrogen"@) || found.contains("@shopify/remix-oxygen"@) || hydrogen_config {
        if found.contains("@shopify/hydrogen"@) {
            assert(app_framework_marker(NodeFramework::Hydrogen, "@shopify/hydrogen"@));
        } else if found.contains("@shopify/remix-oxygen"@) {
            assert(app_framework_marker(NodeFramework::Hydrogen, "@shopify/remix-oxygen"@));
        }
    } else if found.contains("@react-router/dev"@) || found.contains("@react-router/node"@) || found.contains("@react-router/serve"@) {
        if found.contains("@react-router/dev"@) {
            assert(app_framework_marker(NodeFramework::ReactRouter, "@react-router/dev"@));
        } else if found.contains("@react-router/node"@) {
            assert(app_framework_marker(NodeFramework::ReactRouter, "@react-router/node"@));
        } else if found.contains("@react-router/serve"@) {
            assert(app_framework_marker(NodeFramework::ReactRouter, "@react-router/serve"@));
        }
    } else if found.contains("@remix-run/dev"@) || found.contains("@remix-run/node"@) || found.contains("@remix-run/react"@) || found.contains("@remix-run/server-runtime"@) {
        if found.contains("@remix-run/dev"@) {
            assert(app_framework_marker(NodeFramework::Remix, "@remix-run/dev"@));
        } else if found.contains("@remix-run/node"@) {
            assert(app_framework_marker(NodeFramework::Remix, "@remix-run/node"@));
        } else if found.contains("@remix-run/react"@) {
            assert(app_framework_marker(NodeFramework::Remix, "@remix-run/react"@));
        } else if found.contains("@remix-run/server-runtime"@) {
            assert(app_framework_marker(NodeFramework::Remix, "@remix-run/server-runtime"@));
        }
    } else if found.contains("@sveltejs/kit"@) {
        if found.contains("@sveltejs/kit"@) {
            assert(app_framework_marker(NodeFramework::Sveltekit, "@sveltejs/kit"@));
        }
    } else if found.contains("nitropack"@) || found.contains("nitro"@) {
        if found.contains("nitropack"@) {
            assert(app_framework_marker(NodeFramework::Nitro, "nitropack"@));
        } else if found.contains("nitro"@) {
            assert(app_framework_marker(NodeFramework::Nitro, "nitro"@));
        }
    } else if found.contains("@solidjs/start"@) || found.contains("solid-start"@) {
        if found.contains("@solidjs/start"@) {
            assert(app_framework_marker(NodeFramework::Solidstart, "@solidjs/start"@));
        } else if found.contains("solid-start"@) {
            assert(app_framework_marker(NodeFramework::Solidstart, "solid-start"@));
        }
    } else if found.contains("@tanstack/react-start"@) || found.contains("@tanstack/solid-start"@) {
        if found.contains("@tanstack/react-start"@) {
            assert(app_framework_marker(NodeFramework::TanstackStart, "@tanstack/react-start"@));
        } else if found.contains("@tanstack/solid-start"@) {
            assert(app_framework_marker(NodeFramework::TanstackStart, "@tanstack/solid-start"@));
        }
    } else if found.contains("@nestjs/common"@) || found.contains("@nestjs/core"@) || found.contains("@nestjs/platform-express"@) || found.contains("@nestjs/platform-fastify"@) {
        if found.contains("@nestjs/common"@) {
            assert(app_framework_marker(NodeFramework::Nestjs, "@nestjs/common"@));
        } else if found.contains("@nestjs/core"@) {
            assert(app_framework_marker(NodeFramework::Nestjs, "@nestjs/core"@));
        } else if found.contains("@nestjs/platform-express"@) {
            assert(app_framework_marker(NodeFramework::Nestjs, "@nestjs/platform-express"@));
        } else if found.contains("@nestjs/platform-fastify"@) {
            assert(app_framework_marker(NodeFramework::Nestjs, "@nestjs/platform-fastify"@));
        }
    } else if found.contains("hono"@) || found.contains("@hono/node-server"@) {
        if found.contains("hono"@) {
            assert(app_framework_marker(NodeFramework::Hono, "hono"@));
        } else if found.contains("@hono/node-server"@) {
            assert(app_framework_marker(NodeFramework::Hono, "@hono/node-server"@));
        }
    } else if found.contains("express"@) {
        if found.contains("express"@) {
            assert(app_framework_marker(NodeFramework::Express, "express"@));
        }
    } else if found.contains("h3"@) {
        if found.contains("h3"@) {
            assert(app_framework_marker(NodeFramework::H3, "h3"@));
        }
    } else if found.contains("koa"@) {
        if found.contains("koa"@) {
            assert(app_framework_marker(NodeFramework::Koa, "koa"@));
        }
    } else if found.contains("elysia"@) || found.contains("@elysia/node"@) {
        if found.contains("elysia"@) {
            assert(app_framework_marker(NodeFramework::Elysia, "elysia"@));
        } else if found.contains("@elysia/node"@) {
            assert(app_framework_marker(NodeFramework::Elysia, "@elysia/node"@));
        }
    } else if found.contains("fastify"@) {
        if found.contains("fastify"@) {
            assert(app_framework_marker(NodeFramework::Fastify, "fastify"@));
        }
    } else if found.contains("xmcp"@) {
        if found.contains("xmcp"@) {
            assert(app_framework_marker(NodeFramework::Xmcp, "xmcp"@));
        }
    } else if found.contains("mastra"@) || found.contains("@mastra/core"@) {
        if found.contains("mastra"@) {
            assert(app_framework_marker(NodeFramework::Mastra, "mastra"@));
        } else if found.contains("@mastra/core"@) {
            assert(app_framework_marker(NodeFramework::Mastra, "@mastra/core"@));
        }
    } else {
        assert forall|f: NodeFramework, name: Seq<char>| found.contains(name) implies !#[trigger] app_framework_marker(f, name) by {
            match f {
                NodeFramework::Angular => {},
                NodeFramework::Next => {},
                NodeFramework::Astro => {},
                NodeFramework::Brunch => {},
                NodeFramework::CreateReactApp => {},
                NodeFramework::Vite => {},
                NodeFramework::Gatsby => {},
                NodeFramework::Eleventy => {},
                NodeFramework::Ember => {},
                NodeFramework::Vitepress => {},
                NodeFramework::Vuepress => {},
                NodeFramework::Hexo => {},
                NodeFramework::IonicAngular => {},
                NodeFramework::IonicReact => {},
                NodeFramework::Metalsmith => {},
                NodeFramework::Assemble => {},
                NodeFramework::Harp => {},
                NodeFramework::Parcel => {},
                NodeFramework::Polymer => {},
                NodeFramework::Preact => {},
                NodeFramework::Stencil => {},
                NodeFramework::DocusaurusOld => {},
                NodeFramework::Docusaurus => {},
                NodeFramework::Svelte => {},
                NodeFramework::Sveltekit => {},
                NodeFramework::Umijs => {},
                NodeFramework::Vue => {},
                NodeFramework::Remix => {},
                NodeFramework::NuxtOld => {},
                NodeFramework::NuxtV3 => {},
                NodeFramework::RemixOld => {},
                NodeFramework::RemixV2 => {},
                NodeFramework::RemixV2Classic => {},
                NodeFramework::ReactRouter => {},
                NodeFramework::Nitro => {},
                NodeFramework::Solidstart => {},
                NodeFramework::TanstackStart => {},
                NodeFramework::Hydrogen => {},
                NodeFramework::Hono => {},
                NodeFramework::Express => {},
                NodeFramework::H3 => {},
                NodeFramework::Koa => {},
                NodeFramework::Nestjs => {},
                NodeFramework::Elysia => {},
                NodeFramework::Fastify => {},
                NodeFramework::Xmcp => {},
                NodeFramework::Mastra => {},
                NodeFramework::Sanity => {},
                NodeFramework::SanityV3 => {},
                NodeFramework::Storybook => {},
            }
        }
    }
}

/// Where a manager's lockfile stands in the order in which lockfiles are
/// tried: npm, pnpm, yarn, bun.
pub open spec fn lockfile_rank(m: PackageManager) -> int {
    match m {
        PackageManager::Npm => 0,
        PackageManager::Pnpm => 1,
        PackageManager::Yarn => 2,
        PackageManager::Bun => 3,
    }
}

/// The manager that a `packageManager` field names, if any.
pub open spec fn named_manager(field: Option<Seq<char>>) -> Option<PackageManager> {
    match field {
        Some(f) => manager_of_field(f),
        None => None,
    }
}

/// A manager that the `packageManager` field names wins; otherwise a pnpm
/// workspace means pnpm; otherwise the manager is the first, in the order
/// npm, pnpm, yarn, bun, whose lockfile exists (so npm whenever
/// `package-lock.json` exists, whatever other lockfiles there are), and
/// npm when there is none.
pub proof fn law_first_lockfile_decides(field: Option<Seq<char>>, pnpm_workspace: bool, present: Seq<bool>)
    requires
        present.len() == 4,
    ensures
        named_manager(field) matches Some(m) ==> package_manager_spec(field, pnpm_workspace, present) == m,
        named_manager(field) is None && pnpm_workspace ==> package_manager_spec(field, pnpm_workspace, present) == PackageManager::Pnpm,
        named_manager(field) is None && !pnpm_workspace && (exists|i: int| 0 <= i < 4 && #[trigger] present[i]) ==> {
            let m = package_manager_spec(field, pnpm_workspace, present);
            present[lockfile_rank(m)] && forall|j: int| 0 <= j < lockfile_rank(m) ==> !#[trigger] present[j]
        },
        named_manager(field) is None && !pnpm_workspace && present[0] ==> package_manager_spec(field, pnpm_workspace, present) == PackageManager::Npm,
        named_manager(field) is None && !pnpm_workspace && (forall|i: int| 0 <= i < 4 ==> !#[trigger] present[i]) ==> package_manager_spec(field, pnpm_workspace, present) == PackageManager::Npm,
{
}

} // verus!
