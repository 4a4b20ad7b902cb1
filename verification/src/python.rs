//! The Python provider: which framework, server, migrations and database a
//! Python project uses, and how it is started.
//!
//! What the provider reads from the project directory (which files exist,
//! the dependency files' lines, the Django settings, the main file) is
//! handed in by the caller; the decisions are made here.
use vstd::prelude::*;
use crate::base::{
    blank, env_bool, env_str, env_value, env_value_spec, invalid_value, invalid_value_text,
    is_blank, BaseConfig, DatabaseEngine, HasBase,
};
use crate::env_map::pairs_view;
use crate::event::text_views;
use crate::text::{
    chars_of, contains_seq, contains_str, copy_str, eq_str, has_prefix, insert_sorted,
    insert_sorted_exec, push_char, push_str, sorted_unique, starts_with_str, string_of,
};

verus! {

// ---------------------------------------------------------------------------
// Choices

#[derive(Debug, Clone, Copy, PartialEq, Eq, Structural)]
pub enum PythonFramework {
    Django,
    Streamlit,
    FastApi,
    Flask,
    FastHtml,
    Mcp,
}

pub open spec fn framework_value(f: PythonFramework) -> Seq<char> {
    match f {
        PythonFramework::Django => "django"@,
        PythonFramework::Streamlit => "streamlit"@,
        PythonFramework::FastApi => "fastapi"@,
        PythonFramework::Flask => "flask"@,
        PythonFramework::FastHtml => "python-fasthtml"@,
        PythonFramework::Mcp => "mcp"@,
    }
}

pub open spec fn framework_display(f: PythonFramework) -> Seq<char> {
    match f {
        PythonFramework::Django => "Django"@,
        PythonFramework::Streamlit => "Streamlit"@,
        PythonFramework::FastApi => "FastAPI"@,
        PythonFramework::Flask => "Flask"@,
        PythonFramework::FastHtml => "FastHTML"@,
        PythonFramework::Mcp => "MCP"@,
    }
}

impl PythonFramework {
    /// The framework a configuration value names.
    pub fn parse(value: &str) -> (r: Option<Self>)
        ensures
            r matches Some(f) ==> framework_value(f) == value@,
            r is None ==> forall|f: PythonFramework| framework_value(f) != value@,
    {
        if eq_str(value, "django") {
            Some(PythonFramework::Django)
        } else if eq_str(value, "streamlit") {
            Some(PythonFramework::Streamlit)
        } else if eq_str(value, "fastapi") {
            Some(PythonFramework::FastApi)
        } else if eq_str(value, "flask") {
            Some(PythonFramework::Flask)
        } else if eq_str(value, "python-fasthtml") {
            Some(PythonFramework::FastHtml)
        } else if eq_str(value, "mcp") {
            Some(PythonFramework::Mcp)
        } else {
            None
        }
    }

    /// The value that names the framework in configuration.
    pub fn value(self) -> (r: &'static str)
        ensures
            r@ == framework_value(self),
    {
        match self {
            PythonFramework::Django => "django",
            PythonFramework::Streamlit => "streamlit",
            PythonFramework::FastApi => "fastapi",
            PythonFramework::Flask => "flask",
            PythonFramework::FastHtml => "python-fasthtml",
            PythonFramework::Mcp => "mcp",
        }
    }

    /// The framework's name as shown to people.
    pub fn display_name(self) -> (r: &'static str)
        ensures
            r@ == framework_display(self),
    {
        match self {
            PythonFramework::Django => "Django",
            PythonFramework::Streamlit => "Streamlit",
            PythonFramework::FastApi => "FastAPI",
            PythonFramework::Flask => "Flask",
            PythonFramework::FastHtml => "FastHTML",
            PythonFramework::Mcp => "MCP",
        }
    }
}

#[derive(Debug, Clone, Copy, PartialEq, Eq, Structural)]
pub enum PythonServer {
    Hypercorn,
    Uvicorn,
    Daphne,
}

pub open spec fn server_value(s: PythonServer) -> Seq<char> {
    match s {
        PythonServer::Hypercorn => "hypercorn"@,
        PythonServer::Uvicorn => "uvicorn"@,
        PythonServer::Daphne => "daphne"@,
    }
}

impl PythonServer {
    pub fn parse(value: &str) -> (r: Option<Self>)
        ensures
            r matches Some(s) ==> server_value(s) == value@,
            r is None ==> forall|s: PythonServer| server_value(s) != value@,
    {
        if eq_str(value, "hypercorn") {
            Some(PythonServer::Hypercorn)
        } else if eq_str(value, "uvicorn") {
            Some(PythonServer::Uvicorn)
        } else if eq_str(value, "daphne") {
            Some(PythonServer::Daphne)
        } else {
            None
        }
    }

    pub fn value(self) -> (r: &'static str)
        ensures
            r@ == server_value(self),
    {
        match self {
            PythonServer::Hypercorn => "hypercorn",
            PythonServer::Uvicorn => "uvicorn",
            PythonServer::Daphne => "daphne",
        }
    }
}

#[derive(Debug, Clone, Copy, PartialEq, Eq, Structural)]
pub enum MigrationStrategy {
    Django,
    Alembic,
}

pub open spec fn migration_value(m: MigrationStrategy) -> Seq<char> {
    match m {
        MigrationStrategy::Django => "django"@,
        MigrationStrategy::Alembic => "alembic"@,
    }
}

impl MigrationStrategy {
    pub fn parse(value: &str) -> (r: Option<Self>)
        ensures
            r matches Some(m) ==> migration_value(m) == value@,
            r is None ==> forall|m: MigrationStrategy| migration_value(m) != value@,
    {
        if eq_str(value, "django") {
            Some(MigrationStrategy::Django)
        } else if eq_str(value, "alembic") {
            Some(MigrationStrategy::Alembic)
        } else {
            None
        }
    }
}

#[derive(Debug, Clone, Copy, PartialEq, Eq, Structural)]
pub enum DatabaseType {
    MySql,
    PostgreSql,
}

pub open spec fn database_value(d: DatabaseType) -> Seq<char> {
    match d {
        DatabaseType::MySql => "mysql"@,
        DatabaseType::PostgreSql => "postgresql"@,
    }
}

pub open spec fn engine_of(d: DatabaseType) -> DatabaseEngine {
    match d {
        DatabaseType::MySql => DatabaseEngine::Mysql,
        DatabaseType::PostgreSql => DatabaseEngine::Postgres,
    }
}

impl DatabaseType {
    pub fn parse(value: &str) -> (r: Option<Self>)
        ensures
            r matches Some(d) ==> database_value(d) == value@,
            r is None ==> forall|d: DatabaseType| database_value(d) != value@,
    {
        if eq_str(value, "mysql") {
            Some(DatabaseType::MySql)
        } else if eq_str(value, "postgresql") {
            Some(DatabaseType::PostgreSql)
        } else {
            None
        }
    }

    /// The database engine of the common service.
    pub fn into_database_engine(self) -> (r: DatabaseEngine)
        ensures
            r == engine_of(self),
    {
        match self {
            DatabaseType::MySql => DatabaseEngine::Mysql,
            DatabaseType::PostgreSql => DatabaseEngine::Postgres,
        }
    }
}


// ---------------------------------------------------------------------------
// The configuration

#[derive(Debug, Clone, PartialEq, Eq)]
pub struct PythonConfig {
    pub base: BaseConfig,
    pub framework: Option<PythonFramework>,
    pub server: Option<PythonServer>,
    pub migration_strategy: Option<MigrationStrategy>,
    pub database: Option<DatabaseType>,
    /// Dependencies to add to the install, sorted and distinct.
    pub extra_dependencies: Vec<String>,
    pub asgi_application: Option<String>,
    pub wsgi_application: Option<String>,
    pub install_requires_all_files: bool,
    pub main_file: Option<String>,
    pub python_version: Option<String>,
    pub uv_version: Option<String>,
    pub precompile_python: bool,
    pub cross_platform: Option<String>,
    pub python_extra_index_url: Option<String>,
    /// The install inputs (none: all files).
    pub install_inputs: Option<Vec<String>>,
    /// The MCP main file starts its own server.
    pub mcp_self_running: bool,
}

/// The declared defaults of the Python fields.
pub open spec fn python_defaults(c: PythonConfig) -> bool {
    &&& c.framework is None
    &&& c.server is None
    &&& c.migration_strategy is None
    &&& c.database is None
    &&& c.extra_dependencies@.len() == 0
    &&& c.asgi_application is None
    &&& c.wsgi_application is None
    &&& !c.install_requires_all_files
    &&& c.main_file is None
    &&& (c.python_version matches Some(v) && v@ == "3.13"@)
    &&& (c.uv_version matches Some(v) && v@ == "0.8.15"@)
    &&& c.precompile_python
    &&& c.cross_platform is None
    &&& c.python_extra_index_url is None
    &&& c.install_inputs is None
    &&& !c.mcp_self_running
}

impl Default for PythonConfig {
    fn default() -> (r: Self)
        ensures
            python_defaults(r),
            r.base.port == Some(8080i64),
    {
        PythonConfig {
            base: BaseConfig::default(),
            framework: None,
            server: None,
            migration_strategy: None,
            database: None,
            extra_dependencies: Vec::new(),
            asgi_application: None,
            wsgi_application: None,
            install_requires_all_files: false,
            main_file: None,
            python_version: Some(copy_str("3.13")),
            uv_version: Some(copy_str("0.8.15")),
            precompile_python: true,
            cross_platform: None,
            python_extra_index_url: None,
            install_inputs: None,
            mcp_self_running: false,
        }
    }
}

impl HasBase for PythonConfig {
    fn base(&self) -> &BaseConfig {
        &self.base
    }

    fn base_mut(&mut self) -> &mut BaseConfig {
        &mut self.base
    }
}

// ---------------------------------------------------------------------------
// Dependencies

pub open spec fn pg_deps() -> Seq<Seq<char>> {
    seq!["asyncpg"@, "aiopg"@, "psycopg"@, "psycopg2"@, "psycopg-binary"@, "psycopg2-binary"@]
}

pub open spec fn mysql_deps() -> Seq<Seq<char>> {
    seq!["mysqlclient"@, "pymysql"@, "mysql-connector-python"@, "aiomysql"@, "asyncmy"@, "mariadb"@]
}

/// Dependencies scanned for framework, server and tooling decisions; the
/// first entry is no dependency but marks installs that need all files.
pub open spec fn dependency_scan() -> Seq<Seq<char>> {
    seq![
        "file://"@,
        "streamlit"@,
        "alembic"@,
        "django"@,
        "mcp"@,
        "mcp[cli]"@,
        "fastapi"@,
        "flask"@,
        "python-fasthtml"@,
        "daphne"@,
        "hypercorn"@,
        "uvicorn"@,
        "ffmpeg"@,
        "pandoc"@,
    ]
}

fn strings(items: &[&str]) -> (r: Vec<String>)
    ensures
        r@.len() == items@.len(),
        forall|i: int| 0 <= i < items@.len() ==> (#[trigger] r@[i])@ == items@[i]@,
{
    let mut r: Vec<String> = Vec::new();
    let mut i: usize = 0;
    while i < items.len()
        invariant
            0 <= i <= items@.len(),
            r@.len() == i,
            forall|k: int| 0 <= k < i ==> (#[trigger] r@[k])@ == items@[k]@,
        decreases items@.len() - i,
    {
        r.push(copy_str(items[i]));
        i = i + 1;
    }
    r
}

pub fn pg_dep_names() -> (r: Vec<String>)
    ensures
        text_views(r@) == pg_deps(),
{
    let r = strings(&["asyncpg", "aiopg", "psycopg", "psycopg2", "psycopg-binary", "psycopg2-binary"]);
    assert(text_views(r@) =~= pg_deps());
    r
}

pub fn mysql_dep_names() -> (r: Vec<String>)
    ensures
        text_views(r@) == mysql_deps(),
{
    let r = strings(
        &["mysqlclient", "pymysql", "mysql-connector-python", "aiomysql", "asyncmy", "mariadb"],
    );
    assert(text_views(r@) =~= mysql_deps());
    r
}

pub fn dependency_scan_names() -> (r: Vec<String>)
    ensures
        text_views(r@) == dependency_scan(),
{
    let r = strings(
        &[
            "file://",
            "streamlit",
            "alembic",
            "django",
            "mcp",
            "mcp[cli]",
            "fastapi",
            "flask",
            "python-fasthtml",
            "daphne",
            "hypercorn",
            "uvicorn",
            "ffmpeg",
            "pandoc",
        ],
    );
    assert(text_views(r@) =~= dependency_scan());
    r
}

/// `x` is among the texts.
pub fn contains_text(v: &Vec<String>, x: &str) -> (r: bool)
    ensures
        r == text_views(v@).contains(x@),
{
    let mut i: usize = 0;
    while i < v.len()
        invariant
            0 <= i <= v@.len(),
            forall|k: int| 0 <= k < i ==> (#[trigger] v@[k])@ != x@,
        decreases v@.len() - i,
    {
        if eq_str(v[i].as_str(), x) {
            assert(text_views(v@)[i as int] == x@);
            return true;
        }
        i = i + 1;
    }
    assert(!text_views(v@).contains(x@)) by {
        if text_views(v@).contains(x@) {
            let k = choose|k: int| 0 <= k < text_views(v@).len() && text_views(v@)[k] == x@;
            assert(v@[k]@ == x@);
        }
    }
    false
}

/// Some of `candidates` is among the texts.
fn contains_any(v: &Vec<String>, candidates: &Vec<String>) -> (r: bool)
    ensures
        r == exists|i: int| 0 <= i < candidates@.len() && text_views(v@).contains(#[trigger] candidates@[i]@),
{
    let mut i: usize = 0;
    while i < candidates.len()
        invariant
            0 <= i <= candidates@.len(),
            forall|k: int| 0 <= k < i ==> !text_views(v@).contains(#[trigger] candidates@[k]@),
        decreases candidates@.len() - i,
    {
        if contains_text(v, candidates[i].as_str()) {
            return true;
        }
        i = i + 1;
    }
    false
}

/// The server the dependencies call for: uvicorn, then hypercorn, then
/// daphne.
pub open spec fn server_for(found: Seq<Seq<char>>) -> Option<PythonServer> {
    if found.contains("uvicorn"@) {
        Some(PythonServer::Uvicorn)
    } else if found.contains("hypercorn"@) {
        Some(PythonServer::Hypercorn)
    } else if found.contains("daphne"@) {
        Some(PythonServer::Daphne)
    } else {
        None
    }
}

pub fn detect_server(found_deps: &Vec<String>) -> (r: Option<PythonServer>)
    ensures
        r == server_for(text_views(found_deps@)),
{
    if contains_text(found_deps, "uvicorn") {
        Some(PythonServer::Uvicorn)
    } else if contains_text(found_deps, "hypercorn") {
        Some(PythonServer::Hypercorn)
    } else if contains_text(found_deps, "daphne") {
        Some(PythonServer::Daphne)
    } else {
        None
    }
}

/// The framework: Django (with `manage.py`), then Streamlit, MCP,
/// FastAPI, Flask and FastHTML.
pub open spec fn framework_for(has_manage_py: bool, found: Seq<Seq<char>>) -> Option<PythonFramework> {
    if has_manage_py && found.contains("django"@) {
        Some(PythonFramework::Django)
    } else if found.contains("streamlit"@) {
        Some(PythonFramework::Streamlit)
    } else if found.contains("mcp"@) {
        Some(PythonFramework::Mcp)
    } else if found.contains("fastapi"@) {
        Some(PythonFramework::FastApi)
    } else if found.contains("flask"@) {
        Some(PythonFramework::Flask)
    } else if found.contains("python-fasthtml"@) {
        Some(PythonFramework::FastHtml)
    } else {
        None
    }
}

pub fn detect_framework(has_manage_py: bool, found_deps: &Vec<String>) -> (r: Option<PythonFramework>)
    ensures
        r == framework_for(has_manage_py, text_views(found_deps@)),
{
    if has_manage_py && contains_text(found_deps, "django") {
        Some(PythonFramework::Django)
    } else if contains_text(found_deps, "streamlit") {
        Some(PythonFramework::Streamlit)
    } else if contains_text(found_deps, "mcp") {
        Some(PythonFramework::Mcp)
    } else if contains_text(found_deps, "fastapi") {
        Some(PythonFramework::FastApi)
    } else if contains_text(found_deps, "flask") {
        Some(PythonFramework::Flask)
    } else if contains_text(found_deps, "python-fasthtml") {
        Some(PythonFramework::FastHtml)
    } else {
        None
    }
}

pub open spec fn migration_for(
    framework: Option<PythonFramework>,
    found: Seq<Seq<char>>,
    has_alembic_ini: bool,
) -> Option<MigrationStrategy> {
    if framework == Some(PythonFramework::Django) {
        Some(MigrationStrategy::Django)
    } else if found.contains("alembic"@) || has_alembic_ini {
        Some(MigrationStrategy::Alembic)
    } else {
        None
    }
}

pub fn detect_migration_strategy(
    framework: Option<PythonFramework>,
    found_deps: &Vec<String>,
    has_alembic_ini: bool,
) -> (r: Option<MigrationStrategy>)
    ensures
        r == migration_for(framework, text_views(found_deps@), has_alembic_ini),
{
    if framework == Some(PythonFramework::Django) {
        Some(MigrationStrategy::Django)
    } else if contains_text(found_deps, "alembic") || has_alembic_ini {
        Some(MigrationStrategy::Alembic)
    } else {
        None
    }
}

/// Django, FastAPI, Flask and FastHTML run under uvicorn by default.
pub open spec fn default_server_spec(framework: Option<PythonFramework>) -> Option<PythonServer> {
    match framework {
        Some(PythonFramework::Django) | Some(PythonFramework::FastApi) | Some(PythonFramework::Flask)
        | Some(PythonFramework::FastHtml) => Some(PythonServer::Uvicorn),
        _ => None,
    }
}

pub fn default_server_for_framework(framework: Option<PythonFramework>) -> (r: Option<PythonServer>)
    ensures
        r == default_server_spec(framework),
{
    match framework {
        Some(PythonFramework::Django) | Some(PythonFramework::FastApi) | Some(PythonFramework::Flask)
        | Some(PythonFramework::FastHtml) => Some(PythonServer::Uvicorn),
        _ => None,
    }
}

/// A MySQL client wins over a PostgreSQL one.
pub open spec fn database_for(found: Seq<Seq<char>>) -> Option<DatabaseEngine> {
    if exists|i: int| 0 <= i < mysql_deps().len() && found.contains(#[trigger] mysql_deps()[i]) {
        Some(DatabaseEngine::Mysql)
    } else if exists|i: int| 0 <= i < pg_deps().len() && found.contains(#[trigger] pg_deps()[i]) {
        Some(DatabaseEngine::Postgres)
    } else {
        None
    }
}

pub fn detect_database(found_deps: &Vec<String>) -> (r: Option<DatabaseEngine>)
    ensures
        r == database_for(text_views(found_deps@)),
{
    let mysql = mysql_dep_names();
    let pg = pg_dep_names();
    if contains_any(found_deps, &mysql) {
        Some(DatabaseEngine::Mysql)
    } else if contains_any(found_deps, &pg) {
        Some(DatabaseEngine::Postgres)
    } else {
        None
    }
}


// ---------------------------------------------------------------------------
// Outside calls

/// What `Regex::replace` makes of a text: the first match of `pattern`
/// replaced, or the text unchanged (and nothing for an invalid pattern).
pub uninterp spec fn regex_replaced(pattern: Seq<char>, text: Seq<char>, replacement: Seq<char>) -> Option<Seq<char>>;

/// A module path with its last `.` turned into `:` when something follows
/// it.
pub open spec fn last_dot_to_colon(s: Seq<char>) -> Seq<char> {
    let k = crate::python::last_index_of(s, '.');
    if 0 <= k < s.len() - 1 {
        s.subrange(0, k) + seq![':'] + s.subrange(k + 1, s.len() as int)
    } else {
        s
    }
}

/// The index of the last `c` in `s`, or -1.
pub open spec fn last_index_of(s: Seq<char>, c: char) -> int
    decreases s.len(),
{
    if s.len() == 0 {
        -1
    } else if s.last() == c {
        s.len() - 1
    } else {
        last_index_of(s.drop_last(), c)
    }
}

/// The pattern `\.([^.]+)$` with the replacement `:$1`.
pub open spec fn last_dot_rule(pattern: Seq<char>, replacement: Seq<char>) -> bool {
    pattern == "\\.([^.]+)$"@ && replacement == ":$1"@
}

/// `Regex::new(pattern)` then `replace(text, replacement)`. For the pattern
/// `\.([^.]+)$` and the replacement `:$1`, the regex documentation gives
/// the result: a last `.` that something follows becomes `:`.
#[verifier::external_body]
fn regex_replace(pattern: &str, text: &str, replacement: &str) -> (r: Option<String>)
    ensures
        r is None <==> regex_replaced(pattern@, text@, replacement@) is None,
        r matches Some(t) ==> regex_replaced(pattern@, text@, replacement@) == Some(t@),
        r is Some || !last_dot_rule(pattern@, replacement@),
        r matches Some(t) ==> (last_dot_rule(pattern@, replacement@) ==> t@ == last_dot_to_colon(text@)),
{
    match regex::Regex::new(pattern) {
        Ok(re) => Some(re.replace(text, replacement).into_owned()),
        Err(_) => None,
    }
}

/// What `Regex::captures` finds for the first group of `pattern` in a text.
pub uninterp spec fn regex_capture(pattern: Seq<char>, text: Seq<char>) -> Option<Seq<char>>;

/// `Regex::new(pattern)` then the first group of `captures(text)`; nothing
/// when the pattern is invalid or does not match.
#[verifier::external_body]
pub(crate) fn regex_first_capture(pattern: &str, text: &str) -> (r: Option<String>)
    ensures
        r is None <==> regex_capture(pattern@, text@) is None,
        r matches Some(t) ==> regex_capture(pattern@, text@) == Some(t@),
{
    let re = regex::Regex::new(pattern).ok()?;
    let captures = re.captures(text)?;
    captures.get(1).map(|m| m.as_str().to_owned())
}

/// What `str::to_lowercase` makes of a text.
pub uninterp spec fn unicode_lower(s: Seq<char>) -> Seq<char>;

/// `str::to_lowercase`: the text in Unicode lowercase.
#[verifier::external_body]
pub(crate) fn lowercase(s: &str) -> (r: String)
    ensures
        r@ == unicode_lower(s@),
{
    s.to_lowercase()
}

// ---------------------------------------------------------------------------
// Applications and start commands

/// `mysite.asgi.application` as an import: `mysite.asgi:application`.
pub fn format_app_import(application: &str) -> (r: String)
    ensures
        r@ == last_dot_to_colon(application@),
{
    match regex_replace("\\.([^.]+)$", application, ":$1") {
        Some(t) => t,
        None => copy_str(application),
    }
}

pub open spec fn py_suffix_char(c: char) -> bool {
    c == '.' || c == 'p' || c == 'y'
}

/// A file path as a module import of `app`: trailing `.`, `p` and `y`
/// characters dropped (each of them, as a strip of the character set `.py` does),
/// separators turned into dots, then `:app`.
pub open spec fn python_path_of(path: Seq<char>) -> Seq<char> {
    crate::text::trim_end_by(path, |c: char| py_suffix_char(c)).map_values(
        |c: char| if c == '/' || c == '\\' { '.' } else { c },
    ) + ":app"@
}

pub fn file_to_python_path(path: Option<&str>) -> (r: Option<String>)
    ensures
        match path {
            None => r is None,
            Some(p) => if p@.len() == 0 {
                r is None
            } else {
                r matches Some(s) && s@ == python_path_of(p@)
            },
        },
{
    let p = match path {
        None => return None,
        Some(p) => p,
    };
    let v = chars_of(p);
    if v.len() == 0 {
        return None;
    }
    let mut n = v.len();
    assert(v@.subrange(0, n as int) =~= v@);
    while n > 0 && (v[n - 1] == '.' || v[n - 1] == 'p' || v[n - 1] == 'y')
        invariant
            0 <= n <= v@.len(),
            v@ == p@,
            crate::text::trim_end_by(p@, |c: char| py_suffix_char(c)) == crate::text::trim_end_by(
                v@.subrange(0, n as int),
                |c: char| py_suffix_char(c),
            ),
        decreases n,
    {
        assert(v@.subrange(0, n as int).drop_last() =~= v@.subrange(0, n - 1));
        n = n - 1;
    }
    let ghost kept = v@.subrange(0, n as int);
    let mut out = String::new();
    let mut i: usize = 0;
    while i < n
        invariant
            0 <= i <= n <= v@.len(),
            kept == v@.subrange(0, n as int),
            out@ == kept.subrange(0, i as int).map_values(|c: char| if c == '/' || c == '\\' { '.' } else { c }),
        decreases n - i,
    {
        let c = v[i];
        let d = if c == '/' || c == '\\' { '.' } else { c };
        push_char(&mut out, d);
        assert(kept.subrange(0, i + 1).map_values(|c: char| if c == '/' || c == '\\' { '.' } else { c })
            =~= kept.subrange(0, i as int).map_values(|c: char| if c == '/' || c == '\\' { '.' } else { c }).push(d));
        i = i + 1;
    }
    assert(kept.subrange(0, n as int) =~= kept);
    push_str(&mut out, ":app");
    Some(out)
}

pub open spec fn asgi_pattern() -> Seq<char> {
    "ASGI_APPLICATION\\s*=\\s*['\"](.*)['\"]"@
}

pub open spec fn wsgi_pattern() -> Seq<char> {
    "WSGI_APPLICATION\\s*=\\s*['\"](.*)['\"]"@
}

pub open spec fn opt_view(o: Option<&str>) -> Option<Seq<char>> {
    match o {
        Some(s) => Some(s@),
        None => None,
    }
}

/// The module import made from the main file, if there is one.
pub open spec fn main_import(main_file: Option<Seq<char>>) -> Option<Seq<char>> {
    match main_file {
        Some(m) => if m.len() > 0 {
            Some(python_path_of(m))
        } else {
            None
        },
        None => None,
    }
}

/// The ASGI and WSGI applications: Django's from its settings (ASGI first),
/// FastAPI, MCP and FastHTML serve the main file as ASGI, Flask as WSGI.
pub open spec fn applications_for(
    framework: Option<PythonFramework>,
    main_file: Option<Seq<char>>,
    settings: Option<Seq<char>>,
) -> (Option<Seq<char>>, Option<Seq<char>>) {
    let (asgi, wsgi) = if framework == Some(PythonFramework::Django) {
        match settings {
            Some(text) => match regex_capture(asgi_pattern(), text) {
                Some(a) => (Some(last_dot_to_colon(a)), None::<Seq<char>>),
                None => match regex_capture(wsgi_pattern(), text) {
                    Some(w) => (None::<Seq<char>>, Some(last_dot_to_colon(w))),
                    None => (None::<Seq<char>>, None::<Seq<char>>),
                },
            },
            None => (None::<Seq<char>>, None::<Seq<char>>),
        }
    } else {
        (None::<Seq<char>>, None::<Seq<char>>)
    };
    match framework {
        Some(PythonFramework::FastApi) | Some(PythonFramework::Mcp) | Some(PythonFramework::FastHtml) => (
            main_import(main_file),
            wsgi,
        ),
        Some(PythonFramework::Flask) => (asgi, main_import(main_file)),
        _ => (asgi, wsgi),
    }
}

pub open spec fn opt_string_view(o: Option<String>) -> Option<Seq<char>> {
    match o {
        Some(s) => Some(s@),
        None => None,
    }
}

/// Locate the (ASGI, WSGI) application imports; `settings` is the text of
/// the project's first `settings.py`, read only for Django.
pub fn resolve_applications(
    framework: Option<PythonFramework>,
    main_file: Option<&str>,
    settings: Option<&str>,
) -> (r: (Option<String>, Option<String>))
    ensures
        (opt_string_view(r.0), opt_string_view(r.1)) == applications_for(framework, opt_view(main_file), opt_view(settings)),
{
    let mut asgi: Option<String> = None;
    let mut wsgi: Option<String> = None;
    if framework == Some(PythonFramework::Django) {
        if let Some(text) = settings {
            match regex_first_capture("ASGI_APPLICATION\\s*=\\s*['\"](.*)['\"]", text) {
                Some(a) => {
                    asgi = Some(format_app_import(&a));
                },
                None => match regex_first_capture("WSGI_APPLICATION\\s*=\\s*['\"](.*)['\"]", text) {
                    Some(w) => {
                        wsgi = Some(format_app_import(&w));
                    },
                    None => {},
                },
            }
        }
    }
    let python_path = file_to_python_path(main_file);
    assert(opt_string_view(python_path) == main_import(opt_view(main_file)));
    match framework {
        Some(PythonFramework::FastApi) | Some(PythonFramework::Mcp) | Some(PythonFramework::FastHtml) => {
            asgi = python_path;
        },
        Some(PythonFramework::Flask) => {
            wsgi = python_path;
        },
        _ => {},
    }
    (asgi, wsgi)
}

pub open spec fn nonblank(o: Option<String>) -> Option<Seq<char>> {
    match o {
        Some(s) => if s@.len() > 0 {
            Some(s@)
        } else {
            None
        },
        None => None,
    }
}

pub open spec fn missing_main_reason(framework: Option<PythonFramework>) -> Seq<char> {
    match framework {
        Some(f) => "no main file was detected for the "@ + framework_display(f) + " framework"@,
        None => "no main file was detected for Python project"@,
    }
}

/// The start command, or why none can be inferred.
pub open spec fn python_start_of(
    main: Option<Seq<char>>,
    asgi: Option<Seq<char>>,
    wsgi: Option<Seq<char>>,
    server: Option<PythonServer>,
    framework: Option<PythonFramework>,
    self_running: bool,
) -> Result<Seq<char>, Seq<char>> {
    let from_main = match main {
        Some(m) => Ok("python "@ + m),
        None => Err(missing_main_reason(framework)),
    };
    if server == Some(PythonServer::Daphne) {
        match asgi {
            Some(a) => Ok("daphne "@ + a + " --bind 0.0.0.0 --port $PORT"@),
            None => Err("no ASGI application was detected for the Daphne server"@),
        }
    } else if server == Some(PythonServer::Uvicorn) {
        match asgi {
            Some(a) => Ok("uvicorn "@ + a + " --host 0.0.0.0 --port $PORT"@),
            None => match wsgi {
                Some(w) => Ok("uvicorn "@ + w + " --interface=wsgi --host 0.0.0.0 --port $PORT"@),
                None => if main is None && framework is None {
                    Err(
                        "no main file, ASGI application, or WSGI application was detected for the Uvicorn server"@,
                    )
                } else {
                    from_main
                },
            },
        }
    } else if server == Some(PythonServer::Hypercorn) {
        match asgi {
            Some(a) => Ok("hypercorn "@ + a + " --bind 0.0.0.0:$PORT"@),
            None => Err("no ASGI application was detected for the Hypercorn server"@),
        }
    } else if framework == Some(PythonFramework::Streamlit) {
        match main {
            Some(m) => Ok(
                "streamlit run "@ + m
                    + " --server.port $PORT --server.address 0.0.0.0 --server.headless true"@,
            ),
            None => from_main,
        }
    } else if framework == Some(PythonFramework::Mcp) {
        match main {
            Some(m) => if self_running {
                Ok("python "@ + m)
            } else {
                Ok("python $VIRTUAL_ENV/bin/mcp run "@ + m + " --transport=streamable-http"@)
            },
            None => from_main,
        }
    } else if framework == Some(PythonFramework::Django) {
        Ok("python manage.py runserver 0.0.0.0:$PORT"@)
    } else {
        from_main
    }
}

pub open spec fn python_start(c: PythonConfig) -> Result<Seq<char>, Seq<char>> {
    python_start_of(
        nonblank(c.main_file),
        nonblank(c.asgi_application),
        nonblank(c.wsgi_application),
        c.server,
        c.framework,
        c.mcp_self_running,
    )
}

/// A start command, or nothing with the reason as a warning when asked.
#[derive(Debug, Clone, PartialEq, Eq)]
pub struct PythonStart {
    pub command: Option<String>,
    pub warning: Option<String>,
}

fn nonblank_exec(o: &Option<String>) -> (r: Option<&str>)
    ensures
        opt_view(r) == nonblank(*o),
{
    match o {
        Some(s) => if s.unicode_len() > 0 {
            Some(s.as_str())
        } else {
            None
        },
        None => None,
    }
}

fn start_result(text: String) -> (r: Result<String, String>)
    ensures
        r == Ok::<String, String>(text),
{
    Ok(text)
}

fn python_start_exec(c: &PythonConfig) -> (r: Result<String, String>)
    ensures
        match python_start(*c) {
            Ok(cmd) => (r matches Ok(t) && t@ == cmd),
            Err(reason) => (r matches Err(t) && t@ == reason),
        },
{
    let main = nonblank_exec(&c.main_file);
    let asgi = nonblank_exec(&c.asgi_application);
    let wsgi = nonblank_exec(&c.wsgi_application);
    let from_main: Result<String, String> = match main {
        Some(m) => {
            let mut t = copy_str("python ");
            push_str(&mut t, m);
            Ok(t)
        },
        None => match c.framework {
            Some(f) => {
                let mut t = copy_str("no main file was detected for the ");
                push_str(&mut t, f.display_name());
                push_str(&mut t, " framework");
                Err(t)
            },
            None => Err(copy_str("no main file was detected for Python project")),
        },
    };
    if c.server == Some(PythonServer::Daphne) {
        match asgi {
            Some(a) => {
                let mut t = copy_str("daphne ");
                push_str(&mut t, a);
                push_str(&mut t, " --bind 0.0.0.0 --port $PORT");
                Ok(t)
            },
            None => Err(copy_str("no ASGI application was detected for the Daphne server")),
        }
    } else if c.server == Some(PythonServer::Uvicorn) {
        match asgi {
            Some(a) => {
                let mut t = copy_str("uvicorn ");
                push_str(&mut t, a);
                push_str(&mut t, " --host 0.0.0.0 --port $PORT");
                Ok(t)
            },
            None => match wsgi {
                Some(w) => {
                    let mut t = copy_str("uvicorn ");
                    push_str(&mut t, w);
                    push_str(&mut t, " --interface=wsgi --host 0.0.0.0 --port $PORT");
                    Ok(t)
                },
                None => if main.is_none() && c.framework.is_none() {
                    Err(
                        copy_str(
                            "no main file, ASGI application, or WSGI application was detected for the Uvicorn server",
                        ),
                    )
                } else {
                    from_main
                },
            },
        }
    } else if c.server == Some(PythonServer::Hypercorn) {
        match asgi {
            Some(a) => {
                let mut t = copy_str("hypercorn ");
                push_str(&mut t, a);
                push_str(&mut t, " --bind 0.0.0.0:$PORT");
                Ok(t)
            },
            None => Err(copy_str("no ASGI application was detected for the Hypercorn server")),
        }
    } else if c.framework == Some(PythonFramework::Streamlit) {
        match main {
            Some(m) => {
                let mut t = copy_str("streamlit run ");
                push_str(&mut t, m);
                push_str(&mut t, " --server.port $PORT --server.address 0.0.0.0 --server.headless true");
                Ok(t)
            },
            None => from_main,
        }
    } else if c.framework == Some(PythonFramework::Mcp) {
        match main {
            Some(m) => if c.mcp_self_running {
                let mut t = copy_str("python ");
                push_str(&mut t, m);
                Ok(t)
            } else {
                let mut t = copy_str("python $VIRTUAL_ENV/bin/mcp run ");
                push_str(&mut t, m);
                push_str(&mut t, " --transport=streamable-http");
                Ok(t)
            },
            None => from_main,
        }
    } else if c.framework == Some(PythonFramework::Django) {
        start_result(copy_str("python manage.py runserver 0.0.0.0:$PORT"))
    } else {
        from_main
    }
}

/// The start command a configuration implies; when none can be inferred,
/// the reason is given as a warning if `warn` asks for it.
pub fn infer_start_command(config: &PythonConfig, warn: bool) -> (r: PythonStart)
    ensures
        match python_start(*config) {
            Ok(cmd) => (r.command matches Some(t) && t@ == cmd) && r.warning is None,
            Err(reason) => r.command is None && (warn ==> (r.warning matches Some(w) && w@ == reason))
                && (!warn ==> r.warning is None),
        },
{
    match python_start_exec(config) {
        Ok(t) => PythonStart { command: Some(t), warning: None },
        Err(reason) => PythonStart { command: None, warning: if warn { Some(reason) } else { None } },
    }
}


// ---------------------------------------------------------------------------
// Scanning dependency files

/// A dependency file: its file name and its lines.
#[derive(Debug, Clone, PartialEq, Eq)]
pub struct DependencyFile {
    pub name: String,
    pub lines: Vec<String>,
}

/// The lowercased lines of every file but `uv.lock`, in order.
pub open spec fn scanned_lines(files: Seq<DependencyFile>) -> Seq<Seq<char>>
    decreases files.len(),
{
    if files.len() == 0 {
        seq![]
    } else {
        let before = scanned_lines(files.drop_last());
        let f = files.last();
        if f.name@ == "uv.lock"@ {
            before
        } else {
            before + text_views(f.lines@).map_values(|l: Seq<char>| unicode_lower(l))
        }
    }
}

/// Some scanned line mentions `dep`.
pub open spec fn mentioned(lines: Seq<Seq<char>>, dep: Seq<char>) -> bool {
    exists|i: int| 0 <= i < lines.len() && contains_seq(#[trigger] lines[i], dep)
}

pub open spec fn mentioned_deps(lines: Seq<Seq<char>>, deps: Seq<Seq<char>>) -> Seq<Seq<char>>
    decreases deps.len(),
{
    if deps.len() == 0 {
        seq![]
    } else {
        let before = mentioned_deps(lines, deps.drop_last());
        if mentioned(lines, deps.last()) {
            before.push(deps.last())
        } else {
            before
        }
    }
}

/// The (lowercased) dependencies some line of the files mentions, sorted
/// and distinct.
pub open spec fn found_deps_spec(deps: Seq<Seq<char>>, files: Seq<DependencyFile>) -> Seq<Seq<char>> {
    sorted_unique(
        mentioned_deps(scanned_lines(files), deps.map_values(|d: Seq<char>| unicode_lower(d))),
    )
}

fn scan_lines(files: &Vec<DependencyFile>) -> (r: Vec<String>)
    ensures
        text_views(r@) == scanned_lines(files@),
{
    let mut r: Vec<String> = Vec::new();
    let mut i: usize = 0;
    while i < files.len()
        invariant
            0 <= i <= files@.len(),
            text_views(r@) == scanned_lines(files@.subrange(0, i as int)),
        decreases files@.len() - i,
    {
        let ghost post = files@.subrange(0, i + 1);
        assert(post.drop_last() =~= files@.subrange(0, i as int));
        let f = &files[i];
        if !eq_str(f.name.as_str(), "uv.lock") {
            let ghost start = text_views(r@);
            let mut j: usize = 0;
            while j < f.lines.len()
                invariant
                    0 <= j <= f.lines@.len(),
                    r@.len() == start.len() + j,
                    text_views(r@) == start + text_views(f.lines@.subrange(0, j as int)).map_values(
                        |l: Seq<char>| unicode_lower(l),
                    ),
                decreases f.lines@.len() - j,
            {
                let ghost before = r@;
                let low = lowercase(f.lines[j].as_str());
                r.push(low);
                assert(text_views(r@) =~= text_views(before).push(low@));
                assert(text_views(f.lines@.subrange(0, j + 1)).map_values(|l: Seq<char>| unicode_lower(l))
                    =~= text_views(f.lines@.subrange(0, j as int)).map_values(|l: Seq<char>| unicode_lower(l)).push(
                    unicode_lower(f.lines@[j as int]@),
                ));
                j = j + 1;
            }
            assert(f.lines@.subrange(0, f.lines@.len() as int) =~= f.lines@);
        }
        i = i + 1;
    }
    assert(files@.subrange(0, files@.len() as int) =~= files@);
    r
}

fn any_mentions(lines: &Vec<String>, dep: &str) -> (r: bool)
    ensures
        r == mentioned(text_views(lines@), dep@),
{
    let mut i: usize = 0;
    while i < lines.len()
        invariant
            0 <= i <= lines@.len(),
            forall|k: int| 0 <= k < i ==> !contains_seq(#[trigger] text_views(lines@)[k], dep@),
        decreases lines@.len() - i,
    {
        if contains_str(lines[i].as_str(), dep) {
            assert(contains_seq(text_views(lines@)[i as int], dep@));
            return true;
        }
        i = i + 1;
    }
    false
}

/// The dependencies (lowercased) that some line of the dependency files
/// mentions, `uv.lock` left out; sorted and distinct.
pub fn check_deps(deps: &Vec<String>, files: &Vec<DependencyFile>) -> (r: Vec<String>)
    ensures
        text_views(r@) == found_deps_spec(text_views(deps@), files@),
{
    let lines = scan_lines(files);
    let ghost lowered = text_views(deps@).map_values(|d: Seq<char>| unicode_lower(d));
    let mut mentioned_list: Vec<String> = Vec::new();
    let mut i: usize = 0;
    while i < deps.len()
        invariant
            0 <= i <= deps@.len(),
            lowered == text_views(deps@).map_values(|d: Seq<char>| unicode_lower(d)),
            text_views(lines@) == scanned_lines(files@),
            text_views(mentioned_list@) == mentioned_deps(text_views(lines@), lowered.subrange(0, i as int)),
        decreases deps@.len() - i,
    {
        let ghost post = lowered.subrange(0, i + 1);
        assert(post.drop_last() =~= lowered.subrange(0, i as int));
        let low = lowercase(deps[i].as_str());
        assert(post.last() == low@);
        if any_mentions(&lines, low.as_str()) {
            let ghost before = mentioned_list@;
            mentioned_list.push(low);
            assert(text_views(mentioned_list@) =~= text_views(before).push(post.last()));
        }
        i = i + 1;
    }
    assert(lowered.subrange(0, deps@.len() as int) =~= lowered);
    let ghost ms = text_views(mentioned_list@);
    let mut sorted: Vec<String> = Vec::new();
    let mut j: usize = 0;
    while j < mentioned_list.len()
        invariant
            0 <= j <= mentioned_list@.len(),
            ms == text_views(mentioned_list@),
            text_views(sorted@) == sorted_unique(ms.subrange(0, j as int)),
        decreases mentioned_list@.len() - j,
    {
        assert(ms.subrange(0, j + 1).drop_last() =~= ms.subrange(0, j as int));
        sorted = insert_sorted_exec(&sorted, mentioned_list[j].as_str());
        j = j + 1;
    }
    assert(ms.subrange(0, mentioned_list@.len() as int) =~= ms);
    sorted
}

// ---------------------------------------------------------------------------
// Detection

/// Why a directory looks like a Python project.
#[derive(Debug, Clone, Copy, PartialEq, Eq, Structural)]
pub enum PythonEvidence {
    DjangoDependencies,
    Dependencies,
    Command,
    Entrypoint,
}

pub open spec fn python_command_start(start: Seq<char>) -> bool {
    has_prefix(start, "python "@) || has_prefix(start, "uv "@) || has_prefix(start, "uvicorn "@)
        || has_prefix(start, "gunicorn "@)
}

/// A dependency file (with `manage.py`: a Django project), else a start
/// command that runs Python, else a main file.
pub open spec fn python_evidence_spec(
    has_dependency_file: bool,
    has_manage_py: bool,
    start: Option<Seq<char>>,
    has_main_file: bool,
) -> Option<PythonEvidence> {
    if has_dependency_file {
        if has_manage_py {
            Some(PythonEvidence::DjangoDependencies)
        } else {
            Some(PythonEvidence::Dependencies)
        }
    } else if (start matches Some(s) && python_command_start(s)) {
        Some(PythonEvidence::Command)
    } else if has_main_file {
        Some(PythonEvidence::Entrypoint)
    } else {
        None
    }
}

pub fn detection_evidence(
    has_dependency_file: bool,
    has_manage_py: bool,
    start: Option<&str>,
    has_main_file: bool,
) -> (r: Option<PythonEvidence>)
    ensures
        r == python_evidence_spec(has_dependency_file, has_manage_py, opt_view(start), has_main_file),
{
    if has_dependency_file {
        if has_manage_py {
            return Some(PythonEvidence::DjangoDependencies);
        }
        return Some(PythonEvidence::Dependencies);
    }
    if let Some(s) = start {
        if starts_with_str(s, "python ") || starts_with_str(s, "uv ") || starts_with_str(s, "uvicorn ")
            || starts_with_str(s, "gunicorn ") {
            return Some(PythonEvidence::Command);
        }
    }
    if has_main_file {
        Some(PythonEvidence::Entrypoint)
    } else {
        None
    }
}

/// Whether an MCP main file starts its own server.
pub open spec fn mcp_self_running_spec(
    framework: Option<PythonFramework>,
    main_file: Option<Seq<char>>,
    main_text: Option<Seq<char>>,
) -> bool {
    framework == Some(PythonFramework::Mcp) && (main_file matches Some(m) && m.len() > 0) && (
    main_text matches Some(t) && (contains_seq(t, "if __name__ == \"__main__\""@) || contains_seq(
        t,
        "mcp.run"@,
    )))
}

/// `main_text` is the main file's text when it is a readable file.
pub fn detect_mcp_self_running(
    framework: Option<PythonFramework>,
    main_file: Option<&str>,
    main_text: Option<&str>,
) -> (r: bool)
    ensures
        r == mcp_self_running_spec(framework, opt_view(main_file), opt_view(main_text)),
{
    if framework != Some(PythonFramework::Mcp) {
        return false;
    }
    match main_file {
        Some(m) => if m.unicode_len() == 0 {
            return false;
        },
        None => return false,
    }
    match main_text {
        Some(t) => contains_str(t, "if __name__ == \"__main__\"") || contains_str(t, "mcp.run"),
        None => false,
    }
}


// ---------------------------------------------------------------------------
// Loading a project

/// What the provider reads from a project directory.
#[derive(Debug, Clone, PartialEq, Eq)]
pub struct PythonProject {
    /// The main file found by looking for the usual names.
    pub detected_main_file: Option<String>,
    /// The text of `.python-version`, when it exists and can be read.
    pub python_version_file: Option<String>,
    /// The dependency files found for the project, with their lines.
    pub dependency_files: Vec<DependencyFile>,
    pub has_manage_py: bool,
    pub has_alembic_ini: bool,
    /// The install inputs reference local files outside the inputs.
    pub context_requires_all_files: bool,
    /// The text of the first `settings.py` under the project (Django).
    pub settings_text: Option<String>,
    /// The files an install reads.
    pub install_inputs: Vec<String>,
    /// The text of the main file the configuration ends up with, when it
    /// is a readable file (see `resolved_main_file`).
    pub main_file_text: Option<String>,
}

pub open spec fn resolved_main_file_spec(configured: Option<String>, detected: Option<String>) -> Option<Seq<char>> {
    if blank(configured) {
        opt_string_view(detected)
    } else {
        opt_string_view(configured)
    }
}

/// The main file: the configured one unless blank, else the detected one.
pub fn resolved_main_file(configured: &Option<String>, detected: &Option<String>) -> (r: Option<String>)
    ensures
        opt_string_view(r) == resolved_main_file_spec(*configured, *detected),
{
    if is_blank(configured) {
        crate::options::clone_opt(detected)
    } else {
        crate::options::clone_opt(configured)
    }
}

pub open spec fn nonblank_view(o: Option<Seq<char>>) -> Option<Seq<char>> {
    match o {
        Some(s) => if s.len() > 0 {
            Some(s)
        } else {
            None
        },
        None => None,
    }
}

/// The configured dependencies plus each required one the project does not
/// already list.
pub open spec fn add_missing(extra: Seq<Seq<char>>, must: Seq<Seq<char>>, found: Seq<Seq<char>>) -> Seq<Seq<char>>
    decreases must.len(),
{
    if must.len() == 0 {
        extra
    } else {
        let before = add_missing(extra, must.drop_last(), found);
        if found.contains(must.last()) {
            before
        } else {
            insert_sorted(before, must.last())
        }
    }
}

pub open spec fn should_use_uvicorn(f: Option<PythonFramework>) -> bool {
    f == Some(PythonFramework::Django) || f == Some(PythonFramework::FastApi) || f == Some(
        PythonFramework::Flask,
    )
}

// The loading rules, one decision at a time.

pub open spec fn load_version(c0: PythonConfig, p: PythonProject) -> Option<Seq<char>> {
    if blank(c0.python_version) {
        match p.python_version_file {
            Some(t) => Some(crate::text::trim(t@)),
            None => Some("3.13"@),
        }
    } else {
        opt_string_view(c0.python_version)
    }
}

pub open spec fn load_found(must: Seq<Seq<char>>, p: PythonProject) -> Seq<Seq<char>> {
    found_deps_spec(dependency_scan() + mysql_deps() + pg_deps() + must, p.dependency_files@)
}

pub open spec fn load_all_files(c0: PythonConfig, found: Seq<Seq<char>>, p: PythonProject) -> bool {
    c0.install_requires_all_files || found.contains("file://"@) || p.context_requires_all_files
}

pub open spec fn load_server1(c0: PythonConfig, found: Seq<Seq<char>>) -> Option<PythonServer> {
    if c0.server is None {
        server_for(found)
    } else {
        c0.server
    }
}

pub open spec fn load_runtime_deps(c0: PythonConfig, found: Seq<Seq<char>>) -> Seq<Seq<char>> {
    text_views(c0.base.runtime_dependencies@) + (if found.contains("ffmpeg"@) {
        seq!["ffmpeg"@]
    } else {
        Seq::<Seq<char>>::empty()
    }) + (if found.contains("pandoc"@) {
        seq!["pandoc"@]
    } else {
        Seq::<Seq<char>>::empty()
    })
}

pub open spec fn load_framework(c0: PythonConfig, found: Seq<Seq<char>>, p: PythonProject) -> Option<PythonFramework> {
    if c0.framework is None {
        framework_for(p.has_manage_py, found)
    } else {
        c0.framework
    }
}

pub open spec fn load_migration(c0: PythonConfig, found: Seq<Seq<char>>, p: PythonProject) -> Option<MigrationStrategy> {
    let fw = load_framework(c0, found, p);
    let mig1 = if c0.framework is None && fw == Some(PythonFramework::Django) {
        Some(MigrationStrategy::Django)
    } else {
        c0.migration_strategy
    };
    if mig1 is None {
        migration_for(fw, found, p.has_alembic_ini)
    } else {
        mig1
    }
}

/// The server after the framework's default, and whether that default
/// required uvicorn.
pub open spec fn load_server2(server1: Option<PythonServer>, fw: Option<PythonFramework>) -> Option<PythonServer> {
    if server1 is None && fw is Some {
        default_server_spec(fw)
    } else {
        server1
    }
}

pub open spec fn load_apps(
    c0: PythonConfig,
    fw: Option<PythonFramework>,
    main: Option<Seq<char>>,
    p: PythonProject,
) -> (Option<Seq<char>>, Option<Seq<char>>) {
    if blank(c0.asgi_application) && blank(c0.wsgi_application) {
        applications_for(fw, main, opt_string_view(p.settings_text))
    } else {
        (opt_string_view(c0.asgi_application), opt_string_view(c0.wsgi_application))
    }
}

/// The start command runs uvicorn, or the framework wants it and no
/// server was chosen.
pub open spec fn load_to_uvicorn(c0: PythonConfig, fw: Option<PythonFramework>, server2: Option<PythonServer>) -> bool {
    (c0.base.commands.start matches Some(st) && has_prefix(st@, "uvicorn "@)) || (should_use_uvicorn(fw)
        && server2 is None)
}

/// The dependencies the install must have.
pub open spec fn load_must(
    must: Seq<Seq<char>>,
    server1: Option<PythonServer>,
    fw: Option<PythonFramework>,
    server2: Option<PythonServer>,
    to_uvicorn: bool,
) -> Seq<Seq<char>> {
    let must1 = if server1 is None && fw is Some && server2 == Some(PythonServer::Uvicorn) {
        must.push("uvicorn"@)
    } else {
        must
    };
    let must2 = if to_uvicorn {
        must1.push("uvicorn"@)
    } else {
        must1
    };
    if fw == Some(PythonFramework::Mcp) {
        must2.push("mcp[cli]"@)
    } else {
        must2
    }
}

pub open spec fn load_database(c0: PythonConfig, found: Seq<Seq<char>>) -> Option<DatabaseEngine> {
    match c0.database {
        Some(d) => Some(engine_of(d)),
        None => match database_for(found) {
            Some(e) => Some(e),
            None => c0.base.database,
        },
    }
}

/// The configuration after loading: every decided field set, the rest as
/// configured.
pub open spec fn python_loaded(c0: PythonConfig, must: Seq<Seq<char>>, p: PythonProject, c: PythonConfig) -> bool {
    let main = resolved_main_file_spec(c0.main_file, p.detected_main_file);
    let found = load_found(must, p);
    let server1 = load_server1(c0, found);
    let fw = load_framework(c0, found, p);
    let server2 = load_server2(server1, fw);
    let apps = load_apps(c0, fw, main, p);
    let to_uvicorn = load_to_uvicorn(c0, fw, server2);
    let server = if to_uvicorn {
        Some(PythonServer::Uvicorn)
    } else {
        server2
    };
    let self_running = mcp_self_running_spec(fw, main, opt_string_view(p.main_file_text));
    &&& opt_string_view(c.main_file) == main
    &&& opt_string_view(c.python_version) == load_version(c0, p)
    &&& c.install_requires_all_files == load_all_files(c0, found, p)
    &&& text_views(c.base.runtime_dependencies@) == load_runtime_deps(c0, found)
    &&& c.framework == fw
    &&& c.migration_strategy == load_migration(c0, found, p)
    &&& opt_string_view(c.asgi_application) == apps.0
    &&& opt_string_view(c.wsgi_application) == apps.1
    &&& c.server == server
    &&& text_views(c.extra_dependencies@) == add_missing(
        text_views(c0.extra_dependencies@),
        load_must(must, server1, fw, server2, to_uvicorn),
        found,
    )
    &&& c.base.database == load_database(c0, found)
    &&& (c.install_inputs matches Some(v) && text_views(v@) == text_views(p.install_inputs@))
    &&& c.mcp_self_running == self_running
    &&& opt_string_view(c.base.commands.start) == (if blank(c0.base.commands.start) {
        match python_start_of(nonblank_view(main), nonblank_view(apps.0), nonblank_view(apps.1), server, fw, self_running) {
            Ok(cmd) => Some(cmd),
            Err(_) => None,
        }
    } else {
        opt_string_view(c0.base.commands.start)
    })
    &&& c.database == c0.database
    &&& c.uv_version == c0.uv_version
    &&& c.precompile_python == c0.precompile_python
    &&& c.cross_platform == c0.cross_platform
    &&& c.python_extra_index_url == c0.python_extra_index_url
    &&& c.base.name == c0.base.name
    &&& c.base.port == c0.base.port
    &&& c.base.app_subdir == c0.base.app_subdir
    &&& c.base.commands.install == c0.base.commands.install
    &&& c.base.commands.build == c0.base.commands.build
    &&& c.base.commands.after_deploy == c0.base.commands.after_deploy
}

fn push_text(v: &mut Vec<String>, t: &str)
    ensures
        text_views(final(v)@) == text_views(old(v)@).push(t@),
{
    v.push(copy_str(t));
    assert(text_views(v@) =~= text_views(old(v)@).push(t@));
}

fn append_texts(v: &mut Vec<String>, more: &Vec<String>)
    ensures
        text_views(final(v)@) == text_views(old(v)@) + text_views(more@),
{
    let ghost start = text_views(v@);
    let mut i: usize = 0;
    while i < more.len()
        invariant
            0 <= i <= more@.len(),
            text_views(v@) == start + text_views(more@.subrange(0, i as int)),
        decreases more@.len() - i,
    {
        push_text(v, more[i].as_str());
        assert(text_views(more@.subrange(0, i + 1)) =~= text_views(more@.subrange(0, i as int)).push(more@[i as int]@));
        i = i + 1;
    }
    assert(more@.subrange(0, more@.len() as int) =~= more@);
}

fn add_missing_exec(extra: &Vec<String>, must: &Vec<String>, found: &Vec<String>) -> (r: Vec<String>)
    ensures
        text_views(r@) == add_missing(text_views(extra@), text_views(must@), text_views(found@)),
{
    let ghost mv = text_views(must@);
    let mut r = crate::auto::clone_strings(extra);
    let mut i: usize = 0;
    while i < must.len()
        invariant
            0 <= i <= must@.len(),
            mv == text_views(must@),
            text_views(r@) == add_missing(text_views(extra@), mv.subrange(0, i as int), text_views(found@)),
        decreases must@.len() - i,
    {
        assert(mv.subrange(0, i + 1).drop_last() =~= mv.subrange(0, i as int));
        if !contains_text(found, must[i].as_str()) {
            r = insert_sorted_exec(&r, must[i].as_str());
        }
        i = i + 1;
    }
    assert(mv.subrange(0, must@.len() as int) =~= mv);
    r
}

fn clone_opt_framework_start(o: &Option<String>) -> (r: Option<String>)
    ensures
        r == *o,
{
    match o {
        Some(s) => Some(s.clone()),
        None => None,
    }
}

/// The scan list and what the dependency files mention of it.
fn scan_found(must_have_deps: &Vec<String>, project: &PythonProject) -> (r: Vec<String>)
    ensures
        text_views(r@) == load_found(text_views(must_have_deps@), *project),
{
    let mut scan = dependency_scan_names();
    let mysql = mysql_dep_names();
    let pg = pg_dep_names();
    append_texts(&mut scan, &mysql);
    append_texts(&mut scan, &pg);
    append_texts(&mut scan, must_have_deps);
    check_deps(&scan, &project.dependency_files)
}

/// The decisions that come before the server default: version, files,
/// server, runtime tools, framework and migrations.
fn load_first(c: &mut PythonConfig, found: &Vec<String>, project: &PythonProject)
    ensures
        opt_string_view(final(c).python_version) == load_version(*old(c), *project),
        final(c).install_requires_all_files == load_all_files(*old(c), text_views(found@), *project),
        final(c).server == load_server1(*old(c), text_views(found@)),
        text_views(final(c).base.runtime_dependencies@) == load_runtime_deps(*old(c), text_views(found@)),
        final(c).framework == load_framework(*old(c), text_views(found@), *project),
        final(c).migration_strategy == load_migration(*old(c), text_views(found@), *project),
        final(c).main_file == old(c).main_file,
        final(c).asgi_application == old(c).asgi_application,
        final(c).wsgi_application == old(c).wsgi_application,
        final(c).extra_dependencies == old(c).extra_dependencies,
        final(c).database == old(c).database,
        final(c).base.database == old(c).base.database,
        final(c).base.commands == old(c).base.commands,
        final(c).base.name == old(c).base.name,
        final(c).base.port == old(c).base.port,
        final(c).base.app_subdir == old(c).base.app_subdir,
        final(c).uv_version == old(c).uv_version,
        final(c).precompile_python == old(c).precompile_python,
        final(c).cross_platform == old(c).cross_platform,
        final(c).python_extra_index_url == old(c).python_extra_index_url,
{
    if is_blank(&c.python_version) {
        c.python_version = match &project.python_version_file {
            Some(t) => Some(crate::text::trim_str(t)),
            None => Some(copy_str("3.13")),
        };
    }
    if contains_text(found, "file://") || project.context_requires_all_files {
        c.install_requires_all_files = true;
    }
    if c.server.is_none() {
        c.server = detect_server(found);
    }
    if contains_text(found, "ffmpeg") {
        let ghost before = text_views(c.base.runtime_dependencies@);
        c.base.runtime_dependencies.push(copy_str("ffmpeg"));
        assert(text_views(c.base.runtime_dependencies@) =~= before.push("ffmpeg"@));
    }
    if contains_text(found, "pandoc") {
        let ghost before = text_views(c.base.runtime_dependencies@);
        c.base.runtime_dependencies.push(copy_str("pandoc"));
        assert(text_views(c.base.runtime_dependencies@) =~= before.push("pandoc"@));
    }
    assert(text_views(c.base.runtime_dependencies@) =~= load_runtime_deps(*old(c), text_views(found@)));
    if c.framework.is_none() {
        c.framework = detect_framework(project.has_manage_py, found);
        if c.framework == Some(PythonFramework::Django) {
            c.migration_strategy = Some(MigrationStrategy::Django);
        }
    }
    if c.migration_strategy.is_none() {
        c.migration_strategy = detect_migration_strategy(c.framework, found, project.has_alembic_ini);
    }
}

fn str_of(o: &Option<String>) -> (r: Option<&str>)
    ensures
        opt_view(r) == opt_string_view(*o),
{
    match o {
        Some(s) => Some(s.as_str()),
        None => None,
    }
}

/// The server a framework implies, the applications, and whether uvicorn
/// is needed; `must` gains what the install then requires.
fn load_servers(c: &mut PythonConfig, must: &mut Vec<String>, project: &PythonProject)
    ensures
        ({
            let server1 = old(c).server;
            let fw = old(c).framework;
            let server2 = load_server2(server1, fw);
            let to_uvicorn = load_to_uvicorn(*old(c), fw, server2);
            &&& final(c).server == (if to_uvicorn {
                Some(PythonServer::Uvicorn)
            } else {
                server2
            })
            &&& text_views(final(must)@) == load_must(text_views(old(must)@), server1, fw, server2, to_uvicorn)
            &&& opt_string_view(final(c).asgi_application) == load_apps(*old(c), fw, opt_string_view(old(c).main_file), *project).0
            &&& opt_string_view(final(c).wsgi_application) == load_apps(*old(c), fw, opt_string_view(old(c).main_file), *project).1
        }),
        final(c).main_file == old(c).main_file,
        final(c).python_version == old(c).python_version,
        final(c).install_requires_all_files == old(c).install_requires_all_files,
        final(c).base == old(c).base,
        final(c).framework == old(c).framework,
        final(c).migration_strategy == old(c).migration_strategy,
        final(c).extra_dependencies == old(c).extra_dependencies,
        final(c).database == old(c).database,
        final(c).uv_version == old(c).uv_version,
        final(c).precompile_python == old(c).precompile_python,
        final(c).cross_platform == old(c).cross_platform,
        final(c).python_extra_index_url == old(c).python_extra_index_url,
{
    if c.server.is_none() && c.framework.is_some() {
        c.server = default_server_for_framework(c.framework);
        if c.server == Some(PythonServer::Uvicorn) {
            push_text(must, "uvicorn");
        }
    }
    if is_blank(&c.asgi_application) && is_blank(&c.wsgi_application) {
        let (asgi, wsgi) = resolve_applications(c.framework, str_of(&c.main_file), str_of(&project.settings_text));
        c.asgi_application = asgi;
        c.wsgi_application = wsgi;
    }
    let uvicorn_start = match &c.base.commands.start {
        Some(st) => starts_with_str(st, "uvicorn "),
        None => false,
    };
    let should = c.framework == Some(PythonFramework::Django) || c.framework == Some(PythonFramework::FastApi)
        || c.framework == Some(PythonFramework::Flask);
    if uvicorn_start || (should && c.server.is_none()) {
        push_text(must, "uvicorn");
        c.server = Some(PythonServer::Uvicorn);
    }
    if c.framework == Some(PythonFramework::Mcp) {
        push_text(must, "mcp[cli]");
    }
}

/// The added dependencies, the database service, the install inputs, and
/// the start command.
fn load_finish(c: &mut PythonConfig, must: &Vec<String>, found: &Vec<String>, project: &PythonProject)
    ensures
        text_views(final(c).extra_dependencies@) == add_missing(text_views(old(c).extra_dependencies@), text_views(must@), text_views(found@)),
        final(c).base.database == (match old(c).database {
            Some(d) => Some(engine_of(d)),
            None => match database_for(text_views(found@)) {
                Some(e) => Some(e),
                None => old(c).base.database,
            },
        }),
        (final(c).install_inputs matches Some(v) && text_views(v@) == text_views(project.install_inputs@)),
        final(c).mcp_self_running == mcp_self_running_spec(old(c).framework, opt_string_view(old(c).main_file), opt_string_view(project.main_file_text)),
        opt_string_view(final(c).base.commands.start) == (if blank(old(c).base.commands.start) {
            match python_start_of(
                nonblank_view(opt_string_view(old(c).main_file)),
                nonblank_view(opt_string_view(old(c).asgi_application)),
                nonblank_view(opt_string_view(old(c).wsgi_application)),
                old(c).server,
                old(c).framework,
                mcp_self_running_spec(old(c).framework, opt_string_view(old(c).main_file), opt_string_view(project.main_file_text)),
            ) {
                Ok(cmd) => Some(cmd),
                Err(_) => None,
            }
        } else {
            opt_string_view(old(c).base.commands.start)
        }),
        final(c).main_file == old(c).main_file,
        final(c).python_version == old(c).python_version,
        final(c).install_requires_all_files == old(c).install_requires_all_files,
        final(c).base.runtime_dependencies == old(c).base.runtime_dependencies,
        final(c).base.name == old(c).base.name,
        final(c).base.port == old(c).base.port,
        final(c).base.app_subdir == old(c).base.app_subdir,
        final(c).base.commands.install == old(c).base.commands.install,
        final(c).base.commands.build == old(c).base.commands.build,
        final(c).base.commands.after_deploy == old(c).base.commands.after_deploy,
        final(c).framework == old(c).framework,
        final(c).migration_strategy == old(c).migration_strategy,
        final(c).server == old(c).server,
        final(c).asgi_application == old(c).asgi_application,
        final(c).wsgi_application == old(c).wsgi_application,
        final(c).database == old(c).database,
        final(c).uv_version == old(c).uv_version,
        final(c).precompile_python == old(c).precompile_python,
        final(c).cross_platform == old(c).cross_platform,
        final(c).python_extra_index_url == old(c).python_extra_index_url,
{
    c.extra_dependencies = add_missing_exec(&c.extra_dependencies, must, found);
    let detected = match c.database {
        Some(d) => Some(d.into_database_engine()),
        None => detect_database(found),
    };
    if let Some(engine) = detected {
        c.base.set_database_service(engine);
    }
    c.install_inputs = Some(crate::auto::clone_strings(&project.install_inputs));
    c.mcp_self_running = detect_mcp_self_running(c.framework, str_of(&c.main_file), str_of(&project.main_file_text));
    if is_blank(&c.base.commands.start) {
        let inferred = infer_start_command(&c, true);
        c.base.commands.start = inferred.command;
    }
}

/// Load a Python project's configuration: the configured values (already
/// read from the environment) completed from what the project holds.
/// `must_have_deps` are dependencies the install needs whatever the
/// project lists.
pub fn load_python_config(config: PythonConfig, must_have_deps: &Vec<String>, project: &PythonProject) -> (r: PythonConfig)
    ensures
        python_loaded(config, text_views(must_have_deps@), *project, r),
{
    let mut c = config;
    let main = resolved_main_file(&c.main_file, &project.detected_main_file);
    c.main_file = main;
    let found = scan_found(must_have_deps, project);
    load_first(&mut c, &found, project);
    let mut must: Vec<String> = crate::auto::clone_strings(must_have_deps);
    load_servers(&mut c, &mut must, project);
    load_finish(&mut c, &must, &found, project);
    c
}

} // verus!
