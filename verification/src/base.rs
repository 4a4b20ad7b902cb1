//! The settings every provider shares, and how `ANYBUILD_<FIELD>` (or the
//! legacy `SHIPIT_<FIELD>`) environment variables override them.
//!
//! The environment is an ordered map of variable names to values; field
//! names are ASCII identifiers.
use vstd::prelude::*;
use crate::env_map::{map_get, map_get_exec, pairs_view};
use crate::text::{
    all_digits, chars_of, copy_str, digits_value, lower_seq, lower_vec, parse_u64,
    parse_u64_exec, push_str, string_of, trim, trim_str, upper_seq, upper_vec,
};

verus! {

// ---------------------------------------------------------------------------
// Values

/// Python truthiness for optional strings: absent and empty are both
/// blank.
pub open spec fn blank(value: Option<String>) -> bool {
    match value {
        None => true,
        Some(s) => s@.len() == 0,
    }
}

pub fn is_blank(value: &Option<String>) -> (r: bool)
    ensures
        r == blank(*value),
{
    match value {
        None => true,
        Some(s) => s.unicode_len() == 0,
    }
}

/// The boolean a (trimmed, lowercased) word spells, if any.
pub open spec fn bool_word(w: Seq<char>) -> Option<bool> {
    if w == "true"@ || w == "t"@ || w == "yes"@ || w == "y"@ || w == "on"@ || w == "1"@ {
        Some(true)
    } else if w == "false"@ || w == "f"@ || w == "no"@ || w == "n"@ || w == "off"@ || w == "0"@ {
        Some(false)
    } else {
        None
    }
}

/// A boolean from a string: the trimmed text, ignoring ASCII case, as one
/// of the accepted true or false words.
pub fn parse_environment_bool(raw: &str) -> (r: Option<bool>)
    ensures
        r == bool_word(lower_seq(trim(raw@))),
{
    let t = trim_str(raw);
    let w = string_of(&lower_vec(&chars_of(t.as_str())));
    let s = w.as_str();
    if crate::text::eq_str(s, "true") || crate::text::eq_str(s, "t") || crate::text::eq_str(s, "yes")
        || crate::text::eq_str(s, "y") || crate::text::eq_str(s, "on") || crate::text::eq_str(s, "1") {
        Some(true)
    } else if crate::text::eq_str(s, "false") || crate::text::eq_str(s, "f") || crate::text::eq_str(
        s,
        "no",
    ) || crate::text::eq_str(s, "n") || crate::text::eq_str(s, "off") || crate::text::eq_str(s, "0") {
        Some(false)
    } else {
        None
    }
}

/// `str::parse::<i64>`: an optional sign, then one or more ASCII digits,
/// with the value in range.
pub open spec fn parse_i64(s: Seq<char>) -> Option<i64> {
    if s.len() > 0 && s[0] == '-' {
        let d = s.drop_first();
        if d.len() > 0 && all_digits(d) && digits_value(d) <= 0x8000_0000_0000_0000 {
            Some((0 - digits_value(d)) as i64)
        } else {
            None
        }
    } else {
        match parse_u64(s) {
            Some(v) => if v <= i64::MAX {
                Some(v as i64)
            } else {
                None
            },
            None => None,
        }
    }
}

pub fn parse_i64_exec(s: &Vec<char>) -> (r: Option<i64>)
    ensures
        r == parse_i64(s@),
{
    if s.len() > 0 && s[0] == '-' {
        let mut d: Vec<char> = Vec::new();
        let mut i: usize = 1;
        while i < s.len()
            invariant
                1 <= i <= s@.len(),
                d@ == s@.subrange(1, i as int),
            decreases s@.len() - i,
        {
            d.push(s[i]);
            assert(d@ =~= s@.subrange(1, i + 1));
            i = i + 1;
        }
        assert(d@ =~= s@.drop_first());
        if d.len() > 0 && d[0] == '+' {
            assert(!all_digits(d@)) by {
                assert(!crate::text::is_digit(d@[0]));
            }
            return None;
        }
        match parse_u64_exec(&d) {
            None => None,
            Some(v) => {
                if v > 0x8000_0000_0000_0000 {
                    None
                } else if v == 0x8000_0000_0000_0000 {
                    Some(i64::MIN)
                } else {
                    let n: i64 = v as i64;
                    Some(-n)
                }
            },
        }
    } else {
        match parse_u64_exec(s) {
            None => None,
            Some(v) => if v <= 0x7fff_ffff_ffff_ffff {
                Some(v as i64)
            } else {
                None
            },
        }
    }
}

// ---------------------------------------------------------------------------
// The environment overlay

/// What `str::to_uppercase` makes of a text.
pub uninterp spec fn unicode_upper(s: Seq<char>) -> Seq<char>;

/// `str::to_uppercase`: the text in Unicode uppercase.
#[verifier::external_body]
pub(crate) fn uppercase(s: &str) -> (r: String)
    ensures
        r@ == unicode_upper(s@),
{
    s.to_uppercase()
}

/// `ANYBUILD_<FIELD>`, the field in Unicode uppercase.
pub open spec fn anybuild_name(field: Seq<char>) -> Seq<char> {
    "ANYBUILD_"@ + unicode_upper(field)
}

/// `SHIPIT_<FIELD>`, the field in Unicode uppercase.
pub open spec fn shipit_name(field: Seq<char>) -> Seq<char> {
    "SHIPIT_"@ + unicode_upper(field)
}

/// The variable that sets a field, and its value: the Anybuild name first,
/// the legacy name only when the Anybuild one is absent.
pub open spec fn env_value_spec(env: Seq<(Seq<char>, Seq<char>)>, field: Seq<char>) -> Option<(Seq<char>, Seq<char>)> {
    match map_get(env, anybuild_name(field)) {
        Some(v) => Some((anybuild_name(field), v)),
        None => match map_get(env, shipit_name(field)) {
            Some(v) => Some((shipit_name(field), v)),
            None => None,
        },
    }
}

fn prefixed(prefix: &str, field: &str) -> (r: String)
    ensures
        r@ == prefix@ + unicode_upper(field@),
{
    let mut name = copy_str(prefix);
    let upper = uppercase(field);
    push_str(&mut name, &upper);
    name
}

pub fn env_value(env: &Vec<(String, String)>, field: &str) -> (r: Option<(String, String)>)
    ensures
        r is None <==> env_value_spec(pairs_view(env@), field@) is None,
        r matches Some(p) ==> env_value_spec(pairs_view(env@), field@) == Some((p.0@, p.1@)),
{
    let a = prefixed("ANYBUILD_", field);
    match map_get_exec(env, a.as_str()) {
        Some(v) => Some((a, v)),
        None => {
            let b = prefixed("SHIPIT_", field);
            match map_get_exec(env, b.as_str()) {
                Some(v) => Some((b, v)),
                None => None,
            }
        },
    }
}

/// The value that overrides a field, if any. An explicitly empty value is
/// kept, not taken as absent.
pub fn env_str(env: &Vec<(String, String)>, field: &str) -> (r: Option<String>)
    ensures
        crate::python::opt_string_view(r) == str_override(pairs_view(env@), field@),
        r is None <==> env_value_spec(pairs_view(env@), field@) is None,
        r matches Some(v) ==> (env_value_spec(pairs_view(env@), field@) matches Some(p) && p.1 == v@),
{
    match env_value(env, field) {
        Some((_, v)) => Some(v),
        None => None,
    }
}

/// `Invalid value for <name>: <raw, quoted>; expected <what>`.
pub open spec fn invalid_value_text(name: Seq<char>, raw: Seq<char>, expected: Seq<char>) -> Seq<char> {
    "Invalid value for "@ + name + ": "@ + crate::local_build::debug_text(raw) + "; expected "@ + expected
}

pub fn invalid_value(name: &str, raw: &str, expected: &str) -> (r: String)
    ensures
        r@ == invalid_value_text(name@, raw@, expected@),
{
    let mut out = copy_str("Invalid value for ");
    push_str(&mut out, name);
    push_str(&mut out, ": ");
    let quoted = crate::local_build::debug_quoted(raw);
    push_str(&mut out, &quoted);
    push_str(&mut out, "; expected ");
    push_str(&mut out, expected);
    out
}

pub open spec fn bool_expectation() -> Seq<char> {
    "a boolean (true/false, yes/no, on/off, or 1/0)"@
}

/// A result with its error taken by its view.
pub open spec fn err_view<T>(r: Result<T, String>) -> Result<T, Seq<char>> {
    match r {
        Ok(v) => Ok(v),
        Err(e) => Err(e@),
    }
}

/// A text field's override, taken as is.
pub open spec fn str_override(env: Seq<(Seq<char>, Seq<char>)>, field: Seq<char>) -> Option<Seq<char>> {
    match env_value_spec(env, field) {
        Some(p) => Some(p.1),
        None => None,
    }
}

/// A boolean field's override: absent, a boolean, or the error that
/// names the variable.
pub open spec fn bool_override(env: Seq<(Seq<char>, Seq<char>)>, field: Seq<char>) -> Result<Option<bool>, Seq<char>> {
    match env_value_spec(env, field) {
        None => Ok(None),
        Some(p) => match bool_word(lower_seq(trim(p.1))) {
            Some(b) => Ok(Some(b)),
            None => Err(invalid_value_text(p.0, p.1, bool_expectation())),
        },
    }
}

/// An integer field's override.
pub open spec fn int_override(env: Seq<(Seq<char>, Seq<char>)>, field: Seq<char>) -> Result<Option<i64>, Seq<char>> {
    match env_value_spec(env, field) {
        None => Ok(None),
        Some(p) => match parse_i64(trim(p.1)) {
            Some(n) => Ok(Some(n)),
            None => Err(invalid_value_text(p.0, p.1, "an integer"@)),
        },
    }
}

/// A field's override parsed by `parse`; `expected` names what it accepts.
pub open spec fn enum_override<T>(
    env: Seq<(Seq<char>, Seq<char>)>,
    field: Seq<char>,
    parse: spec_fn(Seq<char>) -> Option<T>,
    expected: Seq<char>,
) -> Result<Option<T>, Seq<char>> {
    match env_value_spec(env, field) {
        None => Ok(None),
        Some(p) => match parse(p.1) {
            Some(v) => Ok(Some(v)),
            None => Err(invalid_value_text(p.0, p.1, expected)),
        },
    }
}

/// A boolean field's override, coerced from its text.
pub fn env_bool(env: &Vec<(String, String)>, field: &str) -> (r: Result<Option<bool>, String>)
    ensures
        err_view(r) == bool_override(pairs_view(env@), field@),
        env_value_spec(pairs_view(env@), field@) is None ==> r == Ok::<Option<bool>, String>(None),
        env_value_spec(pairs_view(env@), field@) matches Some(p) ==> match bool_word(lower_seq(trim(p.1))) {
            Some(b) => r == Ok::<Option<bool>, String>(Some(b)),
            None => (r matches Err(e) && e@ == invalid_value_text(p.0, p.1, bool_expectation())),
        },
{
    match env_value(env, field) {
        None => Ok(None),
        Some((name, raw)) => match parse_environment_bool(&raw) {
            Some(b) => Ok(Some(b)),
            None => Err(invalid_value(&name, &raw, "a boolean (true/false, yes/no, on/off, or 1/0)")),
        },
    }
}

/// An integer field's override.
pub fn env_int(env: &Vec<(String, String)>, field: &str) -> (r: Result<Option<i64>, String>)
    ensures
        err_view(r) == int_override(pairs_view(env@), field@),
        env_value_spec(pairs_view(env@), field@) is None ==> r == Ok::<Option<i64>, String>(None),
        env_value_spec(pairs_view(env@), field@) matches Some(p) ==> match parse_i64(trim(p.1)) {
            Some(n) => r == Ok::<Option<i64>, String>(Some(n)),
            None => (r matches Err(e) && e@ == invalid_value_text(p.0, p.1, "an integer"@)),
        },
{
    match env_value(env, field) {
        None => Ok(None),
        Some((name, raw)) => {
            let t = trim_str(&raw);
            match parse_i64_exec(&chars_of(t.as_str())) {
                Some(n) => Ok(Some(n)),
                None => Err(invalid_value(&name, &raw, "an integer")),
            }
        },
    }
}

// ---------------------------------------------------------------------------
// The shared settings

#[derive(Debug, Clone, PartialEq, Eq)]
pub struct CustomCommands {
    pub install: Option<String>,
    pub build: Option<String>,
    pub start: Option<String>,
    pub after_deploy: Option<String>,
}

impl Default for CustomCommands {
    fn default() -> (r: Self)
        ensures
            r.install is None,
            r.build is None,
            r.start is None,
            r.after_deploy is None,
    {
        CustomCommands { install: None, build: None, start: None, after_deploy: None }
    }
}

/// The database a project's service runs.
#[derive(Debug, Clone, Copy, PartialEq, Eq, Structural)]
pub enum DatabaseEngine {
    Mysql,
    Postgres,
}

/// No custom command is set.
pub open spec fn no_commands(c: CustomCommands) -> bool {
    c.install is None && c.build is None && c.start is None && c.after_deploy is None
}

/// An optional text field taken from the environment as is.
pub open spec fn field_from_env(env: Seq<(Seq<char>, Seq<char>)>, field: Seq<char>, v: Option<String>) -> bool {
    match env_value_spec(env, field) {
        Some(p) => (v matches Some(s) && s@ == p.1),
        None => v is None,
    }
}

/// The port override, when set, parses as an integer.
pub open spec fn port_override_valid(env: Seq<(Seq<char>, Seq<char>)>) -> bool {
    env_value_spec(env, "port"@) matches Some(p) ==> parse_i64(trim(p.1)) is Some
}

pub open spec fn port_error_text(env: Seq<(Seq<char>, Seq<char>)>) -> Seq<char> {
    match env_value_spec(env, "port"@) {
        Some(p) => invalid_value_text(p.0, p.1, "an integer"@),
        None => seq![],
    }
}

/// The shared settings read from the environment over their defaults.
pub open spec fn base_from_env(env: Seq<(Seq<char>, Seq<char>)>, c: BaseConfig) -> bool {
    &&& field_from_env(env, "name"@, c.name)
    &&& c.port == (match env_value_spec(env, "port"@) {
        Some(p) => parse_i64(trim(p.1)),
        None => Some(8080i64),
    })
    &&& field_from_env(env, "app_subdir"@, c.app_subdir)
    &&& no_commands(c.commands)
    &&& c.runtime_dependencies@.len() == 0
    &&& c.database is None
}

/// The settings every provider has.
#[derive(Debug, Clone, PartialEq, Eq)]
pub struct BaseConfig {
    /// Serve name; defaults to the project directory name.
    pub name: Option<String>,
    pub port: Option<i64>,
    pub commands: CustomCommands,
    /// Subdirectory of the workspace the app lives in.
    pub app_subdir: Option<String>,
    /// Tools the app needs at run time.
    pub runtime_dependencies: Vec<String>,
    /// The database service the app uses.
    pub database: Option<DatabaseEngine>,
}

impl Default for BaseConfig {
    fn default() -> (r: Self)
        ensures
            r.name is None,
            r.port == Some(8080i64),
            no_commands(r.commands),
            r.app_subdir is None,
            r.runtime_dependencies@ == Seq::<String>::empty(),
            r.database is None,
    {
        BaseConfig {
            name: None,
            port: Some(8080),
            commands: CustomCommands::default(),
            app_subdir: None,
            runtime_dependencies: Vec::new(),
            database: None,
        }
    }
}

impl BaseConfig {
    /// The declared defaults with the environment overlay applied.
    pub fn from_env(env: &Vec<(String, String)>) -> (r: Result<Self, String>)
        ensures
            r is Ok <==> port_override_valid(pairs_view(env@)),
            r matches Ok(c) ==> base_from_env(pairs_view(env@), c),
            r matches Err(e) ==> e@ == port_error_text(pairs_view(env@)),
    {
        let port = match env_int(env, "port") {
            Ok(Some(n)) => Some(n),
            Ok(None) => Some(8080),
            Err(e) => return Err(e),
        };
        Ok(BaseConfig {
            name: env_str(env, "name"),
            port,
            commands: CustomCommands::default(),
            app_subdir: env_str(env, "app_subdir"),
            runtime_dependencies: Vec::new(),
            database: None,
        })
    }

    /// Record the database service the app uses.
    pub fn set_database_service(&mut self, engine: DatabaseEngine)
        ensures
            final(self).database == Some(engine),
            final(self).name == old(self).name,
            final(self).port == old(self).port,
            final(self).commands == old(self).commands,
            final(self).app_subdir == old(self).app_subdir,
            final(self).runtime_dependencies == old(self).runtime_dependencies,
    {
        self.database = Some(engine);
    }
}

/// Every provider config embeds the shared settings.
pub trait HasBase {
    fn base(&self) -> &BaseConfig;

    fn base_mut(&mut self) -> &mut BaseConfig;
}

/// A boolean override: absent when neither `ANYBUILD_<FIELD>` nor
/// `SHIPIT_<FIELD>` is set (the first wins); otherwise true or false for
/// the accepted words (trimmed, ignoring ASCII case), and for anything else
/// an error that starts `Invalid value for <name>: <raw, quoted>; expected
/// a boolean`.
pub proof fn law_bool_override_words(env: Seq<(Seq<char>, Seq<char>)>, field: Seq<char>)
    ensures
        map_get(env, anybuild_name(field)) is None && map_get(env, shipit_name(field)) is None ==> bool_override(
            env,
            field,
        ) == Ok::<Option<bool>, Seq<char>>(None),
        env_value_spec(env, field) matches Some(p) ==> {
            let w = lower_seq(trim(p.1));
            &&& p.0 == (if map_get(env, anybuild_name(field)) is Some {
                anybuild_name(field)
            } else {
                shipit_name(field)
            })
            &&& (w == "true"@ || w == "t"@ || w == "yes"@ || w == "y"@ || w == "on"@ || w == "1"@) ==> bool_override(
                env,
                field,
            ) == Ok::<Option<bool>, Seq<char>>(Some(true))
            &&& (w == "false"@ || w == "f"@ || w == "no"@ || w == "n"@ || w == "off"@ || w == "0"@) ==> bool_override(
                env,
                field,
            ) == Ok::<Option<bool>, Seq<char>>(Some(false))
            &&& bool_word(w) is None ==> (bool_override(env, field) matches Err(m) && crate::text::has_prefix(
                m,
                "Invalid value for "@ + p.0 + ": "@ + crate::local_build::debug_text(p.1) + "; expected a boolean"@,
            ))
        },
{
    reveal_strlit("true");
    reveal_strlit("t");
    reveal_strlit("yes");
    reveal_strlit("y");
    reveal_strlit("on");
    reveal_strlit("1");
    reveal_strlit("false");
    reveal_strlit("f");
    reveal_strlit("no");
    reveal_strlit("n");
    reveal_strlit("off");
    reveal_strlit("0");
    if let Some(p) = env_value_spec(env, field) {
        let w = lower_seq(trim(p.1));
        if w == "false"@ || w == "f"@ || w == "no"@ || w == "n"@ || w == "off"@ || w == "0"@ {
            assert(w.len() > 0);
            assert(w[0] == 'f' || w[0] == 'n' || w[0] == 'o' || w[0] == '0');
            assert(w != "true"@ && w != "t"@ && w != "yes"@ && w != "y"@ && w != "1"@);
            assert(w != "on"@) by {
                if w == "on"@ {
                    assert(w[0] == 'o' && w.len() == 2 && w[1] == 'n');
                }
            }
            assert(bool_word(w) == Some(false));
        }
        if bool_word(w) is None {
            reveal_strlit("; expected a boolean");
            reveal_strlit("; expected ");
            reveal_strlit("a boolean (true/false, yes/no, on/off, or 1/0)");
            reveal_strlit("a boolean");
            reveal_strlit(" (true/false, yes/no, on/off, or 1/0)");
            let pre = "Invalid value for "@ + p.0 + ": "@ + crate::local_build::debug_text(p.1);
            let m = invalid_value_text(p.0, p.1, bool_expectation());
            assert("; expected "@ + bool_expectation() =~= "; expected a boolean"@ + " (true/false, yes/no, on/off, or 1/0)"@);
            assert(m =~= (pre + "; expected a boolean"@) + " (true/false, yes/no, on/off, or 1/0)"@);
            assert(m.subrange(0, (pre + "; expected a boolean"@).len() as int) =~= pre + "; expected a boolean"@);
        }
    }
}

} // verus!
