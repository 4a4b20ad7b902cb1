//! Console rendering: section headers, build plans, package tables and
//! code panels.
//!
//! Every renderer takes a `colors` switch. Colored output is the plain
//! output with ANSI escape sequences added and nothing else: stripping the
//! escapes gives back the plain text, so both have the same layout.
use vstd::prelude::*;
use crate::event::{text_views, BuildPlanPackage, BuildPlanStep, DeployScript, Event, PackagePhase};
use crate::text::{lower_seq, pad_left, pad_right, push_char, push_padded_left, push_padded_right, push_str, repeat, repeat_char};

verus! {

pub const BRIGHT_BLACK: &'static str = "\x1b[90m";
pub const BRIGHT_MAGENTA: &'static str = "\x1b[95m";
pub const BRIGHT_CYAN: &'static str = "\x1b[96m";
pub const HIGHLIGHT: &'static str = "\x1b[38;2;125;86;244m";
pub const DARK_GRAY: &'static str = "\x1b[38;5;238m";
pub const MEDIUM_GRAY: &'static str = "\x1b[38;5;245m";
pub const BOLD: &'static str = "\x1b[1m";
pub const RESET: &'static str = "\x1b[0m";

// ---------------------------------------------------------------------------
// Stripping escape sequences

/// The text of `s` with escape sequences (`ESC` up to and including the
/// next `m`) removed; `esc` says whether an escape sequence is open.
pub open spec fn strip(s: Seq<char>, esc: bool) -> Seq<char>
    decreases s.len(),
{
    if s.len() == 0 {
        seq![]
    } else if esc {
        strip(s.drop_first(), s[0] != 'm')
    } else if s[0] == '\x1b' {
        strip(s.drop_first(), true)
    } else {
        seq![s[0]] + strip(s.drop_first(), false)
    }
}

/// Whether an escape sequence is still open after `s`.
pub open spec fn esc_after(s: Seq<char>, esc: bool) -> bool
    decreases s.len(),
{
    if s.len() == 0 {
        esc
    } else if esc {
        esc_after(s.drop_first(), s[0] != 'm')
    } else if s[0] == '\x1b' {
        esc_after(s.drop_first(), true)
    } else {
        esc_after(s.drop_first(), false)
    }
}

/// `colored` shows `plain` once its escape sequences are removed, and
/// leaves no escape sequence open.
pub open spec fn strips_to(colored: Seq<char>, plain: Seq<char>) -> bool {
    strip(colored, false) == plain && !esc_after(colored, false)
}

/// Text without the escape character.
pub open spec fn plain_text(t: Seq<char>) -> bool {
    forall|i: int| 0 <= i < t.len() ==> t[i] != '\x1b'
}

/// An SGR escape sequence: `ESC`, characters other than `m`, then `m`.
pub open spec fn ansi_shape(c: Seq<char>) -> bool {
    &&& c.len() >= 2
    &&& c[0] == '\x1b'
    &&& c.last() == 'm'
    &&& forall|i: int| 1 <= i < c.len() - 1 ==> c[i] != 'm'
}

proof fn lemma_strip_concat(a: Seq<char>, b: Seq<char>, e: bool)
    ensures
        strip(a + b, e) == strip(a, e) + strip(b, esc_after(a, e)),
        esc_after(a + b, e) == esc_after(b, esc_after(a, e)),
    decreases a.len(),
{
    if a.len() == 0 {
        assert(a + b =~= b);
        assert(strip(a, e) + strip(b, e) =~= strip(b, e));
    } else {
        assert((a + b).drop_first() =~= a.drop_first() + b);
        assert((a + b)[0] == a[0]);
        let e2 = if e {
            a[0] != 'm'
        } else {
            a[0] == '\x1b'
        };
        lemma_strip_concat(a.drop_first(), b, e2);
        if !e && a[0] != '\x1b' {
            assert(seq![a[0]] + (strip(a.drop_first(), false) + strip(b, esc_after(a.drop_first(), false)))
                =~= (seq![a[0]] + strip(a.drop_first(), false)) + strip(b, esc_after(a.drop_first(), false)));
        }
    }
}

pub proof fn lemma_concat_strips(a1: Seq<char>, p1: Seq<char>, a2: Seq<char>, p2: Seq<char>)
    requires
        strips_to(a1, p1),
        strips_to(a2, p2),
    ensures
        strips_to(a1 + a2, p1 + p2),
{
    lemma_strip_concat(a1, a2, false);
}

pub proof fn lemma_plain_strips(t: Seq<char>)
    requires
        plain_text(t),
    ensures
        strips_to(t, t),
    decreases t.len(),
{
    if t.len() > 0 {
        assert(plain_text(t.drop_first())) by {
            assert forall|i: int| 0 <= i < t.drop_first().len() implies t.drop_first()[i] != '\x1b' by {
                assert(t.drop_first()[i] == t[i + 1]);
            }
        }
        lemma_plain_strips(t.drop_first());
        assert(seq![t[0]] + t.drop_first() =~= t);
    } else {
        assert(strip(t, false) =~= t);
    }
}

proof fn lemma_code_tail(s: Seq<char>)
    requires
        s.len() >= 1,
        s.last() == 'm',
        forall|i: int| 0 <= i < s.len() - 1 ==> s[i] != 'm',
    ensures
        strip(s, true) == Seq::<char>::empty(),
        !esc_after(s, true),
    decreases s.len(),
{
    if s.len() == 1 {
        assert(s[0] == 'm');
        let r = s.drop_first();
        assert(r.len() == 0);
        assert(strip(r, false) =~= Seq::<char>::empty());
        assert(!esc_after(r, false));
        assert(strip(s, true) == strip(r, false));
        assert(esc_after(s, true) == esc_after(r, false));
    } else {
        assert(s[0] != 'm');
        let r = s.drop_first();
        assert(r.last() == s.last());
        assert forall|i: int| 0 <= i < r.len() - 1 implies r[i] != 'm' by {
            assert(r[i] == s[i + 1]);
        }
        lemma_code_tail(r);
        assert(strip(s, true) == strip(r, true));
        assert(esc_after(s, true) == esc_after(r, true));
    }
}

pub proof fn lemma_code_strips(c: Seq<char>)
    requires
        ansi_shape(c),
    ensures
        strips_to(c, Seq::<char>::empty()),
{
    let r = c.drop_first();
    assert(r.last() == c.last());
    assert forall|i: int| 0 <= i < r.len() - 1 implies r[i] != 'm' by {
        assert(r[i] == c[i + 1]);
    }
    lemma_code_tail(r);
}

/// The escape sequences used here are well formed.
pub proof fn lemma_codes_shaped()
    ensures
        ansi_shape(BRIGHT_BLACK@),
        ansi_shape(BRIGHT_MAGENTA@),
        ansi_shape(BRIGHT_CYAN@),
        ansi_shape(HIGHLIGHT@),
        ansi_shape(DARK_GRAY@),
        ansi_shape(MEDIUM_GRAY@),
        ansi_shape(BOLD@),
        ansi_shape(RESET@),
{
    reveal_strlit("\x1b[90m");
    reveal_strlit("\x1b[95m");
    reveal_strlit("\x1b[96m");
    reveal_strlit("\x1b[38;2;125;86;244m");
    reveal_strlit("\x1b[38;5;238m");
    reveal_strlit("\x1b[38;5;245m");
    reveal_strlit("\x1b[1m");
    reveal_strlit("\x1b[0m");
}

// ---------------------------------------------------------------------------
// Styling

/// `text` wrapped in `ansi` and a reset when colors are on.
pub open spec fn style_spec(text: Seq<char>, ansi: Seq<char>, colors: bool) -> Seq<char> {
    if colors {
        ansi + text + RESET@
    } else {
        text
    }
}

pub proof fn lemma_style_strips(t: Seq<char>, ansi: Seq<char>)
    requires
        plain_text(t),
        ansi_shape(ansi),
    ensures
        strips_to(style_spec(t, ansi, true), style_spec(t, ansi, false)),
{
    lemma_codes_shaped();
    lemma_code_strips(ansi);
    lemma_code_strips(RESET@);
    lemma_plain_strips(t);
    lemma_concat_strips(ansi, seq![], t, t);
    lemma_concat_strips(ansi + t, seq![] + t, RESET@, seq![]);
    assert(seq![] + t + seq![] =~= t);
}

/// Append `text`, styled when colors are on.
fn push_styled(out: &mut String, text: &str, ansi: &str, colors: bool)
    ensures
        final(out)@ == old(out)@ + style_spec(text@, ansi@, colors),
{
    if colors {
        push_str(out, ansi);
        push_str(out, text);
        push_str(out, RESET);
        assert(old(out)@ + ansi@ + text@ + RESET@ =~= old(out)@ + (ansi@ + text@ + RESET@));
    } else {
        push_str(out, text);
    }
}

/// `text` styled when colors are on.
pub fn style(text: &str, ansi: &str, colors: bool) -> (r: String)
    ensures
        r@ == style_spec(text@, ansi@, colors),
{
    let mut out = String::new();
    push_styled(&mut out, text, ansi, colors);
    assert(Seq::<char>::empty() + style_spec(text@, ansi@, colors) =~= style_spec(text@, ansi@, colors));
    out
}

// ---------------------------------------------------------------------------
// Headers and status lines

/// A bold title over a rule as wide as the title (at least ten), indented
/// by two spaces; a blank line first when something precedes it.
pub open spec fn section_header_spec(after_output: bool, title: Seq<char>, colors: bool) -> Seq<char> {
    let width = if title.len() > 10 { title.len() } else { 10 };
    (if after_output { seq!['\n'] } else { seq![] }) + "  "@ + style_spec(title, BOLD@, colors)
        + seq!['\n'] + "  "@ + style_spec(repeat_char('─', width), DARK_GRAY@, colors) + seq!['\n']
}

fn section_header(output: &mut String, title: &str, colors: bool)
    ensures
        final(output)@ == old(output)@ + section_header_spec(old(output)@.len() > 0, title@, colors),
{
    let ghost start = output@;
    if output.unicode_len() > 0 {
        push_char(output, '\n');
    }
    push_str(output, "  ");
    push_styled(output, title, BOLD, colors);
    push_char(output, '\n');
    push_str(output, "  ");
    let n = title.unicode_len();
    let width = if n > 10 { n } else { 10 };
    let rule = repeat('─', width);
    push_styled(output, rule.as_str(), DARK_GRAY, colors);
    push_char(output, '\n');
    assert(output@ =~= start + section_header_spec(start.len() > 0, title@, colors));
}

/// A section header on its own.
pub fn render_section_header(title: &str, colors: bool) -> (r: String)
    ensures
        r@ == section_header_spec(false, title@, colors),
{
    let mut output = String::new();
    section_header(&mut output, title, colors);
    assert(Seq::<char>::empty() + section_header_spec(false, title@, colors) =~= section_header_spec(
        false,
        title@,
        colors,
    ));
    output
}

pub open spec fn provider_status_spec(
    action: Seq<char>,
    provider: Seq<char>,
    suffix: Seq<char>,
    colors: bool,
) -> Seq<char> {
    "  "@ + action + seq![' '] + style_spec(provider, BOLD@, colors) + seq![' '] + suffix + seq!['\n']
}

/// `  <action> <provider> <suffix>`, with only the provider in bold.
pub fn render_provider_status(action: &str, provider: &str, suffix: &str, colors: bool) -> (r: String)
    ensures
        r@ == provider_status_spec(action@, provider@, suffix@, colors),
{
    let mut out = "  ".to_owned();
    push_str(&mut out, action);
    push_char(&mut out, ' ');
    push_styled(&mut out, provider, BOLD, colors);
    push_char(&mut out, ' ');
    push_str(&mut out, suffix);
    push_char(&mut out, '\n');
    out
}

pub open spec fn build_progress_spec(description: Seq<char>, colors: bool) -> Seq<char> {
    "\n  "@ + style_spec(description, MEDIUM_GRAY@, colors) + seq!['\n']
}

/// A build step's description, subdued, after a blank line.
pub fn render_build_progress(description: &str, colors: bool) -> (r: String)
    ensures
        r@ == build_progress_spec(description@, colors),
{
    let mut out = "\n  ".to_owned();
    push_styled(&mut out, description, MEDIUM_GRAY, colors);
    push_char(&mut out, '\n');
    out
}

pub proof fn lemma_plain_concat(a: Seq<char>, b: Seq<char>)
    requires
        plain_text(a),
        plain_text(b),
    ensures
        plain_text(a + b),
{
    assert forall|i: int| 0 <= i < (a + b).len() implies (a + b)[i] != '\x1b' by {
        if i < a.len() {
            assert((a + b)[i] == a[i]);
        } else {
            assert((a + b)[i] == b[i - a.len()]);
        }
    }
}

/// Colored headers strip back to the plain ones.
pub proof fn law_colored_section_header_strips_to_plain(after_output: bool, title: Seq<char>)
    requires
        plain_text(title),
    ensures
        strips_to(section_header_spec(after_output, title, true), section_header_spec(after_output, title, false)),
{
    lemma_codes_shaped();
    reveal_strlit("  ");
    let width = if title.len() > 10 { title.len() } else { 10 };
    let lead: Seq<char> = if after_output { seq!['\n'] } else { seq![] };
    let rule = repeat_char('─', width);
    assert(plain_text(lead));
    assert(plain_text("  "@));
    assert(plain_text(seq!['\n']));
    assert(plain_text(rule));
    lemma_plain_strips(lead);
    lemma_plain_strips("  "@);
    lemma_plain_strips(seq!['\n']);
    lemma_style_strips(title, BOLD@);
    lemma_style_strips(rule, DARK_GRAY@);
    let c1 = lead + "  "@;
    lemma_concat_strips(lead, lead, "  "@, "  "@);
    lemma_concat_strips(c1, c1, style_spec(title, BOLD@, true), title);
    let c2 = c1 + style_spec(title, BOLD@, true);
    let p2 = c1 + title;
    lemma_concat_strips(c2, p2, seq!['\n'], seq!['\n']);
    lemma_concat_strips(c2 + seq!['\n'], p2 + seq!['\n'], "  "@, "  "@);
    lemma_concat_strips(
        c2 + seq!['\n'] + "  "@,
        p2 + seq!['\n'] + "  "@,
        style_spec(rule, DARK_GRAY@, true),
        rule,
    );
    lemma_concat_strips(
        c2 + seq!['\n'] + "  "@ + style_spec(rule, DARK_GRAY@, true),
        p2 + seq!['\n'] + "  "@ + rule,
        seq!['\n'],
        seq!['\n'],
    );
}

/// The provider status line strips back to the plain one.
pub proof fn law_colored_provider_status_strips_to_plain(
    action: Seq<char>,
    provider: Seq<char>,
    suffix: Seq<char>,
)
    requires
        plain_text(action),
        plain_text(provider),
        plain_text(suffix),
    ensures
        strips_to(provider_status_spec(action, provider, suffix, true), provider_status_spec(action, provider, suffix, false)),
{
    lemma_codes_shaped();
    reveal_strlit("  ");
    let head = "  "@ + action + seq![' '];
    assert(plain_text("  "@));
    lemma_plain_concat("  "@, action);
    assert(plain_text(seq![' ']));
    lemma_plain_concat("  "@ + action, seq![' ']);
    let tail = seq![' '] + suffix + seq!['\n'];
    lemma_plain_concat(seq![' '], suffix);
    assert(plain_text(seq!['\n']));
    lemma_plain_concat(seq![' '] + suffix, seq!['\n']);
    lemma_plain_strips(head);
    lemma_plain_strips(tail);
    lemma_style_strips(provider, BOLD@);
    lemma_concat_strips(head, head, style_spec(provider, BOLD@, true), provider);
    lemma_concat_strips(head + style_spec(provider, BOLD@, true), head + provider, tail, tail);
    assert(provider_status_spec(action, provider, suffix, true) =~= head + style_spec(provider, BOLD@, true) + tail);
    assert(provider_status_spec(action, provider, suffix, false) =~= head + provider + tail);
}


/// `a1 + a2 + ...` strips to `p1 + p2 + ...` when each part does.
pub proof fn lemma_concat3_strips(
    a1: Seq<char>,
    p1: Seq<char>,
    a2: Seq<char>,
    p2: Seq<char>,
    a3: Seq<char>,
    p3: Seq<char>,
)
    requires
        strips_to(a1, p1),
        strips_to(a2, p2),
        strips_to(a3, p3),
    ensures
        strips_to(a1 + a2 + a3, p1 + p2 + p3),
{
    lemma_concat_strips(a1, p1, a2, p2);
    lemma_concat_strips(a1 + a2, p1 + p2, a3, p3);
}

pub proof fn lemma_styled_strips(t: Seq<char>, ansi: Seq<char>)
    requires
        plain_text(t),
        ansi_shape(ansi),
    ensures
        strips_to(style_spec(t, ansi, true), t),
{
    lemma_style_strips(t, ansi);
}

pub proof fn lemma_plain_piece(t: Seq<char>)
    requires
        plain_text(t),
    ensures
        strips_to(t, t),
{
    lemma_plain_strips(t);
}

// ---------------------------------------------------------------------------
// Wasmer package mappings

/// The widest source of the mappings, in characters.
pub open spec fn widest_source(ms: Seq<crate::event::WasmerPackageMapping>) -> nat
    decreases ms.len(),
{
    if ms.len() == 0 {
        0
    } else {
        let w = widest_source(ms.drop_last());
        if ms.last().source@.len() > w {
            ms.last().source@.len()
        } else {
            w
        }
    }
}

/// `  │  `, with a dark bar.
pub open spec fn separator_spec(colors: bool) -> Seq<char> {
    "  "@ + style_spec("│"@, DARK_GRAY@, colors) + "  "@
}

pub open spec fn mapping_row_spec(m: crate::event::WasmerPackageMapping, width: nat, colors: bool) -> Seq<char> {
    "  "@ + style_spec(pad_right(m.source@, width), BRIGHT_MAGENTA@, colors) + separator_spec(colors)
        + style_spec(m.target@, BRIGHT_CYAN@, colors) + seq!['\n']
}

pub open spec fn mapping_rows_spec(ms: Seq<crate::event::WasmerPackageMapping>, width: nat, colors: bool) -> Seq<char>
    decreases ms.len(),
{
    if ms.len() == 0 {
        seq![]
    } else {
        mapping_rows_spec(ms.drop_last(), width, colors) + mapping_row_spec(ms.last(), width, colors)
    }
}

pub open spec fn wasmer_mappings_spec(ms: Seq<crate::event::WasmerPackageMapping>, colors: bool) -> Seq<char> {
    let width = if ms.len() == 0 { 1 } else { widest_source(ms) };
    "  Mapping dependencies to Wasmer packages:\n\n"@ + mapping_rows_spec(ms, width, colors)
}

/// Append `  │  ` with a dark bar.
fn push_separator(out: &mut String, colors: bool)
    ensures
        final(out)@ == old(out)@ + separator_spec(colors),
{
    push_str(out, "  ");
    push_styled(out, "│", DARK_GRAY, colors);
    push_str(out, "  ");
    assert(final(out)@ =~= old(out)@ + separator_spec(colors));
}

/// Append `text` padded on the right to `width` and styled.
fn push_styled_padded(out: &mut String, text: &str, width: usize, ansi: &str, colors: bool)
    ensures
        final(out)@ == old(out)@ + style_spec(pad_right(text@, width as nat), ansi@, colors),
{
    let mut padded = String::new();
    push_padded_right(&mut padded, text, width);
    assert(Seq::<char>::empty() + pad_right(text@, width as nat) =~= pad_right(text@, width as nat));
    push_styled(out, padded.as_str(), ansi, colors);
}

/// The dependency to Wasmer package table, sources padded to one width.
pub fn render_wasmer_package_mappings(mappings: &Vec<crate::event::WasmerPackageMapping>, colors: bool) -> (r: String)
    ensures
        r@ == wasmer_mappings_spec(mappings@, colors),
{
    let mut width: usize = 0;
    let mut i: usize = 0;
    while i < mappings.len()
        invariant
            0 <= i <= mappings@.len(),
            width == widest_source(mappings@.subrange(0, i as int)),
        decreases mappings@.len() - i,
    {
        assert(mappings@.subrange(0, i + 1).drop_last() =~= mappings@.subrange(0, i as int));
        let n = mappings[i].source.unicode_len();
        if n > width {
            width = n;
        }
        i = i + 1;
    }
    assert(mappings@.subrange(0, mappings@.len() as int) =~= mappings@);
    if mappings.len() == 0 {
        width = 1;
    }
    let mut out = "  Mapping dependencies to Wasmer packages:\n\n".to_owned();
    let ghost head = out@;
    let mut i: usize = 0;
    while i < mappings.len()
        invariant
            0 <= i <= mappings@.len(),
            out@ == head + mapping_rows_spec(mappings@.subrange(0, i as int), width as nat, colors),
        decreases mappings@.len() - i,
    {
        let m = &mappings[i];
        let ghost before = out@;
        push_str(&mut out, "  ");
        push_styled_padded(&mut out, m.source.as_str(), width, BRIGHT_MAGENTA, colors);
        push_separator(&mut out, colors);
        push_styled(&mut out, m.target.as_str(), BRIGHT_CYAN, colors);
        push_char(&mut out, '\n');
        assert(mappings@.subrange(0, i + 1).drop_last() =~= mappings@.subrange(0, i as int));
        assert(out@ =~= before + mapping_row_spec(mappings@[i as int], width as nat, colors));
        i = i + 1;
    }
    out
}

// ---------------------------------------------------------------------------
// Success box

/// The display width of a string, as `unicode-width` measures it.
pub uninterp spec fn display_width(s: Seq<char>) -> nat;

/// `UnicodeWidthStr::width`: the number of terminal columns the string
/// takes, by the Unicode width tables.
#[verifier::external_body]
fn text_width(s: &str) -> (r: usize)
    ensures
        r == display_width(s@),
{
    unicode_width::UnicodeWidthStr::width(s)
}

pub open spec fn success_spec(message: Seq<char>, width: nat, colors: bool) -> Seq<char> {
    let horizontal = style_spec(repeat_char('─', width + 2), HIGHLIGHT@, colors);
    let vertical = style_spec("│"@, HIGHLIGHT@, colors);
    "\n  "@ + style_spec("╭"@, HIGHLIGHT@, colors) + horizontal + style_spec("╮"@, HIGHLIGHT@, colors)
        + "\n  "@ + vertical + " "@ + message + " "@ + vertical + "\n  "@ + style_spec("╰"@, HIGHLIGHT@, colors)
        + horizontal + style_spec("╯"@, HIGHLIGHT@, colors) + "\n"@
}

/// A rounded box around the message, as wide as the message is on screen.
pub fn render_success(message: &str, colors: bool) -> (r: String)
    requires
        display_width(message@) + 2 <= usize::MAX,
    ensures
        r@ == success_spec(message@, display_width(message@), colors),
{
    let inner_width = text_width(message) + 2;
    let rule = repeat('─', inner_width);
    let mut out = "\n  ".to_owned();
    push_styled(&mut out, "╭", HIGHLIGHT, colors);
    push_styled(&mut out, rule.as_str(), HIGHLIGHT, colors);
    push_styled(&mut out, "╮", HIGHLIGHT, colors);
    push_str(&mut out, "\n  ");
    push_styled(&mut out, "│", HIGHLIGHT, colors);
    push_str(&mut out, " ");
    push_str(&mut out, message);
    push_str(&mut out, " ");
    push_styled(&mut out, "│", HIGHLIGHT, colors);
    push_str(&mut out, "\n  ");
    push_styled(&mut out, "╰", HIGHLIGHT, colors);
    push_styled(&mut out, rule.as_str(), HIGHLIGHT, colors);
    push_styled(&mut out, "╯", HIGHLIGHT, colors);
    push_str(&mut out, "\n");
    assert(out@ =~= success_spec(message@, display_width(message@), colors));
    out
}

// ---------------------------------------------------------------------------
// Build plans

/// The widest of some texts, in characters.
pub open spec fn widest_of(ts: Seq<Seq<char>>) -> nat
    decreases ts.len(),
{
    if ts.len() == 0 {
        0
    } else {
        let w = widest_of(ts.drop_last());
        if ts.last().len() > w {
            ts.last().len()
        } else {
            w
        }
    }
}

/// A package's name, with its architecture in parentheses when it has one.
pub open spec fn package_display_name_spec(p: BuildPlanPackage) -> Seq<char> {
    match p.architecture {
        Some(a) => p.name@ + " ("@ + a@ + ")"@,
        None => p.name@,
    }
}

pub open spec fn version_text(p: BuildPlanPackage) -> Seq<char> {
    match p.version {
        Some(v) => v@,
        None => "-"@,
    }
}

pub open spec fn package_names(ps: Seq<BuildPlanPackage>) -> Seq<Seq<char>> {
    ps.map_values(|p: BuildPlanPackage| package_display_name_spec(p))
}

pub open spec fn package_versions(ps: Seq<BuildPlanPackage>) -> Seq<Seq<char>> {
    ps.map_values(|p: BuildPlanPackage| version_text(p))
}

pub open spec fn phase_spec(phase: PackagePhase, colors: bool) -> Seq<char> {
    match phase {
        PackagePhase::Build => separator_spec(colors) + style_spec("only build"@, MEDIUM_GRAY@, colors),
        PackagePhase::Deploy => separator_spec(colors) + style_spec("only deploy"@, MEDIUM_GRAY@, colors),
        PackagePhase::Both => seq![],
    }
}

pub open spec fn package_row_spec(p: BuildPlanPackage, nw: nat, vw: nat, colors: bool) -> Seq<char> {
    "  "@ + style_spec(pad_right(package_display_name_spec(p), nw), BRIGHT_MAGENTA@, colors)
        + separator_spec(colors) + style_spec(pad_right(version_text(p), vw), BRIGHT_CYAN@, colors)
        + phase_spec(p.phase, colors) + "\n"@
}

pub open spec fn package_rows_spec(ps: Seq<BuildPlanPackage>, nw: nat, vw: nat, colors: bool) -> Seq<char>
    decreases ps.len(),
{
    if ps.len() == 0 {
        seq![]
    } else {
        package_rows_spec(ps.drop_last(), nw, vw, colors) + package_row_spec(ps.last(), nw, vw, colors)
    }
}

/// The package table: names and versions padded to their widest.
pub open spec fn packages_section_spec(ps: Seq<BuildPlanPackage>, colors: bool) -> Seq<char> {
    if ps.len() == 0 {
        seq![]
    } else {
        section_header_spec(false, "Packages"@, colors) + package_rows_spec(
            ps,
            widest_of(package_names(ps)),
            widest_of(package_versions(ps)),
            colors,
        )
    }
}

/// Concise plans show only the install and build command groups.
pub open spec fn keep_step(step: BuildPlanStep, detailed: bool) -> bool {
    detailed || (step matches BuildPlanStep::Run { group: Some(g), .. } && (g@ == "install"@ || g@
        == "build"@))
}

pub open spec fn kept_steps(steps: Seq<BuildPlanStep>, detailed: bool) -> Seq<BuildPlanStep>
    decreases steps.len(),
{
    if steps.len() == 0 {
        seq![]
    } else {
        let rest = kept_steps(steps.drop_last(), detailed);
        if keep_step(steps.last(), detailed) {
            rest.push(steps.last())
        } else {
            rest
        }
    }
}

/// Consecutive commands of one group, or consecutive ungrouped commands,
/// form one block under one header; every other step is a block of its own.
pub open spec fn same_block(a: BuildPlanStep, b: BuildPlanStep) -> bool {
    match (a, b) {
        (BuildPlanStep::Run { group: Some(g1), .. }, BuildPlanStep::Run { group: Some(g2), .. }) => g1@
            == g2@,
        (BuildPlanStep::Run { group: None, .. }, BuildPlanStep::Run { group: None, .. }) => true,
        _ => false,
    }
}

pub open spec fn step_header_spec(name: Seq<char>, colors: bool) -> Seq<char> {
    "  "@ + style_spec("▸ "@ + name, BRIGHT_MAGENTA@, colors) + "\n"@
}

pub open spec fn step_detail_spec(detail: Seq<char>, colors: bool) -> Seq<char> {
    "    "@ + style_spec(detail, BOLD@, colors) + "\n"@
}

pub open spec fn command_line_spec(command: Seq<char>, colors: bool) -> Seq<char> {
    "    "@ + style_spec("$"@, MEDIUM_GRAY@, colors) + " "@ + style_spec(command, BOLD@, colors) + "\n"@
}

pub open spec fn block_header_spec(step: BuildPlanStep, colors: bool) -> Seq<char> {
    match step {
        BuildPlanStep::Run { group: Some(g), .. } => step_header_spec(g@, colors),
        BuildPlanStep::Run { group: None, .. } => seq![],
        BuildPlanStep::Copy { .. } => step_header_spec("copy"@, colors),
        BuildPlanStep::Environment { .. } => step_header_spec("environment"@, colors),
        BuildPlanStep::Path { .. } => step_header_spec("path"@, colors),
        BuildPlanStep::Workdir { .. } => step_header_spec("workdir"@, colors),
        BuildPlanStep::WriteFile { .. } => step_header_spec("write file"@, colors),
    }
}

/// Texts joined with a separator.
pub open spec fn join_texts(ts: Seq<Seq<char>>, sep: Seq<char>) -> Seq<char>
    decreases ts.len(),
{
    if ts.len() == 0 {
        seq![]
    } else if ts.len() == 1 {
        ts[0]
    } else {
        join_texts(ts.drop_last(), sep) + sep + ts.last()
    }
}

pub open spec fn copy_detail(source: Seq<char>, target: Seq<char>, base: Seq<char>) -> Seq<char> {
    if base == "source"@ {
        source + " → "@ + target
    } else {
        source + " → "@ + target + " ("@ + base + ")"@
    }
}

pub open spec fn step_body_spec(step: BuildPlanStep, colors: bool) -> Seq<char> {
    match step {
        BuildPlanStep::Run { command, .. } => command_line_spec(command@, colors),
        BuildPlanStep::Copy { source, target, base } => step_detail_spec(copy_detail(source@, target@, base@), colors),
        BuildPlanStep::Environment { variables } => step_detail_spec(
            join_texts(crate::event::text_views(variables@), ", "@),
            colors,
        ),
        BuildPlanStep::Path { path } => step_detail_spec(path@, colors),
        BuildPlanStep::Workdir { path } => step_detail_spec(path@, colors),
        BuildPlanStep::WriteFile { path } => step_detail_spec(path@, colors),
    }
}

/// Step `i` of the shown steps: a header where a new block starts (after a
/// blank line unless it is the first), then its detail.
pub open spec fn step_piece_spec(f: Seq<BuildPlanStep>, i: int, colors: bool) -> Seq<char> {
    (if i == 0 || !same_block(f[i - 1], f[i]) {
        (if i > 0 { "\n"@ } else { seq![] }) + block_header_spec(f[i], colors)
    } else {
        seq![]
    }) + step_body_spec(f[i], colors)
}

pub open spec fn steps_body_spec(f: Seq<BuildPlanStep>, n: int, colors: bool) -> Seq<char>
    decreases n,
{
    if n <= 0 {
        seq![]
    } else {
        steps_body_spec(f, n - 1, colors) + step_piece_spec(f, n - 1, colors)
    }
}

pub open spec fn steps_section_spec(
    after_output: bool,
    title: Seq<char>,
    steps: Seq<BuildPlanStep>,
    detailed: bool,
    colors: bool,
) -> Seq<char> {
    let f = kept_steps(steps, detailed);
    if f.len() == 0 {
        seq![]
    } else {
        section_header_spec(after_output, title, colors) + steps_body_spec(f, f.len() as int, colors)
    }
}

pub open spec fn script_piece_spec(ds: Seq<DeployScript>, i: int, colors: bool) -> Seq<char> {
    (if i > 0 { "\n"@ } else { seq![] }) + step_header_spec(ds[i].name@, colors) + command_line_spec(
        ds[i].command@,
        colors,
    )
}

pub open spec fn scripts_body_spec(ds: Seq<DeployScript>, n: int, colors: bool) -> Seq<char>
    decreases n,
{
    if n <= 0 {
        seq![]
    } else {
        scripts_body_spec(ds, n - 1, colors) + script_piece_spec(ds, n - 1, colors)
    }
}

pub open spec fn deploy_section_spec(after_output: bool, ds: Seq<DeployScript>, colors: bool) -> Seq<char> {
    if ds.len() == 0 {
        seq![]
    } else {
        section_header_spec(after_output, "Deploy scripts"@, colors) + scripts_body_spec(
            ds,
            ds.len() as int,
            colors,
        )
    }
}

/// The whole build plan: packages, build steps, prepare steps (always in
/// detail), deploy scripts, and a closing blank line.
pub open spec fn build_plan_spec(
    ps: Seq<BuildPlanPackage>,
    steps: Seq<BuildPlanStep>,
    prepare: Seq<BuildPlanStep>,
    ds: Seq<DeployScript>,
    detailed: bool,
    colors: bool,
) -> Seq<char> {
    let shown_steps = kept_steps(steps, detailed).len() > 0;
    let shown_prepare = kept_steps(prepare, true).len() > 0;
    packages_section_spec(ps, colors) + steps_section_spec(ps.len() > 0, "Build Steps"@, steps, detailed, colors)
        + steps_section_spec(ps.len() > 0 || shown_steps, "Prepare"@, prepare, true, colors)
        + deploy_section_spec(ps.len() > 0 || shown_steps || shown_prepare, ds, colors) + "\n"@
}

/// The widest of some texts, in characters.
fn widest(ts: &Vec<String>) -> (r: usize)
    ensures
        r == widest_of(crate::event::text_views(ts@)),
{
    let mut w: usize = 0;
    let mut i: usize = 0;
    while i < ts.len()
        invariant
            0 <= i <= ts@.len(),
            w == widest_of(crate::event::text_views(ts@.subrange(0, i as int))),
        decreases ts@.len() - i,
    {
        assert(crate::event::text_views(ts@.subrange(0, i + 1)).drop_last() =~= crate::event::text_views(
            ts@.subrange(0, i as int),
        ));
        let n = ts[i].unicode_len();
        if n > w {
            w = n;
        }
        i = i + 1;
    }
    assert(ts@.subrange(0, ts@.len() as int) =~= ts@);
    w
}

/// A package's name, with its architecture when it has one.
pub fn package_display_name(package: &BuildPlanPackage) -> (r: String)
    ensures
        r@ == package_display_name_spec(*package),
{
    match &package.architecture {
        Some(a) => {
            let mut r = package.name.clone();
            push_str(&mut r, " (");
            push_str(&mut r, a.as_str());
            push_str(&mut r, ")");
            r
        },
        None => package.name.clone(),
    }
}

fn version_of(package: &BuildPlanPackage) -> (r: String)
    ensures
        r@ == version_text(*package),
{
    match &package.version {
        Some(v) => v.clone(),
        None => "-".to_owned(),
    }
}

fn command_line(output: &mut String, command: &str, colors: bool)
    ensures
        final(output)@ == old(output)@ + command_line_spec(command@, colors),
{
    push_str(output, "    ");
    push_styled(output, "$", MEDIUM_GRAY, colors);
    push_str(output, " ");
    push_styled(output, command, BOLD, colors);
    push_str(output, "\n");
    assert(final(output)@ =~= old(output)@ + command_line_spec(command@, colors));
}

fn step_header(output: &mut String, name: &str, colors: bool)
    ensures
        final(output)@ == old(output)@ + step_header_spec(name@, colors),
{
    let mut label = "▸ ".to_owned();
    push_str(&mut label, name);
    push_str(output, "  ");
    push_styled(output, label.as_str(), BRIGHT_MAGENTA, colors);
    push_str(output, "\n");
    assert(final(output)@ =~= old(output)@ + step_header_spec(name@, colors));
}

fn step_detail(output: &mut String, detail: &str, colors: bool)
    ensures
        final(output)@ == old(output)@ + step_detail_spec(detail@, colors),
{
    push_str(output, "    ");
    push_styled(output, detail, BOLD, colors);
    push_str(output, "\n");
    assert(final(output)@ =~= old(output)@ + step_detail_spec(detail@, colors));
}

fn keep_step_exec(step: &BuildPlanStep, detailed: bool) -> (r: bool)
    ensures
        r == keep_step(*step, detailed),
{
    if detailed {
        return true;
    }
    match step {
        BuildPlanStep::Run { group: Some(g), .. } => crate::text::eq_str(g.as_str(), "install")
            || crate::text::eq_str(g.as_str(), "build"),
        _ => false,
    }
}

fn same_block_exec(a: &BuildPlanStep, b: &BuildPlanStep) -> (r: bool)
    ensures
        r == same_block(*a, *b),
{
    match (a, b) {
        (BuildPlanStep::Run { group: Some(g1), .. }, BuildPlanStep::Run { group: Some(g2), .. }) =>
            crate::text::eq_str(g1.as_str(), g2.as_str()),
        (BuildPlanStep::Run { group: None, .. }, BuildPlanStep::Run { group: None, .. }) => true,
        _ => false,
    }
}

fn block_header(output: &mut String, step: &BuildPlanStep, colors: bool)
    ensures
        final(output)@ == old(output)@ + block_header_spec(*step, colors),
{
    match step {
        BuildPlanStep::Run { group: Some(g), .. } => step_header(output, g.as_str(), colors),
        BuildPlanStep::Run { group: None, .. } => {
            assert(old(output)@ + Seq::<char>::empty() =~= old(output)@);
        },
        BuildPlanStep::Copy { .. } => step_header(output, "copy", colors),
        BuildPlanStep::Environment { .. } => step_header(output, "environment", colors),
        BuildPlanStep::Path { .. } => step_header(output, "path", colors),
        BuildPlanStep::Workdir { .. } => step_header(output, "workdir", colors),
        BuildPlanStep::WriteFile { .. } => step_header(output, "write file", colors),
    }
}

/// Texts joined with a separator.
pub fn join_strings(ts: &Vec<String>, sep: &str) -> (r: String)
    ensures
        r@ == join_texts(crate::event::text_views(ts@), sep@),
{
    let mut r = String::new();
    let mut i: usize = 0;
    while i < ts.len()
        invariant
            0 <= i <= ts@.len(),
            r@ == join_texts(crate::event::text_views(ts@.subrange(0, i as int)), sep@),
        decreases ts@.len() - i,
    {
        let ghost before = crate::event::text_views(ts@.subrange(0, i as int));
        let ghost after = crate::event::text_views(ts@.subrange(0, i + 1));
        assert(after.drop_last() =~= before);
        if i > 0 {
            push_str(&mut r, sep);
        }
        push_str(&mut r, ts[i].as_str());
        assert(i == 0 ==> after =~= seq![ts@[0]@]);
        i = i + 1;
    }
    assert(ts@.subrange(0, ts@.len() as int) =~= ts@);
    r
}

fn step_body(output: &mut String, step: &BuildPlanStep, colors: bool)
    ensures
        final(output)@ == old(output)@ + step_body_spec(*step, colors),
{
    match step {
        BuildPlanStep::Run { command, .. } => command_line(output, command.as_str(), colors),
        BuildPlanStep::Copy { source, target, base } => {
            let mut detail = source.clone();
            push_str(&mut detail, " → ");
            push_str(&mut detail, target.as_str());
            if !crate::text::eq_str(base.as_str(), "source") {
                push_str(&mut detail, " (");
                push_str(&mut detail, base.as_str());
                push_str(&mut detail, ")");
            }
            step_detail(output, detail.as_str(), colors);
        },
        BuildPlanStep::Environment { variables } => {
            let joined = join_strings(variables, ", ");
            step_detail(output, joined.as_str(), colors);
        },
        BuildPlanStep::Path { path } => step_detail(output, path.as_str(), colors),
        BuildPlanStep::Workdir { path } => step_detail(output, path.as_str(), colors),
        BuildPlanStep::WriteFile { path } => step_detail(output, path.as_str(), colors),
    }
}

/// A titled section of build-plan steps; nothing when no step is shown.
#[verifier::spinoff_prover]
#[verifier::rlimit(60)]
pub fn render_steps_section(
    output: &mut String,
    title: &str,
    steps: &Vec<BuildPlanStep>,
    show_detailed_steps: bool,
    colors: bool,
)
    ensures
        final(output)@ == old(output)@ + steps_section_spec(
            old(output)@.len() > 0,
            title@,
            steps@,
            show_detailed_steps,
            colors,
        ),
{
    let mut kept: Vec<usize> = Vec::new();
    let mut i: usize = 0;
    while i < steps.len()
        invariant
            0 <= i <= steps@.len(),
            forall|j: int| 0 <= j < kept@.len() ==> kept@[j] < steps@.len(),
            kept@.map_values(|k: usize| steps@[k as int]) == kept_steps(
                steps@.subrange(0, i as int),
                show_detailed_steps,
            ),
        decreases steps@.len() - i,
    {
        assert(steps@.subrange(0, i + 1).drop_last() =~= steps@.subrange(0, i as int));
        if keep_step_exec(&steps[i], show_detailed_steps) {
            let ghost before = kept@;
            kept.push(i);
            assert(kept@.map_values(|k: usize| steps@[k as int]) =~= before.map_values(
                |k: usize| steps@[k as int],
            ).push(steps@[i as int]));
        }
        i = i + 1;
    }
    assert(steps@.subrange(0, steps@.len() as int) =~= steps@);
    let ghost f = kept_steps(steps@, show_detailed_steps);
    assert(f.len() == kept@.len());
    if kept.len() == 0 {
        assert(old(output)@ + Seq::<char>::empty() =~= old(output)@);
        return;
    }
    section_header(output, title, colors);
    let ghost start = output@;
    let mut j: usize = 0;
    while j < kept.len()
        invariant
            0 <= j <= kept@.len(),
            f.len() == kept@.len(),
            forall|t: int| 0 <= t < kept@.len() ==> kept@[t] < steps@.len(),
            forall|t: int| 0 <= t < kept@.len() ==> f[t] == steps@[kept@[t] as int],
            output@ == start + steps_body_spec(f, j as int, colors),
        decreases kept@.len() - j,
    {
        assert(f[j as int] == kept@.map_values(|k: usize| steps@[k as int])[j as int]);
        let step = &steps[kept[j]];
        let ghost before = output@;
        let new_block = if j == 0 {
            true
        } else {
            assert(f[j - 1] == kept@.map_values(|k: usize| steps@[k as int])[j - 1]);
            !same_block_exec(&steps[kept[j - 1]], step)
        };
        if new_block {
            if j > 0 {
                push_str(output, "\n");
            }
            block_header(output, step, colors);
        }
        step_body(output, step, colors);
        assert(output@ =~= before + step_piece_spec(f, j as int, colors));
        j = j + 1;
    }
}

/// The deploy-scripts section; nothing when there are no scripts.
fn deploy_section(output: &mut String, scripts: &Vec<DeployScript>, colors: bool)
    ensures
        final(output)@ == old(output)@ + deploy_section_spec(old(output)@.len() > 0, scripts@, colors),
{
    if scripts.len() == 0 {
        assert(old(output)@ + Seq::<char>::empty() =~= old(output)@);
        return;
    }
    section_header(output, "Deploy scripts", colors);
    let ghost start = output@;
    let mut i: usize = 0;
    while i < scripts.len()
        invariant
            0 <= i <= scripts@.len(),
            output@ == start + scripts_body_spec(scripts@, i as int, colors),
        decreases scripts@.len() - i,
    {
        let ghost before = output@;
        if i > 0 {
            push_str(output, "\n");
        }
        step_header(output, scripts[i].name.as_str(), colors);
        command_line(output, scripts[i].command.as_str(), colors);
        assert(output@ =~= before + script_piece_spec(scripts@, i as int, colors));
        i = i + 1;
    }
}

fn package_row(output: &mut String, p: &BuildPlanPackage, name_width: usize, version_width: usize, colors: bool)
    ensures
        final(output)@ == old(output)@ + package_row_spec(*p, name_width as nat, version_width as nat, colors),
{
    let name = package_display_name(p);
    let version = version_of(p);
    push_str(output, "  ");
    push_styled_padded(output, name.as_str(), name_width, BRIGHT_MAGENTA, colors);
    push_separator(output, colors);
    push_styled_padded(output, version.as_str(), version_width, BRIGHT_CYAN, colors);
    let ghost mid = output@;
    match p.phase {
        PackagePhase::Build => {
            push_separator(output, colors);
            push_styled(output, "only build", MEDIUM_GRAY, colors);
        },
        PackagePhase::Deploy => {
            push_separator(output, colors);
            push_styled(output, "only deploy", MEDIUM_GRAY, colors);
        },
        PackagePhase::Both => {},
    }
    assert(output@ =~= mid + phase_spec(p.phase, colors));
    push_str(output, "\n");
    assert(output@ =~= old(output)@ + package_row_spec(*p, name_width as nat, version_width as nat, colors));
}

fn packages_section(output: &mut String, packages: &Vec<BuildPlanPackage>, colors: bool)
    requires
        old(output)@.len() == 0,
    ensures
        final(output)@ == packages_section_spec(packages@, colors),
{
    if packages.len() == 0 {
        return;
    }
    section_header(output, "Packages", colors);
    let mut names: Vec<String> = Vec::new();
    let mut versions: Vec<String> = Vec::new();
    let mut i: usize = 0;
    while i < packages.len()
        invariant
            0 <= i <= packages@.len(),
            crate::event::text_views(names@) == package_names(packages@.subrange(0, i as int)),
            crate::event::text_views(versions@) == package_versions(packages@.subrange(0, i as int)),
        decreases packages@.len() - i,
    {
        let ghost sub = packages@.subrange(0, i + 1);
        let ghost pre = packages@.subrange(0, i as int);
        let ghost nb = names@;
        let ghost vb = versions@;
        names.push(package_display_name(&packages[i]));
        versions.push(version_of(&packages[i]));
        assert(package_names(sub) =~= package_names(pre).push(package_display_name_spec(packages@[i as int])));
        assert(package_versions(sub) =~= package_versions(pre).push(version_text(packages@[i as int])));
        assert(crate::event::text_views(names@) =~= crate::event::text_views(nb).push(names@[i as int]@));
        assert(crate::event::text_views(versions@) =~= crate::event::text_views(vb).push(versions@[i as int]@));
        i = i + 1;
    }
    assert(packages@.subrange(0, packages@.len() as int) =~= packages@);
    let name_width = widest(&names);
    let version_width = widest(&versions);
    let ghost start = output@;
    let mut i: usize = 0;
    while i < packages.len()
        invariant
            0 <= i <= packages@.len(),
            output@ == start + package_rows_spec(
                packages@.subrange(0, i as int),
                name_width as nat,
                version_width as nat,
                colors,
            ),
        decreases packages@.len() - i,
    {
        let ghost before = output@;
        package_row(output, &packages[i], name_width, version_width, colors);
        assert(packages@.subrange(0, i + 1).drop_last() =~= packages@.subrange(0, i as int));
        assert(output@ =~= before + package_row_spec(packages@[i as int], name_width as nat, version_width as nat, colors));
        i = i + 1;
    }
}

/// A summary of the build plan that will run.
pub fn render_build_plan(
    packages: &Vec<BuildPlanPackage>,
    steps: &Vec<BuildPlanStep>,
    prepare_steps: &Vec<BuildPlanStep>,
    deploy_scripts: &Vec<DeployScript>,
    show_detailed_steps: bool,
    colors: bool,
) -> (r: String)
    ensures
        r@ == build_plan_spec(packages@, steps@, prepare_steps@, deploy_scripts@, show_detailed_steps, colors),
{
    let mut output = String::new();
    packages_section(&mut output, packages, colors);
    let ghost a = output@;
    assert(a.len() > 0 <==> packages@.len() > 0) by {
        if packages@.len() > 0 {
            assert(a.len() >= section_header_spec(false, "Packages"@, colors).len());
        }
    }
    render_steps_section(&mut output, "Build Steps", steps, show_detailed_steps, colors);
    let ghost b = output@;
    assert(b.len() > 0 <==> (packages@.len() > 0 || kept_steps(steps@, show_detailed_steps).len() > 0));
    render_steps_section(&mut output, "Prepare", prepare_steps, true, colors);
    let ghost c = output@;
    assert(c.len() > 0 <==> (packages@.len() > 0 || kept_steps(steps@, show_detailed_steps).len() > 0
        || kept_steps(prepare_steps@, true).len() > 0));
    deploy_section(&mut output, deploy_scripts, colors);
    push_str(&mut output, "\n");
    output
}

// ---------------------------------------------------------------------------
// Syntax highlighting

/// A highlighting style chosen by `syntect`.
#[verifier::external_type_specification]
#[verifier::external_body]
pub struct ExStyle(syntect::highlighting::Style);

/// The texts of styled regions, in order.
pub open spec fn region_texts(rs: Seq<(syntect::highlighting::Style, String)>) -> Seq<char>
    decreases rs.len(),
{
    if rs.len() == 0 {
        seq![]
    } else {
        region_texts(rs.drop_last()) + rs.last().1@
    }
}

/// Each region's escape sequence followed by its text.
pub open spec fn interleave(codes: Seq<Seq<char>>, rs: Seq<(syntect::highlighting::Style, String)>) -> Seq<char>
    decreases rs.len(),
{
    if rs.len() == 0 || codes.len() == 0 {
        seq![]
    } else {
        interleave(codes.drop_last(), rs.drop_last()) + codes.last() + rs.last().1@
    }
}

/// Whether the extended syntax set of `two-face` knows a language by its
/// token (a file extension or a first-line name).
pub uninterp spec fn syntax_token_known(lang: Seq<char>) -> bool;

/// The names of the syntaxes of the extended set, from index `start` on,
/// in the set's order.
pub uninterp spec fn syntax_names_after(start: nat) -> Seq<Seq<char>>;

/// Whether `syntect` highlights every line, with the syntax found by the
/// language's token (`index` none) or the syntax at `index`.
pub uninterp spec fn highlight_succeeds(lines: Seq<Seq<char>>, lang: Seq<char>, index: Option<nat>) -> bool;

/// `SyntaxSet::find_syntax_by_token` on the extended syntax set of
/// `two-face`: whether it finds a syntax.
#[verifier::external_body]
fn token_syntax_known(lang: &str) -> (r: bool)
    ensures
        r == syntax_token_known(lang@),
{
    two_face::syntax::extra_newlines().find_syntax_by_token(lang).is_some()
}

/// `SyntaxSet::syntaxes` of the extended set of `two-face`: the names of
/// the syntaxes from index `start` on.
#[verifier::external_body]
fn syntax_names(start: usize) -> (r: Vec<String>)
    ensures
        text_views(r@) == syntax_names_after(start as nat),
{
    two_face::syntax::extra_newlines().syntaxes().iter().skip(start).map(|s| s.name.clone()).collect()
}

/// The first name equal to `lang` ignoring ASCII case.
pub open spec fn first_name_match(names: Seq<Seq<char>>, lang: Seq<char>) -> Option<nat> {
    if exists|i: int| 0 <= i < names.len() && lower_seq(#[trigger] names[i]) == lower_seq(lang) {
        let i = choose|i: int|
            0 <= i < names.len() && lower_seq(#[trigger] names[i]) == lower_seq(lang) && forall|j: int|
                0 <= j < i ==> lower_seq(#[trigger] names[j]) != lower_seq(lang);
        Some(i as nat)
    } else {
        None
    }
}

/// The syntax for a language: the one its token names, else the first
/// whose name equals it ignoring ASCII case (by its index).
pub open spec fn syntax_choice(lang: Seq<char>) -> Option<Option<nat>> {
    if syntax_token_known(lang) {
        Some(None)
    } else {
        match first_name_match(syntax_names_after(0), lang) {
            Some(i) => Some(Some(i)),
            None => None,
        }
    }
}

/// Whether these lines can be highlighted in this language: a syntax is
/// found for it, and every line parses.
pub open spec fn highlighting_available(lines: Seq<Seq<char>>, lang: Seq<char>) -> bool {
    match syntax_choice(lang) {
        Some(index) => highlight_succeeds(lines, lang, index),
        None => false,
    }
}

pub open spec fn index_view(index: Option<usize>) -> Option<nat> {
    match index {
        Some(i) => Some(i as nat),
        None => None,
    }
}

pub open spec fn choice_view(c: Option<Option<usize>>) -> Option<Option<nat>> {
    match c {
        Some(index) => Some(index_view(index)),
        None => None,
    }
}

/// Pick a syntax for `lang`: by token when `token_known`, else the first
/// of `names` equal to `lang` ignoring ASCII case.
pub fn choose_syntax(token_known: bool, names: &Vec<String>, lang: &str) -> (r: Option<Option<usize>>)
    ensures
        choice_view(r) == if token_known {
            Some(None::<nat>)
        } else {
            match first_name_match(text_views(names@), lang@) {
                Some(i) => Some(Some(i)),
                None => None,
            }
        },
{
    if token_known {
        return Some(None);
    }
    let ghost ns = text_views(names@);
    let want = crate::text::lower_vec(&crate::text::chars_of(lang));
    let mut i: usize = 0;
    while i < names.len()
        invariant
            0 <= i <= names@.len(),
            !token_known,
            ns == text_views(names@),
            want@ == lower_seq(lang@),
            forall|j: int| 0 <= j < i ==> lower_seq(#[trigger] ns[j]) != lower_seq(lang@),
        decreases names@.len() - i,
    {
        let got = crate::text::lower_vec(&crate::text::chars_of(names[i].as_str()));
        if crate::text::eq_chars(&got, &want) {
            assert(lower_seq(ns[i as int]) == lower_seq(lang@));
            proof {
                assert(0 <= i < ns.len() && lower_seq(ns[i as int]) == lower_seq(lang@) && forall|j: int|
                    0 <= j < i ==> lower_seq(#[trigger] ns[j]) != lower_seq(lang@));
                let k = choose|k: int|
                    0 <= k < ns.len() && lower_seq(#[trigger] ns[k]) == lower_seq(lang@) && forall|j: int|
                        0 <= j < k ==> lower_seq(#[trigger] ns[j]) != lower_seq(lang@);
                if k < i {
                    assert(lower_seq(ns[k]) != lower_seq(lang@));
                } else if k > i {
                    assert(lower_seq(ns[i as int]) != lower_seq(lang@));
                }
                assert(k == i);
                assert(first_name_match(ns, lang@) == Some(i as nat));
            }
            return Some(Some(i));
        }
        i = i + 1;
    }
    None
}

/// `syntect` highlighting with the extended syntax set and the Monokai
/// Extended theme of `two-face`, with the syntax found by the language's
/// token (`index` none) or the syntax at `index`: the lines are
/// highlighted in order, each split into styled regions whose texts make up
/// the line.
#[verifier::external_body]
fn highlight_regions(lines: &Vec<String>, lang: &str, index: Option<usize>) -> (r: Option<Vec<Vec<(syntect::highlighting::Style, String)>>>)
    ensures
        r is Some <==> highlight_succeeds(text_views(lines@), lang@, index_view(index)),
        r matches Some(v) ==> v@.len() == lines@.len() && forall|i: int|
            0 <= i < v@.len() ==> region_texts(#[trigger] v@[i]@) == lines@[i]@,
{
    let set = two_face::syntax::extra_newlines();
    let themes = two_face::theme::extra();
    let theme = themes.get(two_face::theme::EmbeddedThemeName::MonokaiExtended);
    let syntax = match index {
        None => set.find_syntax_by_token(lang)?,
        Some(i) => set.syntaxes().get(i)?,
    };
    let mut highlighter = syntect::easy::HighlightLines::new(syntax, theme);
    let mut out = Vec::new();
    for line in lines.iter() {
        let regions = highlighter.highlight_line(line, &set).ok()?;
        out.push(regions.into_iter().map(|(style, text)| (style, text.to_owned())).collect());
    }
    Some(out)
}

/// `out` is the regions' texts, each after an escape sequence.
pub open spec fn escaped_as(out: Seq<char>, rs: Seq<(syntect::highlighting::Style, String)>) -> bool {
    exists|codes: Seq<Seq<char>>|
        codes.len() == rs.len() && (forall|i: int| 0 <= i < codes.len() ==> ansi_shape(#[trigger] codes[i]))
            && out == interleave(codes, rs)
}

/// `syntect::util::as_24_bit_terminal_escaped` without backgrounds: each
/// region's text preceded by a 24-bit foreground escape sequence
/// (`ESC[38;2;R;G;Bm`).
#[verifier::external_body]
fn escape_regions(regions: &Vec<(syntect::highlighting::Style, String)>) -> (r: String)
    ensures
        escaped_as(r@, regions@),
{
    let borrowed: Vec<(syntect::highlighting::Style, &str)> = regions.iter().map(|(style, text)| (*style, text.as_str())).collect();
    syntect::util::as_24_bit_terminal_escaped(&borrowed, false)
}

pub open spec fn min_nat(a: nat, b: nat) -> nat {
    if a <= b {
        a
    } else {
        b
    }
}

/// The first `width` characters of `t` (all of it when shorter).
pub open spec fn crop_text(t: Seq<char>, width: nat) -> Seq<char> {
    t.take(min_nat(width, t.len()) as int)
}

/// Cut styled regions at `width` visible characters, before any escape
/// sequence exists, so widths never count them.
fn crop_regions(regions: &Vec<(syntect::highlighting::Style, String)>, width: usize) -> (r: Vec<(syntect::highlighting::Style, String)>)
    ensures
        region_texts(r@) == crop_text(region_texts(regions@), width as nat),
{
    let mut out: Vec<(syntect::highlighting::Style, String)> = Vec::new();
    let mut used: usize = 0;
    let mut i: usize = 0;
    while i < regions.len()
        invariant
            0 <= i <= regions@.len(),
            used <= width,
            region_texts(out@) == region_texts(regions@.subrange(0, i as int)),
            used == region_texts(out@).len(),
        decreases regions@.len() - i,
    {
        let ghost pre = regions@.subrange(0, i as int);
        let ghost next = regions@.subrange(0, i + 1);
        assert(next.drop_last() =~= pre);
        if used >= width {
            proof {
                lemma_region_texts_prefix(regions@, i as int);
            }
            assert(crop_text(region_texts(regions@), width as nat) =~= region_texts(out@));
            return out;
        }
        let remaining = width - used;
        let text = crate::text::chars_of(regions[i].1.as_str());
        let style = regions[i].0;
        let ghost before = out@;
        if text.len() <= remaining {
            out.push((style, regions[i].1.clone()));
            assert(out@.drop_last() =~= before);
            used = used + text.len();
            i = i + 1;
        } else {
            let cut = crate::text::string_of_range(&text, 0, remaining);
            out.push((style, cut));
            assert(out@.drop_last() =~= before);
            proof {
                lemma_region_texts_prefix(regions@, i + 1);
            }
            assert(crop_text(region_texts(regions@), width as nat) =~= region_texts(out@));
            return out;
        }
    }
    assert(regions@.subrange(0, regions@.len() as int) =~= regions@);
    assert(crop_text(region_texts(regions@), width as nat) =~= region_texts(out@));
    out
}

proof fn lemma_region_texts_prefix(rs: Seq<(syntect::highlighting::Style, String)>, i: int)
    requires
        0 <= i <= rs.len(),
    ensures
        region_texts(rs.subrange(0, i)) == region_texts(rs).take(region_texts(rs.subrange(0, i)).len() as int),
        region_texts(rs.subrange(0, i)).len() <= region_texts(rs).len(),
    decreases rs.len() - i,
{
    if i == rs.len() {
        assert(rs.subrange(0, i) =~= rs);
        assert(region_texts(rs).take(region_texts(rs).len() as int) =~= region_texts(rs));
    } else {
        lemma_region_texts_prefix(rs, i + 1);
        let a = rs.subrange(0, i);
        let b = rs.subrange(0, i + 1);
        assert(b.drop_last() =~= a);
        assert(region_texts(b) == region_texts(a) + b.last().1@);
        assert(region_texts(a) =~= region_texts(b).take(region_texts(a).len() as int));
        assert(region_texts(rs).take(region_texts(a).len() as int) =~= region_texts(rs).take(
            region_texts(b).len() as int,
        ).take(region_texts(a).len() as int));
    }
}

pub proof fn lemma_plain_parts(a: Seq<char>, b: Seq<char>)
    requires
        plain_text(a + b),
    ensures
        plain_text(a),
        plain_text(b),
{
    assert forall|i: int| 0 <= i < a.len() implies a[i] != '\x1b' by {
        assert((a + b)[i] == a[i]);
    }
    assert forall|i: int| 0 <= i < b.len() implies b[i] != '\x1b' by {
        assert((a + b)[i + a.len()] == b[i]);
    }
}

proof fn lemma_interleave_strips(codes: Seq<Seq<char>>, rs: Seq<(syntect::highlighting::Style, String)>)
    requires
        codes.len() == rs.len(),
        forall|i: int| 0 <= i < codes.len() ==> ansi_shape(#[trigger] codes[i]),
        plain_text(region_texts(rs)),
    ensures
        strips_to(interleave(codes, rs), region_texts(rs)),
    decreases rs.len(),
{
    if rs.len() == 0 {
        assert(strip(Seq::<char>::empty(), false) =~= Seq::<char>::empty());
    } else {
        lemma_plain_parts(region_texts(rs.drop_last()), rs.last().1@);
        assert forall|i: int| 0 <= i < codes.drop_last().len() implies ansi_shape(#[trigger] codes.drop_last()[i]) by {
            assert(codes.drop_last()[i] == codes[i]);
        }
        lemma_interleave_strips(codes.drop_last(), rs.drop_last());
        assert(ansi_shape(codes[codes.len() - 1]));
        lemma_code_strips(codes.last());
        lemma_plain_strips(rs.last().1@);
        lemma_concat3_strips(
            interleave(codes.drop_last(), rs.drop_last()),
            region_texts(rs.drop_last()),
            codes.last(),
            seq![],
            rs.last().1@,
            rs.last().1@,
        );
        assert(region_texts(rs.drop_last()) + seq![] + rs.last().1@ =~= region_texts(rs));
    }
}

proof fn lemma_crop_plain(t: Seq<char>, width: nat)
    requires
        plain_text(t),
    ensures
        plain_text(crop_text(t, width)),
{
    assert forall|i: int| 0 <= i < crop_text(t, width).len() implies crop_text(t, width)[i] != '\x1b' by {
        assert(crop_text(t, width)[i] == t[i]);
    }
}

/// Highlight every line (the highlighter's state carries from line to
/// line), each cut to `width` visible characters and closed by a reset;
/// none when the language is unknown.
pub fn highlight_lines(lines: &Vec<String>, lang: &str, width: usize) -> (r: Option<Vec<String>>)
    ensures
        r is Some <==> highlighting_available(crate::event::text_views(lines@), lang@),
        r matches Some(v) ==> v@.len() == lines@.len() && forall|i: int|
            0 <= i < v@.len() && plain_text(lines@[i]@) ==> strips_to(
                #[trigger] v@[i]@,
                crop_text(lines@[i]@, width as nat),
            ),
{
    let token_known = token_syntax_known(lang);
    let names = syntax_names(0);
    let index = match choose_syntax(token_known, &names, lang) {
        Some(index) => index,
        None => {
            return None;
        },
    };
    let regions = match highlight_regions(lines, lang, index) {
        Some(r) => r,
        None => {
            return None;
        },
    };
    let mut out: Vec<String> = Vec::new();
    let mut i: usize = 0;
    while i < regions.len()
        invariant
            0 <= i <= regions@.len(),
            regions@.len() == lines@.len(),
            forall|k: int| 0 <= k < regions@.len() ==> region_texts(#[trigger] regions@[k]@) == lines@[k]@,
            out@.len() == i,
            forall|k: int| 0 <= k < i && plain_text(lines@[k]@) ==> strips_to(
                #[trigger] out@[k]@,
                crop_text(lines@[k]@, width as nat),
            ),
        decreases regions@.len() - i,
    {
        let cropped = crop_regions(&regions[i], width);
        let escaped = escape_regions(&cropped);
        let mut line = escaped.clone();
        push_str(&mut line, RESET);
        proof {
            let codes = choose|codes: Seq<Seq<char>>|
                codes.len() == cropped@.len() && (forall|j: int| 0 <= j < codes.len() ==> ansi_shape(#[trigger] codes[j]))
                    && escaped@ == interleave(codes, cropped@);
            if plain_text(lines@[i as int]@) {
                assert(region_texts(regions@[i as int]@) == lines@[i as int]@);
                lemma_crop_plain(lines@[i as int]@, width as nat);
                lemma_interleave_strips(codes, cropped@);
                lemma_codes_shaped();
                lemma_code_strips(RESET@);
                lemma_concat_strips(interleave(codes, cropped@), region_texts(cropped@), RESET@, seq![]);
                assert(region_texts(cropped@) + seq![] =~= region_texts(cropped@));
            }
        }
        out.push(line);
        i = i + 1;
    }
    Some(out)
}

// ---------------------------------------------------------------------------
// Panels

pub open spec fn pow10(k: nat) -> nat
    decreases k,
{
    if k == 0 {
        1
    } else {
        10 * pow10((k - 1) as nat)
    }
}

proof fn lemma_decimal_len(n: nat, k: nat)
    requires
        k >= 1,
        n < pow10(k),
    ensures
        crate::text::decimal(n).len() <= k,
    decreases k,
{
    if n >= 10 {
        assert(k >= 2) by {
            if k == 1 {
                assert(pow10(1) == 10 * pow10(0));
            }
        }
        assert(pow10(k) == 10 * pow10((k - 1) as nat));
        assert(n / 10 < pow10((k - 1) as nat)) by (nonlinear_arith)
            requires
                n < 10 * pow10((k - 1) as nat),
        ;
        lemma_decimal_len(n / 10, (k - 1) as nat);
    }
}

proof fn lemma_decimal_len_u64(n: u64)
    ensures
        crate::text::decimal(n as nat).len() <= 20,
{
    assert(pow10(20) == 100000000000000000000) by {
        reveal_with_fuel(pow10, 21);
    }
    lemma_decimal_len(n as nat, 20);
}

/// The lines of a text, split at each newline.
pub open spec fn lines_of(content: Seq<char>) -> Seq<Seq<char>> {
    crate::text::split_pat(content, seq!['\n'])
}

/// Width of the line-number gutter: the digits of the last number plus two.
pub open spec fn number_width_of(lines: Seq<Seq<char>>) -> nat {
    crate::text::decimal(lines.len()).len() + 2
}

/// Width inside the border: the widest line, gutter and margins, at most 78.
pub open spec fn inner_width_of(lines: Seq<Seq<char>>) -> nat {
    min_nat(number_width_of(lines) + 3 + widest_of(lines), 78)
}

/// Width left for code in each row.
pub open spec fn code_width_of(lines: Seq<Seq<char>>) -> nat {
    (inner_width_of(lines) - number_width_of(lines) - 3) as nat
}

/// Each line cut to the code width: what the rows show without colors.
pub open spec fn cropped_lines(lines: Seq<Seq<char>>) -> Seq<Seq<char>> {
    lines.map_values(|l: Seq<char>| crop_text(l, code_width_of(lines)))
}

/// One row: the border, the right-aligned line number, the body padded to
/// the code width (by its visible length), and the border.
pub open spec fn row_text(nw: nat, cw: nat, visible: nat, n: nat, body: Seq<char>, colors: bool) -> Seq<char> {
    style_spec("│"@, BRIGHT_BLACK@, colors) + " "@ + style_spec(
        pad_left(crate::text::decimal(n), nw),
        BRIGHT_BLACK@,
        colors,
    ) + " "@ + body + repeat_char(' ', (cw - visible) as nat) + " "@ + style_spec("│"@, BRIGHT_BLACK@, colors)
        + "\n"@
}

pub open spec fn panel_row_spec(lines: Seq<Seq<char>>, body: Seq<char>, i: int, colors: bool) -> Seq<char> {
    row_text(
        number_width_of(lines),
        code_width_of(lines),
        crop_text(lines[i], code_width_of(lines)).len(),
        (i + 1) as nat,
        body,
        colors,
    )
}

pub open spec fn panel_rows_spec(lines: Seq<Seq<char>>, bodies: Seq<Seq<char>>, n: int, colors: bool) -> Seq<char>
    decreases n,
{
    if n <= 0 {
        seq![]
    } else {
        panel_rows_spec(lines, bodies, n - 1, colors) + panel_row_spec(lines, bodies[n - 1], n - 1, colors)
    }
}

/// A bordered panel with numbered rows showing `bodies`, sized by `lines`.
pub open spec fn panel_frame(lines: Seq<Seq<char>>, bodies: Seq<Seq<char>>, colors: bool) -> Seq<char> {
    let rule = repeat_char('─', inner_width_of(lines));
    style_spec("┌"@ + rule + "┐"@, BRIGHT_BLACK@, colors) + "\n"@ + panel_rows_spec(
        lines,
        bodies,
        lines.len() as int,
        colors,
    ) + style_spec("└"@ + rule + "┘"@, BRIGHT_BLACK@, colors) + "\n"@
}

fn push_row(
    out: &mut String,
    body: &str,
    number: u64,
    number_width: usize,
    code_width: usize,
    visible: usize,
    colors: bool,
)
    requires
        visible <= code_width,
    ensures
        final(out)@ == old(out)@ + row_text(
            number_width as nat,
            code_width as nat,
            visible as nat,
            number as nat,
            body@,
            colors,
        ),
{
    push_styled(out, "│", BRIGHT_BLACK, colors);
    push_str(out, " ");
    let digits = crate::text::decimal_string(number);
    let mut padded = String::new();
    push_padded_left(&mut padded, digits.as_str(), number_width);
    assert(Seq::<char>::empty() + pad_left(digits@, number_width as nat) =~= pad_left(digits@, number_width as nat));
    push_styled(out, padded.as_str(), BRIGHT_BLACK, colors);
    push_str(out, " ");
    push_str(out, body);
    let padding = repeat(' ', code_width - visible);
    push_str(out, padding.as_str());
    push_str(out, " ");
    push_styled(out, "│", BRIGHT_BLACK, colors);
    push_str(out, "\n");
    assert(final(out)@ =~= old(out)@ + row_text(
        number_width as nat,
        code_width as nat,
        visible as nat,
        number as nat,
        body@,
        colors,
    ));
}

/// A text in a bordered, numbered panel. Geometry is computed from the
/// plain text, so colored and plain panels have the same layout; with
/// colors, a known language is syntax highlighted.
#[verifier::spinoff_prover]
#[verifier::rlimit(60)]
pub fn render_panel(content: &str, lang: Option<&str>, colors: bool) -> (r: String)
    ensures
        ({
            let lines = lines_of(content@);
            let highlighted = colors && lang.is_some() && highlighting_available(lines, lang->0@);
            &&& !highlighted ==> r@ == panel_frame(lines, cropped_lines(lines), colors)
            &&& highlighted ==> exists|bodies: Seq<Seq<char>>|
                bodies.len() == lines.len() && r@ == panel_frame(lines, bodies, true) && forall|i: int|
                    0 <= i < lines.len() && plain_text(lines[i]) ==> strips_to(
                        #[trigger] bodies[i],
                        cropped_lines(lines)[i],
                    )
        }),
{
    let chars = crate::text::chars_of(content);
    let mut newline: Vec<char> = Vec::new();
    newline.push('\n');
    assert(newline@ =~= seq!['\n']);
    let pieces = crate::text::split_pat_exec(&chars, &newline);
    let mut lines: Vec<String> = Vec::new();
    let mut k: usize = 0;
    while k < pieces.len()
        invariant
            0 <= k <= pieces@.len(),
            lines@.len() == k,
            forall|j: int| 0 <= j < k ==> (#[trigger] lines@[j])@ == pieces@[j]@,
        decreases pieces@.len() - k,
    {
        lines.push(crate::text::string_of(&pieces[k]));
        k = k + 1;
    }
    let ghost ls = crate::event::text_views(lines@);
    assert(ls =~= lines_of(content@)) by {
        assert(crate::text::views(pieces@) == lines_of(content@));
        assert forall|j: int| 0 <= j < ls.len() implies ls[j] == crate::text::views(pieces@)[j] by {}
    }
    proof {
        lemma_decimal_len_u64(lines.len() as u64);
    }
    let number_width = crate::text::decimal_string(lines.len() as u64).unicode_len() + 2;
    let max_code = widest(&lines);
    let inner = if max_code >= 78 || number_width + 3 + max_code > 78 { 78 } else { number_width + 3 + max_code };
    let code_width = inner - number_width - 3;
    let highlighted = if colors {
        match lang {
            Some(l) => highlight_lines(&lines, l, code_width),
            None => None,
        }
    } else {
        None
    };
    let rule = repeat('─', inner);
    let mut top = "┌".to_owned();
    push_str(&mut top, rule.as_str());
    push_str(&mut top, "┐");
    let mut out = style(top.as_str(), BRIGHT_BLACK, colors);
    push_str(&mut out, "\n");
    let ghost start = out@;
    let ghost mut bodies: Seq<Seq<char>> = seq![];
    let mut i: usize = 0;
    while i < lines.len()
        invariant
            0 <= i <= lines@.len(),
            ls == crate::event::text_views(lines@),
            number_width == number_width_of(ls),
            code_width == code_width_of(ls),
            bodies.len() == i,
            out@ == start + panel_rows_spec(ls, bodies, i as int, colors),
            highlighted is None ==> forall|j: int| 0 <= j < i ==> #[trigger] bodies[j] == crop_text(ls[j], code_width as nat),
            highlighted matches Some(v) ==> v@.len() == lines@.len() && forall|j: int|
                0 <= j < i ==> #[trigger] bodies[j] == v@[j]@,
        decreases lines@.len() - i,
    {
        let lc = crate::text::chars_of(lines[i].as_str());
        let visible = if lc.len() < code_width { lc.len() } else { code_width };
        let body = match &highlighted {
            Some(v) => v[i].clone(),
            None => crate::text::string_of_range(&lc, 0, visible),
        };
        let ghost before = out@;
        assert(ls[i as int] == lines@[i as int]@);
        assert(crop_text(ls[i as int], code_width as nat).len() == visible);
        assert(i + 1 <= lines@.len());
        let next: usize = i + 1;
        push_row(&mut out, body.as_str(), next as u64, number_width, code_width, visible, colors);
        proof {
            let old_b = bodies;
            bodies = bodies.push(body@);
            assert(bodies.drop_last() =~= old_b);
            lemma_rows_prefix(ls, bodies, old_b, i as int, colors);
            assert(panel_rows_spec(ls, bodies, i + 1, colors) == panel_rows_spec(ls, old_b, i as int, colors)
                + panel_row_spec(ls, bodies[i as int], i as int, colors));
            if highlighted is None {
                assert(ls[i as int] == lines@[i as int]@);
                assert(body@ =~= crop_text(ls[i as int], code_width as nat));
            }
        }
        i = i + 1;
    }
    let mut bottom = "└".to_owned();
    push_str(&mut bottom, rule.as_str());
    push_str(&mut bottom, "┘");
    push_styled(&mut out, bottom.as_str(), BRIGHT_BLACK, colors);
    push_str(&mut out, "\n");
    assert(out@ =~= panel_frame(ls, bodies, colors));
    proof {
        let lang_ok = colors && lang.is_some() && highlighting_available(ls, lang->0@);
        if !lang_ok {
            assert(highlighted is None);
            assert(bodies =~= cropped_lines(ls));
        } else {
            assert(highlighted is Some);
            let v = highlighted->0;
            assert forall|j: int| 0 <= j < ls.len() && plain_text(ls[j]) implies strips_to(
                #[trigger] bodies[j],
                cropped_lines(ls)[j],
            ) by {
                assert(bodies[j] == v@[j]@);
                assert(ls[j] == lines@[j]@);
            }
        }
    }
    out
}

proof fn lemma_rows_prefix(lines: Seq<Seq<char>>, a: Seq<Seq<char>>, b: Seq<Seq<char>>, n: int, colors: bool)
    requires
        0 <= n <= a.len(),
        n <= b.len(),
        forall|j: int| 0 <= j < n ==> a[j] == b[j],
    ensures
        panel_rows_spec(lines, a, n, colors) == panel_rows_spec(lines, b, n, colors),
    decreases n,
{
    if n > 0 {
        lemma_rows_prefix(lines, a, b, n - 1, colors);
    }
}

// ---------------------------------------------------------------------------
// Colored output strips back to plain output

/// The fixed texts of the renderers hold no escape character.
pub proof fn lemma_literals_plain()
    ensures
        plain_text("  "@),
        plain_text("\n"@),
        plain_text(" "@),
        plain_text("│"@),
        plain_text("┌"@),
        plain_text("┐"@),
        plain_text("└"@),
        plain_text("┘"@),
        plain_text("▸ "@),
        plain_text("$"@),
        plain_text("    "@),
        plain_text(" ("@),
        plain_text(")"@),
        plain_text(" → "@),
        plain_text(", "@),
        plain_text("-"@),
        plain_text("only build"@),
        plain_text("only deploy"@),
        plain_text("Packages"@),
        plain_text("Build Steps"@),
        plain_text("Prepare"@),
        plain_text("Deploy scripts"@),
        plain_text("copy"@),
        plain_text("environment"@),
        plain_text("path"@),
        plain_text("workdir"@),
        plain_text("write file"@),
        plain_text("\n  "@),
        plain_text("╭"@),
        plain_text("╮"@),
        plain_text("╰"@),
        plain_text("╯"@),
        plain_text("  Mapping dependencies to Wasmer packages:\n\n"@),
{
    reveal_strlit("  ");
    reveal_strlit("\n");
    reveal_strlit(" ");
    reveal_strlit("│");
    reveal_strlit("┌");
    reveal_strlit("┐");
    reveal_strlit("└");
    reveal_strlit("┘");
    reveal_strlit("▸ ");
    reveal_strlit("$");
    reveal_strlit("    ");
    reveal_strlit(" (");
    reveal_strlit(")");
    reveal_strlit(" → ");
    reveal_strlit(", ");
    reveal_strlit("-");
    reveal_strlit("only build");
    reveal_strlit("only deploy");
    reveal_strlit("Packages");
    reveal_strlit("Build Steps");
    reveal_strlit("Prepare");
    reveal_strlit("Deploy scripts");
    reveal_strlit("copy");
    reveal_strlit("environment");
    reveal_strlit("path");
    reveal_strlit("workdir");
    reveal_strlit("write file");
    reveal_strlit("\n  ");
    reveal_strlit("╭");
    reveal_strlit("╮");
    reveal_strlit("╰");
    reveal_strlit("╯");
    reveal_strlit("  Mapping dependencies to Wasmer packages:\n\n");
}

pub proof fn lemma_repeat_plain(c: char, n: nat)
    requires
        c != '\x1b',
    ensures
        plain_text(repeat_char(c, n)),
{
}

pub proof fn lemma_pad_right_plain(t: Seq<char>, w: nat)
    requires
        plain_text(t),
    ensures
        plain_text(pad_right(t, w)),
{
    if t.len() < w {
        lemma_plain_concat(t, repeat_char(' ', (w - t.len()) as nat));
    }
}

pub proof fn lemma_pad_left_plain(t: Seq<char>, w: nat)
    requires
        plain_text(t),
    ensures
        plain_text(pad_left(t, w)),
{
    if t.len() < w {
        lemma_plain_concat(repeat_char(' ', (w - t.len()) as nat), t);
    }
}

pub proof fn lemma_decimal_plain(n: nat)
    ensures
        plain_text(crate::text::decimal(n)),
    decreases n,
{
    if n >= 10 {
        lemma_decimal_plain(n / 10);
        let d = crate::text::decimal(n / 10);
        let c = ((n % 10) + 48) as char;
        assert(c != '\x1b');
        assert forall|i: int| 0 <= i < d.push(c).len() implies d.push(c)[i] != '\x1b' by {
            if i < d.len() {
                assert(d.push(c)[i] == d[i]);
            }
        }
    } else {
        assert(((n + 48) as char) != '\x1b');
    }
}

/// Colored panels strip back to the plain panel: when each highlighted
/// body strips to its cropped line, the whole frame does.
pub proof fn law_colored_panel_strips_to_plain(lines: Seq<Seq<char>>, bodies: Seq<Seq<char>>)
    requires
        bodies.len() == lines.len(),
        forall|i: int| 0 <= i < lines.len() ==> strips_to(#[trigger] bodies[i], cropped_lines(lines)[i]),
    ensures
        strips_to(panel_frame(lines, bodies, true), panel_frame(lines, cropped_lines(lines), false)),
{
    lemma_codes_shaped();
    lemma_literals_plain();
    let rule = repeat_char('─', inner_width_of(lines));
    lemma_plain_concat("┌"@, rule);
    lemma_plain_concat("┌"@ + rule, "┐"@);
    lemma_plain_concat("└"@, rule);
    lemma_plain_concat("└"@ + rule, "┘"@);
    lemma_styled_strips("┌"@ + rule + "┐"@, BRIGHT_BLACK@);
    lemma_styled_strips("└"@ + rule + "┘"@, BRIGHT_BLACK@);
    lemma_plain_strips("\n"@);
    lemma_rows_strip(lines, bodies, lines.len() as int);
    let top_c = style_spec("┌"@ + rule + "┐"@, BRIGHT_BLACK@, true) + "\n"@;
    let top_p = "┌"@ + rule + "┐"@ + "\n"@;
    lemma_concat_strips(style_spec("┌"@ + rule + "┐"@, BRIGHT_BLACK@, true), "┌"@ + rule + "┐"@, "\n"@, "\n"@);
    lemma_concat3_strips(
        top_c,
        top_p,
        panel_rows_spec(lines, bodies, lines.len() as int, true),
        panel_rows_spec(lines, cropped_lines(lines), lines.len() as int, false),
        style_spec("└"@ + rule + "┘"@, BRIGHT_BLACK@, true),
        "└"@ + rule + "┘"@,
    );
    lemma_concat_strips(
        top_c + panel_rows_spec(lines, bodies, lines.len() as int, true) + style_spec("└"@ + rule + "┘"@, BRIGHT_BLACK@, true),
        top_p + panel_rows_spec(lines, cropped_lines(lines), lines.len() as int, false) + ("└"@ + rule + "┘"@),
        "\n"@,
        "\n"@,
    );
}

proof fn lemma_rows_strip(lines: Seq<Seq<char>>, bodies: Seq<Seq<char>>, n: int)
    requires
        0 <= n <= lines.len(),
        bodies.len() == lines.len(),
        forall|i: int| 0 <= i < lines.len() ==> strips_to(#[trigger] bodies[i], cropped_lines(lines)[i]),
    ensures
        strips_to(panel_rows_spec(lines, bodies, n, true), panel_rows_spec(lines, cropped_lines(lines), n, false)),
    decreases n,
{
    if n <= 0 {
        assert(strip(Seq::<char>::empty(), false) =~= Seq::<char>::empty());
    } else {
        lemma_rows_strip(lines, bodies, n - 1);
        lemma_row_strips(lines, bodies[n - 1], cropped_lines(lines)[n - 1], n - 1);
        lemma_concat_strips(
            panel_rows_spec(lines, bodies, n - 1, true),
            panel_rows_spec(lines, cropped_lines(lines), n - 1, false),
            panel_row_spec(lines, bodies[n - 1], n - 1, true),
            panel_row_spec(lines, cropped_lines(lines)[n - 1], n - 1, false),
        );
    }
}

proof fn lemma_row_strips(lines: Seq<Seq<char>>, body: Seq<char>, plain_body: Seq<char>, i: int)
    requires
        strips_to(body, plain_body),
    ensures
        strips_to(panel_row_spec(lines, body, i, true), panel_row_spec(lines, plain_body, i, false)),
{
    lemma_codes_shaped();
    lemma_literals_plain();
    let nw = number_width_of(lines);
    let cw = code_width_of(lines);
    let vis = crop_text(lines[i], cw).len();
    let num = pad_left(crate::text::decimal((i + 1) as nat), nw);
    lemma_decimal_plain((i + 1) as nat);
    lemma_pad_left_plain(crate::text::decimal((i + 1) as nat), nw);
    let pad = repeat_char(' ', (cw - vis) as nat);
    lemma_repeat_plain(' ', (cw - vis) as nat);
    lemma_styled_strips("│"@, BRIGHT_BLACK@);
    lemma_styled_strips(num, BRIGHT_BLACK@);
    lemma_plain_strips(" "@);
    lemma_plain_strips(pad);
    lemma_plain_strips("\n"@);
    let bar_c = style_spec("│"@, BRIGHT_BLACK@, true);
    let num_c = style_spec(num, BRIGHT_BLACK@, true);
    lemma_concat3_strips(bar_c, "│"@, " "@, " "@, num_c, num);
    lemma_concat3_strips(bar_c + " "@ + num_c, "│"@ + " "@ + num, " "@, " "@, body, plain_body);
    lemma_concat3_strips(
        bar_c + " "@ + num_c + " "@ + body,
        "│"@ + " "@ + num + " "@ + plain_body,
        pad,
        pad,
        " "@,
        " "@,
    );
    lemma_concat3_strips(
        bar_c + " "@ + num_c + " "@ + body + pad + " "@,
        "│"@ + " "@ + num + " "@ + plain_body + pad + " "@,
        bar_c,
        "│"@,
        "\n"@,
        "\n"@,
    );
}

/// A colored success box strips back to the plain one.
pub proof fn law_colored_success_strips_to_plain(message: Seq<char>, width: nat)
    requires
        plain_text(message),
    ensures
        strips_to(success_spec(message, width, true), success_spec(message, width, false)),
{
    lemma_codes_shaped();
    lemma_literals_plain();
    let rule = repeat_char('─', width + 2);
    lemma_repeat_plain('─', width + 2);
    lemma_styled_strips("╭"@, HIGHLIGHT@);
    lemma_styled_strips(rule, HIGHLIGHT@);
    lemma_styled_strips("╮"@, HIGHLIGHT@);
    lemma_styled_strips("│"@, HIGHLIGHT@);
    lemma_styled_strips("╰"@, HIGHLIGHT@);
    lemma_styled_strips("╯"@, HIGHLIGHT@);
    lemma_plain_strips("\n  "@);
    lemma_plain_strips(" "@);
    lemma_plain_strips(message);
    lemma_plain_strips("\n"@);
    let h = style_spec(rule, HIGHLIGHT@, true);
    let v = style_spec("│"@, HIGHLIGHT@, true);
    lemma_concat3_strips("\n  "@, "\n  "@, style_spec("╭"@, HIGHLIGHT@, true), "╭"@, h, rule);
    let a_c = "\n  "@ + style_spec("╭"@, HIGHLIGHT@, true) + h;
    let a_p = "\n  "@ + "╭"@ + rule;
    lemma_concat3_strips(a_c, a_p, style_spec("╮"@, HIGHLIGHT@, true), "╮"@, "\n  "@, "\n  "@);
    let b_c = a_c + style_spec("╮"@, HIGHLIGHT@, true) + "\n  "@;
    let b_p = a_p + "╮"@ + "\n  "@;
    lemma_concat3_strips(b_c, b_p, v, "│"@, " "@, " "@);
    let c_c = b_c + v + " "@;
    let c_p = b_p + "│"@ + " "@;
    lemma_concat3_strips(c_c, c_p, message, message, " "@, " "@);
    let d_c = c_c + message + " "@;
    let d_p = c_p + message + " "@;
    lemma_concat3_strips(d_c, d_p, v, "│"@, "\n  "@, "\n  "@);
    let e_c = d_c + v + "\n  "@;
    let e_p = d_p + "│"@ + "\n  "@;
    lemma_concat3_strips(e_c, e_p, style_spec("╰"@, HIGHLIGHT@, true), "╰"@, h, rule);
    let f_c = e_c + style_spec("╰"@, HIGHLIGHT@, true) + h;
    let f_p = e_p + "╰"@ + rule;
    lemma_concat3_strips(f_c, f_p, style_spec("╯"@, HIGHLIGHT@, true), "╯"@, "\n"@, "\n"@);
}

pub proof fn lemma_separator_strips()
    ensures
        strips_to(separator_spec(true), separator_spec(false)),
{
    lemma_codes_shaped();
    lemma_literals_plain();
    lemma_plain_strips("  "@);
    lemma_styled_strips("│"@, DARK_GRAY@);
    lemma_concat3_strips("  "@, "  "@, style_spec("│"@, DARK_GRAY@, true), "│"@, "  "@, "  "@);
}

/// The mapping table's sources and targets hold no escape character.
pub open spec fn plain_mappings(ms: Seq<crate::event::WasmerPackageMapping>) -> bool {
    forall|i: int| 0 <= i < ms.len() ==> plain_text(#[trigger] ms[i].source@) && plain_text(ms[i].target@)
}

proof fn lemma_mapping_rows_strip(ms: Seq<crate::event::WasmerPackageMapping>, w: nat)
    requires
        plain_mappings(ms),
    ensures
        strips_to(mapping_rows_spec(ms, w, true), mapping_rows_spec(ms, w, false)),
    decreases ms.len(),
{
    if ms.len() == 0 {
        assert(strip(Seq::<char>::empty(), false) =~= Seq::<char>::empty());
    } else {
        assert forall|i: int| 0 <= i < ms.drop_last().len() implies plain_text(#[trigger] ms.drop_last()[i].source@)
            && plain_text(ms.drop_last()[i].target@) by {
            assert(ms.drop_last()[i] == ms[i]);
        }
        lemma_mapping_rows_strip(ms.drop_last(), w);
        let m = ms.last();
        assert(plain_text(ms[ms.len() - 1].source@));
        lemma_codes_shaped();
        lemma_literals_plain();
        lemma_pad_right_plain(m.source@, w);
        lemma_styled_strips(pad_right(m.source@, w), BRIGHT_MAGENTA@);
        lemma_styled_strips(m.target@, BRIGHT_CYAN@);
        lemma_separator_strips();
        lemma_plain_strips("  "@);
        lemma_plain_strips("\n"@);
        lemma_plain_strips(seq!['\n']);
        let s1 = style_spec(pad_right(m.source@, w), BRIGHT_MAGENTA@, true);
        lemma_concat3_strips("  "@, "  "@, s1, pad_right(m.source@, w), separator_spec(true), separator_spec(false));
        lemma_concat3_strips(
            "  "@ + s1 + separator_spec(true),
            "  "@ + pad_right(m.source@, w) + separator_spec(false),
            style_spec(m.target@, BRIGHT_CYAN@, true),
            m.target@,
            seq!['\n'],
            seq!['\n'],
        );
        lemma_concat_strips(
            mapping_rows_spec(ms.drop_last(), w, true),
            mapping_rows_spec(ms.drop_last(), w, false),
            mapping_row_spec(m, w, true),
            mapping_row_spec(m, w, false),
        );
    }
}

/// The colored mapping table strips back to the plain one.
pub proof fn law_colored_mappings_strip_to_plain(ms: Seq<crate::event::WasmerPackageMapping>)
    requires
        plain_mappings(ms),
    ensures
        strips_to(wasmer_mappings_spec(ms, true), wasmer_mappings_spec(ms, false)),
{
    lemma_literals_plain();
    let w = if ms.len() == 0 { 1 } else { widest_source(ms) };
    lemma_mapping_rows_strip(ms, w);
    lemma_plain_strips("  Mapping dependencies to Wasmer packages:\n\n"@);
    lemma_concat_strips(
        "  Mapping dependencies to Wasmer packages:\n\n"@,
        "  Mapping dependencies to Wasmer packages:\n\n"@,
        mapping_rows_spec(ms, w, true),
        mapping_rows_spec(ms, w, false),
    );
}

pub open spec fn plain_opt(o: Option<String>) -> bool {
    match o {
        Some(t) => plain_text(t@),
        None => true,
    }
}

/// Every text of a build-plan step is free of the escape character.
pub open spec fn plain_step(step: BuildPlanStep) -> bool {
    match step {
        BuildPlanStep::Run { command, group } => plain_text(command@) && plain_opt(group),
        BuildPlanStep::Copy { source, target, base } => plain_text(source@) && plain_text(target@)
            && plain_text(base@),
        BuildPlanStep::Environment { variables } => forall|i: int|
            0 <= i < variables@.len() ==> plain_text(#[trigger] variables@[i]@),
        BuildPlanStep::Path { path } => plain_text(path@),
        BuildPlanStep::Workdir { path } => plain_text(path@),
        BuildPlanStep::WriteFile { path } => plain_text(path@),
    }
}

pub open spec fn plain_steps(steps: Seq<BuildPlanStep>) -> bool {
    forall|i: int| 0 <= i < steps.len() ==> plain_step(#[trigger] steps[i])
}

pub open spec fn plain_package(p: BuildPlanPackage) -> bool {
    plain_text(p.name@) && plain_opt(p.version) && plain_opt(p.architecture)
}

pub open spec fn plain_packages(ps: Seq<BuildPlanPackage>) -> bool {
    forall|i: int| 0 <= i < ps.len() ==> plain_package(#[trigger] ps[i])
}

pub open spec fn plain_scripts(ds: Seq<DeployScript>) -> bool {
    forall|i: int| 0 <= i < ds.len() ==> plain_text(#[trigger] ds[i].name@) && plain_text(ds[i].command@)
}

proof fn lemma_step_header_strips(name: Seq<char>)
    requires
        plain_text(name),
    ensures
        strips_to(step_header_spec(name, true), step_header_spec(name, false)),
{
    lemma_codes_shaped();
    lemma_literals_plain();
    lemma_plain_concat("▸ "@, name);
    lemma_plain_strips("  "@);
    lemma_plain_strips("\n"@);
    lemma_styled_strips("▸ "@ + name, BRIGHT_MAGENTA@);
    lemma_concat3_strips("  "@, "  "@, style_spec("▸ "@ + name, BRIGHT_MAGENTA@, true), "▸ "@ + name, "\n"@, "\n"@);
}

proof fn lemma_step_detail_strips(d: Seq<char>)
    requires
        plain_text(d),
    ensures
        strips_to(step_detail_spec(d, true), step_detail_spec(d, false)),
{
    lemma_codes_shaped();
    lemma_literals_plain();
    lemma_plain_strips("    "@);
    lemma_plain_strips("\n"@);
    lemma_styled_strips(d, BOLD@);
    lemma_concat3_strips("    "@, "    "@, style_spec(d, BOLD@, true), d, "\n"@, "\n"@);
}

proof fn lemma_command_line_strips(c: Seq<char>)
    requires
        plain_text(c),
    ensures
        strips_to(command_line_spec(c, true), command_line_spec(c, false)),
{
    lemma_codes_shaped();
    lemma_literals_plain();
    lemma_plain_strips("    "@);
    lemma_plain_strips(" "@);
    lemma_plain_strips("\n"@);
    lemma_styled_strips("$"@, MEDIUM_GRAY@);
    lemma_styled_strips(c, BOLD@);
    lemma_concat3_strips("    "@, "    "@, style_spec("$"@, MEDIUM_GRAY@, true), "$"@, " "@, " "@);
    lemma_concat3_strips(
        "    "@ + style_spec("$"@, MEDIUM_GRAY@, true) + " "@,
        "    "@ + "$"@ + " "@,
        style_spec(c, BOLD@, true),
        c,
        "\n"@,
        "\n"@,
    );
}

proof fn lemma_join_plain(ts: Seq<Seq<char>>, sep: Seq<char>)
    requires
        plain_text(sep),
        forall|i: int| 0 <= i < ts.len() ==> plain_text(#[trigger] ts[i]),
    ensures
        plain_text(join_texts(ts, sep)),
    decreases ts.len(),
{
    if ts.len() == 0 {
    } else if ts.len() == 1 {
        assert(plain_text(ts[0]));
    } else {
        assert forall|i: int| 0 <= i < ts.drop_last().len() implies plain_text(#[trigger] ts.drop_last()[i]) by {
            assert(ts.drop_last()[i] == ts[i]);
        }
        lemma_join_plain(ts.drop_last(), sep);
        assert(plain_text(ts[ts.len() - 1]));
        lemma_plain_concat(join_texts(ts.drop_last(), sep), sep);
        lemma_plain_concat(join_texts(ts.drop_last(), sep) + sep, ts.last());
    }
}

proof fn lemma_block_header_strips(step: BuildPlanStep)
    requires
        plain_step(step),
    ensures
        strips_to(block_header_spec(step, true), block_header_spec(step, false)),
{
    lemma_literals_plain();
    match step {
        BuildPlanStep::Run { group: Some(g), .. } => lemma_step_header_strips(g@),
        BuildPlanStep::Run { group: None, .. } => {
            assert(strip(Seq::<char>::empty(), false) =~= Seq::<char>::empty());
        },
        BuildPlanStep::Copy { .. } => lemma_step_header_strips("copy"@),
        BuildPlanStep::Environment { .. } => lemma_step_header_strips("environment"@),
        BuildPlanStep::Path { .. } => lemma_step_header_strips("path"@),
        BuildPlanStep::Workdir { .. } => lemma_step_header_strips("workdir"@),
        BuildPlanStep::WriteFile { .. } => lemma_step_header_strips("write file"@),
    }
}

proof fn lemma_step_body_strips(step: BuildPlanStep)
    requires
        plain_step(step),
    ensures
        strips_to(step_body_spec(step, true), step_body_spec(step, false)),
{
    lemma_literals_plain();
    match step {
        BuildPlanStep::Run { command, .. } => lemma_command_line_strips(command@),
        BuildPlanStep::Copy { source, target, base } => {
            lemma_plain_concat(source@, " → "@);
            lemma_plain_concat(source@ + " → "@, target@);
            lemma_plain_concat(source@ + " → "@ + target@, " ("@);
            lemma_plain_concat(source@ + " → "@ + target@ + " ("@, base@);
            lemma_plain_concat(source@ + " → "@ + target@ + " ("@ + base@, ")"@);
            lemma_step_detail_strips(copy_detail(source@, target@, base@));
        },
        BuildPlanStep::Environment { variables } => {
            assert forall|i: int| 0 <= i < crate::event::text_views(variables@).len() implies plain_text(
                #[trigger] crate::event::text_views(variables@)[i],
            ) by {
                assert(crate::event::text_views(variables@)[i] == variables@[i]@);
            }
            lemma_join_plain(crate::event::text_views(variables@), ", "@);
            lemma_step_detail_strips(join_texts(crate::event::text_views(variables@), ", "@));
        },
        BuildPlanStep::Path { path } => lemma_step_detail_strips(path@),
        BuildPlanStep::Workdir { path } => lemma_step_detail_strips(path@),
        BuildPlanStep::WriteFile { path } => lemma_step_detail_strips(path@),
    }
}

proof fn lemma_steps_body_strips(f: Seq<BuildPlanStep>, n: int)
    requires
        0 <= n <= f.len(),
        plain_steps(f),
    ensures
        strips_to(steps_body_spec(f, n, true), steps_body_spec(f, n, false)),
    decreases n,
{
    lemma_literals_plain();
    if n <= 0 {
        assert(strip(Seq::<char>::empty(), false) =~= Seq::<char>::empty());
    } else {
        let i = n - 1;
        lemma_steps_body_strips(f, i);
        assert(plain_step(f[i]));
        lemma_block_header_strips(f[i]);
        lemma_step_body_strips(f[i]);
        let lead: Seq<char> = if i > 0 { "\n"@ } else { seq![] };
        lemma_plain_strips(lead);
        let head_c: Seq<char> = if i == 0 || !same_block(f[i - 1], f[i]) {
            lead + block_header_spec(f[i], true)
        } else {
            seq![]
        };
        let head_p: Seq<char> = if i == 0 || !same_block(f[i - 1], f[i]) {
            lead + block_header_spec(f[i], false)
        } else {
            seq![]
        };
        if i == 0 || !same_block(f[i - 1], f[i]) {
            lemma_concat_strips(lead, lead, block_header_spec(f[i], true), block_header_spec(f[i], false));
        } else {
            assert(strip(Seq::<char>::empty(), false) =~= Seq::<char>::empty());
        }
        lemma_concat3_strips(
            steps_body_spec(f, i, true),
            steps_body_spec(f, i, false),
            head_c,
            head_p,
            step_body_spec(f[i], true),
            step_body_spec(f[i], false),
        );
        assert(steps_body_spec(f, n, true) =~= steps_body_spec(f, i, true) + head_c + step_body_spec(f[i], true));
        assert(steps_body_spec(f, n, false) =~= steps_body_spec(f, i, false) + head_p + step_body_spec(f[i], false));
    }
}

proof fn lemma_kept_plain(steps: Seq<BuildPlanStep>, detailed: bool)
    requires
        plain_steps(steps),
    ensures
        plain_steps(kept_steps(steps, detailed)),
    decreases steps.len(),
{
    if steps.len() > 0 {
        assert forall|i: int| 0 <= i < steps.drop_last().len() implies plain_step(#[trigger] steps.drop_last()[i]) by {
            assert(steps.drop_last()[i] == steps[i]);
        }
        lemma_kept_plain(steps.drop_last(), detailed);
        assert(plain_step(steps[steps.len() - 1]));
    }
}

proof fn lemma_section_header_strips(after: bool, title: Seq<char>)
    requires
        plain_text(title),
    ensures
        strips_to(section_header_spec(after, title, true), section_header_spec(after, title, false)),
{
    law_colored_section_header_strips_to_plain(after, title);
}

proof fn lemma_steps_section_strips(after: bool, title: Seq<char>, steps: Seq<BuildPlanStep>, detailed: bool)
    requires
        plain_text(title),
        plain_steps(steps),
    ensures
        strips_to(steps_section_spec(after, title, steps, detailed, true), steps_section_spec(after, title, steps, detailed, false)),
{
    let f = kept_steps(steps, detailed);
    lemma_kept_plain(steps, detailed);
    if f.len() == 0 {
        assert(strip(Seq::<char>::empty(), false) =~= Seq::<char>::empty());
    } else {
        lemma_section_header_strips(after, title);
        lemma_steps_body_strips(f, f.len() as int);
        lemma_concat_strips(
            section_header_spec(after, title, true),
            section_header_spec(after, title, false),
            steps_body_spec(f, f.len() as int, true),
            steps_body_spec(f, f.len() as int, false),
        );
    }
}

proof fn lemma_package_row_strips(p: BuildPlanPackage, nw: nat, vw: nat)
    requires
        plain_package(p),
    ensures
        strips_to(package_row_spec(p, nw, vw, true), package_row_spec(p, nw, vw, false)),
{
    lemma_codes_shaped();
    lemma_literals_plain();
    let name = package_display_name_spec(p);
    match p.architecture {
        Some(a) => {
            lemma_plain_concat(p.name@, " ("@);
            lemma_plain_concat(p.name@ + " ("@, a@);
            lemma_plain_concat(p.name@ + " ("@ + a@, ")"@);
        },
        None => {},
    }
    lemma_pad_right_plain(name, nw);
    lemma_pad_right_plain(version_text(p), vw);
    lemma_styled_strips(pad_right(name, nw), BRIGHT_MAGENTA@);
    lemma_styled_strips(pad_right(version_text(p), vw), BRIGHT_CYAN@);
    lemma_separator_strips();
    lemma_plain_strips("  "@);
    lemma_plain_strips("\n"@);
    let phase_c = phase_spec(p.phase, true);
    let phase_p = phase_spec(p.phase, false);
    match p.phase {
        PackagePhase::Build => {
            lemma_styled_strips("only build"@, MEDIUM_GRAY@);
            lemma_concat_strips(separator_spec(true), separator_spec(false), style_spec("only build"@, MEDIUM_GRAY@, true), "only build"@);
        },
        PackagePhase::Deploy => {
            lemma_styled_strips("only deploy"@, MEDIUM_GRAY@);
            lemma_concat_strips(separator_spec(true), separator_spec(false), style_spec("only deploy"@, MEDIUM_GRAY@, true), "only deploy"@);
        },
        PackagePhase::Both => {
            assert(strip(Seq::<char>::empty(), false) =~= Seq::<char>::empty());
        },
    }
    let n_c = style_spec(pad_right(name, nw), BRIGHT_MAGENTA@, true);
    let v_c = style_spec(pad_right(version_text(p), vw), BRIGHT_CYAN@, true);
    lemma_concat3_strips("  "@, "  "@, n_c, pad_right(name, nw), separator_spec(true), separator_spec(false));
    lemma_concat3_strips(
        "  "@ + n_c + separator_spec(true),
        "  "@ + pad_right(name, nw) + separator_spec(false),
        v_c,
        pad_right(version_text(p), vw),
        phase_c,
        phase_p,
    );
    lemma_concat_strips(
        "  "@ + n_c + separator_spec(true) + v_c + phase_c,
        "  "@ + pad_right(name, nw) + separator_spec(false) + pad_right(version_text(p), vw) + phase_p,
        "\n"@,
        "\n"@,
    );
}

proof fn lemma_package_rows_strip(ps: Seq<BuildPlanPackage>, nw: nat, vw: nat)
    requires
        plain_packages(ps),
    ensures
        strips_to(package_rows_spec(ps, nw, vw, true), package_rows_spec(ps, nw, vw, false)),
    decreases ps.len(),
{
    if ps.len() == 0 {
        assert(strip(Seq::<char>::empty(), false) =~= Seq::<char>::empty());
    } else {
        assert forall|i: int| 0 <= i < ps.drop_last().len() implies plain_package(#[trigger] ps.drop_last()[i]) by {
            assert(ps.drop_last()[i] == ps[i]);
        }
        lemma_package_rows_strip(ps.drop_last(), nw, vw);
        assert(plain_package(ps[ps.len() - 1]));
        lemma_package_row_strips(ps.last(), nw, vw);
        lemma_concat_strips(
            package_rows_spec(ps.drop_last(), nw, vw, true),
            package_rows_spec(ps.drop_last(), nw, vw, false),
            package_row_spec(ps.last(), nw, vw, true),
            package_row_spec(ps.last(), nw, vw, false),
        );
    }
}

proof fn lemma_scripts_body_strips(ds: Seq<DeployScript>, n: int)
    requires
        0 <= n <= ds.len(),
        plain_scripts(ds),
    ensures
        strips_to(scripts_body_spec(ds, n, true), scripts_body_spec(ds, n, false)),
    decreases n,
{
    lemma_literals_plain();
    if n <= 0 {
        assert(strip(Seq::<char>::empty(), false) =~= Seq::<char>::empty());
    } else {
        let i = n - 1;
        lemma_scripts_body_strips(ds, i);
        assert(plain_text(ds[i].name@) && plain_text(ds[i].command@));
        let lead: Seq<char> = if i > 0 { "\n"@ } else { seq![] };
        lemma_plain_strips(lead);
        lemma_step_header_strips(ds[i].name@);
        lemma_command_line_strips(ds[i].command@);
        lemma_concat3_strips(
            lead,
            lead,
            step_header_spec(ds[i].name@, true),
            step_header_spec(ds[i].name@, false),
            command_line_spec(ds[i].command@, true),
            command_line_spec(ds[i].command@, false),
        );
        lemma_concat_strips(
            scripts_body_spec(ds, i, true),
            scripts_body_spec(ds, i, false),
            script_piece_spec(ds, i, true),
            script_piece_spec(ds, i, false),
        );
    }
}

/// A colored build plan strips back to the plain plan.
pub proof fn law_colored_build_plan_strips_to_plain(
    ps: Seq<BuildPlanPackage>,
    steps: Seq<BuildPlanStep>,
    prepare: Seq<BuildPlanStep>,
    ds: Seq<DeployScript>,
    detailed: bool,
)
    requires
        plain_packages(ps),
        plain_steps(steps),
        plain_steps(prepare),
        plain_scripts(ds),
    ensures
        strips_to(build_plan_spec(ps, steps, prepare, ds, detailed, true), build_plan_spec(ps, steps, prepare, ds, detailed, false)),
{
    lemma_literals_plain();
    let a_c = packages_section_spec(ps, true);
    let a_p = packages_section_spec(ps, false);
    if ps.len() == 0 {
        assert(strip(Seq::<char>::empty(), false) =~= Seq::<char>::empty());
    } else {
        lemma_section_header_strips(false, "Packages"@);
        lemma_package_rows_strip(ps, widest_of(package_names(ps)), widest_of(package_versions(ps)));
        lemma_concat_strips(
            section_header_spec(false, "Packages"@, true),
            section_header_spec(false, "Packages"@, false),
            package_rows_spec(ps, widest_of(package_names(ps)), widest_of(package_versions(ps)), true),
            package_rows_spec(ps, widest_of(package_names(ps)), widest_of(package_versions(ps)), false),
        );
    }
    let shown_steps = kept_steps(steps, detailed).len() > 0;
    let shown_prepare = kept_steps(prepare, true).len() > 0;
    lemma_steps_section_strips(ps.len() > 0, "Build Steps"@, steps, detailed);
    lemma_steps_section_strips(ps.len() > 0 || shown_steps, "Prepare"@, prepare, true);
    let after = ps.len() > 0 || shown_steps || shown_prepare;
    let d_c = deploy_section_spec(after, ds, true);
    let d_p = deploy_section_spec(after, ds, false);
    if ds.len() == 0 {
        assert(strip(Seq::<char>::empty(), false) =~= Seq::<char>::empty());
    } else {
        lemma_section_header_strips(after, "Deploy scripts"@);
        lemma_scripts_body_strips(ds, ds.len() as int);
        lemma_concat_strips(
            section_header_spec(after, "Deploy scripts"@, true),
            section_header_spec(after, "Deploy scripts"@, false),
            scripts_body_spec(ds, ds.len() as int, true),
            scripts_body_spec(ds, ds.len() as int, false),
        );
    }
    let b_c = steps_section_spec(ps.len() > 0, "Build Steps"@, steps, detailed, true);
    let b_p = steps_section_spec(ps.len() > 0, "Build Steps"@, steps, detailed, false);
    let c_c = steps_section_spec(ps.len() > 0 || shown_steps, "Prepare"@, prepare, true, true);
    let c_p = steps_section_spec(ps.len() > 0 || shown_steps, "Prepare"@, prepare, true, false);
    lemma_concat3_strips(a_c, a_p, b_c, b_p, c_c, c_p);
    lemma_plain_strips("\n"@);
    lemma_concat3_strips(a_c + b_c + c_c, a_p + b_p + c_p, d_c, d_p, "\n"@, "\n"@);
}

// ---------------------------------------------------------------------------
// Events

/// How a provider is named on screen.
pub open spec fn provider_display_spec(provider: Seq<char>) -> Seq<char> {
    if provider == "node"@ {
        "Node.js"@
    } else if provider == "node-static"@ {
        "static Node.js"@
    } else if provider == "staticfile"@ {
        "static site"@
    } else if provider == "wordpress"@ {
        "WordPress"@
    } else if provider == "mkdocs"@ {
        "MkDocs"@
    } else if provider == "php"@ {
        "PHP"@
    } else if provider == "go"@ {
        "Go"@
    } else if provider == "hugo"@ {
        "Hugo"@
    } else if provider == "jekyll"@ {
        "Jekyll"@
    } else if provider == "laravel"@ {
        "Laravel"@
    } else if provider == "python"@ {
        "Python"@
    } else {
        provider
    }
}

/// The on-screen name of a provider; unknown providers keep their id.
pub fn provider_display_name(provider: &str) -> (r: String)
    ensures
        r@ == provider_display_spec(provider@),
{
    if crate::text::eq_str(provider, "node") {
        "Node.js".to_owned()
    } else if crate::text::eq_str(provider, "node-static") {
        "static Node.js".to_owned()
    } else if crate::text::eq_str(provider, "staticfile") {
        "static site".to_owned()
    } else if crate::text::eq_str(provider, "wordpress") {
        "WordPress".to_owned()
    } else if crate::text::eq_str(provider, "mkdocs") {
        "MkDocs".to_owned()
    } else if crate::text::eq_str(provider, "php") {
        "PHP".to_owned()
    } else if crate::text::eq_str(provider, "go") {
        "Go".to_owned()
    } else if crate::text::eq_str(provider, "hugo") {
        "Hugo".to_owned()
    } else if crate::text::eq_str(provider, "jekyll") {
        "Jekyll".to_owned()
    } else if crate::text::eq_str(provider, "laravel") {
        "Laravel".to_owned()
    } else if crate::text::eq_str(provider, "python") {
        "Python".to_owned()
    } else {
        provider.to_owned()
    }
}

/// The last component of a path (the whole path when it has none):
/// trailing separators and `.` components do not count.
pub open spec fn file_name_spec(path: Seq<char>) -> Seq<char> {
    let t = trim_end_components(path);
    let k = last_slash(t);
    let name = t.subrange(k + 1, t.len() as int);
    if name.len() == 0 || name == ".."@ || name == "."@ {
        path
    } else {
        name
    }
}

/// A path without trailing separators and trailing `.` components.
pub open spec fn trim_end_components(s: Seq<char>) -> Seq<char>
    decreases s.len(),
{
    if s.len() > 0 && s.last() == '/' {
        trim_end_components(s.drop_last())
    } else if s.len() >= 2 && s.last() == '.' && s[s.len() - 2] == '/' {
        trim_end_components(s.drop_last())
    } else {
        s
    }
}

/// The index of the last `/` (-1 when there is none).
pub open spec fn last_slash(s: Seq<char>) -> int
    decreases s.len(),
{
    if s.len() == 0 {
        -1
    } else if s.last() == '/' {
        s.len() - 1
    } else {
        last_slash(s.drop_last())
    }
}

proof fn lemma_last_slash_range(s: Seq<char>)
    ensures
        -1 <= last_slash(s) < s.len(),
    decreases s.len(),
{
    if s.len() > 0 && s.last() != '/' {
        lemma_last_slash_range(s.drop_last());
    }
}

/// The file name of a path, as `Path::file_name` gives it for plain
/// relative or absolute paths.
#[verifier::spinoff_prover]
#[verifier::rlimit(40)]
pub fn file_name(path: &str) -> (r: String)
    ensures
        r@ == file_name_spec(path@),
{
    let v = crate::text::chars_of(path);
    let mut end = v.len();
    assert(v@.subrange(0, v@.len() as int) =~= v@);
    while end > 0 && (v[end - 1] == '/' || (end >= 2 && v[end - 1] == '.' && v[end - 2] == '/'))
        invariant
            0 <= end <= v@.len(),
            trim_end_components(v@) == trim_end_components(v@.subrange(0, end as int)),
        decreases end,
    {
        assert(v@.subrange(0, end as int).drop_last() =~= v@.subrange(0, end - 1));
        end = end - 1;
    }
    assert(v@.subrange(0, v@.len() as int) =~= v@);
    let ghost t = v@.subrange(0, end as int);
    assert(trim_end_components(t) == t);
    let mut k = end;
    while k > 0 && v[k - 1] != '/'
        invariant
            0 <= k <= end <= v@.len(),
            last_slash(t) == last_slash(v@.subrange(0, k as int)),
        decreases k,
    {
        assert(v@.subrange(0, k as int).drop_last() =~= v@.subrange(0, k - 1));
        k = k - 1;
    }
    assert(k > 0 ==> v@.subrange(0, k as int).last() == '/');
    assert(last_slash(t) == k - 1);
    let name = crate::text::slice_vec(&v, k, end);
    assert(name@ =~= t.subrange(k as int, t.len() as int));
    let mut dots: Vec<char> = Vec::new();
    dots.push('.');
    dots.push('.');
    proof {
        reveal_strlit("..");
    }
    assert(dots@ =~= ".."@);
    let mut dot: Vec<char> = Vec::new();
    dot.push('.');
    proof {
        reveal_strlit(".");
    }
    assert(dot@ =~= "."@);
    if name.len() == 0 || crate::text::eq_chars(&name, &dots) || crate::text::eq_chars(&name, &dot) {
        crate::text::copy_str(path)
    } else {
        crate::text::string_of(&name)
    }
}

/// What the command line prints for an event.
#[derive(Debug, Clone, PartialEq, Eq)]
pub struct EventOutput {
    pub stderr: String,
    pub stdout: String,
}

pub open spec fn details_text(details: Seq<crate::event::ProviderDetail>) -> Seq<char>
    decreases details.len(),
{
    if details.len() == 0 {
        seq![]
    } else {
        details_text(details.drop_last()) + "    "@ + details.last().label@ + ": "@ + details.last().value@ + "\n"@
    }
}

/// The panel text `render_panel` may print for a content and language.
pub open spec fn panel_output(content: Seq<char>, lang: Option<Seq<char>>, colors: bool, out: Seq<char>) -> bool {
    let lines = lines_of(content);
    let highlighted = colors && lang.is_some() && highlighting_available(lines, lang->0);
    &&& !highlighted ==> out == panel_frame(lines, cropped_lines(lines), colors)
    &&& highlighted ==> exists|bodies: Seq<Seq<char>>|
        bodies.len() == lines.len() && out == panel_frame(lines, bodies, true) && forall|i: int|
            0 <= i < lines.len() && plain_text(lines[i]) ==> strips_to(#[trigger] bodies[i], cropped_lines(lines)[i])
}

/// A success box where the message's width allows one.
pub open spec fn success_output(message: Seq<char>, colors: bool) -> Seq<char> {
    if display_width(message) + 2 <= usize::MAX {
        success_spec(message, display_width(message), colors)
    } else {
        seq![]
    }
}

/// What is printed for each event: diagnostics, provider lines, plans,
/// headers and panels on standard error; deployment descriptions on
/// standard output.
pub open spec fn event_printed(event: crate::event::Event, show_detailed_steps: bool, show_wasmer_files: bool, colors: bool, out: EventOutput) -> bool {
    match event {
        Event::Diagnostic { level, message } => out.stdout@.len() == 0 && out.stderr@ == (match level {
            crate::event::DiagnosticLevel::Info => message@ + "\n"@,
            crate::event::DiagnosticLevel::Warning => "Warning: "@ + message@ + "\n"@,
        }),
        Event::LegacyRenamed { from, to } => out.stdout@.len() == 0 && out.stderr@ == (if file_name_spec(from@).len() > 0
            && file_name_spec(from@)[0] == '.' && file_name_spec(to@).len() > 0 && file_name_spec(to@)[0] == '.' {
            "Renamed legacy "@ + file_name_spec(from@) + " directory to "@ + file_name_spec(to@) + ".\n"@
        } else {
            "Renamed legacy "@ + file_name_spec(from@) + " file to "@ + file_name_spec(to@) + ".\n"@
        }),
        Event::ProviderDetected { provider, details } => out.stdout@.len() == 0 && out.stderr@
            == provider_status_spec("Detected"@, provider_display_spec(provider@), "provider"@, colors) + details_text(details@),
        Event::ProviderDeclared { provider, details } => out.stdout@.len() == 0 && out.stderr@
            == provider_status_spec("Using"@, provider_display_spec(provider@), "provider declared in Anybuild"@, colors)
            + details_text(details@),
        Event::BuildPlan { packages, steps, prepare_steps, deploy_scripts } => out.stdout@.len() == 0 && out.stderr@
            == "\n"@ + build_plan_spec(packages@, steps@, prepare_steps@, deploy_scripts@, show_detailed_steps, colors),
        Event::FileWritten { kind, path } => out.stdout@.len() == 0 && out.stderr@ == (if kind@ == "anybuild"@ {
            "\n  Generated Anybuild at "@ + path@ + "\n"@
        } else {
            "Generated "@ + kind@ + " at "@ + path@ + "\n"@
        }),
        Event::SectionStarted { title } => out.stdout@.len() == 0 && out.stderr@ == "\n"@ + section_header_spec(false, title@, colors),
        Event::WasmerPackageMappings { mappings } => out.stdout@.len() == 0 && out.stderr@ == wasmer_mappings_spec(mappings@, colors),
        Event::Success { message } => out.stdout@.len() == 0 && out.stderr@ == success_output(message@, colors),
        Event::WasmerFileContent { filename, content, language } => out.stdout@.len() == 0 && if show_wasmer_files {
            exists|panel: Seq<char>|
                panel_output(content@, Some(language@), colors, panel) && out.stderr@ == success_output(
                    "Created "@ + filename@ + " manifest"@,
                    colors,
                ) + panel
        } else {
            out.stderr@.len() == 0
        },
        Event::BuildStarted => out.stdout@.len() == 0 && out.stderr@ == section_header_spec(false, "Starting Build..."@, colors),
        Event::BuildStep { description } => out.stdout@.len() == 0 && out.stderr@ == build_progress_spec(description@, colors),
        Event::CommandStarted { name, .. } => out.stdout@.len() == 0 && out.stderr@ == "\n"@ + section_header_spec(
            false,
            "Run "@ + name@ + " command"@,
            colors,
        ),
        Event::ProcessOutput { text, .. } => out.stdout@.len() == 0 && out.stderr@ == text@,
        Event::Content { content, language } => out.stdout@.len() == 0 && panel_output(
            content@,
            match language {
                Some(l) => Some(l@),
                None => None,
            },
            colors,
            out.stderr@,
        ),
        Event::Deployment { description } => out.stderr@.len() == 0 && out.stdout@ == description@ + "\n"@,
        _ => out.stdout@.len() == 0 && out.stderr@.len() == 0,
    }
}

fn success_if_fits(message: &str, colors: bool) -> (r: String)
    ensures
        r@ == success_output(message@, colors),
{
    let w = text_width(message);
    if w <= usize::MAX - 2 {
        render_success(message, colors)
    } else {
        String::new()
    }
}

fn push_details(out: &mut String, details: &Vec<crate::event::ProviderDetail>)
    ensures
        final(out)@ == old(out)@ + details_text(details@),
{
    let ghost start = out@;
    let mut i: usize = 0;
    while i < details.len()
        invariant
            0 <= i <= details@.len(),
            out@ == start + details_text(details@.subrange(0, i as int)),
        decreases details@.len() - i,
    {
        let ghost before = out@;
        push_str(out, "    ");
        push_str(out, details[i].label.as_str());
        push_str(out, ": ");
        push_str(out, details[i].value.as_str());
        push_str(out, "\n");
        assert(details@.subrange(0, i + 1).drop_last() =~= details@.subrange(0, i as int));
        assert(out@ =~= before + ("    "@ + details@[i as int].label@ + ": "@ + details@[i as int].value@ + "\n"@));
        i = i + 1;
    }
    assert(details@.subrange(0, details@.len() as int) =~= details@);
}

/// What the command line prints for an event, given the render options
/// and whether colors are on.
pub fn render_event(event: &crate::event::Event, options: crate::auto::RenderOptions, colors: bool) -> (r: EventOutput)
    ensures
        event_printed(*event, options.show_detailed_steps, options.show_wasmer_files, colors, r),
{
    let mut stderr = String::new();
    let mut stdout = String::new();
    match event {
        Event::Diagnostic { level, message } => {
            match level {
                crate::event::DiagnosticLevel::Info => {},
                crate::event::DiagnosticLevel::Warning => push_str(&mut stderr, "Warning: "),
            }
            push_str(&mut stderr, message.as_str());
            push_str(&mut stderr, "\n");
            assert(stderr@ =~= (match level {
                crate::event::DiagnosticLevel::Info => message@ + "\n"@,
                crate::event::DiagnosticLevel::Warning => "Warning: "@ + message@ + "\n"@,
            }));
        },
        Event::LegacyRenamed { from, to } => {
            let from_name = file_name(from.as_str());
            let to_name = file_name(to.as_str());
            let fc = crate::text::chars_of(from_name.as_str());
            let tc = crate::text::chars_of(to_name.as_str());
            push_str(&mut stderr, "Renamed legacy ");
            push_str(&mut stderr, from_name.as_str());
            if fc.len() > 0 && fc[0] == '.' && tc.len() > 0 && tc[0] == '.' {
                push_str(&mut stderr, " directory to ");
            } else {
                push_str(&mut stderr, " file to ");
            }
            push_str(&mut stderr, to_name.as_str());
            push_str(&mut stderr, ".\n");
            assert(fc@ == file_name_spec(from@) && tc@ == file_name_spec(to@));
            assert(stderr@ =~= (if file_name_spec(from@).len() > 0 && file_name_spec(from@)[0] == '.'
                && file_name_spec(to@).len() > 0 && file_name_spec(to@)[0] == '.' {
                "Renamed legacy "@ + file_name_spec(from@) + " directory to "@ + file_name_spec(to@) + ".\n"@
            } else {
                "Renamed legacy "@ + file_name_spec(from@) + " file to "@ + file_name_spec(to@) + ".\n"@
            }));
        },
        Event::ProviderDetected { provider, details } => {
            let name = provider_display_name(provider.as_str());
            stderr = render_provider_status("Detected", name.as_str(), "provider", colors);
            push_details(&mut stderr, details);
        },
        Event::ProviderDeclared { provider, details } => {
            let name = provider_display_name(provider.as_str());
            stderr = render_provider_status("Using", name.as_str(), "provider declared in Anybuild", colors);
            push_details(&mut stderr, details);
        },
        Event::BuildPlan { packages, steps, prepare_steps, deploy_scripts } => {
            push_str(&mut stderr, "\n");
            let plan = render_build_plan(packages, steps, prepare_steps, deploy_scripts, options.show_detailed_steps, colors);
            push_str(&mut stderr, plan.as_str());
            assert(stderr@ =~= "\n"@ + plan@);
        },
        Event::FileWritten { kind, path } => {
            if crate::text::eq_str(kind.as_str(), "anybuild") {
                push_str(&mut stderr, "\n  Generated Anybuild at ");
            } else {
                push_str(&mut stderr, "Generated ");
                push_str(&mut stderr, kind.as_str());
                push_str(&mut stderr, " at ");
            }
            push_str(&mut stderr, path.as_str());
            push_str(&mut stderr, "\n");
            assert(stderr@ =~= (if kind@ == "anybuild"@ {
                "\n  Generated Anybuild at "@ + path@ + "\n"@
            } else {
                "Generated "@ + kind@ + " at "@ + path@ + "\n"@
            }));
        },
        Event::SectionStarted { title } => {
            push_str(&mut stderr, "\n");
            let header = render_section_header(title.as_str(), colors);
            push_str(&mut stderr, header.as_str());
            assert(stderr@ =~= "\n"@ + header@);
        },
        Event::WasmerPackageMappings { mappings } => {
            stderr = render_wasmer_package_mappings(mappings, colors);
        },
        Event::Success { message } => {
            stderr = success_if_fits(message.as_str(), colors);
        },
        Event::WasmerFileContent { filename, content, language } => {
            if options.show_wasmer_files {
                let mut message = "Created ".to_owned();
                push_str(&mut message, filename.as_str());
                push_str(&mut message, " manifest");
                stderr = success_if_fits(message.as_str(), colors);
                let panel = render_panel(content.as_str(), Some(language.as_str()), colors);
                let ghost before = stderr@;
                push_str(&mut stderr, panel.as_str());
                assert(message@ =~= "Created "@ + filename@ + " manifest"@);
                assert(panel_output(content@, Some(language@), colors, panel@));
                assert(stderr@ == success_output("Created "@ + filename@ + " manifest"@, colors) + panel@);
            } else {
                assert(stderr@ =~= Seq::<char>::empty());
            }
        },
        Event::BuildStarted => {
            stderr = render_section_header("Starting Build...", colors);
        },
        Event::BuildStep { description } => {
            stderr = render_build_progress(description.as_str(), colors);
        },
        Event::CommandStarted { name, .. } => {
            let mut title = "Run ".to_owned();
            push_str(&mut title, name.as_str());
            push_str(&mut title, " command");
            push_str(&mut stderr, "\n");
            let header = render_section_header(title.as_str(), colors);
            push_str(&mut stderr, header.as_str());
            assert(title@ =~= "Run "@ + name@ + " command"@);
            assert(stderr@ =~= "\n"@ + header@);
        },
        Event::ProcessOutput { text, .. } => {
            stderr = text.clone();
        },
        Event::Content { content, language } => {
            let lang = match language {
                Some(l) => Some(l.as_str()),
                None => None,
            };
            stderr = render_panel(content.as_str(), lang, colors);
            assert(panel_output(content@, match language {
                Some(l) => Some(l@),
                None => None,
            }, colors, stderr@));
        },
        Event::Deployment { description } => {
            push_str(&mut stdout, description.as_str());
            push_str(&mut stdout, "\n");
            assert(stdout@ =~= description@ + "\n"@);
        },
        _ => {},
    }
    EventOutput { stderr, stdout }
}

proof fn lemma_split_plain(s: Seq<char>, p: Seq<char>, start: int, i: int)
    requires
        plain_text(s),
        0 <= start <= i,
        start <= s.len(),
    ensures
        forall|k: int|
            0 <= k < split_pat_from_len(s, p, start, i) ==> plain_text(#[trigger] crate::text::split_pat_from(s, p, start, i)[k]),
    decreases s.len() - i,
{
    if i >= s.len() || p.len() == 0 {
        let piece = s.subrange(start, s.len() as int);
        assert(plain_text(piece)) by {
            assert forall|j: int| 0 <= j < piece.len() implies piece[j] != '\x1b' by {
                assert(piece[j] == s[start + j]);
            }
        }
        assert(crate::text::split_pat_from(s, p, start, i) == seq![piece]);
    } else if crate::text::occurs_at(s, p, i) {
        lemma_split_plain(s, p, i + p.len(), i + p.len());
        let piece = s.subrange(start, i);
        assert(plain_text(piece)) by {
            assert forall|j: int| 0 <= j < piece.len() implies piece[j] != '\x1b' by {
                assert(piece[j] == s[start + j]);
            }
        }
        let rest = crate::text::split_pat_from(s, p, i + p.len(), i + p.len());
        assert forall|k: int| 0 <= k < split_pat_from_len(s, p, start, i) implies plain_text(
            #[trigger] crate::text::split_pat_from(s, p, start, i)[k],
        ) by {
            if k > 0 {
                assert(crate::text::split_pat_from(s, p, start, i)[k] == rest[k - 1]);
            }
        }
    } else {
        lemma_split_plain(s, p, start, i + 1);
        assert(crate::text::split_pat_from(s, p, start, i) == crate::text::split_pat_from(s, p, start, i + 1));
    }
}

pub open spec fn split_pat_from_len(s: Seq<char>, p: Seq<char>, start: int, i: int) -> int {
    crate::text::split_pat_from(s, p, start, i).len() as int
}

/// The lines of a text without the escape character have none either.
pub proof fn lemma_lines_plain(content: Seq<char>)
    requires
        plain_text(content),
    ensures
        forall|k: int| 0 <= k < lines_of(content).len() ==> plain_text(#[trigger] lines_of(content)[k]),
{
    lemma_split_plain(content, seq!['\n'], 0, 0);
}

/// A colored panel of a text without escape characters shows the plain
/// panel once its escape sequences are removed, whether or not the
/// language could be highlighted.
pub proof fn law_colored_panel_output_strips_to_plain(
    content: Seq<char>,
    lang: Option<Seq<char>>,
    colored: Seq<char>,
    plain: Seq<char>,
)
    requires
        plain_text(content),
        panel_output(content, lang, true, colored),
        panel_output(content, lang, false, plain),
    ensures
        strips_to(colored, plain),
{
    let lines = lines_of(content);
    lemma_lines_plain(content);
    let cropped = cropped_lines(lines);
    assert(plain == panel_frame(lines, cropped, false));
    if lang.is_some() && highlighting_available(lines, lang->0) {
        let bodies = choose|bodies: Seq<Seq<char>>|
            bodies.len() == lines.len() && colored == panel_frame(lines, bodies, true) && forall|i: int|
                0 <= i < lines.len() && plain_text(lines[i]) ==> strips_to(#[trigger] bodies[i], cropped_lines(lines)[i]);
        assert forall|i: int| 0 <= i < lines.len() implies strips_to(#[trigger] bodies[i], cropped_lines(lines)[i]) by {
            assert(plain_text(lines[i]));
        }
        law_colored_panel_strips_to_plain(lines, bodies);
    } else {
        assert forall|i: int| 0 <= i < lines.len() implies strips_to(#[trigger] cropped[i], cropped_lines(lines)[i]) by {
            assert(plain_text(lines[i]));
            lemma_crop_plain(lines[i], code_width_of(lines));
            lemma_plain_strips(cropped[i]);
        }
        law_colored_panel_strips_to_plain(lines, cropped);
    }
}

/// A command of the install or build group.
pub open spec fn install_or_build(step: BuildPlanStep) -> bool {
    step matches BuildPlanStep::Run { group: Some(g), .. } && (g@ == "install"@ || g@ == "build"@)
}

/// The steps a plan shows are the filtered steps: in a concise plan exactly
/// the install and build commands, in order; in a detailed plan (and in
/// Prepare) every step.
pub proof fn law_shown_steps_are_filtered(steps: Seq<BuildPlanStep>, detailed: bool)
    ensures
        kept_steps(steps, detailed) == steps.filter(|st: BuildPlanStep| keep_step(st, detailed)),
        kept_steps(steps, true) == steps,
        forall|i: int|
            0 <= i < kept_steps(steps, false).len() ==> install_or_build(#[trigger] kept_steps(steps, false)[i]),
    decreases steps.len(),
{
    reveal(Seq::filter);
    if steps.len() > 0 {
        law_shown_steps_are_filtered(steps.drop_last(), detailed);
        assert(steps.drop_last().push(steps.last()) =~= steps);
        let rest = kept_steps(steps.drop_last(), false);
        assert forall|i: int| 0 <= i < kept_steps(steps, false).len() implies install_or_build(
            #[trigger] kept_steps(steps, false)[i],
        ) by {
            if i < rest.len() {
                assert(kept_steps(steps, false)[i] == rest[i]);
            }
        }
    }
}

proof fn lemma_decimal_nonempty(n: nat)
    ensures
        crate::text::decimal(n).len() >= 1,
    decreases n,
{
    if n >= 10 {
        lemma_decimal_nonempty(n / 10);
    }
}

proof fn lemma_decimal_monotonic(m: nat, n: nat)
    requires
        m <= n,
    ensures
        crate::text::decimal(m).len() <= crate::text::decimal(n).len(),
    decreases n,
{
    lemma_decimal_nonempty(n);
    if m >= 10 {
        assert(m / 10 <= n / 10);
        lemma_decimal_monotonic(m / 10, n / 10);
    }
}

proof fn lemma_plain_rows_len(lines: Seq<Seq<char>>, k: int)
    requires
        0 <= k <= lines.len(),
        inner_width_of(lines) == number_width_of(lines) + 3 + code_width_of(lines),
    ensures
        panel_rows_spec(lines, cropped_lines(lines), k, false).len() == k * (inner_width_of(lines) + 3),
        forall|i: int| 0 <= i < lines.len() ==> (#[trigger] panel_row_spec(lines, cropped_lines(lines)[i], i, false)).len()
            == inner_width_of(lines) + 3,
    decreases k,
{
    let w = inner_width_of(lines);
    assert forall|i: int| 0 <= i < lines.len() implies (#[trigger] panel_row_spec(lines, cropped_lines(lines)[i], i, false)).len()
        == w + 3 by {
        lemma_decimal_monotonic((i + 1) as nat, lines.len());
        let body = cropped_lines(lines)[i];
        assert(body == crop_text(lines[i], code_width_of(lines)));
        let digits = crate::text::decimal((i + 1) as nat);
        assert(pad_left(digits, number_width_of(lines)).len() == number_width_of(lines));
        reveal_strlit("│");
        reveal_strlit(" ");
        reveal_strlit("\n");
        let cw = code_width_of(lines);
        let visible = crop_text(lines[i], cw).len();
        assert(visible <= cw);
        assert(repeat_char(' ', (cw - visible) as nat).len() == cw - visible);
        assert(panel_row_spec(lines, body, i, false) == row_text(number_width_of(lines), cw, visible, (i + 1) as nat, body, false));
    }
    if k > 0 {
        lemma_plain_rows_len(lines, k - 1);
        assert(panel_row_spec(lines, cropped_lines(lines)[k - 1], k - 1, false).len() == w + 3);
        assert(panel_rows_spec(lines, cropped_lines(lines), k, false) == panel_rows_spec(lines, cropped_lines(lines), k - 1, false)
            + panel_row_spec(lines, cropped_lines(lines)[k - 1], k - 1, false));
        assert(k * (w + 3) == (k - 1) * (w + 3) + (w + 3)) by (nonlinear_arith);
    } else {
        assert(panel_rows_spec(lines, cropped_lines(lines), k, false).len() == 0);
        assert(k * (w + 3) == 0) by (nonlinear_arith)
            requires
                k == 0,
        ;
    }
}

/// A plain panel has one line per text line and two border lines, each as
/// wide as the border (the inner width plus two) and ended by a newline.
pub proof fn law_plain_panel_geometry(lines: Seq<Seq<char>>)
    requires
        lines.len() <= usize::MAX,
    ensures
        panel_frame(lines, cropped_lines(lines), false).len() == (lines.len() + 2) * (inner_width_of(lines) + 3),
        forall|i: int| 0 <= i < lines.len() ==> (#[trigger] panel_row_spec(lines, cropped_lines(lines)[i], i, false)).len()
            == inner_width_of(lines) + 3,
        inner_width_of(lines) <= 78,
{
    assert(pow10(20) == 100000000000000000000) by {
        reveal_with_fuel(pow10, 21);
    }
    lemma_decimal_len(lines.len(), 20);
    assert(inner_width_of(lines) == number_width_of(lines) + 3 + code_width_of(lines));
    lemma_plain_rows_len(lines, lines.len() as int);
    let w = inner_width_of(lines);
    reveal_strlit("┌");
    reveal_strlit("┐");
    reveal_strlit("└");
    reveal_strlit("┘");
    reveal_strlit("\n");
    assert(repeat_char('─', w).len() == w);
    assert((lines.len() + 2) * (w + 3) == lines.len() * (w + 3) + 2 * (w + 3)) by (nonlinear_arith);
}

/// A concise build plan is the detailed plan of only the install and build
/// commands, in their order: its Build Steps section lists exactly those,
/// and every other section is unchanged.
pub proof fn law_concise_plan_shows_install_and_build_commands(
    ps: Seq<BuildPlanPackage>,
    steps: Seq<BuildPlanStep>,
    prepare: Seq<BuildPlanStep>,
    ds: Seq<DeployScript>,
    colors: bool,
)
    ensures
        build_plan_spec(ps, steps, prepare, ds, false, colors) == build_plan_spec(
            ps,
            steps.filter(|st: BuildPlanStep| install_or_build(st)),
            prepare,
            ds,
            true,
            colors,
        ),
{
    let f = steps.filter(|st: BuildPlanStep| install_or_build(st));
    law_shown_steps_are_filtered(steps, false);
    law_shown_steps_are_filtered(f, true);
    assert((|st: BuildPlanStep| keep_step(st, false)) =~= (|st: BuildPlanStep| install_or_build(st)));
    assert(kept_steps(steps, false) == f);
    assert(kept_steps(f, true) == f);
}

/// Text without a line feed.
pub open spec fn single_line(t: Seq<char>) -> bool {
    forall|i: int| 0 <= i < t.len() ==> t[i] != '\n'
}

/// Lines, each followed by a line feed.
pub open spec fn ended_lines(ls: Seq<Seq<char>>) -> Seq<char>
    decreases ls.len(),
{
    if ls.len() == 0 {
        seq![]
    } else {
        ended_lines(ls.drop_last()) + ls.last() + seq!['\n']
    }
}

/// The lines of a plain panel: the top border, one row per text line, and
/// the bottom border.
pub open spec fn plain_panel_lines(lines: Seq<Seq<char>>) -> Seq<Seq<char>> {
    let rule = repeat_char('─', inner_width_of(lines));
    seq!["┌"@ + rule + "┐"@] + Seq::new(
        lines.len(),
        |i: int| panel_row_spec(lines, cropped_lines(lines)[i], i, false).drop_last(),
    ) + seq!["└"@ + rule + "┘"@]
}

proof fn lemma_ended_lines_concat(a: Seq<Seq<char>>, b: Seq<Seq<char>>)
    ensures
        ended_lines(a + b) == ended_lines(a) + ended_lines(b),
    decreases b.len(),
{
    if b.len() == 0 {
        assert(a + b =~= a);
        assert(ended_lines(a) + Seq::<char>::empty() =~= ended_lines(a));
    } else {
        assert((a + b).drop_last() =~= a + b.drop_last());
        lemma_ended_lines_concat(a, b.drop_last());
        assert((a + b).last() == b.last());
    }
}

proof fn lemma_decimal_single_line(n: nat)
    ensures
        single_line(crate::text::decimal(n)),
    decreases n,
{
    if n >= 10 {
        lemma_decimal_single_line(n / 10);
        let d = crate::text::decimal(n / 10);
        let c = ((n % 10) + 48) as char;
        assert forall|i: int| 0 <= i < d.push(c).len() implies d.push(c)[i] != '\n' by {
            if i < d.len() {
                assert(d.push(c)[i] == d[i]);
            }
        }
    }
}

proof fn lemma_single_concat(a: Seq<char>, b: Seq<char>)
    requires
        single_line(a),
        single_line(b),
    ensures
        single_line(a + b),
{
    assert forall|i: int| 0 <= i < (a + b).len() implies (a + b)[i] != '\n' by {
        if i >= a.len() {
            assert((a + b)[i] == b[i - a.len()]);
        }
    }
}

proof fn lemma_rows_are_lines(lines: Seq<Seq<char>>, k: int)
    requires
        0 <= k <= lines.len(),
    ensures
        panel_rows_spec(lines, cropped_lines(lines), k, false) == ended_lines(
            Seq::new(k as nat, |i: int| panel_row_spec(lines, cropped_lines(lines)[i], i, false).drop_last()),
        ),
    decreases k,
{
    reveal_strlit("\n");
    let rows = Seq::new(k as nat, |i: int| panel_row_spec(lines, cropped_lines(lines)[i], i, false).drop_last());
    if k > 0 {
        lemma_rows_are_lines(lines, k - 1);
        let prev = Seq::new((k - 1) as nat, |i: int| panel_row_spec(lines, cropped_lines(lines)[i], i, false).drop_last());
        assert(rows.drop_last() =~= prev);
        let row = panel_row_spec(lines, cropped_lines(lines)[k - 1], k - 1, false);
        assert(row.last() == '\n');
        assert(row.drop_last() + seq!['\n'] =~= row);
    } else {
        assert(rows =~= Seq::<Seq<char>>::empty());
    }
}

/// A plain panel of text lines without line feeds is exactly its lines,
/// each ended by a line feed: the top border, one row per text line, and
/// the bottom border, each as wide as the border and holding no line feed.
pub proof fn law_plain_panel_lines(lines: Seq<Seq<char>>)
    requires
        lines.len() <= usize::MAX,
        forall|i: int| 0 <= i < lines.len() ==> single_line(#[trigger] lines[i]),
    ensures
        panel_frame(lines, cropped_lines(lines), false) == ended_lines(plain_panel_lines(lines)),
        plain_panel_lines(lines).len() == lines.len() + 2,
        forall|i: int|
            0 <= i < plain_panel_lines(lines).len() ==> (#[trigger] plain_panel_lines(lines)[i]).len() == inner_width_of(
                lines,
            ) + 2 && single_line(plain_panel_lines(lines)[i]),
{
    law_plain_panel_geometry(lines);
    reveal_strlit("┌");
    reveal_strlit("┐");
    reveal_strlit("└");
    reveal_strlit("┘");
    reveal_strlit("│");
    reveal_strlit(" ");
    reveal_strlit("\n");
    let w = inner_width_of(lines);
    let rule = repeat_char('─', w);
    let top = "┌"@ + rule + "┐"@;
    let bottom = "└"@ + rule + "┘"@;
    let rows = Seq::new(lines.len(), |i: int| panel_row_spec(lines, cropped_lines(lines)[i], i, false).drop_last());
    let all = plain_panel_lines(lines);
    assert(all == seq![top] + rows + seq![bottom]);
    lemma_rows_are_lines(lines, lines.len() as int);
    lemma_ended_lines_concat(seq![top], rows);
    lemma_ended_lines_concat(seq![top] + rows, seq![bottom]);
    assert(ended_lines(Seq::<Seq<char>>::empty()) =~= Seq::<char>::empty());
    assert(ended_lines(seq![top]) =~= top + seq!['\n']) by {
        assert(seq![top].drop_last() =~= Seq::<Seq<char>>::empty());
        assert(ended_lines(seq![top]) == ended_lines(seq![top].drop_last()) + top + seq!['\n']);
    }
    assert(ended_lines(seq![bottom]) =~= bottom + seq!['\n']) by {
        assert(seq![bottom].drop_last() =~= Seq::<Seq<char>>::empty());
        assert(ended_lines(seq![bottom]) == ended_lines(seq![bottom].drop_last()) + bottom + seq!['\n']);
    }
    assert(panel_frame(lines, cropped_lines(lines), false) =~= top + seq!['\n'] + panel_rows_spec(
        lines,
        cropped_lines(lines),
        lines.len() as int,
        false,
    ) + bottom + seq!['\n']);
    assert(single_line(rule));
    assert forall|i: int| 0 <= i < all.len() implies (#[trigger] all[i]).len() == w + 2 && single_line(all[i]) by {
        if i == 0 {
            assert(all[i] == top);
        } else if i == all.len() - 1 {
            assert(all[i] == bottom);
        } else {
            let k = i - 1;
            assert(all[i] == rows[k]);
            let cw = code_width_of(lines);
            let nw = number_width_of(lines);
            let body = cropped_lines(lines)[k];
            let visible = crop_text(lines[k], cw).len();
            assert(body == crop_text(lines[k], cw));
            let row = panel_row_spec(lines, body, k, false);
            assert(row.len() == w + 3);
            let digits = pad_left(crate::text::decimal((k + 1) as nat), nw);
            lemma_decimal_single_line((k + 1) as nat);
            let ds = crate::text::decimal((k + 1) as nat);
            assert(single_line(digits)) by {
                if ds.len() < nw {
                    assert(single_line(repeat_char(' ', (nw - ds.len()) as nat)));
                    lemma_single_concat(repeat_char(' ', (nw - ds.len()) as nat), ds);
                }
            }
            assert(single_line(body)) by {
                assert forall|j: int| 0 <= j < body.len() implies body[j] != '\n' by {
                    assert(body[j] == lines[k][j]);
                }
            }
            let pad = repeat_char(' ', (cw - visible) as nat);
            assert(single_line(pad));
            let core = "│"@ + " "@ + digits + " "@ + body + pad + " "@ + "│"@;
            assert(single_line("│"@));
            assert(single_line(" "@));
            lemma_single_concat("│"@, " "@);
            lemma_single_concat("│"@ + " "@, digits);
            lemma_single_concat("│"@ + " "@ + digits, " "@);
            lemma_single_concat("│"@ + " "@ + digits + " "@, body);
            lemma_single_concat("│"@ + " "@ + digits + " "@ + body, pad);
            lemma_single_concat("│"@ + " "@ + digits + " "@ + body + pad, " "@);
            lemma_single_concat("│"@ + " "@ + digits + " "@ + body + pad + " "@, "│"@);
            assert(row =~= core + "\n"@);
            assert(row.drop_last() =~= core);
        }
    }
}

} // verus!
