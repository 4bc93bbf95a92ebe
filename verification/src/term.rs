//! Terminal capabilities, decided from what the environment reports, and
//! the glyphs, styles and path text the renderers draw with.

use vstd::prelude::*;
use crate::cli::ColorMode;
use crate::text::{append_str, chars_of, contains_str, dec, has_infix, lit, parse_radix, parse_unsigned};

verus! {

/// How many colors the terminal shows; `None` turns color off.
#[derive(Clone, Copy, PartialEq, Eq, Debug, Structural)]
pub enum ColorDepth {
    NoColor,
    Ansi16,
    Ansi256,
    TrueColor,
}

#[derive(Clone, Copy, PartialEq, Eq, Debug, Structural)]
pub enum GlyphSet {
    Unicode,
    Ascii,
}

#[derive(Clone, Copy, PartialEq, Eq, Debug, Structural)]
pub enum Stream {
    Out,
    Error,
}

#[derive(Clone, Copy, PartialEq, Eq, Debug, Structural)]
pub enum Glyph {
    Deny,
    Pass,
    Arrow,
}

/// What the renderers may use on this terminal.
#[derive(Clone, Copy, PartialEq, Eq, Debug, Structural)]
pub struct TermCtx {
    pub color: ColorDepth,
    pub glyphs: GlyphSet,
    pub hyperlinks: bool,
    pub width: usize,
}

/// A foreground color with an optional bold effect.
#[derive(Clone, Copy, PartialEq, Eq, Debug, Structural)]
pub struct Style {
    pub r: u8,
    pub g: u8,
    pub b: u8,
    pub bold: bool,
}

impl Style {
    pub fn bold(self) -> (r: Style)
        ensures
            r == (Style { bold: true, ..self }),
    {
        Style { bold: true, ..self }
    }
}

/// The escape sequence that turns a style on: bold first when set, then a
/// 24-bit foreground color with each component in decimal.
pub open spec fn ansi_open(s: Style) -> Seq<char> {
    (if s.bold {
        "\x1b[1m"@
    } else {
        seq![]
    }) + "\x1b[38;2;"@ + dec(s.r as nat) + ";"@ + dec(s.g as nat) + ";"@ + dec(s.b as nat) + "m"@
}

/// The escape sequence that resets every style.
pub open spec fn ansi_reset() -> Seq<char> {
    "\x1b[0m"@
}

/// `anstyle::Style::render` for an RGB foreground and the bold effect when
/// set: bold's code, then `38;2;r;g;b`, each as an escape sequence.
#[verifier::external_body]
fn render_style(s: Style) -> (r: String)
    ensures
        r@ == ansi_open(s),
{
    let color = anstyle::Color::Rgb(anstyle::RgbColor(s.r, s.g, s.b));
    let effects = anstyle::Effects::new().set(anstyle::Effects::BOLD, s.bold);
    anstyle::Style::new().fg_color(Some(color)).effects(effects).render().to_string()
}

/// `anstyle::Style::render_reset` for a style with a foreground color:
/// the reset sequence, which it writes for every style but the plain one.
#[verifier::external_body]
fn render_reset(s: Style) -> (r: String)
    ensures
        r@ == ansi_reset(),
{
    let color = anstyle::Color::Rgb(anstyle::RgbColor(s.r, s.g, s.b));
    let effects = anstyle::Effects::new().set(anstyle::Effects::BOLD, s.bold);
    anstyle::Style::new().fg_color(Some(color)).effects(effects).render_reset().to_string()
}

/// `s` in the style when the terminal takes color, else unchanged.
pub open spec fn paint_spec(t: TermCtx, style: Style, s: Seq<char>) -> Seq<char> {
    if t.color != ColorDepth::NoColor {
        ansi_open(style) + s + ansi_reset()
    } else {
        s
    }
}

pub fn paint(t: &TermCtx, style: Style, s: &str) -> (r: String)
    ensures
        r@ == paint_spec(*t, style, s@),
{
    if t.colored(Stream::Out) {
        let mut out = render_style(style);
        append_str(&mut out, s);
        append_str(&mut out, render_reset(style).as_str());
        out
    } else {
        lit(s)
    }
}

pub open spec fn glyph_text(set: GlyphSet, g: Glyph) -> Seq<char> {
    match (set, g) {
        (GlyphSet::Unicode, Glyph::Deny) => "\u{2717}"@,
        (GlyphSet::Unicode, Glyph::Pass) => "\u{2713}"@,
        (GlyphSet::Unicode, Glyph::Arrow) => "\u{2192}"@,
        (GlyphSet::Ascii, Glyph::Deny) => "x"@,
        (GlyphSet::Ascii, Glyph::Pass) => "ok"@,
        (GlyphSet::Ascii, Glyph::Arrow) => "->"@,
    }
}

pub open spec fn banner_line(line: Seq<char>) -> Seq<char> {
    "whycant: "@ + line
}

impl TermCtx {
    /// Whether output to the stream is colored.
    pub fn colored(&self, _s: Stream) -> (r: bool)
        ensures
            r == (self.color != ColorDepth::NoColor),
    {
        self.color != ColorDepth::NoColor
    }

    pub fn glyph(&self, g: Glyph) -> (r: &'static str)
        ensures
            r@ == glyph_text(self.glyphs, g),
    {
        match (self.glyphs, g) {
            (GlyphSet::Unicode, Glyph::Deny) => "\u{2717}",
            (GlyphSet::Unicode, Glyph::Pass) => "\u{2713}",
            (GlyphSet::Unicode, Glyph::Arrow) => "\u{2192}",
            (GlyphSet::Ascii, Glyph::Deny) => "x",
            (GlyphSet::Ascii, Glyph::Pass) => "ok",
            (GlyphSet::Ascii, Glyph::Arrow) => "->",
        }
    }

    /// A plain RGB foreground.
    pub fn style_rgb(&self, r: u8, g: u8, b: u8) -> (s: Style)
        ensures
            s == (Style { r, g, b, bold: false }),
    {
        Style { r, g, b, bold: false }
    }

    /// The text shown for a path; links are not emitted, so it is the text.
    pub fn hyperlink(&self, _abspath: &str, text: &str) -> (r: String)
        ensures
            r@ == text@,
    {
        lit(text)
    }

    /// A path as displayed; it is shown whole.
    pub fn truncate_path(&self, p: &str, _max: usize) -> (r: String)
        ensures
            r@ == p@,
    {
        lit(p)
    }

    /// The banner line written to standard error.
    pub fn banner(&self, line: &str) -> (r: String)
        ensures
            r@ == banner_line(line@),
    {
        let mut s = lit("whycant: ");
        append_str(&mut s, line);
        s
    }
}

// ---------------------------------------------------------------------
// Deciding the terminal
// ---------------------------------------------------------------------

/// What the environment says about the terminal: whether standard output
/// is a terminal, the `NO_COLOR` and `CLICOLOR_FORCE` conventions, the
/// `TERM`, `COLORTERM`, `LC_ALL`, `LC_CTYPE`, `LANG` and `COLUMNS` values
/// (each when set as unicode), and the terminal's width when it reports one.
pub struct TermEnv {
    pub stdout_tty: bool,
    pub no_color: bool,
    pub clicolor_force: bool,
    pub term: Option<String>,
    pub colorterm: Option<String>,
    pub lc_all: Option<String>,
    pub lc_ctype: Option<String>,
    pub lang: Option<String>,
    pub columns: Option<String>,
    pub terminal_width: Option<u16>,
}

/// Whether color is on: never, always, or — for auto — off under `NO_COLOR`,
/// on under `CLICOLOR_FORCE`, else when output is a terminal.
pub open spec fn color_on(mode: ColorMode, tty: bool, no_color: bool, force: bool) -> bool {
    match mode {
        ColorMode::Never => false,
        ColorMode::Always => true,
        ColorMode::Auto => !no_color && (force || tty),
    }
}

pub fn resolve_on(mode: ColorMode, tty: bool, no_color: bool, force: bool) -> (r: bool)
    ensures
        r == color_on(mode, tty, no_color, force),
{
    match mode {
        ColorMode::Never => false,
        ColorMode::Always => true,
        ColorMode::Auto => {
            if no_color {
                return false;
            }
            if force {
                return true;
            }
            tty
        },
    }
}

pub open spec fn is_dumb_spec(term: Option<String>) -> bool {
    match term {
        Some(t) => t@ == "dumb"@,
        None => false,
    }
}

fn is_dumb(term: &Option<String>) -> (r: bool)
    ensures
        r == is_dumb_spec(*term),
{
    match term {
        Some(t) => *t == lit("dumb"),
        None => false,
    }
}

pub open spec fn c_locale_value(v: Option<String>) -> bool {
    match v {
        Some(s) => s@.len() == 0 || s@ == "C"@ || s@ == "POSIX"@,
        None => false,
    }
}

fn is_c_locale_value(v: &Option<String>) -> (r: bool)
    ensures
        r == c_locale_value(*v),
{
    match v {
        Some(s) => s.as_str().is_empty() || *s == lit("C") || *s == lit("POSIX"),
        None => false,
    }
}

pub open spec fn text_or_empty(v: Option<String>) -> Seq<char> {
    match v {
        Some(s) => s@,
        None => seq![],
    }
}

/// The color depth of a terminal that takes color: none on a dumb
/// terminal, 24-bit when `COLORTERM` says `truecolor` or `24bit`, 256
/// colors when `TERM` mentions `256color`, else 16.
pub open spec fn depth_spec(env: TermEnv) -> ColorDepth {
    if is_dumb_spec(env.term) {
        ColorDepth::NoColor
    } else if has_infix(text_or_empty(env.colorterm), "truecolor"@) || has_infix(
        text_or_empty(env.colorterm),
        "24bit"@,
    ) {
        ColorDepth::TrueColor
    } else if has_infix(text_or_empty(env.term), "256color"@) {
        ColorDepth::Ansi256
    } else {
        ColorDepth::Ansi16
    }
}

fn detect_depth(env: &TermEnv) -> (r: ColorDepth)
    ensures
        r == depth_spec(*env),
{
    if is_dumb(&env.term) {
        return ColorDepth::NoColor;
    }
    let colorterm = match &env.colorterm {
        Some(s) => s.clone(),
        None => String::new(),
    };
    if contains_str(colorterm.as_str(), "truecolor") || contains_str(colorterm.as_str(), "24bit") {
        return ColorDepth::TrueColor;
    }
    let term = match &env.term {
        Some(s) => s.clone(),
        None => String::new(),
    };
    if contains_str(term.as_str(), "256color") {
        ColorDepth::Ansi256
    } else {
        ColorDepth::Ansi16
    }
}

/// The width: the terminal's own, else `COLUMNS` when it parses, else 80.
pub open spec fn width_spec(env: TermEnv) -> nat {
    match env.terminal_width {
        Some(w) => w as nat,
        None => match env.columns {
            Some(c) => match parse_radix(c@, 10, usize::MAX as nat) {
                Some(v) => v,
                None => 80,
            },
            None => 80,
        },
    }
}

fn detect_width(env: &TermEnv) -> (r: usize)
    ensures
        r as nat == width_spec(*env),
{
    match env.terminal_width {
        Some(w) => w as usize,
        None => match &env.columns {
            Some(c) => {
                let cs = chars_of(c.as_str());
                match parse_unsigned(cs.as_slice(), 10, usize::MAX as u64) {
                    Some(v) => v as usize,
                    None => 80,
                }
            },
            None => 80,
        },
    }
}

/// The terminal the renderers target: color when [`color_on`] and the
/// depth allows it, ASCII glyphs when asked for or on a dumb terminal or a
/// C locale, no links, and the detected width.
pub open spec fn detect_spec(color: ColorMode, ascii: bool, env: TermEnv) -> TermCtx {
    TermCtx {
        color: if color_on(color, env.stdout_tty, env.no_color, env.clicolor_force) {
            depth_spec(env)
        } else {
            ColorDepth::NoColor
        },
        glyphs: if ascii || is_dumb_spec(env.term) || c_locale_value(env.lc_all) || c_locale_value(
            env.lc_ctype,
        ) || c_locale_value(env.lang) {
            GlyphSet::Ascii
        } else {
            GlyphSet::Unicode
        },
        hyperlinks: false,
        width: width_spec(env) as usize,
    }
}

impl TermCtx {
    /// Decides the terminal from the color mode, the ASCII flag and what the
    /// environment reports.
    pub fn detect(color: ColorMode, ascii: bool, env: &TermEnv) -> (r: TermCtx)
        ensures
            r == detect_spec(color, ascii, *env),
    {
        let depth = if resolve_on(color, env.stdout_tty, env.no_color, env.clicolor_force) {
            detect_depth(env)
        } else {
            ColorDepth::NoColor
        };
        let glyphs = if ascii || is_dumb(&env.term) || is_c_locale_value(&env.lc_all)
            || is_c_locale_value(&env.lc_ctype) || is_c_locale_value(&env.lang) {
            GlyphSet::Ascii
        } else {
            GlyphSet::Unicode
        };
        TermCtx { color: depth, glyphs, hyperlinks: false, width: detect_width(env) }
    }
}

} // verus!
