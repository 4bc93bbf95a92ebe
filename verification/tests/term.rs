use whycant::cli::ColorMode;
use whycant::term::{paint, ColorDepth, Glyph, GlyphSet, Stream, TermCtx, TermEnv};
use whycant::text::{contains_str, pad_right_str, trim_end_str};

fn env() -> TermEnv {
    TermEnv {
        stdout_tty: true,
        no_color: false,
        clicolor_force: false,
        term: Some("xterm-256color".into()),
        colorterm: None,
        lc_all: None,
        lc_ctype: None,
        lang: Some("en_US.UTF-8".into()),
        columns: None,
        terminal_width: None,
    }
}

#[test]
fn detect_reads_the_environment() {
    let t = TermCtx::detect(ColorMode::Auto, false, &env());
    assert_eq!(t.color, ColorDepth::Ansi256);
    assert_eq!(t.glyphs, GlyphSet::Unicode);
    assert_eq!(t.width, 80);
    assert!(!t.hyperlinks);
    let mut e = env();
    e.colorterm = Some("truecolor".into());
    e.terminal_width = Some(132);
    let t = TermCtx::detect(ColorMode::Auto, false, &e);
    assert_eq!(t.color, ColorDepth::TrueColor);
    assert_eq!(t.width, 132);
}

#[test]
fn color_modes_and_conventions() {
    let mut e = env();
    e.stdout_tty = false;
    assert_eq!(TermCtx::detect(ColorMode::Auto, false, &e).color, ColorDepth::NoColor);
    assert_eq!(TermCtx::detect(ColorMode::Always, false, &e).color, ColorDepth::Ansi256);
    e.clicolor_force = true;
    assert_eq!(TermCtx::detect(ColorMode::Auto, false, &e).color, ColorDepth::Ansi256);
    e.no_color = true;
    assert_eq!(TermCtx::detect(ColorMode::Auto, false, &e).color, ColorDepth::NoColor);
    assert_eq!(TermCtx::detect(ColorMode::Never, false, &env()).color, ColorDepth::NoColor);
}

#[test]
fn dumb_terminal_and_c_locale_use_ascii() {
    let mut e = env();
    e.term = Some("dumb".into());
    let t = TermCtx::detect(ColorMode::Always, false, &e);
    assert_eq!(t.color, ColorDepth::NoColor);
    assert_eq!(t.glyphs, GlyphSet::Ascii);
    let mut e = env();
    e.lc_all = Some("C".into());
    assert_eq!(TermCtx::detect(ColorMode::Auto, false, &e).glyphs, GlyphSet::Ascii);
    assert_eq!(TermCtx::detect(ColorMode::Auto, true, &env()).glyphs, GlyphSet::Ascii);
    let mut e = env();
    e.columns = Some("100".into());
    assert_eq!(TermCtx::detect(ColorMode::Auto, false, &e).width, 100);
    e.columns = Some("wide".into());
    assert_eq!(TermCtx::detect(ColorMode::Auto, false, &e).width, 80);
}

#[test]
fn glyphs_and_banner() {
    let t = TermCtx::detect(ColorMode::Never, true, &env());
    assert_eq!(t.glyph(Glyph::Deny), "x");
    assert_eq!(t.glyph(Glyph::Pass), "ok");
    assert_eq!(t.glyph(Glyph::Arrow), "->");
    assert!(!t.colored(Stream::Out));
    assert_eq!(t.banner("running as alice"), "whycant: running as alice");
    let u = TermCtx::detect(ColorMode::Never, false, &env());
    assert_eq!(u.glyph(Glyph::Arrow), "\u{2192}");
}

#[test]
fn paint_emits_the_style_escape_codes() {
    let t = TermCtx::detect(ColorMode::Always, false, &env());
    let s = t.style_rgb(1, 22, 255);
    assert_eq!(paint(&t, s, "hi"), "\u{1b}[38;2;1;22;255mhi\u{1b}[0m");
    assert_eq!(paint(&t, s.bold(), "hi"), "\u{1b}[1m\u{1b}[38;2;1;22;255mhi\u{1b}[0m");
    let plain = TermCtx::detect(ColorMode::Never, false, &env());
    assert_eq!(paint(&plain, s, "hi"), "hi");
}

#[test]
fn text_helpers() {
    assert!(contains_str("xterm-256color", "256color"));
    assert!(!contains_str("xterm", "256color"));
    assert!(contains_str("abc", ""));
    assert_eq!(pad_right_str("ab", 4), "ab  ");
    assert_eq!(pad_right_str("abcde", 4), "abcde");
    assert_eq!(trim_end_str("  a b \t "), "  a b");
}
