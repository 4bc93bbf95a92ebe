use whycant::cli::{Action, CiEnv, Cli, CliError, ColorMode, Format};
use whycant::config::{Settings, Tristate};
use whycant::op::Op;

fn cli(op: Option<&str>, path: Option<&str>) -> Cli {
    Cli {
        op: op.map(String::from),
        path: path.map(String::from),
        cmd: Vec::new(),
        user: None,
        trace: false,
        interactive: false,
        no_interactive: false,
        all: false,
        quiet: false,
        json: false,
        toml: false,
        format: None,
        color: ColorMode::Auto,
        ascii: false,
        apply: false,
        yes: false,
    }
}

fn read_p() -> Cli {
    cli(Some("read"), Some("/p"))
}

fn no_env() -> CiEnv {
    CiEnv {
        ci: None,
        github_actions: None,
        gitlab_ci: None,
        clicolor_force: None,
        force_color: None,
    }
}

fn settings() -> Settings {
    Settings::default()
}

#[test]
fn flag_beats_config_format() {
    let mut cfg = settings();
    cfg.format = Some(Format::Toml);
    let mut c = read_p();
    c.json = true;
    assert!(matches!(c.resolve(&cfg, &no_env()).format, Format::Json));
}

#[test]
fn config_format_used_without_flag() {
    let mut cfg = settings();
    cfg.format = Some(Format::Toml);
    assert!(matches!(read_p().resolve(&cfg, &no_env()).format, Format::Toml));
}

#[test]
fn flag_beats_config_color() {
    let mut cfg = settings();
    cfg.color = Some(ColorMode::Never);
    let mut c = read_p();
    c.color = ColorMode::Always;
    let r = c.resolve(&cfg, &no_env());
    assert!(matches!(r.color, ColorMode::Always));
}

#[test]
fn config_color_used_when_auto() {
    let mut cfg = settings();
    cfg.color = Some(ColorMode::Never);
    let r = read_p().resolve(&cfg, &no_env());
    assert!(matches!(r.color, ColorMode::Never));
}

#[test]
fn all_from_config_or_flag() {
    let mut cfg = settings();
    cfg.all = Some(true);
    assert!(read_p().resolve(&cfg, &no_env()).all);
    let mut c = read_p();
    c.all = true;
    assert!(c.resolve(&settings(), &no_env()).all);
}

#[test]
fn interactive_precedence() {
    let mut cfg = settings();
    cfg.interactive = Some(Tristate::Off);
    let mut c = read_p();
    c.interactive = true;
    assert_eq!(c.resolve(&cfg, &no_env()).interactive, Some(true));
    cfg.interactive = Some(Tristate::On);
    assert_eq!(read_p().resolve(&cfg, &no_env()).interactive, Some(true));
    cfg.interactive = Some(Tristate::Auto);
    assert_eq!(read_p().resolve(&cfg, &no_env()).interactive, None);
}

#[test]
fn apply_needs_yes_non_interactive() {
    let mut apply = read_p();
    apply.apply = true;
    assert!(apply.action(false).is_err());
    assert!(matches!(apply.action(true), Ok(Action::Prompt)));
    let mut apply_yes = read_p();
    apply_yes.apply = true;
    apply_yes.yes = true;
    assert!(matches!(apply_yes.action(false), Ok(Action::ApplyFirst)));
    assert!(matches!(read_p().action(false), Ok(Action::PrintOnly)));
    assert_eq!(
        apply.action(false).unwrap_err().message(),
        "--apply needs --yes to run non-interactively"
    );
}

#[test]
fn ci_defaults_to_plain_unless_color_is_forced() {
    let mut env = no_env();
    env.github_actions = Some("true".into());
    assert_eq!(read_p().resolve(&settings(), &env).format, Format::Plain);
    env.force_color = Some("1".into());
    assert_eq!(read_p().resolve(&settings(), &env).format, Format::Human);
    env.force_color = Some("false".into());
    assert_eq!(read_p().resolve(&settings(), &env).format, Format::Plain);
    env.github_actions = Some(String::new());
    assert_eq!(read_p().resolve(&settings(), &env).format, Format::Human);
}

#[test]
fn print_fixes_defaults_on() {
    assert!(read_p().resolve(&settings(), &no_env()).print_fixes);
    let mut cfg = settings();
    cfg.print_fixes = Some(false);
    assert!(!read_p().resolve(&cfg, &no_env()).print_fixes);
}

#[test]
fn explicit_read_stays_read() {
    let (op, path) = cli(Some("read"), Some("/etc/hostname")).dispatch(None).unwrap();
    assert_eq!(op, Op::Read);
    assert_eq!(path, "/etc/hostname");
}

#[test]
fn lone_invalid_token_is_path() {
    let (op, path) = cli(Some("not-an-op-zzz"), None).dispatch(None).unwrap();
    assert_eq!(op, Op::Read);
    assert_eq!(path, "not-an-op-zzz");
}

#[test]
fn lone_op_keyword_errors() {
    assert!(cli(Some("read"), None).dispatch(None).is_err());
}

#[test]
fn bare_path_infers_from_its_metadata() {
    let (op, _) = cli(Some("/srv"), None).dispatch(Some((true, 0o40755))).unwrap();
    assert_eq!(op, Op::Traverse);
    let (op, _) = cli(Some("/bin/prog"), None).dispatch(Some((false, 0o100755))).unwrap();
    assert_eq!(op, Op::Exec);
    let (op, _) = cli(Some("/etc/plain"), None).dispatch(Some((false, 0o100644))).unwrap();
    assert_eq!(op, Op::Read);
}

#[test]
fn cd_alias_and_case_fold() {
    let (op, _) = cli(Some("CD"), Some("/srv")).dispatch(None).unwrap();
    assert_eq!(op, Op::Traverse);
    let e = cli(Some("chmod"), Some("/srv")).dispatch(None).unwrap_err();
    assert_eq!(e, CliError::UnknownOp("chmod".into()));
    assert_eq!(e.message(), "unknown op 'chmod'; usage: whycant <op> <path>");
}

#[test]
fn wrapped_command_names_op_and_target() {
    let mut c = cli(None, None);
    c.cmd = vec!["rm".into(), "-rf".into(), "/etc".into()];
    let (op, path) = c.dispatch(None).unwrap();
    assert_eq!(op, Op::Delete);
    assert_eq!(path, "-rf");
    c.cmd = vec!["cat".into()];
    assert_eq!(c.dispatch(None).unwrap_err(), CliError::CannotInfer);
    c.cmd = vec!["/usr/bin/prog".into()];
    assert_eq!(c.dispatch(None).unwrap(), (Op::Exec, "/usr/bin/prog".to_string()));
    assert_eq!(cli(None, None).dispatch(None).unwrap_err(), CliError::Usage);
}

#[test]
fn banner_and_fixes_follow_the_settings() {
    let shown = read_p().resolve(&settings(), &no_env()).presentation();
    assert!(shown.banner);
    let mut c = read_p();
    c.json = true;
    assert!(!c.resolve(&settings(), &no_env()).presentation().banner);
    let mut q = read_p();
    q.quiet = true;
    assert!(!q.resolve(&settings(), &no_env()).presentation().banner);
    let mut cfg = settings();
    cfg.print_fixes = Some(false);
    assert!(!read_p().resolve(&cfg, &no_env()).presentation().keep_fixes);
    assert!(read_p().resolve(&settings(), &no_env()).presentation().keep_fixes);
}
