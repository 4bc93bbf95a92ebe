//! The command line as the library reads it: options, their precedence over
//! settings, what happens after the report, and which op and path a command
//! line names.

use vstd::prelude::*;
use crate::config::{Settings, Tristate};
use crate::op::{bare_op, cmd_target, infer_bare, infer_cmd, op_of_arg, Op, OpArg};
use crate::report::{Report, Verdict};
use crate::text::{append_str, lit, views};

verus! {

/// When to color output.
#[derive(Clone, Copy, PartialEq, Eq, Debug, Structural)]
pub enum ColorMode {
    Auto,
    Always,
    Never,
}

/// How the report is written.
#[derive(Clone, Copy, PartialEq, Eq, Debug, Structural)]
pub enum Format {
    Human,
    Json,
    Toml,
    Plain,
}

/// The parsed command line. `op` is the first positional token as typed: an
/// op keyword, or the path itself when it stands alone.
pub struct Cli {
    pub op: Option<String>,
    pub path: Option<String>,
    pub cmd: Vec<String>,
    pub user: Option<String>,
    pub trace: bool,
    pub interactive: bool,
    pub no_interactive: bool,
    pub all: bool,
    pub quiet: bool,
    pub json: bool,
    pub toml: bool,
    pub format: Option<Format>,
    pub color: ColorMode,
    pub ascii: bool,
    pub apply: bool,
    pub yes: bool,
}

/// The environment variables that decide the default format: `CI`,
/// `GITHUB_ACTIONS` and `GITLAB_CI` as set (present and non-empty counts),
/// `CLICOLOR_FORCE` and `FORCE_COLOR` as unicode values.
pub struct CiEnv {
    pub ci: Option<String>,
    pub github_actions: Option<String>,
    pub gitlab_ci: Option<String>,
    pub clicolor_force: Option<String>,
    pub force_color: Option<String>,
}

/// Options after settings are applied.
#[derive(Clone, Copy, PartialEq, Eq, Debug, Structural)]
pub struct Resolved {
    pub color: ColorMode,
    pub format: Format,
    pub ascii: bool,
    pub all: bool,
    pub quiet: bool,
    pub print_fixes: bool,
    pub interactive: Option<bool>,
}

/// What to do once the report is written.
#[derive(Clone, Copy, PartialEq, Eq, Debug, Structural)]
pub enum Action {
    Prompt,
    PrintOnly,
    ApplyFirst,
}

/// How the written report is framed: whether it keeps its fixes and
/// whether the identity banner goes to standard error.
#[derive(Clone, Copy, PartialEq, Eq, Debug, Structural)]
pub struct Presentation {
    pub keep_fixes: bool,
    pub banner: bool,
}

/// Fixes are kept only when printing them is on; the banner is shown for
/// the human and plain formats unless quiet.
pub open spec fn presentation_spec(r: Resolved) -> Presentation {
    Presentation {
        keep_fixes: r.print_fixes,
        banner: !(r.format == Format::Json || r.format == Format::Toml) && !r.quiet,
    }
}

/// What follows the written report.
#[derive(Clone, Copy, PartialEq, Eq, Debug, Structural)]
pub enum FollowUp {
    Nothing,
    /// Apply the top fix without asking.
    ApplyFirst,
    /// Offer the fixes in a menu.
    Prompt,
}

/// Applying goes ahead whenever asked for; the menu is offered only for a
/// blocked report that still carries fixes.
pub open spec fn follow_up_spec(a: Action, v: Verdict, has_fixes: bool) -> FollowUp {
    match a {
        Action::PrintOnly => FollowUp::Nothing,
        Action::ApplyFirst => FollowUp::ApplyFirst,
        Action::Prompt => if v == Verdict::Blocked && has_fixes {
            FollowUp::Prompt
        } else {
            FollowUp::Nothing
        },
    }
}

/// The follow-up for action `a` on the report as written (after any fixes
/// were dropped).
pub fn follow_up(a: Action, report: &Report) -> (r: FollowUp)
    ensures
        r == follow_up_spec(a, report.verdict, report.fixes@.len() > 0),
{
    match a {
        Action::PrintOnly => FollowUp::Nothing,
        Action::ApplyFirst => FollowUp::ApplyFirst,
        Action::Prompt => {
            if report.verdict == Verdict::Blocked && report.fixes.len() > 0 {
                FollowUp::Prompt
            } else {
                FollowUp::Nothing
            }
        },
    }
}

impl Resolved {
    pub fn presentation(&self) -> (r: Presentation)
        ensures
            r == presentation_spec(*self),
    {
        Presentation {
            keep_fixes: self.print_fixes,
            banner: !(self.format == Format::Json || self.format == Format::Toml) && !self.quiet,
        }
    }
}

pub open spec fn present_spec(v: Option<String>) -> bool {
    match v {
        Some(s) => s@.len() > 0,
        None => false,
    }
}

pub open spec fn truthy_spec(v: Option<String>) -> bool {
    match v {
        Some(s) => s@.len() > 0 && s@ != "0"@ && s@ != "false"@,
        None => false,
    }
}

/// A variable counts as set when present and non-empty.
pub fn env_present(v: &Option<String>) -> (r: bool)
    ensures
        r == present_spec(*v),
{
    match v {
        Some(s) => !s.as_str().is_empty(),
        None => false,
    }
}

/// A variable is truthy when non-empty and neither `0` nor `false`.
pub fn env_truthy(v: &Option<String>) -> (r: bool)
    ensures
        r == truthy_spec(*v),
{
    match v {
        Some(s) => !s.as_str().is_empty() && *s != lit("0") && *s != lit("false"),
        None => false,
    }
}

pub open spec fn is_ci_spec(env: CiEnv) -> bool {
    present_spec(env.ci) || present_spec(env.github_actions) || present_spec(env.gitlab_ci)
}

pub open spec fn force_color_spec(env: CiEnv) -> bool {
    truthy_spec(env.clicolor_force) || truthy_spec(env.force_color)
}

/// Whether a CI system is running the tool.
pub fn is_ci(env: &CiEnv) -> (r: bool)
    ensures
        r == is_ci_spec(*env),
{
    env_present(&env.ci) || env_present(&env.github_actions) || env_present(&env.gitlab_ci)
}

/// Whether color is forced on.
pub fn force_color(env: &CiEnv) -> (r: bool)
    ensures
        r == force_color_spec(*env),
{
    env_truthy(&env.clicolor_force) || env_truthy(&env.force_color)
}

/// Flags first, then settings, then the defaults: `--json`, `--toml` and
/// `--format` over the configured format, plain under CI unless color is
/// forced, human otherwise; an explicit `--color` over the configured
/// color; `-i`/`-I` over the configured tristate; ascii and all when either
/// asks; fixes printed unless configured off.
pub open spec fn resolve_spec(cli: Cli, cfg: Settings, env: CiEnv) -> Resolved {
    let explicit = if cli.json {
        Some(Format::Json)
    } else if cli.toml {
        Some(Format::Toml)
    } else {
        cli.format
    };
    Resolved {
        color: match cli.color {
            ColorMode::Auto => match cfg.color {
                Some(c) => c,
                None => ColorMode::Auto,
            },
            c => c,
        },
        format: match explicit {
            Some(f) => f,
            None => match cfg.format {
                Some(f) => f,
                None => if is_ci_spec(env) && !force_color_spec(env) {
                    Format::Plain
                } else {
                    Format::Human
                },
            },
        },
        ascii: cli.ascii || cfg.ascii == Some(true),
        all: cli.all || cfg.all == Some(true),
        quiet: cli.quiet,
        print_fixes: cfg.print_fixes != Some(false),
        interactive: if cli.interactive {
            Some(true)
        } else if cli.no_interactive {
            Some(false)
        } else {
            match cfg.interactive {
                Some(Tristate::On) => Some(true),
                Some(Tristate::Off) => Some(false),
                _ => None,
            }
        },
    }
}

/// Why a run refuses to start.
#[derive(PartialEq, Eq, Debug)]
pub enum CliError {
    /// `--apply` without a prompt needs `--yes`.
    ApplyNeedsYes,
    /// A wrapped command names no op and target.
    CannotInfer,
    /// The op token is not an op keyword.
    UnknownOp(String),
    /// The command line names no op and path.
    Usage,
}

pub open spec fn cli_error_text(e: CliError) -> Seq<char> {
    match e {
        CliError::ApplyNeedsYes => "--apply needs --yes to run non-interactively"@,
        CliError::CannotInfer => "cannot infer op from command"@,
        CliError::UnknownOp(t) => "unknown op '"@ + t@ + "'; usage: whycant <op> <path>"@,
        CliError::Usage => "usage: whycant <op> <path>"@,
    }
}

impl CliError {
    pub fn message(&self) -> (r: String)
        ensures
            r@ == cli_error_text(*self),
    {
        match self {
            CliError::ApplyNeedsYes => lit("--apply needs --yes to run non-interactively"),
            CliError::CannotInfer => lit("cannot infer op from command"),
            CliError::UnknownOp(t) => {
                let mut s = lit("unknown op '");
                append_str(&mut s, t.as_str());
                append_str(&mut s, "'; usage: whycant <op> <path>");
                s
            },
            CliError::Usage => lit("usage: whycant <op> <path>"),
        }
    }
}

/// The op and path a command line names: a wrapped command's inferred op
/// and target; an op keyword and a path; or a lone non-keyword token, which
/// is the path, its op inferred from its `lstat` (`bare`, as `(is_dir,
/// mode)`), read when it could not be looked up.
pub open spec fn dispatch_spec(cli: Cli, bare: Option<(bool, u32)>) -> Result<(Op, Seq<char>), CliError> {
    if cli.cmd@.len() > 0 {
        match cmd_target(views(cli.cmd@)) {
            Some(t) => Ok(t),
            None => Err(CliError::CannotInfer),
        }
    } else {
        match (cli.op, cli.path) {
            (Some(tok), Some(p)) => match OpArg::keyword_spec(tok@) {
                Some(a) => Ok((op_of_arg(a), p@)),
                None => Err(CliError::UnknownOp(tok)),
            },
            (Some(tok), None) => match OpArg::keyword_spec(tok@) {
                Some(_) => Err(CliError::Usage),
                None => Ok(
                    (
                        match bare {
                            Some((d, m)) => bare_op(d, m),
                            None => Op::Read,
                        },
                        tok@,
                    ),
                ),
            },
            _ => Err(CliError::Usage),
        }
    }
}

impl Cli {
    pub fn resolve(&self, cfg: &Settings, env: &CiEnv) -> (r: Resolved)
        ensures
            r == resolve_spec(*self, *cfg, *env),
    {
        let explicit = if self.json {
            Some(Format::Json)
        } else if self.toml {
            Some(Format::Toml)
        } else {
            self.format
        };
        let format = match explicit {
            Some(f) => f,
            None => match cfg.format {
                Some(f) => f,
                None => {
                    if is_ci(env) && !force_color(env) {
                        Format::Plain
                    } else {
                        Format::Human
                    }
                },
            },
        };
        let color = match self.color {
            ColorMode::Auto => match cfg.color {
                Some(c) => c,
                None => ColorMode::Auto,
            },
            c => c,
        };
        let interactive = if self.interactive {
            Some(true)
        } else if self.no_interactive {
            Some(false)
        } else {
            match cfg.interactive {
                Some(Tristate::On) => Some(true),
                Some(Tristate::Off) => Some(false),
                _ => None,
            }
        };
        Resolved {
            color,
            format,
            ascii: self.ascii || cfg.ascii == Some(true),
            all: self.all || cfg.all == Some(true),
            quiet: self.quiet,
            print_fixes: cfg.print_fixes != Some(false),
            interactive,
        }
    }

    /// A prompt when interactive; otherwise apply the first fix only with
    /// `--apply --yes`, refuse `--apply` alone, and just print without it.
    pub fn action(&self, interactive: bool) -> (r: Result<Action, CliError>)
        ensures
            interactive ==> r == Ok::<Action, CliError>(Action::Prompt),
            !interactive && !self.apply ==> r == Ok::<Action, CliError>(Action::PrintOnly),
            !interactive && self.apply && self.yes ==> r == Ok::<Action, CliError>(
                Action::ApplyFirst,
            ),
            !interactive && self.apply && !self.yes ==> r == Err::<Action, CliError>(
                CliError::ApplyNeedsYes,
            ),
    {
        if interactive {
            Ok(Action::Prompt)
        } else if !self.apply {
            Ok(Action::PrintOnly)
        } else if self.yes {
            Ok(Action::ApplyFirst)
        } else {
            Err(CliError::ApplyNeedsYes)
        }
    }

    /// The op and path this command line names; see [`dispatch_spec`].
    pub fn dispatch(&self, bare: Option<(bool, u32)>) -> (r: Result<(Op, String), CliError>)
        ensures
            r matches Ok((op, p)) ==> dispatch_spec(*self, bare) == Ok::<(Op, Seq<char>), CliError>((op, p@)),
            r matches Err(e) ==> dispatch_spec(*self, bare) == Err::<(Op, Seq<char>), CliError>(e),
    {
        if self.cmd.len() > 0 {
            return match infer_cmd(&self.cmd) {
                Some(t) => Ok(t),
                None => Err(CliError::CannotInfer),
            };
        }
        match (&self.op, &self.path) {
            (Some(tok), Some(p)) => match OpArg::parse_keyword(tok.as_str()) {
                Some(a) => Ok((Op::from(a), p.clone())),
                None => Err(CliError::UnknownOp(tok.clone())),
            },
            (Some(tok), None) => match OpArg::parse_keyword(tok.as_str()) {
                Some(_) => Err(CliError::Usage),
                None => {
                    let op = match bare {
                        Some((d, m)) => infer_bare(d, m),
                        None => Op::Read,
                    };
                    Ok((op, tok.clone()))
                },
            },
            _ => Err(CliError::Usage),
        }
    }
}

/// An explicit flag beats any setting: a format flag decides the format,
/// an explicit color the color, and `-i` or `-I` the interactive choice,
/// whatever the settings and environment say.
pub proof fn flags_beat_settings_law(cli: Cli, cfg: Settings, env: CiEnv)
    ensures
        cli.json ==> resolve_spec(cli, cfg, env).format == Format::Json,
        !cli.json && cli.toml ==> resolve_spec(cli, cfg, env).format == Format::Toml,
        !cli.json && !cli.toml && cli.format is Some ==> resolve_spec(cli, cfg, env).format
            == cli.format->0,
        cli.color != ColorMode::Auto ==> resolve_spec(cli, cfg, env).color == cli.color,
        cli.interactive ==> resolve_spec(cli, cfg, env).interactive == Some(true),
        !cli.interactive && cli.no_interactive ==> resolve_spec(cli, cfg, env).interactive == Some(
            false,
        ),
{
}

} // verus!
