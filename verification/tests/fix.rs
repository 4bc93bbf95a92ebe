use whycant::cli::{follow_up, Action, FollowUp};
use whycant::fix::{
    auto_apply, command_argv, execute, menu_step, ordered, shell_quote, ApplyPlan, MenuChoice,
    MenuStep,
};
use whycant::report::{
    Certainty, Fix, FixAction, IdentityReport, Report, Risk, RunningAs, Verdict,
};
use whycant::op::Op;

fn run_fix(desc: &str, needs_root: bool, risk: Risk) -> Fix {
    Fix {
        action: FixAction::Run {
            argv: vec!["chmod".into(), "o+x".into(), "/p".into()],
        },
        needs_root,
        description: desc.into(),
        risk,
        rationale: String::new(),
    }
}

fn advice_fix() -> Fix {
    Fix {
        action: FixAction::Advice {
            text: "confirm from the audit log".into(),
        },
        needs_root: true,
        description: "manual".into(),
        risk: Risk::High,
        rationale: String::new(),
    }
}

fn advice_fix_low() -> Fix {
    Fix {
        action: FixAction::Advice {
            text: "run it from an exec-mounted filesystem".into(),
        },
        needs_root: false,
        description: "relocate".into(),
        risk: Risk::Low,
        rationale: String::new(),
    }
}

#[test]
fn ordering_is_least_privilege_first_and_stable() {
    let fixes = vec![
        run_fix("A", false, Risk::Medium),
        run_fix("B", false, Risk::Low),
        run_fix("C", true, Risk::Low),
        run_fix("D", false, Risk::Low),
    ];
    let got: Vec<String> = ordered(&fixes)
        .iter()
        .map(|f| f.description.clone())
        .collect();
    assert_eq!(got, ["B", "D", "A", "C"]);
}

#[test]
fn sudo_elevation_builds_argv_with_no_shell() {
    let argv = vec!["chmod".to_string(), "o+x".into(), "/p".into()];
    assert_eq!(
        command_argv(&argv, true, false),
        ["sudo", "chmod", "o+x", "/p"]
    );
    assert_eq!(command_argv(&argv, true, true), ["chmod", "o+x", "/p"]);
    assert_eq!(command_argv(&argv, false, false), ["chmod", "o+x", "/p"]);
}

#[test]
fn advice_top_fix_blocks_auto_apply_escalation() {
    assert!(execute(&advice_fix(), false).is_none());
    let advice_over_run = vec![run_fix("remount", true, Risk::High), advice_fix_low()];
    let top = ordered(&advice_over_run).into_iter().next().unwrap();
    assert!(!top.is_run(), "safe advice outranks the high-risk sudo fix");
}

#[test]
fn display_quotes_and_elevates() {
    assert_eq!(run_fix("x", true, Risk::Low).display(), "sudo chmod 'o+x' /p");
    assert_eq!(run_fix("x", false, Risk::Low).display(), "chmod 'o+x' /p");
    assert_eq!(advice_fix().display(), "confirm from the audit log");
    assert_eq!(shell_quote("it's"), "'it'\\''s'");
    assert_eq!(shell_quote("/srv/a-b_c.d:e=f,g"), "/srv/a-b_c.d:e=f,g");
}

fn report_with(fixes: Vec<Fix>) -> Report {
    Report {
        schema_version: 1,
        tool: "whycant".into(),
        identity: IdentityReport {
            target_uid: 1000,
            target_user: Some("alice".into()),
            primary_gid: 1000,
            groups: vec![1000],
            group_names: vec!["alice".into()],
            running_as: RunningAs::User,
            privilege_note: String::new(),
            target_is_self: true,
        },
        op: Op::Read,
        path: "/p".into(),
        resolved_path: None,
        verdict: Verdict::Blocked,
        certainty: Certainty::Proven,
        culprit: None,
        blocking_layer: None,
        evidence_chain: vec![],
        layer_results: vec![],
        fixes,
        cross_check: None,
        warnings: vec![],
    }
}

#[test]
fn auto_apply_runs_only_a_command_on_top() {
    assert!(matches!(auto_apply(&report_with(vec![]), false), ApplyPlan::NoFix));
    let advice_first = report_with(vec![run_fix("remount", true, Risk::High), advice_fix_low()]);
    assert!(matches!(auto_apply(&advice_first, false), ApplyPlan::AdviceOnly));
    let run_first = report_with(vec![run_fix("grant", true, Risk::Low)]);
    match auto_apply(&run_first, false) {
        ApplyPlan::Run { shown, argv } => {
            assert_eq!(shown, "sudo chmod 'o+x' /p");
            assert_eq!(argv, ["sudo", "chmod", "o+x", "/p"]);
        }
        _ => panic!("expected a command to run"),
    }
}

#[test]
fn menu_runs_commands_and_prints_advice() {
    let order = vec![run_fix("grant", false, Risk::Low), advice_fix_low()];
    assert_eq!(menu_step(&order, MenuChoice::Fix(0)), MenuStep::Run(0));
    assert_eq!(menu_step(&order, MenuChoice::Fix(1)), MenuStep::Advise(1));
    assert_eq!(menu_step(&order, MenuChoice::Fix(2)), MenuStep::Stop);
    assert_eq!(menu_step(&order, MenuChoice::Cancel), MenuStep::Stop);
    assert_eq!(menu_step(&order, MenuChoice::Explain), MenuStep::Explain);
    assert!(MenuStep::Copy.continues());
    assert!(MenuStep::ShowAll.continues());
    assert!(!MenuStep::Run(0).continues());
    assert!(!MenuStep::Advise(1).continues());
    assert!(!MenuStep::Stop.continues());
}

#[test]
fn prompt_follows_only_a_blocked_report_with_fixes() {
    let with = report_with(vec![run_fix("grant", false, Risk::Low)]);
    assert_eq!(follow_up(Action::Prompt, &with), FollowUp::Prompt);
    assert_eq!(follow_up(Action::PrintOnly, &with), FollowUp::Nothing);
    assert_eq!(follow_up(Action::ApplyFirst, &with), FollowUp::ApplyFirst);
    let without = report_with(vec![]);
    assert_eq!(follow_up(Action::Prompt, &without), FollowUp::Nothing);
    let mut allowed = report_with(vec![run_fix("grant", false, Risk::Low)]);
    allowed.verdict = Verdict::Allowed;
    assert_eq!(follow_up(Action::Prompt, &allowed), FollowUp::Nothing);
}
