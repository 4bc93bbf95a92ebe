use whycant::report::{exit_code, Certainty, IdentityReport, Report, RunningAs, Verdict};
use whycant::op::{Op, OpArg};

fn report(verdict: Verdict, certainty: Certainty) -> Report {
    Report {
        schema_version: 1,
        tool: "whycant".into(),
        identity: IdentityReport {
            target_uid: 0,
            target_user: None,
            primary_gid: 0,
            groups: vec![],
            group_names: vec![],
            running_as: RunningAs::Root,
            privilege_note: String::new(),
            target_is_self: true,
        },
        op: Op::Read,
        path: "/".into(),
        resolved_path: None,
        verdict,
        certainty,
        culprit: None,
        blocking_layer: None,
        evidence_chain: vec![],
        layer_results: vec![],
        fixes: vec![],
        cross_check: None,
        warnings: vec![],
    }
}

#[test]
fn exit_codes_follow_the_verdict() {
    assert_eq!(exit_code(&report(Verdict::Allowed, Certainty::Proven)), 0);
    assert_eq!(exit_code(&report(Verdict::Blocked, Certainty::Proven)), 1);
    assert_eq!(exit_code(&report(Verdict::Blocked, Certainty::Suspected)), 2);
    assert_eq!(exit_code(&report(Verdict::Indeterminate, Certainty::Suspected)), 2);
    assert_eq!(exit_code(&report(Verdict::TargetError, Certainty::Indeterminate)), 3);
}

#[test]
fn op_keywords_ignore_case_and_cd_is_traverse() {
    assert_eq!(OpArg::parse_keyword("READ"), Some(OpArg::Read));
    assert_eq!(OpArg::parse_keyword("Cd"), Some(OpArg::Cd));
    assert_eq!(Op::from(OpArg::Cd), Op::Traverse);
    assert_eq!(OpArg::parse_keyword("cdx"), None);
}
