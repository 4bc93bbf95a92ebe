use whycant::access_check::{KernelAnswer, KernelCheck};
use whycant::engine::{default_chain, run, Layer, LayerResult, LayerStatus};
use whycant::facts::{
    ContainerProbe, ErrKind, Facts, IoFailure, MountFlags, MountProbe, NodeMeta, Probe,
};
use whycant::identity::Identity;
use whycant::layers::StdLayer;
use whycant::op::Op;
use whycant::report::{
    exit_code, Certainty, IdentityReport, LayerId, Report, RunningAs, Verdict,
};

enum Kind {
    Pass,
    ProvenBlock,
    Suspect,
    Error,
}

struct Mock(LayerId, u8, Kind);

impl Layer for Mock {
    fn name(&self) -> String {
        "mock".to_string()
    }
    fn order(&self) -> u8 {
        self.1
    }
    fn id(&self) -> LayerId {
        self.0
    }
    fn check(&self, _id: &Identity, _facts: &Facts, _op: Op) -> LayerResult {
        match self.2 {
            Kind::Pass => LayerResult::pass(Vec::new()),
            Kind::ProvenBlock => {
                LayerResult::block(Certainty::Proven, "blk".to_string(), Vec::new(), Vec::new())
            }
            Kind::Suspect => LayerResult::suspect("susp".to_string(), Vec::new(), Vec::new()),
            Kind::Error => LayerResult {
                status: LayerStatus::Error,
                certainty: Certainty::Indeterminate,
                evidence: Vec::new(),
                fixes: Vec::new(),
                detail: "statvfs failed".to_string(),
            },
        }
    }
}

fn ident() -> Identity {
    Identity {
        uid: 4242,
        primary_gid: 4242,
        groups: vec![4242],
        name: Some("t".into()),
        is_self: false,
    }
}

fn meta(mode: u32, uid: u32, is_dir: bool) -> NodeMeta {
    NodeMeta {
        mode,
        uid,
        gid: uid,
        nlink: 1,
        size: 0,
        is_dir,
        is_symlink: false,
        owner_name: None,
        group_name: None,
    }
}

fn identity_report() -> IdentityReport {
    IdentityReport {
        target_uid: 4242,
        target_user: Some("t".into()),
        primary_gid: 4242,
        groups: vec![4242],
        group_names: vec![],
        running_as: RunningAs::User,
        privilege_note: String::new(),
        target_is_self: false,
    }
}

fn facts(path: &str) -> Facts {
    Facts {
        path: path.to_string(),
        lstat: Probe::Found(meta(0o40755, 0, true)),
        link_target: None,
        stat: Probe::Found(meta(0o40755, 0, true)),
        parent: Probe::Found(meta(0o40755, 0, true)),
        ancestors: Some(Vec::new()),
        euid: 4242,
        mount: MountProbe::Read {
            flags: MountFlags { ro: false, noexec: false, nosuid: false, nodev: false },
            mountpoint: "/".to_string(),
            mountinfo: None,
        },
        caps_supported: false,
        effective_caps: None,
        file_caps: None,
        container: ContainerProbe {
            uid_map: None,
            status: String::new(),
            marker: None,
            overflowuid: None,
        },
        identity: identity_report(),
        kernel: None,
        lsm: None,
        acl: None,
        attrs: None,
        parent_attrs: None,
    }
}

fn run_chain(kinds: Vec<(LayerId, u8, Kind)>) -> Report {
    let chain: Vec<Mock> = kinds
        .into_iter()
        .map(|(id, ord, k)| Mock(id, ord, k))
        .collect();
    run(&chain, &ident(), &facts("/"), Op::Read, false)
}

#[test]
fn suspect_alone_is_indeterminate() {
    let rep = run_chain(vec![
        (LayerId::Dac, 3, Kind::Pass),
        (LayerId::Mac, 8, Kind::Suspect),
    ]);
    assert!(matches!(rep.verdict, Verdict::Indeterminate));
    assert!(rep.certainty == Certainty::Suspected);
    assert_eq!(exit_code(&rep), 2);
}

#[test]
fn layer_error_is_indeterminate() {
    let rep = run_chain(vec![
        (LayerId::Dac, 3, Kind::Pass),
        (LayerId::Mount, 6, Kind::Error),
        (LayerId::Capabilities, 7, Kind::Pass),
    ]);
    assert_eq!(rep.verdict, Verdict::Indeterminate);
    assert!(rep.certainty == Certainty::Suspected);
    assert_eq!(rep.culprit, None);
    assert_eq!(exit_code(&rep), 2);
    assert_eq!(rep.warnings, vec!["mock: statvfs failed".to_string()]);
    assert!(matches!(
        rep.layer_results[1].status,
        whycant::report::LayerStatus::Unknown
    ));
}

#[test]
fn proven_block_outranks_layer_error() {
    let rep = run_chain(vec![
        (LayerId::Mount, 6, Kind::Error),
        (LayerId::Capabilities, 7, Kind::ProvenBlock),
    ]);
    assert_eq!(rep.verdict, Verdict::Blocked);
    assert!(rep.certainty == Certainty::Proven);
    assert_eq!(exit_code(&rep), 1);
}

#[test]
fn proven_block_precedes_suspect() {
    let rep = run_chain(vec![
        (LayerId::Mac, 8, Kind::Suspect),
        (LayerId::Dac, 3, Kind::ProvenBlock),
    ]);
    assert!(matches!(rep.verdict, Verdict::Blocked));
    assert!(rep.certainty == Certainty::Proven);
    assert_eq!(rep.blocking_layer, Some(LayerId::Dac));
    assert_eq!(exit_code(&rep), 1);
}

#[test]
fn all_pass_is_allowed() {
    let rep = run_chain(vec![(LayerId::Dac, 3, Kind::Pass)]);
    assert!(matches!(rep.verdict, Verdict::Allowed));
    assert_eq!(exit_code(&rep), 0);
}

#[test]
fn earliest_proven_block_stops_the_walk() {
    let rep = run_chain(vec![
        (LayerId::Traverse, 2, Kind::Pass),
        (LayerId::Dac, 3, Kind::ProvenBlock),
        (LayerId::Mount, 6, Kind::ProvenBlock),
    ]);
    assert_eq!(rep.blocking_layer, Some(LayerId::Dac));
    assert_eq!(rep.layer_results.len(), 2);
    assert_eq!(rep.culprit.as_deref(), Some("blk"));
}

#[test]
fn all_flag_reports_every_layer_with_the_same_verdict() {
    let chain = vec![
        Mock(LayerId::Traverse, 2, Kind::Pass),
        Mock(LayerId::Dac, 3, Kind::ProvenBlock),
        Mock(LayerId::Mount, 6, Kind::ProvenBlock),
    ];
    let some = run(&chain, &ident(), &facts("/"), Op::Read, false);
    let every = run(&chain, &ident(), &facts("/"), Op::Read, true);
    assert_eq!(every.layer_results.len(), 3);
    assert_eq!(some.verdict, every.verdict);
    assert_eq!(some.blocking_layer, every.blocking_layer);
    assert_eq!(some.culprit, every.culprit);
}

#[test]
fn missing_target_is_target_error() {
    let mut f = facts("/srv/data/missing.txt");
    f.lstat = Probe::Failed(IoFailure {
        kind: ErrKind::NotFound,
        text: "No such file or directory (os error 2)".to_string(),
    });
    f.stat = Probe::Failed(IoFailure {
        kind: ErrKind::NotFound,
        text: "No such file or directory (os error 2)".to_string(),
    });
    let rep = run(&default_chain(), &ident(), &f, Op::Read, false);
    assert_eq!(rep.verdict, Verdict::TargetError);
    assert_eq!(rep.blocking_layer, Some(LayerId::Existence));
    assert_eq!(rep.layer_results.len(), 1);
    assert_eq!(exit_code(&rep), 3);
}

#[test]
fn kernel_answers_are_cross_checked_for_self() {
    let mut id = ident();
    id.is_self = true;
    let mut f = facts("/");
    f.kernel = Some(whycant::facts::KernelProbe {
        answer: KernelAnswer { allowed: false, errno: Some(13) },
        rwx: KernelCheck { r: false, w: false, x: true },
    });
    let rep = run(&default_chain(), &id, &f, Op::Traverse, false);
    let cc = rep.cross_check.expect("cross-check present");
    assert!(cc.available);
    assert_eq!(cc.kernel_allows, Some(false));
    assert_eq!(cc.model_allows, rep.verdict == Verdict::Allowed);
}

#[test]
fn chain_names_each_component_by_its_final_name() {
    let mut f = facts("/srv/data/report.txt");
    f.lstat = Probe::Found(meta(0o100644, 0, false));
    f.stat = Probe::Found(meta(0o100644, 0, false));
    f.ancestors = Some(vec![
        whycant::facts::Ancestor { dir: "/".into(), meta: Probe::Found(meta(0o40755, 0, true)) },
        whycant::facts::Ancestor { dir: "/srv".into(), meta: Probe::Found(meta(0o40755, 0, true)) },
        whycant::facts::Ancestor { dir: "/srv/data".into(), meta: Probe::Found(meta(0o40750, 0, true)) },
    ]);
    let rep = run(&default_chain(), &ident(), &f, Op::Read, false);
    assert_eq!(rep.verdict, Verdict::Blocked);
    assert_eq!(rep.blocking_layer, Some(LayerId::Traverse));
    let names: Vec<&str> = rep.evidence_chain.iter().map(|c| c.name.as_str()).collect();
    assert_eq!(names, ["/", "srv", "data", "report.txt"]);
    assert_eq!(rep.evidence_chain[2].note.as_deref(), Some("t lacks traverse"));
    assert_eq!(
        rep.culprit.as_deref(),
        Some("/srv/data not traversable by t; missing others execute bit")
    );
    assert_eq!(rep.fixes[0].display(), "sudo chmod 'o+x' /srv/data");
}

#[test]
fn chain_runs_in_kernel_order() {
    let chain = default_chain();
    let orders: Vec<u8> = chain.iter().map(|l| l.order()).collect();
    assert_eq!(orders, (1..=11).collect::<Vec<u8>>());
    assert_eq!(chain[0].id(), LayerId::Existence);
    assert_eq!(chain[10].name(), "container");
}

#[test]
fn inapplicable_layers_skip_and_caps_only_annotate() {
    let f = facts("/");
    for l in [StdLayer::Acl, StdLayer::Attrs, StdLayer::Mac, StdLayer::Macos, StdLayer::Netfs, StdLayer::Caps] {
        for op in [Op::Read, Op::Write, Op::Exec, Op::Traverse, Op::Delete, Op::Create] {
            let r = l.check(&ident(), &f, op);
            assert_eq!(r.status, LayerStatus::Skip);
        }
    }
}

#[test]
fn root_traverses_every_directory() {
    let mut f = facts("/srv/locked/file");
    f.ancestors = Some(vec![
        whycant::facts::Ancestor { dir: "/".into(), meta: Probe::Found(meta(0o40700, 5, true)) },
        whycant::facts::Ancestor { dir: "/srv".into(), meta: Probe::Found(meta(0o40000, 5, true)) },
        whycant::facts::Ancestor { dir: "/srv/locked".into(), meta: Probe::Found(meta(0o40000, 5, true)) },
    ]);
    let root = Identity { uid: 0, primary_gid: 0, groups: vec![0], name: None, is_self: false };
    let r = StdLayer::Traverse.check(&root, &f, Op::Read);
    assert_eq!(r.status, LayerStatus::Pass);
    assert_eq!(r.evidence.len(), 3);
}
