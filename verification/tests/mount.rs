use rustix::fs::{statvfs, StatVfsMountFlags};
use whycant::engine::{Layer, LayerStatus};
use whycant::facts::{ContainerProbe, Facts, MountFlags, MountProbe, NodeMeta, Probe};
use whycant::identity::Identity;
use whycant::layers::netfs::NetfsLayer;
use whycant::layers::mount::{
    enrich_linux, evaluate, mount_climb, mount_subject, unescape, MountInfo, MountLayer,
};
use whycant::op::Op;
use whycant::report::{Certainty, EvidenceSource, FixAction, IdentityReport, Risk, RunningAs};

fn mi(ro: bool, noexec: bool) -> MountInfo {
    MountInfo {
        ro,
        noexec,
        nosuid: false,
        nodev: false,
        mountpoint: "/mnt".into(),
        source: Some("/dev/sdz".into()),
        fstype: Some("ext4".into()),
        options: None,
    }
}

fn ident() -> Identity {
    Identity {
        uid: 0,
        primary_gid: 0,
        groups: Vec::new(),
        name: None,
        is_self: false,
    }
}

#[test]
fn ro_blocks_mutating_ops() {
    for op in [Op::Write, Op::Delete, Op::Create] {
        let r = evaluate(&mi(true, false), "/mnt/f", op);
        assert!(matches!(r.status, LayerStatus::Block));
        assert!(matches!(r.certainty, Certainty::Proven));
        assert_eq!(r.fixes.len(), 1);
        assert!(r.fixes[0].needs_root);
        assert!(matches!(r.fixes[0].risk, Risk::High));
    }
}

#[test]
fn ro_leaves_read_and_exec_alone() {
    for op in [Op::Read, Op::Exec, Op::Traverse] {
        let r = evaluate(&mi(true, false), "/mnt/f", op);
        assert!(matches!(r.status, LayerStatus::Skip));
    }
}

#[test]
fn noexec_blocks_exec_only() {
    let blk = evaluate(&mi(false, true), "/mnt/x", Op::Exec);
    assert!(matches!(blk.status, LayerStatus::Block));
    assert_eq!(blk.fixes.len(), 2);
    assert!(matches!(blk.fixes[0].action, FixAction::Advice { .. }));
    assert!(matches!(blk.fixes[0].risk, Risk::Low));
    assert!(!blk.fixes[0].needs_root);
    assert!(matches!(blk.fixes[1].action, FixAction::Run { .. }));
    assert!(matches!(blk.fixes[1].risk, Risk::High));
    for op in [Op::Read, Op::Write, Op::Create, Op::Delete, Op::Traverse] {
        let r = evaluate(&mi(false, true), "/mnt/x", op);
        assert!(matches!(r.status, LayerStatus::Skip));
    }
}

#[test]
fn clean_mount_skips_everything() {
    for op in [
        Op::Read,
        Op::Write,
        Op::Exec,
        Op::Delete,
        Op::Create,
        Op::Traverse,
    ] {
        let r = evaluate(&mi(false, false), "/mnt/f", op);
        assert!(matches!(r.status, LayerStatus::Skip));
    }
}

fn root_facts() -> Facts {
    let flags = statvfs("/").expect("statvfs of /").f_flag;
    let dir = || NodeMeta {
        mode: 0o40755,
        uid: 0,
        gid: 0,
        nlink: 2,
        size: 4096,
        is_dir: true,
        is_symlink: false,
        owner_name: None,
        group_name: None,
    };
    Facts {
        path: "/".to_string(),
        lstat: Probe::Found(dir()),
        link_target: None,
        stat: Probe::Found(dir()),
        parent: Probe::Found(dir()),
        ancestors: None,
        euid: 0,
        mount: MountProbe::Read {
            flags: MountFlags {
                ro: flags.contains(StatVfsMountFlags::RDONLY),
                noexec: flags.contains(StatVfsMountFlags::NOEXEC),
                nosuid: flags.contains(StatVfsMountFlags::NOSUID),
                nodev: flags.contains(StatVfsMountFlags::NODEV),
            },
            mountpoint: "/".to_string(),
            mountinfo: None,
        },
        caps_supported: true,
        effective_caps: None,
        file_caps: None,
        container: ContainerProbe {
            uid_map: None,
            status: String::new(),
            marker: None,
            overflowuid: None,
        },
        identity: IdentityReport {
            target_uid: 0,
            target_user: None,
            primary_gid: 0,
            groups: vec![],
            group_names: vec![],
            running_as: RunningAs::Root,
            privilege_note: String::new(),
            target_is_self: false,
        },
        kernel: None,
        lsm: None,
        acl: None,
        attrs: None,
        parent_attrs: None,
    }
}

#[test]
fn statvfs_root_read_is_sane() {
    let r = MountLayer.check(&ident(), &root_facts(), Op::Read);
    assert!(matches!(r.status, LayerStatus::Skip | LayerStatus::Block));
}

#[test]
fn failed_statvfs_is_a_layer_error() {
    let mut f = root_facts();
    f.mount = MountProbe::Failed { text: "EACCES".to_string() };
    let r = MountLayer.check(&ident(), &f, Op::Write);
    assert!(matches!(r.status, LayerStatus::Error));
    assert_eq!(r.detail, "statvfs failed: EACCES");
}

#[test]
fn remount_fix_and_evidence_text() {
    let r = evaluate(&mi(true, false), "/mnt/f", Op::Write);
    assert_eq!(r.detail, "/mnt mounted read-only; write refused");
    assert_eq!(r.fixes[0].argv(), ["mount", "-o", "remount,rw", "/mnt"]);
    assert_eq!(r.evidence[0].raw, "/dev/sdz on /mnt type ext4 (ro)");
    assert_eq!(r.evidence[0].source, EvidenceSource::Statvfs);
}

#[test]
fn mountinfo_line_fills_source_type_and_options() {
    let mut info = mi(false, false);
    info.source = None;
    info.fstype = None;
    let data = "36 35 98:0 / /mnt rw,noatime master:1 - ext3 /dev/root rw,errors=continue\n";
    enrich_linux("/mnt", data, &mut info);
    assert_eq!(info.options.as_deref(), Some("rw,noatime"));
    assert_eq!(info.fstype.as_deref(), Some("ext3"));
    assert_eq!(info.source.as_deref(), Some("/dev/root"));
    assert_eq!(info.evidence().source, EvidenceSource::MountOpts);
}

#[test]
fn octal_escapes_decode() {
    assert_eq!(unescape("/mnt/my\\040disk"), "/mnt/my disk");
    assert_eq!(unescape("plain"), "plain");
    assert_eq!(unescape("end\\04"), "end\\04");
}

#[test]
fn mount_point_is_the_last_node_on_the_target_device() {
    assert_eq!(mount_climb(&vec![Some(7), Some(7), Some(7), Some(1)]), 2);
    assert_eq!(mount_climb(&vec![Some(7), Some(1), Some(7)]), 0);
    assert_eq!(mount_climb(&vec![Some(7), Some(7)]), 1);
    assert_eq!(mount_climb(&vec![None, None, Some(3)]), 1);
    assert_eq!(mount_climb(&vec![]), 0);
}

#[test]
fn create_asks_about_the_parent_mount() {
    assert_eq!(mount_subject(Op::Create, "/srv/data/new"), "/srv/data");
    assert_eq!(mount_subject(Op::Create, "new"), ".");
    assert_eq!(mount_subject(Op::Write, "/srv/data/x"), "/srv/data/x");
    assert_eq!(mount_subject(Op::Delete, "/srv/data/x"), "/srv/data/x");
}

/// A file of `mode` owned by uid and gid 1000 on an NFS mount at `/home`.
fn nfs_file(mode: u32) -> Facts {
    let mut f = root_facts();
    let file = NodeMeta {
        mode,
        uid: 1000,
        gid: 1000,
        nlink: 1,
        size: 10,
        is_dir: false,
        is_symlink: false,
        owner_name: None,
        group_name: None,
    };
    f.path = "/home/alice/notes".to_string();
    f.stat = Probe::Found(file);
    f.mount = MountProbe::Read {
        flags: MountFlags { ro: false, noexec: false, nosuid: false, nodev: false },
        mountpoint: "/home".to_string(),
        mountinfo: Some(
            "40 30 0:50 / /home rw,relatime shared:9 - nfs4 srv:/export/home rw,vers=4.2\n"
                .to_string(),
        ),
    };
    f
}

#[test]
fn root_on_nfs_is_suspected_where_nobody_is_refused() {
    let r = NetfsLayer.check(&ident(), &nfs_file(0o100600), Op::Read);
    assert!(matches!(r.status, LayerStatus::Suspect));
    assert!(r.certainty == Certainty::Suspected);
    assert_eq!(
        r.detail,
        "root on NFS mount /home acts as nobody unless the export sets no_root_squash; nobody lacks r on /home/alice/notes"
    );
    assert_eq!(r.evidence[0].raw, "srv:/export/home on /home type nfs4 (rw,relatime)");
    assert!(matches!(r.fixes[0].action, FixAction::Advice { .. }));
}

#[test]
fn root_on_nfs_passes_where_nobody_may() {
    let r = NetfsLayer.check(&ident(), &nfs_file(0o100644), Op::Read);
    assert!(matches!(r.status, LayerStatus::Pass));
}

#[test]
fn users_on_nfs_pass_and_local_mounts_skip() {
    let user = Identity { uid: 1000, primary_gid: 1000, groups: vec![1000], name: None, is_self: false };
    assert!(matches!(NetfsLayer.check(&user, &nfs_file(0o100600), Op::Read).status, LayerStatus::Pass));
    let mut local = nfs_file(0o100600);
    local.mount = MountProbe::Read {
        flags: MountFlags { ro: false, noexec: false, nosuid: false, nodev: false },
        mountpoint: "/home".to_string(),
        mountinfo: None,
    };
    assert!(matches!(NetfsLayer.check(&ident(), &local, Op::Read).status, LayerStatus::Skip));
}
