use whycant::engine::{Layer, LayerResult, LayerStatus};
use whycant::facts::{
    Ancestor, AttrFlags, ContainerProbe, ErrKind, Facts, IoFailure, MountFlags, MountProbe, NodeMeta, Probe,
};
use whycant::identity::Identity;
use whycant::layers::acl::{parse_acl, AclLayer, Tag};
use whycant::layers::attrs::AttrLayer;
use whycant::layers::mac::MacLayer;
use whycant::layers::dac::DacLayer;
use whycant::layers::existence::ExistenceLayer;
use whycant::layers::traverse::TraverseLayer;
use whycant::access_check::{KernelAnswer, KernelCheck};
use whycant::facts::KernelProbe;
use whycant::op::Op;
use whycant::report::{Certainty, FixAction, IdentityReport, RunningAs};

fn ident(uid: u32, gid: u32, groups: Vec<u32>) -> Identity {
    Identity {
        uid,
        primary_gid: gid,
        groups,
        name: Some("t".into()),
        is_self: false,
    }
}

fn meta(mode: u32, uid: u32, gid: u32) -> NodeMeta {
    NodeMeta {
        mode,
        uid,
        gid,
        nlink: 1,
        size: 1,
        is_dir: mode & 0o170000 == 0o040000,
        is_symlink: mode & 0o170000 == 0o120000,
        owner_name: None,
        group_name: None,
    }
}

fn failed(kind: ErrKind, text: &str) -> Probe {
    Probe::Failed(IoFailure { kind, text: text.to_string() })
}

fn facts(path: &str, node: Probe, parent: Probe) -> Facts {
    let lstat = match &node {
        Probe::Found(m) => Probe::Found(meta(m.mode, m.uid, m.gid)),
        Probe::Failed(e) => failed(e.kind, e.text.as_str()),
    };
    Facts {
        path: path.to_string(),
        lstat,
        link_target: None,
        stat: node,
        parent,
        ancestors: Some(Vec::new()),
        euid: 1000,
        mount: MountProbe::Read {
            flags: MountFlags { ro: false, noexec: false, nosuid: false, nodev: false },
            mountpoint: "/".to_string(),
            mountinfo: None,
        },
        caps_supported: false,
        effective_caps: None,
        file_caps: None,
        container: ContainerProbe {
            uid_map: None,
            status: String::new(),
            marker: None,
            overflowuid: None,
        },
        identity: IdentityReport {
            target_uid: 1000,
            target_user: None,
            primary_gid: 1000,
            groups: vec![],
            group_names: vec![],
            running_as: RunningAs::User,
            privilege_note: String::new(),
            target_is_self: false,
        },
        kernel: None,
        lsm: None,
        acl: None,
        attrs: None,
        parent_attrs: None,
    }
}

fn dac(id: &Identity, f: &Facts, op: Op) -> LayerResult {
    DacLayer.check(id, f, op)
}

#[test]
fn owner_reads_other_blocked_0600() {
    let f = facts("/tmp/x/secret", Probe::Found(meta(0o100600, 1000, 1000)), Probe::Found(meta(0o40755, 1000, 1000)));
    let owner = ident(1000, 1000, vec![1000]);
    assert!(matches!(dac(&owner, &f, Op::Read).status, LayerStatus::Pass));
    let other = ident(1000 + 4242, 1000 + 4242, vec![]);
    let r = dac(&other, &f, Op::Read);
    assert!(matches!(r.status, LayerStatus::Block));
    assert!(r.certainty == Certainty::Proven);
    assert!(r
        .fixes
        .iter()
        .any(|f| f.argv().first().map(String::as_str) == Some("setfacl")));
    assert_eq!(r.detail, "DAC denies read for t: mode 0600, t class other lacks r");
}

#[test]
fn dir_0755_traversable_by_other() {
    let f = facts("/tmp/x/pub", Probe::Found(meta(0o40755, 0, 0)), Probe::Found(meta(0o40755, 0, 0)));
    let other = ident(99999, 99999, vec![]);
    assert!(matches!(dac(&other, &f, Op::Traverse).status, LayerStatus::Pass));
}

#[test]
fn owner_of_0555_dir_denied_create() {
    let f = facts("/tmp/x/ro/child", failed(ErrKind::NotFound, "gone"), Probe::Found(meta(0o40555, 1000, 1000)));
    let owner = ident(1000, 1000, vec![1000]);
    let r = dac(&owner, &f, Op::Create);
    assert!(matches!(r.status, LayerStatus::Block));
    assert!(r.certainty == Certainty::Proven);
    assert_eq!(r.detail, "DAC denies create for t: parent /tmp/x/ro mode 0555 lacks w");
}

#[test]
fn owner_of_0444_file_denied_write() {
    let f = facts("/tmp/x/readonly", Probe::Found(meta(0o100444, 1000, 1000)), Probe::Found(meta(0o40755, 1000, 1000)));
    let owner = ident(1000, 1000, vec![1000]);
    let r = dac(&owner, &f, Op::Write);
    assert!(matches!(r.status, LayerStatus::Block));
    assert!(r.certainty == Certainty::Proven);
}

#[test]
fn owner_of_0555_dir_denied_delete() {
    let f = facts("/tmp/x/ro/note", Probe::Found(meta(0o100644, 1000, 1000)), Probe::Found(meta(0o40555, 1000, 1000)));
    let owner = ident(1000, 1000, vec![1000]);
    let r = dac(&owner, &f, Op::Delete);
    assert!(matches!(r.status, LayerStatus::Block));
    assert!(r.certainty == Certainty::Proven);
}

#[test]
fn sticky_delete_non_owner_blocked_owner_allowed() {
    let f = facts("/tmp/shared/note", Probe::Found(meta(0o100644, 1000, 1000)), Probe::Found(meta(0o41777, 0, 0)));
    let stranger = ident(1000 + 8888, 1000 + 8888, vec![]);
    let r = dac(&stranger, &f, Op::Delete);
    assert!(matches!(r.status, LayerStatus::Block));
    assert!(r.certainty == Certainty::Proven);
    assert_eq!(r.detail, "sticky parent /tmp/shared (mode 1777): t owns neither");
    assert_eq!(r.fixes[0].argv(), ["chown", "9888", "/tmp/shared/note"]);
    let owner = ident(1000, 1000, vec![1000]);
    assert!(matches!(dac(&owner, &f, Op::Delete).status, LayerStatus::Pass));
}

#[test]
fn root_is_granted_read_and_write_but_not_exec_without_bits() {
    let f = facts("/tmp/x/data", Probe::Found(meta(0o100000, 1000, 1000)), Probe::Found(meta(0o40000, 1000, 1000)));
    let root = ident(0, 0, vec![0]);
    for op in [Op::Read, Op::Write, Op::Delete, Op::Create] {
        assert!(matches!(dac(&root, &f, op).status, LayerStatus::Pass));
    }
    assert!(matches!(dac(&root, &f, Op::Exec).status, LayerStatus::Block));
}

#[test]
fn setuid_pass_carries_a_note() {
    let f = facts("/usr/bin/su", Probe::Found(meta(0o104755, 0, 0)), Probe::Found(meta(0o40755, 0, 0)));
    let r = dac(&ident(1000, 1000, vec![1000]), &f, Op::Exec);
    assert!(matches!(r.status, LayerStatus::Pass));
    assert_eq!(r.detail, "setuid bit set; exec runs as uid 0");
    assert_eq!(r.evidence[0].raw, "-rwsr-xr-x 1 0 0 1 /usr/bin/su");
}

fn with_ancestors(anc: Vec<(&str, NodeMeta)>) -> Facts {
    let mut f = facts("/a/b/c/f", Probe::Found(meta(0o100644, 0, 0)), Probe::Found(meta(0o40755, 0, 0)));
    f.ancestors = Some(
        anc.into_iter()
            .map(|(d, m)| Ancestor { dir: d.to_string(), meta: Probe::Found(m) })
            .collect(),
    );
    f
}

#[test]
fn middle_ancestor_is_the_blocker() {
    let f = with_ancestors(vec![
        ("/", meta(0o40755, 0, 0)),
        ("/a", meta(0o40755, 1000, 1000)),
        ("/a/b", meta(0o40644, 1000, 1000)),
        ("/a/b/c", meta(0o40755, 1000, 1000)),
    ]);
    let me = ident(1000, 1000, vec![1000]);
    let r = TraverseLayer.check(&me, &f, Op::Read);
    assert!(matches!(r.status, LayerStatus::Block));
    assert_eq!(r.evidence.len(), 3);
    assert_eq!(r.evidence[2].path.as_deref(), Some("/a/b"));
    match &r.fixes[0].action {
        FixAction::Run { argv } => assert_eq!(argv[1], "u+x"),
        _ => panic!("expected run fix"),
    }
    assert!(!r.fixes[0].needs_root, "current user owns the dir; no sudo to chmod");
}

#[test]
fn existing_file_passes() {
    let f = facts("/tmp/real", Probe::Found(meta(0o100644, 0, 0)), Probe::Found(meta(0o40755, 0, 0)));
    let r = ExistenceLayer.check(&ident(0, 0, vec![]), &f, Op::Read);
    assert!(r.status == LayerStatus::Pass);
    assert!(!r.evidence.is_empty());
}

#[test]
fn missing_is_error() {
    let f = facts("/tmp/nope", failed(ErrKind::NotFound, "No such file or directory"), Probe::Found(meta(0o40755, 0, 0)));
    let r = ExistenceLayer.check(&ident(0, 0, vec![]), &f, Op::Read);
    assert!(r.status == LayerStatus::Error);
    assert!(r.detail.contains("does not exist"));
}

#[test]
fn broken_symlink_is_error() {
    let mut f = facts("/tmp/dangling", failed(ErrKind::NotFound, "No such file or directory"), Probe::Found(meta(0o40755, 0, 0)));
    f.lstat = Probe::Found(meta(0o120777, 0, 0));
    f.link_target = Some("/tmp/absent".to_string());
    let r = ExistenceLayer.check(&ident(0, 0, vec![]), &f, Op::Read);
    assert!(r.status == LayerStatus::Error);
    assert!(r.detail.contains("broken symlink"));
    assert!(r.evidence.iter().any(|e| e.raw.contains("->")));
}

#[test]
fn symlink_loop_is_error() {
    let mut f = facts("/tmp/loop", failed(ErrKind::Loop, "Too many levels of symbolic links"), Probe::Found(meta(0o40755, 0, 0)));
    f.lstat = Probe::Found(meta(0o120777, 0, 0));
    f.link_target = Some("/tmp/loop".to_string());
    let r = ExistenceLayer.check(&ident(0, 0, vec![]), &f, Op::Read);
    assert!(r.status == LayerStatus::Error);
    assert!(r.detail.contains("loop"));
}

#[test]
fn symlink_to_existing_passes() {
    let mut f = facts("/tmp/good", Probe::Found(meta(0o100644, 0, 0)), Probe::Found(meta(0o40755, 0, 0)));
    f.lstat = Probe::Found(meta(0o120777, 0, 0));
    f.link_target = Some("/tmp/target".to_string());
    let r = ExistenceLayer.check(&ident(0, 0, vec![]), &f, Op::Read);
    assert!(r.status == LayerStatus::Pass);
    assert_eq!(r.evidence[0].raw, "lrwxrwxrwx /tmp/good -> /tmp/target");
}

#[test]
fn create_needs_only_the_parent() {
    let f = facts("/tmp/x/new", failed(ErrKind::NotFound, "No such file or directory"), Probe::Found(meta(0o40755, 0, 0)));
    let r = ExistenceLayer.check(&ident(0, 0, vec![]), &f, Op::Create);
    assert!(r.status == LayerStatus::Pass);
    assert_eq!(r.evidence[0].path.as_deref(), Some("/tmp/x"));
    let r = ExistenceLayer.check(&ident(0, 0, vec![]), &f, Op::Write);
    assert!(r.status == LayerStatus::Error);
    let f = facts("/tmp/x/new", failed(ErrKind::NotFound, "No such file or directory"), failed(ErrKind::NotFound, "gone"));
    let r = ExistenceLayer.check(&ident(0, 0, vec![]), &f, Op::Create);
    assert!(r.status == LayerStatus::Error);
    assert_eq!(r.detail, "parent directory does not exist: /tmp/x");
}

fn flags(immutable: bool, append_only: bool) -> AttrFlags {
    AttrFlags { immutable, append_only }
}

fn plain_file() -> Facts {
    facts(
        "/srv/locked",
        Probe::Found(meta(0o100644, 0, 0)),
        Probe::Found(meta(0o40755, 0, 0)),
    )
}

#[test]
fn immutable_reports_proven_block() {
    let mut f = plain_file();
    f.attrs = Some(flags(true, false));
    let r = AttrLayer.check(&ident(0, 0, vec![0]), &f, Op::Write);
    assert!(matches!(r.status, LayerStatus::Block));
    assert!(r.certainty == Certainty::Proven);
    assert!(r.fixes.iter().any(|x| match &x.action {
        FixAction::Run { argv } => argv.first().map(String::as_str) == Some("chattr"),
        FixAction::Advice { text: _ } => false,
    }));
    assert_eq!(r.detail, "/srv/locked is immutable; write refused");
    assert_eq!(r.fixes[0].argv(), vec!["chattr", "-i", "/srv/locked"]);
    assert_eq!(r.evidence[0].raw, "i- /srv/locked");
}

#[test]
fn immutable_file_still_reads() {
    let mut f = plain_file();
    f.attrs = Some(flags(true, false));
    let r = AttrLayer.check(&ident(0, 0, vec![0]), &f, Op::Read);
    assert!(matches!(r.status, LayerStatus::Pass));
}

#[test]
fn append_only_refuses_delete() {
    let mut f = plain_file();
    f.attrs = Some(flags(false, true));
    let r = AttrLayer.check(&ident(0, 0, vec![0]), &f, Op::Delete);
    assert!(matches!(r.status, LayerStatus::Block));
    assert_eq!(r.detail, "/srv/locked is append-only; delete refused");
    assert_eq!(r.fixes[0].argv(), vec!["chattr", "-a", "/srv/locked"]);
    assert!(r.fixes[0].needs_root);
}

#[test]
fn immutable_parent_refuses_create() {
    let mut f = plain_file();
    f.parent_attrs = Some(flags(true, false));
    let r = AttrLayer.check(&ident(0, 0, vec![0]), &f, Op::Create);
    assert!(matches!(r.status, LayerStatus::Block));
    assert_eq!(r.detail, "/srv is immutable; create refused");
    assert_eq!(r.fixes[0].argv(), vec!["chattr", "-i", "/srv"]);
}

#[test]
fn append_only_parent_allows_create() {
    let mut f = plain_file();
    f.parent_attrs = Some(flags(false, true));
    let r = AttrLayer.check(&ident(0, 0, vec![0]), &f, Op::Create);
    assert!(matches!(r.status, LayerStatus::Pass));
}

#[test]
fn unread_attributes_skip() {
    let f = plain_file();
    let r = AttrLayer.check(&ident(0, 0, vec![0]), &f, Op::Write);
    assert!(matches!(r.status, LayerStatus::Skip));
}

/// The `system.posix_acl_access` bytes of `(tag, perm, id)` entries.
fn acl_bytes(entries: &[(u16, u16, u32)]) -> Vec<u8> {
    let mut b = 2u32.to_le_bytes().to_vec();
    for &(tag, perm, id) in entries {
        b.extend_from_slice(&tag.to_le_bytes());
        b.extend_from_slice(&perm.to_le_bytes());
        b.extend_from_slice(&id.to_le_bytes());
    }
    b
}

const ANY: u32 = 0xffff_ffff;

/// `user::rw-`, `user:12345:r--`, `group::r--`, `mask::r--`, `other::r--`.
fn named_reader() -> Vec<u8> {
    acl_bytes(&[(1, 6, ANY), (2, 4, 12345), (4, 4, ANY), (16, 4, ANY), (32, 4, ANY)])
}

fn acl_file(acl: Vec<u8>) -> Facts {
    let mut f = facts(
        "/srv/guarded",
        Probe::Found(meta(0o100644, 0, 0)),
        Probe::Found(meta(0o40755, 0, 0)),
    );
    f.acl = Some(acl);
    f
}

#[test]
fn acl_named_user_denial_is_fingered() {
    let f = acl_file(named_reader());
    let r = AclLayer.check(&ident(12345, 65534, vec![65534]), &f, Op::Write);
    assert!(matches!(r.status, LayerStatus::Block));
    assert!(r.certainty == Certainty::Proven);
    assert!(r.evidence.iter().any(|e| e.raw.contains("user:12345")));
    assert_eq!(r.detail, "ACL denies write for t on /srv/guarded: user:12345:r--");
    assert_eq!(r.evidence[1].raw, "mask::r--");
    assert_eq!(r.fixes[0].argv(), vec!["setfacl", "-m", "u:t:rw-", "/srv/guarded"]);
    assert!(r.fixes[0].needs_root);
}

#[test]
fn acl_named_user_may_read() {
    let f = acl_file(named_reader());
    let r = AclLayer.check(&ident(12345, 65534, vec![65534]), &f, Op::Read);
    assert!(matches!(r.status, LayerStatus::Pass));
    assert_eq!(r.evidence[0].raw, "user:12345:r--");
}

#[test]
fn acl_mask_bounds_a_named_entry() {
    let f = acl_file(acl_bytes(&[
        (1, 6, ANY),
        (2, 6, 12345),
        (4, 4, ANY),
        (16, 4, ANY),
        (32, 0, ANY),
    ]));
    let r = AclLayer.check(&ident(12345, 65534, vec![65534]), &f, Op::Write);
    assert!(matches!(r.status, LayerStatus::Block));
    assert_eq!(r.evidence[0].raw, "user:12345:rw-");
    assert_eq!(r.evidence[1].raw, "mask::r--");
}

#[test]
fn acl_named_group_grants() {
    let f = acl_file(acl_bytes(&[
        (1, 6, ANY),
        (4, 0, ANY),
        (8, 6, 500),
        (16, 6, ANY),
        (32, 0, ANY),
    ]));
    let r = AclLayer.check(&ident(4242, 4242, vec![4242, 500]), &f, Op::Write);
    assert!(matches!(r.status, LayerStatus::Pass));
    assert_eq!(r.evidence[0].raw, "group:500:rw-");
    assert_eq!(r.evidence[1].raw, "mask::rw-");
}

#[test]
fn acl_other_denies_stranger() {
    let f = acl_file(named_reader());
    let r = AclLayer.check(&ident(777, 777, vec![777]), &f, Op::Write);
    assert!(matches!(r.status, LayerStatus::Block));
    assert_eq!(r.evidence[0].raw, "other::r--");
    assert_eq!(r.fixes[0].argv(), vec!["setfacl", "-m", "u:t:-w-", "/srv/guarded"]);
}

#[test]
fn acl_leaves_root_and_plain_nodes_to_the_mode_bits() {
    let f = acl_file(named_reader());
    assert!(matches!(AclLayer.check(&ident(0, 0, vec![0]), &f, Op::Write).status, LayerStatus::Skip));
    let plain = facts(
        "/srv/plain",
        Probe::Found(meta(0o100644, 0, 0)),
        Probe::Found(meta(0o40755, 0, 0)),
    );
    assert!(matches!(AclLayer.check(&ident(5, 5, vec![5]), &plain, Op::Write).status, LayerStatus::Skip));
}

#[test]
fn acl_bytes_decode() {
    let es = parse_acl(&named_reader()).unwrap();
    assert_eq!(es.len(), 5);
    assert_eq!(es[1].tag, Tag::User);
    assert_eq!(es[1].perm, 4);
    assert_eq!(es[1].id, 12345);
    assert!(parse_acl(&vec![1, 0, 0, 0]).is_none());
    assert!(parse_acl(&vec![2, 0, 0, 0, 1]).is_none());
    assert!(parse_acl(&acl_bytes(&[(64, 4, 0)])).is_none());
    assert_eq!(parse_acl(&vec![2, 0, 0, 0]).unwrap().len(), 0);
}

/// `/srv/app.log`, mode 0644 owned by uid 1000, under SELinux, with the
/// kernel's answer for the current user.
fn under_selinux(allowed: bool, errno: Option<i32>) -> Facts {
    let mut f = facts(
        "/srv/app.log",
        Probe::Found(meta(0o100644, 1000, 1000)),
        Probe::Found(meta(0o40755, 0, 0)),
    );
    f.lsm = Some("selinux".to_string());
    f.kernel = Some(KernelProbe {
        answer: KernelAnswer { allowed, errno },
        rwx: KernelCheck { r: allowed, w: false, x: false },
    });
    f
}

fn me() -> Identity {
    let mut id = ident(1000, 1000, vec![1000]);
    id.is_self = true;
    id
}

#[test]
fn unexplained_eacces_under_an_lsm_is_suspected() {
    let r = MacLayer.check(&me(), &under_selinux(false, Some(13)), Op::Read);
    assert!(matches!(r.status, LayerStatus::Suspect));
    assert!(r.certainty == Certainty::Suspected);
    assert_eq!(
        r.detail,
        "selinux may deny read on /srv/app.log: the kernel refuses though mode bits and ACL allow"
    );
    assert_eq!(r.evidence[0].raw, "selinux active; kernel refuses read on /srv/app.log");
    assert!(r.fixes[0].needs_root);
}

#[test]
fn kernel_grant_under_an_lsm_passes() {
    let r = MacLayer.check(&me(), &under_selinux(true, None), Op::Read);
    assert!(matches!(r.status, LayerStatus::Pass));
}

#[test]
fn mode_bit_refusal_is_not_blamed_on_the_lsm() {
    let r = MacLayer.check(&me(), &under_selinux(false, Some(13)), Op::Exec);
    assert!(matches!(r.status, LayerStatus::Skip));
    let other = ident(1000, 1000, vec![1000]);
    let r = MacLayer.check(&other, &under_selinux(false, Some(13)), Op::Read);
    assert!(matches!(r.status, LayerStatus::Skip));
}

#[test]
fn acl_grant_outranks_the_mode_bits() {
    let mut f = facts(
        "/srv/shared",
        Probe::Found(meta(0o100660, 0, 0)),
        Probe::Found(meta(0o40755, 0, 0)),
    );
    f.acl = Some(acl_bytes(&[
        (1, 6, ANY),
        (2, 6, 12345),
        (4, 6, ANY),
        (16, 6, ANY),
        (32, 0, ANY),
    ]));
    let id = ident(12345, 65534, vec![65534]);
    assert!(matches!(dac(&id, &f, Op::Write).status, LayerStatus::Skip));
    assert!(matches!(AclLayer.check(&id, &f, Op::Write).status, LayerStatus::Pass));
}

#[test]
fn acl_granted_delete_still_meets_the_sticky_bit() {
    let mut f = facts(
        "/tmp/shared/note",
        Probe::Found(meta(0o100644, 1, 1)),
        Probe::Found(meta(0o41777, 0, 0)),
    );
    f.acl = Some(acl_bytes(&[(1, 7, ANY), (4, 7, ANY), (16, 7, ANY), (32, 7, ANY)]));
    let id = ident(4242, 4242, vec![4242]);
    let r = dac(&id, &f, Op::Delete);
    assert!(matches!(r.status, LayerStatus::Block));
    assert_eq!(r.detail, "sticky parent /tmp/shared (mode 1777): t owns neither");
}
