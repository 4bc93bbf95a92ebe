use whycant::engine::{default_chain, run};
use whycant::facts::{
    Ancestor, ContainerProbe, ErrKind, Facts, IoFailure, MountFlags, MountProbe, NodeMeta, Probe,
};
use whycant::identity::Identity;
use whycant::op::Op;
use whycant::report::{exit_code, IdentityReport, LayerId, RunningAs, Verdict};

const UID: u32 = 1000;

fn owner() -> Identity {
    Identity {
        uid: UID,
        primary_gid: UID,
        groups: vec![UID],
        name: None,
        is_self: false,
    }
}

fn dir(mode: u32, uid: u32) -> NodeMeta {
    NodeMeta {
        mode: 0o040000 | mode,
        uid,
        gid: uid,
        nlink: 2,
        size: 4096,
        is_dir: true,
        is_symlink: false,
        owner_name: None,
        group_name: None,
    }
}

fn missing() -> Probe {
    Probe::Failed(IoFailure {
        kind: ErrKind::NotFound,
        text: "No such file or directory (os error 2)".to_string(),
    })
}

/// `statvfs` of an existing node on the root filesystem.
fn root_mount() -> MountProbe {
    MountProbe::Read {
        flags: MountFlags { ro: false, noexec: false, nosuid: false, nodev: false },
        mountpoint: "/".to_string(),
        mountinfo: None,
    }
}

/// `statvfs` of a node that does not exist.
fn no_mount() -> MountProbe {
    MountProbe::Failed { text: "No such file or directory (os error 2)".to_string() }
}

/// The snapshot of `<tmp>/<rel>` with `/tmp` and the temporary directory
/// searchable, `parent` the lookup of the target's parent directory and
/// `mount` the `statvfs` of the node the mount layer asks about (for a
/// create, the parent).
fn facts(path: &str, ancestors: Vec<(&str, Probe)>, parent: Probe, mount: MountProbe) -> Facts {
    Facts {
        path: path.to_string(),
        lstat: missing(),
        link_target: None,
        stat: missing(),
        parent,
        ancestors: Some(
            ancestors
                .into_iter()
                .map(|(d, m)| Ancestor { dir: d.to_string(), meta: m })
                .collect(),
        ),
        euid: UID,
        mount,
        caps_supported: true,
        effective_caps: None,
        file_caps: None,
        container: ContainerProbe {
            uid_map: Some("         0          0 4294967295\n".to_string()),
            status: String::new(),
            marker: None,
            overflowuid: Some("65534\n".to_string()),
        },
        identity: IdentityReport {
            target_uid: UID,
            target_user: None,
            primary_gid: UID,
            groups: vec![UID],
            group_names: vec![],
            running_as: RunningAs::User,
            privilege_note: String::new(),
            target_is_self: false,
        },
        kernel: None,
        lsm: None,
        acl: None,
        attrs: None,
        parent_attrs: None,
    }
}

#[test]
fn create_in_writable_owned_dir_is_allowed() {
    let f = facts(
        "/tmp/.tmpA1/newfile",
        vec![
            ("/", Probe::Found(dir(0o755, 0))),
            ("/tmp", Probe::Found(dir(0o1777, 0))),
            ("/tmp/.tmpA1", Probe::Found(dir(0o700, UID))),
        ],
        Probe::Found(dir(0o700, UID)),
        root_mount(),
    );
    let rep = run(&default_chain(), &owner(), &f, Op::Create, false);
    assert!(
        matches!(rep.verdict, Verdict::Allowed),
        "expected allowed, culprit {:?}",
        rep.culprit
    );
    assert_eq!(exit_code(&rep), 0);
}

#[test]
fn create_lacking_parent_write_is_dac_block() {
    let f = facts(
        "/tmp/.tmpA2/box/newfile",
        vec![
            ("/", Probe::Found(dir(0o755, 0))),
            ("/tmp", Probe::Found(dir(0o1777, 0))),
            ("/tmp/.tmpA2", Probe::Found(dir(0o700, UID))),
            ("/tmp/.tmpA2/box", Probe::Found(dir(0o555, UID))),
        ],
        Probe::Found(dir(0o555, UID)),
        root_mount(),
    );
    let rep = run(&default_chain(), &owner(), &f, Op::Create, false);
    assert!(
        matches!(rep.verdict, Verdict::Blocked),
        "culprit {:?}",
        rep.culprit
    );
    assert_eq!(rep.blocking_layer, Some(LayerId::Dac));
}

#[test]
fn create_missing_parent_is_target_error() {
    let f = facts(
        "/tmp/.tmpA3/absent/child",
        vec![
            ("/", Probe::Found(dir(0o755, 0))),
            ("/tmp", Probe::Found(dir(0o1777, 0))),
            ("/tmp/.tmpA3", Probe::Found(dir(0o700, UID))),
            ("/tmp/.tmpA3/absent", missing()),
        ],
        missing(),
        no_mount(),
    );
    let rep = run(&default_chain(), &owner(), &f, Op::Create, false);
    assert!(matches!(rep.verdict, Verdict::TargetError));
    assert_eq!(exit_code(&rep), 3);
}

#[test]
fn delete_missing_target_is_target_error() {
    let f = facts(
        "/tmp/.tmpA4/gone",
        vec![
            ("/", Probe::Found(dir(0o755, 0))),
            ("/tmp", Probe::Found(dir(0o1777, 0))),
            ("/tmp/.tmpA4", Probe::Found(dir(0o700, UID))),
        ],
        Probe::Found(dir(0o700, UID)),
        no_mount(),
    );
    let rep = run(&default_chain(), &owner(), &f, Op::Delete, false);
    assert!(matches!(rep.verdict, Verdict::TargetError));
    assert_eq!(exit_code(&rep), 3);
}
