use caps::Capability;
use whycant::engine::{Layer, LayerStatus};
use whycant::facts::{ContainerProbe, Facts, MountFlags, MountProbe, NodeMeta, Probe};
use whycant::identity::Identity;
use whycant::layers::caps::{
    cap_names, dac_bypass_note, decode_vfs_caps, getcap_line, CapsLayer,
    VFS_CAP_FLAGS_EFFECTIVE, VFS_CAP_REVISION_2,
};
use whycant::op::Op;
use whycant::report::{IdentityReport, RunningAs};

fn ident(is_self: bool) -> Identity {
    Identity {
        uid: 4242,
        primary_gid: 4242,
        groups: vec![4242],
        name: Some("t".into()),
        is_self,
    }
}

fn rev2_blob(permitted_low: u32, effective: bool) -> Vec<u8> {
    let magic = VFS_CAP_REVISION_2
        | if effective {
            VFS_CAP_FLAGS_EFFECTIVE
        } else {
            0
        };
    let mut b = Vec::new();
    for word in [magic, permitted_low, 0, 0, 0] {
        b.extend_from_slice(&word.to_le_bytes());
    }
    b
}

#[test]
fn dac_override_recognized_as_bypass() {
    assert!(dac_bypass_note(Capability::CAP_DAC_OVERRIDE.index()).is_some());
    assert!(dac_bypass_note(Capability::CAP_DAC_READ_SEARCH.index()).is_some());
    assert!(dac_bypass_note(Capability::CAP_FOWNER.index()).is_some());
    assert!(dac_bypass_note(Capability::CAP_NET_BIND_SERVICE.index()).is_none());
}

#[test]
fn decode_names_file_capability() {
    let bit = Capability::CAP_NET_BIND_SERVICE.bitmask() as u32;
    let fc = decode_vfs_caps(&rev2_blob(bit, true)).unwrap();
    assert!(fc.effective);
    assert!(fc.permitted & Capability::CAP_NET_BIND_SERVICE.bitmask() != 0);
    assert_eq!(cap_names(fc.permitted), vec!["cap_net_bind_service"]);
    let ev = getcap_line(&fc, "/usr/bin/x");
    assert!(ev.raw.contains("cap_net_bind_service=ep"));
}

#[test]
fn short_or_unknown_blob_decodes_to_none() {
    assert!(decode_vfs_caps(&[]).is_none());
    assert!(decode_vfs_caps(&[0, 0, 0]).is_none());
    assert!(decode_vfs_caps(&0u32.to_le_bytes()).is_none());
}

#[test]
fn catalog_names_known_capabilities_in_lower_case() {
    let mask = Capability::CAP_CHOWN.bitmask() | Capability::CAP_SETUID.bitmask();
    assert_eq!(cap_names(mask), vec!["cap_chown", "cap_setuid"]);
    assert!(cap_names(0).is_empty());
}

fn plain_facts(path: &str) -> Facts {
    let m = |mode: u32, is_dir: bool| NodeMeta {
        mode,
        uid: 0,
        gid: 0,
        nlink: 1,
        size: 1,
        is_dir,
        is_symlink: false,
        owner_name: None,
        group_name: None,
    };
    Facts {
        path: path.to_string(),
        lstat: Probe::Found(m(0o100644, false)),
        link_target: None,
        stat: Probe::Found(m(0o100644, false)),
        parent: Probe::Found(m(0o40755, true)),
        ancestors: Some(Vec::new()),
        euid: 4242,
        mount: MountProbe::Read {
            flags: MountFlags { ro: false, noexec: false, nosuid: false, nodev: false },
            mountpoint: "/".to_string(),
            mountinfo: None,
        },
        caps_supported: true,
        effective_caps: None,
        file_caps: None,
        container: ContainerProbe {
            uid_map: None,
            status: String::new(),
            marker: None,
            overflowuid: None,
        },
        identity: IdentityReport {
            target_uid: 4242,
            target_user: Some("t".into()),
            primary_gid: 4242,
            groups: vec![4242],
            group_names: vec![],
            running_as: RunningAs::User,
            privilege_note: String::new(),
            target_is_self: false,
        },
        kernel: None,
        lsm: None,
        acl: None,
        attrs: None,
        parent_attrs: None,
    }
}

#[test]
fn skip_with_note_when_no_capability_present() {
    let f = plain_facts("/tmp/plain");
    let r = CapsLayer.check(&ident(false), &f, Op::Read);
    assert!(matches!(r.status, LayerStatus::Skip));
    assert!(r.evidence.is_empty());
    assert!(!r.detail.is_empty());
}
