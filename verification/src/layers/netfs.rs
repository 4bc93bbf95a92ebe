//! The network filesystem layer. An NFS server maps root to the anonymous
//! user unless the export sets `no_root_squash`, and the client cannot see
//! the export's options: where the anonymous user's mode bits would refuse
//! what root asks, the denial is suspected. Read-only exports and uid
//! mismatches are the server's to decide and are not visible here.

use vstd::prelude::*;
use crate::access_check::{gate_path, gate_path_spec};
use crate::engine::{
    pass_model, skip_model, suspect_model, Layer, LayerResult, LayerResultModel, LayerStatus,
};
use crate::facts::{Facts, NodeMeta, Probe};
use crate::identity::Identity;
use crate::layers::acl::gate_probe;
use crate::layers::dac::{op_letter, op_letter_spec};
use crate::layers::mount::{mount_evidence, read_mount, read_mount_spec, MountInfoModel};
use crate::op::Op;
use crate::report::{
    evidence_models, fix_models, Evidence, Fix, FixAction, FixActionModel, FixModel, LayerId, Risk,
};
use crate::text::{append_str, lit};

verus! {

pub struct NetfsLayer;

/// The uid and gid an NFS server gives a squashed root (`nobody`).
pub open spec fn anon_id() -> u32 {
    65534
}

/// Whether the filesystem type is NFS.
pub open spec fn is_nfs(fstype: Option<Seq<char>>) -> bool {
    fstype == Some("nfs"@) || fstype == Some("nfs4"@)
}

/// The mode bits of the anonymous user's class on the node.
pub open spec fn anon_bits(m: NodeMeta) -> u32 {
    if m.uid == anon_id() {
        (m.mode >> 6u32) & 7
    } else if m.gid == anon_id() {
        (m.mode >> 3u32) & 7
    } else {
        m.mode & 7
    }
}

/// Whether the anonymous user's bits grant the op.
pub open spec fn anon_granted(m: NodeMeta, op: Op) -> bool {
    let b = anon_bits(m);
    match op {
        Op::Read => b & 4 != 0,
        Op::Write => b & 2 != 0,
        Op::Exec | Op::Traverse => b & 1 != 0,
        Op::Delete | Op::Create => b & 2 != 0 && b & 1 != 0,
    }
}

pub open spec fn squash_detail(mnt: MountInfoModel, path: Seq<char>, op: Op) -> Seq<char> {
    "root on NFS mount "@ + mnt.mountpoint + " acts as nobody unless the export sets no_root_squash; nobody lacks "@
        + op_letter_spec(op) + " on "@ + path
}

pub open spec fn squash_advice() -> FixModel {
    FixModel {
        action: FixActionModel::Advice {
            text: "run as the owner of the node, or ask the server to export with no_root_squash"@,
        },
        needs_root: false,
        description: "act as a user the server maps"@,
        risk: Risk::Low,
        rationale: "root_squash is the export's setting, not the client's"@,
    }
}

/// Off NFS, or where the mount or the gating node cannot be read, the
/// layer is inapplicable. On NFS it suspects a denial for root where the
/// anonymous user's bits refuse the op, and otherwise passes, quoting the
/// mount.
pub open spec fn netfs_spec(id: Identity, facts: Facts, op: Op) -> LayerResultModel {
    match read_mount_spec(facts.mount) {
        Err(_) => skip_model(),
        Ok(mnt) => if !is_nfs(mnt.fstype) {
            skip_model()
        } else {
            match gate_probe(facts, op) {
                Probe::Failed(_) => skip_model(),
                Probe::Found(m) => if id.uid == 0 && !anon_granted(m, op) {
                    suspect_model(
                        squash_detail(mnt, gate_path_spec(op, facts.path@), op),
                        seq![mount_evidence(mnt)],
                        seq![squash_advice()],
                    )
                } else {
                    pass_model(seq![mount_evidence(mnt)])
                },
            }
        },
    }
}

fn anon_granted_exec(m: &NodeMeta, op: Op) -> (r: bool)
    ensures
        r == anon_granted(*m, op),
{
    let b = if m.uid == 65534 {
        (m.mode >> 6u32) & 7
    } else if m.gid == 65534 {
        (m.mode >> 3u32) & 7
    } else {
        m.mode & 7
    };
    match op {
        Op::Read => b & 4 != 0,
        Op::Write => b & 2 != 0,
        Op::Exec | Op::Traverse => b & 1 != 0,
        Op::Delete | Op::Create => b & 2 != 0 && b & 1 != 0,
    }
}

fn is_nfs_exec(fstype: &Option<String>) -> (r: bool)
    ensures
        r == is_nfs(match fstype {
            Some(s) => Some(s@),
            None => None,
        }),
{
    match fstype {
        Some(s) => *s == lit("nfs") || *s == lit("nfs4"),
        None => false,
    }
}

fn squash_advice_fix() -> (r: Fix)
    ensures
        r@ == squash_advice(),
{
    Fix {
        action: FixAction::Advice {
            text: lit("run as the owner of the node, or ask the server to export with no_root_squash"),
        },
        needs_root: false,
        description: lit("act as a user the server maps"),
        risk: Risk::Low,
        rationale: lit("root_squash is the export's setting, not the client's"),
    }
}

/// The network filesystem layer never blocks outright: whatever the
/// snapshot it passes, skips or suspects, and it suspects only for root.
pub proof fn netfs_law(id: Identity, facts: Facts, op: Op)
    ensures
        netfs_spec(id, facts, op).status != LayerStatus::Block,
        netfs_spec(id, facts, op).status == LayerStatus::Suspect ==> id.uid == 0,
{
}

impl Layer for NetfsLayer {
    open spec fn spec_name(&self) -> Seq<char> {
        "netfs"@
    }

    open spec fn spec_order(&self) -> u8 {
        10
    }

    open spec fn spec_id(&self) -> LayerId {
        LayerId::NetworkFs
    }

    open spec fn spec_check(&self, target: Identity, facts: Facts, op: Op) -> LayerResultModel {
        netfs_spec(target, facts, op)
    }

    fn name(&self) -> (r: String) {
        lit("netfs")
    }

    fn order(&self) -> (r: u8) {
        10
    }

    fn id(&self) -> (r: LayerId) {
        LayerId::NetworkFs
    }

    fn check(&self, target: &Identity, facts: &Facts, op: Op) -> (r: LayerResult) {
        let mnt = match read_mount(&facts.mount) {
            Err(_) => return LayerResult::skip(),
            Ok(m) => m,
        };
        if !is_nfs_exec(&mnt.fstype) {
            return LayerResult::skip();
        }
        let gate = if op == Op::Delete || op == Op::Create {
            &facts.parent
        } else {
            &facts.stat
        };
        let m = match gate {
            Probe::Failed(_) => return LayerResult::skip(),
            Probe::Found(m) => m,
        };
        let mut evs: Vec<Evidence> = Vec::new();
        evs.push(mnt.evidence());
        assert(evidence_models(evs@) =~= seq![mount_evidence(mnt@)]);
        if target.uid == 0 && !anon_granted_exec(m, op) {
            let path = gate_path(op, facts.path.as_str());
            let mut detail = lit("root on NFS mount ");
            append_str(&mut detail, mnt.mountpoint.as_str());
            append_str(
                &mut detail,
                " acts as nobody unless the export sets no_root_squash; nobody lacks ",
            );
            append_str(&mut detail, op_letter(op));
            append_str(&mut detail, " on ");
            append_str(&mut detail, path.as_str());
            let mut fixes: Vec<Fix> = Vec::new();
            fixes.push(squash_advice_fix());
            assert(fix_models(fixes@) =~= seq![squash_advice()]);
            LayerResult::suspect(detail, evs, fixes)
        } else {
            LayerResult::pass(evs)
        }
    }
}

} // verus!
