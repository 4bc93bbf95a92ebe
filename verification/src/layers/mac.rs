//! The mandatory access control layer (SELinux, AppArmor, SMACK, TOMOYO).
//! A MAC denial is written only to the audit log, which an unprivileged
//! process cannot read: where an LSM is active and the kernel refuses the
//! current user with `EACCES` although neither the mode bits nor the ACL
//! refuse, the denial is suspected; where the kernel grants, the layer
//! passes; for anyone else it cannot tell and skips.

use vstd::prelude::*;
use crate::access_check::{gate_path, gate_path_spec};
use crate::engine::{
    pass_model, skip_model, suspect_model, Layer, LayerResult, LayerResultModel, LayerStatus,
};
use crate::facts::Facts;
use crate::identity::Identity;
use crate::layers::acl::{acl_check_spec, AclLayer};
use crate::layers::dac::{dac_spec, op_word, op_word_spec, DacLayer};
use crate::op::Op;
use crate::report::{
    evidence_models, fix_models, Evidence, EvidenceModel, EvidenceSource, Fix, FixAction,
    FixActionModel, FixModel, LayerId, Risk,
};
use crate::text::{append_str, lit};

verus! {

pub struct MacLayer;

/// `EACCES`, the errno of a permission check that failed.
pub open spec fn eacces() -> i32 {
    13
}

/// `<lsm> active; kernel <refuses|grants> <op> on <path>`.
pub open spec fn mac_evidence(lsm: Seq<char>, refused: bool, path: Seq<char>, op: Op) -> EvidenceModel {
    EvidenceModel {
        source: EvidenceSource::MacStatus,
        raw: lsm + " active; kernel "@ + (if refused {
            "refuses "@
        } else {
            "grants "@
        }) + op_word_spec(op) + " on "@ + path,
        path: Some(path),
    }
}

pub open spec fn audit_advice() -> FixModel {
    FixModel {
        action: FixActionModel::Advice {
            text: "confirm the denial from the audit log (ausearch -m avc -ts recent) and adjust the policy"@,
        },
        needs_root: true,
        description: "confirm the MAC denial"@,
        risk: Risk::High,
        rationale: "only the audit log shows which rule denied"@,
    }
}

/// Whether the kernel refuses the current user with `EACCES` where neither
/// the mode bits nor the ACL refuse.
pub open spec fn unexplained_refusal(id: Identity, facts: Facts, op: Op) -> bool {
    facts.kernel matches Some(k) && !k.answer.allowed && k.answer.errno == Some(eacces()) && dac_spec(
        id,
        facts,
        op,
    ).status != LayerStatus::Block && acl_check_spec(id, facts, op).status != LayerStatus::Block
}

pub open spec fn mac_spec(id: Identity, facts: Facts, op: Op) -> LayerResultModel {
    let path = gate_path_spec(op, facts.path@);
    match facts.lsm {
        None => skip_model(),
        Some(lsm) => if !id.is_self {
            skip_model()
        } else {
            match facts.kernel {
                None => skip_model(),
                Some(k) => if k.answer.allowed {
                    pass_model(seq![mac_evidence(lsm@, false, path, op)])
                } else if unexplained_refusal(id, facts, op) {
                    suspect_model(
                        lsm@ + " may deny "@ + op_word_spec(op) + " on "@ + path
                            + ": the kernel refuses though mode bits and ACL allow"@,
                        seq![mac_evidence(lsm@, true, path, op)],
                        seq![audit_advice()],
                    )
                } else {
                    skip_model()
                },
            }
        },
    }
}

fn mac_evidence_exec(lsm: &str, refused: bool, path: &str, op: Op) -> (r: Evidence)
    ensures
        r@ == mac_evidence(lsm@, refused, path@, op),
{
    let mut raw = lit(lsm);
    append_str(&mut raw, " active; kernel ");
    append_str(
        &mut raw,
        if refused {
            "refuses "
        } else {
            "grants "
        },
    );
    append_str(&mut raw, op_word(op));
    append_str(&mut raw, " on ");
    append_str(&mut raw, path);
    Evidence { source: EvidenceSource::MacStatus, raw, path: Some(lit(path)) }
}

fn audit_advice_fix() -> (r: Fix)
    ensures
        r@ == audit_advice(),
{
    Fix {
        action: FixAction::Advice {
            text: lit(
                "confirm the denial from the audit log (ausearch -m avc -ts recent) and adjust the policy",
            ),
        },
        needs_root: true,
        description: lit("confirm the MAC denial"),
        risk: Risk::High,
        rationale: lit("only the audit log shows which rule denied"),
    }
}

/// The MAC layer never blocks outright: it suspects only where an LSM is
/// active and the kernel refuses the current user with `EACCES` that the
/// mode bits and the ACL do not account for.
pub proof fn mac_law(id: Identity, facts: Facts, op: Op)
    ensures
        mac_spec(id, facts, op).status != LayerStatus::Block,
        mac_spec(id, facts, op).status == LayerStatus::Suspect ==> facts.lsm is Some && id.is_self
            && unexplained_refusal(id, facts, op),
{
}

impl Layer for MacLayer {
    open spec fn spec_name(&self) -> Seq<char> {
        "mac"@
    }

    open spec fn spec_order(&self) -> u8 {
        8
    }

    open spec fn spec_id(&self) -> LayerId {
        LayerId::Mac
    }

    open spec fn spec_check(&self, target: Identity, facts: Facts, op: Op) -> LayerResultModel {
        mac_spec(target, facts, op)
    }

    fn name(&self) -> (r: String) {
        lit("mac")
    }

    fn order(&self) -> (r: u8) {
        8
    }

    fn id(&self) -> (r: LayerId) {
        LayerId::Mac
    }

    fn check(&self, target: &Identity, facts: &Facts, op: Op) -> (r: LayerResult) {
        let lsm = match &facts.lsm {
            None => return LayerResult::skip(),
            Some(l) => l,
        };
        if !target.is_self {
            return LayerResult::skip();
        }
        let k = match &facts.kernel {
            None => return LayerResult::skip(),
            Some(k) => k,
        };
        let path = gate_path(op, facts.path.as_str());
        if k.answer.allowed {
            let mut evs: Vec<Evidence> = Vec::new();
            evs.push(mac_evidence_exec(lsm.as_str(), false, path.as_str(), op));
            assert(evidence_models(evs@) =~= seq![mac_evidence(lsm@, false, path@, op)]);
            return LayerResult::pass(evs);
        }
        let eacces = match k.answer.errno {
            Some(e) => e == 13,
            None => false,
        };
        if !eacces {
            return LayerResult::skip();
        }
        let dac = DacLayer.check(target, facts, op);
        let acl = AclLayer.check(target, facts, op);
        if dac.status == LayerStatus::Block || acl.status == LayerStatus::Block {
            return LayerResult::skip();
        }
        let mut detail = lsm.clone();
        append_str(&mut detail, " may deny ");
        append_str(&mut detail, op_word(op));
        append_str(&mut detail, " on ");
        append_str(&mut detail, path.as_str());
        append_str(&mut detail, ": the kernel refuses though mode bits and ACL allow");
        let mut evs: Vec<Evidence> = Vec::new();
        evs.push(mac_evidence_exec(lsm.as_str(), true, path.as_str(), op));
        assert(evidence_models(evs@) =~= seq![mac_evidence(lsm@, true, path@, op)]);
        let mut fixes: Vec<Fix> = Vec::new();
        fixes.push(audit_advice_fix());
        assert(fix_models(fixes@) =~= seq![audit_advice()]);
        LayerResult::suspect(detail, evs, fixes)
    }
}

} // verus!
