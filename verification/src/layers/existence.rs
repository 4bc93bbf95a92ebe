//! The existence layer: the target, or the target of its symlink, must
//! exist — or, for a create, its parent directory. A missing target, a
//! broken symlink or a symlink loop is a target error; a lookup refused by
//! permissions is left to the later layers.

use vstd::prelude::*;
use vstd::string::*;
use crate::engine::{
    chain_order_law, default_chain_spec, fatal_error_is_target_error_law, is_fatal, outcomes, pass_model, run_spec, skip_model,
    target_error_needs_fatal_law, Layer, LayerResult, LayerResultModel, LayerStatus,
};
use crate::layers::StdLayer;
use crate::facts::{ErrKind, Facts, IoFailure, NodeMeta, Probe};
use crate::identity::Identity;
use crate::op::Op;
use crate::paths::{parent_of, parent_of_spec};
use crate::report::{
    evidence_models, Certainty, Evidence, EvidenceModel, EvidenceSource, LayerId, Verdict,
};
use crate::text::{append_str, lit, push_char};

verus! {

pub struct ExistenceLayer;

/// The file-type letter of a mode, as `ls` prints it.
pub open spec fn type_char(m: u32) -> char {
    let t = m & 0o170000;
    if t == 0o040000 {
        'd'
    } else if t == 0o120000 {
        'l'
    } else if t == 0o100000 {
        '-'
    } else if t == 0o060000 {
        'b'
    } else if t == 0o020000 {
        'c'
    } else if t == 0o010000 {
        'p'
    } else if t == 0o140000 {
        's'
    } else {
        '?'
    }
}

pub open spec fn flag(m: u32, mask: u32, c: char) -> char {
    if m & mask != 0 {
        c
    } else {
        '-'
    }
}

/// The ten-character mode string, type letter first, without special bits.
pub open spec fn perm_string_spec(m: u32) -> Seq<char> {
    seq![
        type_char(m),
        flag(m, 0o400, 'r'),
        flag(m, 0o200, 'w'),
        flag(m, 0o100, 'x'),
        flag(m, 0o040, 'r'),
        flag(m, 0o020, 'w'),
        flag(m, 0o010, 'x'),
        flag(m, 0o004, 'r'),
        flag(m, 0o002, 'w'),
        flag(m, 0o001, 'x'),
    ]
}

fn flag_exec(m: u32, mask: u32, c: char) -> (r: char)
    ensures
        r == flag(m, mask, c),
{
    if m & mask != 0 {
        c
    } else {
        '-'
    }
}

pub fn perm_string(m: u32) -> (r: String)
    ensures
        r@ == perm_string_spec(m),
{
    let t = m & 0o170000;
    let ftype = if t == 0o040000 {
        'd'
    } else if t == 0o120000 {
        'l'
    } else if t == 0o100000 {
        '-'
    } else if t == 0o060000 {
        'b'
    } else if t == 0o020000 {
        'c'
    } else if t == 0o010000 {
        'p'
    } else if t == 0o140000 {
        's'
    } else {
        '?'
    };
    let mut s = String::new();
    push_char(&mut s, ftype);
    push_char(&mut s, flag_exec(m, 0o400, 'r'));
    push_char(&mut s, flag_exec(m, 0o200, 'w'));
    push_char(&mut s, flag_exec(m, 0o100, 'x'));
    push_char(&mut s, flag_exec(m, 0o040, 'r'));
    push_char(&mut s, flag_exec(m, 0o020, 'w'));
    push_char(&mut s, flag_exec(m, 0o010, 'x'));
    push_char(&mut s, flag_exec(m, 0o004, 'r'));
    push_char(&mut s, flag_exec(m, 0o002, 'w'));
    push_char(&mut s, flag_exec(m, 0o001, 'x'));
    assert(s@ =~= perm_string_spec(m));
    s
}

pub open spec fn ev_model(raw: Seq<char>, path: Seq<char>) -> EvidenceModel {
    EvidenceModel { source: EvidenceSource::LsLd, raw, path: Some(path) }
}

fn ev(raw: String, path: &str) -> (r: Evidence)
    ensures
        r@ == ev_model(raw@, path@),
{
    Evidence { source: EvidenceSource::LsLd, raw, path: Some(lit(path)) }
}

pub open spec fn lstat_line(path: Seq<char>, m: NodeMeta) -> Seq<char> {
    perm_string_spec(m.mode) + " "@ + path
}

fn lstat_ev(path: &str, meta: &NodeMeta) -> (r: Evidence)
    ensures
        r@ == ev_model(lstat_line(path@, *meta), path@),
{
    let mut raw = perm_string(meta.mode);
    append_str(&mut raw, " ");
    append_str(&mut raw, path);
    ev(raw, path)
}

pub open spec fn error_model(detail: Seq<char>, evidence: Seq<EvidenceModel>) -> LayerResultModel {
    LayerResultModel {
        status: LayerStatus::Error,
        certainty: Certainty::Proven,
        evidence,
        fixes: seq![],
        detail,
    }
}

fn err(detail: String, evidence: Vec<Evidence>) -> (r: LayerResult)
    ensures
        r@ == error_model(detail@, evidence_models(evidence@)),
{
    let r = LayerResult {
        status: LayerStatus::Error,
        certainty: Certainty::Proven,
        evidence,
        fixes: Vec::new(),
        detail,
    };
    assert(r@.fixes =~= seq![]);
    r
}

pub open spec fn link_line(path: Seq<char>, lmeta: NodeMeta, target: Option<String>) -> Seq<char> {
    match target {
        Some(t) => perm_string_spec(lmeta.mode) + " "@ + path + " -> "@ + t@,
        None => perm_string_spec(lmeta.mode) + " "@ + path,
    }
}

/// A symlink resolves when its target exists; a refused lookup is left to
/// later layers; a loop, a missing target or another failure is an error.
pub open spec fn symlink_spec(path: Seq<char>, lmeta: NodeMeta, target: Option<String>, stat: Probe) -> LayerResultModel {
    let link_ev = ev_model(link_line(path, lmeta, target), path);
    match stat {
        Probe::Found(t) => pass_model(seq![link_ev, ev_model(lstat_line(path, t), path)]),
        Probe::Failed(e) => match e.kind {
            ErrKind::Access => skip_model(),
            ErrKind::Loop => error_model("symlink loop resolving "@ + path, seq![link_ev]),
            ErrKind::NotFound | ErrKind::NotDir => error_model(
                "broken symlink: "@ + path + " target does not exist"@,
                seq![link_ev],
            ),
            ErrKind::Other => error_model(
                "symlink target unresolvable: "@ + e.text@,
                seq![link_ev],
            ),
        },
    }
}

fn resolve_symlink(path: &str, lmeta: &NodeMeta, target: &Option<String>, stat: &Probe) -> (r:
    LayerResult)
    ensures
        r@ == symlink_spec(path@, *lmeta, *target, *stat),
{
    let mut line = perm_string(lmeta.mode);
    append_str(&mut line, " ");
    append_str(&mut line, path);
    match target {
        Some(t) => {
            append_str(&mut line, " -> ");
            append_str(&mut line, t.as_str());
        },
        None => {},
    }
    let link_ev = ev(line, path);
    match stat {
        Probe::Found(tmeta) => {
            let mut v: Vec<Evidence> = Vec::new();
            v.push(link_ev);
            v.push(lstat_ev(path, tmeta));
            assert(evidence_models(v@) =~= seq![
                ev_model(link_line(path@, *lmeta, *target), path@),
                ev_model(lstat_line(path@, *tmeta), path@),
            ]);
            LayerResult::pass(v)
        },
        Probe::Failed(e) => {
            let mut v: Vec<Evidence> = Vec::new();
            v.push(link_ev);
            assert(evidence_models(v@) =~= seq![ev_model(link_line(path@, *lmeta, *target), path@)]);
            match e.kind {
                ErrKind::Access => LayerResult::skip(),
                ErrKind::Loop => {
                    let mut d = lit("symlink loop resolving ");
                    append_str(&mut d, path);
                    err(d, v)
                },
                ErrKind::NotFound | ErrKind::NotDir => {
                    let mut d = lit("broken symlink: ");
                    append_str(&mut d, path);
                    append_str(&mut d, " target does not exist");
                    err(d, v)
                },
                ErrKind::Other => {
                    let mut d = lit("symlink target unresolvable: ");
                    append_str(&mut d, e.text.as_str());
                    err(d, v)
                },
            }
        },
    }
}

/// A failed `lstat`: refused lookups are left to later layers, anything
/// else makes the target an error.
pub open spec fn classify_spec(path: Seq<char>, e: IoFailure) -> LayerResultModel {
    let raw = ev_model("lstat "@ + path + ": "@ + e.text@, path);
    match e.kind {
        ErrKind::Access => skip_model(),
        ErrKind::NotFound => error_model("target does not exist: "@ + path, seq![raw]),
        ErrKind::NotDir => error_model(
            "a path component of "@ + path + " is not a directory"@,
            seq![raw],
        ),
        _ => error_model("cannot stat "@ + path + ": "@ + e.text@, seq![raw]),
    }
}

fn classify(path: &str, e: &IoFailure) -> (r: LayerResult)
    ensures
        r@ == classify_spec(path@, *e),
{
    let mut line = lit("lstat ");
    append_str(&mut line, path);
    append_str(&mut line, ": ");
    append_str(&mut line, e.text.as_str());
    let mut v: Vec<Evidence> = Vec::new();
    v.push(ev(line, path));
    assert(evidence_models(v@) =~= seq![ev_model("lstat "@ + path@ + ": "@ + e.text@, path@)]);
    match e.kind {
        ErrKind::Access => LayerResult::skip(),
        ErrKind::NotFound => {
            let mut d = lit("target does not exist: ");
            append_str(&mut d, path);
            err(d, v)
        },
        ErrKind::NotDir => {
            let mut d = lit("a path component of ");
            append_str(&mut d, path);
            append_str(&mut d, " is not a directory");
            err(d, v)
        },
        _ => {
            let mut d = lit("cannot stat ");
            append_str(&mut d, path);
            append_str(&mut d, ": ");
            append_str(&mut d, e.text.as_str());
            err(d, v)
        },
    }
}

/// A create whose target does not exist yet: its parent directory must.
/// A found directory passes; a found non-directory, or a missing parent, is
/// a target error; a lookup refused by permissions is left to later layers.
pub open spec fn absent_for_create_spec(path: Seq<char>, par: Seq<char>, parent: Probe) -> LayerResultModel {
    match parent {
        Probe::Found(m) => if m.is_dir {
            pass_model(seq![ev_model(lstat_line(par, m), par)])
        } else {
            error_model(
                "a path component of "@ + path + " is not a directory"@,
                seq![ev_model(lstat_line(par, m), par)],
            )
        },
        Probe::Failed(e) => {
            let raw = ev_model("stat "@ + par + ": "@ + e.text@, par);
            match e.kind {
                ErrKind::Access => skip_model(),
                ErrKind::NotFound | ErrKind::NotDir => error_model(
                    "parent directory does not exist: "@ + par,
                    seq![raw],
                ),
                _ => error_model("cannot stat "@ + par + ": "@ + e.text@, seq![raw]),
            }
        },
    }
}

pub fn absent_for_create(path: &str, par: &str, parent: &Probe) -> (r: LayerResult)
    ensures
        r@ == absent_for_create_spec(path@, par@, *parent),
{
    match parent {
        Probe::Found(m) => {
            let mut v: Vec<Evidence> = Vec::new();
            v.push(lstat_ev(par, m));
            assert(evidence_models(v@) =~= seq![ev_model(lstat_line(par@, *m), par@)]);
            if m.is_dir {
                LayerResult::pass(v)
            } else {
                let mut d = lit("a path component of ");
                append_str(&mut d, path);
                append_str(&mut d, " is not a directory");
                err(d, v)
            }
        },
        Probe::Failed(e) => {
            let mut line = lit("stat ");
            append_str(&mut line, par);
            append_str(&mut line, ": ");
            append_str(&mut line, e.text.as_str());
            let mut v: Vec<Evidence> = Vec::new();
            v.push(ev(line, par));
            assert(evidence_models(v@) =~= seq![ev_model("stat "@ + par@ + ": "@ + e.text@, par@)]);
            match e.kind {
                ErrKind::Access => LayerResult::skip(),
                ErrKind::NotFound | ErrKind::NotDir => {
                    let mut d = lit("parent directory does not exist: ");
                    append_str(&mut d, par);
                    err(d, v)
                },
                _ => {
                    let mut d = lit("cannot stat ");
                    append_str(&mut d, par);
                    append_str(&mut d, ": ");
                    append_str(&mut d, e.text.as_str());
                    err(d, v)
                },
            }
        },
    }
}

/// The target must exist, except that a create needs only its parent.
pub open spec fn existence_spec(facts: Facts, op: Op) -> LayerResultModel {
    let path = facts.path@;
    match facts.lstat {
        Probe::Found(m) => if m.is_symlink {
            symlink_spec(path, m, facts.link_target, facts.stat)
        } else {
            pass_model(seq![ev_model(lstat_line(path, m), path)])
        },
        Probe::Failed(e) => if op == Op::Create && e.kind == ErrKind::NotFound {
            absent_for_create_spec(path, parent_of_spec(path), facts.parent)
        } else {
            classify_spec(path, e)
        },
    }
}

impl Layer for ExistenceLayer {
    open spec fn spec_name(&self) -> Seq<char> {
        "existence"@
    }

    open spec fn spec_order(&self) -> u8 {
        1
    }

    open spec fn spec_id(&self) -> LayerId {
        LayerId::Existence
    }

    open spec fn spec_check(&self, target: Identity, facts: Facts, op: Op) -> LayerResultModel {
        existence_spec(facts, op)
    }

    fn name(&self) -> (r: String) {
        lit("existence")
    }

    fn order(&self) -> (r: u8) {
        1
    }

    fn id(&self) -> (r: LayerId) {
        LayerId::Existence
    }

    fn check(&self, _target: &Identity, facts: &Facts, op: Op) -> (r: LayerResult) {
        let path = facts.path.as_str();
        match &facts.lstat {
            Probe::Found(m) => {
                if m.is_symlink {
                    resolve_symlink(path, m, &facts.link_target, &facts.stat)
                } else {
                    let mut v: Vec<Evidence> = Vec::new();
                    v.push(lstat_ev(path, m));
                    assert(evidence_models(v@) =~= seq![ev_model(lstat_line(path@, *m), path@)]);
                    LayerResult::pass(v)
                }
            },
            Probe::Failed(e) => {
                if op == Op::Create && e.kind == ErrKind::NotFound {
                    absent_for_create(path, parent_of(path).as_str(), &facts.parent)
                } else {
                    classify(path, e)
                }
            },
        }
    }
}

/// A lookup of the target refused by permissions (`EACCES`) is no target
/// error: the existence layer skips, for every op, leaving the refusal to
/// the later layers, and a run of the standard chain never ends as a target
/// error.
pub proof fn refused_lookup_law(id: Identity, facts: Facts, op: Op, all: bool)
    requires
        facts.lstat matches Probe::Failed(e) && e.kind == ErrKind::Access,
    ensures
        existence_spec(facts, op) == skip_model(),
        run_spec(outcomes(default_chain_spec(), id, facts, op), all, id, facts, op).verdict
            != Verdict::TargetError,
{
    let chain = default_chain_spec();
    let s = outcomes(chain, id, facts, op);
    assert forall|i: int| 0 <= i < chain.len() implies !is_fatal(#[trigger] outcomes(chain, id, facts, op)[i]) by {
        chain_order_law(i);
        if i == 0 {
            assert(chain[0] == StdLayer::Existence);
        }
    }
    target_error_needs_fatal_law(chain, id, facts, op, all);
}

/// Any other failed lookup of the target (missing, a component that is
/// not a directory, a symlink loop, any other error), except a create of a
/// missing target, is a target error: the standard chain stops at the
/// existence layer and reports it alone.
pub proof fn failed_lookup_is_target_error_law(id: Identity, facts: Facts, op: Op, all: bool)
    requires
        facts.lstat matches Probe::Failed(e) && e.kind != ErrKind::Access && !(op == Op::Create
            && e.kind == ErrKind::NotFound),
    ensures
        existence_spec(facts, op).status == LayerStatus::Error,
        ({
            let r = run_spec(outcomes(default_chain_spec(), id, facts, op), all, id, facts, op);
            &&& r.verdict == Verdict::TargetError
            &&& r.blocking_layer == Some(LayerId::Existence)
            &&& r.layer_results.len() == 1
        }),
{
    let chain = default_chain_spec();
    assert(chain[0] == StdLayer::Existence);
    fatal_error_is_target_error_law(chain, id, facts, op, all, 0);
}

} // verus!
