//! The attribute layer: an immutable node refuses every change, an
//! append-only node refuses overwriting and deletion, and the directory that
//! gates a create or delete refuses it when its own attributes forbid
//! changing its entries.

use vstd::prelude::*;
use crate::engine::{
    block_model, pass_model, skip_model, Layer, LayerResult, LayerResultModel, LayerStatus,
};
use crate::facts::{AttrFlags, Facts};
use crate::identity::Identity;
use crate::layers::mount::{op_word, op_word_spec};
use crate::op::Op;
use crate::paths::{parent_of, parent_of_spec};
use crate::report::{
    evidence_models, fix_models, Certainty, Evidence, EvidenceModel, EvidenceSource, Fix,
    FixAction, FixActionModel, FixModel, LayerId, Risk,
};
use crate::text::{append_str, lit, views};

verus! {

pub struct AttrLayer;

/// The attribute that refuses an op.
#[derive(Clone, Copy, PartialEq, Eq, Debug, Structural)]
pub enum Attr {
    Immutable,
    AppendOnly,
}

/// The attribute's letter, as `lsattr` prints it and `chattr` takes it.
pub open spec fn attr_letter(a: Attr) -> Seq<char> {
    match a {
        Attr::Immutable => "i"@,
        Attr::AppendOnly => "a"@,
    }
}

pub open spec fn attr_word(a: Attr) -> Seq<char> {
    match a {
        Attr::Immutable => "immutable"@,
        Attr::AppendOnly => "append-only"@,
    }
}

/// The two flags as `lsattr` columns, `-` where a flag is clear.
pub open spec fn flag_letters(f: AttrFlags) -> Seq<char> {
    (if f.immutable {
        "i"@
    } else {
        "-"@
    }) + (if f.append_only {
        "a"@
    } else {
        "-"@
    })
}

/// `<flags> <path>`: the flags read for a node.
pub open spec fn attr_evidence(f: AttrFlags, path: Seq<char>) -> EvidenceModel {
    EvidenceModel {
        source: EvidenceSource::Lsattr,
        raw: flag_letters(f) + " "@ + path,
        path: Some(path),
    }
}

/// `chattr -<letter> <path>`: clears the attribute; only a process with
/// `CAP_LINUX_IMMUTABLE` may.
pub open spec fn chattr_model(a: Attr, path: Seq<char>) -> FixModel {
    FixModel {
        action: FixActionModel::Run { argv: seq!["chattr"@, "-"@ + attr_letter(a), path] },
        needs_root: true,
        description: "clear the "@ + attr_word(a) + " attribute on "@ + path,
        risk: Risk::Medium,
        rationale: "the attribute was set on purpose; clearing it needs CAP_LINUX_IMMUTABLE"@,
    }
}

/// The attribute of a node that refuses `op` on the node itself: an
/// immutable node refuses writing and deletion, and so does an
/// append-only one (writing other than appending).
pub open spec fn own_refusal(f: AttrFlags, op: Op) -> Option<Attr> {
    if (op == Op::Write || op == Op::Delete) && f.immutable {
        Some(Attr::Immutable)
    } else if (op == Op::Write || op == Op::Delete) && f.append_only {
        Some(Attr::AppendOnly)
    } else {
        None
    }
}

/// The attribute of the gating directory that refuses `op` on one of its
/// entries: an immutable directory refuses adding and removing entries, an
/// append-only one refuses removing them.
pub open spec fn parent_refusal(f: AttrFlags, op: Op) -> Option<Attr> {
    if (op == Op::Create || op == Op::Delete) && f.immutable {
        Some(Attr::Immutable)
    } else if op == Op::Delete && f.append_only {
        Some(Attr::AppendOnly)
    } else {
        None
    }
}

/// A proven block by attribute `a` of the node at `path`, whose flags are `f`.
pub open spec fn refusal_model(a: Attr, f: AttrFlags, path: Seq<char>, op: Op) -> LayerResultModel {
    block_model(
        Certainty::Proven,
        path + " is "@ + attr_word(a) + "; "@ + op_word_spec(op) + " refused"@,
        seq![attr_evidence(f, path)],
        seq![chattr_model(a, path)],
    )
}

/// The target's own attributes are consulted first, then those of the
/// directory that gates the op; with neither read the layer is
/// inapplicable, and with nothing refusing it passes.
pub open spec fn attrs_check_spec(facts: Facts, op: Op) -> LayerResultModel {
    let path = facts.path@;
    let own = match facts.attrs {
        Some(f) => own_refusal(f, op),
        None => None,
    };
    let par = match facts.parent_attrs {
        Some(g) => parent_refusal(g, op),
        None => None,
    };
    match own {
        Some(a) => refusal_model(a, facts.attrs->Some_0, path, op),
        None => match par {
            Some(a) => refusal_model(a, facts.parent_attrs->Some_0, parent_of_spec(path), op),
            None => if facts.attrs is None && facts.parent_attrs is None {
                skip_model()
            } else {
                pass_model(seq![])
            },
        },
    }
}

fn own_refusal_exec(f: AttrFlags, op: Op) -> (r: Option<Attr>)
    ensures
        r == own_refusal(f, op),
{
    if (op == Op::Write || op == Op::Delete) && f.immutable {
        Some(Attr::Immutable)
    } else if (op == Op::Write || op == Op::Delete) && f.append_only {
        Some(Attr::AppendOnly)
    } else {
        None
    }
}

fn parent_refusal_exec(f: AttrFlags, op: Op) -> (r: Option<Attr>)
    ensures
        r == parent_refusal(f, op),
{
    if (op == Op::Create || op == Op::Delete) && f.immutable {
        Some(Attr::Immutable)
    } else if op == Op::Delete && f.append_only {
        Some(Attr::AppendOnly)
    } else {
        None
    }
}

fn letter(a: Attr) -> (r: &'static str)
    ensures
        r@ == attr_letter(a),
{
    match a {
        Attr::Immutable => "i",
        Attr::AppendOnly => "a",
    }
}

fn word(a: Attr) -> (r: &'static str)
    ensures
        r@ == attr_word(a),
{
    match a {
        Attr::Immutable => "immutable",
        Attr::AppendOnly => "append-only",
    }
}

/// The evidence line for a node's flags.
pub fn evidence_for(f: AttrFlags, path: &str) -> (r: Evidence)
    ensures
        r@ == attr_evidence(f, path@),
{
    let mut raw = lit(
        if f.immutable {
            "i"
        } else {
            "-"
        },
    );
    append_str(
        &mut raw,
        if f.append_only {
            "a"
        } else {
            "-"
        },
    );
    append_str(&mut raw, " ");
    append_str(&mut raw, path);
    Evidence { source: EvidenceSource::Lsattr, raw, path: Some(lit(path)) }
}

/// The fix that clears attribute `a` on `path`.
pub fn chattr_fix(a: Attr, path: &str) -> (r: Fix)
    ensures
        r@ == chattr_model(a, path@),
{
    let mut flag = lit("-");
    append_str(&mut flag, letter(a));
    let mut argv: Vec<String> = Vec::new();
    argv.push(lit("chattr"));
    argv.push(flag);
    argv.push(lit(path));
    assert(views(argv@) =~= seq!["chattr"@, "-"@ + attr_letter(a), path@]);
    let mut desc = lit("clear the ");
    append_str(&mut desc, word(a));
    append_str(&mut desc, " attribute on ");
    append_str(&mut desc, path);
    Fix {
        action: FixAction::Run { argv },
        needs_root: true,
        description: desc,
        risk: Risk::Medium,
        rationale: lit("the attribute was set on purpose; clearing it needs CAP_LINUX_IMMUTABLE"),
    }
}

/// The proven block by attribute `a` of the node at `path`.
pub fn refusal(a: Attr, f: AttrFlags, path: &str, op: Op) -> (r: LayerResult)
    ensures
        r@ == refusal_model(a, f, path@, op),
{
    let mut detail = lit(path);
    append_str(&mut detail, " is ");
    append_str(&mut detail, word(a));
    append_str(&mut detail, "; ");
    append_str(&mut detail, op_word(op));
    append_str(&mut detail, " refused");
    let mut evs: Vec<Evidence> = Vec::new();
    evs.push(evidence_for(f, path));
    let mut fixes: Vec<Fix> = Vec::new();
    fixes.push(chattr_fix(a, path));
    assert(evidence_models(evs@) =~= seq![attr_evidence(f, path@)]);
    assert(fix_models(fixes@) =~= seq![chattr_model(a, path@)]);
    LayerResult::block(Certainty::Proven, detail, evs, fixes)
}

/// An immutable node refuses writing and deletion with a proven block whose
/// fix is `chattr`; an append-only node refuses the same; read, exec and
/// traverse are never refused; and a directory that refuses nothing of its
/// entries, under a target that refuses nothing, never blocks.
pub proof fn attrs_law(facts: Facts, op: Op)
    ensures
        (facts.attrs matches Some(f) && (f.immutable || f.append_only) && (op == Op::Write || op
            == Op::Delete)) ==> ({
            let r = attrs_check_spec(facts, op);
            &&& r.status == LayerStatus::Block
            &&& r.certainty == Certainty::Proven
            &&& r.fixes.len() == 1
            &&& r.fixes[0].action matches FixActionModel::Run { argv } && argv[0] == "chattr"@
        }),
        (op == Op::Read || op == Op::Exec || op == Op::Traverse) ==> attrs_check_spec(
            facts,
            op,
        ).status != LayerStatus::Block,
        attrs_check_spec(facts, op).status == LayerStatus::Block ==> attrs_check_spec(
            facts,
            op,
        ).certainty == Certainty::Proven,
        (facts.parent_attrs matches Some(g) && g.immutable && op == Op::Create)
            ==> attrs_check_spec(facts, op).status == LayerStatus::Block,
        (!(facts.attrs matches Some(f) && (f.immutable || f.append_only)) && !(
        facts.parent_attrs matches Some(g) && (g.immutable || g.append_only)))
            ==> attrs_check_spec(facts, op).status != LayerStatus::Block,
{
}

impl Layer for AttrLayer {
    open spec fn spec_name(&self) -> Seq<char> {
        "attrs"@
    }

    open spec fn spec_order(&self) -> u8 {
        5
    }

    open spec fn spec_id(&self) -> LayerId {
        LayerId::Attrs
    }

    open spec fn spec_check(&self, target: Identity, facts: Facts, op: Op) -> LayerResultModel {
        attrs_check_spec(facts, op)
    }

    fn name(&self) -> (r: String) {
        lit("attrs")
    }

    fn order(&self) -> (r: u8) {
        5
    }

    fn id(&self) -> (r: LayerId) {
        LayerId::Attrs
    }

    fn check(&self, _target: &Identity, facts: &Facts, op: Op) -> (r: LayerResult) {
        let own = match facts.attrs {
            Some(f) => own_refusal_exec(f, op),
            None => None,
        };
        if let Some(a) = own {
            return refusal(a, facts.attrs.unwrap(), facts.path.as_str(), op);
        }
        let par = match facts.parent_attrs {
            Some(g) => parent_refusal_exec(g, op),
            None => None,
        };
        if let Some(a) = par {
            let dir = parent_of(facts.path.as_str());
            return refusal(a, facts.parent_attrs.unwrap(), dir.as_str(), op);
        }
        if facts.attrs.is_none() && facts.parent_attrs.is_none() {
            LayerResult::skip()
        } else {
            let ev: Vec<Evidence> = Vec::new();
            assert(evidence_models(ev@) =~= seq![]);
            LayerResult::pass(ev)
        }
    }
}

} // verus!
