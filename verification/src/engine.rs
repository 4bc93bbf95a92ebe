//! The ordered layer chain runner. Threads one `(identity, facts, op)`
//! through every [`Layer`] in fixed order, stops reporting at the first
//! proven block, folds the per-layer outcomes into a verdict, and assembles
//! the [`Report`].

use vstd::prelude::*;
use vstd::string::*;
use crate::access_check::{cross_check, cross_model, unavailable, unavailable_model};
use crate::facts::{Facts, Probe};
use crate::identity::Identity;
use crate::layers::StdLayer;
use crate::op::Op;
use crate::paths::{file_name, spec_file_name};
use crate::report::{
    self, copy_evidence, copy_fixes, evidence_models, fix_models, Certainty, CrossCheckModel,
    Evidence, EvidenceModel, Fix, FixModel, IdentityReportModel, LayerId, Mark, NodeKind,
    NodeKindModel, PathComponent, PathComponentModel, Report, ReportModel, Verdict,
};
use crate::text::{append_str, dec, dec_u64, lit};

verus! {

/// Per-layer outcome the runner acts on.
#[derive(Clone, Copy, PartialEq, Eq, Debug, Structural)]
pub enum LayerStatus {
    /// Layer applies and permits the op; the walk continues.
    Pass,
    /// Layer denies the op; the reported verdict when earliest and proven.
    Block,
    /// Denial inferred without conclusive evidence; carries `Suspected`.
    Suspect,
    /// Layer inapplicable on this platform or path; ignored for the verdict.
    Skip,
    /// Layer-local read failure; recorded, and on layer 1 aborts to a target error.
    Error,
}

/// What one layer concluded.
pub struct LayerResult {
    pub status: LayerStatus,
    pub certainty: Certainty,
    pub evidence: Vec<Evidence>,
    pub fixes: Vec<Fix>,
    pub detail: String,
}

pub ghost struct LayerResultModel {
    pub status: LayerStatus,
    pub certainty: Certainty,
    pub evidence: Seq<EvidenceModel>,
    pub fixes: Seq<FixModel>,
    pub detail: Seq<char>,
}

impl View for LayerResult {
    type V = LayerResultModel;

    open spec fn view(&self) -> LayerResultModel {
        LayerResultModel {
            status: self.status,
            certainty: self.certainty,
            evidence: evidence_models(self.evidence@),
            fixes: fix_models(self.fixes@),
            detail: self.detail@,
        }
    }
}

pub open spec fn skip_model() -> LayerResultModel {
    LayerResultModel {
        status: LayerStatus::Skip,
        certainty: Certainty::Proven,
        evidence: seq![],
        fixes: seq![],
        detail: seq![],
    }
}

pub open spec fn pass_model(evidence: Seq<EvidenceModel>) -> LayerResultModel {
    LayerResultModel {
        status: LayerStatus::Pass,
        certainty: Certainty::Proven,
        evidence,
        fixes: seq![],
        detail: seq![],
    }
}

pub open spec fn block_model(
    certainty: Certainty,
    detail: Seq<char>,
    evidence: Seq<EvidenceModel>,
    fixes: Seq<FixModel>,
) -> LayerResultModel {
    LayerResultModel { status: LayerStatus::Block, certainty, evidence, fixes, detail }
}

pub open spec fn suspect_model(
    detail: Seq<char>,
    evidence: Seq<EvidenceModel>,
    fixes: Seq<FixModel>,
) -> LayerResultModel {
    LayerResultModel {
        status: LayerStatus::Suspect,
        certainty: Certainty::Suspected,
        evidence,
        fixes,
        detail,
    }
}

impl LayerResult {
    /// An inapplicable layer.
    pub fn skip() -> (r: Self)
        ensures
            r@ == skip_model(),
    {
        let r = LayerResult {
            status: LayerStatus::Skip,
            certainty: Certainty::Proven,
            evidence: Vec::new(),
            fixes: Vec::new(),
            detail: String::new(),
        };
        assert(r@.evidence =~= seq![]);
        assert(r@.fixes =~= seq![]);
        r
    }

    /// A layer that permits the op, with its evidence.
    pub fn pass(evidence: Vec<Evidence>) -> (r: Self)
        ensures
            r@ == pass_model(evidence_models(evidence@)),
    {
        let r = LayerResult {
            status: LayerStatus::Pass,
            certainty: Certainty::Proven,
            evidence,
            fixes: Vec::new(),
            detail: String::new(),
        };
        assert(r@.fixes =~= seq![]);
        r
    }

    /// A layer that denies the op.
    pub fn block(certainty: Certainty, detail: String, evidence: Vec<Evidence>, fixes: Vec<Fix>) -> (r:
        Self)
        ensures
            r@ == block_model(certainty, detail@, evidence_models(evidence@), fix_models(fixes@)),
    {
        LayerResult { status: LayerStatus::Block, certainty, evidence, fixes, detail }
    }

    /// A layer that suspects a denial it cannot prove.
    pub fn suspect(detail: String, evidence: Vec<Evidence>, fixes: Vec<Fix>) -> (r: Self)
        ensures
            r@ == suspect_model(detail@, evidence_models(evidence@), fix_models(fixes@)),
    {
        LayerResult {
            status: LayerStatus::Suspect,
            certainty: Certainty::Suspected,
            evidence,
            fixes,
            detail,
        }
    }
}

/// One access-control layer: evaluates a snapshot of the system against a
/// target identity for one op. Each method's result is what the matching
/// spec function says; the defaults describe an inapplicable, unnamed
/// layer, and every layer of this crate states its own.
pub trait Layer {
    /// The name, as a sequence of characters.
    open spec fn spec_name(&self) -> Seq<char> {
        seq![]
    }

    /// The chain position.
    open spec fn spec_order(&self) -> u8 {
        0
    }

    /// The identifier.
    open spec fn spec_id(&self) -> LayerId {
        LayerId::Existence
    }

    /// What the layer concludes for a target identity, a snapshot and an op.
    open spec fn spec_check(&self, target: Identity, facts: Facts, op: Op) -> LayerResultModel {
        skip_model()
    }

    /// Short human name used in output and warnings.
    fn name(&self) -> (r: String)
        ensures
            r@ == self.spec_name(),
    ;

    /// Fixed position in the chain, 1 through 11.
    fn order(&self) -> (r: u8)
        ensures
            r == self.spec_order(),
    ;

    /// Serializable identifier of this layer.
    fn id(&self) -> (r: LayerId)
        ensures
            r == self.spec_id(),
    ;

    /// Evaluates `op` for `target` against `facts`.
    fn check(&self, target: &Identity, facts: &Facts, op: Op) -> (r: LayerResult)
        ensures
            r@ == self.spec_check(*target, *facts, op),
    ;
}

// ---------------------------------------------------------------------
// The fold, as mathematics
// ---------------------------------------------------------------------

/// What the runner learns from one layer.
pub ghost struct Outcome {
    pub id: LayerId,
    pub order: u8,
    pub name: Seq<char>,
    pub result: LayerResultModel,
}

pub open spec fn outcome_of<L: Layer>(l: L, target: Identity, facts: Facts, op: Op) -> Outcome {
    Outcome {
        id: l.spec_id(),
        order: l.spec_order(),
        name: l.spec_name(),
        result: l.spec_check(target, facts, op),
    }
}

pub open spec fn outcomes<L: Layer>(chain: Seq<L>, target: Identity, facts: Facts, op: Op) -> Seq<
    Outcome,
> {
    chain.map_values(|l: L| outcome_of(l, target, facts, op))
}

/// A read failure on the first layer: the target itself is unresolvable.
pub open spec fn is_fatal(o: Outcome) -> bool {
    o.result.status == LayerStatus::Error && o.order == 1
}

pub open spec fn is_proven_block(o: Outcome) -> bool {
    o.result.status == LayerStatus::Block && o.result.certainty == Certainty::Proven
}

pub open spec fn is_suspected_block(o: Outcome) -> bool {
    o.result.status == LayerStatus::Block && o.result.certainty != Certainty::Proven
}

/// Whether the walk ends at this outcome: on a fatal error always, on a
/// proven block unless every layer was asked for.
pub open spec fn halts(o: Outcome, all: bool) -> bool {
    is_fatal(o) || (!all && is_proven_block(o))
}

pub open spec fn first_halt(s: Seq<Outcome>, n: int, all: bool) -> Option<int>
    decreases n,
{
    if n <= 0 {
        None
    } else {
        match first_halt(s, n - 1, all) {
            Some(j) => Some(j),
            None => if halts(s[n - 1], all) {
                Some(n - 1)
            } else {
                None
            },
        }
    }
}

pub open spec fn first_proven(s: Seq<Outcome>, n: int) -> Option<int>
    decreases n,
{
    if n <= 0 {
        None
    } else {
        match first_proven(s, n - 1) {
            Some(j) => Some(j),
            None => if is_proven_block(s[n - 1]) {
                Some(n - 1)
            } else {
                None
            },
        }
    }
}

pub open spec fn first_suspected(s: Seq<Outcome>, n: int) -> Option<int>
    decreases n,
{
    if n <= 0 {
        None
    } else {
        match first_suspected(s, n - 1) {
            Some(j) => Some(j),
            None => if is_suspected_block(s[n - 1]) {
                Some(n - 1)
            } else {
                None
            },
        }
    }
}

pub open spec fn any_suspect(s: Seq<Outcome>, n: int) -> bool
    decreases n,
{
    if n <= 0 {
        false
    } else {
        any_suspect(s, n - 1) || s[n - 1].result.status == LayerStatus::Suspect
    }
}

/// Whether some layer among the first `n` could not decide.
pub open spec fn any_error(s: Seq<Outcome>, n: int) -> bool
    decreases n,
{
    if n <= 0 {
        false
    } else {
        any_error(s, n - 1) || s[n - 1].result.status == LayerStatus::Error
    }
}

/// Whether some layer among the first `n` leaves the outcome open: a
/// suspicion, or a layer that could not decide.
pub open spec fn any_undecided(s: Seq<Outcome>, n: int) -> bool {
    any_suspect(s, n) || any_error(s, n)
}

/// How many layers are evaluated and reported.
pub open spec fn evaluated(s: Seq<Outcome>, all: bool) -> int {
    match first_halt(s, s.len() as int, all) {
        Some(j) => j + 1,
        None => s.len() as int,
    }
}

/// The outcome named as the culprit: the earliest proven block, else the
/// earliest suspected block.
pub open spec fn culprit_index(s: Seq<Outcome>, n: int) -> Option<int> {
    match first_proven(s, n) {
        Some(j) => Some(j),
        None => first_suspected(s, n),
    }
}

pub open spec fn fold_verdict(s: Seq<Outcome>, n: int) -> Verdict {
    match culprit_index(s, n) {
        Some(_) => Verdict::Blocked,
        None => if any_undecided(s, n) {
            Verdict::Indeterminate
        } else {
            Verdict::Allowed
        },
    }
}

pub open spec fn fold_certainty(s: Seq<Outcome>, n: int) -> Certainty {
    match culprit_index(s, n) {
        Some(j) => s[j].result.certainty,
        None => if any_undecided(s, n) {
            Certainty::Suspected
        } else {
            Certainty::Proven
        },
    }
}

pub open spec fn status_word(s: LayerStatus) -> report::LayerStatus {
    match s {
        LayerStatus::Pass => report::LayerStatus::Pass,
        LayerStatus::Block => report::LayerStatus::Block,
        LayerStatus::Suspect => report::LayerStatus::Suspect,
        LayerStatus::Skip => report::LayerStatus::Skip,
        LayerStatus::Error => report::LayerStatus::Unknown,
    }
}

pub open spec fn report_result(o: Outcome) -> report::LayerResultModel {
    report::LayerResultModel {
        layer: o.id,
        status: status_word(o.result.status),
        certainty: o.result.certainty,
        summary: o.result.detail,
        evidence: o.result.evidence,
    }
}

pub open spec fn warnings_of(s: Seq<Outcome>, n: int) -> Seq<Seq<char>>
    decreases n,
{
    if n <= 0 {
        seq![]
    } else {
        warnings_of(s, n - 1) + if s[n - 1].result.status == LayerStatus::Error {
            seq![s[n - 1].name + ": "@ + s[n - 1].result.detail]
        } else {
            seq![]
        }
    }
}

pub open spec fn base_model(op: Op, path: Seq<char>, identity: IdentityReportModel) -> ReportModel {
    ReportModel {
        schema_version: 1,
        tool: "whycant"@,
        identity,
        op,
        path,
        resolved_path: None,
        verdict: Verdict::Allowed,
        certainty: Certainty::Proven,
        culprit: None,
        blocking_layer: None,
        evidence_chain: seq![],
        layer_results: seq![],
        fixes: seq![],
        cross_check: None,
        warnings: seq![],
    }
}

/// The report after the fold, before the evidence chain and cross-check.
pub open spec fn folded(s: Seq<Outcome>, n: int, base: ReportModel) -> ReportModel {
    let c = culprit_index(s, n);
    ReportModel {
        verdict: fold_verdict(s, n),
        certainty: fold_certainty(s, n),
        culprit: match c {
            Some(j) => Some(s[j].result.detail),
            None => None,
        },
        blocking_layer: match c {
            Some(j) => Some(s[j].id),
            None => None,
        },
        fixes: match c {
            Some(j) => s[j].result.fixes,
            None => seq![],
        },
        layer_results: s.take(n).map_values(|o: Outcome| report_result(o)),
        warnings: warnings_of(s, n),
        ..base
    }
}

/// How the target's own node is drawn: missing, a symlink with its link
/// text, a directory, or a file.
pub open spec fn terminal_kind_spec(facts: Facts) -> NodeKindModel {
    match facts.lstat {
        Probe::Failed(_) => NodeKindModel::Missing,
        Probe::Found(m) => if m.is_symlink {
            NodeKindModel::Symlink {
                target: match facts.link_target {
                    Some(t) => t@,
                    None => seq![],
                },
            }
        } else if m.is_dir {
            NodeKindModel::Dir
        } else {
            NodeKindModel::File
        },
    }
}

/// The permission letters an op needs on its node.
pub open spec fn need_of(op: Op) -> Seq<char> {
    match op {
        Op::Read => "r"@,
        Op::Write => "w"@,
        Op::Exec | Op::Traverse => "x"@,
        Op::Delete | Op::Create => "wx"@,
    }
}

/// A path's final component, or the whole path when it has none.
pub open spec fn component_name_spec(p: Seq<char>) -> Seq<char> {
    match spec_file_name(p) {
        Some(n) => n,
        None => p,
    }
}

pub open spec fn subject_of(id: Identity) -> Seq<char> {
    match id.name {
        Some(n) => n@,
        None => "uid "@ + dec(id.uid as nat),
    }
}

pub open spec fn first_traverse(rs: Seq<report::LayerResultModel>, n: int) -> Option<int>
    decreases n,
{
    if n <= 0 {
        None
    } else {
        match first_traverse(rs, n - 1) {
            Some(j) => Some(j),
            None => if rs[n - 1].layer == LayerId::Traverse {
                Some(n - 1)
            } else {
                None
            },
        }
    }
}

/// The chain entry for the `i`th directory the traverse layer looked at.
pub open spec fn ancestor_component(
    tr: report::LayerResultModel,
    i: int,
    blocked_in_traverse: bool,
    subject: Seq<char>,
) -> PathComponentModel {
    let ev = tr.evidence[i];
    let is_blocker = blocked_in_traverse && i + 1 == tr.evidence.len() && tr.status
        == report::LayerStatus::Block;
    PathComponentModel {
        name: match ev.path {
            Some(p) => component_name_spec(p),
            None => seq![],
        },
        kind: NodeKindModel::Dir,
        mark: if is_blocker {
            Mark::Block
        } else {
            Mark::Pass
        },
        need: "x"@,
        evidence: Some(ev),
        note: if is_blocker {
            Some(subject + " lacks traverse"@)
        } else {
            None
        },
        layer: Some(LayerId::Traverse),
    }
}

pub open spec fn terminal_mark(blocked_in_traverse: bool, v: Verdict) -> Mark {
    if blocked_in_traverse {
        Mark::NotReached
    } else if v == Verdict::Blocked {
        Mark::Block
    } else {
        Mark::Pass
    }
}

/// The evidence chain: every directory the traverse layer checked, then
/// the target itself.
pub open spec fn chain_spec(id: Identity, facts: Facts, op: Op, rep: ReportModel) -> Seq<
    PathComponentModel,
> {
    let subject = subject_of(id);
    let bit = rep.blocking_layer == Some(LayerId::Traverse);
    let upper = match first_traverse(rep.layer_results, rep.layer_results.len() as int) {
        Some(t) => Seq::new(
            rep.layer_results[t].evidence.len(),
            |i: int| ancestor_component(rep.layer_results[t], i, bit, subject),
        ),
        None => seq![],
    };
    let mark = terminal_mark(bit, rep.verdict);
    upper.push(
        PathComponentModel {
            name: component_name_spec(facts.path@),
            kind: terminal_kind_spec(facts),
            mark,
            need: need_of(op),
            evidence: None,
            note: if mark == Mark::Block {
                rep.culprit
            } else {
                None
            },
            layer: if mark == Mark::Block {
                rep.blocking_layer
            } else {
                None
            },
        },
    )
}

pub open spec fn cross_spec(id: Identity, facts: Facts, model_allows: bool) -> CrossCheckModel {
    match (id.is_self, facts.kernel) {
        (true, Some(k)) => cross_model(
            k.answer.allowed,
            k.answer.errno,
            (k.rwx.r, k.rwx.w, k.rwx.x),
            model_allows,
        ),
        _ => unavailable_model(id.uid, model_allows),
    }
}

/// The report the runner makes of a chain's outcomes.
pub open spec fn run_spec(s: Seq<Outcome>, all: bool, id: Identity, facts: Facts, op: Op) -> ReportModel {
    let base = base_model(op, facts.path@, facts.identity@);
    match first_halt(s, s.len() as int, all) {
        Some(j) if is_fatal(s[j]) => ReportModel {
            verdict: Verdict::TargetError,
            certainty: Certainty::Indeterminate,
            culprit: Some(s[j].result.detail),
            blocking_layer: Some(s[j].id),
            layer_results: seq![report_result(s[j])],
            ..base
        },
        _ => {
            let rep = folded(s, evaluated(s, all), base);
            ReportModel {
                evidence_chain: chain_spec(id, facts, op, rep),
                cross_check: Some(cross_spec(id, facts, rep.verdict == Verdict::Allowed)),
                ..rep
            }
        },
    }
}


// ---------------------------------------------------------------------
// Prefix lemmas
// ---------------------------------------------------------------------

proof fn lemma_first_halt_stable(s: Seq<Outcome>, n: int, m: int, all: bool)
    requires
        n <= m,
        first_halt(s, n, all) is Some,
    ensures
        first_halt(s, m, all) == first_halt(s, n, all),
    decreases m - n,
{
    if n < m {
        lemma_first_halt_stable(s, n, m - 1, all);
    }
}

proof fn lemma_first_halt_bound(s: Seq<Outcome>, n: int, all: bool)
    ensures
        first_halt(s, n, all) matches Some(j) ==> 0 <= j < n && halts(s[j], all),
    decreases n,
{
    if n > 0 {
        lemma_first_halt_bound(s, n - 1, all);
    }
}

proof fn lemma_first_proven_bound(s: Seq<Outcome>, n: int)
    ensures
        first_proven(s, n) matches Some(j) ==> 0 <= j < n && is_proven_block(s[j]),
    decreases n,
{
    if n > 0 {
        lemma_first_proven_bound(s, n - 1);
    }
}

proof fn lemma_first_suspected_bound(s: Seq<Outcome>, n: int)
    ensures
        first_suspected(s, n) matches Some(j) ==> 0 <= j < n && is_suspected_block(s[j]),
    decreases n,
{
    if n > 0 {
        lemma_first_suspected_bound(s, n - 1);
    }
}

proof fn lemma_first_traverse_stable(rs: Seq<report::LayerResultModel>, n: int, m: int)
    requires
        n <= m,
        first_traverse(rs, n) is Some,
    ensures
        first_traverse(rs, m) == first_traverse(rs, n),
    decreases m - n,
{
    if n < m {
        lemma_first_traverse_stable(rs, n, m - 1);
    }
}

// ---------------------------------------------------------------------
// The runner
// ---------------------------------------------------------------------

fn to_report_result(layer: LayerId, r: &LayerResult) -> (out: report::LayerResult)
    ensures
        out@ == (report::LayerResultModel {
            layer,
            status: status_word(r.status),
            certainty: r.certainty,
            summary: r.detail@,
            evidence: evidence_models(r.evidence@),
        }),
{
    let status = match r.status {
        LayerStatus::Pass => report::LayerStatus::Pass,
        LayerStatus::Block => report::LayerStatus::Block,
        LayerStatus::Suspect => report::LayerStatus::Suspect,
        LayerStatus::Skip => report::LayerStatus::Skip,
        LayerStatus::Error => report::LayerStatus::Unknown,
    };
    report::LayerResult {
        layer,
        status,
        certainty: r.certainty,
        summary: r.detail.clone(),
        evidence: copy_evidence(&r.evidence),
    }
}

fn base_report(op: Op, path: &str, identity: &report::IdentityReport) -> (r: Report)
    ensures
        r@ == base_model(op, path@, identity@),
{
    let r = Report {
        schema_version: 1,
        tool: lit("whycant"),
        identity: identity.clone(),
        op,
        path: lit(path),
        resolved_path: None,
        verdict: Verdict::Allowed,
        certainty: Certainty::Proven,
        culprit: None,
        blocking_layer: None,
        evidence_chain: Vec::new(),
        layer_results: Vec::new(),
        fixes: Vec::new(),
        cross_check: None,
        warnings: Vec::new(),
    };
    assert(r@.evidence_chain =~= seq![]);
    assert(r@.layer_results =~= seq![]);
    assert(r@.fixes =~= seq![]);
    assert(r@.warnings =~= seq![]);
    r
}

/// A path's final component, or the whole path when it has none.
pub fn component_name(p: &str) -> (r: String)
    ensures
        r@ == component_name_spec(p@),
{
    match file_name(p) {
        Some(n) => n,
        None => lit(p),
    }
}

fn terminal_kind(facts: &Facts) -> (r: NodeKind)
    ensures
        r@ == terminal_kind_spec(*facts),
{
    match &facts.lstat {
        Probe::Failed(_) => NodeKind::Missing,
        Probe::Found(m) => {
            if m.is_symlink {
                let target = match &facts.link_target {
                    Some(t) => t.clone(),
                    None => String::new(),
                };
                NodeKind::Symlink { target }
            } else if m.is_dir {
                NodeKind::Dir
            } else {
                NodeKind::File
            }
        },
    }
}

/// The permission letters an op needs on its node.
pub fn op_need(op: Op) -> (r: &'static str)
    ensures
        r@ == need_of(op),
{
    match op {
        Op::Read => "r",
        Op::Write => "w",
        Op::Exec | Op::Traverse => "x",
        Op::Delete | Op::Create => "wx",
    }
}

fn subject(id: &Identity) -> (r: String)
    ensures
        r@ == subject_of(*id),
{
    match &id.name {
        Some(n) => n.clone(),
        None => {
            let mut s = lit("uid ");
            append_str(&mut s, dec_u64(id.uid as u64).as_str());
            s
        },
    }
}

fn build_chain(id: &Identity, facts: &Facts, op: Op, rep: &Report) -> (r: Vec<PathComponent>)
    ensures
        r@.map_values(|c: PathComponent| c@) == chain_spec(*id, *facts, op, rep@),
{
    let ghost m = rep@;
    let subject = subject(id);
    let bit = rep.blocking_layer == Some(LayerId::Traverse);
    let mut chain: Vec<PathComponent> = Vec::new();
    let mut t: usize = 0;
    let mut found: Option<usize> = None;
    while t < rep.layer_results.len() && found.is_none()
        invariant
            t <= rep.layer_results@.len(),
            m == rep@,
            m.layer_results.len() == rep.layer_results@.len(),
            found matches Some(k) ==> first_traverse(m.layer_results, t as int) == Some(k as int)
                && k < t,
            found is None ==> first_traverse(m.layer_results, t as int) is None,
        decreases rep.layer_results@.len() - t,
    {
        assert(m.layer_results[t as int] == rep.layer_results@[t as int]@);
        if rep.layer_results[t].layer == LayerId::Traverse {
            found = Some(t);
        }
        t += 1;
    }
    proof {
        if found is Some {
            lemma_first_traverse_stable(m.layer_results, t as int, m.layer_results.len() as int);
        }
    }
    let ghost upper = match first_traverse(m.layer_results, m.layer_results.len() as int) {
        Some(k) => Seq::new(
            m.layer_results[k].evidence.len(),
            |i: int| ancestor_component(m.layer_results[k], i, bit, subject@),
        ),
        None => seq![],
    };
    match found {
        Some(k) => {
            let tr = &rep.layer_results[k];
            let n = tr.evidence.len();
            let mut i: usize = 0;
            while i < n
                invariant
                    n == tr.evidence@.len(),
                    i <= n,
                    m == rep@,
                    *tr == rep.layer_results@[k as int],
                    k < rep.layer_results@.len(),
                    upper == Seq::new(
                        m.layer_results[k as int].evidence.len(),
                        |j: int| ancestor_component(m.layer_results[k as int], j, bit, subject@),
                    ),
                    chain@.map_values(|c: PathComponent| c@) =~= upper.take(i as int),
                decreases n - i,
            {
                let ev = &tr.evidence[i];
                let is_blocker = bit && i + 1 == n && tr.status == report::LayerStatus::Block;
                let name = match &ev.path {
                    Some(p) => component_name(p.as_str()),
                    None => String::new(),
                };
                let note = if is_blocker {
                    let mut s = subject.clone();
                    append_str(&mut s, " lacks traverse");
                    Some(s)
                } else {
                    None
                };
                let c = PathComponent {
                    name,
                    kind: NodeKind::Dir,
                    mark: if is_blocker {
                        Mark::Block
                    } else {
                        Mark::Pass
                    },
                    need: lit("x"),
                    evidence: Some(ev.clone()),
                    note,
                    layer: Some(LayerId::Traverse),
                };
                assert(m.layer_results[k as int].evidence[i as int] == ev@);
                assert(c@ == ancestor_component(m.layer_results[k as int], i as int, bit, subject@));
                chain.push(c);
                assert(upper.take(i + 1) =~= upper.take(i as int).push(upper[i as int]));
                i += 1;
            }
            assert(upper.take(n as int) =~= upper);
        },
        None => {
            assert(chain@.map_values(|c: PathComponent| c@) =~= upper);
        },
    }
    let mark = if bit {
        Mark::NotReached
    } else if rep.verdict == Verdict::Blocked {
        Mark::Block
    } else {
        Mark::Pass
    };
    let (note, layer) = if mark == Mark::Block {
        (rep.culprit.clone(), rep.blocking_layer)
    } else {
        (None, None)
    };
    let ghost before = chain@.map_values(|c: PathComponent| c@);
    chain.push(
        PathComponent {
            name: component_name(facts.path.as_str()),
            kind: terminal_kind(facts),
            mark,
            need: lit(op_need(op)),
            evidence: None,
            note,
            layer,
        },
    );
    assert(chain@.map_values(|c: PathComponent| c@) =~= before.push(
        chain@[chain@.len() - 1]@,
    ));
    chain
}

struct Culprit {
    lid: LayerId,
    certainty: Certainty,
    detail: String,
    fixes: Vec<Fix>,
}

spec fn culprit_matches(c: Culprit, o: Outcome) -> bool {
    &&& c.lid == o.id
    &&& c.certainty == o.result.certainty
    &&& c.detail@ == o.result.detail
    &&& fix_models(c.fixes@) == o.result.fixes
}

/// Runs every layer of `chain` in order for `id`, `facts` and `op`, and
/// reports the outcome. A read failure of the first layer is a target
/// error; otherwise the earliest proven block wins, then the earliest
/// suspected block, then a lone suspect, or a layer that could not
/// decide, makes the verdict indeterminate, and otherwise the op is allowed. Unless `all` is set, reporting stops at
/// the first proven block.
pub fn run<L: Layer>(chain: &Vec<L>, id: &Identity, facts: &Facts, op: Op, all: bool) -> (r: Report)
    ensures
        r@ == run_spec(outcomes(chain@, *id, *facts, op), all, *id, *facts, op),
{
    let ghost s = outcomes(chain@, *id, *facts, op);
    let mut results: Vec<report::LayerResult> = Vec::new();
    let mut warnings: Vec<String> = Vec::new();
    let mut proven: Option<Culprit> = None;
    let mut suspected: Option<Culprit> = None;
    let mut saw_suspect = false;
    let mut saw_error = false;
    let mut stopped = false;
    let mut i: usize = 0;
    while i < chain.len() && !stopped
        invariant
            s == outcomes(chain@, *id, *facts, op),
            s.len() == chain@.len(),
            i <= chain@.len(),
            !stopped ==> first_halt(s, i as int, all) is None,
            stopped ==> i > 0 && first_halt(s, i as int, all) == Some(i - 1) && !is_fatal(
                s[i - 1],
            ),
            results@.map_values(|l: report::LayerResult| l@) =~= s.take(i as int).map_values(
                |o: Outcome| report_result(o),
            ),
            warnings@.map_values(|w: String| w@) =~= warnings_of(s, i as int),
            proven matches Some(c) ==> first_proven(s, i as int) matches Some(j) && culprit_matches(
                c,
                s[j],
            ),
            proven is None ==> first_proven(s, i as int) is None,
            suspected matches Some(c) ==> first_suspected(s, i as int) matches Some(j)
                && culprit_matches(c, s[j]),
            suspected is None ==> first_suspected(s, i as int) is None,
            saw_suspect == any_suspect(s, i as int),
            saw_error == any_error(s, i as int),
        decreases chain@.len() - i,
    {
        let layer = &chain[i];
        let r = layer.check(id, facts, op);
        let lid = layer.id();
        let ord = layer.order();
        assert(s[i as int] == outcome_of(chain@[i as int], *id, *facts, op));
        if r.status == LayerStatus::Error && ord == 1 {
            let mut rep = base_report(op, facts.path.as_str(), &facts.identity);
            rep.verdict = Verdict::TargetError;
            rep.certainty = Certainty::Indeterminate;
            rep.culprit = Some(r.detail.clone());
            rep.blocking_layer = Some(lid);
            rep.layer_results.push(to_report_result(lid, &r));
            proof {
                lemma_first_halt_stable(s, i + 1, s.len() as int, all);
                assert(rep@.layer_results =~= seq![report_result(s[i as int])]);
            }
            return rep;
        }
        if r.status == LayerStatus::Error {
            let mut w = layer.name();
            append_str(&mut w, ": ");
            append_str(&mut w, r.detail.as_str());
            let ghost before = warnings@.map_values(|w: String| w@);
            warnings.push(w);
            saw_error = true;
            assert(warnings@.map_values(|w: String| w@) =~= before.push(w@));
        } else {
            assert(warnings_of(s, i + 1) =~= warnings_of(s, i as int));
        }
        if r.status == LayerStatus::Block {
            if r.certainty == Certainty::Proven {
                if proven.is_none() {
                    proven = Some(
                        Culprit {
                            lid,
                            certainty: r.certainty,
                            detail: r.detail.clone(),
                            fixes: copy_fixes(&r.fixes),
                        },
                    );
                }
            } else {
                if suspected.is_none() {
                    suspected = Some(
                        Culprit {
                            lid,
                            certainty: r.certainty,
                            detail: r.detail.clone(),
                            fixes: copy_fixes(&r.fixes),
                        },
                    );
                }
            }
        }
        if r.status == LayerStatus::Suspect {
            saw_suspect = true;
        }
        let stop = r.status == LayerStatus::Block && r.certainty == Certainty::Proven && !all;
        let ghost before = results@.map_values(|l: report::LayerResult| l@);
        results.push(to_report_result(lid, &r));
        assert(results@.map_values(|l: report::LayerResult| l@) =~= before.push(
            report_result(s[i as int]),
        ));
        assert(s.take(i + 1).map_values(|o: Outcome| report_result(o)) =~= s.take(
            i as int,
        ).map_values(|o: Outcome| report_result(o)).push(report_result(s[i as int])));
        if stop {
            stopped = true;
        }
        i += 1;
    }
    let ghost n = i as int;
    proof {
        if stopped {
            lemma_first_halt_stable(s, n, s.len() as int, all);
        }
        assert(evaluated(s, all) == n);
        lemma_first_proven_bound(s, n);
        lemma_first_suspected_bound(s, n);
    }
    let mut rep = base_report(op, facts.path.as_str(), &facts.identity);
    rep.layer_results = results;
    rep.warnings = warnings;
    let culprit = match proven {
        Some(c) => Some(c),
        None => suspected,
    };
    match culprit {
        Some(c) => {
            rep.verdict = Verdict::Blocked;
            rep.certainty = c.certainty;
            rep.culprit = Some(c.detail);
            rep.blocking_layer = Some(c.lid);
            rep.fixes = c.fixes;
        },
        None => {
            if saw_suspect || saw_error {
                rep.verdict = Verdict::Indeterminate;
                rep.certainty = Certainty::Suspected;
            }
        },
    }
    let ghost folded_model = folded(s, n, base_model(op, facts.path@, facts.identity@));
    assert(rep@.layer_results =~= folded_model.layer_results);
    assert(rep@ == folded_model);
    let evidence_chain = build_chain(id, facts, op, &rep);
    rep.evidence_chain = evidence_chain;
    let model_allows = rep.verdict == Verdict::Allowed;
    let cc = match (id.is_self, &facts.kernel) {
        (true, Some(k)) => cross_check(&k.answer, &k.rwx, model_allows),
        _ => unavailable(id.uid, model_allows),
    };
    rep.cross_check = Some(cc);
    rep
}


// ---------------------------------------------------------------------
// Laws of the fold
// ---------------------------------------------------------------------

proof fn lemma_first_halt_none(s: Seq<Outcome>, n: int, all: bool)
    requires
        forall|i: int| 0 <= i < n ==> !halts(#[trigger] s[i], all),
    ensures
        first_halt(s, n, all) is None,
    decreases n,
{
    if n > 0 {
        lemma_first_halt_none(s, n - 1, all);
    }
}

proof fn lemma_first_halt_at(s: Seq<Outcome>, j: int, n: int, all: bool)
    requires
        0 <= j < n,
        halts(s[j], all),
        forall|i: int| 0 <= i < j ==> !halts(#[trigger] s[i], all),
    ensures
        first_halt(s, n, all) == Some(j),
    decreases n,
{
    if n == j + 1 {
        lemma_first_halt_none(s, j, all);
    } else {
        lemma_first_halt_at(s, j, n - 1, all);
    }
}

proof fn lemma_first_proven_none(s: Seq<Outcome>, n: int)
    requires
        forall|i: int| 0 <= i < n ==> !is_proven_block(#[trigger] s[i]),
    ensures
        first_proven(s, n) is None,
    decreases n,
{
    if n > 0 {
        lemma_first_proven_none(s, n - 1);
    }
}

proof fn lemma_first_proven_at(s: Seq<Outcome>, j: int, n: int)
    requires
        0 <= j < n,
        is_proven_block(s[j]),
        forall|i: int| 0 <= i < j ==> !is_proven_block(#[trigger] s[i]),
    ensures
        first_proven(s, n) == Some(j),
    decreases n,
{
    if n == j + 1 {
        lemma_first_proven_none(s, j);
    } else {
        lemma_first_proven_at(s, j, n - 1);
    }
}

proof fn lemma_first_proven_char(s: Seq<Outcome>, n: int)
    ensures
        first_proven(s, n) matches Some(j) ==> 0 <= j < n && is_proven_block(s[j]) && forall|i: int|
            0 <= i < j ==> !is_proven_block(#[trigger] s[i]),
        first_proven(s, n) is None ==> forall|i: int| 0 <= i < n ==> !is_proven_block(#[trigger] s[i]),
    decreases n,
{
    if n > 0 {
        lemma_first_proven_char(s, n - 1);
    }
}

proof fn lemma_first_suspected_none(s: Seq<Outcome>, n: int)
    requires
        forall|i: int| 0 <= i < n ==> !is_suspected_block(#[trigger] s[i]),
    ensures
        first_suspected(s, n) is None,
    decreases n,
{
    if n > 0 {
        lemma_first_suspected_none(s, n - 1);
    }
}

proof fn lemma_no_suspect(s: Seq<Outcome>, n: int)
    requires
        forall|i: int| 0 <= i < n ==> (#[trigger] s[i]).result.status != LayerStatus::Suspect,
    ensures
        !any_suspect(s, n),
    decreases n,
{
    if n > 0 {
        lemma_no_suspect(s, n - 1);
    }
}

proof fn lemma_some_suspect(s: Seq<Outcome>, k: int, n: int)
    requires
        0 <= k < n,
        s[k].result.status == LayerStatus::Suspect,
    ensures
        any_suspect(s, n),
    decreases n,
{
    if n > k + 1 {
        lemma_some_suspect(s, k, n - 1);
    }
}

proof fn lemma_no_error(s: Seq<Outcome>, n: int)
    requires
        forall|i: int| 0 <= i < n ==> (#[trigger] s[i]).result.status != LayerStatus::Error,
    ensures
        !any_error(s, n),
    decreases n,
{
    if n > 0 {
        lemma_no_error(s, n - 1);
    }
}

proof fn lemma_some_error(s: Seq<Outcome>, k: int, n: int)
    requires
        0 <= k < n,
        s[k].result.status == LayerStatus::Error,
    ensures
        any_error(s, n),
    decreases n,
{
    if n > k + 1 {
        lemma_some_error(s, k, n - 1);
    }
}

/// The warning of an erring layer stands among the warnings.
proof fn lemma_error_warned(s: Seq<Outcome>, k: int, n: int)
    requires
        0 <= k < n,
        s[k].result.status == LayerStatus::Error,
    ensures
        warnings_of(s, n).contains(s[k].name + ": "@ + s[k].result.detail),
    decreases n,
{
    let w = s[k].name + ": "@ + s[k].result.detail;
    if n == k + 1 {
        let prev = warnings_of(s, k);
        assert(warnings_of(s, n) == prev + seq![w]);
        assert(warnings_of(s, n)[prev.len() as int] == w);
    } else {
        lemma_error_warned(s, k, n - 1);
        let prev = warnings_of(s, n - 1);
        let i = choose|i: int| 0 <= i < prev.len() && prev[i] == w;
        let tail = if s[n - 1].result.status == LayerStatus::Error {
            seq![s[n - 1].name + ": "@ + s[n - 1].result.detail]
        } else {
            seq![]
        };
        assert(warnings_of(s, n) == prev + tail);
        assert(warnings_of(s, n)[i] == w);
    }
}

/// Without a fatal outcome, stopping at the first halt is stopping at the
/// first proven block.
proof fn lemma_halt_is_proven(s: Seq<Outcome>, n: int)
    requires
        forall|i: int| 0 <= i < n ==> !is_fatal(#[trigger] s[i]),
    ensures
        first_halt(s, n, false) == first_proven(s, n),
    decreases n,
{
    if n > 0 {
        lemma_halt_is_proven(s, n - 1);
    }
}

/// When the target resolves (no layer fails fatally), the earliest proven
/// block decides the outcome (blocked, proven, naming that layer, its detail and
/// its fixes); and unless every layer was asked for, it is the last layer
/// reported.
pub proof fn earliest_proven_block_wins_law<L: Layer>(
    chain: Seq<L>,
    id: Identity,
    facts: Facts,
    op: Op,
    all: bool,
    j: int,
)
    requires
        0 <= j < chain.len(),
        is_proven_block(outcomes(chain, id, facts, op)[j]),
        forall|i: int| 0 <= i < j ==> !is_proven_block(#[trigger] outcomes(chain, id, facts, op)[i]),
        forall|i: int| 0 <= i < chain.len() ==> !is_fatal(#[trigger] outcomes(chain, id, facts, op)[i]),
    ensures
        ({
            let s = outcomes(chain, id, facts, op);
            let r = run_spec(s, all, id, facts, op);
            &&& r.verdict == Verdict::Blocked
            &&& r.certainty == Certainty::Proven
            &&& r.blocking_layer == Some(s[j].id)
            &&& r.culprit == Some(s[j].result.detail)
            &&& r.fixes == s[j].result.fixes
            &&& !all ==> r.layer_results.len() == j + 1
        }),
{
    let s = outcomes(chain, id, facts, op);
    let len = s.len() as int;
    if all {
        assert forall|i: int| 0 <= i < len implies !halts(#[trigger] s[i], all) by {}
        lemma_first_halt_none(s, len, all);
        lemma_first_proven_at(s, j, len);
    } else {
        assert forall|i: int| 0 <= i < j implies !halts(#[trigger] s[i], all) by {}
        lemma_first_halt_at(s, j, len, all);
        lemma_first_proven_at(s, j, j + 1);
    }
}

/// A chain in which every layer passes or is inapplicable allows the op,
/// proven, with no culprit and no fix.
pub proof fn all_pass_is_allowed_law<L: Layer>(chain: Seq<L>, id: Identity, facts: Facts, op: Op, all: bool)
    requires
        forall|i: int|
            0 <= i < chain.len() ==> ((#[trigger] outcomes(chain, id, facts, op)[i]).result.status
                == LayerStatus::Pass || outcomes(chain, id, facts, op)[i].result.status
                == LayerStatus::Skip),
    ensures
        ({
            let r = run_spec(outcomes(chain, id, facts, op), all, id, facts, op);
            &&& r.verdict == Verdict::Allowed
            &&& r.certainty == Certainty::Proven
            &&& r.culprit is None
            &&& r.blocking_layer is None
            &&& r.fixes.len() == 0
        }),
{
    let s = outcomes(chain, id, facts, op);
    let len = s.len() as int;
    assert forall|i: int| 0 <= i < len implies !halts(#[trigger] s[i], all) by {}
    lemma_first_halt_none(s, len, all);
    assert forall|i: int| 0 <= i < len implies !is_proven_block(#[trigger] s[i]) by {}
    lemma_first_proven_none(s, len);
    assert forall|i: int| 0 <= i < len implies !is_suspected_block(#[trigger] s[i]) by {}
    lemma_first_suspected_none(s, len);
    assert forall|i: int| 0 <= i < len implies (#[trigger] s[i]).result.status
        != LayerStatus::Suspect by {}
    lemma_no_suspect(s, len);
    assert forall|i: int| 0 <= i < len implies (#[trigger] s[i]).result.status
        != LayerStatus::Error by {}
    lemma_no_error(s, len);
}

/// A suspicion with no block anywhere and a resolvable target leaves the
/// verdict indeterminate: suspected, with no culprit.
pub proof fn lone_suspect_is_indeterminate_law<L: Layer>(
    chain: Seq<L>,
    id: Identity,
    facts: Facts,
    op: Op,
    all: bool,
    k: int,
)
    requires
        0 <= k < chain.len(),
        outcomes(chain, id, facts, op)[k].result.status == LayerStatus::Suspect,
        forall|i: int|
            0 <= i < chain.len() ==> (#[trigger] outcomes(chain, id, facts, op)[i]).result.status
                != LayerStatus::Block && !is_fatal(outcomes(chain, id, facts, op)[i]),
    ensures
        ({
            let r = run_spec(outcomes(chain, id, facts, op), all, id, facts, op);
            &&& r.verdict == Verdict::Indeterminate
            &&& r.certainty == Certainty::Suspected
            &&& r.culprit is None
            &&& r.blocking_layer is None
        }),
{
    let s = outcomes(chain, id, facts, op);
    let len = s.len() as int;
    assert forall|i: int| 0 <= i < len implies !halts(#[trigger] s[i], all) by {}
    lemma_first_halt_none(s, len, all);
    assert forall|i: int| 0 <= i < len implies !is_proven_block(#[trigger] s[i]) by {}
    lemma_first_proven_none(s, len);
    assert forall|i: int| 0 <= i < len implies !is_suspected_block(#[trigger] s[i]) by {}
    lemma_first_suspected_none(s, len);
    lemma_some_suspect(s, k, len);
}

/// A layer other than the first that could not decide, with no block
/// anywhere and a resolvable target, leaves the verdict indeterminate:
/// suspected, with no culprit, and with that layer's name and detail among
/// the warnings.
pub proof fn layer_error_is_indeterminate_law<L: Layer>(
    chain: Seq<L>,
    id: Identity,
    facts: Facts,
    op: Op,
    all: bool,
    k: int,
)
    requires
        0 <= k < chain.len(),
        outcomes(chain, id, facts, op)[k].result.status == LayerStatus::Error,
        forall|i: int|
            0 <= i < chain.len() ==> (#[trigger] outcomes(chain, id, facts, op)[i]).result.status
                != LayerStatus::Block && !is_fatal(outcomes(chain, id, facts, op)[i]),
    ensures
        ({
            let s = outcomes(chain, id, facts, op);
            let r = run_spec(s, all, id, facts, op);
            &&& r.verdict == Verdict::Indeterminate
            &&& r.certainty == Certainty::Suspected
            &&& r.culprit is None
            &&& r.blocking_layer is None
            &&& r.warnings.contains(s[k].name + ": "@ + s[k].result.detail)
            &&& r.layer_results[k].status == report::LayerStatus::Unknown
        }),
{
    let s = outcomes(chain, id, facts, op);
    let len = s.len() as int;
    assert forall|i: int| 0 <= i < len implies !halts(#[trigger] s[i], all) by {}
    lemma_first_halt_none(s, len, all);
    assert forall|i: int| 0 <= i < len implies !is_proven_block(#[trigger] s[i]) by {}
    lemma_first_proven_none(s, len);
    assert forall|i: int| 0 <= i < len implies !is_suspected_block(#[trigger] s[i]) by {}
    lemma_first_suspected_none(s, len);
    lemma_some_error(s, k, len);
    lemma_error_warned(s, k, len);
}

/// A read failure of the first layer, reached before any other halt, is a
/// target error: indeterminate, naming that layer and its detail, and
/// reporting that layer alone.
pub proof fn fatal_error_is_target_error_law<L: Layer>(
    chain: Seq<L>,
    id: Identity,
    facts: Facts,
    op: Op,
    all: bool,
    j: int,
)
    requires
        0 <= j < chain.len(),
        is_fatal(outcomes(chain, id, facts, op)[j]),
        forall|i: int| 0 <= i < j ==> !halts(#[trigger] outcomes(chain, id, facts, op)[i], all),
    ensures
        ({
            let s = outcomes(chain, id, facts, op);
            let r = run_spec(s, all, id, facts, op);
            &&& r.verdict == Verdict::TargetError
            &&& r.certainty == Certainty::Indeterminate
            &&& r.blocking_layer == Some(s[j].id)
            &&& r.culprit == Some(s[j].result.detail)
            &&& r.layer_results.len() == 1
            &&& r.fixes.len() == 0
        }),
{
    let s = outcomes(chain, id, facts, op);
    lemma_first_halt_at(s, j, s.len() as int, all);
}

/// Only a read failure of the first layer makes a target error: a chain
/// none of whose outcomes is fatal never reports one.
pub proof fn target_error_needs_fatal_law<L: Layer>(chain: Seq<L>, id: Identity, facts: Facts, op: Op, all: bool)
    requires
        forall|i: int| 0 <= i < chain.len() ==> !is_fatal(#[trigger] outcomes(chain, id, facts, op)[i]),
    ensures
        run_spec(outcomes(chain, id, facts, op), all, id, facts, op).verdict != Verdict::TargetError,
{
    let s = outcomes(chain, id, facts, op);
    lemma_first_halt_bound(s, s.len() as int, all);
}

/// Asking for every layer changes what is reported, never the outcome;
/// wherever only the first layer can fail fatally, the verdict, certainty,
/// culprit, blocking layer and fixes are the same with and without `all`.
pub proof fn all_keeps_verdict_law<L: Layer>(chain: Seq<L>, id: Identity, facts: Facts, op: Op)
    requires
        forall|i: int| 0 < i < chain.len() ==> !is_fatal(#[trigger] outcomes(chain, id, facts, op)[i]),
    ensures
        ({
            let s = outcomes(chain, id, facts, op);
            let a = run_spec(s, true, id, facts, op);
            let b = run_spec(s, false, id, facts, op);
            &&& a.verdict == b.verdict
            &&& a.certainty == b.certainty
            &&& a.culprit == b.culprit
            &&& a.blocking_layer == b.blocking_layer
            &&& a.fixes == b.fixes
        }),
{
    let s = outcomes(chain, id, facts, op);
    let len = s.len() as int;
    if len > 0 && is_fatal(s[0]) {
        lemma_first_halt_at(s, 0, len, true);
        lemma_first_halt_at(s, 0, len, false);
    } else {
        assert forall|i: int| 0 <= i < len implies !halts(#[trigger] s[i], true) by {}
        lemma_first_halt_none(s, len, true);
        assert forall|i: int| 0 <= i < len implies !is_fatal(#[trigger] s[i]) by {}
        lemma_halt_is_proven(s, len);
        lemma_first_proven_char(s, len);
        match first_proven(s, len) {
            Some(j) => {
                lemma_first_proven_at(s, j, j + 1);
            },
            None => {},
        }
    }
}

// ---------------------------------------------------------------------
// The standard chain
// ---------------------------------------------------------------------

/// The chain in its fixed order.
pub open spec fn default_chain_spec() -> Seq<StdLayer> {
    seq![
        StdLayer::Existence,
        StdLayer::Traverse,
        StdLayer::Dac,
        StdLayer::Acl,
        StdLayer::Attrs,
        StdLayer::Mount,
        StdLayer::Caps,
        StdLayer::Mac,
        StdLayer::Macos,
        StdLayer::Netfs,
        StdLayer::Container,
    ]
}

/// Builds the eleven-layer chain in fixed order.
pub fn default_chain() -> (r: Vec<StdLayer>)
    ensures
        r@ == default_chain_spec(),
{
    let r = vec![
        StdLayer::Existence,
        StdLayer::Traverse,
        StdLayer::Dac,
        StdLayer::Acl,
        StdLayer::Attrs,
        StdLayer::Mount,
        StdLayer::Caps,
        StdLayer::Mac,
        StdLayer::Macos,
        StdLayer::Netfs,
        StdLayer::Container,
    ];
    assert(r@ =~= default_chain_spec());
    r
}

/// The chain's layers stand at their own order: the `i`th layer reports
/// order `i + 1`, so only the existence layer is first.
pub proof fn chain_order_law(i: int)
    requires
        0 <= i < default_chain_spec().len(),
    ensures
        default_chain_spec()[i].spec_order() == i + 1,
{
}

} // verus!
