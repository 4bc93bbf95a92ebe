//! Report model. One [`Report`] drives every output format; it also holds
//! the verdict, certainty, layer, evidence and fix types, and the exit-code
//! map.

use vstd::prelude::*;
use crate::op::Op;

verus! {

/// Full diagnosis of one operation: verdict, per-layer results, evidence
/// chain, and fixes. Paths are kept as the text they display as.
pub struct Report {
    pub schema_version: u32,
    pub tool: String,
    pub identity: IdentityReport,
    pub op: Op,
    pub path: String,
    pub resolved_path: Option<String>,
    pub verdict: Verdict,
    pub certainty: Certainty,
    pub culprit: Option<String>,
    pub blocking_layer: Option<LayerId>,
    pub evidence_chain: Vec<PathComponent>,
    pub layer_results: Vec<LayerResult>,
    pub fixes: Vec<Fix>,
    pub cross_check: Option<CrossCheck>,
    pub warnings: Vec<String>,
}

pub struct IdentityReport {
    pub target_uid: u32,
    pub target_user: Option<String>,
    pub primary_gid: u32,
    pub groups: Vec<u32>,
    pub group_names: Vec<String>,
    pub running_as: RunningAs,
    pub privilege_note: String,
    pub target_is_self: bool,
}

impl Clone for IdentityReport {
    fn clone(&self) -> (r: Self)
        ensures
            r@ == self@,
    {
        let groups = self.groups.clone();
        assert(groups@ =~= self.groups@);
        let group_names = self.group_names.clone();
        assert(group_names@ =~= self.group_names@);
        assert(group_names@.map_values(|s: String| s@) =~= self.group_names@.map_values(
            |s: String| s@,
        ));
        IdentityReport {
            target_uid: self.target_uid,
            target_user: self.target_user.clone(),
            primary_gid: self.primary_gid,
            groups,
            group_names,
            running_as: self.running_as,
            privilege_note: self.privilege_note.clone(),
            target_is_self: self.target_is_self,
        }
    }
}

/// How the tool itself was started.
#[derive(Clone, Copy, PartialEq, Eq, Debug, Structural)]
pub enum RunningAs {
    Root,
    User,
    SudoElevated,
}

/// Final outcome of the chain for the requested op.
#[derive(Clone, Copy, PartialEq, Eq, Debug, Structural)]
pub enum Verdict {
    /// No layer blocks the op.
    Allowed,
    /// A layer denies the op.
    Blocked,
    /// A denial is suspected but cannot be confirmed unprivileged.
    Indeterminate,
    /// The target itself is unresolvable (ENOENT, not a file, broken symlink).
    TargetError,
}

pub open spec fn verdict_word(v: Verdict) -> Seq<char> {
    match v {
        Verdict::Allowed => "ALLOWED"@,
        Verdict::Blocked => "BLOCKED"@,
        Verdict::Indeterminate => "INDETERMINATE"@,
        Verdict::TargetError => "TARGET ERROR"@,
    }
}

impl Verdict {
    /// The upper-case word a verdict is printed as.
    pub fn word(self) -> (r: &'static str)
        ensures
            r@ == verdict_word(self),
    {
        match self {
            Verdict::Allowed => "ALLOWED",
            Verdict::Blocked => "BLOCKED",
            Verdict::Indeterminate => "INDETERMINATE",
            Verdict::TargetError => "TARGET ERROR",
        }
    }
}

#[derive(Clone, Copy, PartialEq, Eq, Debug, Structural)]
pub enum Certainty {
    Proven,
    Suspected,
    Indeterminate,
}

/// Stable identifier for each of the eleven layers, in chain order.
#[derive(Clone, Copy, PartialEq, Eq, Debug, Structural)]
pub enum LayerId {
    /// Symlink resolution; ENOENT versus EACCES-masked-ENOENT; broken links.
    Existence,
    /// Per-ancestor traverse (`x`) for the identity.
    Traverse,
    /// Owner/group/other mode bits, sticky, setuid/setgid.
    Dac,
    /// POSIX or NFSv4 access-control list evaluation.
    Acl,
    /// Immutable and append-only file attributes.
    Attrs,
    /// Read-only and noexec mount flags.
    Mount,
    /// Process and file capabilities.
    Capabilities,
    /// SELinux, AppArmor, SMACK/TOMOYO mandatory access control.
    Mac,
    /// macOS SIP, quarantine, read-only system volume, TCC.
    MacosSip,
    /// NFS/CIFS root_squash, ro-export, uid mismatch; always suspected.
    NetworkFs,
    /// Container and user-namespace context (uid_map, dropped caps, seccomp).
    Container,
}

/// One node of the path as the evidence chain shows it.
pub struct PathComponent {
    pub name: String,
    pub kind: NodeKind,
    pub mark: Mark,
    pub need: String,
    pub evidence: Option<Evidence>,
    pub note: Option<String>,
    pub layer: Option<LayerId>,
}

pub enum NodeKind {
    Dir,
    File,
    Symlink { target: String },
    Missing,
}

impl Clone for NodeKind {
    fn clone(&self) -> (r: Self)
        ensures
            r == *self,
    {
        match self {
            NodeKind::Dir => NodeKind::Dir,
            NodeKind::File => NodeKind::File,
            NodeKind::Symlink { target } => NodeKind::Symlink { target: target.clone() },
            NodeKind::Missing => NodeKind::Missing,
        }
    }
}

#[derive(Clone, Copy, PartialEq, Eq, Debug, Structural)]
pub enum Mark {
    Pass,
    Block,
    NotReached,
}

/// Serialized result of one layer.
pub struct LayerResult {
    pub layer: LayerId,
    pub status: LayerStatus,
    pub certainty: Certainty,
    pub summary: String,
    pub evidence: Vec<Evidence>,
}

/// Serialized per-layer status; the runner's `Error` is written `Unknown`.
#[derive(Clone, Copy, PartialEq, Eq, Debug, Structural)]
pub enum LayerStatus {
    /// Layer applies and permits the op.
    Pass,
    /// Layer denies the op.
    Block,
    /// Denial inferred without conclusive evidence.
    Suspect,
    /// Layer inapplicable on this platform or path.
    Skip,
    /// Layer could not decide unprivileged.
    Unknown,
}

/// One raw line of proof behind a verdict, quoted verbatim.
pub struct Evidence {
    pub source: EvidenceSource,
    pub raw: String,
    pub path: Option<String>,
}

impl Clone for Evidence {
    fn clone(&self) -> (r: Self)
        ensures
            r == *self,
    {
        Evidence { source: self.source, raw: self.raw.clone(), path: self.path.clone() }
    }
}

#[derive(Clone, Copy, PartialEq, Eq, Debug, Structural)]
pub enum EvidenceSource {
    LsLd,
    Getfacl,
    Lsattr,
    MountOpts,
    SelinuxLabel,
    ApparmorStatus,
    MacStatus,
    AuditAvc,
    Statvfs,
    Capability,
    FileCap,
    Namespace,
    Xattr,
    Statflags,
}

/// What a fix does: run an argv, or only advise.
pub enum FixAction {
    Run { argv: Vec<String> },
    Advice { text: String },
}

/// A fix as a mathematical value: its action with the argv or text as
/// character sequences.
pub ghost enum FixActionModel {
    Run { argv: Seq<Seq<char>> },
    Advice { text: Seq<char> },
}

pub ghost struct FixModel {
    pub action: FixActionModel,
    pub needs_root: bool,
    pub description: Seq<char>,
    pub risk: Risk,
    pub rationale: Seq<char>,
}

impl View for FixAction {
    type V = FixActionModel;

    open spec fn view(&self) -> FixActionModel {
        match self {
            FixAction::Run { argv } => FixActionModel::Run {
                argv: argv@.map_values(|a: String| a@),
            },
            FixAction::Advice { text } => FixActionModel::Advice { text: text@ },
        }
    }
}

impl Clone for FixAction {
    fn clone(&self) -> (r: Self)
        ensures
            r@ == self@,
    {
        match self {
            FixAction::Run { argv } => {
                let a = argv.clone();
                assert(a@.map_values(|x: String| x@) =~= argv@.map_values(|x: String| x@));
                FixAction::Run { argv: a }
            },
            FixAction::Advice { text } => FixAction::Advice { text: text.clone() },
        }
    }
}

/// A least-privilege remedy for one blocking layer, tagged with privilege,
/// risk and rationale.
pub struct Fix {
    pub action: FixAction,
    pub needs_root: bool,
    pub description: String,
    pub risk: Risk,
    pub rationale: String,
}

impl View for Fix {
    type V = FixModel;

    open spec fn view(&self) -> FixModel {
        FixModel {
            action: self.action@,
            needs_root: self.needs_root,
            description: self.description@,
            risk: self.risk,
            rationale: self.rationale@,
        }
    }
}

impl Clone for Fix {
    fn clone(&self) -> (r: Self)
        ensures
            r@ == self@,
    {
        Fix {
            action: self.action.clone(),
            needs_root: self.needs_root,
            description: self.description.clone(),
            risk: self.risk,
            rationale: self.rationale.clone(),
        }
    }
}

/// The models of a list of fixes.
pub open spec fn fix_models(v: Seq<Fix>) -> Seq<FixModel> {
    v.map_values(|f: Fix| f@)
}

/// A copy of a list of fixes.
pub fn copy_fixes(v: &Vec<Fix>) -> (r: Vec<Fix>)
    ensures
        fix_models(r@) == fix_models(v@),
{
    let mut out: Vec<Fix> = Vec::new();
    let mut i: usize = 0;
    while i < v.len()
        invariant
            i <= v@.len(),
            fix_models(out@) =~= fix_models(v@.take(i as int)),
        decreases v@.len() - i,
    {
        out.push(v[i].clone());
        assert(fix_models(v@.take(i + 1)) =~= fix_models(v@.take(i as int)).push(v@[i as int]@));
        i += 1;
    }
    assert(v@.take(v@.len() as int) =~= v@);
    out
}

#[derive(Clone, Copy, PartialEq, Eq, Debug, Structural)]
pub enum Risk {
    Low,
    Medium,
    High,
}

pub open spec fn risk_word(r: Risk) -> Seq<char> {
    match r {
        Risk::Low => "low"@,
        Risk::Medium => "medium"@,
        Risk::High => "high"@,
    }
}

pub open spec fn risk_rank(r: Risk) -> u8 {
    match r {
        Risk::Low => 0,
        Risk::Medium => 1,
        Risk::High => 2,
    }
}

impl Risk {
    pub fn word(self) -> (r: &'static str)
        ensures
            r@ == risk_word(self),
    {
        match self {
            Risk::Low => "low",
            Risk::Medium => "medium",
            Risk::High => "high",
        }
    }

    /// Orders risks from least to most.
    pub fn rank(self) -> (r: u8)
        ensures
            r == risk_rank(self),
    {
        match self {
            Risk::Low => 0,
            Risk::Medium => 1,
            Risk::High => 2,
        }
    }
}

/// The kernel's own answer set beside the model's verdict.
pub struct CrossCheck {
    pub available: bool,
    pub kernel_allows: Option<bool>,
    pub model_allows: bool,
    pub agree: bool,
    pub kernel_rwx: Option<[bool; 3]>,
    pub message: Option<String>,
}

// ---------------------------------------------------------------------
// Models: the report as mathematical values
// ---------------------------------------------------------------------

pub open spec fn opt_view(o: Option<String>) -> Option<Seq<char>> {
    match o {
        Some(s) => Some(s@),
        None => None,
    }
}

pub ghost struct EvidenceModel {
    pub source: EvidenceSource,
    pub raw: Seq<char>,
    pub path: Option<Seq<char>>,
}

impl View for Evidence {
    type V = EvidenceModel;

    open spec fn view(&self) -> EvidenceModel {
        EvidenceModel { source: self.source, raw: self.raw@, path: opt_view(self.path) }
    }
}

pub open spec fn evidence_models(v: Seq<Evidence>) -> Seq<EvidenceModel> {
    v.map_values(|e: Evidence| e@)
}

/// A copy of a list of evidence lines.
pub fn copy_evidence(v: &Vec<Evidence>) -> (r: Vec<Evidence>)
    ensures
        r@ == v@,
{
    let r = v.clone();
    assert(r@ =~= v@);
    r
}

pub ghost enum NodeKindModel {
    Dir,
    File,
    Symlink { target: Seq<char> },
    Missing,
}

impl View for NodeKind {
    type V = NodeKindModel;

    open spec fn view(&self) -> NodeKindModel {
        match self {
            NodeKind::Dir => NodeKindModel::Dir,
            NodeKind::File => NodeKindModel::File,
            NodeKind::Symlink { target } => NodeKindModel::Symlink { target: target@ },
            NodeKind::Missing => NodeKindModel::Missing,
        }
    }
}

pub ghost struct PathComponentModel {
    pub name: Seq<char>,
    pub kind: NodeKindModel,
    pub mark: Mark,
    pub need: Seq<char>,
    pub evidence: Option<EvidenceModel>,
    pub note: Option<Seq<char>>,
    pub layer: Option<LayerId>,
}

pub open spec fn opt_evidence(e: Option<Evidence>) -> Option<EvidenceModel> {
    match e {
        Some(x) => Some(x@),
        None => None,
    }
}

impl View for PathComponent {
    type V = PathComponentModel;

    open spec fn view(&self) -> PathComponentModel {
        PathComponentModel {
            name: self.name@,
            kind: self.kind@,
            mark: self.mark,
            need: self.need@,
            evidence: opt_evidence(self.evidence),
            note: opt_view(self.note),
            layer: self.layer,
        }
    }
}

pub ghost struct LayerResultModel {
    pub layer: LayerId,
    pub status: LayerStatus,
    pub certainty: Certainty,
    pub summary: Seq<char>,
    pub evidence: Seq<EvidenceModel>,
}

impl View for LayerResult {
    type V = LayerResultModel;

    open spec fn view(&self) -> LayerResultModel {
        LayerResultModel {
            layer: self.layer,
            status: self.status,
            certainty: self.certainty,
            summary: self.summary@,
            evidence: evidence_models(self.evidence@),
        }
    }
}

pub ghost struct CrossCheckModel {
    pub available: bool,
    pub kernel_allows: Option<bool>,
    pub model_allows: bool,
    pub agree: bool,
    pub kernel_rwx: Option<Seq<bool>>,
    pub message: Option<Seq<char>>,
}

impl View for CrossCheck {
    type V = CrossCheckModel;

    open spec fn view(&self) -> CrossCheckModel {
        CrossCheckModel {
            available: self.available,
            kernel_allows: self.kernel_allows,
            model_allows: self.model_allows,
            agree: self.agree,
            kernel_rwx: match self.kernel_rwx {
                Some(a) => Some(a@),
                None => None,
            },
            message: opt_view(self.message),
        }
    }
}

pub ghost struct IdentityReportModel {
    pub target_uid: u32,
    pub target_user: Option<Seq<char>>,
    pub primary_gid: u32,
    pub groups: Seq<u32>,
    pub group_names: Seq<Seq<char>>,
    pub running_as: RunningAs,
    pub privilege_note: Seq<char>,
    pub target_is_self: bool,
}

impl View for IdentityReport {
    type V = IdentityReportModel;

    open spec fn view(&self) -> IdentityReportModel {
        IdentityReportModel {
            target_uid: self.target_uid,
            target_user: opt_view(self.target_user),
            primary_gid: self.primary_gid,
            groups: self.groups@,
            group_names: self.group_names@.map_values(|s: String| s@),
            running_as: self.running_as,
            privilege_note: self.privilege_note@,
            target_is_self: self.target_is_self,
        }
    }
}

pub ghost struct ReportModel {
    pub schema_version: u32,
    pub tool: Seq<char>,
    pub identity: IdentityReportModel,
    pub op: Op,
    pub path: Seq<char>,
    pub resolved_path: Option<Seq<char>>,
    pub verdict: Verdict,
    pub certainty: Certainty,
    pub culprit: Option<Seq<char>>,
    pub blocking_layer: Option<LayerId>,
    pub evidence_chain: Seq<PathComponentModel>,
    pub layer_results: Seq<LayerResultModel>,
    pub fixes: Seq<FixModel>,
    pub cross_check: Option<CrossCheckModel>,
    pub warnings: Seq<Seq<char>>,
}

impl View for Report {
    type V = ReportModel;

    open spec fn view(&self) -> ReportModel {
        ReportModel {
            schema_version: self.schema_version,
            tool: self.tool@,
            identity: self.identity@,
            op: self.op,
            path: self.path@,
            resolved_path: opt_view(self.resolved_path),
            verdict: self.verdict,
            certainty: self.certainty,
            culprit: opt_view(self.culprit),
            blocking_layer: self.blocking_layer,
            evidence_chain: self.evidence_chain@.map_values(|c: PathComponent| c@),
            layer_results: self.layer_results@.map_values(|l: LayerResult| l@),
            fixes: fix_models(self.fixes@),
            cross_check: match self.cross_check {
                Some(c) => Some(c@),
                None => None,
            },
            warnings: self.warnings@.map_values(|w: String| w@),
        }
    }
}

pub open spec fn exit_code_of(v: Verdict, c: Certainty) -> i32 {
    match v {
        Verdict::Allowed => 0,
        Verdict::Blocked => if c == Certainty::Proven {
            1
        } else {
            2
        },
        Verdict::Indeterminate => 2,
        Verdict::TargetError => 3,
    }
}

/// Maps a report to its process exit code: 0 allowed, 1 blocked and proven,
/// 2 blocked but indeterminate, 3 target error.
pub fn exit_code(report: &Report) -> (r: i32)
    ensures
        r == exit_code_of(report.verdict, report.certainty),
{
    match (report.verdict, report.certainty) {
        (Verdict::Allowed, _) => 0,
        (Verdict::Blocked, Certainty::Proven) => 1,
        (Verdict::Blocked, _) => 2,
        (Verdict::Indeterminate, _) => 2,
        (Verdict::TargetError, _) => 3,
    }
}

/// Exit codes follow the verdict and certainty one to one: 0 exactly when
/// allowed, 1 exactly when blocked and proven, 3 exactly on a target error,
/// and 2 for every other blocked or indeterminate outcome.
pub proof fn exit_code_law(v: Verdict, c: Certainty)
    ensures
        (exit_code_of(v, c) == 0) <==> v == Verdict::Allowed,
        (exit_code_of(v, c) == 1) <==> (v == Verdict::Blocked && c == Certainty::Proven),
        (exit_code_of(v, c) == 3) <==> v == Verdict::TargetError,
        (exit_code_of(v, c) == 2) <==> (v == Verdict::Indeterminate || (v == Verdict::Blocked && c
            != Certainty::Proven)),
{
}

} // verus!
