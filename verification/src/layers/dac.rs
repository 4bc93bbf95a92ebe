//! The DAC layer: owner, group and other mode bits, evaluated for the
//! target identity on the node that gates the op — the target itself, or
//! its parent directory for delete and create, where a sticky parent also
//! requires owning the directory or the file.

use vstd::prelude::*;
use vstd::string::*;
use crate::engine::{block_model, pass_model, skip_model, Layer, LayerResult, LayerResultModel, LayerStatus};
use crate::facts::{Facts, NodeMeta, Probe};
use crate::identity::Identity;
use crate::layers::traverse::{
    class_of, class_spec, group_string, group_text, owner_string, owner_text,
    Class,
};
use crate::op::{gates_on_parent, gating_node, GateTarget, Op};
use crate::layers::acl::{acl_decides, acl_decision};
use crate::paths::{parent_of, parent_of_spec};
use crate::report::{
    evidence_models, fix_models, Certainty, Evidence, EvidenceModel, EvidenceSource, Fix,
    FixAction, FixActionModel, FixModel, LayerId, Risk,
};
use crate::text::{append_str, dec, dec_u64, lit, oct_digits, oct_u64, push_char, views};

verus! {

pub struct DacLayer;

/// The three permission bits of the identity's class.
pub open spec fn class_bits_spec(id: Identity, m: NodeMeta) -> u32 {
    match class_spec(id, m) {
        Class::Owner => (m.mode >> 6u32) & 7,
        Class::Group => (m.mode >> 3u32) & 7,
        Class::Other => m.mode & 7,
    }
}

pub fn class_bits(id: &Identity, meta: &NodeMeta) -> (r: u32)
    ensures
        r == class_bits_spec(*id, *meta),
{
    match class_of(id, meta) {
        Class::Owner => (meta.mode >> 6u32) & 7,
        Class::Group => (meta.mode >> 3u32) & 7,
        Class::Other => meta.mode & 7,
    }
}

/// Whether the mode bits grant the op: root may read, write, delete and
/// create anything, execute a file with any execute bit and traverse a
/// directory (or a file with an execute bit); anyone else needs the bits of
/// their class — `r`, `w`, `x`, or `w` and `x` for delete and create.
pub open spec fn granted_spec(id: Identity, m: NodeMeta, op: Op) -> bool {
    if id.uid == 0 {
        match op {
            Op::Read | Op::Write | Op::Delete | Op::Create => true,
            Op::Exec => m.mode & 0o111 != 0,
            Op::Traverse => m.is_dir || m.mode & 0o111 != 0,
        }
    } else {
        let b = class_bits_spec(id, m);
        match op {
            Op::Read => b & 4 != 0,
            Op::Write => b & 2 != 0,
            Op::Exec | Op::Traverse => b & 1 != 0,
            Op::Delete | Op::Create => b & 2 != 0 && b & 1 != 0,
        }
    }
}

pub fn granted(id: &Identity, meta: &NodeMeta, op: Op) -> (r: bool)
    ensures
        r == granted_spec(*id, *meta, op),
{
    let m = meta.mode;
    if id.uid == 0 {
        return match op {
            Op::Read | Op::Write | Op::Delete | Op::Create => true,
            Op::Exec => m & 0o111 != 0,
            Op::Traverse => meta.is_dir || m & 0o111 != 0,
        };
    }
    let b = class_bits(id, meta);
    match op {
        Op::Read => b & 4 != 0,
        Op::Write => b & 2 != 0,
        Op::Exec | Op::Traverse => b & 1 != 0,
        Op::Delete | Op::Create => b & 2 != 0 && b & 1 != 0,
    }
}

/// Write and search on a directory: root has both.
pub open spec fn dir_wx_spec(id: Identity, m: NodeMeta) -> (bool, bool) {
    if id.uid == 0 {
        (true, true)
    } else {
        (class_bits_spec(id, m) & 2 != 0, class_bits_spec(id, m) & 1 != 0)
    }
}

fn dir_wx(id: &Identity, meta: &NodeMeta) -> (r: (bool, bool))
    ensures
        r == dir_wx_spec(*id, *meta),
{
    if id.uid == 0 {
        return (true, true);
    }
    let b = class_bits(id, meta);
    (b & 2 != 0, b & 1 != 0)
}

pub open spec fn class_name(c: Class) -> Seq<char> {
    match c {
        Class::Owner => "owner"@,
        Class::Group => "group"@,
        Class::Other => "other"@,
    }
}

/// The identity's name, or its uid in decimal.
pub open spec fn who_spec(id: Identity) -> Seq<char> {
    match id.name {
        Some(n) => n@,
        None => dec(id.uid as nat),
    }
}

pub fn who(id: &Identity) -> (r: String)
    ensures
        r@ == who_spec(*id),
{
    match &id.name {
        Some(n) => n.clone(),
        None => dec_u64(id.uid as u64),
    }
}

pub open spec fn op_word_spec(op: Op) -> Seq<char> {
    match op {
        Op::Read => "read"@,
        Op::Write => "write"@,
        Op::Exec => "exec"@,
        Op::Traverse => "traverse"@,
        Op::Delete => "delete"@,
        Op::Create => "create"@,
    }
}

pub fn op_word(op: Op) -> (r: &'static str)
    ensures
        r@ == op_word_spec(op),
{
    match op {
        Op::Read => "read",
        Op::Write => "write",
        Op::Exec => "exec",
        Op::Traverse => "traverse",
        Op::Delete => "delete",
        Op::Create => "create",
    }
}

pub open spec fn op_letter_spec(op: Op) -> Seq<char> {
    match op {
        Op::Read => "r"@,
        Op::Write => "w"@,
        Op::Exec | Op::Traverse => "x"@,
        Op::Delete | Op::Create => "wx"@,
    }
}

pub fn op_letter(op: Op) -> (r: &'static str)
    ensures
        r@ == op_letter_spec(op),
{
    match op {
        Op::Read => "r",
        Op::Write => "w",
        Op::Exec | Op::Traverse => "x",
        Op::Delete | Op::Create => "wx",
    }
}

/// The four octal digits of a mode's permission and special bits.
pub open spec fn mode_octal(m: u32) -> Seq<char> {
    oct_digits((m & 0o7777) as nat, 4)
}

fn mode_octal_exec(m: u32) -> (r: String)
    ensures
        r@ == mode_octal(m),
{
    oct_u64((m & 0o7777) as u64, 4)
}

/// One class's `rwx` triple, the execute position showing a special bit as
/// `set` (with execute) or `unset` (without).
pub open spec fn rwx_spec(m: u32, shift: u32, sp: bool, set: char, unset: char) -> Seq<char> {
    let b = (m >> shift) & 7;
    seq![
        if b & 4 != 0 {
            'r'
        } else {
            '-'
        },
        if b & 2 != 0 {
            'w'
        } else {
            '-'
        },
        if b & 1 != 0 && sp {
            set
        } else if sp {
            unset
        } else if b & 1 != 0 {
            'x'
        } else {
            '-'
        },
    ]
}

pub fn rwx(m: u32, shift: u32, sp: bool, set: char, unset: char) -> (r: String)
    requires
        shift < 32,
    ensures
        r@ == rwx_spec(m, shift, sp, set, unset),
{
    let b = (m >> shift) & 7;
    let mut s = String::new();
    push_char(
        &mut s,
        if b & 4 != 0 {
            'r'
        } else {
            '-'
        },
    );
    push_char(
        &mut s,
        if b & 2 != 0 {
            'w'
        } else {
            '-'
        },
    );
    let x = if b & 1 != 0 && sp {
        set
    } else if sp {
        unset
    } else if b & 1 != 0 {
        'x'
    } else {
        '-'
    };
    push_char(&mut s, x);
    assert(s@ =~= rwx_spec(m, shift, sp, set, unset));
    s
}

/// `<mode> <links> <owner> <group> <size> <path>`, with special bits shown
/// in the execute positions.
pub open spec fn ls_line_spec(p: Seq<char>, m: NodeMeta) -> Seq<char> {
    let mode = m.mode;
    seq![if m.is_dir {
        'd'
    } else {
        '-'
    }] + rwx_spec(mode, 6, mode & 0o4000 != 0, 's', 'S') + rwx_spec(
        mode,
        3,
        mode & 0o2000 != 0,
        's',
        'S',
    ) + rwx_spec(mode, 0, mode & 0o1000 != 0, 't', 'T') + " "@ + dec(m.nlink as nat) + " "@
        + owner_text(m) + " "@ + group_text(m) + " "@ + dec(m.size as nat) + " "@ + p
}

fn ls_line(p: &str, meta: &NodeMeta) -> (r: String)
    ensures
        r@ == ls_line_spec(p@, *meta),
{
    let m = meta.mode;
    let mut s = String::new();
    push_char(
        &mut s,
        if meta.is_dir {
            'd'
        } else {
            '-'
        },
    );
    append_str(&mut s, rwx(m, 6, m & 0o4000 != 0, 's', 'S').as_str());
    append_str(&mut s, rwx(m, 3, m & 0o2000 != 0, 's', 'S').as_str());
    append_str(&mut s, rwx(m, 0, m & 0o1000 != 0, 't', 'T').as_str());
    append_str(&mut s, " ");
    append_str(&mut s, dec_u64(meta.nlink).as_str());
    append_str(&mut s, " ");
    append_str(&mut s, owner_string(meta).as_str());
    append_str(&mut s, " ");
    append_str(&mut s, group_string(meta).as_str());
    append_str(&mut s, " ");
    append_str(&mut s, dec_u64(meta.size).as_str());
    append_str(&mut s, " ");
    append_str(&mut s, p);
    s
}

pub open spec fn ls_evidence_spec(p: Seq<char>, m: NodeMeta) -> EvidenceModel {
    EvidenceModel { source: EvidenceSource::LsLd, raw: ls_line_spec(p, m), path: Some(p) }
}

fn ls_evidence(p: &str, meta: &NodeMeta) -> (r: Evidence)
    ensures
        r@ == ls_evidence_spec(p@, *meta),
{
    Evidence { source: EvidenceSource::LsLd, raw: ls_line(p, meta), path: Some(lit(p)) }
}

/// What the setuid and setgid bits mean for exec, joined by `; `.
pub open spec fn suid_note_spec(m: NodeMeta) -> Seq<char> {
    let u = if m.mode & 0o4000 != 0 {
        "setuid bit set; exec runs as uid "@ + dec(m.uid as nat)
    } else {
        seq![]
    };
    if m.mode & 0o2000 != 0 {
        u + (if u.len() > 0 {
            "; "@
        } else {
            seq![]
        }) + "setgid bit set; exec runs as gid "@ + dec(m.gid as nat)
    } else {
        u
    }
}

fn suid_note(meta: &NodeMeta) -> (r: String)
    ensures
        r@ == suid_note_spec(*meta),
{
    let m = meta.mode;
    let mut n = String::new();
    if m & 0o4000 != 0 {
        append_str(&mut n, "setuid bit set; exec runs as uid ");
        append_str(&mut n, dec_u64(meta.uid as u64).as_str());
    }
    if m & 0o2000 != 0 {
        if !n.as_str().is_empty() {
            append_str(&mut n, "; ");
        }
        append_str(&mut n, "setgid bit set; exec runs as gid ");
        append_str(&mut n, dec_u64(meta.gid as u64).as_str());
    }
    assert(n@ =~= suid_note_spec(*meta));
    n
}

/// Two ways to grant the missing permission: a named-user ACL entry (low
/// risk) or the other class's bits (medium risk); both need root unless the
/// identity owns the node.
pub open spec fn grant_fixes_spec(id: Identity, m: NodeMeta, p: Seq<char>, op: Op) -> Seq<FixModel> {
    let w = who_spec(id);
    let perm = op_letter_spec(op);
    let needs_root = id.uid != m.uid;
    seq![
        FixModel {
            action: FixActionModel::Run { argv: seq!["setfacl"@, "-m"@, "u:"@ + w + ":"@ + perm, p] },
            needs_root,
            description: "grant "@ + w + " "@ + perm + " on "@ + p + " via a named-user ACL entry"@,
            risk: Risk::Low,
            rationale: "named-user entry only"@,
        },
        FixModel {
            action: FixActionModel::Run { argv: seq!["chmod"@, "o+"@ + perm, p] },
            needs_root,
            description: "grant "@ + perm + " to the other class on "@ + p,
            risk: Risk::Medium,
            rationale: "all users; prefer setfacl"@,
        },
    ]
}

fn grant_fixes(id: &Identity, meta: &NodeMeta, p: &str, op: Op) -> (r: Vec<Fix>)
    ensures
        fix_models(r@) == grant_fixes_spec(*id, *meta, p@, op),
{
    let w = who(id);
    let perm = op_letter(op);
    let needs_root = id.uid != meta.uid;
    let mut entry = lit("u:");
    append_str(&mut entry, w.as_str());
    append_str(&mut entry, ":");
    append_str(&mut entry, perm);
    let mut a1: Vec<String> = Vec::new();
    a1.push(lit("setfacl"));
    a1.push(lit("-m"));
    a1.push(entry);
    a1.push(lit(p));
    let mut d1 = lit("grant ");
    append_str(&mut d1, w.as_str());
    append_str(&mut d1, " ");
    append_str(&mut d1, perm);
    append_str(&mut d1, " on ");
    append_str(&mut d1, p);
    append_str(&mut d1, " via a named-user ACL entry");
    let mut o = lit("o+");
    append_str(&mut o, perm);
    let mut a2: Vec<String> = Vec::new();
    a2.push(lit("chmod"));
    a2.push(o);
    a2.push(lit(p));
    let mut d2 = lit("grant ");
    append_str(&mut d2, perm);
    append_str(&mut d2, " to the other class on ");
    append_str(&mut d2, p);
    let mut v: Vec<Fix> = Vec::new();
    v.push(
        Fix {
            action: FixAction::Run { argv: a1 },
            needs_root,
            description: d1,
            risk: Risk::Low,
            rationale: lit("named-user entry only"),
        },
    );
    v.push(
        Fix {
            action: FixAction::Run { argv: a2 },
            needs_root,
            description: d2,
            risk: Risk::Medium,
            rationale: lit("all users; prefer setfacl"),
        },
    );
    assert(views(v@[0].action->argv@) =~= seq!["setfacl"@, "-m"@, "u:"@ + w@ + ":"@ + perm@, p@]);
    assert(views(v@[1].action->argv@) =~= seq!["chmod"@, "o+"@ + perm@, p@]);
    assert(fix_models(v@) =~= grant_fixes_spec(*id, *meta, p@, op));
    v
}

/// Transferring the file to the identity.
pub open spec fn chown_fix_spec(id: Identity, file: Seq<char>) -> FixModel {
    FixModel {
        action: FixActionModel::Run { argv: seq!["chown"@, dec(id.uid as nat), file] },
        needs_root: true,
        description: "chown "@ + file + " to uid "@ + dec(id.uid as nat),
        risk: Risk::Medium,
        rationale: "transfer ownership"@,
    }
}

fn chown_fix(id: &Identity, file: &str) -> (r: Fix)
    ensures
        r@ == chown_fix_spec(*id, file@),
{
    let mut argv: Vec<String> = Vec::new();
    argv.push(lit("chown"));
    argv.push(dec_u64(id.uid as u64));
    argv.push(lit(file));
    assert(views(argv@) =~= seq!["chown"@, dec(id.uid as nat), file@]);
    let mut d = lit("chown ");
    append_str(&mut d, file);
    append_str(&mut d, " to uid ");
    append_str(&mut d, dec_u64(id.uid as u64).as_str());
    Fix {
        action: FixAction::Run { argv },
        needs_root: true,
        description: d,
        risk: Risk::Medium,
        rationale: lit("transfer ownership"),
    }
}

pub open spec fn node_detail(id: Identity, m: NodeMeta, op: Op) -> Seq<char> {
    "DAC denies "@ + op_word_spec(op) + " for "@ + who_spec(id) + ": mode "@ + mode_octal(m.mode)
        + ", "@ + who_spec(id) + " class "@ + class_name(class_spec(id, m)) + " lacks "@
        + op_letter_spec(op)
}

/// The node itself gates the op: no metadata skips; granted passes with a
/// note on setuid and setgid; otherwise a proven block with grant fixes.
pub open spec fn node_spec(id: Identity, p: Seq<char>, stat: Probe, op: Op) -> LayerResultModel {
    match stat {
        Probe::Failed(_) => skip_model(),
        Probe::Found(m) => {
            let ev = seq![ls_evidence_spec(p, m)];
            if granted_spec(id, m, op) {
                LayerResultModel {
                    status: LayerStatus::Pass,
                    certainty: Certainty::Proven,
                    evidence: ev,
                    fixes: seq![],
                    detail: suid_note_spec(m),
                }
            } else {
                block_model(
                    Certainty::Proven,
                    node_detail(id, m, op),
                    ev,
                    grant_fixes_spec(id, m, p, op),
                )
            }
        },
    }
}

/// The DAC check when the node itself gates the op.
pub fn check_node(id: &Identity, p: &str, stat: &Probe, op: Op) -> (r: LayerResult)
    ensures
        r@ == node_spec(*id, p@, *stat, op),
{
    let meta = match stat {
        Probe::Failed(_) => return LayerResult::skip(),
        Probe::Found(m) => m,
    };
    let mut ev: Vec<Evidence> = Vec::new();
    ev.push(ls_evidence(p, meta));
    assert(evidence_models(ev@) =~= seq![ls_evidence_spec(p@, *meta)]);
    if granted(id, meta, op) {
        let r = LayerResult {
            status: LayerStatus::Pass,
            certainty: Certainty::Proven,
            evidence: ev,
            fixes: Vec::new(),
            detail: suid_note(meta),
        };
        assert(r@.fixes =~= seq![]);
        return r;
    }
    let w = who(id);
    let class = match class_of(id, meta) {
        Class::Owner => "owner",
        Class::Group => "group",
        Class::Other => "other",
    };
    let mut d = lit("DAC denies ");
    append_str(&mut d, op_word(op));
    append_str(&mut d, " for ");
    append_str(&mut d, w.as_str());
    append_str(&mut d, ": mode ");
    append_str(&mut d, mode_octal_exec(meta.mode).as_str());
    append_str(&mut d, ", ");
    append_str(&mut d, w.as_str());
    append_str(&mut d, " class ");
    append_str(&mut d, class);
    append_str(&mut d, " lacks ");
    append_str(&mut d, op_letter(op));
    LayerResult::block(Certainty::Proven, d, ev, grant_fixes(id, meta, p, op))
}

/// The parent's missing directory bits, named.
pub open spec fn missing_spec(w: bool, x: bool) -> Seq<char> {
    if !w && !x {
        "w and x"@
    } else if !w {
        "w"@
    } else {
        "x"@
    }
}

pub open spec fn parent_detail(id: Identity, par: Seq<char>, m: NodeMeta, op: Op) -> Seq<char> {
    let wx = dir_wx_spec(id, m);
    "DAC denies "@ + op_word_spec(op) + " for "@ + who_spec(id) + ": parent "@ + par + " mode "@
        + mode_octal(m.mode) + " lacks "@ + missing_spec(wx.0, wx.1)
}

pub open spec fn sticky_detail(id: Identity, par: Seq<char>, m: NodeMeta) -> Seq<char> {
    "sticky parent "@ + par + " (mode "@ + mode_octal(m.mode) + "): "@ + who_spec(id)
        + " owns neither"@
}

/// Whether the identity owns the node a lookup found; a failed lookup owns
/// nothing.
pub open spec fn owns_spec(id: Identity, stat: Probe) -> bool {
    match stat {
        Probe::Found(m) => m.uid == id.uid,
        Probe::Failed(_) => false,
    }
}

/// Whether a sticky parent keeps a non-root identity that owns neither the
/// directory nor the file from deleting it.
pub open spec fn sticky_blocks(id: Identity, m: NodeMeta, stat: Probe) -> bool {
    m.mode & 0o1000 != 0 && id.uid != 0 && id.uid != m.uid && !owns_spec(id, stat)
}

/// The parent directory gates the op: no metadata skips; missing write or
/// search on it blocks with grant fixes; for delete, a sticky parent blocks
/// an identity that owns neither it nor the file; otherwise it passes.
pub open spec fn parent_spec(
    id: Identity,
    of: Seq<char>,
    par: Seq<char>,
    parent: Probe,
    stat: Probe,
    op: Op,
    sticky_matters: bool,
) -> LayerResultModel {
    match parent {
        Probe::Failed(_) => skip_model(),
        Probe::Found(m) => {
            let ev = seq![ls_evidence_spec(par, m)];
            let wx = dir_wx_spec(id, m);
            if !(wx.0 && wx.1) {
                block_model(
                    Certainty::Proven,
                    parent_detail(id, par, m, op),
                    ev,
                    grant_fixes_spec(id, m, par, op),
                )
            } else if sticky_matters && sticky_blocks(id, m, stat) {
                block_model(Certainty::Proven, sticky_detail(id, par, m), ev, seq![chown_fix_spec(id, of)])
            } else {
                pass_model(ev)
            }
        },
    }
}

/// The DAC check when the parent directory `par` of `of` gates the op:
/// `parent` is its lookup and `stat` that of `of` itself.
pub fn check_parent(
    id: &Identity,
    of: &str,
    par: &str,
    parent: &Probe,
    stat: &Probe,
    op: Op,
    sticky_matters: bool,
) -> (r: LayerResult)
    ensures
        r@ == parent_spec(*id, of@, par@, *parent, *stat, op, sticky_matters),
{
    let meta = match parent {
        Probe::Failed(_) => return LayerResult::skip(),
        Probe::Found(m) => m,
    };
    let mut ev: Vec<Evidence> = Vec::new();
    ev.push(ls_evidence(par, meta));
    assert(evidence_models(ev@) =~= seq![ls_evidence_spec(par@, *meta)]);
    let w = who(id);
    let (can_w, can_x) = dir_wx(id, meta);
    if !(can_w && can_x) {
        let missing = if !can_w && !can_x {
            "w and x"
        } else if !can_w {
            "w"
        } else {
            "x"
        };
        let mut d = lit("DAC denies ");
        append_str(&mut d, op_word(op));
        append_str(&mut d, " for ");
        append_str(&mut d, w.as_str());
        append_str(&mut d, ": parent ");
        append_str(&mut d, par);
        append_str(&mut d, " mode ");
        append_str(&mut d, mode_octal_exec(meta.mode).as_str());
        append_str(&mut d, " lacks ");
        append_str(&mut d, missing);
        let fixes = grant_fixes(id, meta, par, op);
        return LayerResult::block(Certainty::Proven, d, ev, fixes);
    }
    if sticky_matters && meta.mode & 0o1000 != 0 && id.uid != 0 && id.uid != meta.uid {
        let owns_file = match stat {
            Probe::Found(m) => m.uid == id.uid,
            Probe::Failed(_) => false,
        };
        if !owns_file {
            let mut d = lit("sticky parent ");
            append_str(&mut d, par);
            append_str(&mut d, " (mode ");
            append_str(&mut d, mode_octal_exec(meta.mode).as_str());
            append_str(&mut d, "): ");
            append_str(&mut d, w.as_str());
            append_str(&mut d, " owns neither");
            let mut fixes: Vec<Fix> = Vec::new();
            fixes.push(chown_fix(id, of));
            assert(fix_models(fixes@) =~= seq![chown_fix_spec(*id, of@)]);
            return LayerResult::block(Certainty::Proven, d, ev, fixes);
        }
    }
    LayerResult::pass(ev)
}

/// The sticky-bit check alone, on a parent whose ACL grants the delete.
pub open spec fn sticky_spec(id: Identity, of: Seq<char>, par: Seq<char>, parent: Probe, stat: Probe) -> LayerResultModel {
    match parent {
        Probe::Failed(_) => skip_model(),
        Probe::Found(m) => {
            let ev = seq![ls_evidence_spec(par, m)];
            if sticky_blocks(id, m, stat) {
                block_model(Certainty::Proven, sticky_detail(id, par, m), ev, seq![chown_fix_spec(id, of)])
            } else {
                pass_model(ev)
            }
        },
    }
}

fn check_sticky(id: &Identity, of: &str, par: &str, parent: &Probe, stat: &Probe) -> (r: LayerResult)
    ensures
        r@ == sticky_spec(*id, of@, par@, *parent, *stat),
{
    let meta = match parent {
        Probe::Failed(_) => return LayerResult::skip(),
        Probe::Found(m) => m,
    };
    let mut ev: Vec<Evidence> = Vec::new();
    ev.push(ls_evidence(par, meta));
    assert(evidence_models(ev@) =~= seq![ls_evidence_spec(par@, *meta)]);
    let owns_file = match stat {
        Probe::Found(m) => m.uid == id.uid,
        Probe::Failed(_) => false,
    };
    if meta.mode & 0o1000 != 0 && id.uid != 0 && id.uid != meta.uid && !owns_file {
        let mut d = lit("sticky parent ");
        append_str(&mut d, par);
        append_str(&mut d, " (mode ");
        append_str(&mut d, mode_octal_exec(meta.mode).as_str());
        append_str(&mut d, "): ");
        append_str(&mut d, who(id).as_str());
        append_str(&mut d, " owns neither");
        let mut fixes: Vec<Fix> = Vec::new();
        fixes.push(chown_fix(id, of));
        assert(fix_models(fixes@) =~= seq![chown_fix_spec(*id, of@)]);
        return LayerResult::block(Certainty::Proven, d, ev, fixes);
    }
    LayerResult::pass(ev)
}

/// The DAC verdict for a snapshot: the parent decides delete and create,
/// the node itself every other op. Where the gating node's ACL decides
/// (`crate::layers::acl::acl_decision`), its permission bits are the ACL
/// layer's to judge: the layer skips, except that a delete the ACL grants
/// still meets a sticky parent.
pub open spec fn dac_spec(id: Identity, facts: Facts, op: Op) -> LayerResultModel {
    match acl_decision(id, facts, op) {
        Some(granted) => if op == Op::Delete && granted {
            sticky_spec(id, facts.path@, parent_of_spec(facts.path@), facts.parent, facts.stat)
        } else {
            skip_model()
        },
        None => if gates_on_parent(op) {
            parent_spec(
                id,
                facts.path@,
                parent_of_spec(facts.path@),
                facts.parent,
                facts.stat,
                op,
                op == Op::Delete,
            )
        } else {
            node_spec(id, facts.path@, facts.stat, op)
        },
    }
}

impl Layer for DacLayer {
    open spec fn spec_name(&self) -> Seq<char> {
        "dac"@
    }

    open spec fn spec_order(&self) -> u8 {
        3
    }

    open spec fn spec_id(&self) -> LayerId {
        LayerId::Dac
    }

    open spec fn spec_check(&self, target: Identity, facts: Facts, op: Op) -> LayerResultModel {
        dac_spec(target, facts, op)
    }

    fn name(&self) -> (r: String) {
        lit("dac")
    }

    fn order(&self) -> (r: u8) {
        3
    }

    fn id(&self) -> (r: LayerId) {
        LayerId::Dac
    }

    fn check(&self, target: &Identity, facts: &Facts, op: Op) -> (r: LayerResult) {
        match acl_decides(target, facts, op) {
            Some(granted) => {
                if op == Op::Delete && granted {
                    let of = facts.path.as_str();
                    return check_sticky(target, of, parent_of(of).as_str(), &facts.parent, &facts.stat);
                }
                return LayerResult::skip();
            },
            None => {},
        }
        match gating_node(op, facts.path.as_str()) {
            GateTarget::Node(p) => check_node(target, p.as_str(), &facts.stat, op),
            GateTarget::Parent { of, sticky_matters } => check_parent(
                target,
                of.as_str(),
                parent_of(of.as_str()).as_str(),
                &facts.parent,
                &facts.stat,
                op,
                sticky_matters,
            ),
        }
    }
}

/// Mode bits never stop root from reading, writing, deleting or creating:
/// whatever the snapshot, the DAC layer does not block those ops for uid 0.
pub proof fn root_not_blocked_law(id: Identity, facts: Facts, op: Op)
    requires
        id.uid == 0,
        op != Op::Exec && op != Op::Traverse,
    ensures
        dac_spec(id, facts, op).status != LayerStatus::Block,
{
}

proof fn lemma_mode_bits(mode: u32)
    ensures
        ((mode >> 6u32) & 7) & 4 != 0 <==> mode & 0o400 != 0,
        ((mode >> 6u32) & 7) & 2 != 0 <==> mode & 0o200 != 0,
        ((mode >> 6u32) & 7) & 1 != 0 <==> mode & 0o100 != 0,
        ((mode >> 3u32) & 7) & 4 != 0 <==> mode & 0o040 != 0,
        ((mode >> 3u32) & 7) & 2 != 0 <==> mode & 0o020 != 0,
        ((mode >> 3u32) & 7) & 1 != 0 <==> mode & 0o010 != 0,
        (mode & 7) & 4 != 0 <==> mode & 0o004 != 0,
        (mode & 7) & 2 != 0 <==> mode & 0o002 != 0,
        (mode & 7) & 1 != 0 <==> mode & 0o001 != 0,
{
    assert(((mode >> 6u32) & 7) & 4 != 0 <==> mode & 0o400 != 0) by (bit_vector);
    assert(((mode >> 6u32) & 7) & 2 != 0 <==> mode & 0o200 != 0) by (bit_vector);
    assert(((mode >> 6u32) & 7) & 1 != 0 <==> mode & 0o100 != 0) by (bit_vector);
    assert(((mode >> 3u32) & 7) & 4 != 0 <==> mode & 0o040 != 0) by (bit_vector);
    assert(((mode >> 3u32) & 7) & 2 != 0 <==> mode & 0o020 != 0) by (bit_vector);
    assert(((mode >> 3u32) & 7) & 1 != 0 <==> mode & 0o010 != 0) by (bit_vector);
    assert((mode & 7) & 4 != 0 <==> mode & 0o004 != 0) by (bit_vector);
    assert((mode & 7) & 2 != 0 <==> mode & 0o002 != 0) by (bit_vector);
    assert((mode & 7) & 1 != 0 <==> mode & 0o001 != 0) by (bit_vector);
}

/// Which of the node's permission bits decides a read, write, exec or
/// traverse of the node itself for a non-root identity, where no ACL
/// decides: the owner's bits when it owns the node; else the group's when
/// it belongs to the node's group, as its primary group or any of its
/// supplementary groups; else the other bits. The layer passes exactly when
/// that bit is set, and blocks otherwise.
pub proof fn mode_class_law(id: Identity, facts: Facts, m: NodeMeta, op: Op)
    requires
        facts.acl is None,
        op == Op::Read || op == Op::Write || op == Op::Exec || op == Op::Traverse,
        facts.stat == Probe::Found(m),
        id.uid != 0,
    ensures
        ({
            let s = dac_spec(id, facts, op).status;
            let (ro, wo, xo) = if id.uid == m.uid {
                (0o400u32, 0o200u32, 0o100u32)
            } else if id.primary_gid == m.gid || id.groups@.contains(m.gid) {
                (0o040u32, 0o020u32, 0o010u32)
            } else {
                (0o004u32, 0o002u32, 0o001u32)
            };
            &&& op == Op::Read ==> (s == LayerStatus::Pass <==> m.mode & ro != 0)
            &&& op == Op::Write ==> (s == LayerStatus::Pass <==> m.mode & wo != 0)
            &&& (op == Op::Exec || op == Op::Traverse) ==> (s == LayerStatus::Pass <==> m.mode & xo
                != 0)
            &&& (s == LayerStatus::Pass || s == LayerStatus::Block)
        }),
{
    lemma_mode_bits(m.mode);
}

/// A create, or a delete from a directory without the sticky bit, is
/// decided on the parent directory by the write and search bits of the
/// identity's class there (owner, else group by primary or supplementary
/// membership, else other), where no ACL decides: the layer passes exactly
/// when both are set, and blocks otherwise. Root always passes.
pub proof fn parent_class_law(id: Identity, facts: Facts, m: NodeMeta, op: Op)
    requires
        facts.acl is None,
        op == Op::Create || (op == Op::Delete && m.mode & 0o1000 == 0),
        facts.parent == Probe::Found(m),
    ensures
        ({
            let s = dac_spec(id, facts, op).status;
            let (wo, xo) = if id.uid == m.uid {
                (0o200u32, 0o100u32)
            } else if id.primary_gid == m.gid || id.groups@.contains(m.gid) {
                (0o020u32, 0o010u32)
            } else {
                (0o002u32, 0o001u32)
            };
            &&& id.uid != 0 ==> (s == LayerStatus::Pass <==> (m.mode & wo != 0 && m.mode & xo != 0))
            &&& id.uid != 0 ==> (s == LayerStatus::Pass || s == LayerStatus::Block)
            &&& id.uid == 0 ==> s == LayerStatus::Pass
        }),
{
    lemma_mode_bits(m.mode);
}

} // verus!
