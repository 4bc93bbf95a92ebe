//! The traverse layer: every ancestor directory of the target must grant
//! the identity search (`x`) in the class it falls in; the first one that
//! does not is the blocker.

use vstd::prelude::*;
use vstd::string::*;
use crate::engine::{
    block_model, pass_model, skip_model, Layer, LayerResult, LayerResultModel, LayerStatus,
};
use crate::facts::{Ancestor, Facts, NodeMeta, Probe};
use crate::identity::Identity;
use crate::op::Op;
use crate::report::{
    evidence_models, fix_models, Certainty, Evidence, EvidenceModel, EvidenceSource, Fix,
    FixAction, FixActionModel, FixModel, LayerId, Risk,
};
use crate::text::{append_str, dec, dec_u64, lit, push_char, views};

verus! {

pub struct TraverseLayer;

/// The permission class an identity falls in for a node.
#[derive(Clone, Copy, PartialEq, Eq, Debug, Structural)]
pub enum Class {
    Owner,
    Group,
    Other,
}

/// Whether the identity belongs to group `gid`, as primary or supplementary member.
pub open spec fn member(id: Identity, gid: u32) -> bool {
    gid == id.primary_gid || id.groups@.contains(gid)
}

/// Owner when the identity owns the node, else group when it is a member of
/// the node's group, else other.
pub open spec fn class_spec(id: Identity, m: NodeMeta) -> Class {
    if id.uid == m.uid {
        Class::Owner
    } else if member(id, m.gid) {
        Class::Group
    } else {
        Class::Other
    }
}

pub fn in_group(id: &Identity, gid: u32) -> (r: bool)
    ensures
        r == member(*id, gid),
{
    if id.primary_gid == gid {
        return true;
    }
    let mut i: usize = 0;
    while i < id.groups.len()
        invariant
            i <= id.groups@.len(),
            forall|k: int| 0 <= k < i ==> id.groups@[k] != gid,
        decreases id.groups@.len() - i,
    {
        if id.groups[i] == gid {
            return true;
        }
        i += 1;
    }
    false
}

pub fn class_of(id: &Identity, meta: &NodeMeta) -> (r: Class)
    ensures
        r == class_spec(*id, *meta),
{
    if id.uid == meta.uid {
        Class::Owner
    } else if in_group(id, meta.gid) {
        Class::Group
    } else {
        Class::Other
    }
}

/// The search (`x`) bit of the identity's class.
pub open spec fn search_spec(id: Identity, m: NodeMeta) -> bool {
    match class_spec(id, m) {
        Class::Owner => m.mode & 0o100 != 0,
        Class::Group => m.mode & 0o010 != 0,
        Class::Other => m.mode & 0o001 != 0,
    }
}

fn has_search(id: &Identity, meta: &NodeMeta) -> (r: bool)
    ensures
        r == search_spec(*id, *meta),
{
    match class_of(id, meta) {
        Class::Owner => meta.mode & 0o100 != 0,
        Class::Group => meta.mode & 0o010 != 0,
        Class::Other => meta.mode & 0o001 != 0,
    }
}

pub open spec fn bitc(mode: u32, m: u32, c: char) -> char {
    if mode & m != 0 {
        c
    } else {
        '-'
    }
}

/// An execute position that also shows a special bit: lower case when both
/// are set, upper case when only the special bit is.
pub open spec fn special(mode: u32, set: u32, x: u32, lo: char, up: char) -> char {
    if mode & set != 0 && mode & x != 0 {
        lo
    } else if mode & set != 0 {
        up
    } else if mode & x != 0 {
        'x'
    } else {
        '-'
    }
}

/// The ten-character mode string as `ls -l` prints it.
pub open spec fn mode_string(mode: u32, is_dir: bool) -> Seq<char> {
    seq![
        if is_dir {
            'd'
        } else {
            '-'
        },
        bitc(mode, 0o400, 'r'),
        bitc(mode, 0o200, 'w'),
        special(mode, 0o4000, 0o100, 's', 'S'),
        bitc(mode, 0o040, 'r'),
        bitc(mode, 0o020, 'w'),
        special(mode, 0o2000, 0o010, 's', 'S'),
        bitc(mode, 0o004, 'r'),
        bitc(mode, 0o002, 'w'),
        special(mode, 0o1000, 0o001, 't', 'T'),
    ]
}

fn bitc_exec(mode: u32, m: u32, c: char) -> (r: char)
    ensures
        r == bitc(mode, m, c),
{
    if mode & m != 0 {
        c
    } else {
        '-'
    }
}

fn special_exec(mode: u32, set: u32, x: u32, lo: char, up: char) -> (r: char)
    ensures
        r == special(mode, set, x, lo, up),
{
    if mode & set != 0 && mode & x != 0 {
        lo
    } else if mode & set != 0 {
        up
    } else if mode & x != 0 {
        'x'
    } else {
        '-'
    }
}

pub fn perm_string(mode: u32, is_dir: bool) -> (r: String)
    ensures
        r@ == mode_string(mode, is_dir),
{
    let mut s = String::new();
    push_char(
        &mut s,
        if is_dir {
            'd'
        } else {
            '-'
        },
    );
    push_char(&mut s, bitc_exec(mode, 0o400, 'r'));
    push_char(&mut s, bitc_exec(mode, 0o200, 'w'));
    push_char(&mut s, special_exec(mode, 0o4000, 0o100, 's', 'S'));
    push_char(&mut s, bitc_exec(mode, 0o040, 'r'));
    push_char(&mut s, bitc_exec(mode, 0o020, 'w'));
    push_char(&mut s, special_exec(mode, 0o2000, 0o010, 's', 'S'));
    push_char(&mut s, bitc_exec(mode, 0o004, 'r'));
    push_char(&mut s, bitc_exec(mode, 0o002, 'w'));
    push_char(&mut s, special_exec(mode, 0o1000, 0o001, 't', 'T'));
    assert(s@ =~= mode_string(mode, is_dir));
    s
}

/// The owner's name, or the uid in decimal when it has none.
pub open spec fn owner_text(m: NodeMeta) -> Seq<char> {
    match m.owner_name {
        Some(n) => n@,
        None => dec(m.uid as nat),
    }
}

/// The group's name, or the gid in decimal when it has none.
pub open spec fn group_text(m: NodeMeta) -> Seq<char> {
    match m.group_name {
        Some(n) => n@,
        None => dec(m.gid as nat),
    }
}

pub fn owner_string(m: &NodeMeta) -> (r: String)
    ensures
        r@ == owner_text(*m),
{
    match &m.owner_name {
        Some(n) => n.clone(),
        None => dec_u64(m.uid as u64),
    }
}

pub fn group_string(m: &NodeMeta) -> (r: String)
    ensures
        r@ == group_text(*m),
{
    match &m.group_name {
        Some(n) => n.clone(),
        None => dec_u64(m.gid as u64),
    }
}

/// `<mode> <links> <owner> <group> <size> <path>`, as `ls -ld` prints a directory.
pub open spec fn ls_ld_spec(path: Seq<char>, m: NodeMeta) -> Seq<char> {
    mode_string(m.mode, m.is_dir) + " "@ + dec(m.nlink as nat) + " "@ + owner_text(m) + " "@
        + group_text(m) + " "@ + dec(m.size as nat) + " "@ + path
}

pub fn ls_ld(path: &str, meta: &NodeMeta) -> (r: String)
    ensures
        r@ == ls_ld_spec(path@, *meta),
{
    let mut s = perm_string(meta.mode, meta.is_dir);
    append_str(&mut s, " ");
    append_str(&mut s, dec_u64(meta.nlink).as_str());
    append_str(&mut s, " ");
    append_str(&mut s, owner_string(meta).as_str());
    append_str(&mut s, " ");
    append_str(&mut s, group_string(meta).as_str());
    append_str(&mut s, " ");
    append_str(&mut s, dec_u64(meta.size).as_str());
    append_str(&mut s, " ");
    append_str(&mut s, path);
    s
}

pub open spec fn subject_spec(id: Identity) -> Seq<char> {
    match id.name {
        Some(n) => n@,
        None => "uid "@ + dec(id.uid as nat),
    }
}

fn subject(id: &Identity) -> (r: String)
    ensures
        r@ == subject_spec(*id),
{
    match &id.name {
        Some(n) => n.clone(),
        None => {
            let mut s = lit("uid ");
            append_str(&mut s, dec_u64(id.uid as u64).as_str());
            s
        },
    }
}

pub open spec fn class_symbol(c: Class) -> Seq<char> {
    match c {
        Class::Owner => "u+x"@,
        Class::Group => "g+x"@,
        Class::Other => "o+x"@,
    }
}

pub open spec fn class_word(c: Class) -> Seq<char> {
    match c {
        Class::Owner => "owner"@,
        Class::Group => "group"@,
        Class::Other => "others"@,
    }
}

/// The fix for a directory the identity cannot search: add the search bit
/// of its class, with `sudo` unless the tool runs as root or as the owner.
pub open spec fn traverse_fix(id: Identity, dir: Seq<char>, m: NodeMeta, euid: u32) -> FixModel {
    let c = class_spec(id, m);
    FixModel {
        action: FixActionModel::Run { argv: seq!["chmod"@, class_symbol(c), dir] },
        needs_root: euid != 0 && euid != m.uid,
        description: "grant search (execute) on "@ + dir,
        risk: Risk::Low,
        rationale: "add "@ + class_word(c) + " search bit"@,
    }
}

pub open spec fn traverse_detail(id: Identity, dir: Seq<char>, m: NodeMeta) -> Seq<char> {
    dir + " not traversable by "@ + subject_spec(id) + "; missing "@ + class_word(class_spec(id, m))
        + " execute bit"@
}

fn build_fix(id: &Identity, dir: &str, meta: &NodeMeta, euid: u32) -> (r: (Fix, String))
    ensures
        r.0@ == traverse_fix(*id, dir@, *meta, euid),
        r.1@ == traverse_detail(*id, dir@, *meta),
{
    let c = class_of(id, meta);
    let (sym, who) = match c {
        Class::Owner => ("u+x", "owner"),
        Class::Group => ("g+x", "group"),
        Class::Other => ("o+x", "others"),
    };
    let needs_root = euid != 0 && euid != meta.uid;
    let mut detail = lit(dir);
    append_str(&mut detail, " not traversable by ");
    append_str(&mut detail, subject(id).as_str());
    append_str(&mut detail, "; missing ");
    append_str(&mut detail, who);
    append_str(&mut detail, " execute bit");
    let mut argv: Vec<String> = Vec::new();
    argv.push(lit("chmod"));
    argv.push(lit(sym));
    argv.push(lit(dir));
    assert(views(argv@) =~= seq!["chmod"@, class_symbol(c), dir@]);
    let mut desc = lit("grant search (execute) on ");
    append_str(&mut desc, dir);
    let mut rationale = lit("add ");
    append_str(&mut rationale, who);
    append_str(&mut rationale, " search bit");
    let fix = Fix {
        action: FixAction::Run { argv },
        needs_root,
        description: desc,
        risk: Risk::Low,
        rationale,
    };
    (fix, detail)
}

/// Walks the ancestors from `i` on, with `chain` the evidence so far: an
/// unreadable directory ends the walk with a skip; the first directory the
/// identity cannot search (root searches everything) blocks; otherwise
/// every directory passes.
pub open spec fn walk(id: Identity, euid: u32, anc: Seq<Ancestor>, i: int, chain: Seq<EvidenceModel>) -> LayerResultModel
    decreases anc.len() - i,
{
    if i < 0 || i >= anc.len() {
        pass_model(chain)
    } else {
        match anc[i].meta {
            Probe::Failed(_) => skip_model(),
            Probe::Found(m) => {
                let c2 = chain.push(
                    EvidenceModel {
                        source: EvidenceSource::LsLd,
                        raw: ls_ld_spec(anc[i].dir@, m),
                        path: Some(anc[i].dir@),
                    },
                );
                if id.uid == 0 || search_spec(id, m) {
                    walk(id, euid, anc, i + 1, c2)
                } else {
                    block_model(
                        Certainty::Proven,
                        traverse_detail(id, anc[i].dir@, m),
                        c2,
                        seq![traverse_fix(id, anc[i].dir@, m, euid)],
                    )
                }
            },
        }
    }
}

pub open spec fn traverse_spec(id: Identity, facts: Facts) -> LayerResultModel {
    match facts.ancestors {
        None => pass_model(seq![]),
        Some(a) => walk(id, facts.euid, a@, 0, seq![]),
    }
}

pub fn evaluate(id: &Identity, facts: &Facts) -> (r: LayerResult)
    ensures
        r@ == traverse_spec(*id, *facts),
{
    let anc = match &facts.ancestors {
        None => {
            let v: Vec<Evidence> = Vec::new();
            assert(evidence_models(v@) =~= seq![]);
            return LayerResult::pass(v);
        },
        Some(a) => a,
    };
    let mut chain: Vec<Evidence> = Vec::new();
    assert(evidence_models(chain@) =~= seq![]);
    let mut i: usize = 0;
    while i < anc.len()
        invariant
            i <= anc@.len(),
            traverse_spec(*id, *facts) == walk(*id, facts.euid, anc@, 0, seq![]),
            walk(*id, facts.euid, anc@, 0, seq![]) == walk(
                *id,
                facts.euid,
                anc@,
                i as int,
                evidence_models(chain@),
            ),
        decreases anc@.len() - i,
    {
        let a = &anc[i];
        match &a.meta {
            Probe::Failed(_) => {
                return LayerResult::skip();
            },
            Probe::Found(meta) => {
                let e = Evidence {
                    source: EvidenceSource::LsLd,
                    raw: ls_ld(a.dir.as_str(), meta),
                    path: Some(a.dir.clone()),
                };
                let ghost before = evidence_models(chain@);
                chain.push(e);
                assert(evidence_models(chain@) =~= before.push(e@));
                if id.uid == 0 || has_search(id, meta) {
                    i += 1;
                    continue;
                }
                let (fix, detail) = build_fix(id, a.dir.as_str(), meta, facts.euid);
                let mut fixes: Vec<Fix> = Vec::new();
                fixes.push(fix);
                assert(fix_models(fixes@) =~= seq![
                    traverse_fix(*id, anc@[i as int].dir@, *meta, facts.euid),
                ]);
                return LayerResult::block(Certainty::Proven, detail, chain, fixes);
            },
        }
    }
    LayerResult::pass(chain)
}

impl Layer for TraverseLayer {
    open spec fn spec_name(&self) -> Seq<char> {
        "traverse"@
    }

    open spec fn spec_order(&self) -> u8 {
        2
    }

    open spec fn spec_id(&self) -> LayerId {
        LayerId::Traverse
    }

    open spec fn spec_check(&self, target: Identity, facts: Facts, op: Op) -> LayerResultModel {
        traverse_spec(target, facts)
    }

    fn name(&self) -> (r: String) {
        lit("traverse")
    }

    fn order(&self) -> (r: u8) {
        2
    }

    fn id(&self) -> (r: LayerId) {
        LayerId::Traverse
    }

    fn check(&self, target: &Identity, facts: &Facts, _op: Op) -> (r: LayerResult) {
        evaluate(target, facts)
    }
}

/// Every block the walk reaches is proven.
pub proof fn walk_blocks_are_proven(id: Identity, euid: u32, anc: Seq<Ancestor>, i: int, chain: Seq<EvidenceModel>)
    ensures
        walk(id, euid, anc, i, chain).status == LayerStatus::Block ==> walk(
            id,
            euid,
            anc,
            i,
            chain,
        ).certainty == Certainty::Proven,
        walk(id, euid, anc, i, chain).status != LayerStatus::Suspect,
        walk(id, euid, anc, i, chain).status != LayerStatus::Error,
    decreases anc.len() - i,
{
    if 0 <= i < anc.len() {
        match anc[i].meta {
            Probe::Failed(_) => {},
            Probe::Found(m) => {
                let c2 = chain.push(
                    EvidenceModel {
                        source: EvidenceSource::LsLd,
                        raw: ls_ld_spec(anc[i].dir@, m),
                        path: Some(anc[i].dir@),
                    },
                );
                walk_blocks_are_proven(id, euid, anc, i + 1, c2);
            },
        }
    }
}

/// Root searches every directory: when every ancestor could be looked up,
/// the traverse layer passes for uid 0, its evidence one line per ancestor.
pub proof fn root_traverses_law(id: Identity, facts: Facts)
    requires
        id.uid == 0,
        facts.ancestors matches Some(a) && forall|i: int| 0 <= i < a@.len() ==> (#[trigger] a@[i]).meta is Found,
    ensures
        traverse_spec(id, facts).status == LayerStatus::Pass,
        traverse_spec(id, facts).evidence.len() == facts.ancestors->0@.len(),
{
    let a = facts.ancestors->0@;
    lemma_root_walk(id, facts.euid, a, 0, seq![]);
}

proof fn lemma_root_walk(id: Identity, euid: u32, anc: Seq<Ancestor>, i: int, chain: Seq<EvidenceModel>)
    requires
        id.uid == 0,
        0 <= i <= anc.len(),
        forall|k: int| 0 <= k < anc.len() ==> (#[trigger] anc[k]).meta is Found,
    ensures
        walk(id, euid, anc, i, chain).status == LayerStatus::Pass,
        walk(id, euid, anc, i, chain).evidence.len() == chain.len() + anc.len() - i,
    decreases anc.len() - i,
{
    if i < anc.len() {
        let m = anc[i].meta->Found_0;
        let c2 = chain.push(
            EvidenceModel {
                source: EvidenceSource::LsLd,
                raw: ls_ld_spec(anc[i].dir@, m),
                path: Some(anc[i].dir@),
            },
        );
        lemma_root_walk(id, euid, anc, i + 1, c2);
    }
}

/// Whether the identity is in the group class of every directory of `anc`:
/// it owns none of them and belongs, as its primary group or any
/// supplementary group, to each one's group.
pub open spec fn group_class_walk(id: Identity, anc: Seq<Ancestor>) -> bool {
    forall|k: int|
        0 <= k < anc.len() ==> (#[trigger] anc[k]).meta is Found && id.uid != anc[k].meta->Found_0.uid
            && (id.primary_gid == anc[k].meta->Found_0.gid || id.groups@.contains(
            anc[k].meta->Found_0.gid,
        ))
}

proof fn lemma_group_walk(id: Identity, euid: u32, anc: Seq<Ancestor>, i: int, chain: Seq<EvidenceModel>)
    requires
        0 <= i <= anc.len(),
        id.uid != 0,
        group_class_walk(id, anc),
    ensures
        walk(id, euid, anc, i, chain).status == LayerStatus::Pass <==> forall|k: int|
            i <= k < anc.len() ==> (#[trigger] anc[k]).meta->Found_0.mode & 0o010 != 0,
    decreases anc.len() - i,
{
    if i < anc.len() {
        let m = anc[i].meta->Found_0;
        let c2 = chain.push(
            EvidenceModel {
                source: EvidenceSource::LsLd,
                raw: ls_ld_spec(anc[i].dir@, m),
                path: Some(anc[i].dir@),
            },
        );
        lemma_group_walk(id, euid, anc, i + 1, c2);
        assert(anc[i].meta is Found);
        if m.mode & 0o010 == 0 {
            assert(!(forall|k: int| i <= k < anc.len() ==> (#[trigger] anc[k]).meta->Found_0.mode & 0o010 != 0));
        }
    }
}

/// The group's search bit alone decides the walk for an identity in the
/// group class of every ancestor (as primary or supplementary member): for
/// a non-root identity whose every ancestor could be looked up, the
/// traverse layer passes exactly when each ancestor's group `x` bit is set,
/// whatever the owner and other bits are.
pub proof fn group_search_law(id: Identity, facts: Facts)
    requires
        id.uid != 0,
        facts.ancestors matches Some(a) && group_class_walk(id, a@),
    ensures
        traverse_spec(id, facts).status == LayerStatus::Pass <==> forall|k: int|
            0 <= k < facts.ancestors->0@.len() ==> (#[trigger] facts.ancestors->0@[k]).meta->Found_0.mode
                & 0o010 != 0,
{
    lemma_group_walk(id, facts.euid, facts.ancestors->0@, 0, seq![]);
}

/// The search bit the kernel consults for a non-root identity: the
/// owner's `x` when it owns the directory, else the group's `x` when it
/// belongs to the directory's group (primary or supplementary), else the
/// other `x`.
pub open spec fn kernel_search_bit(id: Identity, m: NodeMeta) -> bool {
    if id.uid == m.uid {
        m.mode & 0o100 != 0
    } else if id.primary_gid == m.gid || id.groups@.contains(m.gid) {
        m.mode & 0o010 != 0
    } else {
        m.mode & 0o001 != 0
    }
}

proof fn lemma_search_walk(id: Identity, euid: u32, anc: Seq<Ancestor>, i: int, chain: Seq<EvidenceModel>)
    requires
        0 <= i <= anc.len(),
        id.uid != 0,
        forall|k: int| 0 <= k < anc.len() ==> (#[trigger] anc[k]).meta is Found,
    ensures
        walk(id, euid, anc, i, chain).status == LayerStatus::Pass <==> forall|k: int|
            i <= k < anc.len() ==> kernel_search_bit(id, (#[trigger] anc[k]).meta->Found_0),
        walk(id, euid, anc, i, chain).status == LayerStatus::Pass || walk(
            id,
            euid,
            anc,
            i,
            chain,
        ).status == LayerStatus::Block,
    decreases anc.len() - i,
{
    if i < anc.len() {
        let m = anc[i].meta->Found_0;
        let c2 = chain.push(
            EvidenceModel {
                source: EvidenceSource::LsLd,
                raw: ls_ld_spec(anc[i].dir@, m),
                path: Some(anc[i].dir@),
            },
        );
        lemma_search_walk(id, euid, anc, i + 1, c2);
        assert(anc[i].meta is Found);
        if !kernel_search_bit(id, m) {
            assert(!(forall|k: int| i <= k < anc.len() ==> kernel_search_bit(id, (#[trigger] anc[k]).meta->Found_0)));
        }
    }
}

/// For a non-root identity whose every ancestor could be looked up, the
/// traverse layer passes exactly when every ancestor grants it search by
/// the bit of its own class there, and blocks otherwise.
pub proof fn search_class_law(id: Identity, facts: Facts)
    requires
        id.uid != 0,
        facts.ancestors matches Some(a) && forall|k: int| 0 <= k < a@.len() ==> (#[trigger] a@[k]).meta is Found,
    ensures
        traverse_spec(id, facts).status == LayerStatus::Pass <==> forall|k: int|
            0 <= k < facts.ancestors->0@.len() ==> kernel_search_bit(
                id,
                (#[trigger] facts.ancestors->0@[k]).meta->Found_0,
            ),
        traverse_spec(id, facts).status == LayerStatus::Pass || traverse_spec(id, facts).status
            == LayerStatus::Block,
{
    lemma_search_walk(id, facts.euid, facts.ancestors->0@, 0, seq![]);
}

} // verus!
