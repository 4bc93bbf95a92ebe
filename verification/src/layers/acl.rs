//! The ACL layer: evaluates the POSIX access ACL of the node an op is
//! decided on, as the kernel's access check does. The ACL arrives as the
//! bytes of the `system.posix_acl_access` attribute; a node without one is
//! left to the mode bits, and so is root.

use vstd::prelude::*;
use crate::access_check::{gate_path, gate_path_spec};
use crate::engine::{
    block_model, pass_model, skip_model, Layer, LayerResult, LayerResultModel, LayerStatus,
};
use crate::facts::{Facts, NodeMeta, Probe};
use crate::identity::Identity;
use crate::layers::dac::{op_letter, op_letter_spec, op_word, op_word_spec, who, who_spec};
use crate::layers::traverse::{in_group, member};
use crate::op::{gates_on_parent, Op};
use crate::report::{
    evidence_models, fix_models, Certainty, Evidence, EvidenceModel, EvidenceSource, Fix,
    FixAction, FixActionModel, FixModel, LayerId, Risk,
};
use crate::text::{append_str, dec, dec_u64, lit, views};

verus! {

pub struct AclLayer;

// ---------------------------------------------------------------------
// The attribute's bytes
// ---------------------------------------------------------------------

/// The kind of an ACL entry.
#[derive(Clone, Copy, PartialEq, Eq, Debug, Structural)]
pub enum Tag {
    /// The owning user (`user::`).
    UserObj,
    /// A named user (`user:<uid>:`).
    User,
    /// The owning group (`group::`).
    GroupObj,
    /// A named group (`group:<gid>:`).
    Group,
    /// The upper bound on the group class and named users (`mask::`).
    Mask,
    /// Everyone else (`other::`).
    Other,
}

/// One ACL entry: its kind, its `rwx` bits (4, 2, 1) and, for a named entry,
/// the uid or gid it names.
#[derive(Clone, Copy, PartialEq, Eq, Debug, Structural)]
pub struct AclEntry {
    pub tag: Tag,
    pub perm: u16,
    pub id: u32,
}

/// The tag as the attribute encodes it.
pub open spec fn tag_of(t: int) -> Option<Tag> {
    if t == 1 {
        Some(Tag::UserObj)
    } else if t == 2 {
        Some(Tag::User)
    } else if t == 4 {
        Some(Tag::GroupObj)
    } else if t == 8 {
        Some(Tag::Group)
    } else if t == 16 {
        Some(Tag::Mask)
    } else if t == 32 {
        Some(Tag::Other)
    } else {
        None
    }
}

/// The little-endian 16-bit number at byte `i`.
pub open spec fn le16(b: Seq<u8>, i: int) -> int {
    b[i] as int + 256 * (b[i + 1] as int)
}

/// The little-endian 32-bit number at byte `i`.
pub open spec fn le32(b: Seq<u8>, i: int) -> int {
    le16(b, i) + 65536 * le16(b, i + 2)
}

/// The entry whose eight bytes start at `i`: tag, permission bits, id.
pub open spec fn entry_at(b: Seq<u8>, i: int) -> Option<AclEntry> {
    match tag_of(le16(b, i)) {
        Some(t) => Some(AclEntry { tag: t, perm: le16(b, i + 2) as u16, id: le32(b, i + 4) as u32 }),
        None => None,
    }
}

/// How many entries follow the four-byte header.
pub open spec fn acl_count(b: Seq<u8>) -> int {
    (b.len() - 4) / 8
}

/// The entries of an attribute in version 2 of the format: a header, then
/// eight bytes per entry, each with a known tag; `None` for anything else.
pub open spec fn parse_acl_spec(b: Seq<u8>) -> Option<Seq<AclEntry>> {
    if b.len() >= 4 && le32(b, 0) == 2 && (b.len() - 4) % 8 == 0 && forall|k: int|
        0 <= k < acl_count(b) ==> (#[trigger] entry_at(b, 4 + 8 * k)) is Some {
        Some(Seq::new(acl_count(b) as nat, |k: int| entry_at(b, 4 + 8 * k)->Some_0))
    } else {
        None
    }
}

fn le16_at(b: &Vec<u8>, i: usize) -> (r: u16)
    requires
        i + 1 < b@.len(),
    ensures
        r as int == le16(b@, i as int),
{
    let len = b.len();
    assert(i + 1 < len);
    (b[i] as u16) + (b[i + 1] as u16) * 256
}

fn le32_at(b: &Vec<u8>, i: usize) -> (r: u32)
    requires
        i + 3 < b@.len(),
    ensures
        r as int == le32(b@, i as int),
{
    let len = b.len();
    assert(i + 3 < len);
    let lo = le16_at(b, i);
    let hi = le16_at(b, i + 2);
    (lo as u32) + (hi as u32) * 65536
}

fn tag_from(t: u16) -> (r: Option<Tag>)
    ensures
        r == tag_of(t as int),
{
    if t == 1 {
        Some(Tag::UserObj)
    } else if t == 2 {
        Some(Tag::User)
    } else if t == 4 {
        Some(Tag::GroupObj)
    } else if t == 8 {
        Some(Tag::Group)
    } else if t == 16 {
        Some(Tag::Mask)
    } else if t == 32 {
        Some(Tag::Other)
    } else {
        None
    }
}

/// Decodes the bytes of a `system.posix_acl_access` attribute.
pub fn parse_acl(b: &Vec<u8>) -> (r: Option<Vec<AclEntry>>)
    ensures
        r matches Some(v) ==> parse_acl_spec(b@) == Some(v@),
        r is None ==> parse_acl_spec(b@) is None,
{
    if b.len() < 4 || (b.len() - 4) % 8 != 0 {
        return None;
    }
    if le32_at(b, 0) != 2 {
        return None;
    }
    let ghost n = acl_count(b@);
    let mut out: Vec<AclEntry> = Vec::new();
    let mut i: usize = 4;
    let mut k: usize = 0;
    while i < b.len()
        invariant
            b@.len() >= 4,
            (b@.len() - 4) % 8 == 0,
            n == acl_count(b@),
            i == 4 + 8 * k,
            i <= b@.len(),
            (b@.len() - i) % 8 == 0,
            k <= n,
            forall|j: int| 0 <= j < k ==> (#[trigger] entry_at(b@, 4 + 8 * j)) is Some,
            out@ =~= Seq::new(k as nat, |j: int| entry_at(b@, 4 + 8 * j)->Some_0),
        decreases b@.len() - i,
    {
        let t = le16_at(b, i);
        match tag_from(t) {
            None => {
                assert(entry_at(b@, 4 + 8 * (k as int)) is None);
                return None;
            },
            Some(tag) => {
                let perm = le16_at(b, i + 2);
                let id = le32_at(b, i + 4);
                let e = AclEntry { tag, perm, id };
                assert(entry_at(b@, 4 + 8 * (k as int)) == Some(e));
                out.push(e);
            },
        }
        i = i + 8;
        k = k + 1;
    }
    assert(k == n);
    Some(out)
}

// ---------------------------------------------------------------------
// The access check
// ---------------------------------------------------------------------

/// Whether the bits `p` grant the op: `r`, `w`, `x`, or `w` and `x` for
/// delete and create.
pub open spec fn allows(p: u16, op: Op) -> bool {
    match op {
        Op::Read => p & 4 != 0,
        Op::Write => p & 2 != 0,
        Op::Exec | Op::Traverse => p & 1 != 0,
        Op::Delete | Op::Create => p & 2 != 0 && p & 1 != 0,
    }
}

fn gates_on_parent_exec(op: Op) -> (r: bool)
    ensures
        r == gates_on_parent(op),
{
    op == Op::Delete || op == Op::Create
}

fn allows_exec(p: u16, op: Op) -> (r: bool)
    ensures
        r == allows(p, op),
{
    match op {
        Op::Read => p & 4 != 0,
        Op::Write => p & 2 != 0,
        Op::Exec | Op::Traverse => p & 1 != 0,
        Op::Delete | Op::Create => p & 2 != 0 && p & 1 != 0,
    }
}

/// The bits an op needs.
pub open spec fn need_bits(op: Op) -> u16 {
    match op {
        Op::Read => 4,
        Op::Write => 2,
        Op::Exec | Op::Traverse => 1,
        Op::Delete | Op::Create => 3,
    }
}

fn need_bits_exec(op: Op) -> (r: u16)
    ensures
        r == need_bits(op),
{
    match op {
        Op::Read => 4,
        Op::Write => 2,
        Op::Exec | Op::Traverse => 1,
        Op::Delete | Op::Create => 3,
    }
}

/// The first of the first `n` entries with tag `t`.
pub open spec fn first_tag(es: Seq<AclEntry>, t: Tag, n: int) -> Option<int>
    decreases n,
{
    if n <= 0 {
        None
    } else {
        match first_tag(es, t, n - 1) {
            Some(j) => Some(j),
            None => if es[n - 1].tag == t {
                Some(n - 1)
            } else {
                None
            },
        }
    }
}

/// The first of the first `n` entries naming user `uid`.
pub open spec fn first_user(es: Seq<AclEntry>, uid: u32, n: int) -> Option<int>
    decreases n,
{
    if n <= 0 {
        None
    } else {
        match first_user(es, uid, n - 1) {
            Some(j) => Some(j),
            None => if es[n - 1].tag == Tag::User && es[n - 1].id == uid {
                Some(n - 1)
            } else {
                None
            },
        }
    }
}

fn find_tag(es: &Vec<AclEntry>, t: Tag) -> (r: Option<usize>)
    ensures
        r matches Some(j) ==> first_tag(es@, t, es@.len() as int) == Some(j as int) && j
            < es@.len() && es@[j as int].tag == t,
        r is None ==> first_tag(es@, t, es@.len() as int) is None,
{
    let mut found: Option<usize> = None;
    let mut i: usize = 0;
    while i < es.len()
        invariant
            i <= es@.len(),
            found matches Some(j) ==> first_tag(es@, t, i as int) == Some(j as int) && j < i
                && es@[j as int].tag == t,
            found is None ==> first_tag(es@, t, i as int) is None,
        decreases es@.len() - i,
    {
        if found.is_none() && es[i].tag == t {
            found = Some(i);
        }
        i += 1;
    }
    found
}

fn find_user(es: &Vec<AclEntry>, uid: u32) -> (r: Option<usize>)
    ensures
        r matches Some(j) ==> first_user(es@, uid, es@.len() as int) == Some(j as int) && j
            < es@.len(),
        r is None ==> first_user(es@, uid, es@.len() as int) is None,
{
    let mut found: Option<usize> = None;
    let mut i: usize = 0;
    while i < es.len()
        invariant
            i <= es@.len(),
            found matches Some(j) ==> first_user(es@, uid, i as int) == Some(j as int) && j < i,
            found is None ==> first_user(es@, uid, i as int) is None,
        decreases es@.len() - i,
    {
        if found.is_none() && es[i].tag == Tag::User && es[i].id == uid {
            found = Some(i);
        }
        i += 1;
    }
    found
}

/// The mask's bits, when the ACL has a mask entry.
pub open spec fn mask_spec(es: Seq<AclEntry>) -> Option<u16> {
    match first_tag(es, Tag::Mask, es.len() as int) {
        Some(j) => Some(es[j].perm),
        None => None,
    }
}

/// The mask entry, as a sequence of at most one.
pub open spec fn mask_entries(es: Seq<AclEntry>) -> Seq<AclEntry> {
    match first_tag(es, Tag::Mask, es.len() as int) {
        Some(j) => seq![es[j]],
        None => seq![],
    }
}

/// What a named user's or a group class entry grants: its own bits, within
/// the mask when there is one.
pub open spec fn effective(e: AclEntry, mask: Option<u16>) -> u16 {
    match mask {
        Some(m) => e.perm & m,
        None => e.perm,
    }
}

/// Whether an entry of the group class applies to the identity: the owning
/// group's entry when it is a member of the node's group, a named group's
/// when it is a member of that group.
pub open spec fn group_match(id: Identity, owner_gid: u32, e: AclEntry) -> bool {
    (e.tag == Tag::GroupObj && member(id, owner_gid)) || (e.tag == Tag::Group && member(id, e.id))
}

/// The access check of `acl(5)`: the owner gets the owner's entry; else a
/// named user gets that entry within the mask; else, when any entry of the
/// group class applies, the op is granted when one of them grants it within
/// the mask; else the other entry decides. The result says whether the op
/// is granted and which entries decided (with the mask where it bounded
/// them); `None` when an entry the check needs is missing.
pub open spec fn decide_spec(
    id: Identity,
    owner_uid: u32,
    owner_gid: u32,
    es: Seq<AclEntry>,
    op: Op,
) -> Option<(bool, Seq<AclEntry>)> {
    let n = es.len() as int;
    let mask = mask_spec(es);
    if id.uid == owner_uid {
        match first_tag(es, Tag::UserObj, n) {
            Some(j) => Some((allows(es[j].perm, op), seq![es[j]])),
            None => None,
        }
    } else {
        match first_user(es, id.uid, n) {
            Some(j) => Some((allows(effective(es[j], mask), op), seq![es[j]] + mask_entries(es))),
            None => {
                let g = es.filter(|e: AclEntry| group_match(id, owner_gid, e));
                if g.len() > 0 {
                    Some(
                        (
                            exists|k: int| 0 <= k < g.len() && allows(effective(#[trigger] g[k], mask), op),
                            g + mask_entries(es),
                        ),
                    )
                } else {
                    match first_tag(es, Tag::Other, n) {
                        Some(j) => Some((allows(es[j].perm, op), seq![es[j]])),
                        None => None,
                    }
                }
            },
        }
    }
}

fn group_matches(id: &Identity, owner_gid: u32, e: AclEntry) -> (r: bool)
    ensures
        r == group_match(*id, owner_gid, e),
{
    (e.tag == Tag::GroupObj && in_group(id, owner_gid)) || (e.tag == Tag::Group && in_group(id, e.id))
}

fn mask_exec(es: &Vec<AclEntry>) -> (r: (Option<u16>, Vec<AclEntry>))
    ensures
        r.0 == mask_spec(es@),
        r.1@ == mask_entries(es@),
{
    match find_tag(es, Tag::Mask) {
        Some(j) => {
            let mut v: Vec<AclEntry> = Vec::new();
            v.push(es[j]);
            assert(v@ =~= seq![es@[j as int]]);
            (Some(es[j].perm), v)
        },
        None => (None, Vec::new()),
    }
}

fn effective_exec(e: AclEntry, mask: Option<u16>) -> (r: u16)
    ensures
        r == effective(e, mask),
{
    match mask {
        Some(m) => e.perm & m,
        None => e.perm,
    }
}

/// The entries of the group class that apply, and whether one of them
/// grants the op within the mask.
fn group_class(id: &Identity, owner_gid: u32, es: &Vec<AclEntry>, mask: Option<u16>, op: Op) -> (r: (
    Vec<AclEntry>,
    bool,
))
    ensures
        r.0@ == es@.filter(|e: AclEntry| group_match(*id, owner_gid, e)),
        r.1 == exists|k: int| 0 <= k < r.0@.len() && allows(effective(#[trigger] r.0@[k], mask), op),
{
    let ghost p = |e: AclEntry| group_match(*id, owner_gid, e);
    let mut g: Vec<AclEntry> = Vec::new();
    let mut any = false;
    let mut i: usize = 0;
    while i < es.len()
        invariant
            i <= es@.len(),
            p == (|e: AclEntry| group_match(*id, owner_gid, e)),
            g@ == es@.take(i as int).filter(p),
            any == exists|k: int| 0 <= k < g@.len() && allows(effective(#[trigger] g@[k], mask), op),
        decreases es@.len() - i,
    {
        let ghost prev = g@;
        proof {
            assert(es@.take(i + 1).drop_last() =~= es@.take(i as int));
            assert(es@.take(i + 1).last() == es@[i as int]);
            reveal_with_fuel(Seq::filter, 1);
        }
        let e = es[i];
        if group_matches(id, owner_gid, e) {
            g.push(e);
            assert(g@ =~= prev.push(e));
            if allows_exec(effective_exec(e, mask), op) {
                any = true;
                assert(g@[prev.len() as int] == e);
            } else {
                assert forall|k: int| 0 <= k < g@.len() && allows(effective(#[trigger] g@[k], mask), op)
                    implies 0 <= k < prev.len() && allows(effective(prev[k], mask), op) by {
                    if k < prev.len() {
                        assert(g@[k] == prev[k]);
                    }
                }
                assert forall|k: int| 0 <= k < prev.len() && allows(effective(#[trigger] prev[k], mask), op)
                    implies 0 <= k < g@.len() && allows(effective(g@[k], mask), op) by {
                    assert(g@[k] == prev[k]);
                }
            }
        } else {
            assert(g@ =~= prev);
        }
        i += 1;
    }
    assert(es@.take(es@.len() as int) =~= es@);
    (g, any)
}

/// Carries out `decide_spec`.
pub fn decide(id: &Identity, owner_uid: u32, owner_gid: u32, es: &Vec<AclEntry>, op: Op) -> (r: Option<
    (bool, Vec<AclEntry>),
>)
    ensures
        r matches Some((ok, ds)) ==> decide_spec(*id, owner_uid, owner_gid, es@, op) == Some(
            (ok, ds@),
        ),
        r is None ==> decide_spec(*id, owner_uid, owner_gid, es@, op) is None,
{
    let (mask, mask_v) = mask_exec(es);
    if id.uid == owner_uid {
        match find_tag(es, Tag::UserObj) {
            Some(j) => {
                let mut v: Vec<AclEntry> = Vec::new();
                v.push(es[j]);
                assert(v@ =~= seq![es@[j as int]]);
                Some((allows_exec(es[j].perm, op), v))
            },
            None => None,
        }
    } else {
        match find_user(es, id.uid) {
            Some(j) => {
                let mut v: Vec<AclEntry> = Vec::new();
                v.push(es[j]);
                let mut m = mask_v;
                v.append(&mut m);
                assert(v@ =~= seq![es@[j as int]] + mask_entries(es@));
                Some((allows_exec(effective_exec(es[j], mask), op), v))
            },
            None => {
                let (mut g, any) = group_class(id, owner_gid, es, mask, op);
                if g.len() > 0 {
                    let ghost gs = g@;
                    let mut m = mask_v;
                    g.append(&mut m);
                    assert(g@ =~= gs + mask_entries(es@));
                    Some((any, g))
                } else {
                    match find_tag(es, Tag::Other) {
                        Some(j) => {
                            let mut v: Vec<AclEntry> = Vec::new();
                            v.push(es[j]);
                            assert(v@ =~= seq![es@[j as int]]);
                            Some((allows_exec(es[j].perm, op), v))
                        },
                        None => None,
                    }
                }
            },
        }
    }
}

// ---------------------------------------------------------------------
// What the layer reports
// ---------------------------------------------------------------------

/// The bits as `getfacl` writes them.
pub open spec fn rwx_of(p: u16) -> Seq<char> {
    (if p & 4 != 0 {
        "r"@
    } else {
        "-"@
    }) + (if p & 2 != 0 {
        "w"@
    } else {
        "-"@
    }) + (if p & 1 != 0 {
        "x"@
    } else {
        "-"@
    })
}

/// An entry as `getfacl` writes it, such as `user:1001:r--`.
pub open spec fn entry_text(e: AclEntry) -> Seq<char> {
    (match e.tag {
        Tag::UserObj => "user::"@,
        Tag::User => "user:"@ + dec(e.id as nat) + ":"@,
        Tag::GroupObj => "group::"@,
        Tag::Group => "group:"@ + dec(e.id as nat) + ":"@,
        Tag::Mask => "mask::"@,
        Tag::Other => "other::"@,
    }) + rwx_of(e.perm)
}

pub open spec fn entry_evidence(e: AclEntry, path: Seq<char>) -> EvidenceModel {
    EvidenceModel { source: EvidenceSource::Getfacl, raw: entry_text(e), path: Some(path) }
}

pub open spec fn entries_evidence(ds: Seq<AclEntry>, path: Seq<char>) -> Seq<EvidenceModel> {
    ds.map_values(|e: AclEntry| entry_evidence(e, path))
}

fn rwx_string(p: u16) -> (r: String)
    ensures
        r@ == rwx_of(p),
{
    let mut s = lit(
        if p & 4 != 0 {
            "r"
        } else {
            "-"
        },
    );
    append_str(
        &mut s,
        if p & 2 != 0 {
            "w"
        } else {
            "-"
        },
    );
    append_str(
        &mut s,
        if p & 1 != 0 {
            "x"
        } else {
            "-"
        },
    );
    s
}

pub fn entry_string(e: AclEntry) -> (r: String)
    ensures
        r@ == entry_text(e),
{
    let mut s = match e.tag {
        Tag::UserObj => lit("user::"),
        Tag::User => {
            let mut s = lit("user:");
            append_str(&mut s, dec_u64(e.id as u64).as_str());
            append_str(&mut s, ":");
            s
        },
        Tag::GroupObj => lit("group::"),
        Tag::Group => {
            let mut s = lit("group:");
            append_str(&mut s, dec_u64(e.id as u64).as_str());
            append_str(&mut s, ":");
            s
        },
        Tag::Mask => lit("mask::"),
        Tag::Other => lit("other::"),
    };
    append_str(&mut s, rwx_string(e.perm).as_str());
    s
}

fn evidence_of(ds: &Vec<AclEntry>, path: &str) -> (r: Vec<Evidence>)
    ensures
        evidence_models(r@) == entries_evidence(ds@, path@),
{
    let mut out: Vec<Evidence> = Vec::new();
    let mut i: usize = 0;
    while i < ds.len()
        invariant
            i <= ds@.len(),
            evidence_models(out@) =~= entries_evidence(ds@.take(i as int), path@),
        decreases ds@.len() - i,
    {
        let ghost prev = evidence_models(out@);
        out.push(
            Evidence {
                source: EvidenceSource::Getfacl,
                raw: entry_string(ds[i]),
                path: Some(lit(path)),
            },
        );
        assert(entries_evidence(ds@.take(i + 1), path@) =~= prev.push(
            entry_evidence(ds@[i as int], path@),
        ));
        i += 1;
    }
    assert(ds@.take(ds@.len() as int) =~= ds@);
    out
}

/// The bits the fix's entry carries: what the identity's own entry (the
/// owner's, or its named one) already grants, with the op's bits added.
pub open spec fn fix_bits(id: Identity, owner_uid: u32, es: Seq<AclEntry>, op: Op) -> u16 {
    let n = es.len() as int;
    let base: u16 = if id.uid == owner_uid {
        match first_tag(es, Tag::UserObj, n) {
            Some(j) => es[j].perm,
            None => 0,
        }
    } else {
        match first_user(es, id.uid, n) {
            Some(j) => es[j].perm,
            None => 0,
        }
    };
    base | need_bits(op)
}

/// `setfacl -m u:<who>:<bits> <path>` (`u::` for the owner): grants the op
/// through the identity's own entry, keeping what it already grants;
/// `setfacl` widens the mask to admit it. Only the owner or root may run it.
pub open spec fn acl_fix_model(id: Identity, owner_uid: u32, bits: u16, path: Seq<char>, op: Op) -> FixModel {
    let owner = id.uid == owner_uid;
    FixModel {
        action: FixActionModel::Run {
            argv: seq![
                "setfacl"@,
                "-m"@,
                "u:"@ + (if owner {
                    seq![]
                } else {
                    who_spec(id)
                }) + ":"@ + rwx_of(bits),
                path,
            ],
        },
        needs_root: !owner,
        description: "grant "@ + who_spec(id) + " "@ + op_letter_spec(op) + " on "@ + path
            + " in its ACL"@,
        risk: Risk::Low,
        rationale: "one entry for one user; the mask is recomputed"@,
    }
}

fn fix_bits_exec(id: &Identity, owner_uid: u32, es: &Vec<AclEntry>, op: Op) -> (r: u16)
    ensures
        r == fix_bits(*id, owner_uid, es@, op),
{
    let base: u16 = if id.uid == owner_uid {
        match find_tag(es, Tag::UserObj) {
            Some(j) => es[j].perm,
            None => 0,
        }
    } else {
        match find_user(es, id.uid) {
            Some(j) => es[j].perm,
            None => 0,
        }
    };
    base | need_bits_exec(op)
}

fn acl_fix(id: &Identity, owner_uid: u32, bits: u16, path: &str, op: Op) -> (r: Fix)
    ensures
        r@ == acl_fix_model(*id, owner_uid, bits, path@, op),
{
    let owner = id.uid == owner_uid;
    let w = who(id);
    let mut entry = lit("u:");
    if !owner {
        append_str(&mut entry, w.as_str());
    }
    append_str(&mut entry, ":");
    append_str(&mut entry, rwx_string(bits).as_str());
    let mut argv: Vec<String> = Vec::new();
    argv.push(lit("setfacl"));
    argv.push(lit("-m"));
    argv.push(entry);
    argv.push(lit(path));
    let ghost e = "u:"@ + (if owner {
        seq![]
    } else {
        who_spec(*id)
    }) + ":"@ + rwx_of(bits);
    assert(argv@[2]@ =~= e);
    assert(views(argv@) =~= seq!["setfacl"@, "-m"@, e, path@]);
    let mut desc = lit("grant ");
    append_str(&mut desc, w.as_str());
    append_str(&mut desc, " ");
    append_str(&mut desc, op_letter(op));
    append_str(&mut desc, " on ");
    append_str(&mut desc, path);
    append_str(&mut desc, " in its ACL");
    Fix {
        action: FixAction::Run { argv },
        needs_root: !owner,
        description: desc,
        risk: Risk::Low,
        rationale: lit("one entry for one user; the mask is recomputed"),
    }
}

/// `ACL denies <op> for <who> on <path>: <entry>`, naming the first entry
/// that decided.
pub open spec fn denial_detail(id: Identity, path: Seq<char>, op: Op, first: AclEntry) -> Seq<char> {
    "ACL denies "@ + op_word_spec(op) + " for "@ + who_spec(id) + " on "@ + path + ": "@
        + entry_text(first)
}

/// The node the op is decided on: the parent directory for delete and
/// create, the target otherwise.
pub open spec fn gate_probe(facts: Facts, op: Op) -> Probe {
    if gates_on_parent(op) {
        facts.parent
    } else {
        facts.stat
    }
}

/// Root, a node without an access ACL, an attribute that does not decode,
/// a gating node that cannot be looked up, and an ACL without the entry the
/// check needs are left to the mode bits (the layer skips). Otherwise the
/// ACL's decision stands: a pass quoting the deciding entries, or a proven
/// block quoting them with a `setfacl` fix.
pub open spec fn acl_check_spec(id: Identity, facts: Facts, op: Op) -> LayerResultModel {
    let path = gate_path_spec(op, facts.path@);
    if id.uid == 0 {
        skip_model()
    } else {
        match facts.acl {
            None => skip_model(),
            Some(b) => match parse_acl_spec(b@) {
                None => skip_model(),
                Some(es) => match gate_probe(facts, op) {
                    Probe::Failed(_) => skip_model(),
                    Probe::Found(m) => match decide_spec(id, m.uid, m.gid, es, op) {
                        None => skip_model(),
                        Some((ok, ds)) => if ok {
                            pass_model(entries_evidence(ds, path))
                        } else {
                            block_model(
                                Certainty::Proven,
                                denial_detail(id, path, op, ds[0]),
                                entries_evidence(ds, path),
                                seq![acl_fix_model(id, m.uid, fix_bits(id, m.uid, es, op), path, op)],
                            )
                        },
                    },
                },
            },
        }
    }
}

fn decided(id: &Identity, meta: &NodeMeta, es: &Vec<AclEntry>, path: &str, op: Op) -> (r: LayerResult)
    ensures
        r@ == (match decide_spec(*id, meta.uid, meta.gid, es@, op) {
            None => skip_model(),
            Some((ok, ds)) => if ok {
                pass_model(entries_evidence(ds, path@))
            } else {
                block_model(
                    Certainty::Proven,
                    denial_detail(*id, path@, op, ds[0]),
                    entries_evidence(ds, path@),
                    seq![acl_fix_model(*id, meta.uid, fix_bits(*id, meta.uid, es@, op), path@, op)],
                )
            },
        }),
{
    match decide(id, meta.uid, meta.gid, es, op) {
        None => LayerResult::skip(),
        Some((ok, ds)) => {
            let evs = evidence_of(&ds, path);
            if ok {
                LayerResult::pass(evs)
            } else {
                assert(ds@.len() > 0);
                let mut detail = lit("ACL denies ");
                append_str(&mut detail, op_word(op));
                append_str(&mut detail, " for ");
                append_str(&mut detail, who(id).as_str());
                append_str(&mut detail, " on ");
                append_str(&mut detail, path);
                append_str(&mut detail, ": ");
                append_str(&mut detail, entry_string(ds[0]).as_str());
                let bits = fix_bits_exec(id, meta.uid, es, op);
                let mut fixes: Vec<Fix> = Vec::new();
                fixes.push(acl_fix(id, meta.uid, bits, path, op));
                assert(fix_models(fixes@) =~= seq![
                    acl_fix_model(*id, meta.uid, bits, path@, op),
                ]);
                LayerResult::block(Certainty::Proven, detail, evs, fixes)
            }
        },
    }
}

/// Whether the ACL of the gating node grants the op, where it decides: it
/// does for a non-root identity whenever the layer does not skip.
pub open spec fn acl_decision(id: Identity, facts: Facts, op: Op) -> Option<bool> {
    if id.uid == 0 {
        None
    } else {
        match facts.acl {
            None => None,
            Some(b) => match parse_acl_spec(b@) {
                None => None,
                Some(es) => match gate_probe(facts, op) {
                    Probe::Failed(_) => None,
                    Probe::Found(m) => match decide_spec(id, m.uid, m.gid, es, op) {
                        None => None,
                        Some((ok, _)) => Some(ok),
                    },
                },
            },
        }
    }
}

pub fn acl_decides(id: &Identity, facts: &Facts, op: Op) -> (r: Option<bool>)
    ensures
        r == acl_decision(*id, *facts, op),
{
    if id.uid == 0 {
        return None;
    }
    let b = match &facts.acl {
        None => return None,
        Some(b) => b,
    };
    let es = match parse_acl(b) {
        None => return None,
        Some(es) => es,
    };
    let meta = if gates_on_parent_exec(op) {
        &facts.parent
    } else {
        &facts.stat
    };
    match meta {
        Probe::Failed(_) => None,
        Probe::Found(m) => match decide(id, m.uid, m.gid, &es, op) {
            None => None,
            Some((ok, _)) => Some(ok),
        },
    }
}

/// An ACL entry naming the identity decides for it, within the mask: when
/// the identity does not own the gating node and the ACL names its uid, the
/// layer blocks exactly when that entry's bits, bounded by the mask, lack
/// the op's; a block is proven and quotes that entry first. Root is always
/// left to the mode bits.
pub proof fn named_user_law(id: Identity, facts: Facts, op: Op, es: Seq<AclEntry>, m: NodeMeta, j: int)
    requires
        facts.acl matches Some(b) && parse_acl_spec(b@) == Some(es),
        gate_probe(facts, op) == Probe::Found(m),
        m.uid != id.uid,
        first_user(es, id.uid, es.len() as int) == Some(j),
    ensures
        id.uid != 0 ==> (acl_check_spec(id, facts, op).status == LayerStatus::Block <==> !allows(
            effective(es[j], mask_spec(es)),
            op,
        )),
        id.uid != 0 && acl_check_spec(id, facts, op).status == LayerStatus::Block ==> {
            let r = acl_check_spec(id, facts, op);
            &&& r.certainty == Certainty::Proven
            &&& r.evidence[0].raw == entry_text(es[j])
        },
        id.uid == 0 ==> acl_check_spec(id, facts, op) == skip_model(),
{
}

impl Layer for AclLayer {
    open spec fn spec_name(&self) -> Seq<char> {
        "acl"@
    }

    open spec fn spec_order(&self) -> u8 {
        4
    }

    open spec fn spec_id(&self) -> LayerId {
        LayerId::Acl
    }

    open spec fn spec_check(&self, target: Identity, facts: Facts, op: Op) -> LayerResultModel {
        acl_check_spec(target, facts, op)
    }

    fn name(&self) -> (r: String) {
        lit("acl")
    }

    fn order(&self) -> (r: u8) {
        4
    }

    fn id(&self) -> (r: LayerId) {
        LayerId::Acl
    }

    fn check(&self, target: &Identity, facts: &Facts, op: Op) -> (r: LayerResult) {
        if target.uid == 0 {
            return LayerResult::skip();
        }
        let b = match &facts.acl {
            None => return LayerResult::skip(),
            Some(b) => b,
        };
        let es = match parse_acl(b) {
            None => return LayerResult::skip(),
            Some(es) => es,
        };
        let meta = if gates_on_parent_exec(op) {
            &facts.parent
        } else {
            &facts.stat
        };
        match meta {
            Probe::Failed(_) => LayerResult::skip(),
            Probe::Found(m) => {
                let path = gate_path(op, facts.path.as_str());
                decided(target, m, &es, path.as_str(), op)
            },
        }
    }
}

} // verus!
