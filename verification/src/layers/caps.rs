//! The capability layer: capabilities that bypass DAC checks, held by the
//! tool or granted by the target's file capabilities, are reported as
//! annotation; this layer never blocks.

use vstd::prelude::*;
use vstd::string::*;
use crate::engine::{skip_model, Layer, LayerResult, LayerResultModel, LayerStatus};
use crate::facts::Facts;
use crate::identity::Identity;
use crate::op::Op;
use crate::report::{evidence_models, Certainty, Evidence, EvidenceModel, EvidenceSource, LayerId};
use crate::text::{
    append_str, ascii_lower, join, join_strings, lit, to_ascii_lower, views,
};

verus! {

pub struct CapsLayer;

// ---------------------------------------------------------------------
// The capability catalog of the `caps` crate
// ---------------------------------------------------------------------

/// The name (`CAP_...`) the `caps` crate displays for the capability with
/// kernel index `idx`, if it knows one.
pub uninterp spec fn spec_cap_name(idx: u8) -> Option<Seq<char>>;

/// `caps::all()`, each capability as its kernel index and displayed name:
/// every entry carries the name the crate displays for its index, and every
/// index the crate knows appears. The order is the hash set's and is not
/// stated.
#[verifier::external_body]
fn cap_catalog() -> (r: Vec<(u8, String)>)
    ensures
        forall|i: int| 0 <= i < r@.len() ==> spec_cap_name(#[trigger] r@[i].0) == Some(r@[i].1@),
        forall|idx: u8|
            #![trigger spec_cap_name(idx)]
            spec_cap_name(idx) is Some ==> exists|i: int| 0 <= i < r@.len() && r@[i].0 == idx,
{
    caps::all().into_iter().map(|c| (c.index(), c.to_string())).collect()
}

/// A catalog's entries with their names as character sequences.
pub open spec fn catalog_view(c: Seq<(u8, String)>) -> Seq<(u8, Seq<char>)> {
    c.map_values(|e: (u8, String)| (e.0, e.1@))
}

/// The name the first `n` entries of a catalog give index `idx`: that of
/// the first entry with it.
pub open spec fn catalog_find(cat: Seq<(u8, Seq<char>)>, idx: u8, n: int) -> Option<Seq<char>>
    decreases n,
{
    if n <= 0 {
        None
    } else {
        match catalog_find(cat, idx, n - 1) {
            Some(t) => Some(t),
            None => if cat[n - 1].0 == idx {
                Some(cat[n - 1].1)
            } else {
                None
            },
        }
    }
}

/// Capability names as a catalog gives them.
pub open spec fn names_of(c: Seq<(u8, String)>) -> spec_fn(u8) -> Option<Seq<char>> {
    |idx: u8| catalog_find(catalog_view(c), idx, c.len() as int)
}

/// Capability names as the `caps` crate gives them.
pub open spec fn crate_names() -> spec_fn(u8) -> Option<Seq<char>> {
    |idx: u8| spec_cap_name(idx)
}

proof fn lemma_catalog_find(cat: Seq<(u8, Seq<char>)>, idx: u8, n: int)
    requires
        n <= cat.len(),
    ensures
        catalog_find(cat, idx, n) matches Some(t) ==> exists|k: int|
            0 <= k < n && cat[k].0 == idx && cat[k].1 == t,
        catalog_find(cat, idx, n) is None ==> forall|k: int| 0 <= k < n ==> cat[k].0 != idx,
    decreases n,
{
    if n > 0 {
        lemma_catalog_find(cat, idx, n - 1);
    }
}

/// A catalog as `caps::all()` gives it names each capability as the crate
/// does.
proof fn lemma_catalog_names(c: Seq<(u8, String)>)
    requires
        forall|i: int| 0 <= i < c.len() ==> spec_cap_name(#[trigger] c[i].0) == Some(c[i].1@),
        forall|idx: u8|
            #![trigger spec_cap_name(idx)]
            spec_cap_name(idx) is Some ==> exists|i: int| 0 <= i < c.len() && c[i].0 == idx,
    ensures
        names_of(c) == crate_names(),
{
    let v = catalog_view(c);
    assert forall|idx: u8| #[trigger] names_of(c)(idx) == crate_names()(idx) by {
        lemma_catalog_find(v, idx, c.len() as int);
        match catalog_find(v, idx, c.len() as int) {
            Some(t) => {
                let k = choose|k: int| 0 <= k < c.len() && v[k].0 == idx && v[k].1 == t;
                assert(v[k] == (c[k].0, c[k].1@));
                assert(spec_cap_name(c[k].0) == Some(c[k].1@));
            },
            None => {
                if spec_cap_name(idx) is Some {
                    let i = choose|i: int| 0 <= i < c.len() && c[i].0 == idx;
                    assert(v[i].0 == c[i].0);
                }
            },
        }
    }
    assert(names_of(c) =~= crate_names());
}

/// The displayed name the catalog gives capability `idx`.
fn cap_name(catalog: &Vec<(u8, String)>, idx: u8) -> (r: Option<String>)
    ensures
        match names_of(catalog@)(idx) {
            Some(n) => r matches Some(s) && s@ == n,
            None => r is None,
        },
{
    let ghost v = catalog_view(catalog@);
    let mut i: usize = 0;
    while i < catalog.len()
        invariant
            i <= catalog@.len(),
            v == catalog_view(catalog@),
            catalog_find(v, idx, i as int) is None,
        decreases catalog@.len() - i,
    {
        assert(v[i as int] == (catalog@[i as int].0, catalog@[i as int].1@));
        if catalog[i].0 == idx {
            let n = catalog[i].1.clone();
            proof {
                lemma_catalog_find_stable(v, idx, i + 1, catalog@.len() as int);
            }
            return Some(n);
        }
        i += 1;
    }
    None
}

proof fn lemma_catalog_find_stable(cat: Seq<(u8, Seq<char>)>, idx: u8, n: int, m: int)
    requires
        n <= m,
        catalog_find(cat, idx, n) is Some,
    ensures
        catalog_find(cat, idx, m) == catalog_find(cat, idx, n),
    decreases m - n,
{
    if n < m {
        lemma_catalog_find_stable(cat, idx, n, m - 1);
    }
}

/// What a capability lets its holder skip, for the three that bypass DAC:
/// `CAP_DAC_OVERRIDE`, `CAP_DAC_READ_SEARCH` and `CAP_FOWNER`.
pub open spec fn bypass_note(idx: u8) -> Option<Seq<char>> {
    if idx == 1 {
        Some("bypasses r/w/x checks"@)
    } else if idx == 2 {
        Some("bypasses read/traverse checks"@)
    } else if idx == 3 {
        Some("bypasses owner checks (sticky delete, mode)"@)
    } else {
        None
    }
}

pub fn dac_bypass_note(idx: u8) -> (r: Option<&'static str>)
    ensures
        match bypass_note(idx) {
            Some(n) => r matches Some(s) && s@ == n,
            None => r is None,
        },
{
    if idx == 1 {
        Some("bypasses r/w/x checks")
    } else if idx == 2 {
        Some("bypasses read/traverse checks")
    } else if idx == 3 {
        Some("bypasses owner checks (sticky delete, mode)")
    } else {
        None
    }
}

// ---------------------------------------------------------------------
// File capabilities
// ---------------------------------------------------------------------

/// The file capability sets of an executable.
#[derive(Clone, Copy, PartialEq, Eq, Debug)]
pub struct FileCaps {
    pub permitted: u64,
    pub inheritable: u64,
    pub effective: bool,
}

pub const VFS_CAP_REVISION_MASK: u32 = 0xFF00_0000u32;

pub const VFS_CAP_FLAGS_EFFECTIVE: u32 = 0x0000_0001u32;

pub const VFS_CAP_REVISION_1: u32 = 0x0100_0000u32;

pub const VFS_CAP_REVISION_2: u32 = 0x0200_0000u32;

pub const VFS_CAP_REVISION_3: u32 = 0x0300_0000u32;

/// The little-endian 32-bit word at byte `o`, if the blob is long enough.
pub open spec fn le_word(b: Seq<u8>, o: int) -> Option<u32> {
    if 0 <= o && o + 4 <= b.len() {
        Some((b[o] + b[o + 1] * 256 + b[o + 2] * 65536 + b[o + 3] * 16777216) as u32)
    } else {
        None
    }
}

/// The `security.capability` attribute decoded: revision 1 holds 32-bit
/// sets, revisions 2 and 3 hold 64-bit sets as two words each; any other
/// revision, or a blob too short for its revision, decodes to nothing.
pub open spec fn decode_spec(b: Seq<u8>) -> Option<FileCaps> {
    match le_word(b, 0) {
        None => None,
        Some(magic) => {
            let effective = magic & VFS_CAP_FLAGS_EFFECTIVE != 0;
            let rev = magic & VFS_CAP_REVISION_MASK;
            if rev == VFS_CAP_REVISION_1 {
                match (le_word(b, 4), le_word(b, 8)) {
                    (Some(p), Some(i)) => Some(
                        FileCaps { permitted: p as u64, inheritable: i as u64, effective },
                    ),
                    _ => None,
                }
            } else if rev == VFS_CAP_REVISION_2 || rev == VFS_CAP_REVISION_3 {
                match (le_word(b, 4), le_word(b, 12), le_word(b, 8), le_word(b, 16)) {
                    (Some(p0), Some(p1), Some(i0), Some(i1)) => Some(
                        FileCaps {
                            permitted: (p0 as u64) | ((p1 as u64) << 32u64),
                            inheritable: (i0 as u64) | ((i1 as u64) << 32u64),
                            effective,
                        },
                    ),
                    _ => None,
                }
            } else {
                None
            }
        },
    }
}

fn le(blob: &[u8], o: usize) -> (r: Option<u32>)
    ensures
        r == le_word(blob@, o as int),
{
    if o <= blob.len() && blob.len() - o >= 4 {
        let v: u32 = (blob[o] as u32) + (blob[o + 1] as u32) * 256 + (blob[o + 2] as u32) * 65536
            + (blob[o + 3] as u32) * 16777216;
        Some(v)
    } else {
        None
    }
}

/// Decodes a `security.capability` attribute.
pub fn decode_vfs_caps(blob: &[u8]) -> (r: Option<FileCaps>)
    ensures
        r == decode_spec(blob@),
{
    let magic = match le(blob, 0) {
        Some(m) => m,
        None => {
            return None;
        },
    };
    let effective = magic & VFS_CAP_FLAGS_EFFECTIVE != 0;
    let rev = magic & VFS_CAP_REVISION_MASK;
    if rev == VFS_CAP_REVISION_1 {
        match (le(blob, 4), le(blob, 8)) {
            (Some(p), Some(i)) => Some(
                FileCaps { permitted: p as u64, inheritable: i as u64, effective },
            ),
            _ => None,
        }
    } else if rev == VFS_CAP_REVISION_2 || rev == VFS_CAP_REVISION_3 {
        match (le(blob, 4), le(blob, 12), le(blob, 8), le(blob, 16)) {
            (Some(p0), Some(p1), Some(i0), Some(i1)) => Some(
                FileCaps {
                    permitted: (p0 as u64) | ((p1 as u64) << 32u64),
                    inheritable: (i0 as u64) | ((i1 as u64) << 32u64),
                    effective,
                },
            ),
            _ => None,
        }
    } else {
        None
    }
}

pub open spec fn bit(idx: int) -> u64 {
    (1u64 << (idx as u64))
}

/// The lower-case names of the known capabilities below index `n` whose bit
/// is set in `mask`, by index.
pub open spec fn names_below(nm: spec_fn(u8) -> Option<Seq<char>>, mask: u64, n: int) -> Seq<Seq<char>>
    decreases n,
{
    if n <= 0 {
        seq![]
    } else {
        names_below(nm, mask, n - 1) + match nm((n - 1) as u8) {
            Some(name) => if mask & bit(n - 1) != 0 {
                seq![ascii_lower(name)]
            } else {
                seq![]
            },
            None => seq![],
        }
    }
}

/// The names of the capabilities in a set, lower case, by index.
pub open spec fn cap_names_spec(mask: u64) -> Seq<Seq<char>> {
    names_below(crate_names(), mask, 64)
}

/// The names of the capabilities in a set, lower case, by index, as a
/// catalog names them.
pub fn cap_names_in(catalog: &Vec<(u8, String)>, mask: u64) -> (r: Vec<String>)
    ensures
        views(r@) == names_below(names_of(catalog@), mask, 64),
{
    let mut out: Vec<String> = Vec::new();
    let mut idx: u8 = 0;
    while idx < 64
        invariant
            idx <= 64,
            views(out@) =~= names_below(names_of(catalog@), mask, idx as int),
        decreases 64 - idx,
    {
        assert(((idx + 1) - 1) as u8 == idx);
        match cap_name(catalog, idx) {
            Some(name) => {
                if mask & (1u64 << idx) != 0 {
                    let l = to_ascii_lower(name.as_str());
                    let ghost before = out@;
                    out.push(l);
                    assert(views(out@) =~= views(before).push(l@));
                }
            },
            None => {},
        }
        idx += 1;
    }
    out
}

pub fn cap_names(mask: u64) -> (r: Vec<String>)
    ensures
        views(r@) == cap_names_spec(mask),
{
    let catalog = cap_catalog();
    proof {
        lemma_catalog_names(catalog@);
    }
    cap_names_in(&catalog, mask)
}

// ---------------------------------------------------------------------
// `getcap`-style evidence
// ---------------------------------------------------------------------

/// The `getcap` flag letters of capability bit `b`: `e` when effective and
/// permitted, `i` when inheritable, `p` when permitted.
pub open spec fn flags_of(fc: FileCaps, b: u64) -> Seq<char> {
    let p = fc.permitted & b != 0;
    let i = fc.inheritable & b != 0;
    (if fc.effective && p {
        seq!['e']
    } else {
        seq![]
    }) + (if i {
        seq!['i']
    } else {
        seq![]
    }) + (if p {
        seq!['p']
    } else {
        seq![]
    })
}

pub open spec fn group_index(gs: Seq<(Seq<char>, Seq<Seq<char>>)>, flags: Seq<char>, n: int) -> Option<
    int,
>
    decreases n,
{
    if n <= 0 {
        None
    } else {
        match group_index(gs, flags, n - 1) {
            Some(k) => Some(k),
            None => if gs[n - 1].0 == flags {
                Some(n - 1)
            } else {
                None
            },
        }
    }
}

/// Adds `name` to the group with the same flags, or opens a new group.
pub open spec fn add_group(gs: Seq<(Seq<char>, Seq<Seq<char>>)>, flags: Seq<char>, name: Seq<char>) -> Seq<
    (Seq<char>, Seq<Seq<char>>),
> {
    match group_index(gs, flags, gs.len() as int) {
        Some(k) => gs.update(k, (flags, gs[k].1.push(name))),
        None => gs.push((flags, seq![name])),
    }
}

/// The capabilities below index `n` in either set, grouped by their flag
/// letters in order of first appearance.
pub open spec fn groups_below(nm: spec_fn(u8) -> Option<Seq<char>>, fc: FileCaps, n: int) -> Seq<
    (Seq<char>, Seq<Seq<char>>),
>
    decreases n,
{
    if n <= 0 {
        seq![]
    } else {
        let g = groups_below(nm, fc, n - 1);
        match nm((n - 1) as u8) {
            Some(name) => {
                let b = bit(n - 1);
                if fc.permitted & b == 0 && fc.inheritable & b == 0 {
                    g
                } else {
                    add_group(g, flags_of(fc, b), ascii_lower(name))
                }
            },
            None => g,
        }
    }
}

pub open spec fn group_text(g: (Seq<char>, Seq<Seq<char>>)) -> Seq<char> {
    join(g.1, ","@) + "="@ + g.0
}

/// `<path> <names>=<flags> ...`, as `getcap` prints file capabilities,
/// with the names `nm` gives.
pub open spec fn getcap_with(nm: spec_fn(u8) -> Option<Seq<char>>, fc: FileCaps, path: Seq<char>) -> EvidenceModel {
    EvidenceModel {
        source: EvidenceSource::FileCap,
        raw: path + " "@ + join(
            groups_below(nm, fc, 64).map_values(|g: (Seq<char>, Seq<Seq<char>>)| group_text(g)),
            " "@,
        ),
        path: Some(path),
    }
}

pub open spec fn getcap_spec(fc: FileCaps, path: Seq<char>) -> EvidenceModel {
    getcap_with(crate_names(), fc, path)
}

spec fn group_models(flags: Seq<String>, names: Seq<Vec<String>>) -> Seq<(Seq<char>, Seq<Seq<char>>)> {
    Seq::new(flags.len(), |k: int| (flags[k]@, views(names[k]@)))
}

fn flags_exec(fc: &FileCaps, b: u64) -> (r: String)
    ensures
        r@ == flags_of(*fc, b),
{
    let mut s = String::new();
    if fc.effective && fc.permitted & b != 0 {
        append_str(&mut s, "e");
    }
    if fc.inheritable & b != 0 {
        append_str(&mut s, "i");
    }
    if fc.permitted & b != 0 {
        append_str(&mut s, "p");
    }
    proof {
        reveal_strlit("e");
        reveal_strlit("i");
        reveal_strlit("p");
    }
    assert(s@ =~= flags_of(*fc, b));
    s
}

/// The `getcap` line for a file's capabilities, named as a catalog names
/// them.
pub fn getcap_line_in(catalog: &Vec<(u8, String)>, fc: &FileCaps, path: &str) -> (r: Evidence)
    ensures
        r@ == getcap_with(names_of(catalog@), *fc, path@),
{
    let mut flags: Vec<String> = Vec::new();
    let mut names: Vec<Vec<String>> = Vec::new();
    let mut idx: u8 = 0;
    while idx < 64
        invariant
            idx <= 64,
            flags@.len() == names@.len(),
            group_models(flags@, names@) =~= groups_below(names_of(catalog@), *fc, idx as int),
        decreases 64 - idx,
    {
        assert(((idx + 1) - 1) as u8 == idx);
        let ghost g = groups_below(names_of(catalog@), *fc, idx as int);
        match cap_name(catalog, idx) {
            Some(name) => {
                let b: u64 = 1u64 << idx;
                let p = fc.permitted & b != 0;
                let i = fc.inheritable & b != 0;
                if p || i {
                    let f = flags_exec(fc, b);
                    let n = to_ascii_lower(name.as_str());
                    let mut k: usize = 0;
                    let mut found: Option<usize> = None;
                    while k < flags.len() && found.is_none()
                        invariant
                            k <= flags@.len(),
                            flags@.len() == names@.len(),
                            g == group_models(flags@, names@),
                            found matches Some(j) ==> group_index(g, f@, k as int) == Some(j as int)
                                && j < k,
                            found is None ==> group_index(g, f@, k as int) is None,
                        decreases flags@.len() - k,
                    {
                        if flags[k] == f {
                            found = Some(k);
                        }
                        k += 1;
                    }
                    proof {
                        if found is Some {
                            lemma_group_index_stable(g, f@, k as int, g.len() as int);
                        }
                        lemma_group_index_bound(g, f@, g.len() as int);
                    }
                    match found {
                        Some(j) => {
                            let mut v = names[j].clone();
                            assert(views(v@) =~= views(names@[j as int]@));
                            let ghost vb = v@;
                            v.push(n);
                            assert(views(v@) =~= views(vb).push(n@));
                            names.set(j, v);
                            assert(group_models(flags@, names@) =~= add_group(g, f@, n@));
                        },
                        None => {
                            flags.push(f);
                            let mut v: Vec<String> = Vec::new();
                            v.push(n);
                            assert(views(v@) =~= seq![n@]);
                            names.push(v);
                            assert(group_models(flags@, names@) =~= add_group(g, f@, n@));
                        },
                    }
                }
            },
            None => {},
        }
        idx += 1;
    }
    let ghost gm = group_models(flags@, names@);
    let mut rendered: Vec<String> = Vec::new();
    let mut j: usize = 0;
    while j < flags.len()
        invariant
            j <= flags@.len(),
            flags@.len() == names@.len(),
            gm == group_models(flags@, names@),
            views(rendered@) =~= gm.take(j as int).map_values(
                |g: (Seq<char>, Seq<Seq<char>>)| group_text(g),
            ),
        decreases flags@.len() - j,
    {
        let mut t = join_strings(&names[j], ",");
        append_str(&mut t, "=");
        append_str(&mut t, flags[j].as_str());
        let ghost before = rendered@;
        rendered.push(t);
        assert(views(rendered@) =~= views(before).push(t@));
        assert(gm.take(j + 1).map_values(|g: (Seq<char>, Seq<Seq<char>>)| group_text(g))
            =~= gm.take(j as int).map_values(|g: (Seq<char>, Seq<Seq<char>>)| group_text(g)).push(
            group_text(gm[j as int]),
        ));
        j += 1;
    }
    assert(gm.take(flags@.len() as int) =~= gm);
    let mut raw = lit(path);
    append_str(&mut raw, " ");
    append_str(&mut raw, join_strings(&rendered, " ").as_str());
    Evidence { source: EvidenceSource::FileCap, raw, path: Some(lit(path)) }
}

pub fn getcap_line(fc: &FileCaps, path: &str) -> (r: Evidence)
    ensures
        r@ == getcap_spec(*fc, path@),
{
    let catalog = cap_catalog();
    proof {
        lemma_catalog_names(catalog@);
    }
    getcap_line_in(&catalog, fc, path)
}

proof fn lemma_group_index_bound(gs: Seq<(Seq<char>, Seq<Seq<char>>)>, f: Seq<char>, n: int)
    ensures
        group_index(gs, f, n) matches Some(k) ==> 0 <= k < n && gs[k].0 == f,
    decreases n,
{
    if n > 0 {
        lemma_group_index_bound(gs, f, n - 1);
    }
}

proof fn lemma_group_index_stable(gs: Seq<(Seq<char>, Seq<Seq<char>>)>, f: Seq<char>, n: int, m: int)
    requires
        n <= m,
        group_index(gs, f, n) is Some,
    ensures
        group_index(gs, f, m) == group_index(gs, f, n),
    decreases m - n,
{
    if n < m {
        lemma_group_index_stable(gs, f, n, m - 1);
    }
}


// ---------------------------------------------------------------------
// The layer
// ---------------------------------------------------------------------

pub open spec fn caps_op_word(op: Op) -> Seq<char> {
    match op {
        Op::Read => "read"@,
        Op::Write => "write"@,
        Op::Exec => "exec"@,
        Op::Traverse => "traverse"@,
        Op::Delete => "delete"@,
        Op::Create => "create"@,
    }
}

fn op_word(op: Op) -> (r: &'static str)
    ensures
        r@ == caps_op_word(op),
{
    match op {
        Op::Read => "read",
        Op::Write => "write",
        Op::Exec => "exec",
        Op::Traverse => "traverse",
        Op::Delete => "delete",
        Op::Create => "create",
    }
}

/// The DAC-bypassing capabilities among the first `n` of indices 1, 2, 3
/// that the tool holds: their evidence and their notes.
pub open spec fn held_below(nm: spec_fn(u8) -> Option<Seq<char>>, effective: Seq<u8>, n: int) -> (
    Seq<EvidenceModel>,
    Seq<Seq<char>>,
)
    decreases n,
{
    if n <= 0 {
        (seq![], seq![])
    } else {
        let prev = held_below(nm, effective, n - 1);
        let idx = n as u8;
        match (nm(idx), bypass_note(idx)) {
            (Some(name), Some(note)) => if effective.contains(idx) {
                (
                    prev.0.push(
                        EvidenceModel {
                            source: EvidenceSource::Capability,
                            raw: name + " (effective): "@ + note,
                            path: None,
                        },
                    ),
                    prev.1.push("holds "@ + ascii_lower(name)),
                )
            } else {
                prev
            },
            _ => prev,
        }
    }
}

/// What the capability layer reports: the DAC-bypassing capabilities the
/// tool holds when the target is the current user, the target's file
/// capabilities for exec, and a summary; always as a skip.
pub open spec fn caps_with(nm: spec_fn(u8) -> Option<Seq<char>>, id: Identity, facts: Facts, op: Op) -> LayerResultModel {
    if !facts.caps_supported {
        skip_model()
    } else {
        let held = if id.is_self {
            match facts.effective_caps {
                Some(e) => held_below(nm, e@, 3),
                None => (seq![], seq![]),
            }
        } else {
            (seq![], seq![])
        };
        let fc = if op == Op::Exec {
            match facts.file_caps {
                Some(b) => decode_spec(b@),
                None => None,
            }
        } else {
            None
        };
        let evidence = match fc {
            Some(c) => held.0.push(getcap_with(nm, c, facts.path@)),
            None => held.0,
        };
        let notes = match fc {
            Some(c) => if names_below(nm, c.permitted, 64).len() > 0 {
                held.1.push("file caps "@ + join(names_below(nm, c.permitted, 64), ","@))
            } else {
                held.1
            },
            None => held.1,
        };
        LayerResultModel {
            status: LayerStatus::Skip,
            certainty: Certainty::Proven,
            evidence,
            fixes: seq![],
            detail: if notes.len() > 0 && id.is_self {
                join(notes, "; "@) + " bypasses DAC for "@ + caps_op_word(op) + "; annotation only"@
            } else if notes.len() > 0 {
                join(notes, "; "@) + " on target; annotation only"@
            } else {
                "no capability affects "@ + caps_op_word(op) + " of the target"@
            },
        }
    }
}

/// What the capability layer reports, with the names the `caps` crate
/// gives.
pub open spec fn caps_spec(id: Identity, facts: Facts, op: Op) -> LayerResultModel {
    caps_with(crate_names(), id, facts, op)
}

fn contains_u8(v: &Vec<u8>, x: u8) -> (r: bool)
    ensures
        r == v@.contains(x),
{
    let mut i: usize = 0;
    while i < v.len()
        invariant
            i <= v@.len(),
            forall|k: int| 0 <= k < i ==> v@[k] != x,
        decreases v@.len() - i,
    {
        if v[i] == x {
            return true;
        }
        i += 1;
    }
    false
}

/// The capability layer on Linux, with the names a catalog gives.
pub fn linux_check_in(catalog: &Vec<(u8, String)>, id: &Identity, facts: &Facts, op: Op) -> (r:
    LayerResult)
    requires
        facts.caps_supported,
    ensures
        r@ == caps_with(names_of(catalog@), *id, *facts, op),
{
    let mut evidence: Vec<Evidence> = Vec::new();
    let mut notes: Vec<String> = Vec::new();
    let ghost mut held: (Seq<EvidenceModel>, Seq<Seq<char>>) = (seq![], seq![]);
    if id.is_self {
        match &facts.effective_caps {
            Some(eff) => {
                let mut idx: u8 = 1;
                while idx <= 3
                    invariant
                        1 <= idx <= 4,
                        evidence_models(evidence@) =~= held_below(names_of(catalog@), eff@, idx - 1).0,
                        views(notes@) =~= held_below(names_of(catalog@), eff@, idx - 1).1,
                    decreases 4 - idx,
                {
                    assert(idx as int as u8 == idx);
                    match (cap_name(catalog, idx), dac_bypass_note(idx)) {
                        (Some(name), Some(note)) => {
                            if contains_u8(eff, idx) {
                                let mut raw = name.clone();
                                append_str(&mut raw, " (effective): ");
                                append_str(&mut raw, note);
                                let e = Evidence {
                                    source: EvidenceSource::Capability,
                                    raw,
                                    path: None,
                                };
                                let ghost eb = evidence@;
                                evidence.push(e);
                                assert(evidence_models(evidence@) =~= evidence_models(eb).push(e@));
                                let mut h = lit("holds ");
                                append_str(&mut h, to_ascii_lower(name.as_str()).as_str());
                                let ghost nb = notes@;
                                notes.push(h);
                                assert(views(notes@) =~= views(nb).push(h@));
                            }
                        },
                        _ => {},
                    }
                    idx += 1;
                }
                proof {
                    held = held_below(names_of(catalog@), eff@, 3);
                }
            },
            None => {
                assert(evidence_models(evidence@) =~= seq![]);
                assert(views(notes@) =~= seq![]);
            },
        }
    } else {
        assert(evidence_models(evidence@) =~= seq![]);
        assert(views(notes@) =~= seq![]);
    }
    assert(evidence_models(evidence@) == held.0);
    assert(views(notes@) == held.1);
    if op == Op::Exec {
        match &facts.file_caps {
            Some(blob) => {
                match decode_vfs_caps(blob.as_slice()) {
                    Some(fc) => {
                        let e = getcap_line_in(catalog, &fc, facts.path.as_str());
                        let ghost eb = evidence@;
                        evidence.push(e);
                        assert(evidence_models(evidence@) =~= evidence_models(eb).push(e@));
                        let names = cap_names_in(catalog, fc.permitted);
                        if names.len() > 0 {
                            let mut t = lit("file caps ");
                            append_str(&mut t, join_strings(&names, ",").as_str());
                            let ghost nb = notes@;
                            notes.push(t);
                            assert(views(notes@) =~= views(nb).push(t@));
                        }
                    },
                    None => {},
                }
            },
            None => {},
        }
    }
    let detail = if notes.len() > 0 && id.is_self {
        let mut d = join_strings(&notes, "; ");
        append_str(&mut d, " bypasses DAC for ");
        append_str(&mut d, op_word(op));
        append_str(&mut d, "; annotation only");
        d
    } else if notes.len() > 0 {
        let mut d = join_strings(&notes, "; ");
        append_str(&mut d, " on target; annotation only");
        d
    } else {
        let mut d = lit("no capability affects ");
        append_str(&mut d, op_word(op));
        append_str(&mut d, " of the target");
        d
    };
    let r = LayerResult {
        status: LayerStatus::Skip,
        certainty: Certainty::Proven,
        evidence,
        fixes: Vec::new(),
        detail,
    };
    assert(r@.fixes =~= seq![]);
    r
}

/// The capability layer on Linux.
pub fn linux_check(id: &Identity, facts: &Facts, op: Op) -> (r: LayerResult)
    requires
        facts.caps_supported,
    ensures
        r@ == caps_spec(*id, *facts, op),
{
    let catalog = cap_catalog();
    proof {
        lemma_catalog_names(catalog@);
    }
    linux_check_in(&catalog, id, facts, op)
}

impl Layer for CapsLayer {
    open spec fn spec_name(&self) -> Seq<char> {
        "caps"@
    }

    open spec fn spec_order(&self) -> u8 {
        7
    }

    open spec fn spec_id(&self) -> LayerId {
        LayerId::Capabilities
    }

    open spec fn spec_check(&self, target: Identity, facts: Facts, op: Op) -> LayerResultModel {
        caps_spec(target, facts, op)
    }

    fn name(&self) -> (r: String) {
        lit("caps")
    }

    fn order(&self) -> (r: u8) {
        7
    }

    fn id(&self) -> (r: LayerId) {
        LayerId::Capabilities
    }

    fn check(&self, target: &Identity, facts: &Facts, op: Op) -> (r: LayerResult) {
        if facts.caps_supported {
            linux_check(target, facts, op)
        } else {
            LayerResult::skip()
        }
    }
}

} // verus!
