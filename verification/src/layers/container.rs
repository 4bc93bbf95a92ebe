//! The container layer: inside a user namespace a file owned by a uid the
//! namespace does not map appears as `nobody`, and the denial it causes is
//! only suspected; other container context (a reduced capability bounding
//! set, seccomp filtering, container markers) is reported as annotation.

use vstd::prelude::*;
use vstd::string::*;
use crate::engine::{skip_model, suspect_model, Layer, LayerResult, LayerResultModel, LayerStatus};
use crate::facts::{Facts, NodeMeta, Probe};
use crate::identity::Identity;
use crate::op::Op;
use crate::report::{
    evidence_models, fix_models, Certainty, Evidence, EvidenceModel, EvidenceSource, Fix,
    FixAction, FixActionModel, FixModel, LayerId, Risk,
};
use crate::text::{
    append_str, chars_of, dec, dec_u64, hex_digits, hex_u64, join, join_strings, lines, lit,
    parse_radix, parse_unsigned, split_lines, split_words, strip_prefix, strip_prefix_chars, trim,
    trim_chars, views, words,
};

verus! {

/// The full capability bounding set of a process no one has restricted.
pub const FULL_CAPS: u64 = 0x0000_01ff_ffff_ffffu64;

pub struct ContainerLayer;

/// One line of a uid map: `len` uids from `inside` in the namespace are
/// `outside` and on in the parent.
#[derive(Clone, Copy, PartialEq, Eq, Debug)]
pub struct MapEntry {
    pub inside: u32,
    pub outside: u32,
    pub len: u32,
}

pub open spec fn parse_u32_spec(w: Seq<char>) -> Option<u32> {
    match parse_radix(w, 10, 0xffff_ffff) {
        Some(v) => Some(v as u32),
        None => None,
    }
}

/// A uid-map line: its first three words as integers.
pub open spec fn map_line(l: Seq<char>) -> Option<MapEntry> {
    let f = words(l);
    if f.len() < 3 {
        None
    } else {
        match (parse_u32_spec(f[0]), parse_u32_spec(f[1]), parse_u32_spec(f[2])) {
            (Some(a), Some(b), Some(c)) => Some(MapEntry { inside: a, outside: b, len: c }),
            _ => None,
        }
    }
}

pub open spec fn map_lines(ls: Seq<Seq<char>>, n: int) -> Seq<MapEntry>
    decreases n,
{
    if n <= 0 {
        seq![]
    } else {
        map_lines(ls, n - 1) + match map_line(ls[n - 1]) {
            Some(e) => seq![e],
            None => seq![],
        }
    }
}

/// The entries of a uid map, skipping lines that do not parse.
pub open spec fn uid_map_spec(s: Seq<char>) -> Seq<MapEntry> {
    map_lines(lines(s), lines(s).len() as int)
}

fn parse_u32_word(w: &Vec<char>) -> (r: Option<u32>)
    ensures
        r == parse_u32_spec(w@),
{
    match parse_unsigned(w.as_slice(), 10, 0xffff_ffff) {
        Some(v) => Some(v as u32),
        None => None,
    }
}

fn map_line_exec(l: &Vec<char>) -> (r: Option<MapEntry>)
    ensures
        r == map_line(l@),
{
    let f = split_words(l.as_slice());
    if f.len() < 3 {
        return None;
    }
    assert(f@[0]@ == words(l@)[0]);
    assert(f@[1]@ == words(l@)[1]);
    assert(f@[2]@ == words(l@)[2]);
    let a = parse_u32_word(&f[0]);
    let b = parse_u32_word(&f[1]);
    let c = parse_u32_word(&f[2]);
    match (a, b, c) {
        (Some(a), Some(b), Some(c)) => Some(MapEntry { inside: a, outside: b, len: c }),
        _ => None,
    }
}

/// Parses the text of `/proc/self/uid_map`.
pub fn parse_uid_map(s: &str) -> (r: Vec<MapEntry>)
    ensures
        r@ == uid_map_spec(s@),
{
    let d = chars_of(s);
    let ls = split_lines(d.as_slice());
    let ghost lm = ls@.map_values(|l: Vec<char>| l@);
    let mut out: Vec<MapEntry> = Vec::new();
    let mut i: usize = 0;
    while i < ls.len()
        invariant
            lm == ls@.map_values(|l: Vec<char>| l@),
            lm == lines(s@),
            i <= ls@.len(),
            out@ =~= map_lines(lm, i as int),
        decreases ls@.len() - i,
    {
        assert(lm[i as int] == ls@[i as int]@);
        match map_line_exec(&ls[i]) {
            Some(e) => out.push(e),
            None => {},
        }
        i += 1;
    }
    out
}

/// The identity map of the initial namespace: one line mapping every uid to itself.
pub open spec fn host_map(m: Seq<MapEntry>) -> bool {
    m.len() == 1 && m[0].inside == 0 && m[0].outside == 0 && m[0].len == 0xffff_ffff
}

pub fn is_host_map(m: &Vec<MapEntry>) -> (r: bool)
    ensures
        r == host_map(m@),
{
    m.len() == 1 && m[0].inside == 0 && m[0].outside == 0 && m[0].len == 0xffff_ffff
}

/// Whether some line of the map covers `uid` inside the namespace.
pub open spec fn mapped(m: Seq<MapEntry>, uid: u32) -> bool {
    exists|i: int|
        0 <= i < m.len() && m[i].inside <= uid && (uid as int) < m[i].inside + m[i].len
}

pub fn maps_inside(m: &Vec<MapEntry>, uid: u32) -> (r: bool)
    ensures
        r == mapped(m@, uid),
{
    let mut i: usize = 0;
    while i < m.len()
        invariant
            i <= m@.len(),
            forall|k: int|
                0 <= k < i ==> !(m@[k].inside <= uid && (uid as int) < m@[k].inside + m@[k].len),
        decreases m@.len() - i,
    {
        let lo = m[i].inside as u64;
        if (uid as u64) >= lo && (uid as u64) < lo + m[i].len as u64 {
            return true;
        }
        i += 1;
    }
    false
}

/// `a..b` for the first line of the map, or `none`.
pub open spec fn range_text(m: Seq<MapEntry>) -> Seq<char> {
    if m.len() > 0 {
        dec(m[0].inside as nat) + ".."@ + dec((m[0].inside + m[0].len) as nat)
    } else {
        "none"@
    }
}

pub fn mapped_range(m: &Vec<MapEntry>) -> (r: String)
    ensures
        r@ == range_text(m@),
{
    if m.len() > 0 {
        let e = m[0];
        let mut s = dec_u64(e.inside as u64);
        append_str(&mut s, "..");
        append_str(&mut s, dec_u64(e.inside as u64 + e.len as u64).as_str());
        s
    } else {
        lit("none")
    }
}

/// The trimmed value after `key` on the first status line that starts with it.
pub open spec fn field_in(ls: Seq<Seq<char>>, n: int, key: Seq<char>) -> Option<Seq<char>>
    decreases n,
{
    if n <= 0 {
        None
    } else {
        match field_in(ls, n - 1, key) {
            Some(v) => Some(v),
            None => match strip_prefix(ls[n - 1], key) {
                Some(rest) => Some(trim(rest)),
                None => None,
            },
        }
    }
}

pub open spec fn status_field_spec(status: Seq<char>, key: Seq<char>) -> Option<Seq<char>> {
    field_in(lines(status), lines(status).len() as int, key)
}

proof fn lemma_field_in_stable(ls: Seq<Seq<char>>, n: int, m: int, key: Seq<char>)
    requires
        n <= m,
        field_in(ls, n, key) is Some,
    ensures
        field_in(ls, m, key) == field_in(ls, n, key),
    decreases m - n,
{
    if n < m {
        lemma_field_in_stable(ls, n, m - 1, key);
    }
}

/// The value of a `/proc/self/status` field.
pub fn status_field(status: &str, key: &str) -> (r: Option<Vec<char>>)
    ensures
        match status_field_spec(status@, key@) {
            Some(v) => r matches Some(x) && x@ == v,
            None => r is None,
        },
{
    let d = chars_of(status);
    let k = chars_of(key);
    let ls = split_lines(d.as_slice());
    let ghost lm = ls@.map_values(|l: Vec<char>| l@);
    let mut i: usize = 0;
    while i < ls.len()
        invariant
            lm == ls@.map_values(|l: Vec<char>| l@),
            lm == lines(status@),
            k@ == key@,
            i <= ls@.len(),
            field_in(lm, i as int, key@) is None,
        decreases ls@.len() - i,
    {
        assert(lm[i as int] == ls@[i as int]@);
        match strip_prefix_chars(ls[i].as_slice(), k.as_slice()) {
            Some(rest) => {
                let v = trim_chars(rest.as_slice());
                proof {
                    lemma_field_in_stable(lm, i + 1, lm.len() as int, key@);
                }
                return Some(v);
            },
            None => {},
        }
        i += 1;
    }
    None
}

pub open spec fn cap_bnd_spec(status: Seq<char>) -> Option<u64> {
    match status_field_spec(status, "CapBnd:"@) {
        Some(v) => match parse_radix(v, 16, 0xffff_ffff_ffff_ffff) {
            Some(x) => Some(x as u64),
            None => None,
        },
        None => None,
    }
}

/// The capability bounding set from `/proc/self/status`.
pub fn parse_cap_bnd(status: &str) -> (r: Option<u64>)
    ensures
        r == cap_bnd_spec(status@),
{
    match status_field(status, "CapBnd:") {
        Some(v) => parse_unsigned(v.as_slice(), 16, 0xffff_ffff_ffff_ffff),
        None => None,
    }
}

pub open spec fn seccomp_spec(status: Seq<char>) -> u32 {
    match status_field_spec(status, "Seccomp:"@) {
        Some(v) => match parse_u32_spec(v) {
            Some(x) => x,
            None => 0,
        },
        None => 0,
    }
}

/// The seccomp mode from `/proc/self/status`; 0 when absent.
pub fn parse_seccomp(status: &str) -> (r: u32)
    ensures
        r == seccomp_spec(status@),
{
    match status_field(status, "Seccomp:") {
        Some(v) => match parse_u32_word(&v) {
            Some(x) => x,
            None => 0,
        },
        None => 0,
    }
}

/// A bounding set that lacks some capability but holds no unknown bit.
pub open spec fn reduced(capbnd: u64) -> bool {
    capbnd != FULL_CAPS && capbnd & !FULL_CAPS == 0
}

pub fn caps_reduced(capbnd: u64) -> (r: bool)
    ensures
        r == reduced(capbnd),
{
    capbnd != FULL_CAPS && capbnd & !FULL_CAPS == 0
}

/// The kernel's overflow uid text read as a number; 65534 when absent or unreadable.
pub open spec fn overflow_spec(text: Option<String>) -> u32 {
    match text {
        Some(t) => match parse_u32_spec(trim(t@)) {
            Some(v) => v,
            None => 65534,
        },
        None => 65534,
    }
}

pub fn overflow_uid(text: &Option<String>) -> (r: u32)
    ensures
        r == overflow_spec(*text),
{
    match text {
        Some(t) => {
            let c = chars_of(t.as_str());
            let tr = trim_chars(c.as_slice());
            match parse_u32_word(&tr) {
                Some(v) => v,
                None => 65534,
            }
        },
        None => 65534,
    }
}


pub open spec fn cap_ev_model(raw: Seq<char>) -> EvidenceModel {
    EvidenceModel { source: EvidenceSource::Capability, raw, path: None }
}

fn cap_ev(raw: String) -> (r: Evidence)
    ensures
        r@ == cap_ev_model(raw@),
{
    Evidence { source: EvidenceSource::Capability, raw, path: None }
}

pub open spec fn entry_text(e: MapEntry) -> Seq<char> {
    dec(e.inside as nat) + " "@ + dec(e.outside as nat) + " "@ + dec(e.len as nat)
}

/// The namespace evidence: the uid map when it is not the host's, the
/// bounding set when reduced, the seccomp mode when filtering, and the
/// container marker.
pub open spec fn env_evidence_spec(
    m: Seq<MapEntry>,
    capbnd: Option<u64>,
    is_reduced: bool,
    seccomp: u32,
    marker: Option<Seq<char>>,
) -> Seq<EvidenceModel> {
    (if m.len() > 0 && !host_map(m) {
        seq![
            cap_ev_model(
                "/proc/self/uid_map: "@ + join(m.map_values(|e: MapEntry| entry_text(e)), " | "@),
            ),
        ]
    } else {
        seq![]
    }) + (if is_reduced {
        seq![
            cap_ev_model(
                "CapBnd: "@ + hex_digits(
                    match capbnd {
                        Some(c) => c as nat,
                        None => 0,
                    },
                    16,
                ),
            ),
        ]
    } else {
        seq![]
    }) + (if seccomp > 0 {
        seq![cap_ev_model("Seccomp: "@ + dec(seccomp as nat) + " (filter)"@)]
    } else {
        seq![]
    }) + match marker {
        Some(t) => seq![cap_ev_model(t)],
        None => seq![],
    }
}

fn env_evidence(
    m: &Vec<MapEntry>,
    capbnd: Option<u64>,
    is_reduced: bool,
    seccomp: u32,
    marker: &Option<String>,
) -> (r: Vec<Evidence>)
    ensures
        evidence_models(r@) == env_evidence_spec(
            m@,
            capbnd,
            is_reduced,
            seccomp,
            match marker {
                Some(t) => Some(t@),
                None => None,
            },
        ),
{
    let mut ev: Vec<Evidence> = Vec::new();
    let ghost e0 = evidence_models(ev@);
    if m.len() > 0 && !is_host_map(m) {
        let mut parts: Vec<String> = Vec::new();
        let mut i: usize = 0;
        while i < m.len()
            invariant
                i <= m@.len(),
                views(parts@) =~= m@.take(i as int).map_values(|e: MapEntry| entry_text(e)),
            decreases m@.len() - i,
        {
            let e = m[i];
            let mut t = dec_u64(e.inside as u64);
            append_str(&mut t, " ");
            append_str(&mut t, dec_u64(e.outside as u64).as_str());
            append_str(&mut t, " ");
            append_str(&mut t, dec_u64(e.len as u64).as_str());
            let ghost before = parts@;
            parts.push(t);
            assert(views(parts@) =~= views(before).push(t@));
            assert(m@.take(i + 1).map_values(|e: MapEntry| entry_text(e)) =~= m@.take(
                i as int,
            ).map_values(|e: MapEntry| entry_text(e)).push(entry_text(m@[i as int])));
            i += 1;
        }
        assert(m@.take(m@.len() as int) =~= m@);
        let mut raw = lit("/proc/self/uid_map: ");
        append_str(&mut raw, join_strings(&parts, " | ").as_str());
        ev.push(cap_ev(raw));
    }
    let ghost e1 = evidence_models(ev@);
    assert(e1 =~= e0 + (if m@.len() > 0 && !host_map(m@) {
        seq![
            cap_ev_model(
                "/proc/self/uid_map: "@ + join(m@.map_values(|e: MapEntry| entry_text(e)), " | "@),
            ),
        ]
    } else {
        seq![]
    }));
    if is_reduced {
        let mut raw = lit("CapBnd: ");
        let c = match capbnd {
            Some(c) => c,
            None => 0,
        };
        append_str(&mut raw, hex_u64(c, 16).as_str());
        ev.push(cap_ev(raw));
    }
    let ghost e2 = evidence_models(ev@);
    assert(e2 =~= e1 + (if is_reduced {
        seq![
            cap_ev_model(
                "CapBnd: "@ + hex_digits(
                    match capbnd {
                        Some(c) => c as nat,
                        None => 0,
                    },
                    16,
                ),
            ),
        ]
    } else {
        seq![]
    }));
    if seccomp > 0 {
        let mut raw = lit("Seccomp: ");
        append_str(&mut raw, dec_u64(seccomp as u64).as_str());
        append_str(&mut raw, " (filter)");
        ev.push(cap_ev(raw));
    }
    let ghost e3 = evidence_models(ev@);
    assert(e3 =~= e2 + (if seccomp > 0 {
        seq![cap_ev_model("Seccomp: "@ + dec(seccomp as nat) + " (filter)"@)]
    } else {
        seq![]
    }));
    match marker {
        Some(t) => ev.push(cap_ev(t.clone())),
        None => {},
    }
    assert(evidence_models(ev@) =~= e3 + match marker {
        Some(t) => seq![cap_ev_model(t@)],
        None => seq![],
    });
    ev
}

/// The annotation for a containerized process, parts joined by `; `.
pub open spec fn env_summary_spec(
    userns: bool,
    range: Seq<char>,
    is_reduced: bool,
    filtering: bool,
    marker: bool,
) -> Seq<char> {
    join(
        (if userns {
            seq!["user namespace; uids outside "@ + range + " appear as nobody"@]
        } else {
            seq![]
        }) + (if is_reduced {
            seq!["reduced capability bounding set"@]
        } else {
            seq![]
        }) + (if filtering {
            seq!["seccomp filtering active"@]
        } else {
            seq![]
        }) + (if marker && !userns {
            seq!["container markers present"@]
        } else {
            seq![]
        }),
        "; "@,
    )
}

fn env_summary(userns: bool, range: &str, is_reduced: bool, filtering: bool, marker: bool) -> (r:
    String)
    ensures
        r@ == env_summary_spec(userns, range@, is_reduced, filtering, marker),
{
    let mut parts: Vec<String> = Vec::new();
    if userns {
        let mut t = lit("user namespace; uids outside ");
        append_str(&mut t, range);
        append_str(&mut t, " appear as nobody");
        parts.push(t);
    }
    if is_reduced {
        parts.push(lit("reduced capability bounding set"));
    }
    if filtering {
        parts.push(lit("seccomp filtering active"));
    }
    if marker && !userns {
        parts.push(lit("container markers present"));
    }
    assert(views(parts@) =~= (if userns {
        seq!["user namespace; uids outside "@ + range@ + " appear as nobody"@]
    } else {
        seq![]
    }) + (if is_reduced {
        seq!["reduced capability bounding set"@]
    } else {
        seq![]
    }) + (if filtering {
        seq!["seccomp filtering active"@]
    } else {
        seq![]
    }) + (if marker && !userns {
        seq!["container markers present"@]
    } else {
        seq![]
    }));
    join_strings(&parts, "; ")
}

/// The namespace facts the layer derives from the probe.
pub open spec fn owner_of(facts: Facts) -> Option<u32> {
    match facts.stat {
        Probe::Found(m) => Some(m.uid),
        Probe::Failed(_) => None,
    }
}

pub open spec fn unmapped_fix(range: Seq<char>) -> FixModel {
    FixModel {
        action: FixActionModel::Advice {
            text: "owning uid outside "@ + range + "; extend subuid map or chown into "@ + range,
        },
        needs_root: true,
        description: "resolve the user-namespace uid mapping"@,
        risk: Risk::Medium,
        rationale: "uid unmapped in namespace"@,
    }
}

/// The container layer's conclusion: a file whose owner the namespace does
/// not map (or maps to the overflow uid) is a suspected denial; otherwise a
/// containerized process gets an annotation and anything else a skip.
pub open spec fn container_spec(facts: Facts) -> LayerResultModel {
    match facts.container.uid_map {
        None => skip_model(),
        Some(text) => {
            let m = uid_map_spec(text@);
            let userns = m.len() > 0 && !host_map(m);
            let status = facts.container.status@;
            let capbnd = cap_bnd_spec(status);
            let is_reduced = match capbnd {
                Some(c) => reduced(c),
                None => false,
            };
            let seccomp = seccomp_spec(status);
            let filtering = seccomp > 0;
            let marker = match facts.container.marker {
                Some(t) => Some(t@),
                None => None,
            };
            let range = range_text(m);
            let overflow = overflow_spec(facts.container.overflowuid);
            let env = env_evidence_spec(m, capbnd, is_reduced, seccomp, marker);
            match owner_of(facts) {
                Some(o) if userns && (o == overflow || !mapped(m, o)) => suspect_model(
                    "uid "@ + dec(o as nat) + " unmapped in namespace, appears as nobody ("@ + dec(
                        overflow as nat,
                    ) + ")"@,
                    env.push(
                        EvidenceModel {
                            source: EvidenceSource::LsLd,
                            raw: "owner uid "@ + dec(o as nat) + " (shown as nobody "@ + dec(
                                overflow as nat,
                            ) + ")"@,
                            path: Some(facts.path@),
                        },
                    ),
                    seq![unmapped_fix(range)],
                ),
                _ => if marker is Some || (userns && (is_reduced || filtering)) {
                    LayerResultModel {
                        status: LayerStatus::Skip,
                        certainty: Certainty::Proven,
                        evidence: env,
                        fixes: seq![],
                        detail: env_summary_spec(userns, range, is_reduced, filtering, marker is Some),
                    }
                } else {
                    skip_model()
                },
            }
        },
    }
}

fn check_container(facts: &Facts) -> (r: LayerResult)
    ensures
        r@ == container_spec(*facts),
{
    let text = match &facts.container.uid_map {
        Some(t) => t,
        None => {
            return LayerResult::skip();
        },
    };
    let m = parse_uid_map(text.as_str());
    let userns = m.len() > 0 && !is_host_map(&m);
    let status = facts.container.status.as_str();
    let capbnd = parse_cap_bnd(status);
    let is_reduced = match capbnd {
        Some(c) => caps_reduced(c),
        None => false,
    };
    let seccomp = parse_seccomp(status);
    let filtering = seccomp > 0;
    let marker = &facts.container.marker;
    let range = mapped_range(&m);
    let overflow = overflow_uid(&facts.container.overflowuid);
    let owner = match &facts.stat {
        Probe::Found(meta) => Some(meta.uid),
        Probe::Failed(_) => None,
    };
    let unmapped = match owner {
        Some(o) => if userns && (o == overflow || !maps_inside(&m, o)) {
            Some(o)
        } else {
            None
        },
        None => None,
    };
    match unmapped {
        Some(o) => {
            let mut ev = env_evidence(&m, capbnd, is_reduced, seccomp, marker);
            let mut raw = lit("owner uid ");
            append_str(&mut raw, dec_u64(o as u64).as_str());
            append_str(&mut raw, " (shown as nobody ");
            append_str(&mut raw, dec_u64(overflow as u64).as_str());
            append_str(&mut raw, ")");
            let ghost before = evidence_models(ev@);
            let e = Evidence { source: EvidenceSource::LsLd, raw, path: Some(facts.path.clone()) };
            ev.push(e);
            assert(evidence_models(ev@) =~= before.push(e@));
            let mut text = lit("owning uid outside ");
            append_str(&mut text, range.as_str());
            append_str(&mut text, "; extend subuid map or chown into ");
            append_str(&mut text, range.as_str());
            let fix = Fix {
                action: FixAction::Advice { text },
                needs_root: true,
                description: lit("resolve the user-namespace uid mapping"),
                risk: Risk::Medium,
                rationale: lit("uid unmapped in namespace"),
            };
            let mut fixes: Vec<Fix> = Vec::new();
            fixes.push(fix);
            assert(fix_models(fixes@) =~= seq![unmapped_fix(range@)]);
            let mut detail = lit("uid ");
            append_str(&mut detail, dec_u64(o as u64).as_str());
            append_str(&mut detail, " unmapped in namespace, appears as nobody (");
            append_str(&mut detail, dec_u64(overflow as u64).as_str());
            append_str(&mut detail, ")");
            LayerResult::suspect(detail, ev, fixes)
        },
        None => {
            let containerized = marker.is_some() || (userns && (is_reduced || filtering));
            if containerized {
                let r = LayerResult {
                    status: LayerStatus::Skip,
                    certainty: Certainty::Proven,
                    evidence: env_evidence(&m, capbnd, is_reduced, seccomp, marker),
                    fixes: Vec::new(),
                    detail: env_summary(
                        userns,
                        range.as_str(),
                        is_reduced,
                        filtering,
                        marker.is_some(),
                    ),
                };
                assert(r@.fixes =~= seq![]);
                r
            } else {
                LayerResult::skip()
            }
        },
    }
}

impl Layer for ContainerLayer {
    open spec fn spec_name(&self) -> Seq<char> {
        "container"@
    }

    open spec fn spec_order(&self) -> u8 {
        11
    }

    open spec fn spec_id(&self) -> LayerId {
        LayerId::Container
    }

    open spec fn spec_check(&self, target: Identity, facts: Facts, op: Op) -> LayerResultModel {
        container_spec(facts)
    }

    fn name(&self) -> (r: String) {
        lit("container")
    }

    fn order(&self) -> (r: u8) {
        11
    }

    fn id(&self) -> (r: LayerId) {
        LayerId::Container
    }

    fn check(&self, _target: &Identity, facts: &Facts, _op: Op) -> (r: LayerResult) {
        check_container(facts)
    }
}

/// A full bounding set is never reported as reduced, and neither is one with
/// a bit the kernel does not define.
pub proof fn caps_reduced_law(c: u64)
    ensures
        !reduced(FULL_CAPS),
        c & !FULL_CAPS != 0 ==> !reduced(c),
{
}

/// The host map covers every uid below `u32::MAX` (which is `(uid_t)-1`, no
/// user's uid).
pub proof fn host_map_law(m: Seq<MapEntry>, uid: u32)
    requires
        host_map(m),
        uid < 0xffff_ffff,
    ensures
        mapped(m, uid),
{
    assert(m[0].inside <= uid && (uid as int) < m[0].inside + m[0].len);
}

/// Inside a user namespace (a uid map that is neither empty nor the host's
/// identity map), a target whose owner shows as the overflow uid, or whose
/// owner no line of the map covers, is a suspected denial, whatever line
/// covers it; an owner that a line covers and that is not the overflow uid
/// raises no suspicion. Outside a user namespace nothing is suspected.
pub proof fn unmapped_owner_law(facts: Facts, text: String, meta: NodeMeta)
    requires
        facts.container.uid_map == Some(text),
        facts.stat == Probe::Found(meta),
    ensures
        ({
            let m = uid_map_spec(text@);
            let userns = m.len() > 0 && !host_map(m);
            let covered = exists|i: int|
                0 <= i < m.len() && m[i].inside <= meta.uid && (meta.uid as int) < #[trigger] m[i].inside
                    + m[i].len;
            let r = container_spec(facts);
            &&& userns && meta.uid == overflow_spec(facts.container.overflowuid) ==> r.status
                == LayerStatus::Suspect && r.certainty == Certainty::Suspected
            &&& userns && !covered ==> r.status == LayerStatus::Suspect
            &&& (userns && covered && meta.uid != overflow_spec(facts.container.overflowuid))
                ==> r.status != LayerStatus::Suspect
            &&& !userns ==> r.status != LayerStatus::Suspect
        }),
{
}

} // verus!
