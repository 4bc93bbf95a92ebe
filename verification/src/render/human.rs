//! The human report: a verdict line, the evidence chain, the blocking
//! layer's raw evidence, the cross-check and the fixes, in zones separated
//! by blank lines.

use vstd::prelude::*;
use crate::fix::{display_spec, fix_text_free, lemma_display_free};
use crate::op::Op;
use crate::report::{
    risk_word, verdict_word, CrossCheck, Evidence, EvidenceModel, EvidenceSource,
    FixModel, LayerId, LayerResultModel, Mark, PathComponent, PathComponentModel, Report,
    ReportModel, Risk, Verdict,
};
use crate::term::{
    glyph_text, paint, paint_spec, ColorDepth, Glyph, GlyphSet, Style, TermCtx,
};
use crate::text::{
    append_str, chars_of, escape_free, join, join_strings, lemma_free_concat, lemma_free_join,
    lemma_free_pad, lemma_free_trim_end, lit, pad_right, pad_right_str, trim_end, trim_end_str,
    views,
};

verus! {

// ---------------------------------------------------------------------
// Words, glyphs and styles
// ---------------------------------------------------------------------

/// An op as the report line names it.
pub open spec fn op_word(op: Op) -> Seq<char> {
    match op {
        Op::Read => "read"@,
        Op::Write => "write"@,
        Op::Exec => "exec"@,
        Op::Traverse => "traverse"@,
        Op::Delete => "delete"@,
        Op::Create => "create"@,
    }
}

pub fn op_text(op: Op) -> (r: &'static str)
    ensures
        r@ == op_word(op),
{
    match op {
        Op::Read => "read",
        Op::Write => "write",
        Op::Exec => "exec",
        Op::Traverse => "traverse",
        Op::Delete => "delete",
        Op::Create => "create",
    }
}

pub open spec fn rgb(r: u8, g: u8, b: u8) -> Style {
    Style { r, g, b, bold: false }
}

pub open spec fn green() -> Style {
    rgb(0x2e, 0xcc, 0x71)
}

pub open spec fn red() -> Style {
    rgb(0xe7, 0x4c, 0x3c)
}

pub open spec fn yellow() -> Style {
    rgb(0xf1, 0xc4, 0x0f)
}

pub open spec fn grey() -> Style {
    rgb(0x88, 0x88, 0x88)
}

/// Verdicts are bold: green allowed, red blocked, yellow indeterminate,
/// orange target error.
pub open spec fn verdict_style_spec(v: Verdict) -> Style {
    let s = match v {
        Verdict::Allowed => green(),
        Verdict::Blocked => red(),
        Verdict::Indeterminate => yellow(),
        Verdict::TargetError => rgb(0xe6, 0x7e, 0x22),
    };
    Style { bold: true, ..s }
}

fn verdict_style(term: &TermCtx, v: Verdict) -> (r: Style)
    ensures
        r == verdict_style_spec(v),
{
    let (r, g, b) = match v {
        Verdict::Allowed => (0x2eu8, 0xccu8, 0x71u8),
        Verdict::Blocked => (0xe7u8, 0x4cu8, 0x3cu8),
        Verdict::Indeterminate => (0xf1u8, 0xc4u8, 0x0fu8),
        Verdict::TargetError => (0xe6u8, 0x7eu8, 0x22u8),
    };
    term.style_rgb(r, g, b).bold()
}

pub open spec fn verdict_glyph_spec(t: TermCtx, v: Verdict) -> Seq<char> {
    match v {
        Verdict::Allowed => glyph_text(t.glyphs, Glyph::Pass),
        Verdict::Blocked => glyph_text(t.glyphs, Glyph::Deny),
        Verdict::Indeterminate => "?"@,
        Verdict::TargetError => match t.glyphs {
            GlyphSet::Unicode => "\u{26a0}"@,
            GlyphSet::Ascii => "!"@,
        },
    }
}

pub fn verdict_glyph(term: &TermCtx, v: Verdict) -> (r: &'static str)
    ensures
        r@ == verdict_glyph_spec(*term, v),
{
    match v {
        Verdict::Allowed => term.glyph(Glyph::Pass),
        Verdict::Blocked => term.glyph(Glyph::Deny),
        Verdict::Indeterminate => "?",
        Verdict::TargetError => match term.glyphs {
            GlyphSet::Unicode => "\u{26a0}",
            GlyphSet::Ascii => "!",
        },
    }
}

pub open spec fn mark_glyph_spec(t: TermCtx, m: Mark) -> Seq<char> {
    match m {
        Mark::Pass => glyph_text(t.glyphs, Glyph::Pass),
        Mark::Block => glyph_text(t.glyphs, Glyph::Deny),
        Mark::NotReached => match t.glyphs {
            GlyphSet::Unicode => "\u{00b7}"@,
            GlyphSet::Ascii => "."@,
        },
    }
}

pub fn mark_glyph(term: &TermCtx, m: Mark) -> (r: &'static str)
    ensures
        r@ == mark_glyph_spec(*term, m),
{
    match m {
        Mark::Pass => term.glyph(Glyph::Pass),
        Mark::Block => term.glyph(Glyph::Deny),
        Mark::NotReached => match term.glyphs {
            GlyphSet::Unicode => "\u{00b7}",
            GlyphSet::Ascii => ".",
        },
    }
}

pub open spec fn mark_style_spec(m: Mark) -> Style {
    match m {
        Mark::Pass => green(),
        Mark::Block => red(),
        Mark::NotReached => grey(),
    }
}

fn mark_style(term: &TermCtx, m: Mark) -> (r: Style)
    ensures
        r == mark_style_spec(m),
{
    match m {
        Mark::Pass => term.style_rgb(0x2e, 0xcc, 0x71),
        Mark::Block => term.style_rgb(0xe7, 0x4c, 0x3c),
        Mark::NotReached => term.style_rgb(0x88, 0x88, 0x88),
    }
}

// ---------------------------------------------------------------------
// The verdict line
// ---------------------------------------------------------------------

pub open spec fn culprit_tail(c: Option<Seq<char>>) -> Seq<char> {
    match c {
        Some(t) => "   "@ + t,
        None => seq![],
    }
}

/// `<glyph> <VERDICT>  <op> <path>`, then the culprit after three spaces.
pub open spec fn verdict_line_spec(r: ReportModel, t: TermCtx) -> Seq<char> {
    paint_spec(t, verdict_style_spec(r.verdict), verdict_glyph_spec(t, r.verdict) + " "@ + verdict_word(r.verdict))
        + "  "@ + op_word(r.op) + " "@ + r.path + culprit_tail(r.culprit)
}

/// A path as shown: its display text, linked when the terminal links.
pub fn render_path(term: &TermCtx, p: &str, max: usize) -> (r: String)
    ensures
        r@ == p@,
{
    let text = term.truncate_path(p, max);
    term.hyperlink(p, text.as_str())
}

pub fn verdict_line(report: &Report, term: &TermCtx) -> (r: String)
    ensures
        r@ == verdict_line_spec(report@, *term),
{
    let v = report.verdict;
    let mut headtext = lit(verdict_glyph(term, v));
    append_str(&mut headtext, " ");
    append_str(&mut headtext, v.word());
    let mut line = paint(term, verdict_style(term, v), headtext.as_str());
    append_str(&mut line, "  ");
    append_str(&mut line, op_text(report.op));
    append_str(&mut line, " ");
    append_str(&mut line, render_path(term, report.path.as_str(), term.width).as_str());
    match &report.culprit {
        Some(c) => {
            append_str(&mut line, "   ");
            append_str(&mut line, c.as_str());
        },
        None => {},
    }
    line
}

// ---------------------------------------------------------------------
// The evidence chain
// ---------------------------------------------------------------------

/// A chain entry's detail: for a node not reached, its note or `not
/// reached`; otherwise its evidence line and its note, three spaces apart.
pub open spec fn detail_spec(c: PathComponentModel) -> Seq<char> {
    match c.mark {
        Mark::NotReached => match c.note {
            Some(n) => n,
            None => "not reached"@,
        },
        _ => match (c.evidence, c.note) {
            (Some(e), Some(n)) => e.raw + "   "@ + n,
            (Some(e), None) => e.raw,
            (None, Some(n)) => n,
            (None, None) => seq![],
        },
    }
}

pub fn component_detail(c: &PathComponent) -> (r: String)
    ensures
        r@ == detail_spec(c@),
{
    match c.mark {
        Mark::NotReached => match &c.note {
            Some(n) => n.clone(),
            None => lit("not reached"),
        },
        _ => match (&c.evidence, &c.note) {
            (Some(e), Some(n)) => {
                let mut s = e.raw.clone();
                append_str(&mut s, "   ");
                append_str(&mut s, n.as_str());
                s
            },
            (Some(e), None) => e.raw.clone(),
            (None, Some(n)) => n.clone(),
            (None, None) => String::new(),
        },
    }
}

pub open spec fn any_block(cs: Seq<PathComponentModel>) -> bool {
    exists|i: int| 0 <= i < cs.len() && (#[trigger] cs[i]).mark == Mark::Block
}

/// Whether an entry is shown: always when verbose; otherwise passing
/// entries are hidden once something blocks.
pub open spec fn keep(c: PathComponentModel, verbose: bool, has_block: bool) -> bool {
    verbose || !(has_block && c.mark == Mark::Pass)
}

pub open spec fn visible(cs: Seq<PathComponentModel>, verbose: bool, has_block: bool) -> Seq<
    PathComponentModel,
>
    decreases cs.len(),
{
    if cs.len() == 0 {
        seq![]
    } else {
        visible(cs.drop_last(), verbose, has_block) + if keep(cs.last(), verbose, has_block) {
            seq![cs.last()]
        } else {
            seq![]
        }
    }
}

/// The widest entry name, in characters.
pub open spec fn widest(cs: Seq<PathComponentModel>) -> nat
    decreases cs.len(),
{
    if cs.len() == 0 {
        0
    } else {
        let w = widest(cs.drop_last());
        let n = cs.last().name.len();
        if n > w {
            n
        } else {
            w
        }
    }
}

pub open spec fn name_column(vis: Seq<PathComponentModel>) -> nat {
    if widest(vis) > 40 {
        40
    } else {
        widest(vis)
    }
}

/// `  <name padded>  <mark> <need>  <detail>`, trailing space trimmed; a
/// node not reached shows no need.
pub open spec fn chain_line_spec(t: TermCtx, c: PathComponentModel, w: nat) -> Seq<char> {
    trim_end(
        "  "@ + pad_right(c.name, w) + "  "@ + paint_spec(t, mark_style_spec(c.mark), mark_glyph_spec(t, c.mark))
            + " "@ + (if c.mark == Mark::NotReached {
            seq![]
        } else {
            c.need
        }) + "  "@ + detail_spec(c),
    )
}

pub open spec fn chain_lines_spec(r: ReportModel, t: TermCtx, verbose: bool) -> Seq<Seq<char>> {
    let vis = visible(r.evidence_chain, verbose, any_block(r.evidence_chain));
    vis.map_values(|c: PathComponentModel| chain_line_spec(t, c, name_column(vis)))
}

fn chain_line(term: &TermCtx, c: &PathComponent, w: usize) -> (r: String)
    ensures
        r@ == chain_line_spec(*term, c@, w as nat),
{
    let mut s = lit("  ");
    append_str(&mut s, pad_right_str(c.name.as_str(), w).as_str());
    append_str(&mut s, "  ");
    append_str(&mut s, paint(term, mark_style(term, c.mark), mark_glyph(term, c.mark)).as_str());
    append_str(&mut s, " ");
    match c.mark {
        Mark::NotReached => {},
        _ => append_str(&mut s, c.need.as_str()),
    }
    append_str(&mut s, "  ");
    append_str(&mut s, component_detail(c).as_str());
    trim_end_str(s.as_str())
}

pub fn chain_lines(report: &Report, term: &TermCtx, verbose: bool) -> (r: Vec<String>)
    ensures
        views(r@) == chain_lines_spec(report@, *term, verbose),
{
    let ghost cs = report@.evidence_chain;
    let n = report.evidence_chain.len();
    let mut has_block = false;
    let mut i: usize = 0;
    while i < n
        invariant
            n == report.evidence_chain@.len(),
            cs == report@.evidence_chain,
            cs.len() == n,
            i <= n,
            has_block == exists|k: int| 0 <= k < i && (#[trigger] cs[k]).mark == Mark::Block,
        decreases n - i,
    {
        assert(cs[i as int] == report.evidence_chain@[i as int]@);
        if report.evidence_chain[i].mark == Mark::Block {
            has_block = true;
        }
        i += 1;
    }
    assert(has_block == any_block(cs));
    let mut w: usize = 0;
    let mut i: usize = 0;
    while i < n
        invariant
            n == report.evidence_chain@.len(),
            cs == report@.evidence_chain,
            cs.len() == n,
            i <= n,
            has_block == any_block(cs),
            w as nat == widest(visible(cs.take(i as int), verbose, has_block)),
        decreases n - i,
    {
        let c = &report.evidence_chain[i];
        assert(cs[i as int] == c@);
        assert(cs.take(i + 1).drop_last() =~= cs.take(i as int));
        assert(cs.take(i + 1).last() == cs[i as int]);
        let ghost before = visible(cs.take(i as int), verbose, has_block);
        if verbose || !(has_block && c.mark == Mark::Pass) {
            let len = chars_of(c.name.as_str()).len();
            assert(before.push(c@).drop_last() =~= before);
            assert(visible(cs.take(i + 1), verbose, has_block) =~= before.push(c@));
            if len > w {
                w = len;
            }
        } else {
            assert(visible(cs.take(i + 1), verbose, has_block) =~= before);
        }
        i += 1;
    }
    assert(cs.take(n as int) =~= cs);
    let ghost vis = visible(cs, verbose, has_block);
    if w > 40 {
        w = 40;
    }
    assert(w as nat == name_column(vis));
    let mut out: Vec<String> = Vec::new();
    let mut i: usize = 0;
    while i < n
        invariant
            n == report.evidence_chain@.len(),
            cs == report@.evidence_chain,
            cs.len() == n,
            i <= n,
            has_block == any_block(cs),
            vis == visible(cs, verbose, has_block),
            w as nat == name_column(vis),
            views(out@) =~= visible(cs.take(i as int), verbose, has_block).map_values(
                |c: PathComponentModel| chain_line_spec(*term, c, w as nat),
            ),
        decreases n - i,
    {
        let c = &report.evidence_chain[i];
        assert(cs[i as int] == c@);
        assert(cs.take(i + 1).drop_last() =~= cs.take(i as int));
        assert(cs.take(i + 1).last() == cs[i as int]);
        let ghost before = visible(cs.take(i as int), verbose, has_block);
        if verbose || !(has_block && c.mark == Mark::Pass) {
            let line = chain_line(term, c, w);
            let ghost prev = out@;
            out.push(line);
            assert(views(out@) =~= views(prev).push(line@));
            assert(visible(cs.take(i + 1), verbose, has_block) =~= before.push(c@));
            assert(before.push(c@).map_values(
                |c: PathComponentModel| chain_line_spec(*term, c, w as nat),
            ) =~= before.map_values(|c: PathComponentModel| chain_line_spec(*term, c, w as nat)).push(
                chain_line_spec(*term, c@, w as nat),
            ));
        } else {
            assert(visible(cs.take(i + 1), verbose, has_block) =~= before);
        }
        i += 1;
    }
    out
}

// ---------------------------------------------------------------------
// The blocking layer's evidence
// ---------------------------------------------------------------------

/// The tool whose output an evidence line quotes.
pub open spec fn source_label_spec(s: EvidenceSource) -> Seq<char> {
    match s {
        EvidenceSource::LsLd => "ls -ld"@,
        EvidenceSource::Getfacl => "getfacl"@,
        EvidenceSource::Lsattr => "lsattr"@,
        EvidenceSource::MountOpts => "mount"@,
        EvidenceSource::SelinuxLabel => "selinux"@,
        EvidenceSource::ApparmorStatus => "apparmor"@,
        EvidenceSource::MacStatus => "mac"@,
        EvidenceSource::AuditAvc => "audit"@,
        EvidenceSource::Statvfs => "statvfs"@,
        EvidenceSource::Capability => "getcap"@,
        EvidenceSource::FileCap => "getcap"@,
        EvidenceSource::Namespace => "namespace"@,
        EvidenceSource::Xattr => "xattr"@,
        EvidenceSource::Statflags => "stat"@,
    }
}

pub fn source_label(s: EvidenceSource) -> (r: &'static str)
    ensures
        r@ == source_label_spec(s),
{
    match s {
        EvidenceSource::LsLd => "ls -ld",
        EvidenceSource::Getfacl => "getfacl",
        EvidenceSource::Lsattr => "lsattr",
        EvidenceSource::MountOpts => "mount",
        EvidenceSource::SelinuxLabel => "selinux",
        EvidenceSource::ApparmorStatus => "apparmor",
        EvidenceSource::MacStatus => "mac",
        EvidenceSource::AuditAvc => "audit",
        EvidenceSource::Statvfs => "statvfs",
        EvidenceSource::Capability => "getcap",
        EvidenceSource::FileCap => "getcap",
        EvidenceSource::Namespace => "namespace",
        EvidenceSource::Xattr => "xattr",
        EvidenceSource::Statflags => "stat",
    }
}

/// `  <source>  <raw>`, the source greyed.
pub open spec fn evidence_line_spec(t: TermCtx, e: EvidenceModel) -> Seq<char> {
    "  "@ + paint_spec(t, grey(), source_label_spec(e.source)) + "  "@ + e.raw
}

pub fn evidence_line(term: &TermCtx, ev: &Evidence) -> (r: String)
    ensures
        r@ == evidence_line_spec(*term, ev@),
{
    let mut s = lit("  ");
    append_str(&mut s, paint(term, term.style_rgb(0x88, 0x88, 0x88), source_label(ev.source)).as_str());
    append_str(&mut s, "  ");
    append_str(&mut s, ev.raw.as_str());
    s
}

/// The first result of layer `id` among the first `n`.
pub open spec fn find_layer(rs: Seq<LayerResultModel>, id: LayerId, n: int) -> Option<int>
    decreases n,
{
    if n <= 0 {
        None
    } else {
        match find_layer(rs, id, n - 1) {
            Some(j) => Some(j),
            None => if rs[n - 1].layer == id {
                Some(n - 1)
            } else {
                None
            },
        }
    }
}

proof fn lemma_find_layer_stable(rs: Seq<LayerResultModel>, id: LayerId, n: int, m: int)
    requires
        n <= m,
        find_layer(rs, id, n) is Some,
    ensures
        find_layer(rs, id, m) == find_layer(rs, id, n),
    decreases m - n,
{
    if n < m {
        lemma_find_layer_stable(rs, id, n, m - 1);
    }
}

proof fn lemma_find_layer_bound(rs: Seq<LayerResultModel>, id: LayerId, n: int)
    ensures
        find_layer(rs, id, n) matches Some(j) ==> 0 <= j < n,
    decreases n,
{
    if n > 0 {
        lemma_find_layer_bound(rs, id, n - 1);
    }
}

/// The blocking layer's summary, greyed, then each of its evidence lines;
/// nothing without a blocking layer, a result for it, or evidence.
pub open spec fn evidence_lines_spec(r: ReportModel, t: TermCtx) -> Seq<Seq<char>> {
    match r.blocking_layer {
        None => seq![],
        Some(id) => match find_layer(r.layer_results, id, r.layer_results.len() as int) {
            None => seq![],
            Some(j) => {
                let lr = r.layer_results[j];
                if lr.evidence.len() == 0 {
                    seq![]
                } else {
                    seq![paint_spec(t, grey(), lr.summary)] + lr.evidence.map_values(
                        |e: EvidenceModel| evidence_line_spec(t, e),
                    )
                }
            },
        },
    }
}

pub fn evidence_lines(report: &Report, term: &TermCtx) -> (r: Vec<String>)
    ensures
        views(r@) == evidence_lines_spec(report@, *term),
{
    let ghost m = report@;
    let mut out: Vec<String> = Vec::new();
    let id = match report.blocking_layer {
        None => {
            assert(views(out@) =~= seq![]);
            return out;
        },
        Some(id) => id,
    };
    let n = report.layer_results.len();
    let mut i: usize = 0;
    let mut found: Option<usize> = None;
    while i < n && found.is_none()
        invariant
            m == report@,
            n == report.layer_results@.len(),
            m.layer_results.len() == n,
            i <= n,
            found matches Some(k) ==> find_layer(m.layer_results, id, i as int) == Some(k as int) && k
                < i,
            found is None ==> find_layer(m.layer_results, id, i as int) is None,
        decreases n - i,
    {
        assert(m.layer_results[i as int] == report.layer_results@[i as int]@);
        if report.layer_results[i].layer == id {
            found = Some(i);
        }
        i += 1;
    }
    let k = match found {
        None => {
            assert(views(out@) =~= seq![]);
            return out;
        },
        Some(k) => k,
    };
    proof {
        lemma_find_layer_stable(m.layer_results, id, i as int, n as int);
    }
    let lr = &report.layer_results[k];
    assert(m.layer_results[k as int] == lr@);
    if lr.evidence.len() == 0 {
        assert(views(out@) =~= seq![]);
        return out;
    }
    out.push(paint(term, term.style_rgb(0x88, 0x88, 0x88), lr.summary.as_str()));
    let ghost head = views(out@);
    let mut j: usize = 0;
    while j < lr.evidence.len()
        invariant
            j <= lr.evidence@.len(),
            views(out@) =~= head + lr@.evidence.take(j as int).map_values(
                |e: EvidenceModel| evidence_line_spec(*term, e),
            ),
        decreases lr.evidence@.len() - j,
    {
        let line = evidence_line(term, &lr.evidence[j]);
        let ghost before = out@;
        out.push(line);
        assert(views(out@) =~= views(before).push(line@));
        assert(lr@.evidence[j as int] == lr.evidence@[j as int]@);
        assert(lr@.evidence.take(j + 1).map_values(|e: EvidenceModel| evidence_line_spec(*term, e))
            =~= lr@.evidence.take(j as int).map_values(
            |e: EvidenceModel| evidence_line_spec(*term, e),
        ).push(evidence_line_spec(*term, lr@.evidence[j as int])));
        j += 1;
    }
    assert(lr@.evidence.take(lr.evidence@.len() as int) =~= lr@.evidence);
    out
}

// ---------------------------------------------------------------------
// The cross-check
// ---------------------------------------------------------------------

pub open spec fn default_crosscheck_spec(agree: bool) -> Seq<char> {
    if agree {
        "model and kernel concur"@
    } else {
        "model and kernel disagree"@
    }
}

/// What a cross-check says when it carries no message of its own.
pub fn default_crosscheck(cc: &CrossCheck) -> (r: String)
    ensures
        r@ == default_crosscheck_spec(cc.agree),
{
    if cc.agree {
        lit("model and kernel concur")
    } else {
        lit("model and kernel disagree")
    }
}

pub open spec fn crosscheck_style_spec(agree: bool) -> Style {
    if agree {
        grey()
    } else {
        Style { bold: true, ..yellow() }
    }
}

/// `cross-check: <message>`, grey when model and kernel agree, bold yellow
/// when they do not.
pub open spec fn crosscheck_lines_spec(r: ReportModel, t: TermCtx) -> Seq<Seq<char>> {
    match r.cross_check {
        None => seq![],
        Some(cc) => seq![
            paint_spec(
                t,
                crosscheck_style_spec(cc.agree),
                "cross-check: "@ + match cc.message {
                    Some(msg) => msg,
                    None => default_crosscheck_spec(cc.agree),
                },
            ),
        ],
    }
}

pub fn crosscheck_lines(report: &Report, term: &TermCtx) -> (r: Vec<String>)
    ensures
        views(r@) == crosscheck_lines_spec(report@, *term),
{
    let mut out: Vec<String> = Vec::new();
    match &report.cross_check {
        None => {},
        Some(cc) => {
            let msg = match &cc.message {
                Some(m) => m.clone(),
                None => default_crosscheck(cc),
            };
            let style = if cc.agree {
                term.style_rgb(0x88, 0x88, 0x88)
            } else {
                term.style_rgb(0xf1, 0xc4, 0x0f).bold()
            };
            let mut text = lit("cross-check: ");
            append_str(&mut text, msg.as_str());
            out.push(paint(term, style, text.as_str()));
        },
    }
    assert(views(out@) =~= crosscheck_lines_spec(report@, *term));
    out
}

// ---------------------------------------------------------------------
// Fixes
// ---------------------------------------------------------------------

pub open spec fn risk_style_spec(r: Risk) -> Style {
    match r {
        Risk::Low => green(),
        Risk::Medium => yellow(),
        Risk::High => red(),
    }
}

fn risk_style(term: &TermCtx, r: Risk) -> (s: Style)
    ensures
        s == risk_style_spec(r),
{
    match r {
        Risk::Low => term.style_rgb(0x2e, 0xcc, 0x71),
        Risk::Medium => term.style_rgb(0xf1, 0xc4, 0x0f),
        Risk::High => term.style_rgb(0xe7, 0x4c, 0x3c),
    }
}

/// Two lines per fix: `  <arrow> <command>   [risk: <word>]`, the tag in
/// the risk's color, then the rationale indented six spaces.
pub open spec fn fix_pair(t: TermCtx, f: FixModel) -> Seq<Seq<char>> {
    seq![
        "  "@ + glyph_text(t.glyphs, Glyph::Arrow) + " "@ + display_spec(f) + "   "@ + paint_spec(
            t,
            risk_style_spec(f.risk),
            "[risk: "@ + risk_word(f.risk) + "]"@,
        ),
        "      "@ + f.rationale,
    ]
}

pub open spec fn fix_lines_from(t: TermCtx, fs: Seq<FixModel>) -> Seq<Seq<char>>
    decreases fs.len(),
{
    if fs.len() == 0 {
        seq![]
    } else {
        fix_lines_from(t, fs.drop_last()) + fix_pair(t, fs.last())
    }
}

pub open spec fn fix_lines_spec(r: ReportModel, t: TermCtx) -> Seq<Seq<char>> {
    fix_lines_from(t, r.fixes)
}

pub fn fix_lines(report: &Report, term: &TermCtx) -> (r: Vec<String>)
    ensures
        views(r@) == fix_lines_spec(report@, *term),
{
    let ghost fs = report@.fixes;
    let arrow = term.glyph(Glyph::Arrow);
    let mut out: Vec<String> = Vec::new();
    let mut i: usize = 0;
    assert(fs.take(0) =~= seq![]);
    while i < report.fixes.len()
        invariant
            fs == report@.fixes,
            fs.len() == report.fixes@.len(),
            i <= fs.len(),
            arrow@ == glyph_text(term.glyphs, Glyph::Arrow),
            views(out@) =~= fix_lines_from(*term, fs.take(i as int)),
        decreases fs.len() - i,
    {
        let f = &report.fixes[i];
        assert(fs[i as int] == f@);
        let mut tagtext = lit("[risk: ");
        append_str(&mut tagtext, f.risk.word());
        append_str(&mut tagtext, "]");
        let tag = paint(term, risk_style(term, f.risk), tagtext.as_str());
        let mut l1 = lit("  ");
        append_str(&mut l1, arrow);
        append_str(&mut l1, " ");
        append_str(&mut l1, f.display().as_str());
        append_str(&mut l1, "   ");
        append_str(&mut l1, tag.as_str());
        let mut l2 = lit("      ");
        append_str(&mut l2, f.rationale.as_str());
        let ghost before = out@;
        out.push(l1);
        out.push(l2);
        assert(views(out@) =~= views(before) + seq![l1@, l2@]);
        assert(fs.take(i + 1).drop_last() =~= fs.take(i as int));
        assert(fs.take(i + 1).last() == f@);
        i += 1;
    }
    assert(fs.take(fs.len() as int) =~= fs);
    out
}

// ---------------------------------------------------------------------
// The whole
// ---------------------------------------------------------------------

/// A zone: nothing when empty, else a blank line and its lines.
pub open spec fn zone(z: Seq<Seq<char>>) -> Seq<Seq<char>> {
    if z.len() == 0 {
        seq![]
    } else {
        seq![seq![]] + z
    }
}

pub fn push_zone(lines: &mut Vec<String>, z: Vec<String>)
    ensures
        views(final(lines)@) == views(old(lines)@) + zone(views(z@)),
{
    if z.len() > 0 {
        lines.push(String::new());
        let ghost base = views(lines@);
        let mut i: usize = 0;
        while i < z.len()
            invariant
                i <= z@.len(),
                views(lines@) =~= base + views(z@.take(i as int)),
            decreases z@.len() - i,
        {
            let ghost prev = lines@;
            lines.push(z[i].clone());
            assert(views(lines@) =~= views(prev).push(z@[i as int]@));
            assert(views(z@.take(i + 1)) =~= views(z@.take(i as int)).push(z@[i as int]@));
            i += 1;
        }
        assert(z@.take(z@.len() as int) =~= z@);
    } else {
        assert(views(z@) =~= seq![]);
    }
}

/// The report's lines: the verdict line, then the chain, the evidence, the
/// cross-check and the fixes, each a zone.
pub open spec fn human_lines(r: ReportModel, t: TermCtx, verbose: bool) -> Seq<Seq<char>> {
    seq![verdict_line_spec(r, t)] + zone(chain_lines_spec(r, t, verbose)) + zone(
        evidence_lines_spec(r, t),
    ) + zone(crosscheck_lines_spec(r, t)) + zone(fix_lines_spec(r, t))
}

pub open spec fn render_human_spec(r: ReportModel, t: TermCtx, verbose: bool) -> Seq<char> {
    join(human_lines(r, t, verbose), "\n"@)
}

/// The human report; `verbose` shows passing chain entries beside a block.
pub fn render_human(report: &Report, term: &TermCtx, verbose: bool) -> (r: String)
    ensures
        r@ == render_human_spec(report@, *term, verbose),
{
    let mut lines: Vec<String> = Vec::new();
    lines.push(verdict_line(report, term));
    assert(views(lines@) =~= seq![verdict_line_spec(report@, *term)]);
    push_zone(&mut lines, chain_lines(report, term, verbose));
    push_zone(&mut lines, evidence_lines(report, term));
    push_zone(&mut lines, crosscheck_lines(report, term));
    push_zone(&mut lines, fix_lines(report, term));
    join_strings(&lines, "\n")
}

// ---------------------------------------------------------------------
// Without color, no escape sequence
// ---------------------------------------------------------------------

pub open spec fn opt_free(o: Option<Seq<char>>) -> bool {
    match o {
        Some(t) => escape_free(t),
        None => true,
    }
}

pub open spec fn component_free(c: PathComponentModel) -> bool {
    &&& escape_free(c.name)
    &&& escape_free(c.need)
    &&& (c.evidence matches Some(e) ==> escape_free(e.raw))
    &&& opt_free(c.note)
}

pub open spec fn result_free(lr: LayerResultModel) -> bool {
    &&& escape_free(lr.summary)
    &&& forall|j: int| 0 <= j < lr.evidence.len() ==> escape_free(#[trigger] lr.evidence[j].raw)
}

/// A report whose own text holds no escape character: the path, the
/// culprit, the chain, the layer results, the cross-check message and the
/// fixes.
pub open spec fn report_text_free(r: ReportModel) -> bool {
    &&& escape_free(r.path)
    &&& opt_free(r.culprit)
    &&& forall|i: int| 0 <= i < r.evidence_chain.len() ==> component_free(#[trigger] r.evidence_chain[i])
    &&& forall|i: int| 0 <= i < r.layer_results.len() ==> result_free(#[trigger] r.layer_results[i])
    &&& (r.cross_check matches Some(cc) ==> opt_free(cc.message))
    &&& forall|i: int| 0 <= i < r.fixes.len() ==> fix_text_free(#[trigger] r.fixes[i]) && escape_free(
        r.fixes[i].rationale,
    )
}

proof fn lemma_words_free(t: TermCtx, v: Verdict, m: Mark, op: Op, s: EvidenceSource, k: Risk, agree: bool)
    ensures
        escape_free(verdict_glyph_spec(t, v)),
        escape_free(verdict_word(v)),
        escape_free(mark_glyph_spec(t, m)),
        escape_free(glyph_text(t.glyphs, Glyph::Arrow)),
        escape_free(op_word(op)),
        escape_free(source_label_spec(s)),
        escape_free(risk_word(k)),
        escape_free(default_crosscheck_spec(agree)),
{
    reveal_strlit("\u{2717}");
    reveal_strlit("\u{2713}");
    reveal_strlit("\u{2192}");
    reveal_strlit("x");
    reveal_strlit("ok");
    reveal_strlit("->");
    reveal_strlit("?");
    reveal_strlit("\u{26a0}");
    reveal_strlit("!");
    reveal_strlit("\u{00b7}");
    reveal_strlit(".");
    reveal_strlit("ALLOWED");
    reveal_strlit("BLOCKED");
    reveal_strlit("INDETERMINATE");
    reveal_strlit("TARGET ERROR");
    reveal_strlit("read");
    reveal_strlit("write");
    reveal_strlit("exec");
    reveal_strlit("traverse");
    reveal_strlit("delete");
    reveal_strlit("create");
    reveal_strlit("ls -ld");
    reveal_strlit("getfacl");
    reveal_strlit("lsattr");
    reveal_strlit("mount");
    reveal_strlit("selinux");
    reveal_strlit("apparmor");
    reveal_strlit("mac");
    reveal_strlit("audit");
    reveal_strlit("statvfs");
    reveal_strlit("getcap");
    reveal_strlit("namespace");
    reveal_strlit("xattr");
    reveal_strlit("stat");
    reveal_strlit("low");
    reveal_strlit("medium");
    reveal_strlit("high");
    reveal_strlit("model and kernel concur");
    reveal_strlit("model and kernel disagree");
}

proof fn lemma_visible_free(cs: Seq<PathComponentModel>, verbose: bool, has_block: bool)
    requires
        forall|i: int| 0 <= i < cs.len() ==> component_free(#[trigger] cs[i]),
    ensures
        forall|i: int|
            0 <= i < visible(cs, verbose, has_block).len() ==> component_free(
                #[trigger] visible(cs, verbose, has_block)[i],
            ),
    decreases cs.len(),
{
    if cs.len() > 0 {
        let init = cs.drop_last();
        assert forall|i: int| 0 <= i < init.len() implies component_free(#[trigger] init[i]) by {
            assert(init[i] == cs[i]);
        }
        lemma_visible_free(init, verbose, has_block);
        assert(component_free(cs[cs.len() - 1]));
        let v = visible(init, verbose, has_block);
        let tail = if keep(cs.last(), verbose, has_block) {
            seq![cs.last()]
        } else {
            seq![]
        };
        assert forall|i: int| 0 <= i < (v + tail).len() implies component_free(#[trigger] (v + tail)[i]) by {
            if i < v.len() {
                assert((v + tail)[i] == v[i]);
            } else {
                assert((v + tail)[i] == tail[i - v.len()]);
            }
        }
    }
}

proof fn lemma_chain_line_free(t: TermCtx, c: PathComponentModel, w: nat)
    requires
        t.color == ColorDepth::NoColor,
        component_free(c),
    ensures
        escape_free(chain_line_spec(t, c, w)),
{
    reveal_strlit("  ");
    reveal_strlit(" ");
    reveal_strlit("   ");
    reveal_strlit("not reached");
    lemma_words_free(t, Verdict::Allowed, c.mark, Op::Read, EvidenceSource::LsLd, Risk::Low, true);
    lemma_free_pad(c.name, w);
    let need = if c.mark == Mark::NotReached {
        seq![]
    } else {
        c.need
    };
    assert(escape_free(need));
    match c.evidence {
        Some(e) => {
            lemma_free_concat(e.raw, "   "@);
            match c.note {
                Some(n) => lemma_free_concat(e.raw + "   "@, n),
                None => {},
            }
        },
        None => {},
    }
    assert(escape_free(detail_spec(c)));
    let g = mark_glyph_spec(t, c.mark);
    assert(paint_spec(t, mark_style_spec(c.mark), g) == g);
    lemma_free_concat("  "@, pad_right(c.name, w));
    lemma_free_concat("  "@ + pad_right(c.name, w), "  "@);
    lemma_free_concat("  "@ + pad_right(c.name, w) + "  "@, g);
    lemma_free_concat("  "@ + pad_right(c.name, w) + "  "@ + g, " "@);
    lemma_free_concat("  "@ + pad_right(c.name, w) + "  "@ + g + " "@, need);
    lemma_free_concat("  "@ + pad_right(c.name, w) + "  "@ + g + " "@ + need, "  "@);
    lemma_free_concat("  "@ + pad_right(c.name, w) + "  "@ + g + " "@ + need + "  "@, detail_spec(c));
    lemma_free_trim_end(
        "  "@ + pad_right(c.name, w) + "  "@ + g + " "@ + need + "  "@ + detail_spec(c),
    );
}

proof fn lemma_fix_lines_free(t: TermCtx, fs: Seq<FixModel>)
    requires
        t.color == ColorDepth::NoColor,
        forall|i: int| 0 <= i < fs.len() ==> fix_text_free(#[trigger] fs[i]) && escape_free(fs[i].rationale),
    ensures
        forall|i: int| 0 <= i < fix_lines_from(t, fs).len() ==> escape_free(#[trigger] fix_lines_from(t, fs)[i]),
    decreases fs.len(),
{
    if fs.len() > 0 {
        let init = fs.drop_last();
        assert forall|i: int| 0 <= i < init.len() implies fix_text_free(#[trigger] init[i])
            && escape_free(init[i].rationale) by {
            assert(init[i] == fs[i]);
        }
        lemma_fix_lines_free(t, init);
        let f = fs.last();
        assert(fix_text_free(fs[fs.len() - 1]) && escape_free(fs[fs.len() - 1].rationale));
        lemma_display_free(f);
        lemma_words_free(t, Verdict::Allowed, Mark::Pass, Op::Read, EvidenceSource::LsLd, f.risk, true);
        reveal_strlit("  ");
        reveal_strlit(" ");
        reveal_strlit("   ");
        reveal_strlit("      ");
        reveal_strlit("[risk: ");
        reveal_strlit("]");
        let arrow = glyph_text(t.glyphs, Glyph::Arrow);
        let tag = "[risk: "@ + risk_word(f.risk) + "]"@;
        lemma_free_concat("[risk: "@, risk_word(f.risk));
        lemma_free_concat("[risk: "@ + risk_word(f.risk), "]"@);
        assert(paint_spec(t, risk_style_spec(f.risk), tag) == tag);
        lemma_free_concat("  "@, arrow);
        lemma_free_concat("  "@ + arrow, " "@);
        lemma_free_concat("  "@ + arrow + " "@, display_spec(f));
        lemma_free_concat("  "@ + arrow + " "@ + display_spec(f), "   "@);
        lemma_free_concat("  "@ + arrow + " "@ + display_spec(f) + "   "@, tag);
        lemma_free_concat("      "@, f.rationale);
        let pair = fix_pair(t, f);
        let prev = fix_lines_from(t, init);
        assert forall|i: int| 0 <= i < (prev + pair).len() implies escape_free(#[trigger] (prev + pair)[i]) by {
            if i < prev.len() {
                assert((prev + pair)[i] == prev[i]);
            } else {
                assert((prev + pair)[i] == pair[i - prev.len()]);
            }
        }
    }
}

proof fn lemma_zone_free(z: Seq<Seq<char>>)
    requires
        forall|k: int| 0 <= k < z.len() ==> escape_free(#[trigger] z[k]),
    ensures
        forall|k: int| 0 <= k < zone(z).len() ==> escape_free(#[trigger] zone(z)[k]),
{
    if z.len() > 0 {
        assert forall|k: int| 0 <= k < zone(z).len() implies escape_free(#[trigger] zone(z)[k]) by {
            if k > 0 {
                assert(zone(z)[k] == z[k - 1]);
            } else {
                assert(zone(z)[0] =~= seq![]);
            }
        }
    }
}

/// Without color the human report holds no escape character unless the
/// report's own text does: every glyph, word and space it adds is free of
/// one.
pub proof fn no_color_no_escape_law(r: ReportModel, t: TermCtx, verbose: bool)
    requires
        t.color == ColorDepth::NoColor,
        report_text_free(r),
    ensures
        escape_free(render_human_spec(r, t, verbose)),
{
    reveal_strlit(" ");
    reveal_strlit("  ");
    reveal_strlit("   ");
    reveal_strlit("\n");
    reveal_strlit("cross-check: ");
    lemma_words_free(t, r.verdict, Mark::Pass, r.op, EvidenceSource::LsLd, Risk::Low, true);
    // The verdict line.
    let head = verdict_glyph_spec(t, r.verdict) + " "@ + verdict_word(r.verdict);
    lemma_free_concat(verdict_glyph_spec(t, r.verdict), " "@);
    lemma_free_concat(verdict_glyph_spec(t, r.verdict) + " "@, verdict_word(r.verdict));
    assert(paint_spec(t, verdict_style_spec(r.verdict), head) == head);
    match r.culprit {
        Some(c) => lemma_free_concat("   "@, c),
        None => {},
    }
    lemma_free_concat(head, "  "@);
    lemma_free_concat(head + "  "@, op_word(r.op));
    lemma_free_concat(head + "  "@ + op_word(r.op), " "@);
    lemma_free_concat(head + "  "@ + op_word(r.op) + " "@, r.path);
    lemma_free_concat(head + "  "@ + op_word(r.op) + " "@ + r.path, culprit_tail(r.culprit));
    let vl = verdict_line_spec(r, t);
    assert(escape_free(vl));
    // The chain.
    let vis = visible(r.evidence_chain, verbose, any_block(r.evidence_chain));
    lemma_visible_free(r.evidence_chain, verbose, any_block(r.evidence_chain));
    let chain = chain_lines_spec(r, t, verbose);
    assert forall|i: int| 0 <= i < chain.len() implies escape_free(#[trigger] chain[i]) by {
        lemma_chain_line_free(t, vis[i], name_column(vis));
    }
    // The evidence.
    let ev = evidence_lines_spec(r, t);
    match r.blocking_layer {
        Some(id) => {
            lemma_find_layer_bound(r.layer_results, id, r.layer_results.len() as int);
            match find_layer(r.layer_results, id, r.layer_results.len() as int) {
                Some(j) => {
                    let lr = r.layer_results[j];
                    assert(result_free(lr));
                    assert(paint_spec(t, grey(), lr.summary) == lr.summary);
                    let lines = lr.evidence.map_values(|e: EvidenceModel| evidence_line_spec(t, e));
                    assert forall|k: int| 0 <= k < lines.len() implies escape_free(#[trigger] lines[k]) by {
                        let e = lr.evidence[k];
                        assert(escape_free(e.raw));
                        lemma_words_free(t, r.verdict, Mark::Pass, r.op, e.source, Risk::Low, true);
                        assert(paint_spec(t, grey(), source_label_spec(e.source)) == source_label_spec(
                            e.source,
                        ));
                        lemma_free_concat("  "@, source_label_spec(e.source));
                        lemma_free_concat("  "@ + source_label_spec(e.source), "  "@);
                        lemma_free_concat("  "@ + source_label_spec(e.source) + "  "@, e.raw);
                    }
                    if lr.evidence.len() > 0 {
                        let all = seq![lr.summary] + lines;
                        assert forall|k: int| 0 <= k < all.len() implies escape_free(#[trigger] all[k]) by {
                            if k > 0 {
                                assert(all[k] == lines[k - 1]);
                            }
                        }
                    }
                },
                None => {},
            }
        },
        None => {},
    }
    assert(forall|k: int| 0 <= k < ev.len() ==> escape_free(#[trigger] ev[k]));
    // The cross-check.
    let cc = crosscheck_lines_spec(r, t);
    match r.cross_check {
        Some(c) => {
            lemma_words_free(t, r.verdict, Mark::Pass, r.op, EvidenceSource::LsLd, Risk::Low, c.agree);
            let msg = match c.message {
                Some(m) => m,
                None => default_crosscheck_spec(c.agree),
            };
            lemma_free_concat("cross-check: "@, msg);
            assert(paint_spec(t, crosscheck_style_spec(c.agree), "cross-check: "@ + msg) == "cross-check: "@
                + msg);
        },
        None => {},
    }
    assert(forall|k: int| 0 <= k < cc.len() ==> escape_free(#[trigger] cc[k]));
    // The fixes.
    lemma_fix_lines_free(t, r.fixes);
    let fx = fix_lines_spec(r, t);
    // The zones.
    let lines = human_lines(r, t, verbose);
    let z1 = zone(chain);
    let z2 = zone(ev);
    let z3 = zone(cc);
    let z4 = zone(fx);
    lemma_zone_free(chain);
    lemma_zone_free(ev);
    lemma_zone_free(cc);
    lemma_zone_free(fx);
    let a = seq![vl];
    let b = a + z1;
    let c = b + z2;
    let d = c + z3;
    assert(lines == d + z4);
    assert forall|i: int| 0 <= i < lines.len() implies escape_free(#[trigger] lines[i]) by {
        if i < a.len() {
            assert(lines[i] == vl);
        } else if i < b.len() {
            assert(lines[i] == z1[i - a.len()]);
        } else if i < c.len() {
            assert(lines[i] == z2[i - b.len()]);
        } else if i < d.len() {
            assert(lines[i] == z3[i - c.len()]);
        } else {
            assert(lines[i] == z4[i - d.len()]);
        }
    }
    lemma_free_join(lines, "\n"@);
}

} // verus!
