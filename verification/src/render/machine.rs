//! The plain report: ASCII record lines with stable leading words, one
//! record per line, for `grep` and `awk`.

use vstd::prelude::*;
use crate::fix::{display_spec, fix_text_ascii, lemma_display_ascii};
use crate::op::Op;
use crate::render::human::{op_text, op_word, source_label, source_label_spec};
use crate::report::{
    risk_word, CrossCheckModel, EvidenceModel, EvidenceSource, FixActionModel, FixModel, LayerId,
    LayerResultModel, Report, ReportModel, Risk, Verdict,
};
use crate::term::TermCtx;
use crate::text::{
    append_str, is_ascii_text, join, join_strings, lemma_ascii_concat, lemma_ascii_join, lit, views,
};

verus! {

pub open spec fn verdict_key(v: Verdict) -> Seq<char> {
    match v {
        Verdict::Allowed => "allowed"@,
        Verdict::Blocked => "blocked"@,
        Verdict::Indeterminate => "indeterminate"@,
        Verdict::TargetError => "target_error"@,
    }
}

fn verdict_key_text(v: Verdict) -> (r: &'static str)
    ensures
        r@ == verdict_key(v),
{
    match v {
        Verdict::Allowed => "allowed",
        Verdict::Blocked => "blocked",
        Verdict::Indeterminate => "indeterminate",
        Verdict::TargetError => "target_error",
    }
}

pub open spec fn layer_key(l: LayerId) -> Seq<char> {
    match l {
        LayerId::Existence => "existence"@,
        LayerId::Traverse => "traverse"@,
        LayerId::Dac => "dac"@,
        LayerId::Acl => "acl"@,
        LayerId::Attrs => "attrs"@,
        LayerId::Mount => "mount"@,
        LayerId::Capabilities => "capabilities"@,
        LayerId::Mac => "mac"@,
        LayerId::MacosSip => "macos_sip"@,
        LayerId::NetworkFs => "network_fs"@,
        LayerId::Container => "container"@,
    }
}

fn layer_key_text(l: LayerId) -> (r: &'static str)
    ensures
        r@ == layer_key(l),
{
    match l {
        LayerId::Existence => "existence",
        LayerId::Traverse => "traverse",
        LayerId::Dac => "dac",
        LayerId::Acl => "acl",
        LayerId::Attrs => "attrs",
        LayerId::Mount => "mount",
        LayerId::Capabilities => "capabilities",
        LayerId::Mac => "mac",
        LayerId::MacosSip => "macos_sip",
        LayerId::NetworkFs => "network_fs",
        LayerId::Container => "container",
    }
}

/// `evidence <layer> <source> <raw>`.
pub open spec fn evidence_record(l: LayerId, e: EvidenceModel) -> Seq<char> {
    "evidence "@ + layer_key(l) + " "@ + source_label_spec(e.source) + " "@ + e.raw
}

/// Every evidence line of every reported layer, in order.
pub open spec fn evidence_records(rs: Seq<LayerResultModel>) -> Seq<Seq<char>>
    decreases rs.len(),
{
    if rs.len() == 0 {
        seq![]
    } else {
        evidence_records(rs.drop_last()) + rs.last().evidence.map_values(
            |e: EvidenceModel| evidence_record(rs.last().layer, e),
        )
    }
}

/// `crosscheck agree|disagree <message>`.
pub open spec fn crosscheck_record(cc: CrossCheckModel) -> Seq<char> {
    "crosscheck "@ + (if cc.agree {
        "agree"@
    } else {
        "disagree"@
    }) + " "@ + match cc.message {
        Some(m) => m,
        None => if cc.agree {
            "model and kernel concur"@
        } else {
            "model and kernel disagree"@
        },
    }
}

/// `fix <risk> run|advice <command or advice>`.
pub open spec fn fix_record(f: FixModel) -> Seq<char> {
    "fix "@ + risk_word(f.risk) + " "@ + (match f.action {
        FixActionModel::Run { .. } => "run"@,
        FixActionModel::Advice { .. } => "advice"@,
    }) + " "@ + display_spec(f)
}

/// The records: the verdict, then the culprit, the evidence, the
/// cross-check, the fixes and the warnings, each present when the report
/// has it.
pub open spec fn plain_lines(r: ReportModel) -> Seq<Seq<char>> {
    seq!["verdict "@ + verdict_key(r.verdict) + " "@ + op_word(r.op) + " "@ + r.path] + (match r.culprit {
        Some(c) => seq!["culprit "@ + c],
        None => seq![],
    }) + evidence_records(r.layer_results) + (match r.cross_check {
        Some(cc) => seq![crosscheck_record(cc)],
        None => seq![],
    }) + r.fixes.map_values(|f: FixModel| fix_record(f)) + r.warnings.map_values(
        |w: Seq<char>| "warning "@ + w,
    )
}

pub open spec fn render_plain_spec(r: ReportModel) -> Seq<char> {
    join(plain_lines(r), "\n"@)
}

/// The plain report. It uses no glyphs or color, whatever the terminal.
pub fn render_plain(report: &Report, _term: &TermCtx) -> (r: String)
    ensures
        r@ == render_plain_spec(report@),
{
    let ghost m = report@;
    let mut lines: Vec<String> = Vec::new();
    let mut head = lit("verdict ");
    append_str(&mut head, verdict_key_text(report.verdict));
    append_str(&mut head, " ");
    append_str(&mut head, op_text(report.op));
    append_str(&mut head, " ");
    append_str(&mut head, report.path.as_str());
    lines.push(head);
    match &report.culprit {
        Some(c) => {
            let mut l = lit("culprit ");
            append_str(&mut l, c.as_str());
            lines.push(l);
        },
        None => {},
    }
    let ghost p1 = views(lines@);
    assert(p1 =~= seq!["verdict "@ + verdict_key(m.verdict) + " "@ + op_word(m.op) + " "@ + m.path]
        + (match m.culprit {
        Some(c) => seq!["culprit "@ + c],
        None => seq![],
    }));
    let n = report.layer_results.len();
    let mut i: usize = 0;
    assert(m.layer_results.take(0) =~= seq![]);
    while i < n
        invariant
            m == report@,
            n == report.layer_results@.len(),
            m.layer_results.len() == n,
            i <= n,
            views(lines@) =~= p1 + evidence_records(m.layer_results.take(i as int)),
        decreases n - i,
    {
        let lr = &report.layer_results[i];
        assert(m.layer_results[i as int] == lr@);
        let ghost mid = views(lines@);
        let mut j: usize = 0;
        while j < lr.evidence.len()
            invariant
                j <= lr.evidence@.len(),
                views(lines@) =~= mid + lr@.evidence.take(j as int).map_values(
                    |e: EvidenceModel| evidence_record(lr@.layer, e),
                ),
            decreases lr.evidence@.len() - j,
        {
            let e = &lr.evidence[j];
            let mut l = lit("evidence ");
            append_str(&mut l, layer_key_text(lr.layer));
            append_str(&mut l, " ");
            append_str(&mut l, source_label(e.source));
            append_str(&mut l, " ");
            append_str(&mut l, e.raw.as_str());
            let ghost before = lines@;
            lines.push(l);
            assert(views(lines@) =~= views(before).push(l@));
            assert(lr@.evidence[j as int] == e@);
            assert(lr@.evidence.take(j + 1).map_values(|e: EvidenceModel| evidence_record(lr@.layer, e))
                =~= lr@.evidence.take(j as int).map_values(
                |e: EvidenceModel| evidence_record(lr@.layer, e),
            ).push(evidence_record(lr@.layer, lr@.evidence[j as int])));
            j += 1;
        }
        assert(lr@.evidence.take(lr.evidence@.len() as int) =~= lr@.evidence);
        assert(m.layer_results.take(i + 1).drop_last() =~= m.layer_results.take(i as int));
        assert(m.layer_results.take(i + 1).last() == lr@);
        i += 1;
    }
    assert(m.layer_results.take(n as int) =~= m.layer_results);
    match &report.cross_check {
        Some(cc) => {
            let mut l = lit("crosscheck ");
            append_str(&mut l, if cc.agree { "agree" } else { "disagree" });
            append_str(&mut l, " ");
            match &cc.message {
                Some(msg) => append_str(&mut l, msg.as_str()),
                None => append_str(
                    &mut l,
                    if cc.agree {
                        "model and kernel concur"
                    } else {
                        "model and kernel disagree"
                    },
                ),
            }
            let ghost before = lines@;
            lines.push(l);
            assert(views(lines@) =~= views(before).push(l@));
        },
        None => {},
    }
    let ghost p2 = views(lines@);
    let mut k: usize = 0;
    while k < report.fixes.len()
        invariant
            m == report@,
            m.fixes.len() == report.fixes@.len(),
            k <= report.fixes@.len(),
            views(lines@) =~= p2 + m.fixes.take(k as int).map_values(|f: FixModel| fix_record(f)),
        decreases report.fixes@.len() - k,
    {
        let f = &report.fixes[k];
        assert(m.fixes[k as int] == f@);
        let mut l = lit("fix ");
        append_str(&mut l, f.risk.word());
        append_str(&mut l, " ");
        append_str(&mut l, if f.is_run() { "run" } else { "advice" });
        append_str(&mut l, " ");
        append_str(&mut l, f.display().as_str());
        let ghost before = lines@;
        lines.push(l);
        assert(views(lines@) =~= views(before).push(l@));
        assert(m.fixes.take(k + 1).map_values(|f: FixModel| fix_record(f)) =~= m.fixes.take(
            k as int,
        ).map_values(|f: FixModel| fix_record(f)).push(fix_record(m.fixes[k as int])));
        k += 1;
    }
    assert(m.fixes.take(m.fixes.len() as int) =~= m.fixes);
    let ghost p3 = views(lines@);
    let mut k: usize = 0;
    while k < report.warnings.len()
        invariant
            m == report@,
            m.warnings.len() == report.warnings@.len(),
            k <= report.warnings@.len(),
            views(lines@) =~= p3 + m.warnings.take(k as int).map_values(
                |w: Seq<char>| "warning "@ + w,
            ),
        decreases report.warnings@.len() - k,
    {
        let mut l = lit("warning ");
        append_str(&mut l, report.warnings[k].as_str());
        assert(m.warnings[k as int] == report.warnings@[k as int]@);
        let ghost before = lines@;
        lines.push(l);
        assert(views(lines@) =~= views(before).push(l@));
        assert(m.warnings.take(k + 1).map_values(|w: Seq<char>| "warning "@ + w) =~= m.warnings.take(
            k as int,
        ).map_values(|w: Seq<char>| "warning "@ + w).push("warning "@ + m.warnings[k as int]));
        k += 1;
    }
    assert(m.warnings.take(m.warnings.len() as int) =~= m.warnings);
    assert(views(lines@) =~= plain_lines(m));
    join_strings(&lines, "\n")
}

// ---------------------------------------------------------------------
// ASCII records
// ---------------------------------------------------------------------

pub open spec fn result_text_ascii(lr: LayerResultModel) -> bool {
    forall|j: int| 0 <= j < lr.evidence.len() ==> is_ascii_text(#[trigger] lr.evidence[j].raw)
}

/// A report whose own text is ASCII: the path, culprit, evidence lines,
/// cross-check message, fixes and warnings.
pub open spec fn report_text_ascii(r: ReportModel) -> bool {
    &&& is_ascii_text(r.path)
    &&& (r.culprit matches Some(c) ==> is_ascii_text(c))
    &&& forall|i: int| 0 <= i < r.layer_results.len() ==> result_text_ascii(#[trigger] r.layer_results[i])
    &&& (r.cross_check matches Some(cc) ==> (cc.message matches Some(m) ==> is_ascii_text(m)))
    &&& forall|i: int| 0 <= i < r.fixes.len() ==> fix_text_ascii(#[trigger] r.fixes[i])
    &&& forall|i: int| 0 <= i < r.warnings.len() ==> is_ascii_text(#[trigger] r.warnings[i])
}

proof fn lemma_words_ascii(v: Verdict, op: Op, l: LayerId, s: EvidenceSource, k: Risk)
    ensures
        is_ascii_text(verdict_key(v)),
        is_ascii_text(op_word(op)),
        is_ascii_text(layer_key(l)),
        is_ascii_text(source_label_spec(s)),
        is_ascii_text(risk_word(k)),
{
    reveal_strlit("allowed");
    reveal_strlit("blocked");
    reveal_strlit("indeterminate");
    reveal_strlit("target_error");
    reveal_strlit("read");
    reveal_strlit("write");
    reveal_strlit("exec");
    reveal_strlit("traverse");
    reveal_strlit("delete");
    reveal_strlit("create");
    reveal_strlit("existence");
    reveal_strlit("dac");
    reveal_strlit("acl");
    reveal_strlit("attrs");
    reveal_strlit("mount");
    reveal_strlit("capabilities");
    reveal_strlit("mac");
    reveal_strlit("macos_sip");
    reveal_strlit("network_fs");
    reveal_strlit("container");
    reveal_strlit("ls -ld");
    reveal_strlit("getfacl");
    reveal_strlit("lsattr");
    reveal_strlit("selinux");
    reveal_strlit("apparmor");
    reveal_strlit("audit");
    reveal_strlit("statvfs");
    reveal_strlit("getcap");
    reveal_strlit("namespace");
    reveal_strlit("xattr");
    reveal_strlit("stat");
    reveal_strlit("low");
    reveal_strlit("medium");
    reveal_strlit("high");
}

proof fn lemma_evidence_records_ascii(rs: Seq<LayerResultModel>)
    requires
        forall|i: int| 0 <= i < rs.len() ==> result_text_ascii(#[trigger] rs[i]),
    ensures
        forall|i: int| 0 <= i < evidence_records(rs).len() ==> is_ascii_text(#[trigger] evidence_records(rs)[i]),
    decreases rs.len(),
{
    if rs.len() > 0 {
        let init = rs.drop_last();
        assert forall|i: int| 0 <= i < init.len() implies result_text_ascii(#[trigger] init[i]) by {
            assert(init[i] == rs[i]);
        }
        lemma_evidence_records_ascii(init);
        let lr = rs.last();
        assert(result_text_ascii(lr));
        let tail = lr.evidence.map_values(|e: EvidenceModel| evidence_record(lr.layer, e));
        assert forall|j: int| 0 <= j < tail.len() implies is_ascii_text(#[trigger] tail[j]) by {
            let e = lr.evidence[j];
            assert(is_ascii_text(e.raw));
            lemma_words_ascii(Verdict::Allowed, Op::Read, lr.layer, e.source, Risk::Low);
            reveal_strlit("evidence ");
            reveal_strlit(" ");
            lemma_ascii_concat("evidence "@, layer_key(lr.layer));
            lemma_ascii_concat("evidence "@ + layer_key(lr.layer), " "@);
            lemma_ascii_concat("evidence "@ + layer_key(lr.layer) + " "@, source_label_spec(e.source));
            lemma_ascii_concat("evidence "@ + layer_key(lr.layer) + " "@ + source_label_spec(e.source), " "@);
            lemma_ascii_concat(
                "evidence "@ + layer_key(lr.layer) + " "@ + source_label_spec(e.source) + " "@,
                e.raw,
            );
        }
        let all = evidence_records(init) + tail;
        assert(evidence_records(rs) == all);
        assert forall|i: int| 0 <= i < all.len() implies is_ascii_text(#[trigger] all[i]) by {
            if i < evidence_records(init).len() {
                assert(all[i] == evidence_records(init)[i]);
            } else {
                assert(all[i] == tail[i - evidence_records(init).len()]);
            }
        }
    }
}

/// The plain report is ASCII whenever the report's own text is: every word
/// and mark it adds is ASCII.
pub proof fn plain_is_ascii_law(r: ReportModel)
    requires
        report_text_ascii(r),
    ensures
        is_ascii_text(render_plain_spec(r)),
{
    reveal_strlit("verdict ");
    reveal_strlit(" ");
    reveal_strlit("culprit ");
    reveal_strlit("crosscheck ");
    reveal_strlit("agree");
    reveal_strlit("disagree");
    reveal_strlit("model and kernel concur");
    reveal_strlit("model and kernel disagree");
    reveal_strlit("fix ");
    reveal_strlit("run");
    reveal_strlit("advice");
    reveal_strlit("warning ");
    reveal_strlit("\n");
    lemma_words_ascii(r.verdict, r.op, LayerId::Dac, EvidenceSource::LsLd, Risk::Low);
    let head = "verdict "@ + verdict_key(r.verdict) + " "@ + op_word(r.op) + " "@ + r.path;
    lemma_ascii_concat("verdict "@, verdict_key(r.verdict));
    lemma_ascii_concat("verdict "@ + verdict_key(r.verdict), " "@);
    lemma_ascii_concat("verdict "@ + verdict_key(r.verdict) + " "@, op_word(r.op));
    lemma_ascii_concat("verdict "@ + verdict_key(r.verdict) + " "@ + op_word(r.op), " "@);
    lemma_ascii_concat("verdict "@ + verdict_key(r.verdict) + " "@ + op_word(r.op) + " "@, r.path);
    let culprit = match r.culprit {
        Some(c) => seq!["culprit "@ + c],
        None => seq![],
    };
    match r.culprit {
        Some(c) => lemma_ascii_concat("culprit "@, c),
        None => {},
    }
    lemma_evidence_records_ascii(r.layer_results);
    let ev = evidence_records(r.layer_results);
    let cc = match r.cross_check {
        Some(c) => seq![crosscheck_record(c)],
        None => seq![],
    };
    match r.cross_check {
        Some(c) => {
            let word = if c.agree {
                "agree"@
            } else {
                "disagree"@
            };
            let msg = match c.message {
                Some(m) => m,
                None => if c.agree {
                    "model and kernel concur"@
                } else {
                    "model and kernel disagree"@
                },
            };
            lemma_ascii_concat("crosscheck "@, word);
            lemma_ascii_concat("crosscheck "@ + word, " "@);
            lemma_ascii_concat("crosscheck "@ + word + " "@, msg);
        },
        None => {},
    }
    let fixes = r.fixes.map_values(|f: FixModel| fix_record(f));
    assert forall|i: int| 0 <= i < fixes.len() implies is_ascii_text(#[trigger] fixes[i]) by {
        let f = r.fixes[i];
        assert(fix_text_ascii(f));
        lemma_display_ascii(f);
        lemma_words_ascii(r.verdict, r.op, LayerId::Dac, EvidenceSource::LsLd, f.risk);
        let kind = match f.action {
            FixActionModel::Run { .. } => "run"@,
            FixActionModel::Advice { .. } => "advice"@,
        };
        lemma_ascii_concat("fix "@, risk_word(f.risk));
        lemma_ascii_concat("fix "@ + risk_word(f.risk), " "@);
        lemma_ascii_concat("fix "@ + risk_word(f.risk) + " "@, kind);
        lemma_ascii_concat("fix "@ + risk_word(f.risk) + " "@ + kind, " "@);
        lemma_ascii_concat("fix "@ + risk_word(f.risk) + " "@ + kind + " "@, display_spec(f));
    }
    let warns = r.warnings.map_values(|w: Seq<char>| "warning "@ + w);
    assert forall|i: int| 0 <= i < warns.len() implies is_ascii_text(#[trigger] warns[i]) by {
        assert(is_ascii_text(r.warnings[i]));
        lemma_ascii_concat("warning "@, r.warnings[i]);
    }
    let lines = plain_lines(r);
    assert(lines == seq![head] + culprit + ev + cc + fixes + warns);
    assert forall|i: int| 0 <= i < lines.len() implies is_ascii_text(#[trigger] lines[i]) by {
        let a = seq![head];
        let b = a + culprit;
        let c = b + ev;
        let d = c + cc;
        let e = d + fixes;
        if i < a.len() {
            assert(lines[i] == head);
        } else if i < b.len() {
            assert(lines[i] == culprit[i - a.len()]);
        } else if i < c.len() {
            assert(lines[i] == ev[i - b.len()]);
        } else if i < d.len() {
            assert(lines[i] == cc[i - c.len()]);
        } else if i < e.len() {
            assert(lines[i] == fixes[i - d.len()]);
        } else {
            assert(lines[i] == warns[i - e.len()]);
        }
    }
    lemma_ascii_join(lines, "\n"@);
}

} // verus!
