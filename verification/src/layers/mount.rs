//! The mount layer: a read-only mount refuses every op that modifies the
//! filesystem, a noexec mount refuses exec; nothing else is decided here.

use vstd::prelude::*;
use vstd::string::*;
use vstd::utf8::{decode_utf8, encode_utf8, valid_utf8};
use crate::engine::{block_model, skip_model, Layer, LayerResult, LayerResultModel, LayerStatus};
use crate::facts::{Facts, MountProbe};
use crate::identity::Identity;
use crate::op::Op;
use crate::paths::{parent_of, parent_of_spec};
use crate::report::{
    Certainty, Evidence, EvidenceModel, EvidenceSource, Fix, FixAction, FixActionModel, FixModel,
    LayerId, Risk, fix_models, evidence_models, opt_view,
};
use crate::text::{
    append_str, chars_of, from_chars, join, lit, lines, split_lines, split_words, views, words,
};

verus! {

pub struct MountLayer;

/// What is known of the mount holding the target.
pub struct MountInfo {
    pub ro: bool,
    pub noexec: bool,
    pub nosuid: bool,
    pub nodev: bool,
    pub mountpoint: String,
    pub source: Option<String>,
    pub fstype: Option<String>,
    pub options: Option<String>,
}

pub ghost struct MountInfoModel {
    pub ro: bool,
    pub noexec: bool,
    pub nosuid: bool,
    pub nodev: bool,
    pub mountpoint: Seq<char>,
    pub source: Option<Seq<char>>,
    pub fstype: Option<Seq<char>>,
    pub options: Option<Seq<char>>,
}

impl View for MountInfo {
    type V = MountInfoModel;

    open spec fn view(&self) -> MountInfoModel {
        MountInfoModel {
            ro: self.ro,
            noexec: self.noexec,
            nosuid: self.nosuid,
            nodev: self.nodev,
            mountpoint: self.mountpoint@,
            source: opt_view(self.source),
            fstype: opt_view(self.fstype),
            options: opt_view(self.options),
        }
    }
}

/// The options as the mount table lists them, or else as the flags spell them.
pub open spec fn opts_text(m: MountInfoModel) -> Seq<char> {
    match m.options {
        Some(o) => o,
        None => join(
            seq![if m.ro {
                "ro"@
            } else {
                "rw"@
            }] + (if m.noexec {
                seq!["noexec"@]
            } else {
                seq![]
            }) + (if m.nosuid {
                seq!["nosuid"@]
            } else {
                seq![]
            }) + (if m.nodev {
                seq!["nodev"@]
            } else {
                seq![]
            }),
            ","@,
        ),
    }
}

pub open spec fn or_question(o: Option<Seq<char>>) -> Seq<char> {
    match o {
        Some(s) => s,
        None => "?"@,
    }
}

/// `<source> on <mountpoint> type <fstype> (<options>)`, quoted from the
/// mount table when it was read, else from `statvfs`.
pub open spec fn mount_evidence(m: MountInfoModel) -> EvidenceModel {
    EvidenceModel {
        source: if m.options is Some {
            EvidenceSource::MountOpts
        } else {
            EvidenceSource::Statvfs
        },
        raw: or_question(m.source) + " on "@ + m.mountpoint + " type "@ + or_question(m.fstype)
            + " ("@ + opts_text(m) + ")"@,
        path: Some(m.mountpoint),
    }
}

impl MountInfo {
    pub fn opts_string(&self) -> (r: String)
        ensures
            r@ == opts_text(self@),
    {
        match &self.options {
            Some(o) => o.clone(),
            None => {
                let mut parts: Vec<String> = Vec::new();
                parts.push(
                    if self.ro {
                        lit("ro")
                    } else {
                        lit("rw")
                    },
                );
                if self.noexec {
                    parts.push(lit("noexec"));
                }
                if self.nosuid {
                    parts.push(lit("nosuid"));
                }
                if self.nodev {
                    parts.push(lit("nodev"));
                }
                let r = crate::text::join_strings(&parts, ",");
                assert(views(parts@) =~= seq![if self.ro {
                    "ro"@
                } else {
                    "rw"@
                }] + (if self.noexec {
                    seq!["noexec"@]
                } else {
                    seq![]
                }) + (if self.nosuid {
                    seq!["nosuid"@]
                } else {
                    seq![]
                }) + (if self.nodev {
                    seq!["nodev"@]
                } else {
                    seq![]
                }));
                r
            },
        }
    }

    pub fn evidence(&self) -> (r: Evidence)
        ensures
            r@ == mount_evidence(self@),
    {
        let mut raw = match &self.source {
            Some(s) => s.clone(),
            None => lit("?"),
        };
        append_str(&mut raw, " on ");
        append_str(&mut raw, self.mountpoint.as_str());
        append_str(&mut raw, " type ");
        match &self.fstype {
            Some(f) => append_str(&mut raw, f.as_str()),
            None => append_str(&mut raw, "?"),
        }
        append_str(&mut raw, " (");
        append_str(&mut raw, self.opts_string().as_str());
        append_str(&mut raw, ")");
        Evidence {
            source: if self.options.is_some() {
                EvidenceSource::MountOpts
            } else {
                EvidenceSource::Statvfs
            },
            raw,
            path: Some(self.mountpoint.clone()),
        }
    }
}

// ---------------------------------------------------------------------
// Deciding
// ---------------------------------------------------------------------

pub open spec fn op_word_spec(op: Op) -> Seq<char> {
    match op {
        Op::Read => "read"@,
        Op::Write => "write"@,
        Op::Exec => "execute"@,
        Op::Traverse => "traverse"@,
        Op::Delete => "delete"@,
        Op::Create => "create"@,
    }
}

pub(crate) fn op_word(op: Op) -> (r: &'static str)
    ensures
        r@ == op_word_spec(op),
{
    match op {
        Op::Read => "read",
        Op::Write => "write",
        Op::Exec => "execute",
        Op::Traverse => "traverse",
        Op::Delete => "delete",
        Op::Create => "create",
    }
}

pub open spec fn remount_model(mnt: Seq<char>, flag: Seq<char>) -> FixModel {
    FixModel {
        action: FixActionModel::Run { argv: seq!["mount"@, "-o"@, "remount,"@ + flag, mnt] },
        needs_root: true,
        description: "remount "@ + mnt + " with "@ + flag,
        risk: Risk::High,
        rationale: "remounts the filesystem"@,
    }
}

fn remount_fix(mnt: &str, flag: &str) -> (r: Fix)
    ensures
        r@ == remount_model(mnt@, flag@),
{
    let mut opt = lit("remount,");
    append_str(&mut opt, flag);
    let mut argv: Vec<String> = Vec::new();
    argv.push(lit("mount"));
    argv.push(lit("-o"));
    argv.push(opt);
    argv.push(lit(mnt));
    assert(views(argv@) =~= seq!["mount"@, "-o"@, "remount,"@ + flag@, mnt@]);
    let mut desc = lit("remount ");
    append_str(&mut desc, mnt);
    append_str(&mut desc, " with ");
    append_str(&mut desc, flag);
    Fix {
        action: FixAction::Run { argv },
        needs_root: true,
        description: desc,
        risk: Risk::High,
        rationale: lit("remounts the filesystem"),
    }
}

pub open spec fn relocate_model() -> FixModel {
    FixModel {
        action: FixActionModel::Advice { text: "run from a filesystem without noexec"@ },
        needs_root: false,
        description: "run from an exec-mounted filesystem"@,
        risk: Risk::Low,
        rationale: "avoids weakening the mount"@,
    }
}

fn relocate_advice() -> (r: Fix)
    ensures
        r@ == relocate_model(),
{
    Fix {
        action: FixAction::Advice { text: lit("run from a filesystem without noexec") },
        needs_root: false,
        description: lit("run from an exec-mounted filesystem"),
        risk: Risk::Low,
        rationale: lit("avoids weakening the mount"),
    }
}

pub open spec fn modifies(op: Op) -> bool {
    op == Op::Write || op == Op::Delete || op == Op::Create
}

/// A read-only mount blocks write, delete and create; a noexec mount blocks
/// exec; every other case is not this layer's to decide.
pub open spec fn evaluate_spec(m: MountInfoModel, op: Op) -> LayerResultModel {
    if modifies(op) && m.ro {
        block_model(
            Certainty::Proven,
            m.mountpoint + " mounted read-only; "@ + op_word_spec(op) + " refused"@,
            seq![mount_evidence(m)],
            seq![remount_model(m.mountpoint, "rw"@)],
        )
    } else if op == Op::Exec && m.noexec {
        block_model(
            Certainty::Proven,
            m.mountpoint + " mounted noexec; exec refused"@,
            seq![mount_evidence(m)],
            seq![relocate_model(), remount_model(m.mountpoint, "exec"@)],
        )
    } else {
        skip_model()
    }
}

pub fn evaluate(info: &MountInfo, _path: &str, op: Op) -> (r: LayerResult)
    ensures
        r@ == evaluate_spec(info@, op),
{
    let ev = info.evidence();
    if (op == Op::Write || op == Op::Delete || op == Op::Create) && info.ro {
        let mut detail = info.mountpoint.clone();
        append_str(&mut detail, " mounted read-only; ");
        append_str(&mut detail, op_word(op));
        append_str(&mut detail, " refused");
        let mut evs: Vec<Evidence> = Vec::new();
        evs.push(ev);
        let mut fixes: Vec<Fix> = Vec::new();
        fixes.push(remount_fix(info.mountpoint.as_str(), "rw"));
        assert(evidence_models(evs@) =~= seq![mount_evidence(info@)]);
        assert(fix_models(fixes@) =~= seq![remount_model(info@.mountpoint, "rw"@)]);
        LayerResult::block(Certainty::Proven, detail, evs, fixes)
    } else if op == Op::Exec && info.noexec {
        let mut detail = info.mountpoint.clone();
        append_str(&mut detail, " mounted noexec; exec refused");
        let mut evs: Vec<Evidence> = Vec::new();
        evs.push(ev);
        let mut fixes: Vec<Fix> = Vec::new();
        fixes.push(relocate_advice());
        fixes.push(remount_fix(info.mountpoint.as_str(), "exec"));
        assert(evidence_models(evs@) =~= seq![mount_evidence(info@)]);
        assert(fix_models(fixes@) =~= seq![
            relocate_model(),
            remount_model(info@.mountpoint, "exec"@),
        ]);
        LayerResult::block(Certainty::Proven, detail, evs, fixes)
    } else {
        LayerResult::skip()
    }
}

/// A read-only mount refuses exactly the ops that modify; a noexec mount
/// refuses exactly exec; a mount with neither flag never blocks.
pub proof fn mount_law(m: MountInfoModel, op: Op)
    ensures
        m.ro && !m.noexec ==> (evaluate_spec(m, op).status == LayerStatus::Block <==> modifies(
            op,
        )),
        !m.ro && m.noexec ==> (evaluate_spec(m, op).status == LayerStatus::Block <==> op
            == Op::Exec),
        !m.ro && !m.noexec ==> evaluate_spec(m, op) == skip_model(),
        evaluate_spec(m, op).status == LayerStatus::Block ==> evaluate_spec(m, op).certainty
            == Certainty::Proven,
{
}


// ---------------------------------------------------------------------
// The mount point
// ---------------------------------------------------------------------

/// The node whose mount the layer asks about: for a create, the parent
/// directory that will hold the new entry (the target does not exist yet);
/// for every other op, the target.
pub open spec fn mount_subject_spec(op: Op, path: Seq<char>) -> Seq<char> {
    if op == Op::Create {
        parent_of_spec(path)
    } else {
        path
    }
}

pub fn mount_subject(op: Op, path: &str) -> (r: String)
    ensures
        r@ == mount_subject_spec(op, path@),
{
    if op == Op::Create {
        parent_of(path)
    } else {
        lit(path)
    }
}

/// Whether the first `k + 1` devices are all the target's own.
pub open spec fn same_device_up_to(devs: Seq<Option<u64>>, k: int) -> bool {
    forall|i: int| 0 <= i <= k ==> #[trigger] devs[i] == devs[0]
}

/// How far above the target its mount point stands, given the device of
/// the target (`devs[0]`) and of each ancestor in turn, nearest first
/// (`None` where it could not be read): the climb goes on while the device
/// stays the target's, and the mount point is the last node reached.
pub fn mount_climb(devs: &Vec<Option<u64>>) -> (r: usize)
    ensures
        devs@.len() == 0 ==> r == 0,
        devs@.len() > 0 ==> {
            &&& r < devs@.len()
            &&& same_device_up_to(devs@, r as int)
            &&& r + 1 < devs@.len() ==> devs@[r + 1] != devs@[0]
        },
{
    if devs.len() == 0 {
        return 0;
    }
    let mut k: usize = 0;
    while k < devs.len() - 1 && devs[k + 1] == devs[0]
        invariant
            0 < devs@.len(),
            k < devs@.len(),
            same_device_up_to(devs@, k as int),
        decreases devs@.len() - k,
    {
        k += 1;
    }
    k
}

// ---------------------------------------------------------------------
// The mount table
// ---------------------------------------------------------------------

/// What `String::from_utf8_lossy` makes of a byte string.
pub uninterp spec fn spec_utf8_lossy(b: Seq<u8>) -> Seq<char>;

/// `String::from_utf8_lossy`: the text of valid UTF-8, with each invalid
/// sequence replaced by U+FFFD. The contract states the valid case exactly
/// and names the result otherwise.
#[verifier::external_body]
fn utf8_lossy(b: &[u8]) -> (r: String)
    ensures
        r@ == spec_utf8_lossy(b@),
        valid_utf8(b@) ==> r@ == decode_utf8(b@),
{
    String::from_utf8_lossy(b).into_owned()
}

pub open spec fn is_octal(b: u8) -> bool {
    48 <= b <= 55
}

/// `u8::from_str_radix(t, 8)` for a three-byte `t`: three octal digits whose
/// value fits a byte, or `+` and two octal digits.
pub open spec fn octal3(b0: u8, b1: u8, b2: u8) -> Option<u8> {
    if is_octal(b0) && is_octal(b1) && is_octal(b2) {
        let v = (b0 - 48) * 64 + (b1 - 48) * 8 + (b2 - 48);
        if v <= 255 {
            Some(v as u8)
        } else {
            None
        }
    } else if b0 == 43 && is_octal(b1) && is_octal(b2) {
        Some(((b1 - 48) * 8 + (b2 - 48)) as u8)
    } else {
        None
    }
}

/// The mount table's escapes decoded from byte `i` on: a backslash and
/// three bytes that read as an octal byte stand for that byte.
pub open spec fn unescape_from(b: Seq<u8>, i: int) -> Seq<u8>
    decreases b.len() - i,
{
    if i < 0 || i >= b.len() {
        seq![]
    } else if b[i] == 92 && i + 3 < b.len() && octal3(b[i + 1], b[i + 2], b[i + 3]) is Some {
        seq![octal3(b[i + 1], b[i + 2], b[i + 3])->0] + unescape_from(b, i + 4)
    } else {
        seq![b[i]] + unescape_from(b, i + 1)
    }
}

/// A mount-table field as the path it stands for.
pub open spec fn unescape_spec(s: Seq<char>) -> Seq<char> {
    spec_utf8_lossy(unescape_from(encode_utf8(s), 0))
}

fn octal3_exec(b0: u8, b1: u8, b2: u8) -> (r: Option<u8>)
    ensures
        r == octal3(b0, b1, b2),
{
    let o = |b: u8| -> (r: bool)
        ensures
            r == is_octal(b),
        { 48 <= b && b <= 55 };
    if o(b0) && o(b1) && o(b2) {
        let v: u32 = ((b0 - 48) as u32) * 64 + ((b1 - 48) as u32) * 8 + ((b2 - 48) as u32);
        if v <= 255 {
            Some(v as u8)
        } else {
            None
        }
    } else if b0 == 43 && o(b1) && o(b2) {
        Some(((b1 - 48) * 8 + (b2 - 48)) as u8)
    } else {
        None
    }
}

/// Decodes the octal escapes (`\040` for a space) of a mount-table field.
pub fn unescape(s: &str) -> (r: String)
    ensures
        r@ == unescape_spec(s@),
{
    let b = s.as_bytes();
    let mut out: Vec<u8> = Vec::new();
    let mut i: usize = 0;
    while i < b.len()
        invariant
            b@ == encode_utf8(s@),
            i <= b@.len(),
            unescape_from(b@, 0) == out@ + unescape_from(b@, i as int),
        decreases b@.len() - i,
    {
        let ghost before = out@;
        if b[i] == 92 && b.len() - i > 3 {
            match octal3_exec(b[i + 1], b[i + 2], b[i + 3]) {
                Some(v) => {
                    out.push(v);
                    assert(before + unescape_from(b@, i as int) =~= out@ + unescape_from(
                        b@,
                        i + 4,
                    ));
                    i += 4;
                    continue;
                },
                None => {},
            }
        }
        out.push(b[i]);
        assert(before + unescape_from(b@, i as int) =~= out@ + unescape_from(b@, i + 1));
        i += 1;
    }
    assert(out@ =~= out@ + unescape_from(b@, i as int));
    utf8_lossy(out.as_slice())
}

/// The first index at or after `i` where `" - "` starts (`str::find`).
pub open spec fn find_sep(s: Seq<char>, i: int) -> Option<int>
    decreases s.len() - i,
{
    if i < 0 || i + 3 > s.len() {
        None
    } else if s[i] == ' ' && s[i + 1] == '-' && s[i + 2] == ' ' {
        Some(i)
    } else {
        find_sep(s, i + 1)
    }
}

/// A mount-table line: mount point and options (fields 5 and 6 before the
/// ` - ` separator) and the filesystem type and source after it.
pub ghost struct MountLine {
    pub point: Seq<char>,
    pub opts: Seq<char>,
    pub fstype: Option<Seq<char>>,
    pub source: Option<Seq<char>>,
}

pub open spec fn parse_mount_line(line: Seq<char>) -> Option<MountLine> {
    match find_sep(line, 0) {
        None => None,
        Some(sep) => {
            let lf = words(line.take(sep));
            let rf = words(line.skip(sep + 3));
            if lf.len() < 6 {
                None
            } else {
                Some(
                    MountLine {
                        point: lf[4],
                        opts: lf[5],
                        fstype: if rf.len() > 0 {
                            Some(rf[0])
                        } else {
                            None
                        },
                        source: if rf.len() > 1 {
                            Some(rf[1])
                        } else {
                            None
                        },
                    },
                )
            }
        },
    }
}

/// The mount information after reading the first `n` table lines: every
/// line whose unescaped mount point is `mp` sets the options, type and
/// source, so the last such line wins.
pub open spec fn enrich_spec(ls: Seq<Seq<char>>, n: int, mp: Seq<char>, m: MountInfoModel) -> MountInfoModel
    decreases n,
{
    if n <= 0 {
        m
    } else {
        let prev = enrich_spec(ls, n - 1, mp, m);
        match parse_mount_line(ls[n - 1]) {
            Some(l) => if unescape_spec(l.point) == mp {
                MountInfoModel {
                    options: Some(l.opts),
                    fstype: l.fstype,
                    source: l.source,
                    ..prev
                }
            } else {
                prev
            },
            None => prev,
        }
    }
}

fn find_sep_exec(s: &Vec<char>) -> (r: Option<usize>)
    ensures
        r matches Some(i) ==> find_sep(s@, 0) == Some(i as int) && i + 3 <= s@.len(),
        r is None ==> find_sep(s@, 0) is None,
{
    let mut i: usize = 0;
    while i < s.len() && s.len() - i >= 3
        invariant
            find_sep(s@, 0) == find_sep(s@, i as int),
            i <= s@.len(),
        decreases s@.len() - i,
    {
        if s[i] == ' ' && s[i + 1] == '-' && s[i + 2] == ' ' {
            return Some(i);
        }
        i += 1;
    }
    None
}

fn sub_chars(s: &Vec<char>, from: usize, to: usize) -> (r: Vec<char>)
    requires
        from <= to <= s@.len(),
    ensures
        r@ == s@.subrange(from as int, to as int),
{
    let mut out: Vec<char> = Vec::new();
    let mut k = from;
    while k < to
        invariant
            from <= k <= to <= s@.len(),
            out@ =~= s@.subrange(from as int, k as int),
        decreases to - k,
    {
        out.push(s[k]);
        k += 1;
    }
    out
}

fn parse_line_exec(line: &Vec<char>) -> (r: Option<(String, String, Option<String>, Option<String>)>)
    ensures
        match parse_mount_line(line@) {
            Some(l) => r matches Some((p, o, f, src)) && p@ == l.point && o@ == l.opts && opt_view(
                f,
            ) == l.fstype && opt_view(src) == l.source,
            None => r is None,
        },
{
    let found = find_sep_exec(line);
    if found.is_none() {
        return None;
    }
    let sep = found.unwrap();
    let len = line.len();
    assert(sep + 3 <= len);
    let left = sub_chars(line, 0, sep);
    assert(left@ =~= line@.take(sep as int));
    let right = sub_chars(line, sep + 3, len);
    assert(right@ =~= line@.skip(sep + 3));
    let lf = split_words(left.as_slice());
    let rf = split_words(right.as_slice());
    if lf.len() < 6 {
        return None;
    }
    assert(lf@[4]@ == words(line@.take(sep as int))[4]);
    assert(lf@[5]@ == words(line@.take(sep as int))[5]);
    let point = from_chars(lf[4].as_slice());
    let opts = from_chars(lf[5].as_slice());
    let fstype = if rf.len() > 0 {
        assert(rf@[0]@ == words(line@.skip(sep + 3))[0]);
        Some(from_chars(rf[0].as_slice()))
    } else {
        None
    };
    let source = if rf.len() > 1 {
        assert(rf@[1]@ == words(line@.skip(sep + 3))[1]);
        Some(from_chars(rf[1].as_slice()))
    } else {
        None
    };
    Some((point, opts, fstype, source))
}

/// Fills in the options, type and source of the mount at `mountpoint` from
/// the text of `/proc/self/mountinfo`.
pub fn enrich_linux(mountpoint: &str, data: &str, info: &mut MountInfo)
    ensures
        final(info)@ == enrich_spec(lines(data@), lines(data@).len() as int, mountpoint@, old(info)@),
{
    let d = chars_of(data);
    let ls = split_lines(d.as_slice());
    let ghost lm = ls@.map_values(|l: Vec<char>| l@);
    let ghost start = info@;
    let mut i: usize = 0;
    while i < ls.len()
        invariant
            lm == ls@.map_values(|l: Vec<char>| l@),
            lm == lines(data@),
            i <= ls@.len(),
            info@ == enrich_spec(lm, i as int, mountpoint@, start),
        decreases ls@.len() - i,
    {
        assert(lm[i as int] == ls@[i as int]@);
        match parse_line_exec(&ls[i]) {
            Some((point, opts, fstype, source)) => {
                let u = unescape(point.as_str());
                if u == lit(mountpoint) {
                    info.options = Some(opts);
                    info.fstype = fstype;
                    info.source = source;
                }
            },
            None => {},
        }
        i += 1;
    }
}

/// The mount information `statvfs` and the mount table give, or the
/// `statvfs` failure text.
pub open spec fn read_mount_spec(p: MountProbe) -> Result<MountInfoModel, Seq<char>> {
    match p {
        MountProbe::Failed { text } => Err(text@),
        MountProbe::Read { flags, mountpoint, mountinfo } => {
            let base = MountInfoModel {
                ro: flags.ro,
                noexec: flags.noexec,
                nosuid: flags.nosuid,
                nodev: flags.nodev,
                mountpoint: mountpoint@,
                source: None,
                fstype: None,
                options: None,
            };
            match mountinfo {
                Some(d) => Ok(enrich_spec(lines(d@), lines(d@).len() as int, mountpoint@, base)),
                None => Ok(base),
            }
        },
    }
}

pub(crate) fn read_mount(p: &MountProbe) -> (r: Result<MountInfo, String>)
    ensures
        match read_mount_spec(*p) {
            Ok(m) => r matches Ok(info) && info@ == m,
            Err(t) => r matches Err(e) && e@ == t,
        },
{
    match p {
        MountProbe::Failed { text } => Err(text.clone()),
        MountProbe::Read { flags, mountpoint, mountinfo } => {
            let mut info = MountInfo {
                ro: flags.ro,
                noexec: flags.noexec,
                nosuid: flags.nosuid,
                nodev: flags.nodev,
                mountpoint: mountpoint.clone(),
                source: None,
                fstype: None,
                options: None,
            };
            match mountinfo {
                Some(d) => enrich_linux(mountpoint.as_str(), d.as_str(), &mut info),
                None => {},
            }
            Ok(info)
        },
    }
}

pub open spec fn mount_check_spec(facts: Facts, op: Op) -> LayerResultModel {
    match read_mount_spec(facts.mount) {
        Ok(m) => evaluate_spec(m, op),
        Err(t) => LayerResultModel {
            status: LayerStatus::Error,
            certainty: Certainty::Proven,
            evidence: seq![],
            fixes: seq![],
            detail: "statvfs failed: "@ + t,
        },
    }
}

impl Layer for MountLayer {
    open spec fn spec_name(&self) -> Seq<char> {
        "mount"@
    }

    open spec fn spec_order(&self) -> u8 {
        6
    }

    open spec fn spec_id(&self) -> LayerId {
        LayerId::Mount
    }

    open spec fn spec_check(&self, target: Identity, facts: Facts, op: Op) -> LayerResultModel {
        mount_check_spec(facts, op)
    }

    fn name(&self) -> (r: String) {
        lit("mount")
    }

    fn order(&self) -> (r: u8) {
        6
    }

    fn id(&self) -> (r: LayerId) {
        LayerId::Mount
    }

    fn check(&self, _target: &Identity, facts: &Facts, op: Op) -> (r: LayerResult) {
        match read_mount(&facts.mount) {
            Ok(info) => evaluate(&info, facts.path.as_str(), op),
            Err(e) => {
                let mut detail = lit("statvfs failed: ");
                append_str(&mut detail, e.as_str());
                let r = LayerResult {
                    status: LayerStatus::Error,
                    certainty: Certainty::Proven,
                    evidence: Vec::new(),
                    fixes: Vec::new(),
                    detail,
                };
                assert(r@.evidence =~= seq![]);
                assert(r@.fixes =~= seq![]);
                r
            },
        }
    }
}

} // verus!
