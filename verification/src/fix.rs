//! Fixes: how they are shown, the order they are offered in (least
//! privilege first), the argv a fix runs, and the decisions around applying
//! one and checking again.

use vstd::prelude::*;
use vstd::string::*;
use crate::engine::{run, run_spec, outcomes, Layer};
use crate::facts::Facts;
use crate::identity::Identity;
use crate::op::Op;
use crate::report::{
    fix_models, opt_view, risk_rank, risk_word, EvidenceModel, Fix, FixAction, FixActionModel,
    FixModel, LayerId, LayerResultModel, Report, ReportModel, Verdict,
};
use crate::text::{
    append_str, chars_of, from_chars, is_ascii_alnum, ascii_alnum, join, join_strings, lit,
    push_char, views, is_ascii_text, lemma_ascii_concat, lemma_ascii_join, escape_free,
    lemma_free_concat, lemma_free_join,
};

verus! {

// ---------------------------------------------------------------------
// Quoting
// ---------------------------------------------------------------------

/// Characters that need no quoting in a shell word.
pub open spec fn shell_safe(c: char) -> bool {
    is_ascii_alnum(c) || c == '-' || c == '_' || c == '.' || c == '/' || c == ':' || c == '='
        || c == ','
}

/// Each `'` written as `'\''`, everything else unchanged.
pub open spec fn escape_quotes(s: Seq<char>) -> Seq<char>
    decreases s.len(),
{
    if s.len() == 0 {
        seq![]
    } else {
        escape_quotes(s.drop_last()) + if s.last() == '\'' {
            seq!['\'', '\\', '\'', '\'']
        } else {
            seq![s.last()]
        }
    }
}

/// A word as a POSIX shell reads it back unchanged: as is when every
/// character is safe, otherwise single-quoted.
pub open spec fn shell_quote_spec(s: Seq<char>) -> Seq<char> {
    if forall|i: int| 0 <= i < s.len() ==> shell_safe(#[trigger] s[i]) {
        s
    } else {
        seq!['\''] + escape_quotes(s) + seq!['\'']
    }
}

pub fn shell_quote(s: &str) -> (r: String)
    ensures
        r@ == shell_quote_spec(s@),
{
    let v = chars_of(s);
    let mut safe = true;
    let mut esc: Vec<char> = Vec::new();
    let mut i: usize = 0;
    while i < v.len()
        invariant
            v@ == s@,
            i <= v@.len(),
            safe == forall|k: int| 0 <= k < i ==> shell_safe(#[trigger] v@[k]),
            esc@ == escape_quotes(v@.take(i as int)),
        decreases v@.len() - i,
    {
        let c = v[i];
        if !(ascii_alnum(c) || c == '-' || c == '_' || c == '.' || c == '/' || c == ':' || c == '='
            || c == ',') {
            safe = false;
        }
        if c == '\'' {
            esc.push('\'');
            esc.push('\\');
            esc.push('\'');
            esc.push('\'');
        } else {
            esc.push(c);
        }
        assert(v@.take(i + 1).drop_last() =~= v@.take(i as int));
        i += 1;
    }
    assert(v@.take(v@.len() as int) =~= v@);
    if safe {
        lit(s)
    } else {
        let mut out = String::new();
        push_char(&mut out, '\'');
        append_str(&mut out, from_chars(esc.as_slice()).as_str());
        push_char(&mut out, '\'');
        assert(out@ =~= seq!['\''] + escape_quotes(s@) + seq!['\'']);
        out
    }
}

pub open spec fn quote_argv_spec(argv: Seq<Seq<char>>) -> Seq<char> {
    join(argv.map_values(|a: Seq<char>| shell_quote_spec(a)), " "@)
}

/// The argv as one shell command line.
pub fn quote_argv(argv: &Vec<String>) -> (r: String)
    ensures
        r@ == quote_argv_spec(views(argv@)),
{
    let mut quoted: Vec<String> = Vec::new();
    let mut i: usize = 0;
    while i < argv.len()
        invariant
            i <= argv@.len(),
            views(quoted@) =~= views(argv@.take(i as int)).map_values(
                |a: Seq<char>| shell_quote_spec(a),
            ),
        decreases argv@.len() - i,
    {
        let q = shell_quote(argv[i].as_str());
        let ghost before = quoted@;
        quoted.push(q);
        assert(views(quoted@) =~= views(before).push(q@));
        assert(views(argv@.take(i + 1)) =~= views(argv@.take(i as int)).push(argv@[i as int]@));
        i += 1;
    }
    assert(argv@.take(argv@.len() as int) =~= argv@);
    join_strings(&quoted, " ")
}

// ---------------------------------------------------------------------
// Showing a fix
// ---------------------------------------------------------------------

/// What a fix shows: the quoted command line, under `sudo` when it needs
/// root; or the advice text.
pub open spec fn display_spec(f: FixModel) -> Seq<char> {
    match f.action {
        FixActionModel::Run { argv } => if f.needs_root {
            "sudo "@ + quote_argv_spec(argv)
        } else {
            quote_argv_spec(argv)
        },
        FixActionModel::Advice { text } => text,
    }
}

pub open spec fn argv_of(f: FixModel) -> Seq<Seq<char>> {
    match f.action {
        FixActionModel::Run { argv } => argv,
        FixActionModel::Advice { .. } => seq![],
    }
}

impl Fix {
    pub fn display(&self) -> (r: String)
        ensures
            r@ == display_spec(self@),
    {
        match &self.action {
            FixAction::Run { argv } => {
                let cmd = quote_argv(argv);
                if self.needs_root {
                    let mut s = lit("sudo ");
                    append_str(&mut s, cmd.as_str());
                    s
                } else {
                    cmd
                }
            },
            FixAction::Advice { text } => text.clone(),
        }
    }

    /// Whether the fix is a runnable command rather than advice.
    pub fn is_run(&self) -> (r: bool)
        ensures
            r == (self@.action is Run),
    {
        match &self.action {
            FixAction::Run { .. } => true,
            FixAction::Advice { .. } => false,
        }
    }

    /// The argv of a runnable fix; empty for advice.
    pub fn argv(&self) -> (r: Vec<String>)
        ensures
            views(r@) == argv_of(self@),
    {
        match &self.action {
            FixAction::Run { argv } => {
                let a = argv.clone();
                assert(views(a@) =~= views(argv@));
                a
            },
            FixAction::Advice { .. } => {
                let a: Vec<String> = Vec::new();
                assert(views(a@) =~= seq![]);
                a
            },
        }
    }
}

// ---------------------------------------------------------------------
// Order: least privilege first, stable
// ---------------------------------------------------------------------

/// The sort key: fixes that run without root come first, and within each
/// group the lower risk first.
pub open spec fn fix_key(f: FixModel) -> int {
    (if f.needs_root {
        3int
    } else {
        0int
    }) + risk_rank(f.risk) as int
}

/// The fixes whose key is `k`, in their given order.
pub open spec fn with_key(s: Seq<FixModel>, k: int) -> Seq<FixModel>
    decreases s.len(),
{
    if s.len() == 0 {
        seq![]
    } else {
        with_key(s.drop_last(), k) + if fix_key(s.last()) == k {
            seq![s.last()]
        } else {
            seq![]
        }
    }
}

/// The fixes with keys below `k`, each key group in its given order.
pub open spec fn ordered_below(s: Seq<FixModel>, k: int) -> Seq<FixModel>
    decreases k,
{
    if k <= 0 {
        seq![]
    } else {
        ordered_below(s, k - 1) + with_key(s, k - 1)
    }
}

/// A stable sort by [`fix_key`]: the keys run from 0 to 5.
pub open spec fn ordered_spec(s: Seq<FixModel>) -> Seq<FixModel> {
    ordered_below(s, 6)
}

fn fix_key_of(f: &Fix) -> (r: u8)
    ensures
        r as int == fix_key(f@),
{
    (if f.needs_root {
        3u8
    } else {
        0u8
    }) + f.risk.rank()
}

/// The fixes in the order they are offered: least privilege first, then
/// least risk, keeping the given order among equals.
pub fn ordered(fixes: &Vec<Fix>) -> (r: Vec<Fix>)
    ensures
        fix_models(r@) == ordered_spec(fix_models(fixes@)),
{
    let ghost s = fix_models(fixes@);
    let mut out: Vec<Fix> = Vec::new();
    let mut k: u8 = 0;
    while k < 6
        invariant
            k <= 6,
            s == fix_models(fixes@),
            fix_models(out@) =~= ordered_below(s, k as int),
        decreases 6 - k,
    {
        let ghost start = fix_models(out@);
        let mut i: usize = 0;
        while i < fixes.len()
            invariant
                i <= fixes@.len(),
                s == fix_models(fixes@),
                k < 6,
                fix_models(out@) =~= start + with_key(s.take(i as int), k as int),
            decreases fixes@.len() - i,
        {
            let ghost prev = fix_models(out@);
            assert(s.take(i + 1) =~= s.take(i as int).push(s[i as int]));
            assert(s.take(i + 1).drop_last() =~= s.take(i as int));
            if fix_key_of(&fixes[i]) == k {
                out.push(fixes[i].clone());
                assert(fix_models(out@) =~= prev.push(s[i as int]));
            } else {
                assert(fix_models(out@) =~= prev + seq![]);
            }
            i += 1;
        }
        assert(s.take(fixes@.len() as int) =~= s);
        k += 1;
    }
    out
}

/// The order is least privilege first and stable: it keeps every fix, the
/// keys never decrease along it, and the fixes sharing a key keep their
/// given order.
pub proof fn ordered_law(s: Seq<FixModel>)
    ensures
        ordered_spec(s).len() == s.len(),
        forall|i: int, j: int|
            0 <= i < j < s.len() ==> fix_key(ordered_spec(s)[i]) <= fix_key(ordered_spec(s)[j]),
        forall|k: int| 0 <= k < 6 ==> #[trigger] with_key(ordered_spec(s), k) == with_key(s, k),
{
    lemma_ordered_len(s);
    lemma_ordered_below_sorted(s, 6);
    assert forall|k: int| 0 <= k < 6 implies #[trigger] with_key(ordered_spec(s), k) == with_key(
        s,
        k,
    ) by {
        lemma_with_key_of_ordered_below(s, 6, k);
    }
}

proof fn lemma_with_key_add(a: Seq<FixModel>, b: Seq<FixModel>, k: int)
    ensures
        with_key(a + b, k) == with_key(a, k) + with_key(b, k),
    decreases b.len(),
{
    if b.len() == 0 {
        assert(a + b =~= a);
        assert(with_key(a, k) + with_key(b, k) =~= with_key(a, k));
    } else {
        lemma_with_key_add(a, b.drop_last(), k);
        assert((a + b).drop_last() =~= a + b.drop_last());
        assert((a + b).last() == b.last());
        assert(with_key(a + b, k) =~= with_key(a, k) + with_key(b, k));
    }
}

proof fn lemma_with_key_keys(s: Seq<FixModel>, k: int)
    ensures
        forall|i: int| 0 <= i < with_key(s, k).len() ==> fix_key(#[trigger] with_key(s, k)[i]) == k,
    decreases s.len(),
{
    if s.len() > 0 {
        lemma_with_key_keys(s.drop_last(), k);
        let w = with_key(s.drop_last(), k);
        assert forall|i: int| 0 <= i < with_key(s, k).len() implies fix_key(
            #[trigger] with_key(s, k)[i],
        ) == k by {
            if i < w.len() {
                assert(with_key(s, k)[i] == w[i]);
            }
        }
    }
}

proof fn lemma_with_key_twice(s: Seq<FixModel>, j: int, k: int)
    ensures
        with_key(with_key(s, j), k) == if j == k {
            with_key(s, k)
        } else {
            seq![]
        },
    decreases s.len(),
{
    if s.len() > 0 {
        lemma_with_key_twice(s.drop_last(), j, k);
        let tail = if fix_key(s.last()) == j {
            seq![s.last()]
        } else {
            seq![]
        };
        lemma_with_key_add(with_key(s.drop_last(), j), tail, k);
        if fix_key(s.last()) == j {
            assert(with_key(tail, k) =~= with_key(seq![], k) + if fix_key(s.last()) == k {
                seq![s.last()]
            } else {
                seq![]
            }) by {
                assert(tail.drop_last() =~= seq![]);
            }
        }
        assert(with_key(with_key(s, j), k) =~= if j == k {
            with_key(s, k)
        } else {
            seq![]
        });
    }
}

proof fn lemma_with_key_of_ordered_below(s: Seq<FixModel>, m: int, k: int)
    requires
        0 <= k < m,
    ensures
        with_key(ordered_below(s, m), k) == with_key(s, k),
    decreases m,
{
    lemma_with_key_add(ordered_below(s, m - 1), with_key(s, m - 1), k);
    lemma_with_key_twice(s, m - 1, k);
    if k < m - 1 {
        lemma_with_key_of_ordered_below(s, m - 1, k);
        assert(with_key(ordered_below(s, m), k) =~= with_key(s, k));
    } else {
        lemma_with_key_below(s, m - 1, k);
        assert(with_key(ordered_below(s, m), k) =~= with_key(s, k));
    }
}

proof fn lemma_with_key_below(s: Seq<FixModel>, m: int, k: int)
    requires
        k >= m,
    ensures
        with_key(ordered_below(s, m), k) == Seq::<FixModel>::empty(),
    decreases m,
{
    if m > 0 {
        lemma_with_key_below(s, m - 1, k);
        lemma_with_key_add(ordered_below(s, m - 1), with_key(s, m - 1), k);
        lemma_with_key_twice(s, m - 1, k);
        assert(with_key(ordered_below(s, m), k) =~= Seq::<FixModel>::empty());
    }
}

proof fn lemma_ordered_below_sorted(s: Seq<FixModel>, m: int)
    requires
        m >= 0,
    ensures
        forall|i: int|
            0 <= i < ordered_below(s, m).len() ==> 0 <= fix_key(#[trigger] ordered_below(s, m)[i])
                < m,
        forall|i: int, j: int|
            0 <= i < j < ordered_below(s, m).len() ==> fix_key(ordered_below(s, m)[i]) <= fix_key(
                ordered_below(s, m)[j],
            ),
    decreases m,
{
    if m > 0 {
        lemma_ordered_below_sorted(s, m - 1);
        lemma_with_key_keys(s, m - 1);
        let a = ordered_below(s, m - 1);
        let b = with_key(s, m - 1);
        let o = ordered_below(s, m);
        assert(o == a + b);
        assert forall|i: int| 0 <= i < o.len() implies 0 <= fix_key(#[trigger] o[i]) < m by {
            if i < a.len() {
                assert(o[i] == a[i]);
            } else {
                assert(o[i] == b[i - a.len()]);
            }
        }
        assert forall|i: int, j: int| 0 <= i < j < o.len() implies fix_key(o[i]) <= fix_key(o[j]) by {
            if j < a.len() {
                assert(o[i] == a[i]);
                assert(o[j] == a[j]);
            } else if i < a.len() {
                assert(o[i] == a[i]);
                assert(o[j] == b[j - a.len()]);
            } else {
                assert(o[i] == b[i - a.len()]);
                assert(o[j] == b[j - a.len()]);
            }
        }
    }
}

proof fn lemma_key_range(f: FixModel)
    ensures
        0 <= fix_key(f) < 6,
{
}

proof fn lemma_ordered_len(s: Seq<FixModel>)
    ensures
        ordered_spec(s).len() == s.len(),
    decreases s.len(),
{
    reveal_with_fuel(ordered_below, 7);
    if s.len() > 0 {
        lemma_ordered_len(s.drop_last());
        lemma_key_range(s.last());
        let d = s.drop_last();
        assert(ordered_spec(d).len() == with_key(d, 0).len() + with_key(d, 1).len() + with_key(d, 2).len()
            + with_key(d, 3).len() + with_key(d, 4).len() + with_key(d, 5).len());
        assert(ordered_spec(s).len() == with_key(s, 0).len() + with_key(s, 1).len() + with_key(s, 2).len()
            + with_key(s, 3).len() + with_key(s, 4).len() + with_key(s, 5).len());
    }
}

// ---------------------------------------------------------------------
// Running a fix
// ---------------------------------------------------------------------

/// The argv actually run: under `sudo` when the fix needs root and the tool
/// is not already root, with no shell in between.
pub open spec fn command_argv_spec(argv: Seq<Seq<char>>, needs_root: bool, is_root: bool) -> Seq<
    Seq<char>,
> {
    if needs_root && !is_root {
        seq!["sudo"@] + argv
    } else {
        argv
    }
}

pub fn command_argv(argv: &Vec<String>, needs_root: bool, is_root: bool) -> (r: Vec<String>)
    ensures
        views(r@) == command_argv_spec(views(argv@), needs_root, is_root),
{
    if needs_root && !is_root {
        let mut v: Vec<String> = Vec::new();
        v.push(lit("sudo"));
        let mut i: usize = 0;
        while i < argv.len()
            invariant
                i <= argv@.len(),
                views(v@) =~= seq!["sudo"@] + views(argv@.take(i as int)),
            decreases argv@.len() - i,
        {
            let a = argv[i].clone();
            let ghost before = v@;
            v.push(a);
            assert(views(v@) =~= views(before).push(a@));
            assert(views(argv@.take(i + 1)) =~= views(argv@.take(i as int)).push(argv@[i as int]@));
            i += 1;
        }
        assert(argv@.take(argv@.len() as int) =~= argv@);
        v
    } else {
        let v = argv.clone();
        assert(views(v@) =~= views(argv@));
        v
    }
}

/// What executing a fix runs: the argv of a runnable fix (elevated as
/// [`command_argv`] says), or nothing for advice.
pub fn execute(fix: &Fix, is_root: bool) -> (r: Option<Vec<String>>)
    ensures
        r is None <==> fix@.action is Advice,
        r matches Some(v) ==> views(v@) == command_argv_spec(argv_of(fix@), fix.needs_root, is_root),
{
    match &fix.action {
        FixAction::Advice { .. } => None,
        FixAction::Run { argv } => Some(command_argv(argv, fix.needs_root, is_root)),
    }
}


// ---------------------------------------------------------------------
// Applying and checking again
// ---------------------------------------------------------------------

/// The outcome of running the chain again after a fix.
pub enum Recheck {
    Cleared,
    Blocked { layer: Option<LayerId>, culprit: Option<String> },
}

/// Runs the chain again: cleared exactly when the op is now allowed,
/// otherwise the layer and culprit still blocking it.
pub fn recheck<L: Layer>(chain: &Vec<L>, id: &Identity, facts: &Facts, op: Op) -> (r: Recheck)
    ensures
        ({
            let m = run_spec(outcomes(chain@, *id, *facts, op), false, *id, *facts, op);
            &&& (r is Cleared) <==> m.verdict == Verdict::Allowed
            &&& r matches Recheck::Blocked { layer, culprit } ==> layer == m.blocking_layer
                && opt_view(culprit) == m.culprit
        }),
{
    let fresh = run(chain, id, facts, op, false);
    match fresh.verdict {
        Verdict::Allowed => Recheck::Cleared,
        _ => Recheck::Blocked { layer: fresh.blocking_layer, culprit: fresh.culprit },
    }
}

/// How `{:?}` writes an op.
pub open spec fn op_debug(op: Op) -> Seq<char> {
    match op {
        Op::Read => "Read"@,
        Op::Write => "Write"@,
        Op::Exec => "Exec"@,
        Op::Traverse => "Traverse"@,
        Op::Delete => "Delete"@,
        Op::Create => "Create"@,
    }
}

pub fn op_debug_name(op: Op) -> (r: &'static str)
    ensures
        r@ == op_debug(op),
{
    match op {
        Op::Read => "Read",
        Op::Write => "Write",
        Op::Exec => "Exec",
        Op::Traverse => "Traverse",
        Op::Delete => "Delete",
        Op::Create => "Create",
    }
}

/// How `{:?}` writes a layer id.
pub open spec fn layer_debug(l: LayerId) -> Seq<char> {
    match l {
        LayerId::Existence => "Existence"@,
        LayerId::Traverse => "Traverse"@,
        LayerId::Dac => "Dac"@,
        LayerId::Acl => "Acl"@,
        LayerId::Attrs => "Attrs"@,
        LayerId::Mount => "Mount"@,
        LayerId::Capabilities => "Capabilities"@,
        LayerId::Mac => "Mac"@,
        LayerId::MacosSip => "MacosSip"@,
        LayerId::NetworkFs => "NetworkFs"@,
        LayerId::Container => "Container"@,
    }
}

pub fn layer_debug_name(l: LayerId) -> (r: &'static str)
    ensures
        r@ == layer_debug(l),
{
    match l {
        LayerId::Existence => "Existence",
        LayerId::Traverse => "Traverse",
        LayerId::Dac => "Dac",
        LayerId::Acl => "Acl",
        LayerId::Attrs => "Attrs",
        LayerId::Mount => "Mount",
        LayerId::Capabilities => "Capabilities",
        LayerId::Mac => "Mac",
        LayerId::MacosSip => "MacosSip",
        LayerId::NetworkFs => "NetworkFs",
        LayerId::Container => "Container",
    }
}

pub open spec fn recheck_text(r: Recheck, op: Op) -> Seq<char> {
    match r {
        Recheck::Cleared => "recheck: block cleared; "@ + op_debug(op) + " now allowed"@,
        Recheck::Blocked { layer, culprit } => "recheck: still blocked at "@ + match layer {
            Some(l) => layer_debug(l),
            None => "unknown"@,
        } + ": "@ + match culprit {
            Some(c) => c@,
            None => seq![],
        },
    }
}

/// The line reporting a recheck.
pub fn recheck_message(r: &Recheck, op: Op) -> (s: String)
    ensures
        s@ == recheck_text(*r, op),
{
    match r {
        Recheck::Cleared => {
            let mut s = lit("recheck: block cleared; ");
            append_str(&mut s, op_debug_name(op));
            append_str(&mut s, " now allowed");
            s
        },
        Recheck::Blocked { layer, culprit } => {
            let mut s = lit("recheck: still blocked at ");
            match layer {
                Some(l) => append_str(&mut s, layer_debug_name(*l)),
                None => append_str(&mut s, "unknown"),
            }
            append_str(&mut s, ": ");
            match culprit {
                Some(c) => append_str(&mut s, c.as_str()),
                None => {},
            }
            s
        },
    }
}

/// What applying the top fix without asking comes to.
pub enum ApplyPlan {
    /// The report offers no fix.
    NoFix,
    /// The top fix is advice; nothing is run.
    AdviceOnly,
    /// Run `argv`, announcing the fix as `shown`.
    Run { shown: String, argv: Vec<String> },
}

/// Plans applying the top fix: the first fix in offering order, run only
/// when it is a command, so safer advice is never passed over for a riskier
/// command.
pub fn auto_apply(report: &Report, is_root: bool) -> (r: ApplyPlan)
    ensures
        ({
            let order = ordered_spec(fix_models(report.fixes@));
            &&& (r is NoFix) <==> order.len() == 0
            &&& (r is AdviceOnly) <==> (order.len() > 0 && order[0].action is Advice)
            &&& r matches ApplyPlan::Run { shown, argv } ==> order.len() > 0 && shown@
                == display_spec(order[0]) && views(argv@) == command_argv_spec(
                argv_of(order[0]),
                order[0].needs_root,
                is_root,
            )
        }),
{
    let order = ordered(&report.fixes);
    if order.len() == 0 {
        return ApplyPlan::NoFix;
    }
    let top = &order[0];
    assert(fix_models(order@)[0] == top@);
    match execute(top, is_root) {
        None => ApplyPlan::AdviceOnly,
        Some(argv) => ApplyPlan::Run { shown: top.display(), argv },
    }
}

/// An entry of the fix menu, as the user picked it: a fix by its place in
/// offering order, or one of the menu's own entries.
#[derive(Clone, Copy, PartialEq, Eq, Debug, Structural)]
pub enum MenuChoice {
    Fix(usize),
    Explain,
    Copy,
    ShowAll,
    Cancel,
}

/// What the prompt does with a pick.
#[derive(Clone, Copy, PartialEq, Eq, Debug, Structural)]
pub enum MenuStep {
    /// Confirm and run the command of the fix at this place, then leave.
    Run(usize),
    /// Print the advice of the fix at this place, then leave.
    Advise(usize),
    /// Ask which fix to explain, explain it, and show the menu again.
    Explain,
    /// Ask which command to copy, copy it, and show the menu again.
    Copy,
    /// Evaluate every layer, show the full report, and show the menu again.
    ShowAll,
    /// Leave the prompt.
    Stop,
}

/// A picked fix is run when it is a command and printed when it is advice;
/// the menu's own entries map to their steps, and cancelling, or a place
/// past the offered fixes, leaves.
pub open spec fn menu_step_spec(order: Seq<FixModel>, c: MenuChoice) -> MenuStep {
    match c {
        MenuChoice::Fix(i) => if i < order.len() {
            if order[i as int].action is Run {
                MenuStep::Run(i)
            } else {
                MenuStep::Advise(i)
            }
        } else {
            MenuStep::Stop
        },
        MenuChoice::Explain => MenuStep::Explain,
        MenuChoice::Copy => MenuStep::Copy,
        MenuChoice::ShowAll => MenuStep::ShowAll,
        MenuChoice::Cancel => MenuStep::Stop,
    }
}

/// The step the prompt takes for a pick among the fixes `order`.
pub fn menu_step(order: &Vec<Fix>, c: MenuChoice) -> (r: MenuStep)
    ensures
        r == menu_step_spec(fix_models(order@), c),
{
    match c {
        MenuChoice::Fix(i) => {
            if i < order.len() {
                assert(fix_models(order@)[i as int] == order@[i as int]@);
                match &order[i].action {
                    FixAction::Run { .. } => MenuStep::Run(i),
                    FixAction::Advice { .. } => MenuStep::Advise(i),
                }
            } else {
                MenuStep::Stop
            }
        },
        MenuChoice::Explain => MenuStep::Explain,
        MenuChoice::Copy => MenuStep::Copy,
        MenuChoice::ShowAll => MenuStep::ShowAll,
        MenuChoice::Cancel => MenuStep::Stop,
    }
}

/// Whether the menu is shown again after a step: after explaining,
/// copying or showing the full report, never after running, advising or
/// leaving.
pub open spec fn menu_continues_spec(s: MenuStep) -> bool {
    s is Explain || s is Copy || s is ShowAll
}

impl MenuStep {
    pub fn continues(&self) -> (r: bool)
        ensures
            r == menu_continues_spec(*self),
    {
        match self {
            MenuStep::Explain | MenuStep::Copy | MenuStep::ShowAll => true,
            _ => false,
        }
    }
}

pub open spec fn choice_text(f: FixModel) -> Seq<char> {
    f.description + " [risk: "@ + risk_word(f.risk) + "]"@ + (if f.action is Run {
        seq![]
    } else {
        " (advice, not runnable)"@
    }) + "  "@ + display_spec(f)
}

/// How a fix is listed when the user picks one.
pub fn choice_label(f: &Fix) -> (r: String)
    ensures
        r@ == choice_text(f@),
{
    let mut s = f.description.clone();
    append_str(&mut s, " [risk: ");
    append_str(&mut s, f.risk.word());
    append_str(&mut s, "]");
    if !f.is_run() {
        append_str(&mut s, " (advice, not runnable)");
    }
    append_str(&mut s, "  ");
    append_str(&mut s, f.display().as_str());
    s
}

/// The fixes offered for a pick: all of them, or the runnable ones only.
pub fn pick_candidates(order: &Vec<Fix>, run_only: bool) -> (r: Vec<Fix>)
    ensures
        fix_models(r@) == fix_models(order@).filter(|f: FixModel| !run_only || f.action is Run),
{
    let ghost p = |f: FixModel| !run_only || f.action is Run;
    let mut out: Vec<Fix> = Vec::new();
    let mut i: usize = 0;
    while i < order.len()
        invariant
            i <= order@.len(),
            p == (|f: FixModel| !run_only || f.action is Run),
            fix_models(out@) == fix_models(order@.take(i as int)).filter(p),
        decreases order@.len() - i,
    {
        let ghost prev = fix_models(out@);
        proof {
            assert(fix_models(order@.take(i + 1)).drop_last() =~= fix_models(order@.take(i as int)));
            assert(fix_models(order@.take(i + 1)).last() == order@[i as int]@);
            reveal_with_fuel(Seq::filter, 1);
        }
        if !run_only || order[i].is_run() {
            out.push(order[i].clone());
            assert(fix_models(out@) =~= prev.push(order@[i as int]@));
        } else {
            assert(fix_models(out@) =~= prev);
        }
        i += 1;
    }
    assert(order@.take(order@.len() as int) =~= order@);
    out
}

pub open spec fn explain_text(report: ReportModel, f: FixModel) -> Seq<Seq<char>> {
    seq![f.description, "rationale: "@ + f.rationale] + match report.blocking_layer {
        Some(bl) => evidence_lines_of(report.layer_results, bl, report.layer_results.len() as int),
        None => seq![],
    }
}

/// `evidence: <raw>` for every evidence line of every result of layer `bl`.
pub open spec fn evidence_lines_of(rs: Seq<LayerResultModel>, bl: LayerId, n: int) -> Seq<
    Seq<char>,
>
    decreases n,
{
    if n <= 0 {
        seq![]
    } else {
        evidence_lines_of(rs, bl, n - 1) + if rs[n - 1].layer == bl {
            rs[n - 1].evidence.map_values(|e: EvidenceModel| "evidence: "@ + e.raw)
        } else {
            seq![]
        }
    }
}

/// The lines explaining a fix: what it does, why, and the evidence of the
/// blocking layer.
pub fn explain(report: &Report, fix: &Fix) -> (r: Vec<String>)
    ensures
        views(r@) == explain_text(report@, fix@),
{
    let mut out: Vec<String> = Vec::new();
    out.push(fix.description.clone());
    let mut l = lit("rationale: ");
    append_str(&mut l, fix.rationale.as_str());
    out.push(l);
    let ghost head = views(out@);
    assert(head =~= seq![fix@.description, "rationale: "@ + fix@.rationale]);
    let ghost m = report@;
    match report.blocking_layer {
        Some(bl) => {
            let mut i: usize = 0;
            while i < report.layer_results.len()
                invariant
                    m == report@,
                    report.blocking_layer == Some(bl),
                    i <= report.layer_results@.len(),
                    m.layer_results.len() == report.layer_results@.len(),
                    views(out@) =~= head + evidence_lines_of(m.layer_results, bl, i as int),
                decreases report.layer_results@.len() - i,
            {
                let lr = &report.layer_results[i];
                assert(m.layer_results[i as int] == lr@);
                let ghost mid = views(out@);
                if lr.layer == bl {
                    let mut j: usize = 0;
                    while j < lr.evidence.len()
                        invariant
                            j <= lr.evidence@.len(),
                            views(out@) =~= mid + lr@.evidence.take(j as int).map_values(
                                |e: EvidenceModel| "evidence: "@ + e.raw,
                            ),
                        decreases lr.evidence@.len() - j,
                    {
                        let mut line = lit("evidence: ");
                        append_str(&mut line, lr.evidence[j].raw.as_str());
                        let ghost before = out@;
                        out.push(line);
                        assert(views(out@) =~= views(before).push(line@));
                        assert(lr@.evidence[j as int] == lr.evidence@[j as int]@);
                        assert(lr@.evidence.take(j + 1).map_values(
                            |e: EvidenceModel| "evidence: "@ + e.raw,
                        ) =~= lr@.evidence.take(j as int).map_values(
                            |e: EvidenceModel| "evidence: "@ + e.raw,
                        ).push("evidence: "@ + lr@.evidence[j as int].raw));
                        j += 1;
                    }
                    assert(lr@.evidence.take(lr.evidence@.len() as int) =~= lr@.evidence);
                }
                i += 1;
            }
        },
        None => {},
    }
    out
}

// ---------------------------------------------------------------------
// ASCII
// ---------------------------------------------------------------------

/// A fix whose own text is ASCII: its argv words, or its advice.
pub open spec fn fix_text_ascii(f: FixModel) -> bool {
    match f.action {
        FixActionModel::Run { argv } => forall|i: int| 0 <= i < argv.len() ==> is_ascii_text(#[trigger] argv[i]),
        FixActionModel::Advice { text } => is_ascii_text(text),
    }
}

proof fn lemma_escape_ascii(s: Seq<char>)
    requires
        is_ascii_text(s),
    ensures
        is_ascii_text(escape_quotes(s)),
    decreases s.len(),
{
    if s.len() > 0 {
        let init = s.drop_last();
        assert forall|i: int| 0 <= i < init.len() implies (#[trigger] init[i] as u32) < 128 by {
            assert(init[i] == s[i]);
        }
        lemma_escape_ascii(init);
        assert((s.last() as u32) < 128);
        let tail = if s.last() == '\'' {
            seq!['\'', '\\', '\'', '\'']
        } else {
            seq![s.last()]
        };
        assert(is_ascii_text(tail));
        lemma_ascii_concat(escape_quotes(init), tail);
    }
}

/// Quoting keeps ASCII words ASCII.
pub proof fn lemma_quote_ascii(s: Seq<char>)
    requires
        is_ascii_text(s),
    ensures
        is_ascii_text(shell_quote_spec(s)),
{
    lemma_escape_ascii(s);
    let q = seq!['\''];
    assert(is_ascii_text(q));
    lemma_ascii_concat(q, escape_quotes(s));
    lemma_ascii_concat(q + escape_quotes(s), q);
}

/// A fix with ASCII text shows as ASCII.
pub proof fn lemma_display_ascii(f: FixModel)
    requires
        fix_text_ascii(f),
    ensures
        is_ascii_text(display_spec(f)),
{
    match f.action {
        FixActionModel::Run { argv } => {
            let quoted = argv.map_values(|a: Seq<char>| shell_quote_spec(a));
            assert forall|i: int| 0 <= i < quoted.len() implies is_ascii_text(#[trigger] quoted[i]) by {
                lemma_quote_ascii(argv[i]);
            }
            reveal_strlit(" ");
            lemma_ascii_join(quoted, " "@);
            reveal_strlit("sudo ");
            lemma_ascii_concat("sudo "@, quote_argv_spec(argv));
        },
        FixActionModel::Advice { text } => {},
    }
}

/// A fix whose own text holds no escape character: its argv words, or its
/// advice.
pub open spec fn fix_text_free(f: FixModel) -> bool {
    match f.action {
        FixActionModel::Run { argv } => forall|i: int| 0 <= i < argv.len() ==> escape_free(#[trigger] argv[i]),
        FixActionModel::Advice { text } => escape_free(text),
    }
}

proof fn lemma_escape_free(s: Seq<char>)
    requires
        escape_free(s),
    ensures
        escape_free(escape_quotes(s)),
    decreases s.len(),
{
    if s.len() > 0 {
        let init = s.drop_last();
        assert forall|i: int| 0 <= i < init.len() implies #[trigger] init[i] != '\x1b' by {
            assert(init[i] == s[i]);
        }
        lemma_escape_free(init);
        assert(s.last() != '\x1b');
        let tail = if s.last() == '\'' {
            seq!['\'', '\\', '\'', '\'']
        } else {
            seq![s.last()]
        };
        assert(escape_free(tail));
        lemma_free_concat(escape_quotes(init), tail);
    }
}

/// A fix with escape-free text shows without an escape character.
pub proof fn lemma_display_free(f: FixModel)
    requires
        fix_text_free(f),
    ensures
        escape_free(display_spec(f)),
{
    match f.action {
        FixActionModel::Run { argv } => {
            let quoted = argv.map_values(|a: Seq<char>| shell_quote_spec(a));
            assert forall|i: int| 0 <= i < quoted.len() implies escape_free(#[trigger] quoted[i]) by {
                let a = argv[i];
                lemma_escape_free(a);
                let q = seq!['\''];
                assert(escape_free(q));
                lemma_free_concat(q, escape_quotes(a));
                lemma_free_concat(q + escape_quotes(a), q);
            }
            reveal_strlit(" ");
            lemma_free_join(quoted, " "@);
            reveal_strlit("sudo ");
            lemma_free_concat("sudo "@, quote_argv_spec(argv));
        },
        FixActionModel::Advice { text } => {},
    }
}

} // verus!
