//! The kernel's own answer for the current user, set beside the model's
//! verdict. The `access(2)` probes themselves run where the filesystem is
//! read; this module decides which node they ask about and what their
//! answers mean.

use vstd::prelude::*;
use vstd::string::*;
use crate::op::{gating_node, gates_on_parent, GateTarget, Op};
use crate::paths::{parent_of, parent_of_spec};
use crate::report::{CrossCheck, CrossCheckModel};
use crate::text::{append_str, dec, dec_i64, dec_int, dec_u64, lit};

verus! {

/// The kernel's read, write and execute answers for one node.
pub struct KernelCheck {
    pub r: bool,
    pub w: bool,
    pub x: bool,
}

/// The kernel's answer for the access an op needs: allowed, or the raw
/// errno it refused with.
pub struct KernelAnswer {
    pub allowed: bool,
    pub errno: Option<i32>,
}

#[derive(Clone, Copy, PartialEq, Eq, Debug, Structural)]
pub enum Concord {
    Agree,
    Disagree,
}

/// The access mode asked of the kernel for an op.
#[derive(Clone, Copy, PartialEq, Eq, Debug, Structural)]
pub enum Access {
    Read,
    Write,
    Exec,
    WriteExec,
}

pub open spec fn access_of(op: Op) -> Access {
    match op {
        Op::Read => Access::Read,
        Op::Write => Access::Write,
        Op::Exec | Op::Traverse => Access::Exec,
        Op::Delete | Op::Create => Access::WriteExec,
    }
}

pub fn op_access(op: Op) -> (r: Access)
    ensures
        r == access_of(op),
{
    match op {
        Op::Read => Access::Read,
        Op::Write => Access::Write,
        Op::Exec | Op::Traverse => Access::Exec,
        Op::Delete | Op::Create => Access::WriteExec,
    }
}

/// The node an op's permission is decided on: the target itself, or for
/// delete and create its parent directory (`.` when the path has none).
pub open spec fn gate_path_spec(op: Op, path: Seq<char>) -> Seq<char> {
    if gates_on_parent(op) {
        parent_of_spec(path)
    } else {
        path
    }
}

pub fn gate_path(op: Op, path: &str) -> (r: String)
    ensures
        r@ == gate_path_spec(op, path@),
{
    match gating_node(op, path) {
        GateTarget::Node(p) => p,
        GateTarget::Parent { of, sticky_matters: _ } => parent_of(of.as_str()),
    }
}

pub fn compare(answer: &KernelAnswer, model_allows: bool) -> (r: Concord)
    ensures
        (r == Concord::Agree) <==> (answer.allowed == model_allows),
{
    if answer.allowed == model_allows {
        Concord::Agree
    } else {
        Concord::Disagree
    }
}

pub open spec fn disagree_text(errno: Option<i32>) -> Seq<char> {
    match errno {
        Some(e) => "model and kernel disagree"@ + " (kernel errno "@ + dec_int(e as int) + ")"@,
        None => "model and kernel disagree"@,
    }
}

fn disagree_message(answer: &KernelAnswer) -> (r: String)
    ensures
        r@ == disagree_text(answer.errno),
{
    let mut s = lit("model and kernel disagree");
    match answer.errno {
        Some(e) => {
            append_str(&mut s, " (kernel errno ");
            append_str(&mut s, dec_i64(e as i64).as_str());
            append_str(&mut s, ")");
        },
        None => {},
    }
    s
}

/// The cross-check made from the kernel's answers for the gating node.
pub open spec fn cross_model(
    allowed: bool,
    errno: Option<i32>,
    rwx: (bool, bool, bool),
    model_allows: bool,
) -> CrossCheckModel {
    CrossCheckModel {
        available: true,
        kernel_allows: Some(allowed),
        model_allows,
        agree: allowed == model_allows,
        kernel_rwx: Some(seq![rwx.0, rwx.1, rwx.2]),
        message: if allowed == model_allows {
            None
        } else {
            Some(disagree_text(errno))
        },
    }
}

/// Sets the kernel's answers beside the model's verdict.
pub fn cross_check(answer: &KernelAnswer, rwx: &KernelCheck, model_allows: bool) -> (r: CrossCheck)
    ensures
        r@ == cross_model(answer.allowed, answer.errno, (rwx.r, rwx.w, rwx.x), model_allows),
{
    let agree = compare(answer, model_allows) == Concord::Agree;
    let message = if agree {
        None
    } else {
        Some(disagree_message(answer))
    };
    let arr = [rwx.r, rwx.w, rwx.x];
    assert(arr@ =~= seq![rwx.r, rwx.w, rwx.x]);
    CrossCheck {
        available: true,
        kernel_allows: Some(answer.allowed),
        model_allows,
        agree,
        kernel_rwx: Some(arr),
        message,
    }
}

pub open spec fn unavailable_text(uid: u32) -> Seq<char> {
    "symbolic only for uid "@ + dec(uid as nat) + "; no kernel cross-check"@
}

/// The cross-check for another user's identity: the kernel answers only for
/// the current user, so none is made.
pub open spec fn unavailable_model(uid: u32, model_allows: bool) -> CrossCheckModel {
    CrossCheckModel {
        available: false,
        kernel_allows: None,
        model_allows,
        agree: true,
        kernel_rwx: None,
        message: Some(unavailable_text(uid)),
    }
}

pub fn unavailable(uid: u32, model_allows: bool) -> (r: CrossCheck)
    ensures
        r@ == unavailable_model(uid, model_allows),
{
    let mut m = lit("symbolic only for uid ");
    append_str(&mut m, dec_u64(uid as u64).as_str());
    append_str(&mut m, "; no kernel cross-check");
    CrossCheck {
        available: false,
        kernel_allows: None,
        model_allows,
        agree: true,
        kernel_rwx: None,
        message: Some(m),
    }
}

} // verus!
