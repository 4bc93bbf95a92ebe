//! Operations, the keywords that name them, and the node each one is gated on.

use vstd::prelude::*;
use crate::text::{ascii_lower, lemma_ascii_lower_idempotent, lit, to_ascii_lower, views};

verus! {

/// One filesystem operation the tool can explain.
#[derive(Clone, Copy, PartialEq, Eq, Debug, Structural)]
pub enum Op {
    Read,
    Write,
    Exec,
    Traverse,
    Delete,
    Create,
}

/// An operation as typed on the command line; `cd` is an alias of `traverse`.
#[derive(Clone, Copy, PartialEq, Eq, Debug, Structural)]
pub enum OpArg {
    Read,
    Write,
    Exec,
    Traverse,
    Cd,
    Delete,
    Create,
}

pub open spec fn op_of_arg(a: OpArg) -> Op {
    match a {
        OpArg::Read => Op::Read,
        OpArg::Write => Op::Write,
        OpArg::Exec => Op::Exec,
        OpArg::Traverse | OpArg::Cd => Op::Traverse,
        OpArg::Delete => Op::Delete,
        OpArg::Create => Op::Create,
    }
}

impl From<OpArg> for Op {
    fn from(a: OpArg) -> (r: Op) {
        match a {
            OpArg::Read => Op::Read,
            OpArg::Write => Op::Write,
            OpArg::Exec => Op::Exec,
            OpArg::Traverse | OpArg::Cd => Op::Traverse,
            OpArg::Delete => Op::Delete,
            OpArg::Create => Op::Create,
        }
    }
}

impl vstd::std_specs::convert::FromSpecImpl<OpArg> for Op {
    open spec fn obeys_from_spec() -> bool {
        true
    }

    open spec fn from_spec(a: OpArg) -> Op {
        op_of_arg(a)
    }
}

impl OpArg {
    /// The keyword that names `s`, compared without regard to ASCII case.
    pub open spec fn keyword_spec(s: Seq<char>) -> Option<OpArg> {
        let l = ascii_lower(s);
        if l == "read"@ {
            Some(OpArg::Read)
        } else if l == "write"@ {
            Some(OpArg::Write)
        } else if l == "exec"@ {
            Some(OpArg::Exec)
        } else if l == "traverse"@ {
            Some(OpArg::Traverse)
        } else if l == "cd"@ {
            Some(OpArg::Cd)
        } else if l == "delete"@ {
            Some(OpArg::Delete)
        } else if l == "create"@ {
            Some(OpArg::Create)
        } else {
            None
        }
    }

    /// Parses an op keyword, ignoring ASCII case.
    pub fn parse_keyword(s: &str) -> (r: Option<OpArg>)
        ensures
            r == Self::keyword_spec(s@),
    {
        let l = to_ascii_lower(s);
        if l == lit("read") {
            Some(OpArg::Read)
        } else if l == lit("write") {
            Some(OpArg::Write)
        } else if l == lit("exec") {
            Some(OpArg::Exec)
        } else if l == lit("traverse") {
            Some(OpArg::Traverse)
        } else if l == lit("cd") {
            Some(OpArg::Cd)
        } else if l == lit("delete") {
            Some(OpArg::Delete)
        } else if l == lit("create") {
            Some(OpArg::Create)
        } else {
            None
        }
    }
}

/// Op keywords ignore ASCII case: a token names the same op as its
/// lowercase form.
pub proof fn keyword_case_law(s: Seq<char>)
    ensures
        OpArg::keyword_spec(ascii_lower(s)) == OpArg::keyword_spec(s),
{
    lemma_ascii_lower_idempotent(s);
}

/// The node whose permissions decide an operation: the target itself, or
/// its parent directory for delete and create.
#[derive(PartialEq, Eq, Debug)]
pub enum GateTarget {
    Node(String),
    Parent { of: String, sticky_matters: bool },
}

pub open spec fn gates_on_parent(op: Op) -> bool {
    op == Op::Delete || op == Op::Create
}

pub fn gating_node(op: Op, target: &str) -> (r: GateTarget)
    ensures
        gates_on_parent(op) ==> (r matches GateTarget::Parent { of, sticky_matters } && of@
            == target@ && sticky_matters == (op == Op::Delete)),
        !gates_on_parent(op) ==> (r matches GateTarget::Node(p) && p@ == target@),
{
    match op {
        Op::Delete | Op::Create => GateTarget::Parent {
            of: lit(target),
            sticky_matters: op == Op::Delete,
        },
        _ => GateTarget::Node(lit(target)),
    }
}

/// The op a bare path implies: a directory is traversed, a file with any
/// execute bit is executed, anything else is read.
pub open spec fn bare_op(is_dir: bool, mode: u32) -> Op {
    if is_dir {
        Op::Traverse
    } else if mode & 0o111 != 0 {
        Op::Exec
    } else {
        Op::Read
    }
}

pub fn infer_bare(is_dir: bool, mode: u32) -> (r: Op)
    ensures
        r == bare_op(is_dir, mode),
{
    if is_dir {
        Op::Traverse
    } else if mode & 0o111 != 0 {
        Op::Exec
    } else {
        Op::Read
    }
}

/// The op a wrapped command implies from its program name.
pub open spec fn cmd_op(prog: Seq<char>) -> Op {
    if prog == "cat"@ || prog == "less"@ || prog == "head"@ || prog == "tail"@ || prog == "more"@ {
        Op::Read
    } else if prog == "tee"@ || prog == "truncate"@ {
        Op::Write
    } else if prog == "rm"@ || prog == "unlink"@ {
        Op::Delete
    } else if prog == "touch"@ || prog == "mkdir"@ || prog == "install"@ {
        Op::Create
    } else if prog == "cd"@ || prog == "pushd"@ {
        Op::Traverse
    } else {
        Op::Exec
    }
}

/// The op and target of a wrapped command: the program itself for exec,
/// otherwise its first argument.
pub open spec fn cmd_target(argv: Seq<Seq<char>>) -> Option<(Op, Seq<char>)> {
    if argv.len() == 0 {
        None
    } else {
        let op = cmd_op(argv[0]);
        if op == Op::Exec {
            Some((op, argv[0]))
        } else if argv.len() >= 2 {
            Some((op, argv[1]))
        } else {
            None
        }
    }
}

pub fn infer_cmd(argv: &Vec<String>) -> (r: Option<(Op, String)>)
    ensures
        r matches Some((op, p)) ==> cmd_target(views(argv@)) == Some((op, p@)),
        r is None ==> cmd_target(views(argv@)) is None,
{
    if argv.len() == 0 {
        return None;
    }
    let prog = &argv[0];
    let op = if *prog == lit("cat") || *prog == lit("less") || *prog == lit("head") || *prog == lit(
        "tail",
    ) || *prog == lit("more") {
        Op::Read
    } else if *prog == lit("tee") || *prog == lit("truncate") {
        Op::Write
    } else if *prog == lit("rm") || *prog == lit("unlink") {
        Op::Delete
    } else if *prog == lit("touch") || *prog == lit("mkdir") || *prog == lit("install") {
        Op::Create
    } else if *prog == lit("cd") || *prog == lit("pushd") {
        Op::Traverse
    } else {
        Op::Exec
    };
    assert(views(argv@)[0] == argv@[0]@);
    match op {
        Op::Exec => Some((op, prog.clone())),
        _ => {
            if argv.len() >= 2 {
                assert(views(argv@)[1] == argv@[1]@);
                Some((op, argv[1].clone()))
            } else {
                None
            }
        },
    }
}

/// What a wrapped command asks for: the readers (`cat`, `less`, `head`,
/// `tail`, `more`) read their first argument, `tee` and `truncate` write
/// it, `rm` and `unlink` delete it, `touch`, `mkdir` and `install` create
/// it, `cd` and `pushd` traverse it; any other program is itself executed.
pub proof fn wrapped_command_law(prog: Seq<char>, p: Seq<char>)
    ensures
        (prog == "cat"@ || prog == "less"@ || prog == "head"@ || prog == "tail"@ || prog
            == "more"@) ==> cmd_target(seq![prog, p]) == Some((Op::Read, p)),
        (prog == "tee"@ || prog == "truncate"@) ==> cmd_target(seq![prog, p]) == Some(
            (Op::Write, p),
        ),
        (prog == "rm"@ || prog == "unlink"@) ==> cmd_target(seq![prog, p]) == Some((Op::Delete, p)),
        (prog == "touch"@ || prog == "mkdir"@ || prog == "install"@) ==> cmd_target(seq![prog, p])
            == Some((Op::Create, p)),
        (prog == "cd"@ || prog == "pushd"@) ==> cmd_target(seq![prog, p]) == Some(
            (Op::Traverse, p),
        ),
        !(prog == "cat"@ || prog == "less"@ || prog == "head"@ || prog == "tail"@ || prog
            == "more"@ || prog == "tee"@ || prog == "truncate"@ || prog == "rm"@ || prog
            == "unlink"@ || prog == "touch"@ || prog == "mkdir"@ || prog == "install"@ || prog
            == "cd"@ || prog == "pushd"@) ==> cmd_target(seq![prog, p]) == Some((Op::Exec, prog)),
{
    reveal_strlit("cat");
    reveal_strlit("less");
    reveal_strlit("head");
    reveal_strlit("tail");
    reveal_strlit("more");
    reveal_strlit("tee");
    reveal_strlit("truncate");
    reveal_strlit("rm");
    reveal_strlit("unlink");
    reveal_strlit("touch");
    reveal_strlit("mkdir");
    reveal_strlit("install");
    reveal_strlit("cd");
    reveal_strlit("pushd");
    let names = seq![
        "cat"@,
        "less"@,
        "head"@,
        "tail"@,
        "more"@,
        "tee"@,
        "truncate"@,
        "rm"@,
        "unlink"@,
        "touch"@,
        "mkdir"@,
        "install"@,
        "cd"@,
        "pushd"@,
    ];
    assert forall|a: int, b: int| 0 <= a < names.len() && 0 <= b < names.len() && a != b implies (
    #[trigger] names[a]) != #[trigger] names[b] by {
        assert(names[a][0] != names[b][0] || names[a].len() != names[b].len() || names[a][1]
            != names[b][1]);
    }
    assert(names[0] == "cat"@ && names[1] == "less"@ && names[2] == "head"@ && names[3] == "tail"@
        && names[4] == "more"@ && names[5] == "tee"@ && names[6] == "truncate"@ && names[7]
        == "rm"@ && names[8] == "unlink"@ && names[9] == "touch"@ && names[10] == "mkdir"@
        && names[11] == "install"@ && names[12] == "cd"@ && names[13] == "pushd"@);
}

} // verus!
