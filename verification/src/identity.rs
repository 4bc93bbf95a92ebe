//! The target identity every layer evaluates against, and how it is
//! described in the report and the banner.

use vstd::prelude::*;
use vstd::string::*;
use crate::report::{IdentityReport, RunningAs};
use crate::text::{append_str, chars_of, dec, dec_u64, lit, parse_radix, parse_unsigned};

verus! {

/// A target identity: uid, primary gid, full supplementary group set.
#[derive(Debug)]
pub struct Identity {
    pub uid: u32,
    pub primary_gid: u32,
    pub groups: Vec<u32>,
    pub name: Option<String>,
    pub is_self: bool,
}

/// The supplementary groups with the primary group added when missing.
pub open spec fn groups_with_primary(groups: Seq<u32>, primary: u32) -> Seq<u32> {
    if groups.contains(primary) {
        groups
    } else {
        groups.push(primary)
    }
}

/// Adds the primary group to a user's group list unless it is already there.
pub fn groups_for(listed: Option<Vec<u32>>, primary_gid: u32) -> (r: Vec<u32>)
    ensures
        r@ == groups_with_primary(
            match listed {
                Some(g) => g@,
                None => Seq::empty(),
            },
            primary_gid,
        ),
{
    let mut groups = match listed {
        Some(g) => g,
        None => Vec::new(),
    };
    let ghost before = groups@;
    let mut found = false;
    let mut i: usize = 0;
    while i < groups.len()
        invariant
            groups@ == before,
            i <= groups@.len(),
            found <==> exists|k: int| 0 <= k < i && groups@[k] == primary_gid,
        decreases groups@.len() - i,
    {
        if groups[i] == primary_gid {
            found = true;
        }
        i += 1;
    }
    if !found {
        groups.push(primary_gid);
    }
    groups
}

/// Why an identity could not be built.
#[derive(Debug)]
pub enum IdentityError {
    NoPrimaryGroup { uid: u32 },
    UnknownUser { spec: String },
}

pub open spec fn identity_error_text(e: IdentityError) -> Seq<char> {
    match e {
        IdentityError::NoPrimaryGroup { uid } => "cannot determine primary gid for uid "@ + dec(
            uid as nat,
        ),
        IdentityError::UnknownUser { spec } => "unknown user: "@ + spec@,
    }
}

impl IdentityError {
    /// The message the error is shown with.
    pub fn message(&self) -> (r: String)
        ensures
            r@ == identity_error_text(*self),
    {
        match self {
            IdentityError::NoPrimaryGroup { uid } => {
                let mut s = lit("cannot determine primary gid for uid ");
                append_str(&mut s, dec_u64(*uid as u64).as_str());
                s
            },
            IdentityError::UnknownUser { spec } => {
                let mut s = lit("unknown user: ");
                append_str(&mut s, spec.as_str());
                s
            },
        }
    }
}

/// A decimal uid or gid as the environment or the command line writes it:
/// digits after an optional `+`, at most `u32::MAX`.
pub fn parse_id(text: &str) -> (r: Option<u32>)
    ensures
        match parse_radix(text@, 10, u32::MAX as nat) {
            Some(v) => r == Some(v as u32),
            None => r is None,
        },
{
    let cs = chars_of(text);
    match parse_unsigned(cs.as_slice(), 10, u32::MAX as u64) {
        Some(v) => Some(v as u32),
        None => None,
    }
}

/// How `--user` names a user: a decimal number is a uid, anything else a
/// user name.
#[derive(PartialEq, Eq, Debug)]
pub enum UserSpec {
    Uid(u32),
    Name(String),
}

pub fn parse_user_spec(spec: &str) -> (r: UserSpec)
    ensures
        match parse_radix(spec@, 10, u32::MAX as nat) {
            Some(v) => r == UserSpec::Uid(v as u32),
            None => r matches UserSpec::Name(n) && n@ == spec@,
        },
{
    match parse_id(spec) {
        Some(uid) => UserSpec::Uid(uid),
        None => UserSpec::Name(lit(spec)),
    }
}

/// The password-database entry of a uid, as looked up.
pub struct UserEntry {
    pub name: Option<String>,
    pub primary_gid: u32,
}

/// Builds the identity of `uid`: an explicit name or primary gid wins over
/// the password-database entry; the groups are the user's group list with
/// the primary group added.
pub fn build_identity(
    uid: u32,
    primary_gid: Option<u32>,
    name: Option<String>,
    entry: Option<UserEntry>,
    listed_groups: Option<Vec<u32>>,
    effective_uid: u32,
) -> (r: Result<Identity, IdentityError>)
    ensures
        (primary_gid is None && entry is None) <==> r is Err,
        r matches Err(e) ==> e == (IdentityError::NoPrimaryGroup { uid }),
        r matches Ok(id) ==> {
            let gid = match primary_gid {
                Some(g) => g,
                None => entry->0.primary_gid,
            };
            &&& id.uid == uid
            &&& id.primary_gid == gid
            &&& id.name == match name {
                Some(n) => Some(n),
                None => match entry {
                    Some(e) => e.name,
                    None => None,
                },
            }
            &&& id.groups@ == groups_with_primary(
                match listed_groups {
                    Some(g) => g@,
                    None => Seq::empty(),
                },
                gid,
            )
            &&& id.is_self == (uid == effective_uid)
        },
{
    let entry_gid = match &entry {
        Some(e) => Some(e.primary_gid),
        None => None,
    };
    let name = match name {
        Some(n) => Some(n),
        None => match entry {
            Some(e) => e.name,
            None => None,
        },
    };
    let gid = match primary_gid {
        Some(g) => g,
        None => match entry_gid {
            Some(g) => g,
            None => {
                return Err(IdentityError::NoPrimaryGroup { uid });
            },
        },
    };
    let groups = groups_for(listed_groups, gid);
    Ok(Identity { uid, primary_gid: gid, groups, name, is_self: uid == effective_uid })
}

/// The first line of the banner: who the checks run as, and what the
/// current privilege can and cannot confirm.
pub open spec fn banner_spec(name: Option<String>, uid: u32, ra: RunningAs, lsm_active: bool) -> Seq<
    char,
> {
    let head = "running as "@ + match name {
        Some(n) => n@,
        None => "?"@,
    } + " (uid "@ + dec(uid as nat) + ")"@;
    match ra {
        RunningAs::Root | RunningAs::SudoElevated => head + "; full audit-log access"@,
        RunningAs::User => if lsm_active {
            head + "; MAC denial confirmation needs sudo"@
        } else {
            head
        },
    }
}

pub fn banner_text(id: &Identity, ra: RunningAs, lsm_active: bool) -> (r: String)
    ensures
        r@ == banner_spec(id.name, id.uid, ra, lsm_active),
{
    let mut head = lit("running as ");
    match &id.name {
        Some(n) => append_str(&mut head, n.as_str()),
        None => append_str(&mut head, "?"),
    }
    append_str(&mut head, " (uid ");
    append_str(&mut head, dec_u64(id.uid as u64).as_str());
    append_str(&mut head, ")");
    match ra {
        RunningAs::Root | RunningAs::SudoElevated => {
            append_str(&mut head, "; full audit-log access");
        },
        RunningAs::User => {
            if lsm_active {
                append_str(&mut head, "; MAC denial confirmation needs sudo");
            }
        },
    }
    head
}

/// The identity as the report describes it, with the group names the
/// group database gave and the privilege the tool runs with.
pub fn to_report(id: &Identity, ra: RunningAs, lsm_active: bool, group_names: Vec<String>) -> (r:
    IdentityReport)
    ensures
        r.target_uid == id.uid,
        r.target_user == id.name,
        r.primary_gid == id.primary_gid,
        r.groups@ == id.groups@,
        r.group_names@ == group_names@,
        r.running_as == ra,
        r.privilege_note@ == banner_spec(id.name, id.uid, ra, lsm_active),
        r.target_is_self == id.is_self,
{
    let groups = id.groups.clone();
    assert(groups@ =~= id.groups@);
    IdentityReport {
        target_uid: id.uid,
        target_user: id.name.clone(),
        primary_gid: id.primary_gid,
        groups,
        group_names,
        running_as: ra,
        privilege_note: banner_text(id, ra, lsm_active),
        target_is_self: id.is_self,
    }
}

} // verus!
