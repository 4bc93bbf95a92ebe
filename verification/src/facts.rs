//! A snapshot of everything the layers read from the system for one
//! `(identity, path, op)`: file metadata, mount flags, capability sets,
//! namespace state, and the kernel's own access answers. Gathering it is
//! the caller's I/O; evaluating it is this library's logic.

use vstd::prelude::*;
use crate::access_check::{KernelAnswer, KernelCheck};
use crate::report::IdentityReport;

verus! {

/// How a failed lookup failed, by errno class.
#[derive(Clone, Copy, PartialEq, Eq, Debug, Structural)]
pub enum ErrKind {
    /// EACCES: the lookup itself was refused.
    Access,
    /// ENOENT.
    NotFound,
    /// ENOTDIR.
    NotDir,
    /// ELOOP.
    Loop,
    Other,
}

/// A failed lookup: its errno class and the error text as displayed.
pub struct IoFailure {
    pub kind: ErrKind,
    pub text: String,
}

/// The metadata of one node as `stat` reports it, with the owner and group
/// names the user and group databases give for its uid and gid.
pub struct NodeMeta {
    pub mode: u32,
    pub uid: u32,
    pub gid: u32,
    pub nlink: u64,
    pub size: u64,
    pub is_dir: bool,
    pub is_symlink: bool,
    pub owner_name: Option<String>,
    pub group_name: Option<String>,
}

/// The outcome of a `stat`-like lookup.
pub enum Probe {
    Found(NodeMeta),
    Failed(IoFailure),
}

/// One ancestor directory of the target, root first.
pub struct Ancestor {
    pub dir: String,
    pub meta: Probe,
}

/// Mount flags as `statvfs` reports them.
#[derive(Clone, Copy, PartialEq, Eq, Debug, Structural)]
pub struct MountFlags {
    pub ro: bool,
    pub noexec: bool,
    pub nosuid: bool,
    pub nodev: bool,
}

/// The inode attribute flags the access checks honour, as `FS_IOC_GETFLAGS`
/// (or `st_flags`) reports them.
#[derive(Clone, Copy, PartialEq, Eq, Debug, Structural)]
pub struct AttrFlags {
    /// Nothing may modify, delete, rename or link the node.
    pub immutable: bool,
    /// The node may only be opened for appending and never be deleted.
    pub append_only: bool,
}

/// The mount that holds the target: its flags, its mount point, and the
/// mount table text when one could be read; or the `statvfs` failure.
pub enum MountProbe {
    Read { flags: MountFlags, mountpoint: String, mountinfo: Option<String> },
    Failed { text: String },
}

/// Namespace and process state for the container layer: the uid map and
/// process status texts, a container marker when one was found, and the
/// kernel's overflow uid text.
pub struct ContainerProbe {
    pub uid_map: Option<String>,
    pub status: String,
    pub marker: Option<String>,
    pub overflowuid: Option<String>,
}

/// The kernel's answers for the gating node of the op.
pub struct KernelProbe {
    pub answer: KernelAnswer,
    pub rwx: KernelCheck,
}

/// Everything the layers read, for one target path.
pub struct Facts {
    /// The target path as given.
    pub path: String,
    /// `lstat` of the target.
    pub lstat: Probe,
    /// The link text when the target is a symlink that could be read.
    pub link_target: Option<String>,
    /// `stat` of the target, following symlinks.
    pub stat: Probe,
    /// `stat` of the target's parent directory (`.` when it has none).
    pub parent: Probe,
    /// The ancestors of the absolute target path, root first; `None` when the
    /// absolute path has no parent.
    pub ancestors: Option<Vec<Ancestor>>,
    /// The tool's effective uid.
    pub euid: u32,
    /// The mount holding the node the mount layer asks about
    /// (`crate::layers::mount::mount_subject`).
    pub mount: MountProbe,
    /// Whether this platform has Linux capabilities at all.
    pub caps_supported: bool,
    /// Indices of the effective capabilities of the tool, when readable.
    pub effective_caps: Option<Vec<u8>>,
    /// The target's `security.capability` attribute, when present.
    pub file_caps: Option<Vec<u8>>,
    pub container: ContainerProbe,
    /// The identity as the report describes it.
    pub identity: IdentityReport,
    /// The kernel's answers, when the target identity is the current user.
    pub kernel: Option<KernelProbe>,
    /// The mandatory access control module that is active (`selinux`,
    /// `apparmor`, `smack` or `tomoyo`), when one is.
    pub lsm: Option<String>,
    /// The `system.posix_acl_access` attribute of the node the op is decided
    /// on (`crate::access_check::gate_path`), when it has one.
    pub acl: Option<Vec<u8>>,
    /// The target's attribute flags, when the filesystem reports them.
    pub attrs: Option<AttrFlags>,
    /// The attribute flags of the directory that gates a create or delete,
    /// when the filesystem reports them.
    pub parent_attrs: Option<AttrFlags>,
}

} // verus!
