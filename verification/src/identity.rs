//! Which object of the file system a path names, and what may be done to it.

use crate::errors::{Error, ErrorView};
use vstd::prelude::*;
use vstd::slice::slice_to_vec;
use vstd::std_specs::cmp::PartialEqSpec;

verus! {

/// What tells one object of the file system from another: the device it
/// lives on and its inode number there.
#[derive(Debug, Clone, Copy, PartialEq, Eq, Structural)]
pub struct FileIdentity {
    pub device: u64,
    pub inode: u64,
}

/// What kind of object a path names, the path itself and not what a symbolic
/// link at it points to.
#[derive(Debug, Clone, Copy, PartialEq, Eq, Structural)]
pub enum FileKind {
    File,
    Symlink,
    Directory,
    /// A device node, a socket, a pipe and the like.
    Other,
}

/// What a look at a path, without following a symbolic link, has shown.
#[derive(Debug, Clone, Copy, PartialEq, Eq, Structural)]
pub struct FileStatus {
    pub identity: FileIdentity,
    pub kind: FileKind,
}

/// How to take away what a path names.
#[derive(Debug, Clone, Copy, PartialEq, Eq, Structural)]
pub enum Removal {
    /// Nothing is there.
    Nothing,
    /// Delete the one file or symbolic link.
    File,
    /// Delete the directory, which succeeds only if it is empty.
    Directory,
}

/// Whether two looks have shown one and the same object. A look that found
/// nothing, or failed, shows no object: it equals no other, not even itself.
pub open spec fn identity_equal(lhs: Option<FileStatus>, rhs: Option<FileStatus>) -> bool {
    lhs is Some && rhs is Some && lhs->0.identity == rhs->0.identity
}

/// How an object of the given status is removed. There is no way for one
/// that is neither a file, a symbolic link nor a directory.
pub open spec fn spec_removal(status: Option<FileStatus>) -> Option<Removal> {
    match status {
        None => Some(Removal::Nothing),
        Some(s) => match s.kind {
            FileKind::File | FileKind::Symlink => Some(Removal::File),
            FileKind::Directory => Some(Removal::Directory),
            FileKind::Other => None,
        },
    }
}

/// A path together with what a look at it has shown; `None` where the look
/// found nothing or failed.
#[derive(Debug, Clone)]
pub struct PathExt {
    path: Vec<u8>,
    status: Option<FileStatus>,
}

/// The mathematical value of a [`PathExt`].
pub ghost struct PathExtView {
    pub path: Seq<u8>,
    pub status: Option<FileStatus>,
}

impl View for PathExt {
    type V = PathExtView;

    closed spec fn view(&self) -> PathExtView {
        PathExtView { path: self.path@, status: self.status }
    }
}

impl PathExt {
    /// Pairs `path` with the `status` that a look at it has shown.
    pub fn new(path: Vec<u8>, status: Option<FileStatus>) -> (r: PathExt)
        ensures
            r@ == (PathExtView { path: path@, status }),
    {
        PathExt { path, status }
    }

    /// The path.
    pub fn path(&self) -> (r: &[u8])
        ensures
            r@ == self@.path,
    {
        self.path.as_slice()
    }

    /// What the look at the path has shown.
    pub fn status(&self) -> (r: Option<FileStatus>)
        ensures
            r == self@.status,
    {
        self.status
    }

    /// Tells how to remove what the path names: nothing where nothing is
    /// there, the one file or symbolic link, or the directory.
    /// Fails with [`Error::UnknownFileType`] exactly when the path names
    /// something else.
    pub fn remove(&self) -> (r: Result<Removal, Error>)
        ensures
            match r {
                Ok(removal) => spec_removal(self@.status) == Some(removal),
                Err(e) => spec_removal(self@.status) is None && e@ == ErrorView::UnknownFileType(
                    self@.path,
                ),
            },
    {
        match self.status {
            None => Ok(Removal::Nothing),
            Some(s) => match s.kind {
                FileKind::File => Ok(Removal::File),
                FileKind::Symlink => Ok(Removal::File),
                FileKind::Directory => Ok(Removal::Directory),
                FileKind::Other => Err(Error::UnknownFileType(slice_to_vec(self.path.as_slice()))),
            },
        }
    }
}

/// Two paths are equal when both name something and it is the same object:
/// the same inode on the same device.
impl PartialEq for PathExt {
    fn eq(&self, other: &PathExt) -> (r: bool) {
        match (self.status, other.status) {
            (Some(lhs), Some(rhs)) => lhs.identity.inode == rhs.identity.inode
                && lhs.identity.device == rhs.identity.device,
            _ => false,
        }
    }
}

impl vstd::std_specs::cmp::PartialEqSpecImpl for PathExt {
    open spec fn obeys_eq_spec() -> bool {
        true
    }

    open spec fn eq_spec(&self, other: &PathExt) -> bool {
        identity_equal(self@.status, other@.status)
    }
}

/// Comparing by identity is reflexive for a path that names something,
/// false whenever one of the two paths names nothing, and symmetric.
pub proof fn lemma_identity_comparison(lhs: PathExt, rhs: PathExt)
    ensures
        lhs@.status is Some ==> lhs.eq_spec(&lhs),
        lhs@.status is None || rhs@.status is None ==> !lhs.eq_spec(&rhs),
        lhs.eq_spec(&rhs) == rhs.eq_spec(&lhs),
{
}

} // verus!
