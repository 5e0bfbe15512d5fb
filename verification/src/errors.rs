//! The ways in which making a link can fail.

use vstd::prelude::*;

verus! {

/// The kind of a failure, without the paths it concerns.
#[derive(Debug, Clone, Copy, PartialEq, Eq, Structural)]
pub enum ErrorKind {
    /// A path has no final component to name the link after.
    NoBasename,
    /// A directory above the destination could not be created.
    DirectoryCreationFailed,
    /// The target of the link does not exist.
    SourceMissing,
    /// The destination that was to be removed is the source itself.
    SameFile,
    /// The destination is neither a file, a symbolic link nor a directory.
    UnknownFileType,
    /// The destination could not be removed.
    RemovalFailed,
    /// The link could not be created.
    LinkCreationFailed,
}

/// A failure, with the paths it concerns.
#[derive(Debug, Clone, PartialEq, Eq)]
pub enum Error {
    /// The path has no final component to name the link after.
    NoBasename(Vec<u8>),
    /// The directory could not be created.
    DirectoryCreationFailed(Vec<u8>),
    /// Nothing exists at the path that the link would point to.
    SourceMissing(Vec<u8>),
    /// Source and destination are one file, so the destination is not removed.
    SameFile { source: Vec<u8>, destination: Vec<u8> },
    /// The path exists but is neither a file, a symbolic link nor a directory.
    UnknownFileType(Vec<u8>),
    /// The path could not be removed.
    RemovalFailed(Vec<u8>),
    /// No link could be created at the path.
    LinkCreationFailed(Vec<u8>),
}

/// The mathematical value of an [`Error`]: the same cases over byte sequences.
pub ghost enum ErrorView {
    NoBasename(Seq<u8>),
    DirectoryCreationFailed(Seq<u8>),
    SourceMissing(Seq<u8>),
    SameFile { source: Seq<u8>, destination: Seq<u8> },
    UnknownFileType(Seq<u8>),
    RemovalFailed(Seq<u8>),
    LinkCreationFailed(Seq<u8>),
}

impl ErrorView {
    /// The kind of this failure.
    pub open spec fn kind(self) -> ErrorKind {
        match self {
            ErrorView::NoBasename(_) => ErrorKind::NoBasename,
            ErrorView::DirectoryCreationFailed(_) => ErrorKind::DirectoryCreationFailed,
            ErrorView::SourceMissing(_) => ErrorKind::SourceMissing,
            ErrorView::SameFile { .. } => ErrorKind::SameFile,
            ErrorView::UnknownFileType(_) => ErrorKind::UnknownFileType,
            ErrorView::RemovalFailed(_) => ErrorKind::RemovalFailed,
            ErrorView::LinkCreationFailed(_) => ErrorKind::LinkCreationFailed,
        }
    }
}

impl View for Error {
    type V = ErrorView;

    open spec fn view(&self) -> ErrorView {
        match self {
            Error::NoBasename(p) => ErrorView::NoBasename(p@),
            Error::DirectoryCreationFailed(p) => ErrorView::DirectoryCreationFailed(p@),
            Error::SourceMissing(p) => ErrorView::SourceMissing(p@),
            Error::SameFile { source, destination } => ErrorView::SameFile {
                source: source@,
                destination: destination@,
            },
            Error::UnknownFileType(p) => ErrorView::UnknownFileType(p@),
            Error::RemovalFailed(p) => ErrorView::RemovalFailed(p@),
            Error::LinkCreationFailed(p) => ErrorView::LinkCreationFailed(p@),
        }
    }
}

impl Error {
    /// The kind of this failure.
    pub fn kind(&self) -> (k: ErrorKind)
        ensures
            k == self@.kind(),
    {
        match self {
            Error::NoBasename(_) => ErrorKind::NoBasename,
            Error::DirectoryCreationFailed(_) => ErrorKind::DirectoryCreationFailed,
            Error::SourceMissing(_) => ErrorKind::SourceMissing,
            Error::SameFile { .. } => ErrorKind::SameFile,
            Error::UnknownFileType(_) => ErrorKind::UnknownFileType,
            Error::RemovalFailed(_) => ErrorKind::RemovalFailed,
            Error::LinkCreationFailed(_) => ErrorKind::LinkCreationFailed,
        }
    }
}

} // verus!
