//! The error taxonomy of the remote filesystem core.

use vstd::prelude::*;

verus! {

/// The kind of a failure surfaced by the client.
///
/// Every operation reports exactly one of these kinds; no retries or
/// silent recovery happen anywhere in the core.
#[derive(Clone, Copy, Debug, PartialEq, Eq, Structural)]
pub enum ErrorKind {
    /// No environment is bound (or the binding is no longer alive).
    NotConnected,
    /// The underlying cluster connection could not be established.
    ConnectionError,
    /// The exec channel failed, or the exit-status token was malformed.
    ProtocolError,
    /// The referenced file or directory does not exist.
    NoSuchFileOrDirectory,
    /// A directory of that name already exists.
    DirectoryAlreadyExists,
    /// The directory is not empty and cannot be removed.
    DirectoryNotEmpty,
    /// The file could not be removed.
    CouldNotRemoveFile,
    /// The operation needs a fully selected environment, or the file
    /// could not be opened.
    CouldNotOpenFile,
    /// The file or directory could not be created.
    FileCreateDenied,
    /// Reading or writing file attributes failed.
    StatFailed,
    /// A local scratch resource failed.
    IoError,
    /// The transport offers no partial-file streaming.
    UnsupportedFeature,
}

impl ErrorKind {
    /// A short human-readable label for the error kind.
    pub fn label(&self) -> (r: &'static str)
        ensures
            r@.len() > 0,
    {
        proof {
            reveal_strlit("not connected");
            reveal_strlit("connection error");
            reveal_strlit("protocol error");
            reveal_strlit("no such file or directory");
            reveal_strlit("directory already exists");
            reveal_strlit("directory not empty");
            reveal_strlit("could not remove file");
            reveal_strlit("could not open file");
            reveal_strlit("file creation denied");
            reveal_strlit("stat failed");
            reveal_strlit("io error");
            reveal_strlit("unsupported feature");
        }
        match self {
            ErrorKind::NotConnected => "not connected",
            ErrorKind::ConnectionError => "connection error",
            ErrorKind::ProtocolError => "protocol error",
            ErrorKind::NoSuchFileOrDirectory => "no such file or directory",
            ErrorKind::DirectoryAlreadyExists => "directory already exists",
            ErrorKind::DirectoryNotEmpty => "directory not empty",
            ErrorKind::CouldNotRemoveFile => "could not remove file",
            ErrorKind::CouldNotOpenFile => "could not open file",
            ErrorKind::FileCreateDenied => "file creation denied",
            ErrorKind::StatFailed => "stat failed",
            ErrorKind::IoError => "io error",
            ErrorKind::UnsupportedFeature => "unsupported feature",
        }
    }
}

} // verus!
