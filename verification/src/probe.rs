//! What the file system reported about a path, as plain values.
//!
//! The caller asks the operating system and records the answers here; the
//! rules of this crate are then functions of those answers.

use vstd::prelude::*;
use crate::error::{Error, ErrorView};

verus! {

/// The metadata of an existing entry, after following symbolic links.
#[derive(Debug, Clone, Copy, PartialEq, Eq)]
pub struct Metadata {
    /// The entry is a directory.
    pub is_dir: bool,
    /// The entry is a regular file.
    pub is_file: bool,
    /// The entry is a named pipe.
    pub is_fifo: bool,
    /// The permission bits of the entry.
    pub mode: u32,
    /// The entry's permissions forbid writing.
    pub readonly: bool,
    /// The size of the entry in bytes.
    pub len: u64,
}

/// The answers of the file system about one path.
#[derive(Debug, PartialEq, Eq)]
pub struct PathProbe {
    /// Whether something exists at the path, or why that could not be told.
    pub exists: Result<bool, Error>,
    /// The metadata of what is there, or why none could be had.
    pub metadata: Result<Metadata, Error>,
    /// Why the path could not be made canonical, if it could not.
    pub canonical: Option<Error>,
}

/// The mathematical value of a [`PathProbe`].
pub struct ProbeView {
    pub exists: Result<bool, ErrorView>,
    pub metadata: Result<Metadata, ErrorView>,
    pub canonical: Option<ErrorView>,
}

impl View for PathProbe {
    type V = ProbeView;

    open spec fn view(&self) -> ProbeView {
        ProbeView {
            exists: match self.exists {
                Ok(found) => Ok(found),
                Err(e) => Err(e@),
            },
            metadata: match self.metadata {
                Ok(metadata) => Ok(metadata),
                Err(e) => Err(e@),
            },
            canonical: match self.canonical {
                Some(e) => Some(e@),
                None => None,
            },
        }
    }
}

impl ProbeView {
    /// Metadata could be had: the path names something.
    pub open spec fn is_present(self) -> bool {
        self.metadata is Ok
    }

    /// The path names a directory.
    pub open spec fn is_dir(self) -> bool {
        self.metadata matches Ok(m) && m.is_dir
    }

    /// The path names a regular file.
    pub open spec fn is_file(self) -> bool {
        self.metadata matches Ok(m) && m.is_file
    }

    /// The path names a named pipe.
    pub open spec fn is_fifo(self) -> bool {
        self.metadata matches Ok(m) && m.is_fifo
    }

    /// The answers for a path at which nothing exists.
    pub open spec fn missing() -> ProbeView {
        ProbeView {
            exists: Ok(false),
            metadata: Err(ErrorView::not_found_error()),
            canonical: Some(ErrorView::not_found_error()),
        }
    }

    /// The answers for a path at which an entry with `metadata` exists.
    pub open spec fn found(metadata: Metadata) -> ProbeView {
        ProbeView { exists: Ok(true), metadata: Ok(metadata), canonical: None }
    }
}

impl PathProbe {
    /// The answers for a path at which nothing exists.
    pub fn missing() -> (p: PathProbe)
        ensures
            p@ == ProbeView::missing(),
    {
        PathProbe {
            exists: Ok(false),
            metadata: Err(Error::not_found_error()),
            canonical: Some(Error::not_found_error()),
        }
    }

    /// The answers for a path at which an entry with `metadata` exists.
    pub fn found(metadata: Metadata) -> (p: PathProbe)
        ensures
            p@ == ProbeView::found(metadata),
    {
        PathProbe { exists: Ok(true), metadata: Ok(metadata), canonical: None }
    }

    /// Whether the path names something: metadata could be had.
    pub fn is_present(&self) -> (r: bool)
        ensures
            r == self@.is_present(),
    {
        self.metadata.is_ok()
    }

    /// Whether the path names a directory.
    pub fn is_dir(&self) -> (r: bool)
        ensures
            r == self@.is_dir(),
    {
        match &self.metadata {
            Ok(m) => m.is_dir,
            Err(_) => false,
        }
    }

    /// Whether the path names a regular file.
    pub fn is_file(&self) -> (r: bool)
        ensures
            r == self@.is_file(),
    {
        match &self.metadata {
            Ok(m) => m.is_file,
            Err(_) => false,
        }
    }

    /// Whether the path names a named pipe.
    pub fn is_fifo(&self) -> (r: bool)
        ensures
            r == self@.is_fifo(),
    {
        match &self.metadata {
            Ok(m) => m.is_fifo,
            Err(_) => false,
        }
    }
}

} // verus!
