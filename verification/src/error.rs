//! The errors that opening, validating and finishing a stream can give.

use vstd::prelude::*;
use vstd::string::*;
use crate::text::{decimal, decimal_string};

verus! {

/// The generic kind of a failure, in the vocabulary of the operating system.
#[derive(Debug, Clone, Copy, PartialEq, Eq, Structural)]
pub enum ErrorKind {
    /// Nothing exists at the path, or the server does not have the resource.
    NotFound,
    /// The caller may not read or write the resource.
    PermissionDenied,
    /// A file was expected and a directory was found.
    IsADirectory,
    /// A directory was expected and something else was found.
    NotADirectory,
    /// The stream has no position to move.
    NotSeekable,
    /// An argument was out of range.
    InvalidInput,
    /// Anything else.
    Other,
}

/// A failure reported by, or in the terms of, the operating system.
#[derive(Debug, PartialEq, Eq)]
pub struct IoError {
    /// The generic kind of the failure.
    pub kind: ErrorKind,
    /// The operating system's own number for it, where it gave one.
    pub code: Option<i32>,
    /// What to show to the user. For a failure with a number this is the
    /// text that the operating system shows for the number.
    pub message: String,
}

/// Any error that happens when opening a stream.
#[derive(Debug, PartialEq, Eq)]
pub enum Error {
    /// The failure returned by the operating system when opening the file.
    Io(IoError),
    /// The HTTP response code and message returned by the server.
    ///
    /// Code 499 stands for a connection that did not complete.
    Http {
        /// The HTTP status code.
        code: u16,
        /// The message returned by the server.
        message: String,
    },
}

/// The mathematical value of an [`Error`].
///
/// A failure that the operating system numbers is told by its number:
/// its text is whatever the system shows for that number, and is no part
/// of the value.
#[allow(inconsistent_fields)]
pub enum ErrorView {
    /// A failure with the operating system's number for it.
    Os { kind: ErrorKind, code: i32 },
    /// A failure in the operating system's terms that it did not number.
    Io { kind: ErrorKind, message: Seq<char> },
    /// The status and message of an HTTP response.
    Http { code: u16, message: Seq<char> },
}

impl View for IoError {
    type V = ErrorView;

    open spec fn view(&self) -> ErrorView {
        match self.code {
            Some(code) => ErrorView::Os { kind: self.kind, code },
            None => ErrorView::Io { kind: self.kind, message: self.message@ },
        }
    }
}

impl View for Error {
    type V = ErrorView;

    open spec fn view(&self) -> ErrorView {
        match *self {
            Error::Io(e) => e@,
            Error::Http { code, message } => ErrorView::Http { code, message: message@ },
        }
    }
}

impl Clone for IoError {
    fn clone(&self) -> (r: IoError)
        ensures
            r == *self,
    {
        IoError { kind: self.kind, code: self.code, message: self.message.clone() }
    }
}

impl Clone for Error {
    fn clone(&self) -> (r: Error)
        ensures
            r == *self,
    {
        match self {
            Error::Io(err) => Error::Io(err.clone()),
            Error::Http { code, message } => Error::Http { code: *code, message: message.clone() },
        }
    }
}

/// The view of a result that carries no value.
pub open spec fn check_view(r: Result<(), Error>) -> Result<(), ErrorView> {
    match r {
        Ok(()) => Ok(()),
        Err(e) => Err(e@),
    }
}

/// The status code used for a malformed URL.
pub const BAD_REQUEST: u16 = 400;

/// The status code used when the connection failed before the server
/// answered with a status of its own.
pub const CONNECTION_FAILED: u16 = 499;

/// The operating system's number for "no such file or directory".
pub const ENOENT: i32 = 2;

/// The operating system's number for "permission denied".
pub const EACCES: i32 = 13;

/// The operating system's number for "not a directory".
pub const ENOTDIR: i32 = 20;

/// The operating system's number for "is a directory".
pub const EISDIR: i32 = 21;

/// The operating system's number for "illegal seek".
pub const ESPIPE: i32 = 29;

/// Reads `libc::ENOENT`, which libc defines as 2 for Linux.
#[verifier::external_body]
fn libc_enoent() -> (r: i32)
    ensures
        r == ENOENT,
{
    libc::ENOENT
}

/// Reads `libc::EACCES`, which libc defines as 13 for Linux.
#[verifier::external_body]
fn libc_eacces() -> (r: i32)
    ensures
        r == EACCES,
{
    libc::EACCES
}

/// Reads `libc::ENOTDIR`, which libc defines as 20 for Linux.
#[verifier::external_body]
fn libc_enotdir() -> (r: i32)
    ensures
        r == ENOTDIR,
{
    libc::ENOTDIR
}

/// Reads `libc::EISDIR`, which libc defines as 21 for Linux.
#[verifier::external_body]
fn libc_eisdir() -> (r: i32)
    ensures
        r == EISDIR,
{
    libc::EISDIR
}

/// Reads `libc::ESPIPE`, which libc defines as 29 for Linux.
#[verifier::external_body]
fn libc_espipe() -> (r: i32)
    ensures
        r == ESPIPE,
{
    libc::ESPIPE
}

/// Makes the standard library's error of a raw operating system number,
/// with `std::io::Error::from_raw_os_error`, and takes the text that it
/// shows. Nothing is claimed of the text: it is the system's, and may
/// follow the locale.
#[verifier::external_body]
fn os_error_text(code: i32) -> (r: String) {
    std::io::Error::from_raw_os_error(code).to_string()
}

/// The generic kind that an HTTP status code maps to.
pub open spec fn http_kind(code: u16) -> ErrorKind {
    if code == 404 || code == 410 {
        ErrorKind::NotFound
    } else if code == 401 || code == 403 {
        ErrorKind::PermissionDenied
    } else {
        ErrorKind::Other
    }
}

impl ErrorView {
    /// The generic kind of the failure.
    pub open spec fn kind(self) -> ErrorKind {
        match self {
            ErrorView::Os { kind, .. } => kind,
            ErrorView::Io { kind, .. } => kind,
            ErrorView::Http { code, .. } => http_kind(code),
        }
    }

    /// The operating system's number of the failure, if it has one.
    pub open spec fn raw_os_error(self) -> Option<i32> {
        match self {
            ErrorView::Os { code, .. } => Some(code),
            _ => None,
        }
    }

    /// An error made by this library that the operating system does not
    /// number.
    pub open spec fn plain(kind: ErrorKind, message: Seq<char>) -> ErrorView {
        ErrorView::Io { kind, message }
    }

    /// The system's error for a seek on a stream that cannot seek.
    pub open spec fn seek_error() -> ErrorView {
        ErrorView::Os { kind: ErrorKind::NotSeekable, code: ESPIPE }
    }

    /// The system's error for a directory where a file was asked for.
    pub open spec fn dir_error() -> ErrorView {
        ErrorView::Os { kind: ErrorKind::IsADirectory, code: EISDIR }
    }

    /// The system's error for something else where a directory was asked
    /// for.
    pub open spec fn not_dir_error() -> ErrorView {
        ErrorView::Os { kind: ErrorKind::NotADirectory, code: ENOTDIR }
    }

    /// The system's error for an access that the permissions forbid.
    pub open spec fn permission_error() -> ErrorView {
        ErrorView::Os { kind: ErrorKind::PermissionDenied, code: EACCES }
    }

    /// The system's error for a path at which nothing exists.
    pub open spec fn not_found_error() -> ErrorView {
        ErrorView::Os { kind: ErrorKind::NotFound, code: ENOENT }
    }
}

/// The line shown when `path` could not be opened, for an error shown as
/// `text`.
pub open spec fn opening_line(path: Seq<char>, text: Seq<char>) -> Seq<char> {
    "Error opening "@ + path + ": "@ + text
}

/// `line` is the line shown when `path` could not be opened because of
/// `e`.
pub open spec fn shows(e: Error, line: Seq<char>, path: Seq<char>) -> bool {
    line == opening_line(path, e.shown())
}

/// `line` is the line shown when `path` could not be opened because of
/// an error of the value `error`.
pub open spec fn is_opening_line(line: Seq<char>, path: Seq<char>, error: ErrorView) -> bool {
    exists|e: Error| e@ == error && #[trigger] shows(e, line, path)
}

impl Error {
    /// The text shown to the user: the message of an operating system
    /// failure, or the status code, a colon and the server's message.
    pub open spec fn shown(&self) -> Seq<char> {
        match *self {
            Error::Io(e) => e.message@,
            Error::Http { code, message } => decimal(code as nat) + ": "@ + message@,
        }
    }

    /// Returns the corresponding [`ErrorKind`] for this error.
    pub fn kind(&self) -> (k: ErrorKind)
        ensures
            k == self@.kind(),
    {
        match self {
            Error::Io(err) => err.kind,
            Error::Http { code, message: _ } => {
                if *code == 404 || *code == 410 {
                    ErrorKind::NotFound
                } else if *code == 401 || *code == 403 {
                    ErrorKind::PermissionDenied
                } else {
                    ErrorKind::Other
                }
            },
        }
    }

    /// Returns the operating system's number for this error, if it has
    /// one.
    pub fn raw_os_error(&self) -> (r: Option<i32>)
        ensures
            r == self@.raw_os_error(),
    {
        match self {
            Error::Io(err) => err.code,
            Error::Http { .. } => None,
        }
    }

    /// The operating system's failure with the number `code`, held to be
    /// of the given kind. Its text is what the system shows for the
    /// number.
    pub fn os(kind: ErrorKind, code: i32) -> (e: Error)
        ensures
            e@ == (ErrorView::Os { kind, code }),
    {
        Error::Io(IoError { kind, code: Some(code), message: os_error_text(code) })
    }

    /// An error of the given kind that the operating system did not number.
    pub fn plain(kind: ErrorKind, message: &str) -> (e: Error)
        ensures
            e@ == ErrorView::plain(kind, message@),
            e.shown() == message@,
    {
        Error::Io(IoError { kind, code: None, message: String::from_str(message) })
    }

    /// An error of kind [`ErrorKind::Other`] with the given message.
    pub fn other(message: &str) -> (e: Error)
        ensures
            e@ == ErrorView::plain(ErrorKind::Other, message@),
            e.shown() == message@,
    {
        Error::plain(ErrorKind::Other, message)
    }

    /// The stream cannot seek: the system's error for an illegal seek.
    pub fn seek_error() -> (e: Error)
        ensures
            e@ == ErrorView::seek_error(),
    {
        Error::os(ErrorKind::NotSeekable, libc_espipe())
    }

    /// A file was asked for and the path names a directory.
    pub fn dir_error() -> (e: Error)
        ensures
            e@ == ErrorView::dir_error(),
    {
        Error::os(ErrorKind::IsADirectory, libc_eisdir())
    }

    /// A directory was asked for and the path names something else.
    pub fn not_dir_error() -> (e: Error)
        ensures
            e@ == ErrorView::not_dir_error(),
    {
        Error::os(ErrorKind::NotADirectory, libc_enotdir())
    }

    /// The permission bits forbid the access.
    pub fn permission_error() -> (e: Error)
        ensures
            e@ == ErrorView::permission_error(),
    {
        Error::os(ErrorKind::PermissionDenied, libc_eacces())
    }

    /// Nothing exists at the path.
    pub fn not_found_error() -> (e: Error)
        ensures
            e@ == ErrorView::not_found_error(),
    {
        Error::os(ErrorKind::NotFound, libc_enoent())
    }

    /// The text shown to the user: the system's text for a failure that
    /// it numbers, the message of any other failure in its terms, or the
    /// status code, a colon and the server's message.
    pub fn to_text(&self) -> (s: String)
        ensures
            s@ == self.shown(),
    {
        match self {
            Error::Io(err) => err.message.clone(),
            Error::Http { code, message } => {
                let mut s = decimal_string(*code as u64);
                s.append(": ");
                s.append(message.as_str());
                s
            },
        }
    }

    /// The line shown when `path` could not be opened.
    pub fn to_os_string(&self, path: &str) -> (s: String)
        ensures
            s@ == opening_line(path@, self.shown()),
            is_opening_line(s@, path@, self@),
    {
        let mut s = String::from_str("Error opening ");
        s.append(path);
        s.append(": ");
        let text = self.to_text();
        s.append(text.as_str());
        assert(shows(*self, s@, path@));
        s
    }

    /// This error in the operating system's terms: an HTTP failure keeps
    /// its generic kind and its text, and has no number.
    pub fn into_io(self) -> (e: IoError)
        ensures
            self matches Error::Io(err) ==> e == err,
            self is Http ==> e@ == ErrorView::plain(self@.kind(), self.shown()),
    {
        match self {
            Error::Io(err) => err,
            Error::Http { code, message } => {
                let err = Error::Http { code, message };
                IoError { kind: err.kind(), code: None, message: err.to_text() }
            },
        }
    }
}

} // verus!
