//! The bridge between a blocking HTTP call and an incremental stream.
//!
//! The call runs on a worker of its own and is joined to the caller by an
//! in-process pipe. Worker and caller meet once, before any byte is
//! exchanged: the caller waits for the first signal of the worker, which
//! says either that the transfer has begun or that the call has ended.
//! What each side decides at those points is laid down here; the threads,
//! the pipe and the request itself belong to the caller.

use vstd::prelude::*;
use vstd::string::*;
use crate::error::{check_view, Error, ErrorKind, ErrorView, CONNECTION_FAILED};
use crate::http::header::{parse_length, spec_parse_length};
use crate::text::{decimal, decimal_string};

verus! {

/// The method of a request.
#[derive(Debug, Clone, Copy, PartialEq, Eq)]
pub enum Method {
    /// Download the resource.
    Get,
    /// Upload the resource.
    Put,
}

/// The request that the worker issues.
#[derive(Debug, PartialEq, Eq)]
pub struct Request {
    /// The method.
    pub method: Method,
    /// The URL.
    pub url: String,
    /// The value of the content length header, where one is sent.
    pub content_length: Option<String>,
}

/// The mathematical value of a [`Request`].
pub struct RequestView {
    pub method: Method,
    pub url: Seq<char>,
    pub content_length: Option<Seq<char>>,
}

impl View for Request {
    type V = RequestView;

    open spec fn view(&self) -> RequestView {
        RequestView {
            method: self.method,
            url: self.url@,
            content_length: match self.content_length {
                Some(value) => Some(value@),
                None => None,
            },
        }
    }
}

/// What the worker tells the caller.
#[derive(Debug, PartialEq, Eq)]
pub enum Signal {
    /// The transfer has begun: the HTTP library asked for the first bytes
    /// of the body to send, or delivered the first bytes it received.
    Started,
    /// The call has ended, with this result.
    Ended(Result<(), Error>),
}

/// The mathematical value of a [`Signal`].
pub enum SignalView {
    Started,
    Ended(Result<(), ErrorView>),
}

impl View for Signal {
    type V = SignalView;

    open spec fn view(&self) -> SignalView {
        match *self {
            Signal::Started => SignalView::Started,
            Signal::Ended(r) => SignalView::Ended(check_view(r)),
        }
    }
}

/// How far the call behind a stream has come.
#[derive(Debug, Clone, Copy, PartialEq, Eq)]
pub enum Progress {
    /// The worker is transferring; its result is still to come.
    Streaming,
    /// The worker has ended, successfully, before any byte was exchanged.
    Ended,
}

/// What the first signal of the worker makes of the stream under
/// construction. A call that ended in failure fails the constructor: no
/// stream is handed out that would fail on first use.
pub open spec fn spec_rendezvous(first: SignalView) -> Result<Progress, ErrorView> {
    match first {
        SignalView::Started => Ok(Progress::Streaming),
        SignalView::Ended(Ok(())) => Ok(Progress::Ended),
        SignalView::Ended(Err(e)) => Err(e),
    }
}

/// The result of finishing a stream. A call that has ended already has
/// succeeded. Otherwise the result is the one the worker ends with, or a
/// failed connection where the worker is gone without one.
pub open spec fn spec_finish(progress: Progress, last: Option<Result<(), ErrorView>>) -> Result<
    (),
    ErrorView,
> {
    match progress {
        Progress::Ended => Ok(()),
        Progress::Streaming => match last {
            Some(result) => result,
            None => Err(
                ErrorView::Http {
                    code: CONNECTION_FAILED,
                    message: "the connection was closed before the transfer completed"@,
                },
            ),
        },
    }
}

/// The view of the worker's last word.
pub open spec fn last_view(last: Option<Result<(), Error>>) -> Option<Result<(), ErrorView>> {
    match last {
        Some(r) => Some(check_view(r)),
        None => None,
    }
}

/// A call that fails before any byte is exchanged fails the constructor
/// with its own error; whenever the constructor succeeds, the call has
/// begun to transfer or has ended well.
pub proof fn lemma_failed_connection_fails_the_constructor(first: SignalView)
    ensures
        first matches SignalView::Ended(Err(e)) ==> spec_rendezvous(first) == Err::<
            Progress,
            ErrorView,
        >(e),
        spec_rendezvous(first) is Ok <==> !(first matches SignalView::Ended(Err(_))),
{
}

/// Finishing a stream whose call is still running returns what the
/// worker ends with, be it success or failure; a stream whose call had
/// ended well at the rendezvous finishes well without waiting.
pub proof fn lemma_finish_returns_the_workers_result(result: Result<(), ErrorView>)
    ensures
        spec_finish(Progress::Streaming, Some(result)) == result,
        spec_finish(Progress::Ended, Some(result)) == Ok::<(), ErrorView>(()),
        spec_finish(Progress::Ended, None) == Ok::<(), ErrorView>(()),
        spec_finish(Progress::Streaming, None) is Err,
{
}

fn rendezvous(first: Signal) -> (r: Result<Progress, Error>)
    ensures
        match spec_rendezvous(first@) {
            Ok(progress) => r == Ok::<Progress, Error>(progress),
            Err(e) => r matches Err(err) && err@ == e,
        },
{
    match first {
        Signal::Started => Ok(Progress::Streaming),
        Signal::Ended(Ok(())) => Ok(Progress::Ended),
        Signal::Ended(Err(e)) => Err(e),
    }
}

fn finish(progress: Progress, last: Option<Result<(), Error>>) -> (r: Result<(), Error>)
    ensures
        check_view(r) == spec_finish(progress, last_view(last)),
{
    match progress {
        Progress::Ended => Ok(()),
        Progress::Streaming => match last {
            Some(result) => result,
            None => Err(
                Error::Http {
                    code: CONNECTION_FAILED,
                    message: String::from_str(
                        "the connection was closed before the transfer completed",
                    ),
                },
            ),
        },
    }
}

/// The caller's end of an upload: what is written to it becomes the body
/// of a PUT request.
#[derive(Debug, PartialEq, Eq)]
pub struct HttpWriter {
    progress: Progress,
}

impl View for HttpWriter {
    type V = Progress;

    closed spec fn view(&self) -> Progress {
        self.progress
    }
}

/// The request of an upload: the content length header is sent only
/// where a length was declared.
pub open spec fn spec_put(url: Seq<char>, size: Option<u64>) -> RequestView {
    RequestView {
        method: Method::Put,
        url,
        content_length: match size {
            Some(n) => Some(decimal(n as nat)),
            None => None,
        },
    }
}

impl HttpWriter {
    /// The request that the worker of an upload issues.
    pub fn request(url: &str, size: Option<u64>) -> (r: Request)
        ensures
            r@ == spec_put(url@, size),
    {
        Request {
            method: Method::Put,
            url: String::from_str(url),
            content_length: match size {
                Some(n) => Some(decimal_string(n)),
                None => None,
            },
        }
    }

    /// Completes the constructor with the first signal of the worker: a
    /// writer where the library began to pull the body or the call ended
    /// well, the worker's error where the call failed before that.
    pub fn new(first: Signal) -> (r: Result<HttpWriter, Error>)
        ensures
            match spec_rendezvous(first@) {
                Ok(progress) => r matches Ok(writer) && writer@ == progress,
                Err(e) => r matches Err(err) && err@ == e,
            },
    {
        match rendezvous(first) {
            Ok(progress) => Ok(HttpWriter { progress }),
            Err(e) => Err(e),
        }
    }

    /// Whether finishing has to wait for the worker's result.
    pub fn awaits_worker(&self) -> (r: bool)
        ensures
            r == (self@ is Streaming),
    {
        matches!(self.progress, Progress::Streaming)
    }

    /// Finishes the upload, after the write end of the pipe was closed.
    /// `last` is the result that the worker ended with, `None` where it is
    /// gone without one.
    pub fn finish(self, last: Option<Result<(), Error>>) -> (r: Result<(), Error>)
        ensures
            check_view(r) == spec_finish(self@, last_view(last)),
    {
        finish(self.progress, last)
    }
}

/// The length that a response declares: the one that its content length
/// header spells, none where it has no such header or the header spells
/// no length. An empty body does not change what the header declared.
pub open spec fn spec_declared_length(header: Option<Seq<u8>>) -> Option<u64> {
    match header {
        Some(value) => spec_parse_length(value),
        None => None,
    }
}

/// Reads the length that a response declares from the value of its
/// content length header, if it has one.
pub fn declared_length(header: Option<&[u8]>) -> (r: Option<u64>)
    ensures
        r == spec_declared_length(
            match header {
                Some(value) => Some(value@),
                None => None,
            },
        ),
{
    match header {
        Some(value) => parse_length(value),
        None => None,
    }
}

/// The caller's end of a download: the body of the response to a GET
/// request is read from it.
#[derive(Debug, PartialEq, Eq)]
pub struct HttpReader {
    length: Option<u64>,
    progress: Progress,
}

/// The mathematical value of an [`HttpReader`].
pub struct ReaderView {
    pub length: Option<u64>,
    pub progress: Progress,
}

impl View for HttpReader {
    type V = ReaderView;

    closed spec fn view(&self) -> ReaderView {
        ReaderView { length: self.length, progress: self.progress }
    }
}

impl HttpReader {
    /// The request that the worker of a download issues.
    pub fn request(url: &str) -> (r: Request)
        ensures
            r@ == (RequestView { method: Method::Get, url: url@, content_length: None }),
    {
        Request { method: Method::Get, url: String::from_str(url), content_length: None }
    }

    /// Completes the constructor with the first signal of the worker and
    /// the value of the content length header of the response, if it has
    /// one: a reader where the first bytes arrived or the response ended
    /// well without any, the worker's error where the call failed. The
    /// reader reports the length that the header declares.
    pub fn new(first: Signal, content_length: Option<&[u8]>) -> (r: Result<HttpReader, Error>)
        ensures
            match spec_rendezvous(first@) {
                Ok(progress) => r matches Ok(reader) && reader@ == (ReaderView {
                    length: spec_declared_length(
                        match content_length {
                            Some(value) => Some(value@),
                            None => None,
                        },
                    ),
                    progress,
                }),
                Err(e) => r matches Err(err) && err@ == e,
            },
    {
        match rendezvous(first) {
            Ok(progress) => Ok(HttpReader { length: declared_length(content_length), progress }),
            Err(e) => Err(e),
        }
    }

    /// The length that the server declared, if it declared one.
    pub fn len(&self) -> (r: Option<u64>)
        ensures
            r == self@.length,
    {
        self.length
    }

    /// Whether finishing has to wait for the worker's result.
    pub fn awaits_worker(&self) -> (r: bool)
        ensures
            r == (self@.progress is Streaming),
    {
        matches!(self.progress, Progress::Streaming)
    }

    /// Finishes the download, after the read end of the pipe was closed.
    /// `last` is the result that the worker ended with, `None` where it is
    /// gone without one.
    pub fn finish(self, last: Option<Result<(), Error>>) -> (r: Result<(), Error>)
        ensures
            check_view(r) == spec_finish(self@.progress, last_view(last)),
    {
        finish(self.progress, last)
    }
}

/// The worker's view of the body source of an upload. It tells on the
/// HTTP library: the first time the library reads from it, the caller
/// learns that the transfer has begun.
#[derive(Debug, Clone, Copy, PartialEq, Eq)]
pub struct SnitchingReader {
    connected: bool,
}

impl View for SnitchingReader {
    type V = bool;

    closed spec fn view(&self) -> bool {
        self.connected
    }
}

/// The error of a read whose signal nobody was left to take.
pub open spec fn signal_error() -> ErrorView {
    ErrorView::plain(ErrorKind::Other, "sending on a closed channel"@)
}

impl SnitchingReader {
    /// A source that was not read from yet.
    pub fn new() -> (r: SnitchingReader)
        ensures
            !r@,
    {
        SnitchingReader { connected: false }
    }

    /// Whether the next read has to send [`Signal::Started`] first.
    pub fn owes_signal(&self) -> (r: bool)
        ensures
            r == !self@,
    {
        !self.connected
    }

    /// Decides a read. `sent` says whether the signal that was owed could
    /// be sent; it is not looked at where none was owed. The read goes on
    /// to the pipe unless the signal could not be sent, and the signal is
    /// owed until it was sent once.
    pub fn read(&mut self, sent: bool) -> (r: Result<(), Error>)
        ensures
            check_view(r) == if old(self)@ || sent {
                Ok(())
            } else {
                Err(signal_error())
            },
            final(self)@ == (old(self)@ || sent),
    {
        if !self.connected {
            if !sent {
                return Err(Error::other("sending on a closed channel"));
            }
            self.connected = true;
        }
        Ok(())
    }
}

/// The worker's view of the destination of a download: the write end of
/// the pipe. The first chunk that reaches it, be it empty, tells the
/// caller that the transfer has begun.
#[derive(Debug, Clone, Copy, PartialEq, Eq)]
pub struct Sink {
    connected: bool,
}

impl View for Sink {
    type V = bool;

    closed spec fn view(&self) -> bool {
        self.connected
    }
}

/// The number of bytes of a chunk that are reported as taken: all of it,
/// or none where the signal could not be sent or the pipe is gone.
pub open spec fn spec_taken(connected: bool, len: usize, sent: bool, written: bool) -> usize {
    if (connected || sent) && written {
        len
    } else {
        0
    }
}

impl Sink {
    /// A sink that no chunk has reached yet.
    pub fn new() -> (r: Sink)
        ensures
            !r@,
    {
        Sink { connected: false }
    }

    /// Whether the next chunk has to send [`Signal::Started`] first.
    pub fn owes_signal(&self) -> (r: bool)
        ensures
            r == !self@,
    {
        !self.connected
    }

    /// Decides what to report for a chunk of `len` bytes. `sent` says
    /// whether the signal that was owed could be sent, `written` whether
    /// the pipe took the chunk; neither is looked at where it does not
    /// apply. The signal is owed until it was sent once. Reporting none
    /// of a chunk as taken ends the transfer.
    pub fn write(&mut self, len: usize, sent: bool, written: bool) -> (r: usize)
        ensures
            final(self)@ == (old(self)@ || sent),
            r == spec_taken(old(self)@, len, sent, written),
    {
        if !self.connected {
            if !sent {
                return 0;
            }
            self.connected = true;
        }
        if !written {
            return 0;
        }
        len
    }
}

/// The outcome of a response: success for a status from 200 to 299, an
/// HTTP error with the status and the server's message for any other.
pub open spec fn spec_response_result(status: u16, message: Seq<char>) -> Result<(), ErrorView> {
    if 200 <= status <= 299 {
        Ok(())
    } else {
        Err(ErrorView::Http { code: status, message })
    }
}

/// Turns the status of a response into the worker's result.
pub fn response_result(status: u16, message: &str) -> (r: Result<(), Error>)
    ensures
        check_view(r) == spec_response_result(status, message@),
{
    if 200 <= status && status <= 299 {
        Ok(())
    } else {
        Err(Error::Http { code: status, message: String::from_str(message) })
    }
}

/// The error for a connection that failed before the server answered
/// with a status.
pub fn connection_error(message: &str) -> (e: Error)
    ensures
        e@ == (ErrorView::Http { code: CONNECTION_FAILED, message: message@ }),
{
    Error::Http { code: CONNECTION_FAILED, message: String::from_str(message) }
}

} // verus!
