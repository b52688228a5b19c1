//! Outputs: the description of a stream to write to, what to do to open
//! and to finish it, and a validated path to create later.

use vstd::prelude::*;
use vstd::string::*;
use crate::error::{check_view, is_opening_line, Error, ErrorView};
use crate::input::{opened_view, Opened};
use crate::path::{classify, ClioPath, InOut, PathKind, PathView};
use crate::probe::{PathProbe, ProbeView};
use crate::{
    assert_is_dir, assert_not_dir, assert_writeable, spec_assert_is_dir, spec_assert_not_dir,
    spec_assert_writeable,
};

verus! {

/// What the file system said about the place of an output: about the path
/// itself and about the directory that would hold it.
#[derive(Debug, PartialEq, Eq)]
pub struct OutputProbe {
    /// The answers about the path.
    pub path: PathProbe,
    /// The answers about [`ClioPath::safe_parent`] of the path.
    pub parent: PathProbe,
}

/// The mathematical value of an [`OutputProbe`].
pub struct OutputProbeView {
    pub path: ProbeView,
    pub parent: ProbeView,
}

impl View for OutputProbe {
    type V = OutputProbeView;

    open spec fn view(&self) -> OutputProbeView {
        OutputProbeView { path: self.path@, parent: self.parent@ }
    }
}

/// What has to be done to open a path for output.
#[derive(Debug, PartialEq, Eq)]
pub enum OutputAction {
    /// Take the process-wide standard output; nothing is opened.
    Stdout,
    /// Create a temporary file in this directory, its name beginning with
    /// [`TEMP_PREFIX`]. The destination itself is not opened.
    CreateTemp(String),
    /// Open the file at this path for reading and writing, creating or
    /// truncating it, and take its metadata.
    Open(String),
    /// Issue a PUT request for this URL, declaring the length if there is
    /// one.
    Put { url: String, length: Option<u64> },
}

/// The mathematical value of an [`OutputAction`].
pub enum OutputActionView {
    Stdout,
    CreateTemp(Seq<char>),
    Open(Seq<char>),
    Put { url: Seq<char>, length: Option<u64> },
}

impl View for OutputAction {
    type V = OutputActionView;

    open spec fn view(&self) -> OutputActionView {
        match *self {
            OutputAction::Stdout => OutputActionView::Stdout,
            OutputAction::CreateTemp(dir) => OutputActionView::CreateTemp(dir@),
            OutputAction::Open(path) => OutputActionView::Open(path@),
            OutputAction::Put { url, length } => OutputActionView::Put { url: url@, length },
        }
    }
}

/// How the name of the temporary file of an atomic write begins.
pub const TEMP_PREFIX: &'static str = ".atomicwrite";

/// The kind of stream behind an [`Output`].
#[derive(Debug, Clone, Copy, PartialEq, Eq)]
pub enum OutputStream {
    /// standard output, when the path was `-`
    Stdout,
    /// a file handle on a named pipe
    Pipe,
    /// a normal file opened from the path
    File,
    /// a temporary file that replaces the file at the path when the
    /// output is finished
    AtomicFile,
    /// a writer that uploads the body to an HTTP server
    Http,
}

/// What has to be done to finish an output, once it is flushed.
#[derive(Debug, PartialEq, Eq)]
pub enum FinishAction {
    /// Nothing more.
    Nothing,
    /// Force the data of the file to the device.
    SyncData,
    /// Rename the temporary file over this path, replacing what is there.
    Persist(String),
    /// Close the write side of the bridge and wait for the worker's final
    /// result.
    CloseAndWait,
}

/// The mathematical value of a [`FinishAction`].
pub enum FinishActionView {
    Nothing,
    SyncData,
    Persist(Seq<char>),
    CloseAndWait,
}

impl View for FinishAction {
    type V = FinishActionView;

    open spec fn view(&self) -> FinishActionView {
        match *self {
            FinishAction::Nothing => FinishActionView::Nothing,
            FinishAction::SyncData => FinishActionView::SyncData,
            FinishAction::Persist(to) => FinishActionView::Persist(to@),
            FinishAction::CloseAndWait => FinishActionView::CloseAndWait,
        }
    }
}

/// What becomes of the resource behind an output that is dropped without
/// being finished.
#[derive(Debug, Clone, Copy, PartialEq, Eq)]
pub enum DropAction {
    /// The handle is closed; what was written stays written.
    Close,
    /// The temporary file is removed; the destination is not touched.
    DiscardTemp,
    /// The request in flight is abandoned and its outcome discarded.
    Abandon,
}

/// A command line output stream: standard output, a file, a named pipe, a
/// temporary file for an atomic write or the body of an HTTP request,
/// along with the path it goes to.
#[derive(Debug, PartialEq, Eq)]
pub struct Output {
    path: ClioPath,
    stream: OutputStream,
}

/// The mathematical value of an [`Output`].
pub struct OutputView {
    pub path: PathView,
    pub stream: OutputStream,
}

impl View for Output {
    type V = OutputView;

    closed spec fn view(&self) -> OutputView {
        OutputView { path: self.path@, stream: self.stream }
    }
}

impl OutputView {
    pub open spec fn is_std(self) -> bool {
        self.stream is Stdout
    }

    pub open spec fn can_seek(self) -> bool {
        self.stream is File || self.stream is AtomicFile
    }

    /// The length to give the file before anything is written: the
    /// declared size, for a normal file only.
    pub open spec fn initial_len(self, size: Option<u64>) -> Option<u64> {
        if self.stream is File {
            size
        } else {
            None
        }
    }

    /// What finishing does once the output is flushed.
    pub open spec fn finish_action(self) -> FinishActionView {
        match self.stream {
            OutputStream::Stdout => FinishActionView::Nothing,
            OutputStream::Pipe => FinishActionView::Nothing,
            OutputStream::File => FinishActionView::SyncData,
            OutputStream::AtomicFile => FinishActionView::Persist(self.path.shown()),
            OutputStream::Http => FinishActionView::CloseAndWait,
        }
    }

    /// What dropping does.
    pub open spec fn drop_action(self) -> DropAction {
        match self.stream {
            OutputStream::AtomicFile => DropAction::DiscardTemp,
            OutputStream::Http => DropAction::Abandon,
            _ => DropAction::Close,
        }
    }
}

/// Whether a path is written atomically: it asks for it, is local, and
/// does not name a pipe.
pub open spec fn writes_atomically(path: PathView, probe: ProbeView) -> bool {
    path.is_local() && path.atomic && !probe.is_fifo()
}

/// The action that opens `path` for output, or the reason why it cannot
/// be opened. An atomic write needs a path that can name a file and an
/// existing directory to hold the temporary file. A path that ends with
/// a slash names no file, and is refused before anything is opened.
pub open spec fn spec_output_action(path: PathView, size: Option<u64>, probe: OutputProbeView)
    -> Result<OutputActionView, ErrorView> {
    match path.kind {
        PathKind::Std(_) => Ok(OutputActionView::Stdout),
        PathKind::Local(local) => if writes_atomically(path, probe.path) {
            if spec_assert_not_dir(path, probe.path) is Err {
                Err(spec_assert_not_dir(path, probe.path)->Err_0)
            } else {
                match path.safe_parent() {
                    Some(parent) => match spec_assert_is_dir(parent, probe.parent) {
                        Err(e) => Err(e),
                        Ok(()) => Ok(OutputActionView::CreateTemp(parent)),
                    },
                    None => Err(ErrorView::not_found_error()),
                }
            }
        } else if path.ends_with_slash() {
            match spec_assert_not_dir(path, probe.path) {
                Err(e) => Err(e),
                Ok(()) => Err(ErrorView::not_found_error()),
            }
        } else {
            Ok(OutputActionView::Open(local))
        },
        PathKind::Http(url) => Ok(OutputActionView::Put { url: url.text, length: size }),
    }
}

/// The kind of stream that an action gives, once it was carried out with
/// the outcome `opened`. Standard output needs no outcome; a file that
/// was opened may turn out to be a named pipe.
pub open spec fn spec_stream_of(action: OutputActionView, opened: Result<Opened, ErrorView>)
    -> Result<OutputStream, ErrorView> {
    match action {
        OutputActionView::Stdout => Ok(OutputStream::Stdout),
        _ => match opened {
            Err(e) => Err(e),
            Ok(found) => Ok(
                match action {
                    OutputActionView::CreateTemp(_) => OutputStream::AtomicFile,
                    OutputActionView::Open(_) => if found.is_fifo {
                        OutputStream::Pipe
                    } else {
                        OutputStream::File
                    },
                    _ => OutputStream::Http,
                },
            ),
        },
    }
}

/// The output that a path gives.
pub open spec fn spec_open_output(
    path: PathView,
    size: Option<u64>,
    probe: OutputProbeView,
    opened: Result<Opened, ErrorView>,
) -> Result<OutputView, ErrorView> {
    match spec_output_action(path, size, probe) {
        Err(e) => Err(e),
        Ok(action) => match spec_stream_of(action, opened) {
            Err(e) => Err(e),
            Ok(stream) => Ok(OutputView { path, stream }),
        },
    }
}

/// The views of both sides of a result that carries an action.
pub open spec fn action_result_view(r: Result<OutputAction, Error>) -> Result<
    OutputActionView,
    ErrorView,
> {
    match r {
        Ok(action) => Ok(action@),
        Err(e) => Err(e@),
    }
}

/// The views of both sides of a result that carries an output.
pub open spec fn output_result_view(r: Result<Output, Error>) -> Result<OutputView, ErrorView> {
    match r {
        Ok(output) => Ok(output@),
        Err(e) => Err(e@),
    }
}

impl OutputStream {
    /// What has to be done to open `path` for output, given what the file
    /// system said about the path and its parent.
    pub fn action(path: &ClioPath, size: Option<u64>, probe: &OutputProbe) -> (r: Result<
        OutputAction,
        Error,
    >)
        ensures
            action_result_view(r) == spec_output_action(path@, size, probe@),
    {
        if path.is_std() {
            Ok(OutputAction::Stdout)
        } else if path.is_local() {
            if path.is_atomic() && !path.is_fifo(&probe.path) {
                assert_not_dir(path, &probe.path)?;
                if let Some(parent) = path.safe_parent() {
                    assert_is_dir(parent.as_str(), &probe.parent)?;
                    Ok(OutputAction::CreateTemp(parent))
                } else {
                    Err(Error::not_found_error())
                }
            } else if path.ends_with_slash() {
                assert_not_dir(path, &probe.path)?;
                Err(Error::not_found_error())
            } else {
                Ok(OutputAction::Open(String::from_str(path.as_os_str())))
            }
        } else {
            Ok(OutputAction::Put { url: String::from_str(path.as_os_str()), length: size })
        }
    }

    /// The kind of stream that carrying out `action` gave.
    pub fn new(action: &OutputAction, opened: Result<Opened, Error>) -> (r: Result<
        OutputStream,
        Error,
    >)
        ensures
            match spec_stream_of(action@, opened_view(opened)) {
                Ok(stream) => r == Ok::<OutputStream, Error>(stream),
                Err(e) => r matches Err(err) && err@ == e,
            },
    {
        match action {
            OutputAction::Stdout => Ok(OutputStream::Stdout),
            OutputAction::CreateTemp(_) => {
                let _ = opened?;
                Ok(OutputStream::AtomicFile)
            },
            OutputAction::Open(_) => {
                let found = opened?;
                if found.is_fifo {
                    Ok(OutputStream::Pipe)
                } else {
                    Ok(OutputStream::File)
                }
            },
            OutputAction::Put { .. } => {
                let _ = opened?;
                Ok(OutputStream::Http)
            },
        }
    }
}

impl Output {
    /// Constructs a new output from a path, what the file system said
    /// about its place, and the outcome of opening it: for `-` standard
    /// output, for a local path the file that was opened or created.
    pub fn new(path: ClioPath, probe: &OutputProbe, opened: Result<Opened, Error>) -> (r: Result<
        Output,
        Error,
    >)
        ensures
            output_result_view(r) == spec_open_output(path@, None, probe@, opened_view(opened)),
    {
        Output::maybe_with_len(path, None, probe, opened)
    }

    /// Constructs a new output of a declared size, if there is one.
    pub fn maybe_with_len(
        path: ClioPath,
        size: Option<u64>,
        probe: &OutputProbe,
        opened: Result<Opened, Error>,
    ) -> (r: Result<Output, Error>)
        ensures
            output_result_view(r) == spec_open_output(path@, size, probe@, opened_view(opened)),
    {
        let action = OutputStream::action(&path, size, probe)?;
        let stream = OutputStream::new(&action, opened)?;
        Ok(Output { path, stream })
    }

    /// Constructs a new output for stdout.
    pub fn standard() -> (r: Output)
        ensures
            r@ == (OutputView {
                path: PathView::standard().with_direction(InOut::Out),
                stream: OutputStream::Stdout,
            }),
    {
        Output {
            path: ClioPath::standard().with_direction(InOut::Out),
            stream: OutputStream::Stdout,
        }
    }

    /// The length to set on the file before it is written to: the
    /// declared size of a normal file. No other stream is sized.
    pub fn initial_len(&self, size: Option<u64>) -> (r: Option<u64>)
        ensures
            r == self@.initial_len(size),
    {
        match self.stream {
            OutputStream::File => size,
            _ => None,
        }
    }

    /// Returns true if this Output is stdout.
    pub fn is_std(&self) -> (r: bool)
        ensures
            r == self@.is_std(),
    {
        matches!(self.stream, OutputStream::Stdout)
    }

    /// Returns true if this is stdout and it is connected to a tty.
    pub fn is_tty(&self, stdout_tty: bool) -> (r: bool)
        ensures
            r == (self@.is_std() && stdout_tty),
    {
        self.is_std() && stdout_tty
    }

    /// Returns true if this Output is on the local file system, as opposed
    /// to pointing to stdout or a URL.
    pub fn is_local(&self) -> (r: bool)
        ensures
            r == self@.path.is_local(),
    {
        self.path.is_local()
    }

    /// Constructs a new output from an argument, what the file system
    /// said about its place, and the outcome of opening it. The error is
    /// the line to show to the user.
    pub fn try_from_os_str(path: &str, probe: &OutputProbe, opened: Result<Opened, Error>) -> (r:
        Result<Output, String>)
        ensures
            match classify(path@) {
                Ok(classified) => match spec_open_output(
                    classified,
                    None,
                    probe@,
                    opened_view(opened),
                ) {
                    Ok(output) => r matches Ok(made) && made@ == output,
                    Err(e) => r matches Err(line) && is_opening_line(line@, path@, e),
                },
                Err(e) => r matches Err(line) && is_opening_line(line@, path@, e),
            },
    {
        let classified = match ClioPath::new(path) {
            Ok(classified) => classified,
            Err(e) => { return Err(e.to_os_string(path)); },
        };
        match Output::new(classified, probe, opened) {
            Ok(output) => Ok(output),
            Err(e) => Err(e.to_os_string(path)),
        }
    }

    /// Decides how to finish, given the outcome of flushing. A failed
    /// flush is the result. Otherwise a file is synced to the device, the
    /// temporary file of an atomic write replaces the file at the path,
    /// and an upload is closed and waited for.
    pub fn finish(self, flushed: Result<(), Error>) -> (r: Result<FinishAction, Error>)
        ensures
            match check_view(flushed) {
                Err(e) => r matches Err(err) && err@ == e,
                Ok(()) => r matches Ok(action) && action@ == self@.finish_action(),
            },
    {
        flushed?;
        match self.stream {
            OutputStream::Stdout => Ok(FinishAction::Nothing),
            OutputStream::Pipe => Ok(FinishAction::Nothing),
            OutputStream::File => Ok(FinishAction::SyncData),
            OutputStream::AtomicFile => Ok(
                FinishAction::Persist(String::from_str(self.path.path())),
            ),
            OutputStream::Http => Ok(FinishAction::CloseAndWait),
        }
    }

    /// What becomes of the resource behind this output when it is dropped
    /// without being finished. Nothing is ever written to the destination
    /// of an atomic write.
    pub fn abandon(self) -> (r: DropAction)
        ensures
            r == self@.drop_action(),
    {
        match self.stream {
            OutputStream::AtomicFile => DropAction::DiscardTemp,
            OutputStream::Http => DropAction::Abandon,
            _ => DropAction::Close,
        }
    }

    /// The path used to create this [`Output`].
    pub fn path(&self) -> (r: &ClioPath)
        ensures
            r@ == self@.path,
    {
        &self.path
    }

    /// The kind of stream behind this output.
    pub fn stream(&self) -> (r: OutputStream)
        ensures
            r == self@.stream,
    {
        self.stream
    }

    /// Returns `true` if this [`Output`] is a file, and `false` if it is
    /// stdout, a pipe or an upload.
    pub fn can_seek(&self) -> (r: bool)
        ensures
            r == self@.can_seek(),
    {
        matches!(self.stream, OutputStream::File | OutputStream::AtomicFile)
    }

    /// Decides a seek: a file moves its position, any other stream fails
    /// with the error for a stream that cannot seek.
    pub fn seek(&self) -> (r: Result<(), Error>)
        ensures
            check_view(r) == if self@.can_seek() {
                Ok(())
            } else {
                Err(ErrorView::seek_error())
            },
    {
        match self.stream {
            OutputStream::File => Ok(()),
            OutputStream::AtomicFile => Ok(()),
            _ => Err(Error::seek_error()),
        }
    }
}

/// An output can seek only where it is a file or the temporary file of
/// an atomic write. The error of a stream that cannot seek is of the kind
/// for that.
pub proof fn lemma_output_seeks_only_in_files(output: OutputView)
    ensures
        output.can_seek() <==> (output.stream == OutputStream::File || output.stream
            == OutputStream::AtomicFile),
        output.is_std() ==> !output.can_seek(),
        ErrorView::seek_error().kind() == crate::error::ErrorKind::NotSeekable,
        ErrorView::seek_error().raw_os_error() == Some(crate::error::ESPIPE),
{
}

/// An atomic write never opens its destination. What is opened is a
/// temporary file in the directory of the destination; dropping the
/// output discards that file, and only finishing it names the
/// destination, to rename the temporary file over it.
pub proof fn lemma_atomic_write_spares_the_destination(
    path: PathView,
    size: Option<u64>,
    probe: OutputProbeView,
    opened: Result<Opened, ErrorView>,
)
    requires
        writes_atomically(path, probe.path),
    ensures
        spec_output_action(path, size, probe) matches Ok(action) ==> action
            == OutputActionView::CreateTemp(path.safe_parent()->0) && path.safe_parent() is Some,
        spec_open_output(path, size, probe, opened) matches Ok(output) ==> {
            &&& output.path == path
            &&& output.stream == OutputStream::AtomicFile
            &&& output.initial_len(size) is None
            &&& output.drop_action() == DropAction::DiscardTemp
            &&& output.finish_action() == FinishActionView::Persist(path.argument())
        },
{
}

/// A write that is not atomic opens the destination itself, and sets the
/// declared size on it where it is a normal file.
pub proof fn lemma_plain_write_is_sized(
    path: PathView,
    size: Option<u64>,
    probe: OutputProbeView,
    found: Opened,
)
    requires
        path.is_local(),
        !writes_atomically(path, probe.path),
        !path.ends_with_slash(),
    ensures
        spec_output_action(path, size, probe) == Ok::<OutputActionView, ErrorView>(
            OutputActionView::Open(path.argument()),
        ),
        spec_open_output(path, size, probe, Ok(found)) matches Ok(output) && output.path == path
            && output.initial_len(size) == if found.is_fifo {
            None
        } else {
            size
        },
{
}

/// A failure to open is the failure of the constructor: no output is
/// made that would fail on first use.
pub proof fn lemma_failed_open_is_no_output(
    path: PathView,
    size: Option<u64>,
    probe: OutputProbeView,
    e: ErrorView,
)
    requires
        !path.is_std(),
    ensures
        spec_open_output(path, size, probe, Err(e)) is Err,
        spec_output_action(path, size, probe) is Ok ==> spec_open_output(
            path,
            size,
            probe,
            Err(e),
        ) == Err::<OutputView, ErrorView>(e),
{
}

/// The error for a local path that ends with a slash, where the file
/// system could tell whether something is there: an existing directory
/// is refused as such, anything else that exists is not a directory, and
/// what does not exist is not found.
pub open spec fn slash_error(probe: ProbeView) -> ErrorView {
    if probe.exists == Ok::<bool, ErrorView>(true) {
        if probe.is_dir() {
            ErrorView::dir_error()
        } else {
            ErrorView::not_dir_error()
        }
    } else {
        ErrorView::not_found_error()
    }
}

/// A local path that ends with a slash cannot be opened for output,
/// whether or not anything exists there and whether or not the write is
/// atomic: no action is decided, so nothing is opened or created, and no
/// output is made. Where the file system could tell what is there, the
/// error says that it is not a directory, if something is there, or that
/// it is not found.
pub proof fn lemma_trailing_slash_opens_no_output(
    path: PathView,
    size: Option<u64>,
    probe: OutputProbeView,
    opened: Result<Opened, ErrorView>,
)
    requires
        path.is_local(),
        path.ends_with_slash(),
    ensures
        spec_output_action(path, size, probe) is Err,
        spec_open_output(path, size, probe, opened) is Err,
        probe.path.exists is Ok ==> spec_output_action(path, size, probe) == Err::<
            OutputActionView,
            ErrorView,
        >(slash_error(probe.path)),
        probe.path.exists is Ok ==> spec_open_output(path, size, probe, opened) == Err::<
            OutputView,
            ErrorView,
        >(slash_error(probe.path)),
        !probe.path.is_dir() ==> slash_error(probe.path).kind()
            == crate::error::ErrorKind::NotADirectory || slash_error(probe.path).kind()
            == crate::error::ErrorKind::NotFound,
{
}

/// A local path that ends with a slash cannot name an output file:
/// unless the file system calls it a regular file to overwrite,
/// validating it fails, with the same error as opening it.
pub proof fn lemma_trailing_slash_is_no_output(path: PathView, probe: OutputProbeView)
    requires
        path.is_local(),
        path.ends_with_slash(),
        !probe.path.is_file() || path.atomic,
    ensures
        spec_output_path(path, probe) is Err,
        probe.path.exists is Ok ==> spec_output_path(path, probe) == Err::<PathView, ErrorView>(
            slash_error(probe.path),
        ),
{
}

impl Default for Output {
    /// Standard output.
    fn default() -> (r: Output)
        ensures
            r@ == (OutputView {
                path: PathView::standard().with_direction(InOut::Out),
                stream: OutputStream::Stdout,
            }),
    {
        Output::standard()
    }
}

/// How a local file is opened for output.
#[derive(Debug, Clone, Copy, PartialEq, Eq)]
pub enum OpenMode {
    /// For reading and writing, created where it is missing, truncated
    /// where it is there.
    ReadWrite,
    /// For writing only, created or truncated.
    WriteOnly,
}

/// What to do after an attempt to open a local file for output.
#[derive(Debug, PartialEq, Eq)]
pub enum OpenStep {
    /// Try again, in this mode.
    Retry(OpenMode),
    /// The attempt is final, with this outcome.
    Done(Result<Opened, Error>),
}

/// The mathematical value of an [`OpenStep`].
pub enum OpenStepView {
    Retry(OpenMode),
    Done(Result<Opened, ErrorView>),
}

impl View for OpenStep {
    type V = OpenStepView;

    open spec fn view(&self) -> OpenStepView {
        match *self {
            OpenStep::Retry(mode) => OpenStepView::Retry(mode),
            OpenStep::Done(outcome) => OpenStepView::Done(opened_view(outcome)),
        }
    }
}

/// A file is opened for reading and writing first. Where that fails,
/// whatever the reason, it is created for writing only, and the outcome
/// of that is final.
pub open spec fn spec_open_rw(mode: OpenMode, outcome: Result<Opened, ErrorView>) -> OpenStepView {
    match (mode, outcome) {
        (OpenMode::ReadWrite, Err(_)) => OpenStepView::Retry(OpenMode::WriteOnly),
        _ => OpenStepView::Done(outcome),
    }
}

/// Decides what follows an attempt to open a local file for output in
/// `mode` that ended with `outcome`. The first attempt is made in
/// [`OpenMode::ReadWrite`].
pub fn open_rw(mode: OpenMode, outcome: Result<Opened, Error>) -> (r: OpenStep)
    ensures
        r@ == spec_open_rw(mode, opened_view(outcome)),
{
    match mode {
        OpenMode::ReadWrite => match outcome {
            Ok(found) => OpenStep::Done(Ok(found)),
            Err(_) => OpenStep::Retry(OpenMode::WriteOnly),
        },
        OpenMode::WriteOnly => OpenStep::Done(outcome),
    }
}

/// A validated path to an output: a file could plausibly be created
/// there. The file is created by one of the `create` methods.
#[derive(Debug, PartialEq, Eq)]
pub struct OutputPath {
    path: ClioPath,
}

impl View for OutputPath {
    type V = PathView;

    closed spec fn view(&self) -> PathView {
        self.path@
    }
}

impl Clone for OutputPath {
    fn clone(&self) -> (r: OutputPath)
        ensures
            r@ == self@,
    {
        OutputPath { path: self.path.clone() }
    }
}

impl Default for OutputPath {
    /// The path of standard output.
    fn default() -> (r: OutputPath)
        ensures
            r@ == PathView::standard().with_direction(InOut::Out),
    {
        OutputPath { path: ClioPath::standard().with_direction(InOut::Out) }
    }
}

/// What validating a path for output decides. An existing file that is
/// not replaced atomically must be writeable. Any other local path must
/// be able to name a file, in an existing directory that is writeable.
/// A path that is not local is accepted as it is.
pub open spec fn spec_output_path(path: PathView, probe: OutputProbeView) -> Result<
    PathView,
    ErrorView,
> {
    let path = path.with_direction(InOut::Out);
    if !path.is_local() {
        Ok(path)
    } else if probe.path.is_file() && !path.atomic {
        match spec_assert_writeable(probe.path) {
            Err(e) => Err(e),
            Ok(()) => Ok(path),
        }
    } else if spec_assert_not_dir(path, probe.path) is Err {
        Err(spec_assert_not_dir(path, probe.path)->Err_0)
    } else {
        match path.safe_parent() {
            None => Err(ErrorView::not_found_error()),
            Some(parent) => if spec_assert_is_dir(parent, probe.parent) is Err {
                Err(spec_assert_is_dir(parent, probe.parent)->Err_0)
            } else {
                match spec_assert_writeable(probe.parent) {
                    Err(e) => Err(e),
                    Ok(()) => Ok(path),
                }
            },
        }
    }
}

impl OutputPath {
    /// Constructs a new [`OutputPath`], checking against what the file
    /// system said that an output file could plausibly be created there.
    pub fn new(path: ClioPath, probe: &OutputProbe) -> (r: Result<OutputPath, Error>)
        ensures
            match spec_output_path(path@, probe@) {
                Ok(checked) => r matches Ok(made) && made@ == checked,
                Err(e) => r matches Err(err) && err@ == e,
            },
    {
        let path = path.with_direction(InOut::Out);
        if path.is_local() {
            if probe.path.is_file() && !path.is_atomic() {
                assert_writeable(&probe.path)?;
            } else {
                assert_not_dir(&path, &probe.path)?;
                if let Some(parent) = path.safe_parent() {
                    assert_is_dir(parent.as_str(), &probe.parent)?;
                    assert_writeable(&probe.parent)?;
                } else {
                    return Err(Error::not_found_error());
                }
            }
        }
        Ok(OutputPath { path })
    }

    /// Constructs a new [`OutputPath`] of `-` for stdout.
    pub fn standard() -> (r: OutputPath)
        ensures
            r@ == PathView::standard().with_direction(InOut::Out),
    {
        OutputPath { path: ClioPath::standard().with_direction(InOut::Out) }
    }

    /// Converts to an [`Output`], setting the length of the file to `size`
    /// if there is one.
    pub fn maybe_with_len(
        self,
        size: Option<u64>,
        probe: &OutputProbe,
        opened: Result<Opened, Error>,
    ) -> (r: Result<Output, Error>)
        ensures
            output_result_view(r) == spec_open_output(self@, size, probe@, opened_view(opened)),
    {
        Output::maybe_with_len(self.path, size, probe, opened)
    }

    /// Creates the file with a predetermined length, set on the file or
    /// declared as the content length of the upload.
    pub fn create_with_len(self, size: u64, probe: &OutputProbe, opened: Result<Opened, Error>) -> (r:
        Result<Output, Error>)
        ensures
            output_result_view(r) == spec_open_output(
                self@,
                Some(size),
                probe@,
                opened_view(opened),
            ),
    {
        self.maybe_with_len(Some(size), probe, opened)
    }

    /// Creates an [`Output`] without setting the length.
    pub fn create(self, probe: &OutputProbe, opened: Result<Opened, Error>) -> (r: Result<
        Output,
        Error,
    >)
        ensures
            output_result_view(r) == spec_open_output(self@, None, probe@, opened_view(opened)),
    {
        self.maybe_with_len(None, probe, opened)
    }

    /// The path represented by this [`OutputPath`].
    pub fn path(&self) -> (r: &ClioPath)
        ensures
            r@ == self@,
    {
        &self.path
    }

    /// Returns true if this [`OutputPath`] is stdout.
    pub fn is_std(&self) -> (r: bool)
        ensures
            r == self@.is_std(),
    {
        self.path.is_std()
    }

    /// Returns true if this is stdout and it is connected to a tty.
    pub fn is_tty(&self, stdout_tty: bool) -> (r: bool)
        ensures
            r == (self@.is_std() && stdout_tty),
    {
        self.is_std() && stdout_tty
    }

    /// Returns true if this [`OutputPath`] is on the local file system, as
    /// opposed to pointing to stdout or a URL.
    pub fn is_local(&self) -> (r: bool)
        ensures
            r == self@.is_local(),
    {
        self.path.is_local()
    }

    /// Returns `true` if this [`OutputPath`] points to a file, and `false`
    /// if it is stdout or points to a pipe, given what the file system
    /// said about the path. The file is not opened yet, so this may have
    /// changed by the time it is.
    pub fn can_seek(&self, probe: &PathProbe) -> (r: bool)
        ensures
            r == (self@.is_local() && !self@.is_fifo(probe@)),
    {
        self.path.is_local() && !self.path.is_fifo(probe)
    }
}

} // verus!
