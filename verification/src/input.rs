//! Inputs: the description of a stream to read from, an input read whole
//! into memory, and a validated path to open later.

use vstd::prelude::*;
use vstd::string::*;
use crate::error::{check_view, is_opening_line, Error, ErrorKind, ErrorView};
use crate::path::{classify, ClioPath, InOut, PathKind, PathView};
use crate::probe::{PathProbe, ProbeView};
use crate::{
    assert_exists, assert_not_dir, assert_readable, spec_assert_exists, spec_assert_not_dir,
    spec_assert_readable,
};

verus! {

/// What was found behind a path once it was opened: the metadata of the
/// open file, or the length that a server declared.
#[derive(Debug, Clone, Copy, PartialEq, Eq)]
pub struct Opened {
    /// The open handle is a directory.
    pub is_dir: bool,
    /// The open handle is a named pipe.
    pub is_fifo: bool,
    /// The size in bytes, where it is known.
    pub len: Option<u64>,
}

/// What has to be done to open a path for input.
#[derive(Debug, PartialEq, Eq)]
pub enum InputAction {
    /// Take the process-wide standard input; nothing is opened.
    Stdin,
    /// Open the file at this local path for reading and take its metadata.
    Open(String),
    /// Issue a GET request for this URL.
    Get(String),
}

/// The mathematical value of an [`InputAction`].
pub enum InputActionView {
    Stdin,
    Open(Seq<char>),
    Get(Seq<char>),
}

impl View for InputAction {
    type V = InputActionView;

    open spec fn view(&self) -> InputActionView {
        match *self {
            InputAction::Stdin => InputActionView::Stdin,
            InputAction::Open(path) => InputActionView::Open(path@),
            InputAction::Get(url) => InputActionView::Get(url@),
        }
    }
}

/// The kind of stream behind an [`Input`].
#[derive(Debug, Clone, Copy, PartialEq, Eq)]
pub enum InputStream {
    /// standard input, when the path was `-`
    Stdin,
    /// a file handle on a named pipe
    Pipe,
    /// a normal file opened from the path
    File,
    /// a reader that downloads the response of an HTTP server, with the
    /// length that the server declared
    Http { length: Option<u64> },
}

/// A command line input stream: standard input, a file, a named pipe or
/// the body of an HTTP response, along with the path it came from.
#[derive(Debug, PartialEq, Eq)]
pub struct Input {
    path: ClioPath,
    stream: InputStream,
}

/// The mathematical value of an [`Input`].
pub struct InputView {
    pub path: PathView,
    pub stream: InputStream,
}

impl View for Input {
    type V = InputView;

    closed spec fn view(&self) -> InputView {
        InputView { path: self.path@, stream: self.stream }
    }
}

impl InputView {
    /// The size of the input where it is known without reading:
    /// the current size of a file, the length a server declared.
    pub open spec fn len(self, file_len: Option<u64>) -> Option<u64> {
        match self.stream {
            InputStream::Stdin => None,
            InputStream::Pipe => None,
            InputStream::File => file_len,
            InputStream::Http { length } => length,
        }
    }

    pub open spec fn is_std(self) -> bool {
        self.stream is Stdin
    }

    pub open spec fn can_seek(self) -> bool {
        self.stream is File
    }
}

/// The action that opens `path` for input.
pub open spec fn spec_input_action(path: PathView) -> InputActionView {
    match path.kind {
        PathKind::Std(_) => InputActionView::Stdin,
        PathKind::Local(local) => InputActionView::Open(local),
        PathKind::Http(url) => InputActionView::Get(url.text),
    }
}

/// The input that a path gives, once the action for it was carried out
/// with the outcome `opened`. A standard stream needs no outcome. A local
/// path that turns out to be a directory is refused, a named pipe is
/// told apart from a file. A URL keeps the declared length.
pub open spec fn spec_open_input(path: PathView, opened: Result<Opened, ErrorView>) -> Result<
    InputView,
    ErrorView,
> {
    match path.kind {
        PathKind::Std(_) => Ok(InputView { path, stream: InputStream::Stdin }),
        PathKind::Local(_) => match opened {
            Err(e) => Err(e),
            Ok(found) => if found.is_dir {
                Err(ErrorView::dir_error())
            } else if found.is_fifo {
                Ok(InputView { path, stream: InputStream::Pipe })
            } else {
                Ok(InputView { path, stream: InputStream::File })
            },
        },
        PathKind::Http(_) => match opened {
            Err(e) => Err(e),
            Ok(found) => Ok(InputView { path, stream: InputStream::Http { length: found.len } }),
        },
    }
}

/// The views of both sides of the outcome of opening.
pub open spec fn opened_view(opened: Result<Opened, Error>) -> Result<Opened, ErrorView> {
    match opened {
        Ok(found) => Ok(found),
        Err(e) => Err(e@),
    }
}

/// The views of both sides of a result that carries an input.
pub open spec fn input_result_view(r: Result<Input, Error>) -> Result<InputView, ErrorView> {
    match r {
        Ok(input) => Ok(input@),
        Err(e) => Err(e@),
    }
}

/// The message of the error for an input that would read from a terminal.
pub open spec fn tty_error() -> ErrorView {
    ErrorView::plain(ErrorKind::Other, "blocked reading from stdin because it is a tty"@)
}

impl Input {
    /// What has to be done to open `path` for input. For the standard
    /// streams nothing is opened.
    pub fn action(path: &ClioPath) -> (r: InputAction)
        ensures
            r@ == spec_input_action(path@),
    {
        if path.is_std() {
            InputAction::Stdin
        } else if path.is_local() {
            InputAction::Open(String::from_str(path.as_os_str()))
        } else {
            InputAction::Get(String::from_str(path.as_os_str()))
        }
    }

    /// Constructs a new input from a path and the outcome of opening it:
    /// for `-` standard input, for a local path the file or named pipe,
    /// for a URL the response.
    pub fn new(path: ClioPath, opened: Result<Opened, Error>) -> (r: Result<Input, Error>)
        ensures
            input_result_view(r) == spec_open_input(path@, opened_view(opened)),
    {
        let stream = if path.is_std() {
            InputStream::Stdin
        } else {
            let found = opened?;
            if path.is_local() {
                if found.is_dir {
                    return Err(Error::dir_error());
                }
                if found.is_fifo {
                    InputStream::Pipe
                } else {
                    InputStream::File
                }
            } else {
                InputStream::Http { length: found.len }
            }
        };
        Ok(Input { path, stream })
    }

    /// Constructs a new input for stdin.
    pub fn standard() -> (r: Input)
        ensures
            r@ == (InputView {
                path: PathView::standard().with_direction(InOut::In),
                stream: InputStream::Stdin,
            }),
    {
        Input {
            path: ClioPath::standard().with_direction(InOut::In),
            stream: InputStream::Stdin,
        }
    }

    /// Constructs a new input from an argument and the outcome of opening
    /// what it names. The error is the line to show to the user.
    pub fn try_from_os_str(path: &str, opened: Result<Opened, Error>) -> (r: Result<Input, String>)
        ensures
            match classify(path@) {
                Ok(classified) => match spec_open_input(classified, opened_view(opened)) {
                    Ok(input) => r matches Ok(made) && made@ == input,
                    Err(e) => r matches Err(line) && is_opening_line(line@, path@, e),
                },
                Err(e) => r matches Err(line) && is_opening_line(line@, path@, e),
            },
    {
        let classified = match ClioPath::new(path) {
            Ok(classified) => classified,
            Err(e) => { return Err(e.to_os_string(path)); },
        };
        match Input::new(classified, opened) {
            Ok(input) => Ok(input),
            Err(e) => Err(e.to_os_string(path)),
        }
    }

    /// If the input is a file, returns the size that the file system
    /// reports for it now; if it is a response, the length that the server
    /// declared; otherwise none.
    pub fn len(&self, file_len: Option<u64>) -> (r: Option<u64>)
        ensures
            r == self@.len(file_len),
    {
        match self.stream {
            InputStream::Stdin => None,
            InputStream::Pipe => None,
            InputStream::File => file_len,
            InputStream::Http { length } => length,
        }
    }

    /// Returns a boolean saying if the input is empty, where its size is
    /// known.
    pub fn is_empty(&self, file_len: Option<u64>) -> (r: Option<bool>)
        ensures
            r == match self@.len(file_len) {
                Some(len) => Some(len == 0),
                None => None,
            },
    {
        match self.len(file_len) {
            Some(len) => Some(len == 0),
            None => None,
        }
    }

    /// Returns the path/url used to create the input.
    pub fn path(&self) -> (r: &ClioPath)
        ensures
            r@ == self@.path,
    {
        &self.path
    }

    /// The kind of stream behind this input.
    pub fn stream(&self) -> (r: InputStream)
        ensures
            r == self@.stream,
    {
        self.stream
    }

    /// Returns true if this [`Input`] reads from stdin.
    pub fn is_std(&self) -> (r: bool)
        ensures
            r == self@.is_std(),
    {
        matches!(self.stream, InputStream::Stdin)
    }

    /// Returns true if this [`Input`] points to the local file system, as
    /// opposed to pointing to stdin or a URL.
    pub fn is_local(&self) -> (r: bool)
        ensures
            r == self@.path.is_local(),
    {
        self.path.is_local()
    }

    /// Returns true if this is stdin and it is connected to a tty.
    pub fn is_tty(&self, stdin_tty: bool) -> (r: bool)
        ensures
            r == (self@.is_std() && stdin_tty),
    {
        self.is_std() && stdin_tty
    }

    /// Returns `true` if this [`Input`] is a file, and `false` if it is
    /// stdin, a pipe or a response.
    pub fn can_seek(&self) -> (r: bool)
        ensures
            r == self@.can_seek(),
    {
        matches!(self.stream, InputStream::File)
    }

    /// Decides a seek: a file moves its position, any other stream fails
    /// with the error for a stream that cannot seek.
    pub fn seek(&self) -> (r: Result<(), Error>)
        ensures
            check_view(r) == if self@.can_seek() {
                Ok(())
            } else {
                Err(ErrorView::seek_error())
            },
    {
        match self.stream {
            InputStream::File => Ok(()),
            _ => Err(Error::seek_error()),
        }
    }
}

/// The argument `-` always classifies as the standard streams, and
/// opening it for input asks for no file: the action is to take standard
/// input, and the input is standard input whatever the outcome handed in.
pub proof fn lemma_dash_is_standard_input(opened: Result<Opened, ErrorView>)
    ensures
        classify("-"@) == Ok::<PathView, ErrorView>(PathView::standard()),
        spec_input_action(PathView::standard()) == InputActionView::Stdin,
        spec_open_input(PathView::standard(), opened) == Ok::<InputView, ErrorView>(
            InputView { path: PathView::standard(), stream: InputStream::Stdin },
        ),
{
    reveal_strlit("-");
    reveal_strlit("http://");
    reveal_strlit("https://");
    assert(!"http://"@.is_prefix_of("-"@));
    assert(!"https://"@.is_prefix_of("-"@));
}

/// Tagging a path with a direction changes the name shown for a standard
/// stream and nothing else: the same resource is opened.
pub proof fn lemma_direction_keeps_the_resource(path: PathView, direction: InOut)
    ensures
        spec_input_action(path.with_direction(direction)) == spec_input_action(path),
        path.with_direction(direction).argument() == path.argument(),
        path.with_direction(direction).atomic == path.atomic,
        !path.is_std() ==> path.with_direction(direction) == path,
{
}

/// Opening a local path that is a directory for input fails with the
/// error for a directory.
pub proof fn lemma_directory_is_no_input(path: PathView, found: Opened)
    requires
        path.is_local(),
        found.is_dir,
    ensures
        spec_open_input(path, Ok(found)) == Err::<InputView, ErrorView>(ErrorView::dir_error()),
        ErrorView::dir_error().kind() == ErrorKind::IsADirectory,
        ErrorView::dir_error().raw_os_error() == Some(crate::error::EISDIR),
{
}

/// An input can seek only where it is a file: that is the only stream
/// made of a local path that is neither a directory nor a pipe. The error
/// of a stream that cannot seek is of the kind for that.
pub proof fn lemma_input_seeks_only_in_files(input: InputView)
    ensures
        input.can_seek() <==> input.stream == InputStream::File,
        input.is_std() ==> !input.can_seek(),
        ErrorView::seek_error().kind() == ErrorKind::NotSeekable,
        ErrorView::seek_error().raw_os_error() == Some(crate::error::ESPIPE),
{
}

/// A failure to open is the failure of the constructor, for a local path
/// and for a URL alike: no input is made that would fail on first use.
pub proof fn lemma_failed_open_is_no_input(path: PathView, e: ErrorView)
    requires
        !path.is_std(),
    ensures
        spec_open_input(path, Err(e)) == Err::<InputView, ErrorView>(e),
{
}

impl Default for Input {
    /// Standard input.
    fn default() -> (r: Input)
        ensures
            r@ == (InputView {
                path: PathView::standard().with_direction(InOut::In),
                stream: InputStream::Stdin,
            }),
    {
        Input::standard()
    }
}

/// Where to seek to.
#[derive(Debug, Clone, Copy, PartialEq, Eq)]
pub enum SeekFrom {
    /// An offset from the start.
    Start(u64),
    /// An offset from the end.
    End(i64),
    /// An offset from the current position.
    Current(i64),
}

/// An input read whole into memory, with a position to read from. It can
/// be read twice, and its size is known.
#[derive(Debug, PartialEq, Eq)]
pub struct CachedInput {
    path: ClioPath,
    data: Vec<u8>,
    pos: u64,
}

/// The mathematical value of a [`CachedInput`].
pub struct CachedView {
    pub path: PathView,
    pub data: Seq<u8>,
    pub pos: nat,
}

impl View for CachedInput {
    type V = CachedView;

    closed spec fn view(&self) -> CachedView {
        CachedView { path: self.path@, data: self.data@, pos: self.pos as nat }
    }
}

impl CachedView {
    /// What is left to read: the data from the position on, nothing where
    /// the position is behind the end.
    pub open spec fn remaining(self) -> Seq<u8> {
        if self.pos <= self.data.len() {
            self.data.skip(self.pos as int)
        } else {
            Seq::empty()
        }
    }

    /// The position that a seek asks for, where there is one: it must not
    /// be negative and must fit in 64 bits.
    pub open spec fn target(self, to: SeekFrom) -> Option<nat> {
        let wanted: int = match to {
            SeekFrom::Start(n) => n as int,
            SeekFrom::End(n) => self.data.len() + n,
            SeekFrom::Current(n) => self.pos + n,
        };
        if 0 <= wanted <= u64::MAX {
            Some(wanted as nat)
        } else {
            None
        }
    }
}

/// The error for a seek to a position that does not exist.
pub open spec fn invalid_seek() -> ErrorView {
    ErrorView::plain(
        ErrorKind::InvalidInput,
        "invalid seek to a negative or overflowing position"@,
    )
}

impl Clone for CachedInput {
    fn clone(&self) -> (r: CachedInput)
        ensures
            r@ == self@,
    {
        CachedInput { path: self.path.clone(), data: self.data.clone(), pos: self.pos }
    }
}

impl CachedInput {
    /// The number of bytes to make room for before `source` is read: its
    /// size where that is known, 4096 otherwise.
    pub fn capacity(source: &Input, file_len: Option<u64>) -> (r: usize)
        ensures
            r == (match source@.len(file_len) {
                Some(len) => len,
                None => 4096,
            }) as usize,
    {
        let len: u64 = match source.len(file_len) {
            Some(len) => len,
            None => 4096,
        };
        #[verifier::truncate]
        (len as usize)
    }

    /// Stores all the data read from `source` in a new `CachedInput`,
    /// positioned at its start. An input that would read from a terminal
    /// is refused, whatever data comes with it.
    pub fn new(source: Input, stdin_tty: bool, data: Vec<u8>) -> (r: Result<CachedInput, Error>)
        ensures
            match r {
                Ok(cached) => !(source@.is_std() && stdin_tty) && cached@ == (CachedView {
                    path: source@.path,
                    data: data@,
                    pos: 0,
                }),
                Err(e) => source@.is_std() && stdin_tty && e@ == tty_error(),
            },
    {
        if source.is_tty(stdin_tty) {
            return Err(Error::other("blocked reading from stdin because it is a tty"));
        }
        Ok(CachedInput { path: source.path, data, pos: 0 })
    }

    /// Stores all the data read from stdin in a new `CachedInput`.
    pub fn standard(stdin_tty: bool, data: Vec<u8>) -> (r: Result<CachedInput, Error>)
        ensures
            match r {
                Ok(cached) => !stdin_tty && cached@ == (CachedView {
                    path: PathView::standard().with_direction(InOut::In),
                    data: data@,
                    pos: 0,
                }),
                Err(e) => stdin_tty && e@ == tty_error(),
            },
    {
        CachedInput::new(Input::standard(), stdin_tty, data)
    }

    /// Returns the size of the data in bytes.
    pub fn len(&self) -> (r: u64)
        ensures
            r == self@.data.len(),
    {
        self.data.len() as u64
    }

    /// Returns a boolean saying if the data is empty.
    pub fn is_empty(&self) -> (r: bool)
        ensures
            r == (self@.data.len() == 0),
    {
        self.data.len() == 0
    }

    /// Returns the path/url used to create the input.
    pub fn path(&self) -> (r: &ClioPath)
        ensures
            r@ == self@.path,
    {
        &self.path
    }

    /// The position that the next read starts at.
    pub fn position(&self) -> (r: u64)
        ensures
            r == self@.pos,
    {
        self.pos
    }

    /// Resets the reader back to the start of the data.
    pub fn reset(&mut self)
        ensures
            final(self)@ == (CachedView { pos: 0, ..old(self)@ }),
    {
        self.pos = 0;
    }

    /// Returns the data from the input as a `Vec<u8>`.
    pub fn into_vec(self) -> (r: Vec<u8>)
        ensures
            r@ == self@.data,
    {
        self.data
    }

    /// Returns a reference to the data from the input as a slice.
    pub fn get_data(&self) -> (r: &[u8])
        ensures
            r@ == self@.data,
    {
        self.data.as_slice()
    }

    /// Returns what is left to read, without moving the position.
    pub fn fill_buf(&self) -> (r: &[u8])
        ensures
            r@ == self@.remaining(),
    {
        let len: usize = self.data.len();
        let start: usize = if self.pos <= len as u64 {
            self.pos as usize
        } else {
            len
        };
        let r = vstd::slice::slice_subrange(self.data.as_slice(), start, len);
        assert(r@ =~= self@.remaining());
        r
    }

    /// Marks `amt` bytes of what [`fill_buf`](Self::fill_buf) returned as
    /// read.
    pub fn consume(&mut self, amt: usize)
        requires
            amt <= old(self)@.remaining().len(),
        ensures
            final(self)@ == (CachedView { pos: (old(self)@.pos + amt) as nat, ..old(self)@ }),
    {
        let len: usize = self.data.len();
        assert(amt > 0 ==> self.pos + amt <= len);
        self.pos = self.pos + amt as u64;
    }

    /// Copies what is left to read into `buf`, as far as it has room, and
    /// moves the position behind what was copied. Returns the number of
    /// bytes copied.
    pub fn read(&mut self, buf: &mut [u8]) -> (n: usize)
        ensures
            n == if old(buf)@.len() <= old(self)@.remaining().len() {
                old(buf)@.len()
            } else {
                old(self)@.remaining().len()
            },
            final(buf)@ == old(self)@.remaining().take(n as int) + old(buf)@.skip(n as int),
            final(self)@ == (CachedView { pos: (old(self)@.pos + n) as nat, ..old(self)@ }),
    {
        let len: usize = self.data.len();
        if self.pos >= len as u64 {
            assert(buf@ =~= old(self)@.remaining().take(0) + old(buf)@.skip(0));
            return 0;
        }
        let start: usize = self.pos as usize;
        let left: usize = len - start;
        let n: usize = if buf.len() <= left {
            buf.len()
        } else {
            left
        };
        let mut i: usize = 0;
        while i < n
            invariant
                i <= n,
                start + n <= len,
                len == self.data@.len(),
                n <= buf@.len(),
                buf@.len() == old(buf)@.len(),
                forall|j: int| 0 <= j < i ==> buf@[j] == self.data@[start + j],
                forall|j: int| i <= j < buf@.len() ==> buf@[j] == old(buf)@[j],
            decreases n - i,
        {
            buf[i] = self.data[start + i];
            i += 1;
        }
        self.pos = self.pos + n as u64;
        assert(buf@ =~= old(self)@.remaining().take(n as int) + old(buf)@.skip(n as int));
        n
    }

    /// Moves the position. The new position is returned; a position
    /// before the start, or one that does not fit in 64 bits, is an error
    /// and leaves the position where it was.
    pub fn seek(&mut self, to: SeekFrom) -> (r: Result<u64, Error>)
        ensures
            match old(self)@.target(to) {
                Some(pos) => r == Ok::<u64, Error>(pos as u64) && final(self)@ == (CachedView {
                    pos,
                    ..old(self)@
                }),
                None => r matches Err(e) && e@ == invalid_seek() && final(self)@ == old(self)@,
            },
    {
        let target: Option<u64> = match to {
            SeekFrom::Start(n) => Some(n),
            SeekFrom::End(n) => (self.data.len() as u64).checked_add_signed(n),
            SeekFrom::Current(n) => self.pos.checked_add_signed(n),
        };
        match target {
            Some(pos) => {
                self.pos = pos;
                Ok(pos)
            },
            None => Err(
                Error::plain(
                    ErrorKind::InvalidInput,
                    "invalid seek to a negative or overflowing position",
                ),
            ),
        }
    }
}

/// From its start a cached input has all of its data left to read: after
/// a reset everything can be read once more.
pub proof fn lemma_reset_rereads_everything(cached: CachedView)
    ensures
        (CachedView { pos: 0, ..cached }).remaining() == cached.data,
        (CachedView { pos: 0, ..cached }).target(SeekFrom::Start(0)) == Some(0nat),
{
    assert(cached.data.skip(0) =~= cached.data);
}

/// Reading moves through the data without gaps: what is left after
/// taking `n` bytes is what was left before, less its first `n` bytes.
pub proof fn lemma_reading_is_sequential(cached: CachedView, n: nat)
    requires
        n <= cached.remaining().len(),
    ensures
        (CachedView { pos: cached.pos + n, ..cached }).remaining() == cached.remaining().skip(
            n as int,
        ),
{
    let after = CachedView { pos: cached.pos + n, ..cached };
    assert(after.remaining() =~= cached.remaining().skip(n as int));
}

/// A validated path to an input: the file exists and can be read.
///
/// Even so opening it may still fail, since the file can change between
/// the check and the use.
#[derive(Debug, PartialEq, Eq)]
pub struct InputPath {
    path: ClioPath,
}

impl View for InputPath {
    type V = PathView;

    closed spec fn view(&self) -> PathView {
        self.path@
    }
}

impl Clone for InputPath {
    fn clone(&self) -> (r: InputPath)
        ensures
            r@ == self@,
    {
        InputPath { path: self.path.clone() }
    }
}

impl Default for InputPath {
    /// The path of standard input.
    fn default() -> (r: InputPath)
        ensures
            r@ == PathView::standard().with_direction(InOut::In),
    {
        InputPath { path: ClioPath::standard().with_direction(InOut::In) }
    }
}

/// What validating a path for input decides. A local path must exist, be
/// no directory and be readable; any other path is accepted as it is.
pub open spec fn spec_input_path(path: PathView, probe: ProbeView) -> Result<PathView, ErrorView> {
    let path = path.with_direction(InOut::In);
    if path.is_local() {
        if spec_assert_exists(path.shown(), probe) is Err {
            Err(spec_assert_exists(path.shown(), probe)->Err_0)
        } else if spec_assert_not_dir(path, probe) is Err {
            Err(spec_assert_not_dir(path, probe)->Err_0)
        } else if spec_assert_readable(probe) is Err {
            Err(spec_assert_readable(probe)->Err_0)
        } else {
            Ok(path)
        }
    } else {
        Ok(path)
    }
}

impl InputPath {
    /// Constructs a new [`InputPath`], checking against what the file
    /// system said about the path that the file exists and is readable.
    pub fn new(path: ClioPath, probe: &PathProbe) -> (r: Result<InputPath, Error>)
        ensures
            match spec_input_path(path@, probe@) {
                Ok(checked) => r matches Ok(made) && made@ == checked,
                Err(e) => r matches Err(err) && err@ == e,
            },
    {
        let path = path.with_direction(InOut::In);
        if path.is_local() {
            assert_exists(path.path(), probe)?;
            assert_not_dir(&path, probe)?;
            assert_readable(probe)?;
        }
        Ok(InputPath { path })
    }

    /// Constructs a new [`InputPath`] to stdin (`-`).
    pub fn standard() -> (r: InputPath)
        ensures
            r@ == PathView::standard().with_direction(InOut::In),
    {
        InputPath { path: ClioPath::standard().with_direction(InOut::In) }
    }

    /// Returns true if this [`InputPath`] is stdin.
    pub fn is_std(&self) -> (r: bool)
        ensures
            r == self@.is_std(),
    {
        self.path.is_std()
    }

    /// Returns true if this is stdin and it is connected to a tty.
    pub fn is_tty(&self, stdin_tty: bool) -> (r: bool)
        ensures
            r == (self@.is_std() && stdin_tty),
    {
        self.is_std() && stdin_tty
    }

    /// Returns true if this [`InputPath`] is on the local file system, as
    /// opposed to pointing to stdin or a URL.
    pub fn is_local(&self) -> (r: bool)
        ensures
            r == self@.is_local(),
    {
        self.path.is_local()
    }

    /// Creates an [`Input`] from the outcome of opening the path.
    ///
    /// This is unlikely to fail as the path was checked when this
    /// [`InputPath`] was made, but things could have changed in between.
    pub fn open(self, opened: Result<Opened, Error>) -> (r: Result<Input, Error>)
        ensures
            input_result_view(r) == spec_open_input(self@, opened_view(opened)),
    {
        Input::new(self.path, opened)
    }

    /// The path used to create this [`InputPath`].
    pub fn path(&self) -> (r: &ClioPath)
        ensures
            r@ == self@,
    {
        &self.path
    }
}

} // verus!
