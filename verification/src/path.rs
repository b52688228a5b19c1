//! Classified paths: the standard streams, a local path or a URL.

use vstd::prelude::*;
use vstd::string::*;
use crate::error::{Error, ErrorView, BAD_REQUEST};
use crate::http::{
    is_http, replace_url_path, spec_is_http, spec_replace_url_path, try_to_url, url_parse,
    ParsedUrl, UrlView,
};
use crate::pathname;
use crate::pathname::{
    extension_of, file_name_of, joined, parent_of, same_path, with_extension, with_file_name,
};
use crate::input::{
    input_result_view, opened_view, spec_open_input, tty_error, CachedInput, CachedView, Input,
    Opened,
};
use crate::output::{output_result_view, spec_open_output, Output, OutputProbe};
use crate::probe::{PathProbe, ProbeView};
use crate::text::{ends_with_char, same_text};

verus! {

/// The direction in which a standard stream is used.
#[derive(Debug, PartialEq, Eq, Clone, Copy)]
pub enum InOut {
    /// Standard input.
    In,
    /// Standard output.
    Out,
}

#[derive(Debug, PartialEq, Eq)]
enum ClioPathEnum {
    /// stdin or stdout from an argument of `-`
    Std(Option<InOut>),
    /// a path to a local file which may or may not exist
    Local(String),
    /// an HTTP URL to a file on the web
    Http(ParsedUrl),
}

/// A builder for inputs and outputs: a classified command line argument.
///
/// It is designed to be used to get files related to the one passed in,
/// such as an output next to an input with another extension. The path is
/// not validated until a stream is made of it.
#[derive(Debug, PartialEq, Eq)]
pub struct ClioPath {
    path: ClioPathEnum,
    atomic: bool,
}

/// What a classified path names.
pub enum PathKind {
    /// A standard stream, with the direction where it is known.
    Std(Option<InOut>),
    /// A path on the local file system.
    Local(Seq<char>),
    /// A remote resource.
    Http(UrlView),
}

/// The mathematical value of a [`ClioPath`].
pub struct PathView {
    pub kind: PathKind,
    pub atomic: bool,
}

impl PathView {
    /// The path of the argument `-`.
    pub open spec fn standard() -> PathView {
        PathView { kind: PathKind::Std(None), atomic: false }
    }

    /// The path of a local file.
    pub open spec fn local(path: Seq<char>) -> PathView {
        PathView { kind: PathKind::Local(path), atomic: false }
    }

    /// The path of a remote resource.
    pub open spec fn remote(url: UrlView) -> PathView {
        PathView { kind: PathKind::Http(url), atomic: false }
    }

    pub open spec fn is_std(self) -> bool {
        self.kind is Std
    }

    pub open spec fn is_local(self) -> bool {
        self.kind is Local
    }

    pub open spec fn is_http(self) -> bool {
        self.kind is Http
    }

    /// A standard stream takes the direction; any other path is unchanged.
    pub open spec fn with_direction(self, direction: InOut) -> PathView {
        match self.kind {
            PathKind::Std(_) => PathView { kind: PathKind::Std(Some(direction)), ..self },
            _ => self,
        }
    }

    /// The path shown for this argument: `-` or the pseudo device of a
    /// standard stream, the local path, or the path part of the URL.
    pub open spec fn shown(self) -> Seq<char> {
        match self.kind {
            PathKind::Std(None) => "-"@,
            PathKind::Std(Some(InOut::In)) => "/dev/stdin"@,
            PathKind::Std(Some(InOut::Out)) => "/dev/stdout"@,
            PathKind::Local(path) => path,
            PathKind::Http(url) => url.path,
        }
    }

    /// The argument as it was given: `-`, the local path, or the URL.
    pub open spec fn argument(self) -> Seq<char> {
        match self.kind {
            PathKind::Std(_) => "-"@,
            PathKind::Local(path) => path,
            PathKind::Http(url) => url.text,
        }
    }

    /// The shown path ends with a `/`.
    pub open spec fn ends_with_slash(self) -> bool {
        self.shown().len() > 0 && self.shown().last() == '/'
    }

    /// Whether the path would connect to a terminal, given which of the
    /// standard streams are terminals.
    pub open spec fn is_tty(self, stdin_tty: bool, stdout_tty: bool) -> bool {
        match self.kind {
            PathKind::Std(Some(InOut::In)) => stdin_tty,
            PathKind::Std(Some(InOut::Out)) => stdout_tty,
            PathKind::Std(None) => stdin_tty || stdout_tty,
            _ => false,
        }
    }

    /// Whether the path names a pipe: a standard stream always, a local
    /// path where its metadata says so, a URL never.
    pub open spec fn is_fifo(self, probe: ProbeView) -> bool {
        match self.kind {
            PathKind::Std(_) => true,
            PathKind::Local(_) => probe.is_fifo(),
            PathKind::Http(_) => false,
        }
    }

    /// The directory to look into for this path: the parent of a local
    /// path, `.` where that parent is empty, nothing for other paths.
    pub open spec fn safe_parent(self) -> Option<Seq<char>> {
        match self.kind {
            PathKind::Local(path) => match parent_of(path) {
                Some(parent) => Some(spec_or_current(parent, same_path(parent, ""@))),
                None => None,
            },
            _ => None,
        }
    }

    /// This path with `edited` in place of the path that edits work on: a
    /// local path is replaced, the path part of a URL is replaced and
    /// escaped, a standard stream stays as it is.
    pub open spec fn with_path(self, edited: Seq<char>) -> PathView {
        match self.kind {
            PathKind::Std(_) => self,
            PathKind::Local(_) => PathView { kind: PathKind::Local(edited), ..self },
            PathKind::Http(url) => PathView {
                kind: PathKind::Http(spec_replace_url_path(url, edited)),
                ..self
            },
        }
    }

    /// The path after `set_file_name`.
    pub open spec fn set_file_name(self, name: Seq<char>) -> PathView {
        if self.is_std() {
            self
        } else {
            self.with_path(with_file_name(self.shown(), name))
        }
    }

    /// The path after `set_extension`, and what the call returns.
    pub open spec fn set_extension(self, extension: Seq<char>) -> (PathView, bool) {
        if self.is_std() {
            (self, false)
        } else {
            let (edited, changed) = with_extension(self.shown(), extension);
            (self.with_path(edited), changed)
        }
    }

    /// The path after `push`.
    pub open spec fn push(self, more: Seq<char>) -> PathView {
        if self.is_std() {
            self
        } else {
            self.with_path(joined(self.shown(), more))
        }
    }

    /// The extension that `add_extension` sets.
    pub open spec fn added_extension(self, extension: Seq<char>) -> Seq<char> {
        spec_extended(extension_of(self.shown()), extension)
    }

    /// Whether `add_extension` applies: the shown path has a file name,
    /// does not end with a slash, and the extension to set holds no slash.
    pub open spec fn can_add_extension(self, extension: Seq<char>) -> bool {
        &&& file_name_of(self.shown()) is Some
        &&& !self.ends_with_slash()
        &&& !self.added_extension(extension).contains('/')
    }

    /// The path after `add_extension`, and what the call returns.
    pub open spec fn add_extension(self, extension: Seq<char>) -> (PathView, bool) {
        if self.can_add_extension(extension) {
            self.set_extension(self.added_extension(extension))
        } else {
            (self, false)
        }
    }
}

/// A directory as it is named to look into it: `.` in place of the empty
/// path, any other as it is.
pub open spec fn spec_or_current(dir: Seq<char>, is_empty: bool) -> Seq<char> {
    if is_empty {
        "."@
    } else {
        dir
    }
}

/// Names a directory to look into it: the current directory where the
/// path of the directory is empty.
pub fn or_current(dir: String, is_empty: bool) -> (r: String)
    ensures
        r@ == spec_or_current(dir@, is_empty),
{
    if is_empty {
        String::from_str(".")
    } else {
        dir
    }
}

/// An extension behind the one that is there: the two joined by a dot,
/// or the new one alone where there is none.
pub open spec fn spec_extended(existing: Option<Seq<char>>, extension: Seq<char>) -> Seq<char> {
    match existing {
        Some(existing) => existing + "."@ + extension,
        None => extension,
    }
}

/// Puts an extension behind the one that is there.
pub fn extended(existing: Option<String>, extension: &str) -> (r: String)
    ensures
        r@ == spec_extended(existing.deep_view(), extension@),
{
    match existing {
        Some(existing) => {
            let mut joined = existing;
            joined.append(".");
            joined.append(extension);
            joined
        },
        None => String::from_str(extension),
    }
}

/// How an argument is classified: a URL where it begins like one, and then
/// a bad request where it does not parse; the standard streams for `-`;
/// a local path otherwise.
pub open spec fn classify(raw: Seq<char>) -> Result<PathView, ErrorView> {
    if spec_is_http(raw) {
        match url_parse(raw) {
            Ok(url) => Ok(PathView::remote(url)),
            Err(message) => Err(ErrorView::Http { code: BAD_REQUEST, message }),
        }
    } else if raw == "-"@ {
        Ok(PathView::standard())
    } else {
        Ok(PathView::local(raw))
    }
}

/// The views of both sides of a result that carries a path.
pub open spec fn path_result_view(r: Result<ClioPath, Error>) -> Result<PathView, ErrorView> {
    match r {
        Ok(path) => Ok(path@),
        Err(e) => Err(e@),
    }
}

/// One entry found by walking a directory tree.
#[derive(Debug, PartialEq, Eq)]
pub struct WalkEntry {
    /// The path of the entry.
    pub path: String,
    /// The entry is a regular file, after following symbolic links.
    pub is_file: bool,
}

/// The first error among the entries of a walk, if there is one.
pub open spec fn walk_error(walk: Seq<Result<WalkEntry, Error>>) -> Option<ErrorView>
    decreases walk.len(),
{
    if walk.len() == 0 {
        None
    } else {
        match walk_error(walk.drop_last()) {
            Some(e) => Some(e),
            None => match walk.last() {
                Err(e) => Some(e@),
                Ok(_) => None,
            },
        }
    }
}

/// `found` holds, in the order of the walk, the regular files at the
/// indices `kept`, each as a local path.
pub open spec fn is_selection(
    walk: Seq<Result<WalkEntry, Error>>,
    kept: Seq<int>,
    found: Seq<ClioPath>,
) -> bool {
    &&& kept.len() == found.len()
    &&& forall|j: int|
        0 <= j < kept.len() ==> {
            &&& 0 <= #[trigger] kept[j] < walk.len()
            &&& walk[kept[j]] matches Ok(entry)
            &&& entry.is_file
            &&& found[j]@ == PathView::local(entry.path@)
        }
    &&& forall|j: int, k: int| 0 <= j < k < kept.len() ==> #[trigger] kept[j] < #[trigger] kept[k]
}

/// The regular file at index `i` of the walk was refused by `predicate`.
pub open spec fn is_refused<P: Fn(&ClioPath) -> bool>(
    walk: Seq<Result<WalkEntry, Error>>,
    i: int,
    predicate: P,
) -> bool {
    exists|candidate: ClioPath|
        {
            &&& walk[i] matches Ok(entry)
            &&& #[trigger] candidate@ == PathView::local(entry.path@)
            &&& call_ensures(predicate, (&candidate,), false)
        }
}

/// `found` holds exactly the regular files of the walk that `predicate`
/// accepted, in the order of the walk: those at the indices `kept` were
/// accepted, every other regular file was refused.
pub open spec fn is_filtered<P: Fn(&ClioPath) -> bool>(
    walk: Seq<Result<WalkEntry, Error>>,
    kept: Seq<int>,
    found: Seq<ClioPath>,
    predicate: P,
) -> bool {
    &&& is_selection(walk, kept, found)
    &&& forall|j: int|
        0 <= j < found.len() ==> call_ensures(predicate, (&#[trigger] found[j],), true)
    &&& forall|i: int|
        0 <= i < walk.len() && (walk[i] matches Ok(entry) && entry.is_file) && !kept.contains(i)
            ==> #[trigger] is_refused(walk, i, predicate)
}

/// An error that stands in a prefix of a walk is the error of the walk.
pub proof fn lemma_walk_error_prefix(walk: Seq<Result<WalkEntry, Error>>, k: int)
    requires
        0 <= k <= walk.len(),
        walk_error(walk.take(k)) is Some,
    ensures
        walk_error(walk) == walk_error(walk.take(k)),
    decreases walk.len(),
{
    if k == walk.len() {
        assert(walk.take(k) =~= walk);
    } else {
        assert(walk.drop_last().take(k) =~= walk.take(k));
        lemma_walk_error_prefix(walk.drop_last(), k);
    }
}

impl View for ClioPath {
    type V = PathView;

    closed spec fn view(&self) -> PathView {
        PathView {
            kind: match self.path {
                ClioPathEnum::Std(direction) => PathKind::Std(direction),
                ClioPathEnum::Local(path) => PathKind::Local(path@),
                ClioPathEnum::Http(url) => PathKind::Http(url@),
            },
            atomic: self.atomic,
        }
    }
}

impl Clone for ClioPath {
    fn clone(&self) -> (r: ClioPath)
        ensures
            r@ == self@,
    {
        let path = match &self.path {
            ClioPathEnum::Std(direction) => ClioPathEnum::Std(*direction),
            ClioPathEnum::Local(path) => ClioPathEnum::Local(path.clone()),
            ClioPathEnum::Http(url) => ClioPathEnum::Http(url.clone()),
        };
        ClioPath { path, atomic: self.atomic }
    }
}

impl Default for ClioPath {
    /// The path of the standard streams.
    fn default() -> (r: ClioPath)
        ensures
            r@ == PathView::standard(),
    {
        ClioPath::standard()
    }
}

impl ClioPath {
    /// Construct a new [`ClioPath`] from a string.
    ///
    /// `-` is treated as stdin/stdout, and a string that begins with
    /// `http://` or `https://` as a URL.
    pub fn new(path: &str) -> (r: Result<ClioPath, Error>)
        ensures
            path_result_view(r) == classify(path@),
    {
        if is_http(path) {
            match try_to_url(Some(path)) {
                Ok(url) => Ok(ClioPath::remote(url)),
                Err(e) => Err(e),
            }
        } else if same_text(path, "-") {
            Ok(ClioPath::standard())
        } else {
            Ok(ClioPath::local(String::from_str(path)))
        }
    }

    /// Constructs a new [`ClioPath`] of `-` for stdout or stdin.
    pub fn standard() -> (r: ClioPath)
        ensures
            r@ == PathView::standard(),
    {
        ClioPath { path: ClioPathEnum::Std(None), atomic: false }
    }

    /// Constructs a new [`ClioPath`] for a local path.
    pub fn local(path: String) -> (r: ClioPath)
        ensures
            r@ == PathView::local(path@),
    {
        ClioPath { path: ClioPathEnum::Local(path), atomic: false }
    }

    /// Constructs a new [`ClioPath`] for a URL that was parsed already.
    pub fn remote(url: ParsedUrl) -> (r: ClioPath)
        ensures
            r@ == PathView::remote(url@),
    {
        ClioPath { path: ClioPathEnum::Http(url), atomic: false }
    }

    /// Tags a standard stream with the direction it is used in. This only
    /// changes the name shown for it.
    pub fn with_direction(self, direction: InOut) -> (r: ClioPath)
        ensures
            r@ == self@.with_direction(direction),
    {
        ClioPath {
            path: match self.path {
                ClioPathEnum::Std(_) => ClioPathEnum::Std(Some(direction)),
                x => x,
            },
            atomic: self.atomic,
        }
    }

    /// Asks for writes to go to a temporary file that replaces the
    /// destination when the output is finished.
    pub fn with_atomic(self, atomic: bool) -> (r: ClioPath)
        ensures
            r@ == (PathView { atomic, ..self@ }),
    {
        ClioPath { path: self.path, atomic }
    }

    /// Whether writes were asked to be atomic.
    pub fn is_atomic(&self) -> (r: bool)
        ensures
            r == self@.atomic,
    {
        self.atomic
    }

    /// Puts `edited` in place of the path that edits work on: a local
    /// path is replaced, the path part of a URL is replaced and escaped,
    /// a standard stream stays as it is.
    pub fn with_path_mut(&mut self, edited: String)
        ensures
            final(self)@ == old(self)@.with_path(edited@),
    {
        let mut path = ClioPathEnum::Std(None);
        core::mem::swap(&mut self.path, &mut path);
        self.path = match path {
            ClioPathEnum::Std(direction) => ClioPathEnum::Std(direction),
            ClioPathEnum::Local(_) => ClioPathEnum::Local(edited),
            ClioPathEnum::Http(url) => ClioPathEnum::Http(replace_url_path(url, edited.as_str())),
        };
    }

    /// Updates the file name of the path to `file_name`, as
    /// `PathBuf::set_file_name` does. On a URL this edits the path part;
    /// a standard stream is left as it is.
    pub fn set_file_name(&mut self, file_name: &str)
        ensures
            final(self)@ == old(self)@.set_file_name(file_name@),
    {
        if !self.is_std() {
            let edited = pathname::set_file_name(self.path(), file_name);
            self.with_path_mut(edited);
        }
    }

    /// Updates the extension of the path to `extension`, as
    /// `PathBuf::set_extension` does, and returns what that returns. On a
    /// URL this edits the path part; a standard stream is left as it is
    /// and gives `false`.
    pub fn set_extension(&mut self, extension: &str) -> (r: bool)
        requires
            !extension@.contains('/'),
        ensures
            (final(self)@, r) == old(self)@.set_extension(extension@),
    {
        if self.is_std() {
            false
        } else {
            let (edited, changed) = pathname::set_extension(self.path(), extension);
            self.with_path_mut(edited);
            changed
        }
    }

    /// Adds an extension to the end of the file name: `log.txt` becomes
    /// `log.txt.gz`. Nothing is done, and `false` returned, where the path
    /// has no file name or ends with a slash, or where the extension to
    /// set holds a slash.
    pub fn add_extension(&mut self, extension: &str) -> (r: bool)
        ensures
            (final(self)@, r) == old(self)@.add_extension(extension@),
    {
        if pathname::file_name(self.path()).is_some() && !self.ends_with_slash() {
            let added = extended(pathname::extension(self.path()), extension);
            if crate::text::contains_char(added.as_str(), '/') {
                false
            } else {
                self.set_extension(added.as_str())
            }
        } else {
            false
        }
    }

    /// Extends the path with `path`, as `PathBuf::push` does. On a URL
    /// this edits the path part; a standard stream is left as it is.
    pub fn push(&mut self, path: &str)
        ensures
            final(self)@ == old(self)@.push(path@),
    {
        if !self.is_std() {
            let edited = pathname::push(self.path(), path);
            self.with_path_mut(edited);
        }
    }

    /// Returns true if this path is stdin/stdout, that is, it was created
    /// with `-`.
    pub fn is_std(&self) -> (r: bool)
        ensures
            r == self@.is_std(),
    {
        matches!(self.path, ClioPathEnum::Std(_))
    }

    /// Returns true if this is a standard stream and it would connect to a
    /// terminal. The caller says which of the standard streams are
    /// terminals.
    pub fn is_tty(&self, stdin_tty: bool, stdout_tty: bool) -> (r: bool)
        ensures
            r == self@.is_tty(stdin_tty, stdout_tty),
    {
        match self.path {
            ClioPathEnum::Std(Some(InOut::In)) => stdin_tty,
            ClioPathEnum::Std(Some(InOut::Out)) => stdout_tty,
            ClioPathEnum::Std(None) => stdin_tty || stdout_tty,
            _ => false,
        }
    }

    /// Returns true if this path is on the local file system, as opposed
    /// to pointing to stdin/stdout or a URL.
    pub fn is_local(&self) -> (r: bool)
        ensures
            r == self@.is_local(),
    {
        matches!(self.path, ClioPathEnum::Local(_))
    }

    /// Returns true if this path is a URL.
    pub fn is_remote(&self) -> (r: bool)
        ensures
            r == self@.is_http(),
    {
        matches!(self.path, ClioPathEnum::Http(_))
    }

    /// Returns true if this path names a pipe, given what the file system
    /// said about it.
    pub fn is_fifo(&self, probe: &PathProbe) -> (r: bool)
        ensures
            r == self@.is_fifo(probe@),
    {
        match &self.path {
            ClioPathEnum::Local(_) => probe.is_fifo(),
            ClioPathEnum::Std(_) => true,
            ClioPathEnum::Http(_) => false,
        }
    }

    /// Returns `true` if this path ends with a `/`.
    ///
    /// A trailing slash is often used by command line arguments to refer
    /// to a directory that may not exist, as in `cp foo /tmp/`.
    pub fn ends_with_slash(&self) -> (r: bool)
        ensures
            r == self@.ends_with_slash(),
    {
        ends_with_char(self.path(), '/')
    }

    /// The path represented by this [`ClioPath`].
    ///
    /// For `-` with no known direction this is `-`; with a known direction
    /// it is the pseudo device, such as `/dev/stdin`. For a URL it is the
    /// path part of the URL.
    pub fn path(&self) -> (r: &str)
        ensures
            r@ == self@.shown(),
    {
        match &self.path {
            ClioPathEnum::Std(None) => "-",
            ClioPathEnum::Std(Some(InOut::In)) => "/dev/stdin",
            ClioPathEnum::Std(Some(InOut::Out)) => "/dev/stdout",
            ClioPathEnum::Local(path) => path.as_str(),
            ClioPathEnum::Http(url) => url.path.as_str(),
        }
    }

    /// The final component of the shown path, as `Path::file_name` gives it.
    pub fn file_name(&self) -> (r: Option<String>)
        ensures
            r.deep_view() == file_name_of(self@.shown()),
    {
        pathname::file_name(self.path())
    }

    /// The extension of the shown path, as `Path::extension` gives it.
    pub fn extension(&self) -> (r: Option<String>)
        ensures
            r.deep_view() == extension_of(self@.shown()),
    {
        pathname::extension(self.path())
    }

    /// The directory in which a file at this local path would be made.
    pub fn safe_parent(&self) -> (r: Option<String>)
        ensures
            r.deep_view() == self@.safe_parent(),
    {
        match &self.path {
            ClioPathEnum::Local(path) => {
                match pathname::parent(path.as_str()) {
                    Some(parent) => {
                        let is_empty = pathname::same(parent.as_str(), "");
                        Some(or_current(parent, is_empty))
                    },
                    None => None,
                }
            },
            _ => None,
        }
    }

    /// The argument represented by this [`ClioPath`].
    pub fn as_os_str(&self) -> (r: &str)
        ensures
            r@ == self@.argument(),
    {
        match &self.path {
            ClioPathEnum::Std(_) => "-",
            ClioPathEnum::Local(path) => path.as_str(),
            ClioPathEnum::Http(url) => url.text.as_str(),
        }
    }

    /// If this is a local path, returns the regular files among the
    /// entries of a walk below it that `predicate` accepts, in the order of
    /// the walk, or the first error of the walk. Otherwise returns just
    /// this path.
    pub fn files<P: Fn(&ClioPath) -> bool>(
        self,
        walk: Vec<Result<WalkEntry, Error>>,
        predicate: P,
    ) -> (r: Result<Vec<ClioPath>, Error>)
        requires
            forall|candidate: ClioPath| call_requires(predicate, (&candidate,)),
        ensures
            !self@.is_local() ==> (r matches Ok(list) && list@.len() == 1 && list@[0]@ == self@),
            self@.is_local() ==> match walk_error(walk@) {
                Some(e) => r matches Err(err) && err@ == e,
                None => r matches Ok(list) && exists|kept: Seq<int>|
                    is_filtered(walk@, kept, list@, predicate),
            },
    {
        if !self.is_local() {
            let mut found: Vec<ClioPath> = Vec::new();
            found.push(self);
            return Ok(found);
        }
        let mut found: Vec<ClioPath> = Vec::new();
        let ghost mut kept: Seq<int> = Seq::empty();
        let n: usize = walk.len();
        let mut i: usize = 0;
        while i < n
            invariant
                i <= n,
                n == walk@.len(),
                self@.is_local(),
                forall|candidate: ClioPath| call_requires(predicate, (&candidate,)),
                walk_error(walk@.take(i as int)) is None,
                is_selection(walk@, kept, found@),
                forall|j: int| 0 <= j < kept.len() ==> #[trigger] kept[j] < i,
                forall|j: int|
                    0 <= j < found@.len() ==> call_ensures(
                        predicate,
                        (&#[trigger] found@[j],),
                        true,
                    ),
                forall|k: int|
                    0 <= k < i && (walk@[k] matches Ok(entry) && entry.is_file) && !kept.contains(
                        k,
                    ) ==> #[trigger] is_refused(walk@, k, predicate),
            decreases n - i,
        {
            proof {
                assert(walk@.take(i + 1).drop_last() =~= walk@.take(i as int));
                assert(walk@.take(i + 1).last() == walk@[i as int]);
            }
            match &walk[i] {
                Err(e) => {
                    proof {
                        lemma_walk_error_prefix(walk@, i + 1);
                    }
                    return Err(e.clone());
                },
                Ok(entry) => {
                    if entry.is_file {
                        let candidate = ClioPath::local(entry.path.clone());
                        if predicate(&candidate) {
                            proof {
                                let ghost before = kept;
                                kept = kept.push(i as int);
                                assert forall|k: int|
                                    0 <= k < i + 1 && (walk@[k] matches Ok(entry) && entry.is_file)
                                        && !kept.contains(k) implies #[trigger] is_refused(
                                    walk@,
                                    k,
                                    predicate,
                                ) by {
                                    assert(kept[before.len() as int] == i);
                                    if k < i && before.contains(k) {
                                        let j = choose|j: int|
                                            0 <= j < before.len() && before[j] == k;
                                        assert(kept[j] == k);
                                    }
                                }
                            }
                            found.push(candidate);
                        } else {
                            assert(is_refused(walk@, i as int, predicate));
                        }
                    }
                },
            }
            i += 1;
        }
        proof {
            assert(walk@.take(n as int) =~= walk@);
            assert(is_filtered(walk@, kept, found@, predicate));
        }
        let r: Result<Vec<ClioPath>, Error> = Ok(found);
        assert(r matches Ok(list) && is_filtered(walk@, kept, list@, predicate));
        r
    }

    /// Creates the output at this path with a predetermined length, set
    /// on the file or declared as the content length of the upload, from
    /// what the file system said about the place and the outcome of
    /// opening it.
    pub fn create_with_len(self, size: u64, probe: &OutputProbe, opened: Result<Opened, Error>) -> (r:
        Result<Output, Error>)
        ensures
            output_result_view(r) == spec_open_output(
                self@,
                Some(size),
                probe@,
                opened_view(opened),
            ),
    {
        Output::maybe_with_len(self, Some(size), probe, opened)
    }

    /// Creates the output at this path without setting the length.
    pub fn create(self, probe: &OutputProbe, opened: Result<Opened, Error>) -> (r: Result<
        Output,
        Error,
    >)
        ensures
            output_result_view(r) == spec_open_output(self@, None, probe@, opened_view(opened)),
    {
        Output::maybe_with_len(self, None, probe, opened)
    }

    /// Makes the input at this path from the outcome of opening it.
    pub fn open(self, opened: Result<Opened, Error>) -> (r: Result<Input, Error>)
        ensures
            input_result_view(r) == spec_open_input(self@, opened_view(opened)),
    {
        Input::new(self, opened)
    }

    /// Makes a [`CachedInput`] of the whole content of the input at this
    /// path. `data` is what was read from it, and is not looked at where
    /// the input could not be opened or would read from a terminal.
    pub fn read_all(self, opened: Result<Opened, Error>, stdin_tty: bool, data: Vec<u8>) -> (r:
        Result<CachedInput, Error>)
        ensures
            match spec_open_input(self@, opened_view(opened)) {
                Err(e) => r matches Err(err) && err@ == e,
                Ok(input) => if input.is_std() && stdin_tty {
                    r matches Err(err) && err@ == tty_error()
                } else {
                    r matches Ok(cached) && cached@ == (CachedView {
                        path: self@,
                        data: data@,
                        pos: 0,
                    })
                },
            },
    {
        let source = Input::new(self, opened)?;
        CachedInput::new(source, stdin_tty, data)
    }

    /// Consumes the [`ClioPath`], yielding its internal string storage.
    pub fn to_os_string(self) -> (r: String)
        ensures
            r@ == self@.argument(),
    {
        match self.path {
            ClioPathEnum::Std(_) => String::from_str("-"),
            ClioPathEnum::Local(path) => path,
            ClioPathEnum::Http(url) => url.text,
        }
    }
}

} // verus!
