//! The rules by which a command line parser validates an argument before
//! it hands out a path or a stream.

use std::marker::PhantomData;
use vstd::prelude::*;
use vstd::string::*;
use crate::error::{Error, ErrorView};
use crate::path::{classify, path_result_view, ClioPath, PathView};
use crate::probe::{PathProbe, ProbeView};
use crate::{
    assert_exists, assert_is_dir, assert_not_dir, spec_assert_exists, spec_assert_is_dir,
    spec_assert_not_dir,
};

verus! {

/// A validating parser for arguments that become a path, an input or an
/// output of type `T`.
#[derive(Copy, Debug)]
pub struct OsStrParser<T> {
    exists: Option<bool>,
    is_dir: Option<bool>,
    is_file: Option<bool>,
    is_tty: Option<bool>,
    atomic: bool,
    default_name: Option<&'static str>,
    phantom: PhantomData<T>,
}

/// The mathematical value of an [`OsStrParser`]: the checks it was asked
/// to make.
pub struct ParserView {
    pub exists: Option<bool>,
    pub is_dir: Option<bool>,
    pub is_file: Option<bool>,
    pub is_tty: Option<bool>,
    pub atomic: bool,
    pub default_name: Option<Seq<char>>,
}

impl<T> View for OsStrParser<T> {
    type V = ParserView;

    closed spec fn view(&self) -> ParserView {
        ParserView {
            exists: self.exists,
            is_dir: self.is_dir,
            is_file: self.is_file,
            is_tty: self.is_tty,
            atomic: self.atomic,
            default_name: match self.default_name {
                Some(name) => Some(name@),
                None => None,
            },
        }
    }
}

impl<T> Clone for OsStrParser<T> {
    fn clone(&self) -> (r: Self)
        ensures
            r@ == self@,
    {
        OsStrParser {
            exists: self.exists,
            is_dir: self.is_dir,
            is_file: self.is_file,
            is_tty: self.is_tty,
            atomic: self.atomic,
            default_name: self.default_name,
            phantom: PhantomData,
        }
    }
}

impl ParserView {
    /// A parser that makes no check.
    pub open spec fn new() -> ParserView {
        ParserView {
            exists: None,
            is_dir: None,
            is_file: None,
            is_tty: None,
            atomic: false,
            default_name: None,
        }
    }

    /// Whether the default name is appended to `path`: one is set, the
    /// path is local, and it names a directory or ends with a slash.
    pub open spec fn takes_default_name(self, path: PathView, given: ProbeView) -> bool {
        &&& self.default_name is Some
        &&& path.is_local()
        &&& (given.is_dir() || path.ends_with_slash())
    }

    /// The path that an argument stands for, before it is checked.
    pub open spec fn resolve(self, value: Seq<char>, given: ProbeView) -> Result<
        PathView,
        ErrorView,
    > {
        match classify(value) {
            Err(e) => Err(e),
            Ok(path) => {
                let path = PathView { atomic: self.atomic, ..path };
                if self.takes_default_name(path, given) {
                    Ok(path.push(self.default_name->0))
                } else {
                    Ok(path)
                }
            },
        }
    }

    /// The checks on a resolved path, given what the file system said about
    /// it and which standard streams are terminals.
    pub open spec fn check(self, path: PathView, probe: ProbeView, stdin_tty: bool, stdout_tty: bool)
        -> Result<(), ErrorView> {
        if path.is_local() {
            if self.is_dir == Some(true) && probe.is_present() && spec_assert_is_dir(
                path.shown(),
                probe,
            ) is Err {
                spec_assert_is_dir(path.shown(), probe)
            } else if self.is_file == Some(true) && spec_assert_not_dir(path, probe) is Err {
                spec_assert_not_dir(path, probe)
            } else if self.exists == Some(true) {
                spec_assert_exists(path.shown(), probe)
            } else {
                Ok(())
            }
        } else if self.is_dir == Some(true) {
            Err(ErrorView::not_dir_error())
        } else if self.is_tty == Some(false) && path.is_tty(stdin_tty, stdout_tty) {
            Err(ErrorView::plain(
                crate::error::ErrorKind::Other,
                "blocked reading from stdin because it is a tty"@,
            ))
        } else {
            Ok(())
        }
    }

    /// The outcome of validating an argument.
    pub open spec fn validate(
        self,
        value: Seq<char>,
        given: ProbeView,
        resolved: ProbeView,
        stdin_tty: bool,
        stdout_tty: bool,
    ) -> Result<PathView, ErrorView> {
        match self.resolve(value, given) {
            Err(e) => Err(e),
            Ok(path) => match self.check(path, resolved, stdin_tty, stdout_tty) {
                Err(e) => Err(e),
                Ok(()) => Ok(path),
            },
        }
    }
}

impl<T> OsStrParser<T> {
    /// A parser that accepts every argument that classifies.
    pub fn new() -> (r: Self)
        ensures
            r@ == ParserView::new(),
    {
        OsStrParser {
            exists: None,
            is_dir: None,
            is_file: None,
            is_tty: None,
            default_name: None,
            atomic: false,
            phantom: PhantomData,
        }
    }

    /// This path must exist.
    pub fn must_exist(self) -> (r: Self)
        ensures
            r@ == (ParserView { exists: Some(true), ..self@ }),
    {
        let mut parser = self;
        parser.exists = Some(true);
        parser
    }

    /// If this path exists it must point to a directory.
    pub fn is_dir(self) -> (r: Self)
        ensures
            r@ == (ParserView { is_dir: Some(true), is_file: None, ..self@ }),
    {
        let mut parser = self;
        parser.is_dir = Some(true);
        parser.is_file = None;
        parser
    }

    /// If this path exists it must point to a file.
    pub fn is_file(self) -> (r: Self)
        ensures
            r@ == (ParserView { is_dir: None, is_file: Some(true), ..self@ }),
    {
        let mut parser = self;
        parser.is_dir = None;
        parser.is_file = Some(true);
        parser
    }

    /// If this path is for stdin/stdout they must be a pipe, not a tty.
    pub fn not_tty(self) -> (r: Self)
        ensures
            r@ == (ParserView { is_tty: Some(false), ..self@ }),
    {
        let mut parser = self;
        parser.is_tty = Some(false);
        parser
    }

    /// Make writing atomic, by writing to a temp file then doing an atomic
    /// swap.
    pub fn atomic(self) -> (r: Self)
        ensures
            r@ == (ParserView { atomic: true, ..self@ }),
    {
        let mut parser = self;
        parser.atomic = true;
        parser
    }

    /// The default name to use for the file if the path is a directory.
    pub fn default_name(self, name: &'static str) -> (r: Self)
        ensures
            r@ == (ParserView { default_name: Some(name@), ..self@ }),
    {
        let mut parser = self;
        parser.default_name = Some(name);
        parser
    }

    /// Classifies an argument and, where it names a directory, appends the
    /// default name. `given` is what the file system said about the
    /// argument as it was given.
    pub fn resolve(&self, value: &str, given: &PathProbe) -> (r: Result<ClioPath, Error>)
        ensures
            path_result_view(r) == self@.resolve(value@, given@),
    {
        let path = match ClioPath::new(value) {
            Ok(path) => path,
            Err(e) => { return Err(e); },
        };
        let mut path = path.with_atomic(self.atomic);
        if path.is_local() {
            if let Some(name) = self.default_name {
                if given.is_dir() || path.ends_with_slash() {
                    path.push(name);
                }
            }
        }
        Ok(path)
    }

    /// Makes the checks that this parser was asked for on a resolved path.
    /// `probe` is what the file system said about that path.
    pub fn check(&self, path: &ClioPath, probe: &PathProbe, stdin_tty: bool, stdout_tty: bool) -> (r:
        Result<(), Error>)
        ensures
            crate::error::check_view(r) == self@.check(path@, probe@, stdin_tty, stdout_tty),
    {
        if path.is_local() {
            if is_set(self.is_dir) && probe.is_present() {
                assert_is_dir(path.path(), probe)?;
            }
            if is_set(self.is_file) {
                assert_not_dir(path, probe)?;
            }
            if is_set(self.exists) {
                assert_exists(path.path(), probe)?;
            }
            Ok(())
        } else if is_set(self.is_dir) {
            Err(Error::not_dir_error())
        } else if is_unset(self.is_tty) && path.is_tty(stdin_tty, stdout_tty) {
            Err(Error::other("blocked reading from stdin because it is a tty"))
        } else {
            Ok(())
        }
    }

    /// Validates an argument. `given` is what the file system said about
    /// the argument as it was given, `resolved` what it said about the
    /// path that [`resolve`](Self::resolve) makes of it.
    pub fn validate(
        &self,
        value: &str,
        given: &PathProbe,
        resolved: &PathProbe,
        stdin_tty: bool,
        stdout_tty: bool,
    ) -> (r: Result<ClioPath, Error>)
        ensures
            path_result_view(r) == self@.validate(value@, given@, resolved@, stdin_tty, stdout_tty),
    {
        let path = self.resolve(value, given)?;
        self.check(&path, resolved, stdin_tty, stdout_tty)?;
        Ok(path)
    }
}

/// The text shown for an argument that was refused. It names the
/// argument where the parser knows it, says whether a stream could not be
/// opened or a path is invalid, quotes the value and ends with the text
/// of the error.
pub open spec fn spec_refusal(arg: Option<Seq<char>>, opening: bool, value: Seq<char>, error: Seq<char>)
    -> Seq<char> {
    let head = match arg {
        Some(name) => "Invalid value for "@ + name + ": "@,
        None => Seq::<char>::empty(),
    };
    let what = if opening {
        "Could not open "@
    } else {
        "Invalid path "@
    };
    head + what + value + ": "@ + error
}

/// Composes the text shown for an argument that was refused. `arg` is
/// the name of the argument where it is known, `opening` says whether a
/// stream was to be opened rather than a path to be checked, and `value`
/// is the value as it is to be quoted.
pub fn refusal(arg: Option<&str>, opening: bool, value: &str, error: &Error) -> (r: String)
    ensures
        r@ == spec_refusal(
            match arg {
                Some(name) => Some(name@),
                None => None,
            },
            opening,
            value@,
            error.shown(),
        ),
{
    let mut text = String::new();
    if let Some(name) = arg {
        text.append("Invalid value for ");
        text.append(name);
        text.append(": ");
    }
    let ghost head = text@;
    if opening {
        text.append("Could not open ");
    } else {
        text.append("Invalid path ");
    }
    text.append(value);
    text.append(": ");
    let shown = error.to_text();
    text.append(shown.as_str());
    proof {
        let what = if opening {
            "Could not open "@
        } else {
            "Invalid path "@
        };
        assert(text@ =~= head + what + value@ + ": "@ + error.shown());
        if arg is None {
            assert(head =~= Seq::<char>::empty());
        } else {
            assert(head =~= "Invalid value for "@ + arg->0@ + ": "@);
        }
    }
    text
}

fn is_set(flag: Option<bool>) -> (r: bool)
    ensures
        r == (flag == Some(true)),
{
    match flag {
        Some(b) => b,
        None => false,
    }
}

fn is_unset(flag: Option<bool>) -> (r: bool)
    ensures
        r == (flag == Some(false)),
{
    match flag {
        Some(b) => !b,
        None => false,
    }
}

} // verus!
