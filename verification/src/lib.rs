//! Uniform handling of "the file named by this argument" for command line
//! programs: an argument is classified as a standard stream, a local path or
//! an HTTP resource, validated against what the file system reports, and
//! turned into the description of a stream to open, seek in and finish.
//!
//! This crate holds the rules. It performs no I/O itself: callers hand it
//! what the operating system reported and carry out the actions it returns.

pub mod text;
pub mod error;
pub mod pathname;
pub mod http;
pub mod probe;
pub mod path;
pub mod clapers;
pub mod input;
pub mod output;

pub use crate::error::Error;
pub use crate::error::ErrorKind;
pub use crate::error::IoError;
pub use crate::path::ClioPath;
pub use crate::path::InOut;
pub use crate::input::CachedInput;
pub use crate::input::Input;
pub use crate::input::InputPath;
pub use crate::output::Output;
pub use crate::output::OutputPath;
pub use crate::probe::Metadata;
pub use crate::probe::PathProbe;

use vstd::prelude::*;
use crate::error::{check_view, ErrorView};
use crate::path::PathView;
use crate::pathname::{extension_of, same_path};
use crate::probe::ProbeView;
use crate::text::same_text;

verus! {

/// The permission bits that let anyone read.
pub const READ_BITS: u32 = 0o444;

/// What [`check_exists`] decides: something must be there, and where the
/// path names the current directory, that directory must still be
/// canonical.
pub open spec fn spec_check_exists(probe: ProbeView, is_current_dir: bool) -> Result<
    (),
    ErrorView,
> {
    match probe.exists {
        Err(e) => Err(e),
        Ok(false) => Err(ErrorView::not_found_error()),
        Ok(true) => if is_current_dir {
            match probe.canonical {
                Some(e) => Err(e),
                None => Ok(()),
            }
        } else {
            Ok(())
        },
    }
}

/// What [`assert_exists`] decides: the path must name something, and the
/// current directory must still be there when it is named as `.`.
pub open spec fn spec_assert_exists(path: Seq<char>, probe: ProbeView) -> Result<(), ErrorView> {
    spec_check_exists(probe, same_path(path, "."@))
}

/// Checks that something exists at a path, given what the file system
/// said about it and whether the path names the current directory.
///
/// A deleted working directory still "exists" and is writeable, but
/// nothing can be put into it: the current directory must also be
/// canonical.
pub fn check_exists(probe: &PathProbe, is_current_dir: bool) -> (r: Result<(), Error>)
    ensures
        check_view(r) == spec_check_exists(probe@, is_current_dir),
{
    match &probe.exists {
        Err(e) => Err(e.clone()),
        Ok(false) => Err(Error::not_found_error()),
        Ok(true) => {
            if is_current_dir {
                match &probe.canonical {
                    Some(e) => Err(e.clone()),
                    None => Ok(()),
                }
            } else {
                Ok(())
            }
        },
    }
}

/// Checks that something exists at `path`, given what the file system
/// said about it. The path names the current directory where it is the
/// same path as `.`.
pub fn assert_exists(path: &str, probe: &PathProbe) -> (r: Result<(), Error>)
    ensures
        check_view(r) == spec_assert_exists(path@, probe@),
{
    check_exists(probe, pathname::same(path, "."))
}

/// What [`assert_readable`] decides: metadata must be had, and some read
/// bit must be set.
pub open spec fn spec_assert_readable(probe: ProbeView) -> Result<(), ErrorView> {
    match probe.metadata {
        Err(e) => Err(e),
        Ok(m) => if m.mode & READ_BITS == 0 {
            Err(ErrorView::permission_error())
        } else {
            Ok(())
        },
    }
}

/// Checks that the permission bits of a path let someone read it.
pub fn assert_readable(probe: &PathProbe) -> (r: Result<(), Error>)
    ensures
        check_view(r) == spec_assert_readable(probe@),
{
    match &probe.metadata {
        Err(e) => Err(e.clone()),
        Ok(m) => {
            if m.mode & READ_BITS == 0 {
                Err(Error::permission_error())
            } else {
                Ok(())
            }
        },
    }
}

/// What [`assert_writeable`] decides: metadata must be had, and the
/// permissions must not be read-only.
pub open spec fn spec_assert_writeable(probe: ProbeView) -> Result<(), ErrorView> {
    match probe.metadata {
        Err(e) => Err(e),
        Ok(m) => if m.readonly {
            Err(ErrorView::permission_error())
        } else {
            Ok(())
        },
    }
}

/// Checks that the permissions of a path let it be written.
pub fn assert_writeable(probe: &PathProbe) -> (r: Result<(), Error>)
    ensures
        check_view(r) == spec_assert_writeable(probe@),
{
    match &probe.metadata {
        Err(e) => Err(e.clone()),
        Ok(m) => {
            if m.readonly {
                Err(Error::permission_error())
            } else {
                Ok(())
            }
        },
    }
}

/// What [`assert_not_dir`] decides. An existing directory is refused as
/// such; an existing entry named with a trailing slash is not a
/// directory; a missing entry named with a trailing slash is not found.
pub open spec fn spec_assert_not_dir(path: PathView, probe: ProbeView) -> Result<(), ErrorView> {
    match probe.exists {
        Err(e) => Err(e),
        Ok(true) => if probe.is_dir() {
            Err(ErrorView::dir_error())
        } else if path.ends_with_slash() {
            Err(ErrorView::not_dir_error())
        } else {
            Ok(())
        },
        Ok(false) => if path.ends_with_slash() {
            Err(ErrorView::not_found_error())
        } else {
            Ok(())
        },
    }
}

/// Checks that `path` can name a file: it is no directory and does not
/// end with a slash.
pub fn assert_not_dir(path: &ClioPath, probe: &PathProbe) -> (r: Result<(), Error>)
    ensures
        check_view(r) == spec_assert_not_dir(path@, probe@),
{
    match &probe.exists {
        Err(e) => Err(e.clone()),
        Ok(true) => {
            if probe.is_dir() {
                Err(Error::dir_error())
            } else if path.ends_with_slash() {
                Err(Error::not_dir_error())
            } else {
                Ok(())
            }
        },
        Ok(false) => {
            if path.ends_with_slash() {
                Err(Error::not_found_error())
            } else {
                Ok(())
            }
        },
    }
}

/// What [`assert_is_dir`] decides: the path must exist and be a directory.
pub open spec fn spec_assert_is_dir(path: Seq<char>, probe: ProbeView) -> Result<(), ErrorView> {
    match spec_assert_exists(path, probe) {
        Err(e) => Err(e),
        Ok(()) => if probe.is_dir() {
            Ok(())
        } else {
            Err(ErrorView::not_dir_error())
        },
    }
}

/// Checks that `path` names an existing directory.
pub fn assert_is_dir(path: &str, probe: &PathProbe) -> (r: Result<(), Error>)
    ensures
        check_view(r) == spec_assert_is_dir(path@, probe@),
{
    match assert_exists(path, probe) {
        Err(e) => Err(e),
        Ok(()) => {
            if probe.is_dir() {
                Ok(())
            } else {
                Err(Error::not_dir_error())
            }
        },
    }
}

/// A predicate for filtering files by extension: whether the extension of
/// `path` is `ext`.
pub fn has_extension(path: &ClioPath, ext: &str) -> (r: bool)
    ensures
        r == (extension_of(path@.shown()) == Some(ext@)),
{
    match path.extension() {
        Some(found) => same_text(found.as_str(), ext),
        None => false,
    }
}

/// A predicate for filtering files that accepts any file.
pub fn any_file(_path: &ClioPath) -> (r: bool)
    ensures
        r,
{
    true
}

} // verus!
