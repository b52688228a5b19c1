use clio::input::Opened;
use clio::output::{
    open_rw, DropAction, FinishAction, OpenMode, OpenStep, OutputAction, OutputProbe, OutputStream,
    TEMP_PREFIX,
};
use clio::{ClioPath, Error, ErrorKind, IoError, Metadata, Output, OutputPath, PathProbe};

fn local(path: &str) -> ClioPath {
    ClioPath::new(path).unwrap()
}

fn found(is_dir: bool, is_fifo: bool) -> PathProbe {
    PathProbe::found(Metadata {
        is_dir,
        is_file: !is_dir && !is_fifo,
        is_fifo,
        mode: 0o644,
        readonly: false,
        len: 0,
    })
}

fn place(path: PathProbe, parent: PathProbe) -> OutputProbe {
    OutputProbe { path, parent }
}

fn new_file() -> OutputProbe {
    place(PathProbe::missing(), found(true, false))
}

fn file() -> Result<Opened, Error> {
    Ok(Opened { is_dir: false, is_fifo: false, len: Some(0) })
}

fn pipe() -> Result<Opened, Error> {
    Ok(Opened { is_dir: false, is_fifo: true, len: None })
}

fn refused() -> Error {
    Error::Io(IoError {
        kind: ErrorKind::PermissionDenied,
        code: Some(13),
        message: "Permission denied (os error 13)".to_string(),
    })
}

#[test]
fn the_output_action_for_each_kind_of_path() {
    assert_eq!(
        OutputStream::action(&ClioPath::standard(), Some(10), &new_file()),
        Ok(OutputAction::Stdout)
    );
    assert_eq!(
        OutputStream::action(&local("/tmp/x"), Some(10), &new_file()),
        Ok(OutputAction::Open("/tmp/x".to_string()))
    );
    assert_eq!(
        OutputStream::action(&local("https://example.com/x"), Some(10), &new_file()),
        Ok(OutputAction::Put { url: "https://example.com/x".to_string(), length: Some(10) })
    );
    assert_eq!(
        OutputStream::action(&local("https://example.com/x"), None, &new_file()),
        Ok(OutputAction::Put { url: "https://example.com/x".to_string(), length: None })
    );
}

#[test]
fn a_file_of_a_declared_size_is_sized_before_any_write() {
    let output = Output::maybe_with_len(local("/tmp/x"), Some(10), &new_file(), file()).unwrap();
    assert_eq!(output.stream(), OutputStream::File);
    assert_eq!(output.initial_len(Some(10)), Some(10));
    assert_eq!(output.initial_len(None), None);
    let output = local("/tmp/x").create_with_len(10, &new_file(), file()).unwrap();
    assert_eq!(output.initial_len(Some(10)), Some(10));
    assert_eq!(output.path(), &local("/tmp/x"));
}

#[test]
fn only_a_file_is_sized() {
    let output = Output::maybe_with_len(local("/tmp/p"), Some(10), &new_file(), pipe()).unwrap();
    assert_eq!(output.stream(), OutputStream::Pipe);
    assert_eq!(output.initial_len(Some(10)), None);
    let output =
        Output::maybe_with_len(ClioPath::standard(), Some(10), &new_file(), file()).unwrap();
    assert_eq!(output.initial_len(Some(10)), None);
    let output =
        Output::maybe_with_len(local("/tmp/x").with_atomic(true), Some(10), &new_file(), file())
            .unwrap();
    assert_eq!(output.stream(), OutputStream::AtomicFile);
    assert_eq!(output.initial_len(Some(10)), None);
    let output =
        Output::maybe_with_len(local("http://h/x"), Some(10), &new_file(), file()).unwrap();
    assert_eq!(output.stream(), OutputStream::Http);
    assert_eq!(output.initial_len(Some(10)), None);
}

#[test]
fn standard_output_is_opened_without_the_file_system() {
    for opened in [file(), pipe(), Err(refused())] {
        let nothing = place(PathProbe::missing(), PathProbe::missing());
        let output = Output::new(ClioPath::new("-").unwrap(), &nothing, opened).unwrap();
        assert!(output.is_std());
        assert_eq!(output.stream(), OutputStream::Stdout);
        assert!(!output.can_seek());
        assert!(!output.is_local());
    }
    let output = Output::standard();
    assert!(output.is_std());
    assert_eq!(output.path().path(), "/dev/stdout");
    assert!(output.is_tty(true));
    assert!(!output.is_tty(false));
    let file = Output::new(local("/tmp/x"), &new_file(), file()).unwrap();
    assert!(!file.is_tty(true));
    assert!(file.is_local());
}

#[test]
fn an_atomic_write_goes_to_a_temporary_file_beside_the_destination() {
    let path = local("/tmp/dir/x").with_atomic(true);
    assert_eq!(
        OutputStream::action(&path, None, &new_file()),
        Ok(OutputAction::CreateTemp("/tmp/dir".to_string()))
    );
    let path = local("x").with_atomic(true);
    assert_eq!(
        OutputStream::action(&path, None, &new_file()),
        Ok(OutputAction::CreateTemp(".".to_string()))
    );
    // an existing file is replaced in the same way
    let path = local("/tmp/dir/x").with_atomic(true);
    let existing = place(found(false, false), found(true, false));
    assert_eq!(
        OutputStream::action(&path, Some(5), &existing),
        Ok(OutputAction::CreateTemp("/tmp/dir".to_string()))
    );
    assert_eq!(TEMP_PREFIX, ".atomicwrite");
}

#[test]
fn an_atomic_write_needs_a_file_name_in_an_existing_directory() {
    let atomic = |path: &str| local(path).with_atomic(true);
    let missing = PathProbe::missing;
    assert_eq!(
        OutputStream::action(&atomic("/tmp/missing/x"), None, &place(missing(), missing())),
        Err(Error::not_found_error())
    );
    assert_eq!(
        OutputStream::action(&atomic("/tmp/file/x"), None, &place(missing(), found(false, false))),
        Err(Error::not_dir_error())
    );
    assert_eq!(
        OutputStream::action(&atomic("/tmp/dir"), None, &place(found(true, false), found(true, false))),
        Err(Error::dir_error())
    );
    assert_eq!(
        OutputStream::action(&atomic("/tmp/new/"), None, &new_file()),
        Err(Error::not_found_error())
    );
    assert_eq!(
        OutputStream::action(&atomic("/"), None, &place(missing(), found(true, false))),
        Err(Error::not_found_error())
    );
    assert_eq!(
        Output::new(atomic("/tmp/missing/x"), &place(missing(), missing()), file()),
        Err(Error::not_found_error())
    );
}

#[test]
fn a_named_pipe_is_never_written_atomically() {
    let path = local("/tmp/pipe").with_atomic(true);
    let probe = place(found(false, true), found(true, false));
    assert_eq!(
        OutputStream::action(&path, None, &probe),
        Ok(OutputAction::Open("/tmp/pipe".to_string()))
    );
    let output = Output::new(path, &probe, pipe()).unwrap();
    assert_eq!(output.stream(), OutputStream::Pipe);
}

#[test]
fn the_stream_of_each_action() {
    let stdout = OutputAction::Stdout;
    let temp = OutputAction::CreateTemp("/tmp".to_string());
    let open = OutputAction::Open("/tmp/x".to_string());
    let put = OutputAction::Put { url: "http://h/x".to_string(), length: None };
    assert_eq!(OutputStream::new(&stdout, Err(refused())), Ok(OutputStream::Stdout));
    assert_eq!(OutputStream::new(&temp, file()), Ok(OutputStream::AtomicFile));
    assert_eq!(OutputStream::new(&temp, pipe()), Ok(OutputStream::AtomicFile));
    assert_eq!(OutputStream::new(&open, file()), Ok(OutputStream::File));
    assert_eq!(OutputStream::new(&open, pipe()), Ok(OutputStream::Pipe));
    assert_eq!(OutputStream::new(&put, file()), Ok(OutputStream::Http));
    for action in [temp, open, put] {
        assert_eq!(OutputStream::new(&action, Err(refused())), Err(refused()));
    }
}

#[test]
fn a_failure_to_open_fails_the_output_constructor() {
    assert_eq!(Output::new(local("/tmp/x"), &new_file(), Err(refused())), Err(refused()));
    let rejected = Error::Http { code: 403, message: "Forbidden".to_string() };
    assert_eq!(
        Output::new(local("http://h/x"), &new_file(), Err(rejected.clone())),
        Err(rejected)
    );
    assert_eq!(
        Output::new(local("/tmp/x").with_atomic(true), &new_file(), Err(refused())),
        Err(refused())
    );
}

#[test]
fn finish_does_what_each_stream_needs() {
    let finish = |path: ClioPath, opened| {
        Output::new(path, &new_file(), opened).unwrap().finish(Ok(()))
    };
    assert_eq!(finish(ClioPath::standard(), file()), Ok(FinishAction::Nothing));
    assert_eq!(finish(local("/tmp/p"), pipe()), Ok(FinishAction::Nothing));
    assert_eq!(finish(local("/tmp/x"), file()), Ok(FinishAction::SyncData));
    assert_eq!(
        finish(local("/tmp/x").with_atomic(true), file()),
        Ok(FinishAction::Persist("/tmp/x".to_string()))
    );
    assert_eq!(finish(local("http://h/x"), file()), Ok(FinishAction::CloseAndWait));
}

#[test]
fn finish_fails_where_the_flush_failed() {
    for (path, opened) in [
        (ClioPath::standard(), file()),
        (local("/tmp/x"), file()),
        (local("/tmp/x").with_atomic(true), file()),
        (local("http://h/x"), file()),
    ] {
        let output = Output::new(path, &new_file(), opened).unwrap();
        assert_eq!(output.finish(Err(refused())), Err(refused()));
    }
}

#[test]
fn dropping_an_atomic_write_discards_the_temporary_file() {
    let abandon = |path: ClioPath, opened| {
        Output::new(path, &new_file(), opened).unwrap().abandon()
    };
    assert_eq!(abandon(local("/tmp/x").with_atomic(true), file()), DropAction::DiscardTemp);
    assert_eq!(abandon(local("http://h/x"), file()), DropAction::Abandon);
    assert_eq!(abandon(local("/tmp/x"), file()), DropAction::Close);
    assert_eq!(abandon(local("/tmp/p"), pipe()), DropAction::Close);
    assert_eq!(abandon(ClioPath::standard(), file()), DropAction::Close);
}

#[test]
fn seeking_works_in_files_only() {
    let cases = [
        (ClioPath::standard(), file(), false),
        (local("/tmp/p"), pipe(), false),
        (local("/tmp/x"), file(), true),
        (local("/tmp/x").with_atomic(true), file(), true),
        (local("http://h/x"), file(), false),
    ];
    for (path, opened, seekable) in cases {
        let output = Output::new(path, &new_file(), opened).unwrap();
        assert_eq!(output.can_seek(), seekable);
        if seekable {
            assert_eq!(output.seek(), Ok(()));
        } else {
            assert_eq!(output.seek(), Err(Error::seek_error()));
            assert_eq!(output.seek().unwrap_err().kind(), ErrorKind::NotSeekable);
            assert_eq!(output.seek().unwrap_err().raw_os_error(), Some(29));
        }
    }
}

#[test]
fn output_try_from_os_str_shows_the_error_with_the_path() {
    assert!(Output::try_from_os_str("/tmp/x", &new_file(), file()).is_ok());
    assert_eq!(
        Output::try_from_os_str("/tmp/x", &new_file(), Err(refused())),
        Err("Error opening /tmp/x: Permission denied (os error 13)".to_string())
    );
    assert_eq!(
        Output::try_from_os_str("https://example.com:99999/", &new_file(), file()),
        Err("Error opening https://example.com:99999/: 400: invalid port number".to_string())
    );
}

#[test]
fn an_output_path_creates_like_its_path() {
    let path = OutputPath::new(local("/tmp/x"), &new_file()).unwrap();
    let output = path.clone().create(&new_file(), file()).unwrap();
    assert_eq!(output, local("/tmp/x").create(&new_file(), file()).unwrap());
    let sized = path.clone().create_with_len(7, &new_file(), file()).unwrap();
    assert_eq!(sized.initial_len(Some(7)), Some(7));
    let maybe = path.clone().maybe_with_len(None, &new_file(), pipe()).unwrap();
    assert_eq!(maybe.stream(), OutputStream::Pipe);
    assert_eq!(path.create(&new_file(), Err(refused())), Err(refused()));
    let stdout = OutputPath::standard().create(&new_file(), Err(refused())).unwrap();
    assert_eq!(stdout.path().path(), "/dev/stdout");
}

#[test]
fn a_file_that_cannot_be_opened_for_reading_is_created_for_writing() {
    assert_eq!(open_rw(OpenMode::ReadWrite, file()), OpenStep::Done(file()));
    assert_eq!(open_rw(OpenMode::ReadWrite, Err(refused())), OpenStep::Retry(OpenMode::WriteOnly));
    assert_eq!(
        open_rw(OpenMode::ReadWrite, Err(Error::not_found_error())),
        OpenStep::Retry(OpenMode::WriteOnly)
    );
    assert_eq!(open_rw(OpenMode::WriteOnly, pipe()), OpenStep::Done(pipe()));
    assert_eq!(open_rw(OpenMode::WriteOnly, Err(refused())), OpenStep::Done(Err(refused())));
}

#[test]
fn a_path_that_ends_with_a_slash_is_refused_before_any_open() {
    let missing = PathProbe::missing;
    // nothing is there
    let nothing = place(missing(), found(true, false));
    assert_eq!(
        OutputStream::action(&local("/tmp/missing-dir/"), None, &nothing),
        Err(Error::not_found_error())
    );
    assert_eq!(
        Output::new(local("/tmp/missing-dir/"), &nothing, file()),
        Err(Error::not_found_error())
    );
    assert_eq!(
        Output::maybe_with_len(local("/tmp/missing-dir/"), Some(10), &nothing, file()),
        Err(Error::not_found_error())
    );
    // a file is there
    let a_file = place(found(false, false), found(true, false));
    let err = Output::new(local("/tmp/file/"), &a_file, file()).unwrap_err();
    assert_eq!(err, Error::not_dir_error());
    assert_eq!(err.kind(), ErrorKind::NotADirectory);
    // a directory is there
    let a_dir = place(found(true, false), found(true, false));
    let err = Output::new(local("/tmp/dir/"), &a_dir, file()).unwrap_err();
    assert_eq!(err.kind(), ErrorKind::IsADirectory);
    // the same holds of an atomic write
    for probe in [nothing, a_file] {
        let plain = OutputStream::action(&local("/tmp/x/"), None, &probe);
        let atomic = OutputStream::action(&local("/tmp/x/").with_atomic(true), None, &probe);
        assert!(plain.is_err());
        assert_eq!(plain, atomic);
    }
    // without the slash the path is opened
    assert_eq!(
        OutputStream::action(&local("/tmp/missing-dir"), None, &place(missing(), missing())),
        Ok(OutputAction::Open("/tmp/missing-dir".to_string()))
    );
}
