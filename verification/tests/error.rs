use clio::{Error, ErrorKind, IoError};

fn http(code: u16, message: &str) -> Error {
    Error::Http { code, message: message.to_string() }
}

#[test]
fn http_codes_map_to_generic_kinds() {
    assert_eq!(http(404, "Not Found").kind(), ErrorKind::NotFound);
    assert_eq!(http(410, "Gone").kind(), ErrorKind::NotFound);
    assert_eq!(http(401, "Unauthorized").kind(), ErrorKind::PermissionDenied);
    assert_eq!(http(403, "Forbidden").kind(), ErrorKind::PermissionDenied);
    assert_eq!(http(400, "Bad Request").kind(), ErrorKind::Other);
    assert_eq!(http(402, "Payment Required").kind(), ErrorKind::Other);
    assert_eq!(http(405, "Method Not Allowed").kind(), ErrorKind::Other);
    assert_eq!(http(409, "Conflict").kind(), ErrorKind::Other);
    assert_eq!(http(411, "Length Required").kind(), ErrorKind::Other);
    assert_eq!(http(499, "connection refused").kind(), ErrorKind::Other);
    assert_eq!(http(500, "Internal Server Error").kind(), ErrorKind::Other);
    assert_eq!(http(0, "").kind(), ErrorKind::Other);
    assert_eq!(http(u16::MAX, "").kind(), ErrorKind::Other);
}

#[test]
fn io_errors_keep_their_kind() {
    for kind in [
        ErrorKind::NotFound,
        ErrorKind::PermissionDenied,
        ErrorKind::IsADirectory,
        ErrorKind::NotADirectory,
        ErrorKind::NotSeekable,
        ErrorKind::InvalidInput,
        ErrorKind::Other,
    ] {
        let err = Error::Io(IoError { kind, code: Some(5), message: "x".to_string() });
        assert_eq!(err.kind(), kind);
        assert_eq!(Error::plain(kind, "y").kind(), kind);
    }
}

#[test]
fn the_errors_of_the_library_have_their_kinds_and_texts() {
    assert_eq!(Error::seek_error().kind(), ErrorKind::NotSeekable);
    assert_eq!(Error::dir_error().kind(), ErrorKind::IsADirectory);
    assert_eq!(Error::not_dir_error().kind(), ErrorKind::NotADirectory);
    assert_eq!(Error::permission_error().kind(), ErrorKind::PermissionDenied);
    assert_eq!(Error::not_found_error().kind(), ErrorKind::NotFound);
    assert_eq!(Error::other("boom").kind(), ErrorKind::Other);

    assert_eq!(Error::seek_error().raw_os_error(), Some(29));
    assert_eq!(Error::dir_error().raw_os_error(), Some(21));
    assert_eq!(Error::not_dir_error().raw_os_error(), Some(20));
    assert_eq!(Error::permission_error().raw_os_error(), Some(13));
    assert_eq!(Error::not_found_error().raw_os_error(), Some(2));
    assert_eq!(Error::other("boom").raw_os_error(), None);
    assert_eq!(Error::Http { code: 404, message: String::new() }.raw_os_error(), None);

    assert_eq!(Error::seek_error().to_text(), "Illegal seek (os error 29)");
    assert_eq!(Error::dir_error().to_text(), "Is a directory (os error 21)");
    assert_eq!(Error::not_dir_error().to_text(), "Not a directory (os error 20)");
    assert_eq!(Error::permission_error().to_text(), "Permission denied (os error 13)");
    assert_eq!(Error::not_found_error().to_text(), "No such file or directory (os error 2)");
    assert_eq!(Error::other("boom").to_text(), "boom");
    assert_eq!(
        Error::other("boom"),
        Error::Io(IoError { kind: ErrorKind::Other, code: None, message: "boom".to_string() })
    );
}

#[test]
fn http_errors_show_code_and_message() {
    assert_eq!(http(404, "Not Found").to_text(), "404: Not Found");
    assert_eq!(http(499, "").to_text(), "499: ");
    assert_eq!(http(0, "zero").to_text(), "0: zero");
    assert_eq!(http(65535, "max").to_text(), "65535: max");
}

#[test]
fn to_os_string_names_the_path() {
    assert_eq!(
        Error::not_found_error().to_os_string("/tmp/missing"),
        "Error opening /tmp/missing: No such file or directory (os error 2)"
    );
    assert_eq!(
        http(403, "Forbidden").to_os_string("https://example.com/x"),
        "Error opening https://example.com/x: 403: Forbidden"
    );
    assert_eq!(Error::other("").to_os_string(""), "Error opening : ");
}

#[test]
fn into_io_keeps_kind_and_text() {
    let io = IoError { kind: ErrorKind::NotFound, code: Some(2), message: "gone".to_string() };
    assert_eq!(Error::Io(io.clone()).into_io(), io);
    assert_eq!(
        http(404, "Not Found").into_io(),
        IoError { kind: ErrorKind::NotFound, code: None, message: "404: Not Found".to_string() }
    );
    assert_eq!(
        http(403, "Forbidden").into_io(),
        IoError {
            kind: ErrorKind::PermissionDenied,
            code: None,
            message: "403: Forbidden".to_string()
        }
    );
    assert_eq!(
        http(500, "Oops").into_io(),
        IoError { kind: ErrorKind::Other, code: None, message: "500: Oops".to_string() }
    );
}

#[test]
fn clone_copies_an_error() {
    let err = http(418, "I'm a teapot");
    assert_eq!(err.clone(), err);
    let err = Error::dir_error();
    assert_eq!(err.clone(), err);
}

#[test]
fn an_error_of_the_system_has_its_number_and_its_text() {
    let err = Error::os(ErrorKind::Other, 28);
    assert_eq!(err.raw_os_error(), Some(28));
    assert_eq!(err.kind(), ErrorKind::Other);
    assert_eq!(err.to_text(), "No space left on device (os error 28)");
    assert_eq!(
        err,
        Error::Io(IoError {
            kind: ErrorKind::Other,
            code: Some(28),
            message: "No space left on device (os error 28)".to_string()
        })
    );
    assert_eq!(Error::os(ErrorKind::NotFound, 2), Error::not_found_error());
    assert_eq!(Error::os(ErrorKind::IsADirectory, 21), Error::dir_error());
    assert_eq!(Error::os(ErrorKind::NotADirectory, 20), Error::not_dir_error());
    assert_eq!(Error::os(ErrorKind::PermissionDenied, 13), Error::permission_error());
    assert_eq!(Error::os(ErrorKind::NotSeekable, 29), Error::seek_error());
    // it goes into the system's terms as it is
    assert_eq!(Error::dir_error().into_io().code, Some(21));
    assert_eq!(Error::dir_error().into_io().message, "Is a directory (os error 21)");
}
