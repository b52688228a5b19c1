use clio::http::{
    edited_or, fits_edit, is_as_written, is_http, replace_url_path, try_to_url, url_from_parsed, ParsedUrl,
};
use clio::path::{extended, or_current, WalkEntry};
use clio::{any_file, has_extension, ClioPath, Error, ErrorKind, InOut, Metadata, PathProbe};

fn local(path: &str) -> ClioPath {
    ClioPath::new(path).unwrap()
}

fn fifo() -> PathProbe {
    PathProbe::found(Metadata {
        is_dir: false,
        is_file: false,
        is_fifo: true,
        mode: 0o10644,
        readonly: false,
        len: 0,
    })
}

#[test]
fn a_dash_is_the_standard_streams() {
    let path = ClioPath::new("-").unwrap();
    assert!(path.is_std());
    assert!(!path.is_local());
    assert!(!path.is_remote());
    assert_eq!(path, ClioPath::standard());
    assert_eq!(path.path(), "-");
    assert_eq!(path.as_os_str(), "-");
}

#[test]
fn classifying_a_dash_twice_gives_equal_paths() {
    assert_eq!(ClioPath::new("-").unwrap(), ClioPath::new("-").unwrap());
    assert_eq!(ClioPath::new("a/b").unwrap(), ClioPath::new("a/b").unwrap());
    assert_eq!(
        ClioPath::new("http://example.com/a").unwrap(),
        ClioPath::new("http://example.com/a").unwrap()
    );
}

#[test]
fn anything_else_is_a_local_path() {
    for raw in ["file.txt", "/tmp/x", "--", "-x", "", "./-", "http:/x", "ftp://example.com/x", "HTTP://X"] {
        let path = ClioPath::new(raw).unwrap();
        assert!(path.is_local(), "{:?}", raw);
        assert!(!path.is_std());
        assert_eq!(path.path(), raw);
        assert_eq!(path.as_os_str(), raw);
        assert_eq!(path, ClioPath::local(raw.to_string()));
        assert!(!path.is_atomic());
    }
}

#[test]
fn a_url_is_parsed() {
    let path = ClioPath::new("https://example.com/foo/bar.html?x=y#top").unwrap();
    assert!(path.is_remote());
    assert!(!path.is_local());
    assert!(!path.is_std());
    assert_eq!(path.path(), "/foo/bar.html");
    assert_eq!(path.as_os_str(), "https://example.com/foo/bar.html?x=y#top");
    assert_eq!(path.clone().to_os_string(), "https://example.com/foo/bar.html?x=y#top");
}

#[test]
fn a_url_is_normalised_by_the_parser() {
    let path = ClioPath::new("https://example.com").unwrap();
    assert_eq!(path.as_os_str(), "https://example.com/");
    assert_eq!(path.path(), "/");
    let path = ClioPath::new("http://EXAMPLE.com/a b").unwrap();
    assert_eq!(path.as_os_str(), "http://example.com/a%20b");
    assert_eq!(path.path(), "/a%20b");
}

#[test]
fn a_malformed_url_is_a_bad_request() {
    let err = ClioPath::new("http://").unwrap_err();
    assert_eq!(err, Error::Http { code: 400, message: "empty host".to_string() });
    assert_eq!(err.kind(), ErrorKind::Other);
    let err = ClioPath::new("https://example.com:99999/").unwrap_err();
    assert_eq!(err, Error::Http { code: 400, message: "invalid port number".to_string() });
}

#[test]
fn is_http_looks_at_the_prefix() {
    assert!(is_http("http://example.com"));
    assert!(is_http("https://example.com"));
    assert!(is_http("http://"));
    assert!(!is_http("http:/example.com"));
    assert!(!is_http("HTTP://example.com"));
    assert!(!is_http(" http://example.com"));
    assert!(!is_http("-"));
    assert!(!is_http(""));
}

#[test]
fn try_to_url_needs_valid_text() {
    assert_eq!(
        try_to_url(None).unwrap_err(),
        Error::Http { code: 400, message: "url is not a valid UTF8 string".to_string() }
    );
    let url = try_to_url(Some("http://example.com/x?q")).unwrap();
    assert_eq!(url.text, "http://example.com/x?q");
    assert_eq!(url.path, "/x");
    assert_eq!(
        try_to_url(Some("not a url")).unwrap_err(),
        Error::Http { code: 400, message: "relative URL without a base".to_string() }
    );
}

#[test]
fn url_from_parsed_maps_each_outcome() {
    let url = ParsedUrl { text: "http://h/p".to_string(), path: "/p".to_string() };
    assert_eq!(url_from_parsed(Some(Ok(url.clone()))), Ok(url));
    assert_eq!(
        url_from_parsed(Some(Err("bad".to_string()))),
        Err(Error::Http { code: 400, message: "bad".to_string() })
    );
    assert_eq!(
        url_from_parsed(None),
        Err(Error::Http { code: 400, message: "url is not a valid UTF8 string".to_string() })
    );
}

#[test]
fn replace_url_path_escapes_and_keeps_the_rest() {
    let url = try_to_url(Some("https://example.com/a?x=y#top")).unwrap();
    let edited = replace_url_path(url, "/b c/d");
    assert_eq!(edited.text, "https://example.com/b%20c/d?x=y#top");
    assert_eq!(edited.path, "/b%20c/d");
    // what is no URL is left as it is
    let junk = ParsedUrl { text: "junk".to_string(), path: "/p".to_string() };
    assert_eq!(replace_url_path(junk.clone(), "/q"), junk);
    // and so is a URL that is not written as the parser writes it
    let loose = ParsedUrl { text: "https://EXAMPLE.com".to_string(), path: "/".to_string() };
    assert_eq!(replace_url_path(loose.clone(), "/q"), loose);
    let strict = try_to_url(Some("https://EXAMPLE.com")).unwrap();
    assert_eq!(replace_url_path(strict, "/q").text, "https://example.com/q");
}

#[test]
fn with_direction_names_the_pseudo_device() {
    assert_eq!(ClioPath::standard().with_direction(InOut::In).path(), "/dev/stdin");
    assert_eq!(ClioPath::standard().with_direction(InOut::Out).path(), "/dev/stdout");
    assert_eq!(ClioPath::standard().with_direction(InOut::Out).as_os_str(), "-");
    assert!(ClioPath::standard().with_direction(InOut::In).is_std());
    // the later direction wins, and other paths are unchanged
    assert_eq!(
        ClioPath::standard().with_direction(InOut::In).with_direction(InOut::Out).path(),
        "/dev/stdout"
    );
    assert_eq!(local("/tmp/x").with_direction(InOut::In), local("/tmp/x"));
    assert_eq!(
        local("http://example.com/x").with_direction(InOut::Out),
        local("http://example.com/x")
    );
}

#[test]
fn with_atomic_sets_only_the_flag() {
    let path = local("/tmp/x").with_atomic(true);
    assert!(path.is_atomic());
    assert_eq!(path.path(), "/tmp/x");
    assert_eq!(path.with_atomic(false), local("/tmp/x"));
}

#[test]
fn set_file_name_replaces_the_last_component() {
    let mut buf = ClioPath::new("/").unwrap();
    assert!(buf.file_name() == None);
    buf.set_file_name("bar");
    assert!(buf == ClioPath::new("/bar").unwrap());
    assert!(buf.file_name().is_some());
    buf.set_file_name("baz.txt");
    assert!(buf == ClioPath::new("/baz.txt").unwrap());

    let mut p = ClioPath::new("https://example.com/bar.html?x=y#top").unwrap();
    p.set_file_name("baz.txt");
    assert_eq!("https://example.com/baz.txt?x=y#top", p.as_os_str());

    let mut p = ClioPath::standard();
    p.set_file_name("baz.txt");
    assert_eq!(p, ClioPath::standard());
}

#[test]
fn set_extension_replaces_the_extension() {
    let mut p = ClioPath::new("/feel/the").unwrap();
    assert!(p.set_extension("force"));
    assert_eq!(ClioPath::new("/feel/the.force").unwrap(), p);
    assert!(p.set_extension("dark_side"));
    assert_eq!(ClioPath::new("/feel/the.dark_side").unwrap(), p);

    let mut p = ClioPath::new("https://example.com/the_force.html?x=y#top").unwrap();
    assert!(p.set_extension("txt"));
    assert_eq!("https://example.com/the_force.txt?x=y#top", p.as_os_str());

    let mut p = ClioPath::new("/").unwrap();
    assert!(!p.set_extension("txt"));
    assert_eq!(p.path(), "/");

    let mut p = ClioPath::standard().with_direction(InOut::In);
    assert!(!p.set_extension("txt"));
    assert_eq!(p.path(), "/dev/stdin");
}

#[test]
fn add_extension_appends_to_the_file_name() {
    let mut p = ClioPath::new("/tmp/log.txt").unwrap();
    assert!(p.add_extension("gz"));
    assert_eq!(ClioPath::new("/tmp/log.txt.gz").unwrap(), p);

    let mut p = ClioPath::new("/tmp/log").unwrap();
    assert!(p.add_extension("gz"));
    assert_eq!(ClioPath::new("/tmp/log.gz").unwrap(), p);

    let mut p = ClioPath::new("https://example.com/a.tar?x=y").unwrap();
    assert!(p.add_extension("gz"));
    assert_eq!(p.as_os_str(), "https://example.com/a.tar.gz?x=y");
}

#[test]
fn add_extension_needs_a_file_name() {
    let mut p = ClioPath::new("/tmp/dir/").unwrap();
    assert!(!p.add_extension("gz"));
    assert_eq!(p.path(), "/tmp/dir/");

    let mut p = ClioPath::new("/").unwrap();
    assert!(!p.add_extension("gz"));
    assert_eq!(p.path(), "/");

    let mut p = ClioPath::new("..").unwrap();
    assert!(!p.add_extension("gz"));
    assert_eq!(p.path(), "..");

    let mut p = ClioPath::standard();
    assert!(!p.add_extension("gz"));
    assert_eq!(p, ClioPath::standard());

    // an extension with a slash in it is none
    let mut p = ClioPath::new("/tmp/log.txt").unwrap();
    assert!(!p.add_extension("a/b"));
    assert_eq!(p.path(), "/tmp/log.txt");
}

#[test]
fn push_extends_the_path() {
    let mut path = ClioPath::new("/tmp").unwrap();
    path.push("file.bk");
    assert_eq!(path, ClioPath::new("/tmp/file.bk").unwrap());

    let mut path = ClioPath::new("/tmp/").unwrap();
    path.push("file.bk");
    assert_eq!(path.path(), "/tmp/file.bk");

    // an absolute path replaces what is there
    let mut path = ClioPath::new("/tmp").unwrap();
    path.push("/etc");
    assert_eq!(path.path(), "/etc");

    let mut p = ClioPath::new("https://example.com/tmp?x=y#top").unwrap();
    p.push("file.bk");
    assert_eq!("https://example.com/tmp/file.bk?x=y#top", p.as_os_str());

    let mut p = ClioPath::standard();
    p.push("file.bk");
    assert_eq!(p, ClioPath::standard());
}

#[test]
fn is_tty_depends_on_the_direction() {
    let unknown = ClioPath::standard();
    assert!(unknown.is_tty(true, false));
    assert!(unknown.is_tty(false, true));
    assert!(!unknown.is_tty(false, false));
    let input = ClioPath::standard().with_direction(InOut::In);
    assert!(input.is_tty(true, false));
    assert!(!input.is_tty(false, true));
    let output = ClioPath::standard().with_direction(InOut::Out);
    assert!(!output.is_tty(true, false));
    assert!(output.is_tty(false, true));
    assert!(!local("/dev/tty").is_tty(true, true));
    assert!(!local("http://example.com/").is_tty(true, true));
}

#[test]
fn is_fifo_asks_the_file_system_for_local_paths_only() {
    assert!(ClioPath::standard().is_fifo(&PathProbe::missing()));
    assert!(local("/tmp/pipe").is_fifo(&fifo()));
    assert!(!local("/tmp/pipe").is_fifo(&PathProbe::missing()));
    assert!(!local("http://example.com/pipe").is_fifo(&fifo()));
}

#[test]
fn ends_with_slash_looks_at_the_shown_path() {
    assert!(local("/tmp/").ends_with_slash());
    assert!(local("/").ends_with_slash());
    assert!(!local("/tmp").ends_with_slash());
    assert!(!local("").ends_with_slash());
    assert!(!ClioPath::standard().ends_with_slash());
    assert!(local("https://example.com/dir/?q=/").ends_with_slash());
    assert!(!local("https://example.com/dir?q=/").ends_with_slash());
}

#[test]
fn safe_parent_is_the_directory_to_look_into() {
    assert_eq!(local("/tmp/x/file").safe_parent(), Some("/tmp/x".to_string()));
    assert_eq!(local("dir/file").safe_parent(), Some("dir".to_string()));
    assert_eq!(local("file").safe_parent(), Some(".".to_string()));
    assert_eq!(local("/file").safe_parent(), Some("/".to_string()));
    assert_eq!(local("/").safe_parent(), None);
    assert_eq!(local("").safe_parent(), None);
    assert_eq!(ClioPath::standard().safe_parent(), None);
    assert_eq!(local("https://example.com/a/b").safe_parent(), None);
}

#[test]
fn file_name_and_extension_come_from_the_shown_path() {
    assert_eq!(local("/tmp/a.tar.gz").file_name(), Some("a.tar.gz".to_string()));
    assert_eq!(local("/tmp/a.tar.gz").extension(), Some("gz".to_string()));
    assert_eq!(local("/tmp/dir/").file_name(), Some("dir".to_string()));
    assert_eq!(local("/tmp/.hidden").extension(), None);
    assert_eq!(local("/tmp/..").file_name(), None);
    assert_eq!(local("https://example.com/a/b.html?x=y.z").extension(), Some("html".to_string()));
    assert_eq!(ClioPath::standard().file_name(), Some("-".to_string()));
}

#[test]
fn has_extension_compares_the_extension() {
    assert!(has_extension(&local("/tmp/a.txt"), "txt"));
    assert!(!has_extension(&local("/tmp/a.txt"), "tx"));
    assert!(!has_extension(&local("/tmp/a.txt"), "TXT"));
    assert!(!has_extension(&local("/tmp/a"), "txt"));
    assert!(!has_extension(&local("/tmp/a"), ""));
    assert!(has_extension(&local("/tmp/a."), ""));
    assert!(!has_extension(&local("/tmp/txt"), "txt"));
    assert!(any_file(&local("/tmp/a")));
    assert!(any_file(&ClioPath::standard()));
}

fn entry(path: &str, is_file: bool) -> Result<WalkEntry, Error> {
    Ok(WalkEntry { path: path.to_string(), is_file })
}

#[test]
fn files_of_a_path_that_is_not_local_is_the_path() {
    let walk = vec![entry("/tmp/a.txt", true)];
    assert_eq!(ClioPath::standard().files(walk, any_file), Ok(vec![ClioPath::standard()]));
    let url = local("https://example.com/dir/");
    assert_eq!(url.clone().files(vec![], any_file), Ok(vec![url]));
}

#[test]
fn files_keeps_the_regular_files_that_the_predicate_accepts() {
    let walk = vec![
        entry("/tmp/foo", false),
        entry("/tmp/foo/a.txt", true),
        entry("/tmp/foo/b.bin", true),
        entry("/tmp/foo/sub", false),
        entry("/tmp/foo/sub/c.txt", true),
        entry("/tmp/foo/sub/d.txt", false),
    ];
    let found = local("/tmp/foo").files(walk, |path: &ClioPath| has_extension(path, "txt")).unwrap();
    assert_eq!(found, vec![local("/tmp/foo/a.txt"), local("/tmp/foo/sub/c.txt")]);
}

#[test]
fn files_with_any_file_keeps_every_regular_file_in_order() {
    let walk = vec![entry("/d/z", true), entry("/d", false), entry("/d/a", true)];
    let found = local("/d").with_atomic(true).files(walk, any_file).unwrap();
    assert_eq!(found, vec![local("/d/z"), local("/d/a")]);
    assert_eq!(local("/d").files(vec![], any_file), Ok(vec![]));
    assert_eq!(local("/d").files(vec![entry("/d", false)], any_file), Ok(vec![]));
    assert_eq!(local("/d").files(vec![entry("/d", true)], |_: &ClioPath| false), Ok(vec![]));
}

#[test]
fn files_stops_at_the_first_error_of_the_walk() {
    let walk = vec![
        entry("/d/a", true),
        Err(Error::permission_error()),
        entry("/d/b", true),
        Err(Error::not_found_error()),
    ];
    assert_eq!(local("/d").files(walk, any_file), Err(Error::permission_error()));
    assert_eq!(
        local("/d").files(vec![Err(Error::not_found_error())], |_: &ClioPath| false),
        Err(Error::not_found_error())
    );
}

#[test]
fn or_current_names_the_empty_directory_as_a_dot() {
    assert_eq!(or_current("".to_string(), true), ".");
    assert_eq!(or_current("dir".to_string(), false), "dir");
    assert_eq!(or_current("".to_string(), false), "");
}

#[test]
fn extended_joins_extensions_with_a_dot() {
    assert_eq!(extended(Some("tar".to_string()), "gz"), "tar.gz");
    assert_eq!(extended(None, "gz"), "gz");
    assert_eq!(extended(Some("".to_string()), "gz"), ".gz");
    assert_eq!(extended(Some("tar".to_string()), ""), "tar.");
}

#[test]
fn with_path_mut_replaces_the_path_that_edits_work_on() {
    let mut path = ClioPath::new("/tmp/a").unwrap().with_atomic(true);
    path.with_path_mut("/tmp/b".to_string());
    assert_eq!(path, ClioPath::new("/tmp/b").unwrap().with_atomic(true));
    let mut url = ClioPath::new("https://example.com/a?x=y").unwrap();
    url.with_path_mut("/b c".to_string());
    assert_eq!(url.as_os_str(), "https://example.com/b%20c?x=y");
    assert_eq!(url.path(), "/b%20c");
    let mut stream = ClioPath::standard().with_direction(InOut::Out);
    stream.with_path_mut("/tmp/b".to_string());
    assert_eq!(stream, ClioPath::standard().with_direction(InOut::Out));
}

#[test]
fn an_edit_fits_while_the_url_stays_addressable() {
    assert!(fits_edit("https://example.com/a", "/b"));
    assert!(fits_edit("", ""));
    let long = "x".repeat(1000);
    assert!(fits_edit(&long, &long));
    let url = ParsedUrl { text: "http://h/p".to_string(), path: "/p".to_string() };
    let other = ParsedUrl { text: "http://h/q".to_string(), path: "/q".to_string() };
    assert_eq!(edited_or(Some(other.clone()), url.clone()), other);
    assert_eq!(edited_or(None, url.clone()), url);
}

#[test]
fn the_default_of_each_type_is_a_standard_stream() {
    assert_eq!(ClioPath::default(), ClioPath::standard());
    assert_eq!(clio::Input::default(), clio::Input::standard());
    assert_eq!(clio::InputPath::default(), clio::InputPath::standard());
    assert_eq!(clio::Output::default(), clio::Output::standard());
    assert_eq!(clio::OutputPath::default(), clio::OutputPath::standard());
    assert_eq!(clio::Input::default().path().path(), "/dev/stdin");
    assert_eq!(clio::Output::default().path().path(), "/dev/stdout");
}

#[test]
fn is_as_written_compares_with_the_serialization() {
    let parsed = Ok(ParsedUrl { text: "http://h/p".to_string(), path: "/p".to_string() });
    assert!(is_as_written("http://h/p", &parsed));
    assert!(!is_as_written("http://H/p", &parsed));
    assert!(!is_as_written("http://h/p", &Err("empty host".to_string())));
}
