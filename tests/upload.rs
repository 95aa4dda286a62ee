use miniserve_upload::disposition::{check_file_name, file_name_of_part};
use miniserve_upload::error::{ErrorKind, PathProblem, UploadError};
use miniserve_upload::path::{resolve_target, strip_root, upload_path, CanonicalPath, DirStatus};
use miniserve_upload::response::{respond, return_path, Response};
use miniserve_upload::session::{Action, Event, Session};

fn canon(parts: &[&str]) -> CanonicalPath {
    CanonicalPath { components: parts.iter().map(|p| p.as_bytes().to_vec()).collect() }
}

fn comps(p: &CanonicalPath) -> Vec<String> {
    p.components.iter().map(|c| String::from_utf8(c.clone()).unwrap()).collect()
}

const WRITABLE_DIR: DirStatus = DirStatus { is_dir: true, readonly: false };

fn session(overwrite: bool) -> Session {
    let target = resolve_target(
        Some(canon(&["srv"])),
        Some(canon(&["srv", "files"])),
        Some(WRITABLE_DIR),
    )
    .unwrap();
    Session::new(target, overwrite)
}

fn header(name: &str) -> Option<Vec<u8>> {
    Some(format!("form-data; name=\"file\"; filename=\"{}\"", name).into_bytes())
}

fn expect_check(a: Action) -> Vec<String> {
    match a {
        Action::CheckExists(p) => comps(&p),
        other => panic!("expected CheckExists, got {:?}", other),
    }
}

fn expect_create(a: Action) -> Vec<String> {
    match a {
        Action::Create(p) => comps(&p),
        other => panic!("expected Create, got {:?}", other),
    }
}

/// Sends one part whose destination does not exist yet; returns the bytes handed back for writing.
fn send_part(s: &mut Session, name: &str, chunks: &[&[u8]]) -> Vec<u8> {
    assert_eq!(expect_check(s.step(Event::PartStart(header(name)))), vec!["srv", "files", name]);
    assert_eq!(expect_create(s.step(Event::Exists(false))), vec!["srv", "files", name]);
    assert!(matches!(s.step(Event::Created), Action::ReadBody));
    let mut written = Vec::new();
    for c in chunks {
        match s.step(Event::Chunk(c.to_vec())) {
            Action::Write(d) => written.extend_from_slice(&d),
            other => panic!("expected Write, got {:?}", other),
        }
    }
    assert!(matches!(s.step(Event::PartEnd), Action::ReadBody));
    written
}

#[test]
fn strip_root_removes_leading_slashes() {
    assert_eq!(strip_root(&b"/a/b".to_vec()), b"a/b".to_vec());
    assert_eq!(strip_root(&b"///x".to_vec()), b"x".to_vec());
    assert_eq!(strip_root(&b"rel/dir".to_vec()), b"rel/dir".to_vec());
    assert_eq!(strip_root(&b"".to_vec()), b"".to_vec());
    assert_eq!(strip_root(&b"/".to_vec()), b"".to_vec());
}

#[test]
fn missing_path_parameter_gives_400() {
    let err = upload_path(None).unwrap_err();
    assert!(matches!(err, UploadError::InvalidPath(PathProblem::Missing)));
    let resp = respond(Err(err), b"/".to_vec());
    assert_eq!(resp.status(), 400);
    match resp {
        Response::Error(page) => {
            assert!(page.description.contains("Missing query parameter 'path'"));
            assert_eq!(page.code, 400);
            assert_eq!(page.return_path, b"/".to_vec());
        }
        other => panic!("expected an error page, got {:?}", other),
    }
}

#[test]
fn present_path_parameter_is_stripped() {
    assert_eq!(upload_path(Some(b"/docs/a".to_vec())).unwrap(), b"docs/a".to_vec());
}

#[test]
fn successful_upload_redirects_to_referer() {
    let rp = return_path(Some(b"/foo".to_vec()));
    assert_eq!(rp, b"/foo".to_vec());
    let resp = respond(Ok(()), rp);
    assert_eq!(resp.status(), 303);
    match resp {
        Response::Redirect(loc) => assert_eq!(loc, b"/foo".to_vec()),
        other => panic!("expected a redirect, got {:?}", other),
    }
}

#[test]
fn return_path_defaults_to_root() {
    assert_eq!(return_path(None), b"/".to_vec());
    assert_eq!(return_path(Some(vec![b'/', 0x80, b'x'])), b"/".to_vec());
    assert_eq!(return_path(Some(b"/a\tb".to_vec())), b"/a\tb".to_vec());
    assert_eq!(return_path(Some(vec![b'/', 127])), b"/".to_vec());
}

#[test]
fn traversal_outside_root_gives_400() {
    // `../../etc` below /srv/www canonicalizes to /etc.
    let r = resolve_target(Some(canon(&["srv", "www"])), Some(canon(&["etc"])), Some(WRITABLE_DIR));
    let err = r.unwrap_err();
    assert!(matches!(err, UploadError::InvalidPath(PathProblem::OutsideRoot)));
    let resp = respond(Err(err), b"/".to_vec());
    assert_eq!(resp.status(), 400);
    match resp {
        Response::Error(page) => {
            assert_eq!(page.description, "Invalid value for 'path' parameter");
            assert_eq!(page.code, 400);
        }
        other => panic!("expected an error page, got {:?}", other),
    }
}

#[test]
fn sibling_with_common_prefix_is_outside() {
    let r = resolve_target(Some(canon(&["srv", "www"])), Some(canon(&["srv", "www2"])), Some(WRITABLE_DIR));
    assert!(matches!(r, Err(UploadError::InvalidPath(PathProblem::OutsideRoot))));
    assert!(!canon(&["a", "bc"]).starts_with(&canon(&["a", "b"])));
    assert!(canon(&["a", "b", "c"]).starts_with(&canon(&["a", "b"])));
    assert!(canon(&["a"]).starts_with(&canon(&[])));
}

#[test]
fn unresolvable_candidate_is_invalid() {
    let r = resolve_target(Some(canon(&["srv"])), None, None);
    assert!(matches!(r, Err(UploadError::InvalidPath(PathProblem::OutsideRoot))));
}

#[test]
fn resolution_errors_by_kind() {
    let root = || Some(canon(&["srv"]));
    let cand = || Some(canon(&["srv", "d"]));
    let r = resolve_target(None, cand(), Some(WRITABLE_DIR));
    assert_eq!(r.unwrap_err().error_kind(), ErrorKind::ServerMisconfigured);
    let r = resolve_target(root(), cand(), None);
    assert_eq!(r.unwrap_err().error_kind(), ErrorKind::InsufficientPermissions);
    let r = resolve_target(root(), cand(), Some(DirStatus { is_dir: false, readonly: false }));
    assert_eq!(r.unwrap_err().error_kind(), ErrorKind::NotADirectory);
    let r = resolve_target(root(), cand(), Some(DirStatus { is_dir: true, readonly: true }));
    assert_eq!(r.unwrap_err().error_kind(), ErrorKind::InsufficientPermissions);
}

#[test]
fn root_itself_is_accepted() {
    let t = resolve_target(Some(canon(&["srv"])), Some(canon(&["srv"])), Some(WRITABLE_DIR)).unwrap();
    assert_eq!(comps(t.dir()), vec!["srv"]);
    assert_eq!(comps(t.root()), vec!["srv"]);
}

#[test]
fn file_name_from_content_disposition() {
    assert_eq!(file_name_of_part(&header("a.txt")).unwrap(), b"a.txt".to_vec());
    let unquoted = Some(b"form-data; name=upload; filename=report.pdf".to_vec());
    assert_eq!(file_name_of_part(&unquoted).unwrap(), b"report.pdf".to_vec());
}

#[test]
fn missing_or_unnamed_disposition_is_parse_error() {
    assert!(matches!(file_name_of_part(&None), Err(UploadError::ParseError)));
    let no_name = Some(b"form-data; name=\"field\"".to_vec());
    assert!(matches!(file_name_of_part(&no_name), Err(UploadError::ParseError)));
    assert!(matches!(file_name_of_part(&Some(Vec::new())), Err(UploadError::ParseError)));
}

#[test]
fn names_that_leave_the_directory_are_refused() {
    assert!(matches!(file_name_of_part(&header("../x")), Err(UploadError::ParseError)));
    assert!(matches!(file_name_of_part(&header("..")), Err(UploadError::ParseError)));
    assert!(matches!(check_file_name(Some(b".".to_vec())), Err(UploadError::ParseError)));
    assert!(matches!(check_file_name(Some(b"a/b".to_vec())), Err(UploadError::ParseError)));
    assert!(matches!(check_file_name(Some(vec![b'a', 0])), Err(UploadError::ParseError)));
    assert!(matches!(check_file_name(Some(Vec::new())), Err(UploadError::ParseError)));
    assert!(matches!(check_file_name(None), Err(UploadError::ParseError)));
    assert_eq!(check_file_name(Some(b"..a".to_vec())).unwrap(), b"..a".to_vec());
}

#[test]
fn every_part_is_stored_with_its_bytes() {
    let mut s = session(false);
    let w1 = send_part(&mut s, "one.txt", &[b"hello ", b"world"]);
    let w2 = send_part(&mut s, "two.bin", &[b"", b"\x00\x01\x02"]);
    let w3 = send_part(&mut s, "empty", &[]);
    assert_eq!(w1, b"hello world".to_vec());
    assert_eq!(w2, vec![0, 1, 2]);
    assert!(w3.is_empty());
    assert!(matches!(s.step(Event::BodyEnd), Action::Done));
    let saved = s.saved();
    assert_eq!(saved.len(), 3);
    assert_eq!(comps(&saved[0].path), vec!["srv", "files", "one.txt"]);
    assert_eq!(saved[0].size, 11);
    assert_eq!(comps(&saved[1].path), vec!["srv", "files", "two.bin"]);
    assert_eq!(saved[1].size, 3);
    assert_eq!(saved[2].size, 0);
}

#[test]
fn existing_file_without_overwrite_fails() {
    let mut s = session(false);
    expect_check(s.step(Event::PartStart(header("taken.txt"))));
    match s.step(Event::Exists(true)) {
        Action::Stop(e) => assert_eq!(e.error_kind(), ErrorKind::AlreadyExists),
        other => panic!("expected Stop, got {:?}", other),
    }
    assert!(!s.takes(&Event::Created));
    assert!(!s.takes(&Event::Chunk(vec![1])));
    assert!(!s.takes(&Event::BodyEnd));
    assert!(s.saved().is_empty());
}

#[test]
fn overwrite_replaces_existing_file() {
    let mut s = session(true);
    expect_check(s.step(Event::PartStart(header("same.txt"))));
    assert_eq!(expect_create(s.step(Event::Exists(true))), vec!["srv", "files", "same.txt"]);
    assert!(matches!(s.step(Event::Created), Action::ReadBody));
    match s.step(Event::Chunk(b"new".to_vec())) {
        Action::Write(d) => assert_eq!(d, b"new".to_vec()),
        other => panic!("expected Write, got {:?}", other),
    }
    assert!(matches!(s.step(Event::PartEnd), Action::ReadBody));
    assert_eq!(s.saved()[0].size, 3);
}

#[test]
fn second_part_without_name_stops_after_first() {
    let mut s = session(false);
    send_part(&mut s, "first.txt", &[b"abc"]);
    match s.step(Event::PartStart(None)) {
        Action::Stop(e) => assert_eq!(e.error_kind(), ErrorKind::ParseError),
        other => panic!("expected Stop, got {:?}", other),
    }
    assert_eq!(s.saved().len(), 1);
    assert_eq!(comps(&s.saved()[0].path), vec!["srv", "files", "first.txt"]);
    assert!(!s.takes(&Event::PartStart(header("third.txt"))));
}

#[test]
fn io_and_transport_failures_stop() {
    let mut s = session(false);
    expect_check(s.step(Event::PartStart(header("f"))));
    expect_create(s.step(Event::Exists(false)));
    match s.step(Event::CreateFailed("denied".to_string())) {
        Action::Stop(UploadError::IoError(f)) => {
            assert_eq!(f.detail, "denied");
            assert_eq!(f.path, vec![b"srv".to_vec(), b"files".to_vec(), b"f".to_vec()]);
        }
        other => panic!("expected Stop, got {:?}", other),
    }

    let mut s = session(false);
    expect_check(s.step(Event::PartStart(header("g"))));
    expect_create(s.step(Event::Exists(false)));
    s.step(Event::Created);
    s.step(Event::Chunk(b"x".to_vec()));
    match s.step(Event::WriteFailed("disk full".to_string())) {
        Action::Stop(e) => assert_eq!(e.error_kind(), ErrorKind::IoError),
        other => panic!("expected Stop, got {:?}", other),
    }

    let mut s = session(false);
    match s.step(Event::BodyFailed("reset".to_string())) {
        Action::Stop(UploadError::TransportError(m)) => assert_eq!(m, "reset"),
        other => panic!("expected Stop, got {:?}", other),
    }
}

#[test]
fn events_out_of_order_are_not_taken() {
    let s = session(false);
    assert!(s.takes(&Event::PartStart(None)));
    assert!(s.takes(&Event::BodyEnd));
    assert!(!s.takes(&Event::Chunk(vec![])));
    assert!(!s.takes(&Event::Exists(true)));
    assert!(!s.takes(&Event::PartEnd));
}

#[test]
fn descriptions_and_shown_status() {
    let all = vec![
        (UploadError::InvalidPath(PathProblem::Missing), 400),
        (UploadError::InvalidPath(PathProblem::OutsideRoot), 400),
        (UploadError::NotADirectory, 500),
        (UploadError::InsufficientPermissions, 500),
        (UploadError::ServerMisconfigured, 500),
        (UploadError::ParseError, 500),
        (UploadError::AlreadyExists, 500),
        (UploadError::TransportError("t".to_string()), 500),
    ];
    for (e, code) in all {
        assert_eq!(e.shown_status(), code);
        assert!(!e.description().is_empty());
        match respond(Err(e), b"/back".to_vec()) {
            Response::Error(page) => {
                assert_eq!(page.code, code);
                assert_eq!(page.return_path, b"/back".to_vec());
            }
            other => panic!("expected an error page, got {:?}", other),
        }
    }
    assert_eq!(
        UploadError::AlreadyExists.description(),
        "File already exists, and the overwrite_files option has not been set"
    );
}
