use std::io::{Read, Write};
use std::path::PathBuf;

use tempfile::NamedTempFile;
use transient_files::action::Action;
use transient_files::handlers::secure_service;
use transient_files::response::Response;
use transient_files::stage::{Outcome, Stage, Step};

/// What one request of the secure handler did to the disk.
struct Seen {
    response: Response,
    /// Where the file was, if one was created.
    path: Option<PathBuf>,
    /// What the file held while the request was waiting.
    held: Option<Vec<u8>>,
    /// Whether the file was there when the release was asked for.
    there_before_release: bool,
}

/// Serves one request on real files. The wait is not slept through. With
/// `fail_write` the write is cut short: half of the bytes go out and the
/// handler is told that the write failed.
fn serve(payload: Option<&str>, fail_write: bool) -> Seen {
    let mut file: Option<NamedTempFile> = None;
    let mut seen = Seen {
        response: Response { status: 0, body: String::new() },
        path: None,
        held: None,
        there_before_release: false,
    };
    let mut stage = Stage::Received { payload: payload.map(|content| content.to_string()) };
    let mut outcome = Outcome::Succeeded;
    loop {
        let (next, action) = match secure_service(stage, outcome) {
            Step::Finish(response) => {
                seen.response = response;
                return seen;
            }
            Step::Continue(next, action) => (next, action),
        };
        stage = next;
        outcome = match action {
            Action::CreatePrivate => match NamedTempFile::new() {
                Ok(created) => {
                    seen.path = Some(created.path().to_path_buf());
                    file = Some(created);
                    Outcome::Succeeded
                }
                Err(_) => Outcome::Failed,
            },
            Action::Write { bytes } => {
                let open = file.as_mut().unwrap();
                if fail_write {
                    open.write_all(&bytes[..bytes.len() / 2]).unwrap();
                    Outcome::Failed
                } else if open.write_all(&bytes).is_ok() {
                    Outcome::Succeeded
                } else {
                    Outcome::Failed
                }
            }
            Action::Wait { seconds } => {
                assert_eq!(seconds, 2);
                let mut held = Vec::new();
                file.as_ref().unwrap().reopen().unwrap().read_to_end(&mut held).unwrap();
                seen.held = Some(held);
                Outcome::Succeeded
            }
            Action::Release => {
                seen.there_before_release = seen.path.as_ref().unwrap().exists();
                drop(file.take());
                Outcome::Succeeded
            }
            Action::CreateAt { .. } | Action::RemoveAt { .. } => {
                panic!("the secure handler named a path")
            }
        };
    }
}

#[test]
fn secure_path_hello_scenario() {
    let seen = serve(Some("hello"), false);
    assert_eq!(seen.response.status, 200);
    assert_eq!(seen.response.body, "Data processed (secure) 安全");
    assert_eq!(seen.held, Some(b"hello".to_vec()));
    assert!(seen.there_before_release);
    assert!(!seen.path.unwrap().exists());
}

#[test]
fn secure_file_is_gone_after_a_failed_write() {
    let seen = serve(Some("hello, world"), true);
    assert_eq!(seen.response.status, 500);
    assert_eq!(seen.response.body, "Failed to write to secure temporary file");
    assert_eq!(seen.held, None);
    assert!(seen.there_before_release);
    assert!(!seen.path.unwrap().exists());
}

#[test]
fn secure_file_holds_exactly_the_content() {
    let content = "héllo, wörld: 安全 \u{1F600}\n\0end";
    let seen = serve(Some(content), false);
    assert_eq!(seen.response.status, 200);
    assert_eq!(seen.held.unwrap(), content.as_bytes());
}

#[test]
fn secure_file_holds_nothing_for_empty_content() {
    let seen = serve(Some(""), false);
    assert_eq!(seen.response.status, 200);
    assert_eq!(seen.held, Some(Vec::new()));
    assert!(!seen.path.unwrap().exists());
}

#[test]
fn secure_requests_get_files_of_their_own() {
    let first = NamedTempFile::new().unwrap();
    let second = NamedTempFile::new().unwrap();
    assert_ne!(first.path(), second.path());
    assert!(first.path().exists());
    assert!(second.path().exists());
    let mut paths = Vec::new();
    for _ in 0..20 {
        let seen = serve(Some("hello"), false);
        let path = seen.path.unwrap();
        assert!(!paths.contains(&path));
        assert_ne!(path, PathBuf::from("/tmp/sensitive_data.csv"));
        paths.push(path);
    }
}

#[test]
fn missing_payload_creates_no_file() {
    let seen = serve(None, false);
    assert_eq!(seen.response.status, 400);
    assert_eq!(seen.path, None);
}
