use penguin::secrets::atomic_write::{AtomicWrite, WriteAction, WriteEvent, FILE_MODE, MAX_ATTEMPTS};
use penguin::secrets::{IoErrorKind, IoFailure, SecretError};

fn failed(kind: IoErrorKind, message: &str) -> WriteEvent {
    WriteEvent::Failed(IoFailure { kind, message: message.to_string() })
}

fn begin(suffix: u64) -> AtomicWrite {
    AtomicWrite::begin_with(
        b"/d/6b.secret".to_vec(),
        Some(b"/d".to_vec()),
        b"data".to_vec(),
        suffix,
    )
    .expect("begin")
}

#[test]
fn a_write_creates_fills_and_renames() {
    let write = begin(0x1f);
    assert_eq!(
        write.action(),
        WriteAction::Create { path: b"/d/.secret-tmp-1f", mode: FILE_MODE }
    );
    let write = write.next(WriteEvent::Done);
    assert_eq!(
        write.action(),
        WriteAction::Write { path: b"/d/.secret-tmp-1f", data: b"data" }
    );
    let write = write.next(WriteEvent::Done);
    assert_eq!(
        write.action(),
        WriteAction::Rename { from: b"/d/.secret-tmp-1f", to: b"/d/6b.secret" }
    );
    let write = write.next(WriteEvent::Done);
    assert_eq!(write.action(), WriteAction::Succeed);
    assert_eq!(write.next(WriteEvent::Done).action(), WriteAction::Succeed);
}

#[test]
fn the_file_is_created_for_its_owner_alone() {
    let write = AtomicWrite::begin(b"/d/6b.secret".to_vec(), Some(b"/d".to_vec()), Vec::new())
        .expect("begin");
    let WriteAction::Create { mode, .. } = write.action() else {
        panic!("the temporary file comes first")
    };
    assert_eq!(mode & 0o777, 0o600);
}

#[test]
fn a_path_without_a_directory_is_refused() {
    let refused = AtomicWrite::begin(b"/".to_vec(), None, Vec::new());
    let Err(error) = refused else { panic!("begun") };
    assert_eq!(
        error,
        SecretError::Other("secret path / has no parent directory".to_string())
    );
}

#[test]
fn a_taken_name_is_tried_again_with_another() {
    let write = begin(1).next_with(failed(IoErrorKind::AlreadyExists, "File exists"), 2);
    assert_eq!(
        write.action(),
        WriteAction::Create { path: b"/d/.secret-tmp-2", mode: FILE_MODE }
    );
    let write = write.next(failed(IoErrorKind::AlreadyExists, "File exists"));
    let WriteAction::Create { path, .. } = write.action() else { panic!("tried again") };
    assert_ne!(path, b"/d/.secret-tmp-2");
    assert!(path.starts_with(b"/d/.secret-tmp-"));
}

#[test]
fn random_names_differ() {
    let name = || {
        let write = AtomicWrite::begin(b"/d/x".to_vec(), Some(b"/d".to_vec()), Vec::new())
            .expect("begin");
        let WriteAction::Create { path, .. } = write.action() else { panic!("first") };
        path.to_vec()
    };
    assert_ne!(name(), name());
}

#[test]
fn it_gives_up_after_as_many_names_as_allowed() {
    let mut write = begin(0);
    for _ in 0..MAX_ATTEMPTS {
        assert!(matches!(write.action(), WriteAction::Create { .. }));
        write = write.next(failed(IoErrorKind::AlreadyExists, "File exists"));
    }
    assert_eq!(
        write.action(),
        WriteAction::Fail(
            "failed to create temp file in /d: could not create a unique temp file after 100 attempts"
        )
    );
}

#[test]
fn another_failure_to_create_ends_it() {
    let write = begin(0).next(failed(IoErrorKind::NotFound, "No such file"));
    assert_eq!(
        write.action(),
        WriteAction::Fail("failed to create temp file in /d: No such file")
    );
}

#[test]
fn a_failed_write_removes_the_temporary_file() {
    let write = begin(255).next(WriteEvent::Done).next(failed(IoErrorKind::Other, "disk full"));
    assert_eq!(write.action(), WriteAction::Remove { path: b"/d/.secret-tmp-ff" });
    let message = "failed to write temp file /d/.secret-tmp-ff: disk full";
    let write = write.next(failed(IoErrorKind::Other, "still there"));
    assert_eq!(write.action(), WriteAction::Fail(message));
}

#[test]
fn a_failed_rename_removes_the_temporary_file() {
    let write = begin(255)
        .next(WriteEvent::Done)
        .next(WriteEvent::Done)
        .next(failed(IoErrorKind::Other, "read-only"));
    assert_eq!(write.action(), WriteAction::Remove { path: b"/d/.secret-tmp-ff" });
    let write = write.next(WriteEvent::Done);
    assert_eq!(
        write.action(),
        WriteAction::Fail("failed to rename /d/.secret-tmp-ff to /d/6b.secret: read-only")
    );
}
