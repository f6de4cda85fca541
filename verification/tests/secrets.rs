use std::collections::HashMap;

use chacha20poly1305::aead::{Aead, Payload};
use chacha20poly1305::{Key, KeyInit, XChaCha20Poly1305, XNonce};
use penguin::secrets::aead::{KEY_LEN, NONCE_LEN, TAG_LEN};
use penguin::secrets::atomic_write::{AtomicWrite, WriteAction, WriteEvent};
use penguin::secrets::file_backend::{
    decrypt_record, encrypt_record, encrypt_with_nonce, master_key_path, opened_record,
    sealed_record,
};
use penguin::secrets::{FileBackend, IoErrorKind, IoFailure, MasterKey, SecretError};

type Files = HashMap<Vec<u8>, Vec<u8>>;

const DIR: &[u8] = b"/var/lib/penguind/secrets";

fn master_key() -> MasterKey {
    MasterKey::new((0u8..32).collect())
}

fn open_backend() -> FileBackend {
    FileBackend::open(DIR.to_vec(), true, |_, _| Ok(()), |_| Ok(master_key()))
        .expect("open file backend")
}

fn missing() -> IoFailure {
    IoFailure {
        kind: IoErrorKind::NotFound,
        message: "No such file or directory (os error 2)".to_string(),
    }
}

fn denied() -> IoFailure {
    IoFailure {
        kind: IoErrorKind::Other,
        message: "Permission denied (os error 13)".to_string(),
    }
}

fn write(files: &mut Files, path: Vec<u8>, data: Vec<u8>) {
    let mut write = AtomicWrite::begin(path, Some(DIR.to_vec()), data).expect("begin");
    loop {
        match write.action() {
            WriteAction::Create { path, mode } => {
                assert_eq!(mode, 0o600);
                assert!(files.insert(path.to_vec(), Vec::new()).is_none());
            }
            WriteAction::Write { path, data } => {
                files.insert(path.to_vec(), data.to_vec());
            }
            WriteAction::Rename { from, to } => {
                let data = files.remove(from).expect("temporary file");
                files.insert(to.to_vec(), data);
            }
            WriteAction::Remove { .. } => unreachable!("nothing failed"),
            WriteAction::Succeed => return,
            WriteAction::Fail(message) => panic!("{message}"),
        }
        write = write.next(WriteEvent::Done);
    }
}

fn set(files: &mut Files, backend: &FileBackend, key: &str, value: &[u8]) {
    let secret = backend.set(key, value).expect("set");
    write(files, secret.path, secret.record);
}

fn get(files: &Files, backend: &FileBackend, key: &str) -> Result<Vec<u8>, SecretError> {
    let read = files.get(&backend.record_path(key)).cloned().ok_or_else(missing);
    backend.get(key, read)
}

fn delete(files: &mut Files, backend: &FileBackend, key: &str) -> Result<(), SecretError> {
    let removed = files.remove(&backend.record_path(key)).map(|_| ()).ok_or_else(missing);
    backend.delete(key, removed)
}

fn text(error: SecretError) -> String {
    match error {
        SecretError::NotFound => panic!("not found"),
        SecretError::Other(message) => message,
    }
}

#[test]
fn round_trip_set_get_delete() {
    let mut files = Files::new();
    let backend = open_backend();

    set(&mut files, &backend, "k", b"hello world");
    let got = get(&files, &backend, "k").expect("get");
    assert_eq!(got, b"hello world");

    delete(&mut files, &backend, "k").expect("delete");
    let err = get(&files, &backend, "k").expect_err("get after delete should fail");
    assert!(matches!(err, SecretError::NotFound));
}

#[test]
fn get_missing_key_is_not_found() {
    let backend = open_backend();
    let err = get(&Files::new(), &backend, "does-not-exist")
        .expect_err("missing key should error");
    assert!(matches!(err, SecretError::NotFound));
}

#[test]
fn delete_missing_key_is_not_found() {
    let backend = open_backend();
    let err = delete(&mut Files::new(), &backend, "does-not-exist")
        .expect_err("deleting a missing key should error");
    assert!(matches!(err, SecretError::NotFound));
}

#[test]
fn aad_binding_rejects_a_record_moved_to_a_different_key() {
    let mut files = Files::new();
    let backend = open_backend();
    set(&mut files, &backend, "key-a", b"secret-a");

    let raw = files[&backend.record_path("key-a")].clone();
    files.insert(backend.record_path("key-b"), raw);

    let err = get(&files, &backend, "key-b")
        .expect_err("a record encrypted for a different key must not decrypt");
    assert!(matches!(err, SecretError::Other(_)));
}

#[test]
fn tampering_a_single_ciphertext_byte_fails_decryption() {
    let mut files = Files::new();
    let backend = open_backend();
    set(&mut files, &backend, "k", b"do not tamper with me");

    let raw = files.get_mut(&backend.record_path("k")).expect("raw record");
    let last = raw.len() - 1;
    raw[last] ^= 0xFF;

    let err = get(&files, &backend, "k").expect_err("tampered ciphertext must not decrypt");
    assert!(matches!(err, SecretError::Other(_)));
}

#[test]
fn nonce_is_unique_per_encryption() {
    let mut files = Files::new();
    let backend = open_backend();

    set(&mut files, &backend, "k", b"same plaintext");
    let first = files[&backend.record_path("k")].clone();

    set(&mut files, &backend, "k", b"same plaintext");
    let second = files[&backend.record_path("k")].clone();

    assert_ne!(
        first, second,
        "re-encrypting identical plaintext must not produce identical records"
    );
    assert_ne!(&first[..NONCE_LEN], &second[..NONCE_LEN]);
}

#[test]
fn setting_one_key_leaves_the_others() {
    let mut files = Files::new();
    let backend = open_backend();
    set(&mut files, &backend, "module1/secret", b"one");
    set(&mut files, &backend, "module2/secret", b"two");
    set(&mut files, &backend, "module1/secret", b"three");
    assert_eq!(get(&files, &backend, "module1/secret").expect("get"), b"three");
    assert_eq!(get(&files, &backend, "module2/secret").expect("get"), b"two");
    assert_eq!(files.len(), 2);
    delete(&mut files, &backend, "module1/secret").expect("delete");
    assert_eq!(get(&files, &backend, "module2/secret").expect("get"), b"two");
}

#[test]
fn record_paths_are_hexadecimal_names_in_the_directory() {
    let backend = open_backend();
    assert_eq!(
        backend.record_path("a/b"),
        b"/var/lib/penguind/secrets/612f62.secret".to_vec()
    );
    assert_eq!(backend.record_path(""), b"/var/lib/penguind/secrets/.secret".to_vec());
    assert_eq!(
        backend.record_path("é"),
        b"/var/lib/penguind/secrets/c3a9.secret".to_vec()
    );
    assert_ne!(backend.record_path("../x"), backend.record_path("x"));
    assert_ne!(backend.record_path("master"), master_key_path(DIR));
}

#[test]
fn records_are_a_nonce_and_a_ciphertext_bound_to_the_key() {
    let nonce: Vec<u8> = (100u8..124).collect();
    let record = encrypt_with_nonce(&master_key(), "module1/secret", b"hunter2", &nonce)
        .expect("encrypt");
    assert_eq!(record.len(), NONCE_LEN + 7 + TAG_LEN);
    assert_eq!(&record[..NONCE_LEN], &nonce[..]);

    let key: Vec<u8> = (0u8..32).collect();
    let cipher = XChaCha20Poly1305::new(<&Key>::try_from(&key[..]).expect("key"));
    let sealed = cipher
        .encrypt(
            <&XNonce>::try_from(&nonce[..]).expect("nonce"),
            Payload { msg: b"hunter2", aad: b"module1/secret" },
        )
        .expect("seal");
    assert_eq!(&record[NONCE_LEN..], &sealed[..]);
    assert_eq!(
        decrypt_record(&master_key(), "module1/secret", &record).expect("decrypt"),
        b"hunter2"
    );
}

#[test]
fn empty_values_round_trip() {
    let record = encrypt_record(&master_key(), "k", b"").expect("encrypt");
    assert_eq!(record.len(), NONCE_LEN + TAG_LEN);
    assert_eq!(decrypt_record(&master_key(), "k", &record).expect("decrypt"), b"");
}

#[test]
fn a_truncated_record_is_told_apart() {
    let err = decrypt_record(&master_key(), "k", &[0u8; 23]).expect_err("truncated");
    assert_eq!(text(err), "secret record is truncated");
    let err = decrypt_record(&master_key(), "k", &[0u8; 24]).expect_err("no tag");
    assert_eq!(
        text(err),
        "failed to decrypt secret (tampered ciphertext, wrong key, or record moved to a different key)"
    );
}

#[test]
fn a_master_key_of_another_length_is_refused() {
    let short = MasterKey::new(vec![1; KEY_LEN - 1]);
    let message = "master key has invalid length for XChaCha20Poly1305";
    assert_eq!(text(encrypt_record(&short, "k", b"v").expect_err("short key")), message);
    assert_eq!(text(decrypt_record(&short, "k", &[0u8; 64]).expect_err("short key")), message);
    assert_eq!(short.as_bytes().len(), KEY_LEN - 1);
}

#[test]
fn another_master_key_does_not_decrypt() {
    let record = encrypt_record(&master_key(), "k", b"value").expect("encrypt");
    let other = MasterKey::new(vec![9; KEY_LEN]);
    assert!(decrypt_record(&other, "k", &record).is_err());
}

#[test]
fn other_read_and_delete_failures_name_the_file() {
    let backend = open_backend();
    assert_eq!(
        text(backend.get("k", Err(denied())).expect_err("denied")),
        "failed to read secret file /var/lib/penguind/secrets/6b.secret: Permission denied (os error 13)"
    );
    assert_eq!(
        text(backend.delete("k", Err(denied())).expect_err("denied")),
        "failed to delete secret file /var/lib/penguind/secrets/6b.secret: Permission denied (os error 13)"
    );
}

#[test]
fn a_directory_that_is_not_utf8_is_shown_with_replacements() {
    let backend =
        FileBackend::open(b"/s\xff".to_vec(), true, |_, _| Ok(()), |_| Ok(master_key()))
            .expect("open");
    assert_eq!(
        text(backend.get("k", Err(denied())).expect_err("denied")),
        "failed to read secret file /s\u{fffd}/6b.secret: Permission denied (os error 13)"
    );
}

#[test]
fn open_creates_a_missing_directory_for_its_owner() {
    let opened = FileBackend::open(
        b"/s".to_vec(),
        false,
        |path, mode| {
            assert_eq!(path, b"/s".to_vec());
            assert_eq!(mode, 0o700);
            Ok(())
        },
        |path| {
            assert_eq!(path, b"/s/master.key".to_vec());
            Ok(master_key())
        },
    );
    assert!(opened.is_ok());
}

#[test]
fn open_reports_a_directory_that_cannot_be_created() {
    let opened = FileBackend::open(
        b"/s".to_vec(),
        false,
        |_, _| Err(denied()),
        |_| unreachable!("the directory is not there"),
    );
    let Err(err) = opened else { panic!("opened") };
    assert_eq!(
        text(err),
        "failed to create directory /s: Permission denied (os error 13)"
    );
}

#[test]
fn open_hands_on_what_is_wrong_with_the_master_key() {
    let opened = FileBackend::open(
        b"/s".to_vec(),
        true,
        |_, _| unreachable!("the directory is there"),
        |_| Err(SecretError::Other("world-writable".to_string())),
    );
    let Err(err) = opened else { panic!("opened") };
    assert_eq!(text(err), "world-writable");
}

const REFUSED: &str =
    "failed to decrypt secret (tampered ciphertext, wrong key, or record moved to a different key)";

#[test]
fn the_answers_of_the_cipher_become_records_and_secrets() {
    assert_eq!(sealed_record(b"nonce", Ok(b"ct".to_vec())), Ok(b"noncect".to_vec()));
    assert_eq!(
        text(sealed_record(b"nonce", Err(chacha20poly1305::Error)).expect_err("refused")),
        "failed to encrypt secret"
    );
    assert_eq!(opened_record(Ok(b"v".to_vec())), Ok(b"v".to_vec()));
    assert_eq!(
        text(opened_record(Err(chacha20poly1305::Error)).expect_err("refused")),
        REFUSED
    );
}

#[test]
fn refusals_do_not_tell_what_is_wrong() {
    let record = encrypt_record(&master_key(), "k", b"value").expect("encrypt");
    let other = MasterKey::new(vec![9; KEY_LEN]);
    assert_eq!(text(decrypt_record(&other, "k", &record).expect_err("key")), REFUSED);
    assert_eq!(text(decrypt_record(&master_key(), "l", &record).expect_err("aad")), REFUSED);
    for i in [0, NONCE_LEN - 1, NONCE_LEN, record.len() - 1] {
        let mut flipped = record.clone();
        flipped[i] ^= 1;
        assert_eq!(text(decrypt_record(&master_key(), "k", &flipped).expect_err("bit")), REFUSED);
    }
    let cut = &record[..record.len() - 1];
    assert_eq!(text(decrypt_record(&master_key(), "k", cut).expect_err("cut")), REFUSED);
    let mut longer = record;
    longer.push(0);
    assert_eq!(text(decrypt_record(&master_key(), "k", &longer).expect_err("added")), REFUSED);
}

#[test]
fn a_reopened_store_reads_alike() {
    let mut files = Files::new();
    files.insert(master_key_path(DIR), (0u8..32).collect());
    let first = open_backend();
    set(&mut files, &first, "a", b"one");
    set(&mut files, &first, "b", b"two");
    assert_eq!(files[&master_key_path(DIR)], (0u8..32).collect::<Vec<u8>>());
    let before = files.clone();
    let second = FileBackend::open(
        DIR.to_vec(),
        true,
        |_, _| unreachable!("the directory is there"),
        |path| Ok(MasterKey::new(files[&path].clone())),
    )
    .expect("reopen");
    for key in ["a", "b", "c"] {
        assert_eq!(get(&files, &second, key), get(&files, &first, key));
    }
    assert_eq!(files, before);
}

#[test]
fn a_failed_set_changes_no_secret() {
    let mut files = Files::new();
    let backend = open_backend();
    set(&mut files, &backend, "a", b"one");
    set(&mut files, &backend, "b", b"two");
    let secret = backend.set("a", b"three").expect("set");
    let mut write =
        AtomicWrite::begin(secret.path, Some(DIR.to_vec()), secret.record).expect("begin");
    loop {
        let event = match write.action() {
            WriteAction::Create { path, .. } => {
                files.insert(path.to_vec(), Vec::new());
                WriteEvent::Done
            }
            WriteAction::Write { path, data } => {
                files.insert(path.to_vec(), data[..3].to_vec());
                WriteEvent::Failed(denied())
            }
            WriteAction::Remove { .. } => WriteEvent::Failed(denied()),
            WriteAction::Rename { .. } | WriteAction::Succeed => unreachable!("it failed"),
            WriteAction::Fail(_) => break,
        };
        write = write.next(event);
        assert_eq!(get(&files, &backend, "a").expect("get"), b"one");
        assert_eq!(get(&files, &backend, "b").expect("get"), b"two");
    }
}
