//! The encrypted-file secret store: one record for each secret, in a directory
//! that also holds the master key.
//!
//! A record is a nonce followed by the XChaCha20-Poly1305 ciphertext of the
//! secret and its tag. The associated data is the full namespaced key. The
//! record's file is named by the hexadecimal text of the key's UTF-8 bytes.

use crate::paths::{extend, join, joined, lemma_joined_injective, SEPARATOR};
use crate::secrets::aead::{
    aead_open, aead_seal, exhausts_keystream, nonce_drawn, open as aead_decrypt, random_nonce,
    seal, KEY_LEN, MAX_MESSAGE_LEN, NONCE_LEN, TAG_LEN,
};
use crate::secrets::atomic_write::{
    files_after, is_run, law_destination_is_whole, not_temporary, state_after, temp_path,
    AtomicWriteView, Files, WriteStep,
};
use crate::secrets::error::{result_view, IoErrorKind, IoFailure, SecretError, SecretErrorView};
use crate::text::{
    digit_value, display_bytes, hex, hex_encode, is_hex_digit, law_hex_injective,
    law_hex_spells_bytes, lemma_hex_is_plain, lemma_numeral_digits, lossy_text, numeral,
};
use vstd::prelude::*;
use vstd::string::*;
use vstd::utf8::*;

verus! {

/// The permission bits of a new store directory: all for its owner.
pub const DIR_MODE: u32 = 0o700;

/// The key that all records of a store are encrypted under.
pub struct MasterKey {
    bytes: Vec<u8>,
}

impl View for MasterKey {
    type V = Seq<u8>;

    closed spec fn view(&self) -> Seq<u8> {
        self.bytes@
    }
}

impl MasterKey {
    /// The key made of `bytes`.
    pub fn new(bytes: Vec<u8>) -> (r: MasterKey)
        ensures
            r@ == bytes@,
    {
        MasterKey { bytes }
    }

    /// The bytes of the key.
    pub fn as_bytes(&self) -> (r: &[u8])
        ensures
            r@ == self@,
    {
        self.bytes.as_slice()
    }
}

/// An encrypted-file store.
pub struct FileBackend {
    dir: Vec<u8>,
    master_key: MasterKey,
}

/// What a [`FileBackend`] holds: its directory and its master key.
pub struct FileBackendView {
    pub dir: Seq<u8>,
    pub master_key: Seq<u8>,
}

impl View for FileBackend {
    type V = FileBackendView;

    closed spec fn view(&self) -> FileBackendView {
        FileBackendView { dir: self.dir@, master_key: self.master_key@ }
    }
}

/// A record that is to be written: the file and its new contents.
#[derive(Debug, PartialEq, Eq)]
pub struct SecretWrite {
    pub path: Vec<u8>,
    pub record: Vec<u8>,
}

/// The name of the file that holds the record of `key`.
pub open spec fn record_name(key: Seq<char>) -> Seq<char> {
    hex(encode_utf8(key)) + ".secret"@
}

/// The file below `dir` that holds the record of `key`.
pub open spec fn record_file(dir: Seq<u8>, key: Seq<char>) -> Seq<u8> {
    joined(dir, encode_utf8(record_name(key)))
}

/// The file below `dir` that holds the master key.
pub open spec fn master_key_file(dir: Seq<u8>) -> Seq<u8> {
    joined(dir, encode_utf8("master.key"@))
}

/// The error with this text.
pub open spec fn other(message: Seq<char>) -> SecretErrorView {
    SecretErrorView::Other(message)
}

/// The record of `value` under `key` with the nonce `nonce`, or the reason why
/// there is none.
pub open spec fn encrypted(
    master_key: Seq<u8>,
    key: Seq<char>,
    value: Seq<u8>,
    nonce: Seq<u8>,
) -> Result<Seq<u8>, SecretErrorView> {
    if master_key.len() != KEY_LEN {
        Err(other("master key has invalid length for XChaCha20Poly1305"@))
    } else if value.len() > MAX_MESSAGE_LEN {
        Err(other("failed to encrypt secret"@))
    } else {
        Ok(nonce + aead_seal(master_key, nonce, encode_utf8(key), value))
    }
}

/// The value in `record` under `key`, or the reason why there is none.
pub open spec fn decrypted(master_key: Seq<u8>, key: Seq<char>, record: Seq<u8>) -> Result<
    Seq<u8>,
    SecretErrorView,
> {
    if record.len() < NONCE_LEN {
        Err(other("secret record is truncated"@))
    } else if master_key.len() != KEY_LEN {
        Err(other("master key has invalid length for XChaCha20Poly1305"@))
    } else {
        let nonce = record.take(NONCE_LEN as int);
        match aead_open(master_key, nonce, encode_utf8(key), record.skip(NONCE_LEN as int)) {
            Some(value) => Ok(value),
            None => Err(refused()),
        }
    }
}

/// What reading or removing a file gave, for a value that is seen through its
/// view.
pub open spec fn io_view<T: View>(r: Result<T, IoFailure>) -> Result<
    T::V,
    (IoErrorKind, Seq<char>),
> {
    match r {
        Ok(value) => Ok(value@),
        Err(failure) => Err((failure.kind, failure.message@)),
    }
}

impl FileBackendView {
    /// The value of `key`, where reading its record gave `read`.
    pub open spec fn got(
        self,
        key: Seq<char>,
        read: Result<Seq<u8>, (IoErrorKind, Seq<char>)>,
    ) -> Result<Seq<u8>, SecretErrorView> {
        match read {
            Ok(record) => decrypted(self.master_key, key, record),
            Err((IoErrorKind::NotFound, _)) => Err(SecretErrorView::NotFound),
            Err((_, reason)) => Err(
                other(
                    "failed to read secret file "@ + lossy_text(record_file(self.dir, key)) + ": "@
                        + reason,
                ),
            ),
        }
    }

    /// What comes of deleting `key`, where removing its record gave `removed`.
    pub open spec fn deleted(
        self,
        key: Seq<char>,
        removed: Result<(), (IoErrorKind, Seq<char>)>,
    ) -> Result<(), SecretErrorView> {
        match removed {
            Ok(_) => Ok(()),
            Err((IoErrorKind::NotFound, _)) => Err(SecretErrorView::NotFound),
            Err((_, reason)) => Err(
                other(
                    "failed to delete secret file "@ + lossy_text(record_file(self.dir, key))
                        + ": "@ + reason,
                ),
            ),
        }
    }
}

/// The error of a master key that is no key of the cipher, where it is none.
fn cipher_for(master_key: &MasterKey) -> (r: Result<(), SecretError>)
    ensures
        r is Ok <==> master_key@.len() == KEY_LEN,
        r matches Err(e) ==> e@ == other("master key has invalid length for XChaCha20Poly1305"@),
{
    if master_key.as_bytes().len() == KEY_LEN {
        Ok(())
    } else {
        Err(
            SecretError::Other(
                "master key has invalid length for XChaCha20Poly1305".to_owned(),
            ),
        )
    }
}

/// The record that the cipher's answer `sealed` makes, with the nonce in front.
pub fn sealed_record(nonce: &[u8], sealed: Result<Vec<u8>, chacha20poly1305::Error>) -> (r: Result<
    Vec<u8>,
    SecretError,
>)
    ensures
        match sealed {
            Ok(ciphertext) => r matches Ok(record) && record@ == nonce@ + ciphertext@,
            Err(_) => r matches Err(error) && error@ == other("failed to encrypt secret"@),
        },
{
    match sealed {
        Ok(ciphertext) => {
            let mut record: Vec<u8> = Vec::new();
            extend(&mut record, nonce);
            extend(&mut record, ciphertext.as_slice());
            assert(record@ =~= nonce@ + ciphertext@);
            Ok(record)
        },
        Err(_) => Err(SecretError::Other("failed to encrypt secret".to_owned())),
    }
}

/// The error of a record that the cipher does not open, whatever is wrong with
/// it.
pub open spec fn refused() -> SecretErrorView {
    other(
        "failed to decrypt secret (tampered ciphertext, wrong key, or record moved to a different key)"@,
    )
}

/// The secret that the cipher's answer `opened` makes.
pub fn opened_record(opened: Result<Vec<u8>, chacha20poly1305::Error>) -> (r: Result<
    Vec<u8>,
    SecretError,
>)
    ensures
        match opened {
            Ok(value) => r == Ok::<Vec<u8>, SecretError>(value),
            Err(_) => r matches Err(error) && error@ == refused(),
        },
{
    match opened {
        Ok(value) => Ok(value),
        Err(_) => Err(
            SecretError::Other(
                "failed to decrypt secret (tampered ciphertext, wrong key, or record moved to a different key)".to_owned(),
            ),
        ),
    }
}

/// Encrypts `plaintext` with the nonce `nonce`, bound to the key `aad_key`.
/// What comes out decrypts to `plaintext` again.
pub fn encrypt_with_nonce(
    master_key: &MasterKey,
    aad_key: &str,
    plaintext: &[u8],
    nonce: &[u8],
) -> (r: Result<Vec<u8>, SecretError>)
    requires
        nonce@.len() == NONCE_LEN,
        !exhausts_keystream(plaintext@.len() as int),
    ensures
        r is Ok <==> master_key@.len() == KEY_LEN && plaintext@.len() <= MAX_MESSAGE_LEN,
        r matches Ok(record) ==> record@.take(NONCE_LEN as int) == nonce@ && record@.skip(
            NONCE_LEN as int,
        ) == aead_seal(master_key@, nonce@, encode_utf8(aad_key@), plaintext@),
        result_view(r) == encrypted(master_key@, aad_key@, plaintext@, nonce@),
        r matches Ok(record) ==> record@.len() == NONCE_LEN + plaintext@.len() + TAG_LEN,
        r matches Ok(record) ==> decrypted(master_key@, aad_key@, record@) == Ok::<
            Seq<u8>,
            SecretErrorView,
        >(plaintext@),
{
    match cipher_for(master_key) {
        Ok(_) => {},
        Err(error) => return Err(error),
    }
    let sealed = seal(master_key.as_bytes(), nonce, aad_key.as_bytes(), plaintext);
    let r = sealed_record(nonce, sealed);
    proof {
        if let Ok(record) = &r {
            assert(record@.take(NONCE_LEN as int) =~= nonce@);
            assert(record@.skip(NONCE_LEN as int) =~= aead_seal(
                master_key@,
                nonce@,
                encode_utf8(aad_key@),
                plaintext@,
            ));
        }
    }
    r
}

/// Encrypts `plaintext` with a random nonce, bound to the key `aad_key`. What
/// comes out decrypts to `plaintext` again.
pub fn encrypt_record(master_key: &MasterKey, aad_key: &str, plaintext: &[u8]) -> (r: Result<
    Vec<u8>,
    SecretError,
>)
    requires
        !exhausts_keystream(plaintext@.len() as int),
    ensures
        r is Ok <==> master_key@.len() == KEY_LEN && plaintext@.len() <= MAX_MESSAGE_LEN,
        exists|nonce: Seq<u8>|
            nonce.len() == NONCE_LEN && nonce_drawn(nonce) && result_view(r)
                == #[trigger] encrypted(
                master_key@,
                aad_key@,
                plaintext@,
                nonce,
            ),
        r matches Ok(record) ==> record@.len() == NONCE_LEN + plaintext@.len() + TAG_LEN,
        r matches Ok(record) ==> decrypted(master_key@, aad_key@, record@) == Ok::<
            Seq<u8>,
            SecretErrorView,
        >(plaintext@),
{
    let nonce = random_nonce();
    let r = encrypt_with_nonce(master_key, aad_key, plaintext, nonce.as_slice());
    assert(result_view(r) == encrypted(master_key@, aad_key@, plaintext@, nonce@));
    r
}

/// Decrypts `record`, which must be bound to the key `aad_key`.
pub fn decrypt_record(master_key: &MasterKey, aad_key: &str, record: &[u8]) -> (r: Result<
    Vec<u8>,
    SecretError,
>)
    requires
        !exhausts_keystream(record@.len() - NONCE_LEN - TAG_LEN),
    ensures
        r matches Ok(value) ==> record@.len() >= NONCE_LEN && master_key@.len() == KEY_LEN
            && aead_open(
            master_key@,
            record@.take(NONCE_LEN as int),
            encode_utf8(aad_key@),
            record@.skip(NONCE_LEN as int),
        ) == Some(value@),
        r is Err ==> record@.len() < NONCE_LEN || master_key@.len() != KEY_LEN || aead_open(
            master_key@,
            record@.take(NONCE_LEN as int),
            encode_utf8(aad_key@),
            record@.skip(NONCE_LEN as int),
        ) is None,
        result_view(r) == decrypted(master_key@, aad_key@, record@),
{
    if record.len() < NONCE_LEN {
        return Err(SecretError::Other("secret record is truncated".to_owned()));
    }
    match cipher_for(master_key) {
        Ok(_) => {},
        Err(error) => return Err(error),
    }
    let (nonce, ciphertext) = record.split_at(NONCE_LEN);
    assert(nonce@ =~= record@.take(NONCE_LEN as int));
    assert(ciphertext@ =~= record@.skip(NONCE_LEN as int));
    opened_record(aead_decrypt(master_key.as_bytes(), nonce, aad_key.as_bytes(), ciphertext))
}

/// The file below `dir` that holds the master key.
pub fn master_key_path(dir: &[u8]) -> (r: Vec<u8>)
    ensures
        r@ == master_key_file(dir@),
{
    join(dir, "master.key".as_bytes())
}

/// Why the directory `dir` could not be created.
pub open spec fn dir_failure(dir: Seq<u8>, reason: Seq<char>) -> SecretErrorView {
    other("failed to create directory "@ + lossy_text(dir) + ": "@ + reason)
}

/// Whether asking `create` for the directory `dir` can give `made`.
pub open spec fn dir_made<C: FnOnce(Vec<u8>, u32) -> Result<(), IoFailure>>(
    create: C,
    dir: Seq<u8>,
    made: Result<(), IoFailure>,
) -> bool {
    exists|path: Vec<u8>|
        path@ == dir && #[trigger] call_ensures(create, (path, DIR_MODE), made)
}

/// Whether asking `ensure` for the master key of the store at `dir` can give
/// `key`.
pub open spec fn key_ensured<K: FnOnce(Vec<u8>) -> Result<MasterKey, SecretError>>(
    ensure: K,
    dir: Seq<u8>,
    key: Result<MasterKey, SecretError>,
) -> bool {
    exists|path: Vec<u8>|
        path@ == master_key_file(dir) && #[trigger] call_ensures(ensure, (path,), key)
}

/// Creates the directory `dir`, for its owner alone, unless it is `present`.
fn create_owner_only_dir<C>(dir: &Vec<u8>, present: bool, create: C) -> (r: Result<(), SecretError>)
    where C: FnOnce(Vec<u8>, u32) -> Result<(), IoFailure>
    requires
        !present ==> forall|path: Vec<u8>| path@ == dir@ ==> call_requires(create, (path, DIR_MODE)),
    ensures
        match r {
            Ok(_) => present || dir_made(create, dir@, Ok(())),
            Err(error) => !present && exists|failure: IoFailure|
                #[trigger] dir_made(create, dir@, Err(failure)) && error@ == dir_failure(
                    dir@,
                    failure.message@,
                ),
        },
{
    if present {
        return Ok(());
    }
    let path = dir.clone();
    assert(path@ =~= dir@);
    let made = create(path, DIR_MODE);
    assert(dir_made(create, dir@, made));
    match made {
        Ok(unit) => {
            assert(unit == ());
            Ok(())
        },
        Err(failure) => {
            let mut message = "failed to create directory ".to_owned();
            message.append(display_bytes(dir.as_slice()).as_str());
            message.append(": ");
            message.append(failure.message.as_str());
            Err(SecretError::Other(message))
        },
    }
}

impl FileBackend {
    /// Opens the store at `dir`. Unless the directory is `present`, `create_dir`
    /// makes it, with the given permission bits. Then `ensure_master_key`
    /// reads the master key from the given path, or puts one there.
    pub fn open<C, K>(dir: Vec<u8>, present: bool, create_dir: C, ensure_master_key: K) -> (r: Result<
        FileBackend,
        SecretError,
    >)
        where
            C: FnOnce(Vec<u8>, u32) -> Result<(), IoFailure>,
            K: FnOnce(Vec<u8>) -> Result<MasterKey, SecretError>,

        requires
            !present ==> forall|path: Vec<u8>|
                path@ == dir@ ==> call_requires(create_dir, (path, DIR_MODE)),
            forall|path: Vec<u8>|
                path@ == master_key_file(dir@) ==> call_requires(ensure_master_key, (path,)),
        ensures
            match r {
                Ok(store) => {
                    &&& store@.dir == dir@
                    &&& present || dir_made(create_dir, dir@, Ok(()))
                    &&& exists|key: MasterKey|
                        #[trigger] key_ensured(ensure_master_key, dir@, Ok(key)) && key@
                            == store@.master_key
                },
                Err(error) => {
                    ||| !present && exists|failure: IoFailure|
                        #[trigger] dir_made(create_dir, dir@, Err(failure)) && error@
                            == dir_failure(dir@, failure.message@)
                    ||| (present || dir_made(create_dir, dir@, Ok(()))) && key_ensured(
                        ensure_master_key,
                        dir@,
                        Err(error),
                    )
                },
            },
    {
        match create_owner_only_dir(&dir, present, create_dir) {
            Ok(_) => {},
            Err(error) => return Err(error),
        }
        let path = master_key_path(dir.as_slice());
        let key = ensure_master_key(path);
        assert(key_ensured(ensure_master_key, dir@, key));
        match key {
            Ok(master_key) => Ok(FileBackend { dir, master_key }),
            Err(error) => Err(error),
        }
    }

    /// Decrypts the record of `namespaced_key`; reading its file gave `read`.
    pub fn get(&self, namespaced_key: &str, read: Result<Vec<u8>, IoFailure>) -> (r: Result<
        Vec<u8>,
        SecretError,
    >)
        requires
            read matches Ok(record) ==> !exhausts_keystream(
                record@.len() - NONCE_LEN - TAG_LEN,
            ),
        ensures
            r matches Err(SecretError::NotFound) <==> (read matches Err(failure) && failure.kind
                == IoErrorKind::NotFound),
            result_view(r) == self@.got(namespaced_key@, io_view(read)),
    {
        match read {
            Ok(record) => decrypt_record(&self.master_key, namespaced_key, record.as_slice()),
            Err(failure) => {
                if failure.kind == IoErrorKind::NotFound {
                    return Err(SecretError::NotFound);
                }
                let path = self.record_path(namespaced_key);
                let mut message = "failed to read secret file ".to_owned();
                message.append(display_bytes(path.as_slice()).as_str());
                message.append(": ");
                message.append(failure.message.as_str());
                Err(SecretError::Other(message))
            },
        }
    }

    /// Encrypts `value` with a random nonce. What is to be written as
    /// `namespaced_key`'s record reads back as `value`.
    pub fn set(&self, namespaced_key: &str, value: &[u8]) -> (r: Result<SecretWrite, SecretError>)
        requires
            !exhausts_keystream(value@.len() as int),
        ensures
            r is Ok <==> self@.master_key.len() == KEY_LEN && value@.len() <= MAX_MESSAGE_LEN,
            match r {
                Ok(write) => {
                    &&& write.path@ == record_file(self@.dir, namespaced_key@)
                    &&& exists|nonce: Seq<u8>|
                        nonce.len() == NONCE_LEN && nonce_drawn(nonce) && #[trigger] encrypted(
                            self@.master_key,
                            namespaced_key@,
                            value@,
                            nonce,
                        ) == Ok::<Seq<u8>, SecretErrorView>(write.record@)
                    &&& write.record@.len() == NONCE_LEN + value@.len() + TAG_LEN
                    &&& decrypted(self@.master_key, namespaced_key@, write.record@) == Ok::<
                        Seq<u8>,
                        SecretErrorView,
                    >(value@)
                },
                Err(error) => exists|nonce: Seq<u8>|
                    nonce.len() == NONCE_LEN && nonce_drawn(nonce) && #[trigger] encrypted(
                        self@.master_key,
                        namespaced_key@,
                        value@,
                        nonce,
                    ) == Err::<Seq<u8>, SecretErrorView>(error@),
            },
    {
        match encrypt_record(&self.master_key, namespaced_key, value) {
            Ok(record) => Ok(SecretWrite { path: self.record_path(namespaced_key), record }),
            Err(error) => Err(error),
        }
    }

    /// What comes of deleting `namespaced_key`; removing its file gave
    /// `removed`.
    pub fn delete(&self, namespaced_key: &str, removed: Result<(), IoFailure>) -> (r: Result<
        (),
        SecretError,
    >)
        ensures
            r is Ok <==> removed is Ok,
            r matches Err(SecretError::NotFound) <==> (removed matches Err(failure) && failure.kind
                == IoErrorKind::NotFound),
            result_view(r) == self@.deleted(namespaced_key@, io_view(removed)),
    {
        match removed {
            Ok(_) => Ok(()),
            Err(failure) => {
                if failure.kind == IoErrorKind::NotFound {
                    return Err(SecretError::NotFound);
                }
                let path = self.record_path(namespaced_key);
                let mut message = "failed to delete secret file ".to_owned();
                message.append(display_bytes(path.as_slice()).as_str());
                message.append(": ");
                message.append(failure.message.as_str());
                Err(SecretError::Other(message))
            },
        }
    }

    /// The file that holds the record of `namespaced_key`.
    pub fn record_path(&self, namespaced_key: &str) -> (r: Vec<u8>)
        ensures
            r@ == record_file(self@.dir, namespaced_key@),
    {
        let mut name = hex_encode(namespaced_key.as_bytes());
        name.append(".secret");
        join(self.dir.as_slice(), name.as_str().as_bytes())
    }
}

/// What reading the file at `path` gives, among `files`.
pub open spec fn read_file(files: Files, path: Seq<u8>) -> Result<
    Seq<u8>,
    (IoErrorKind, Seq<char>),
> {
    if files.dom().contains(path) {
        Ok(files[path].contents)
    } else {
        Err((IoErrorKind::NotFound, Seq::empty()))
    }
}

/// The bytes of a record's name: its characters, one by one.
proof fn lemma_record_name(key: Seq<char>)
    ensures
        ({
            let name = encode_utf8(record_name(key));
            &&& name.len() == record_name(key).len() >= 7
            &&& forall|i: int| 0 <= i < name.len() ==> name[i] == #[trigger] record_name(key)[i] as u8
            &&& !name.contains(SEPARATOR)
            &&& name.last() == 0x74
        }),
{
    reveal_strlit(".secret");
    lemma_hex_is_plain(encode_utf8(key));
    assert(is_ascii_chars(record_name(key)));
    is_ascii_chars_encode_utf8(record_name(key));
    let name = encode_utf8(record_name(key));
    assert forall|i: int| 0 <= i < name.len() implies name[i] != SEPARATOR by {
        let c = record_name(key)[i];
        assert(name[i] == c as u8);
        if i < hex(encode_utf8(key)).len() {
            assert(hex(encode_utf8(key)).contains(c));
        }
    }
}

/// Different keys have their records in different files.
pub proof fn law_records_do_not_collide(dir: Seq<u8>, a: Seq<char>, b: Seq<char>)
    requires
        record_file(dir, a) == record_file(dir, b),
    ensures
        a == b,
{
    lemma_record_name(a);
    lemma_record_name(b);
    lemma_joined_injective(dir, encode_utf8(record_name(a)), encode_utf8(record_name(b)));
    encode_utf8_decode_utf8(record_name(a));
    encode_utf8_decode_utf8(record_name(b));
    let x = hex(encode_utf8(a));
    let y = hex(encode_utf8(b));
    assert(record_name(a).take(record_name(a).len() - 7) =~= x) by {
        reveal_strlit(".secret");
    }
    assert(record_name(b).take(record_name(b).len() - 7) =~= y) by {
        reveal_strlit(".secret");
    }
    law_hex_injective(encode_utf8(a), encode_utf8(b));
    encode_utf8_decode_utf8(a);
    encode_utf8_decode_utf8(b);
}

/// A record lies directly in the store's directory, whatever its key holds:
/// its name has no separator in it.
pub proof fn law_record_stays_in_directory(dir: Seq<u8>, key: Seq<char>)
    ensures
        !encode_utf8(record_name(key)).contains(SEPARATOR),
        record_file(dir, key) == dir + encode_utf8(record_name(key)) || record_file(dir, key)
            == dir.push(SEPARATOR) + encode_utf8(record_name(key)),
{
    lemma_record_name(key);
    let name = encode_utf8(record_name(key));
    assert(name.contains(name[0]));
}

/// No record lies in the file of the master key.
pub proof fn law_record_is_not_master_key(dir: Seq<u8>, key: Seq<char>)
    ensures
        record_file(dir, key) != master_key_file(dir),
{
    lemma_record_name(key);
    reveal_strlit("master.key");
    is_ascii_chars_encode_utf8("master.key"@);
    let name = encode_utf8(record_name(key));
    let master = encode_utf8("master.key"@);
    assert(name.contains(name[0]));
    assert(master[0] == 'm' as u8 && master.last() == 'y' as u8);
    assert(record_file(dir, key).last() == name.last());
    assert(master_key_file(dir).last() == master.last());
}

/// No record lies in a temporary file of a write, in whatever directory.
pub proof fn law_record_is_not_temporary(dir: Seq<u8>, key: Seq<char>, other_dir: Seq<u8>)
    ensures
        not_temporary(record_file(dir, key), other_dir),
{
    lemma_record_name(key);
    let name = encode_utf8(record_name(key));
    assert(name.contains(name[0]));
    assert(record_file(dir, key).last() == name.last());
    assert forall|suffix: u64| #[trigger]
        temp_path(other_dir, suffix) != record_file(dir, key) by {
        let tail = numeral(suffix as nat, 16);
        let text = ".secret-tmp-"@ + tail;
        reveal_strlit(".secret-tmp-");
        lemma_numeral_digits(suffix as nat, 16);
        assert(is_ascii_chars(text));
        is_ascii_chars_encode_utf8(text);
        let temp = encode_utf8(text);
        assert(text.last() == tail.last());
        assert(temp.last() == text.last() as u8);
        assert(temp[0] == text[0] as u8);
        assert(temp_path(other_dir, suffix).last() == temp.last());
    }
}

/// What is set is read back. Once the write of the record that [`FileBackend::set`]
/// made for `key` and `value` has succeeded, reading the record's file gives
/// `value`; the other keys read as before.
pub proof fn law_set_then_get(
    backend: FileBackendView,
    key: Seq<char>,
    value: Seq<u8>,
    record: Seq<u8>,
    parent: Seq<u8>,
    suffix: u64,
    start: Files,
    steps: Seq<WriteStep>,
)
    requires
        decrypted(backend.master_key, key, record) == Ok::<Seq<u8>, SecretErrorView>(value),
        ({
            let write = AtomicWriteView::start(
                record_file(backend.dir, key),
                parent,
                record,
                suffix,
            );
            is_run(write, start, steps) && state_after(write, steps).stage is Succeeded
        }),
    ensures
        ({
            let files = files_after(start, steps);
            &&& backend.got(key, read_file(files, record_file(backend.dir, key))) == Ok::<
                Seq<u8>,
                SecretErrorView,
            >(value)
            &&& forall|k: Seq<char>|
                k != key ==> backend.got(k, read_file(files, #[trigger] record_file(backend.dir, k)))
                    == backend.got(k, read_file(start, record_file(backend.dir, k)))
        }),
{
    law_record_is_not_temporary(backend.dir, key, parent);
    law_destination_is_whole(
        record_file(backend.dir, key),
        parent,
        record,
        suffix,
        start,
        steps,
    );
    assert forall|k: Seq<char>| k != key implies #[trigger] record_file(backend.dir, k)
        != record_file(backend.dir, key) by {
        if record_file(backend.dir, k) == record_file(backend.dir, key) {
            law_records_do_not_collide(backend.dir, k, key);
        }
    }
}

/// As long as the write of a record has not succeeded, and where it fails, every
/// key reads as before, the one that was to be set among them.
pub proof fn law_failed_set_changes_no_secret(
    backend: FileBackendView,
    key: Seq<char>,
    record: Seq<u8>,
    parent: Seq<u8>,
    suffix: u64,
    start: Files,
    steps: Seq<WriteStep>,
    k: Seq<char>,
)
    requires
        ({
            let write = AtomicWriteView::start(
                record_file(backend.dir, key),
                parent,
                record,
                suffix,
            );
            is_run(write, start, steps) && state_after(write, steps).stage !is Succeeded
        }),
    ensures
        backend.got(k, read_file(files_after(start, steps), record_file(backend.dir, k)))
            == backend.got(k, read_file(start, record_file(backend.dir, k))),
{
    law_record_is_not_temporary(backend.dir, key, parent);
    law_record_is_not_temporary(backend.dir, k, parent);
    law_destination_is_whole(
        record_file(backend.dir, key),
        parent,
        record,
        suffix,
        start,
        steps,
    );
    let files = files_after(start, steps);
    let path = record_file(backend.dir, k);
    assert(files.dom().contains(path) == start.dom().contains(path));
}

/// Once the file of `key` is removed, there is no secret under `key`; the
/// other keys read as before.
pub proof fn law_delete_then_get(backend: FileBackendView, key: Seq<char>, start: Files)
    ensures
        ({
            let files = start.remove(record_file(backend.dir, key));
            &&& backend.got(key, read_file(files, record_file(backend.dir, key))) == Err::<
                Seq<u8>,
                SecretErrorView,
            >(SecretErrorView::NotFound)
            &&& forall|k: Seq<char>|
                k != key ==> backend.got(k, read_file(files, #[trigger] record_file(backend.dir, k)))
                    == backend.got(k, read_file(start, record_file(backend.dir, k)))
        }),
{
    assert forall|k: Seq<char>| k != key implies #[trigger] record_file(backend.dir, k)
        != record_file(backend.dir, key) by {
        if record_file(backend.dir, k) == record_file(backend.dir, key) {
            law_records_do_not_collide(backend.dir, k, key);
        }
    }
}

/// A store that is opened again in the same directory, with the same master
/// key, reads what the first one reads, under every key.
pub proof fn law_reopened_store_reads_alike(
    first: FileBackendView,
    second: FileBackendView,
    key: Seq<char>,
    files: Files,
)
    requires
        first.dir == second.dir,
        first.master_key == second.master_key,
    ensures
        first.got(key, read_file(files, record_file(first.dir, key))) == second.got(
            key,
            read_file(files, record_file(second.dir, key)),
        ),
{
}

/// Writing records leaves the file of the master key as it is, however far the
/// write has come.
pub proof fn law_set_keeps_master_key(
    backend: FileBackendView,
    key: Seq<char>,
    record: Seq<u8>,
    parent: Seq<u8>,
    suffix: u64,
    start: Files,
    steps: Seq<WriteStep>,
)
    requires
        start.dom().contains(master_key_file(backend.dir)),
        is_run(
            AtomicWriteView::start(record_file(backend.dir, key), parent, record, suffix),
            start,
            steps,
        ),
    ensures
        files_after(start, steps).dom().contains(master_key_file(backend.dir)),
        files_after(start, steps)[master_key_file(backend.dir)] == start[master_key_file(
            backend.dir,
        )],
{
    law_record_is_not_temporary(backend.dir, key, parent);
    law_record_is_not_master_key(backend.dir, key);
    law_destination_is_whole(
        record_file(backend.dir, key),
        parent,
        record,
        suffix,
        start,
        steps,
    );
}

/// Whatever is wrong with a record that has a nonce, be it the master key, the
/// key that it is bound to or any of its bytes: if it does not decrypt, the
/// error is one and the same.
pub proof fn law_refusals_are_alike(
    a_master: Seq<u8>,
    a_key: Seq<char>,
    a: Seq<u8>,
    b_master: Seq<u8>,
    b_key: Seq<char>,
    b: Seq<u8>,
)
    requires
        a_master.len() == KEY_LEN && b_master.len() == KEY_LEN,
        a.len() >= NONCE_LEN && b.len() >= NONCE_LEN,
        decrypted(a_master, a_key, a) is Err,
        decrypted(b_master, b_key, b) is Err,
    ensures
        decrypted(a_master, a_key, a) == decrypted(b_master, b_key, b),
        decrypted(a_master, a_key, a) == Err::<Seq<u8>, SecretErrorView>(refused()),
{
}

/// Every value that the cipher takes can be set, under every key and with every
/// nonce. The record is the nonce, followed by what the cipher makes of the
/// value under the master key, with the key's UTF-8 bytes as associated data.
pub proof fn law_every_value_can_be_set(
    master_key: Seq<u8>,
    key: Seq<char>,
    value: Seq<u8>,
    nonce: Seq<u8>,
)
    requires
        nonce.len() == 24,
    ensures
        encrypted(master_key, key, value, nonce) is Ok <==> master_key.len() == 32 && value.len()
            <= 0x3f_ffff_ff80,
        encrypted(master_key, key, value, nonce) matches Ok(record) ==> record.take(24) == nonce
            && record.skip(24) == aead_seal(master_key, nonce, encode_utf8(key), value),
        master_key.len() != 32 ==> encrypted(master_key, key, value, nonce) == Err::<
            Seq<u8>,
            SecretErrorView,
        >(SecretErrorView::Other("master key has invalid length for XChaCha20Poly1305"@)),
        master_key.len() == 32 && value.len() > 0x3f_ffff_ff80 ==> encrypted(
            master_key,
            key,
            value,
            nonce,
        ) == Err::<Seq<u8>, SecretErrorView>(SecretErrorView::Other("failed to encrypt secret"@)),
{
    if let Ok(record) = encrypted(master_key, key, value, nonce) {
        assert(record.take(24) =~= nonce);
        assert(record.skip(24) =~= aead_seal(master_key, nonce, encode_utf8(key), value));
    }
}

/// A record is read as the cipher opens it: its first bytes are the nonce, and
/// the rest is opened under the master key, with the key's UTF-8 bytes as
/// associated data. Whatever the cipher gives is the value.
pub proof fn law_record_is_read_by_cipher(
    master_key: Seq<u8>,
    key: Seq<char>,
    nonce: Seq<u8>,
    ciphertext: Seq<u8>,
)
    requires
        nonce.len() == 24,
    ensures
        ({
            let read = decrypted(master_key, key, nonce + ciphertext);
            let opened = aead_open(master_key, nonce, encode_utf8(key), ciphertext);
            &&& read is Ok <==> master_key.len() == 32 && opened is Some
            &&& read matches Ok(value) ==> opened == Some(value)
            &&& master_key.len() != 32 ==> read == Err::<Seq<u8>, SecretErrorView>(
                SecretErrorView::Other("master key has invalid length for XChaCha20Poly1305"@),
            )
            &&& master_key.len() == 32 && opened is None ==> read == Err::<
                Seq<u8>,
                SecretErrorView,
            >(
                SecretErrorView::Other(
                    "failed to decrypt secret (tampered ciphertext, wrong key, or record moved to a different key)"@,
                ),
            )
        }),
{
    let record = nonce + ciphertext;
    assert(record.take(24) =~= nonce);
    assert(record.skip(24) =~= ciphertext);
}

/// A record that is shorter than a nonce is refused as such, and no other is.
pub proof fn law_short_records_are_truncated(
    master_key: Seq<u8>,
    key: Seq<char>,
    record: Seq<u8>,
)
    ensures
        record.len() < 24 <==> decrypted(master_key, key, record) == Err::<
            Seq<u8>,
            SecretErrorView,
        >(SecretErrorView::Other("secret record is truncated"@)),
{
    reveal_strlit("secret record is truncated");
    reveal_strlit("master key has invalid length for XChaCha20Poly1305");
    reveal_strlit(
        "failed to decrypt secret (tampered ciphertext, wrong key, or record moved to a different key)",
    );
    assert("secret record is truncated"@[0] == 's');
    assert("master key has invalid length for XChaCha20Poly1305"@[0] == 'm');
    assert("failed to decrypt secret (tampered ciphertext, wrong key, or record moved to a different key)"@[0]
        == 'f');
}

/// A key has no secret exactly if there is no file of its record. Another
/// failure to read or remove the file is told with the file and the reason.
pub proof fn law_only_missing_files_are_not_found(
    backend: FileBackendView,
    key: Seq<char>,
    kind: IoErrorKind,
    reason: Seq<char>,
    record: Seq<u8>,
)
    ensures
        ({
            let file = lossy_text(record_file(backend.dir, key));
            let got = backend.got(key, Err((kind, reason)));
            let deleted = backend.deleted(key, Err((kind, reason)));
            &&& kind == IoErrorKind::NotFound ==> got == Err::<Seq<u8>, SecretErrorView>(
                SecretErrorView::NotFound,
            ) && deleted == Err::<(), SecretErrorView>(SecretErrorView::NotFound)
            &&& kind != IoErrorKind::NotFound ==> got == Err::<Seq<u8>, SecretErrorView>(
                SecretErrorView::Other(
                    "failed to read secret file "@ + file + ": "@ + reason,
                ),
            )
            &&& kind != IoErrorKind::NotFound ==> deleted == Err::<(), SecretErrorView>(
                SecretErrorView::Other(
                    "failed to delete secret file "@ + file + ": "@ + reason,
                ),
            )
            &&& backend.got(key, Ok(record)) != Err::<Seq<u8>, SecretErrorView>(
                SecretErrorView::NotFound,
            )
            &&& backend.got(key, Ok(record)) == decrypted(backend.master_key, key, record)
            &&& backend.deleted(key, Ok(())) is Ok
        }),
{
}

/// The name of a record spells its key: two hexadecimal digits for each UTF-8
/// byte, the higher one first, and `.secret` behind them.
pub proof fn law_record_name_spells_key(key: Seq<char>)
    ensures
        ({
            let bytes = encode_utf8(key);
            let name = record_name(key);
            &&& name.len() == 2 * bytes.len() + 7
            &&& name.skip(2 * bytes.len() as int) == ".secret"@
            &&& forall|i: int|
                0 <= i < bytes.len() ==> #[trigger] bytes[i] as int == 16 * digit_value(name[2 * i])
                    + digit_value(name[2 * i + 1])
            &&& forall|i: int| 0 <= i < 2 * bytes.len() ==> is_hex_digit(#[trigger] name[i])
        }),
{
    reveal_strlit(".secret");
    let bytes = encode_utf8(key);
    let name = record_name(key);
    law_hex_spells_bytes(bytes);
    assert(name.skip(2 * bytes.len() as int) =~= ".secret"@);
    assert forall|i: int| 0 <= i < 2 * bytes.len() implies is_hex_digit(#[trigger] name[i]) by {
        assert(name[i] == hex(bytes)[i]);
    }
    assert forall|i: int| 0 <= i < bytes.len() implies #[trigger] bytes[i] as int == 16
        * digit_value(name[2 * i]) + digit_value(name[2 * i + 1]) by {
        assert(name[2 * i] == hex(bytes)[2 * i]);
        assert(name[2 * i + 1] == hex(bytes)[2 * i + 1]);
    }
}

/// What a store keeps lies in its directory: the record of a key under the
/// record's name, and the master key as `master.key`. One separator stands in
/// front of the name.
pub proof fn law_files_of_store(dir: Seq<u8>, key: Seq<char>)
    requires
        dir.len() > 0,
    ensures
        dir.last() != 0x2f ==> record_file(dir, key) == dir + seq![0x2fu8] + encode_utf8(
            record_name(key),
        ),
        dir.last() == 0x2f ==> record_file(dir, key) == dir + encode_utf8(record_name(key)),
        dir.last() != 0x2f ==> master_key_file(dir) == dir + seq![0x2fu8] + encode_utf8(
            "master.key"@,
        ),
        dir.last() == 0x2f ==> master_key_file(dir) == dir + encode_utf8("master.key"@),
{
    lemma_record_name(key);
    let name = encode_utf8(record_name(key));
    assert(name.contains(name[0]));
    reveal_strlit("master.key");
    is_ascii_chars_encode_utf8("master.key"@);
    assert(encode_utf8("master.key"@)[0] == 'm' as u8);
    assert(dir.push(SEPARATOR) =~= dir + seq![0x2fu8]);
}

/// A directory that a store asks for is all its owner's and nobody else's, and a
/// failure to make it is told with the directory and the reason.
pub proof fn law_directory_is_private<C: FnOnce(Vec<u8>, u32) -> Result<(), IoFailure>>(
    create: C,
    dir: Seq<u8>,
    made: Result<(), IoFailure>,
    reason: Seq<char>,
)
    ensures
        dir_made(create, dir, made) <==> exists|path: Vec<u8>|
            path@ == dir && #[trigger] call_ensures(create, (path, 0o700u32), made),
        dir_failure(dir, reason) == SecretErrorView::Other(
            "failed to create directory "@ + lossy_text(dir) + ": "@ + reason,
        ),
{
}

/// What came of reading or removing a file is seen as what it is: a value by its
/// view, and a failure by its kind and its words.
pub proof fn law_io_results_are_seen_whole<T: View>(r: Result<T, IoFailure>)
    ensures
        r matches Ok(value) ==> io_view(r) == Ok::<T::V, (IoErrorKind, Seq<char>)>(value@),
        r matches Err(failure) ==> io_view(r) == Err::<T::V, (IoErrorKind, Seq<char>)>(
            (failure.kind, failure.message@),
        ),
{
}

} // verus!
