//! The encrypted-file secret store.

pub mod aead;
pub mod atomic_write;
pub mod error;
pub mod file_backend;

pub use error::{IoErrorKind, IoFailure, SecretError};
pub use file_backend::{FileBackend, MasterKey, SecretWrite};
