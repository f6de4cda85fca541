//! The verified core of the penguin daemon and its command-line client.
//!
//! Each module holds decisions and data transformations on plain values; the
//! code around the library performs the input and output.

pub mod cli;
pub mod daemon_main;
pub mod duration;
pub mod kv;
pub mod logging;
pub mod metadata;
pub mod otel;
pub mod paths;
pub mod secrets;
pub mod telemetry;
pub mod text;
