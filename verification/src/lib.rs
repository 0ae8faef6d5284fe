//! Verified core of a file-saving backend.
//!
//! A host application hands each save request over as plain values: a raw
//! byte payload and two transport-encoded headers, one carrying the
//! destination path and one the declared MIME type. The modules here decode
//! the headers, classify the declared type, transcode image payloads where
//! the type asks for it, and produce the bytes to write and the path to
//! write them at. The filesystem writes themselves stay outside the library.

pub mod headers;
pub mod mime;
pub mod save;
pub mod transcode;
