//! A version bridge: the native side of the process exposes a version
//! accessor that yields a null-terminated byte sequence, and a managed host
//! runtime expects a string value back.  This library holds the part of that
//! hand-off that can be reasoned about: interpreting the native bytes as
//! UTF-8 text, masking an invalid encoding with the literal `"unknown"`, and
//! supplying the literal `"error"` for a host whose own string construction
//! failed.  The host calling convention itself stays outside the library.

pub mod bridge;
pub mod encoding;
