//! Byte-size constants used throughout the upload engine.
use vstd::prelude::*;

verus! {

/// One kibibyte in bytes.
pub const KIBIBYTE: u64 = 1024;

/// One mebibyte in bytes.
pub const MEBIBYTE: u64 = 1024 * 1024;

/// One gibibyte in bytes.
pub const GIBIBYTE: u64 = 1024 * 1024 * 1024;

} // verus!
