//! Defaults and bounds of the one-byte parameters.

use std::ops::Range;
use vstd::prelude::*;

verus! {

pub const BLOCK_SIZE: u8 = 64;

pub const KEYED_HASH_SIZE: u8 = 32;

pub const IV_SIZE: u8 = 8;

pub const TAG_SIZE: u8 = 16;

pub const BLOCK_SIZE_RANGE: Range<u8> = 4..u8::MAX;

pub const KEYED_HASH_SIZE_RANGE: Range<u8> = 32..u8::MAX;

pub const IV_SIZE_RANGE: Range<u8> = 8..u8::MAX;

pub const TAG_SIZE_RANGE: Range<u8> = 16..u8::MAX;

/// Least key length, in bytes.
pub const MIN_KEY_SIZE: usize = 16;

} // verus!
