//! Bits of the mask that encoding detection returns; several encodings may
//! be possible at once.

use vstd::prelude::*;

verus! {

pub const UTF8: i32 = 1;

pub const UTF16_LE: i32 = 2;

pub const UTF16_BE: i32 = 4;

pub const UTF32_LE: i32 = 8;

pub const UTF32_BE: i32 = 16;

pub const LATIN1: i32 = 32;

} // verus!
