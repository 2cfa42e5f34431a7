//! Status codes returned by store operations.
//!
//! The codes form a one-byte enumeration: `OK` and `PENDING` are the two
//! successful issuance outcomes, `NOT_FOUND` reports an absent key, and the
//! remaining codes are terminal failures.
use vstd::prelude::*;

verus! {

pub const OK: u8 = 0;

pub const PENDING: u8 = 1;

pub const NOT_FOUND: u8 = 2;

pub const OUT_OF_MEMORY: u8 = 3;

pub const IO_ERROR: u8 = 4;

pub const CORRUPTION: u8 = 5;

pub const ABORTED: u8 = 6;

} // verus!
