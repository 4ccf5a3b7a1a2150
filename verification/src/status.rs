//! The status codes that the writing operations answer with.

use vstd::prelude::*;

verus! {

/// The operation was carried out.
pub const STATUS_OK: i32 = 0;

/// The table or the key was absent. Nothing was changed.
pub const NULL_ARGUMENT: i32 = 1;

/// The key's bytes are not valid text. Nothing was changed.
pub const INVALID_KEY_ENCODING: i32 = 2;

/// The key is well formed, but the table holds no entry under it.
pub const NOT_FOUND: i32 = 3;

} // verus!
