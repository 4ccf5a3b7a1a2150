//! A string-keyed table of opaque, pointer-sized values, made for a call
//! boundary at which both the table and the key may be absent.
//!
//! The caller creates a table, stores, reads and removes values under text
//! keys handed over as bytes, and gives the table back when done. The table is
//! a pure association: it keeps the values it is given and hands them back
//! unchanged, and it never looks behind one.
//!
//! Every operation is total. What goes wrong at the boundary (an absent table,
//! an absent key, key bytes that are not text) is answered with a status code,
//! or on reads with the null value, and leaves the table as it was.

pub mod key;
pub mod laws;
pub mod status;
pub mod table;

pub use key::key_of;
pub use status::{INVALID_KEY_ENCODING, NOT_FOUND, NULL_ARGUMENT, STATUS_OK};
pub use table::{hmap, hmap_create, hmap_destroy, hmap_get, hmap_put, hmap_remove, NULL_VALUE};
