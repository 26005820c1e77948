//! A fallible search over an ordered cursor of elements.
//!
//! The library offers one operation, [`find::TryFindExt::try_find`]: scan the
//! elements of a cursor in order, apply a fallible predicate to each, and stop
//! at the first element the predicate accepts or at the first predicate
//! failure. Elements up to and including the stopping element are consumed;
//! the cursor resumes right after it.

pub mod cursor;
pub mod find;
pub mod laws;

pub use crate::cursor::Cursor;
pub use crate::find::TryFindExt;
