//! A small book-catalog library: form validation, an in-memory book store
//! with substring search, and the state machines that drive a live search
//! view and a creation form.

use vstd::prelude::*;

pub mod books;
pub mod create;
pub mod search;
pub mod store;
pub mod text;
pub mod validation;

verus! {

/// Upper bound, in characters, on a book title after trimming.
pub const TITLE_MAX_CHARS: usize = 200;

/// Upper bound, in characters, on a book author after trimming.
pub const AUTHOR_MAX_CHARS: usize = 100;

/// Upper bound, in characters, on a book publisher after trimming.
pub const PUBLISHER_MAX_CHARS: usize = 100;

/// Upper bound on a book price, in the catalog's currency unit.
pub const PRICE_MAX: u32 = 1000000;

} // verus!
