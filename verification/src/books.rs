//! The catalog's data model: persisted books, the transient creation form,
//! and the well-formedness invariant that every persisted book satisfies.

use vstd::prelude::*;

use crate::text::{digit_count, trim_spec};
use crate::{AUTHOR_MAX_CHARS, PRICE_MAX, PUBLISHER_MAX_CHARS, TITLE_MAX_CHARS};

verus! {

/// A persisted catalog entry. The `id` is assigned by the store on creation;
/// the remaining fields are exactly what the creation form supplied, with
/// leading and trailing whitespace trimmed from the strings.
#[derive(Debug)]
pub struct Book {
    pub id: i32,
    pub title: String,
    pub author: String,
    pub publisher: String,
    pub price: u32,
    pub isbn: String,
}

/// The mathematical value of a [`Book`]: its strings as character sequences
/// and its numbers as unbounded integers.
pub struct BookView {
    pub id: int,
    pub title: Seq<char>,
    pub author: Seq<char>,
    pub publisher: Seq<char>,
    pub price: int,
    pub isbn: Seq<char>,
}

impl View for Book {
    type V = BookView;

    open spec fn view(&self) -> BookView {
        BookView {
            id: self.id as int,
            title: self.title@,
            author: self.author@,
            publisher: self.publisher@,
            price: self.price as int,
            isbn: self.isbn@,
        }
    }
}

impl Book {
    /// A field-for-field copy of the book.
    pub fn duplicate(&self) -> (r: Book)
        ensures
            r == *self,
    {
        Book {
            id: self.id,
            title: self.title.clone(),
            author: self.author.clone(),
            publisher: self.publisher.clone(),
            price: self.price,
            isbn: self.isbn.clone(),
        }
    }
}

/// The constraints every persisted book satisfies: trimmed, non-empty,
/// bounded strings, a price between 1 and [`PRICE_MAX`], and an ISBN whose
/// digits number exactly 10 or 13.
pub open spec fn valid_book(b: BookView) -> bool {
    &&& b.title == trim_spec(b.title) && 1 <= b.title.len() <= TITLE_MAX_CHARS
    &&& b.author == trim_spec(b.author) && 1 <= b.author.len() <= AUTHOR_MAX_CHARS
    &&& b.publisher == trim_spec(b.publisher) && 1 <= b.publisher.len() <= PUBLISHER_MAX_CHARS
    &&& 1 <= b.price <= PRICE_MAX
    &&& b.isbn == trim_spec(b.isbn)
    &&& (digit_count(b.isbn) == 10 || digit_count(b.isbn) == 13)
}

/// What a user submits to create a book: the same fields as a [`Book`] minus
/// the identifier, with the price already parsed to an integer.
#[derive(Debug)]
pub struct CreateBookForm {
    pub title: String,
    pub author: String,
    pub publisher: String,
    pub price: u32,
    pub isbn: String,
}

/// The mathematical value of a [`CreateBookForm`].
pub struct FormView {
    pub title: Seq<char>,
    pub author: Seq<char>,
    pub publisher: Seq<char>,
    pub price: int,
    pub isbn: Seq<char>,
}

impl View for CreateBookForm {
    type V = FormView;

    open spec fn view(&self) -> FormView {
        FormView {
            title: self.title@,
            author: self.author@,
            publisher: self.publisher@,
            price: self.price as int,
            isbn: self.isbn@,
        }
    }
}

/// A form that has passed validation: after trimming, every string field is
/// non-empty and within its bound, the price lies in range, and the ISBN's
/// digits number 10 or 13. Such a form may be handed to the store.
pub open spec fn submittable(f: FormView) -> bool {
    &&& 1 <= trim_spec(f.title).len() <= TITLE_MAX_CHARS
    &&& 1 <= trim_spec(f.author).len() <= AUTHOR_MAX_CHARS
    &&& 1 <= trim_spec(f.publisher).len() <= PUBLISHER_MAX_CHARS
    &&& 1 <= f.price <= PRICE_MAX
    &&& (digit_count(trim_spec(f.isbn)) == 10 || digit_count(trim_spec(f.isbn)) == 13)
}

} // verus!
