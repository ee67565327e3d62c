//! Validation of the book-creation form: each field is checked
//! independently, with no short-circuiting, and the result carries one
//! optional message per field.

use vstd::prelude::*;
use vstd::string::StrSliceExecFns;
use vstd::string::StringExecFns;

use crate::text::{count_digits, digit_count, parse_u32, parse_u32_spec, trim_spec, trim_str};
use crate::{AUTHOR_MAX_CHARS, PRICE_MAX, PUBLISHER_MAX_CHARS, TITLE_MAX_CHARS};

verus! {

/// One optional message per form field; a field is in error exactly when its
/// message is present.
#[derive(Debug)]
pub struct BookFormErrors {
    pub title: Option<String>,
    pub author: Option<String>,
    pub publisher: Option<String>,
    pub price: Option<String>,
    pub isbn: Option<String>,
}

/// The message of one field's error, as a character sequence.
pub open spec fn msg_view(o: Option<String>) -> Option<Seq<char>> {
    match o {
        Some(s) => Some(s@),
        None => None,
    }
}

/// The message reported for a missing required field.
pub open spec fn msg_required() -> Seq<char> {
    "required"@
}

/// The message reported for a string field over its length bound.
pub open spec fn msg_too_long() -> Seq<char> {
    "too long"@
}

/// The message reported when the price text does not parse as an integer.
pub open spec fn msg_price_not_integer() -> Seq<char> {
    "must be a positive integer"@
}

/// The message reported for a price of zero.
pub open spec fn msg_price_zero() -> Seq<char> {
    "must be greater than 0"@
}

/// The message reported for a price over the bound.
pub open spec fn msg_price_too_large() -> Seq<char> {
    "must not exceed 1,000,000"@
}

/// The message reported for an ISBN whose digits do not number 10 or 13.
pub open spec fn msg_isbn_format() -> Seq<char> {
    "must be 10 or 13 digits (hyphens allowed)"@
}

/// The error, if any, for a required string field bounded by `max`
/// characters: trimmed, it must be non-empty and within the bound.
pub open spec fn text_field_error(s: Seq<char>, max: int) -> Option<Seq<char>> {
    let t = trim_spec(s);
    if t.len() == 0 {
        Some(msg_required())
    } else if t.len() > max {
        Some(msg_too_long())
    } else {
        None
    }
}

/// The title's validation error, if any.
pub open spec fn title_error(s: Seq<char>) -> Option<Seq<char>> {
    text_field_error(s, TITLE_MAX_CHARS as int)
}

/// The author's validation error, if any.
pub open spec fn author_error(s: Seq<char>) -> Option<Seq<char>> {
    text_field_error(s, AUTHOR_MAX_CHARS as int)
}

/// The publisher's validation error, if any.
pub open spec fn publisher_error(s: Seq<char>) -> Option<Seq<char>> {
    text_field_error(s, PUBLISHER_MAX_CHARS as int)
}

/// The price's validation error, if any: the trimmed text must be non-empty,
/// parse as an unsigned integer, and lie between 1 and [`PRICE_MAX`].
pub open spec fn price_error(s: Seq<char>) -> Option<Seq<char>> {
    let t = trim_spec(s);
    if t.len() == 0 {
        Some(msg_required())
    } else {
        match parse_u32_spec(t) {
            None => Some(msg_price_not_integer()),
            Some(v) => if v == 0 {
                Some(msg_price_zero())
            } else if v > PRICE_MAX {
                Some(msg_price_too_large())
            } else {
                None
            },
        }
    }
}

/// The ISBN has an acceptable shape: its ASCII digits, separators aside,
/// number exactly 10 or 13.
pub open spec fn isbn_format_ok(s: Seq<char>) -> bool {
    digit_count(s) == 10 || digit_count(s) == 13
}

/// The ISBN's validation error, if any: the trimmed text must be non-empty
/// and of an acceptable shape.
pub open spec fn isbn_error(s: Seq<char>) -> Option<Seq<char>> {
    let t = trim_spec(s);
    if t.len() == 0 {
        Some(msg_required())
    } else if !isbn_format_ok(t) {
        Some(msg_isbn_format())
    } else {
        None
    }
}

impl BookFormErrors {
    /// A result with no message on any field.
    pub fn empty() -> (r: BookFormErrors)
        ensures
            r.title is None,
            r.author is None,
            r.publisher is None,
            r.price is None,
            r.isbn is None,
    {
        BookFormErrors { title: None, author: None, publisher: None, price: None, isbn: None }
    }

    /// Whether at least one field has a message.
    pub fn has_errors(&self) -> (r: bool)
        ensures
            r == (self.title is Some || self.author is Some || self.publisher is Some
                || self.price is Some || self.isbn is Some),
    {
        self.title.is_some() || self.author.is_some() || self.publisher.is_some()
            || self.price.is_some() || self.isbn.is_some()
    }
}

fn check_text_field(s: &str, max: usize) -> (r: Option<String>)
    ensures
        msg_view(r) == text_field_error(s@, max as int),
{
    let t = trim_str(s);
    let len = t.as_str().unicode_len();
    if len == 0 {
        Some(String::from_str("required"))
    } else if len > max {
        Some(String::from_str("too long"))
    } else {
        None
    }
}

/// Validates the raw form fields. Every rule runs regardless of earlier
/// failures; the result carries, per field, exactly the error that the
/// field's rule assigns.
pub fn validate_book_form(
    title: &str,
    author: &str,
    publisher: &str,
    price_str: &str,
    isbn: &str,
) -> (r: BookFormErrors)
    ensures
        msg_view(r.title) == title_error(title@),
        msg_view(r.author) == author_error(author@),
        msg_view(r.publisher) == publisher_error(publisher@),
        msg_view(r.price) == price_error(price_str@),
        msg_view(r.isbn) == isbn_error(isbn@),
{
    let title_err = check_text_field(title, TITLE_MAX_CHARS);
    let author_err = check_text_field(author, AUTHOR_MAX_CHARS);
    let publisher_err = check_text_field(publisher, PUBLISHER_MAX_CHARS);

    let price_trimmed = trim_str(price_str);
    let price_err: Option<String> = if price_trimmed.as_str().unicode_len() == 0 {
        Some(String::from_str("required"))
    } else {
        match parse_u32(price_trimmed.as_str()) {
            None => Some(String::from_str("must be a positive integer")),
            Some(v) => if v == 0 {
                Some(String::from_str("must be greater than 0"))
            } else if v > PRICE_MAX {
                Some(String::from_str("must not exceed 1,000,000"))
            } else {
                None
            },
        }
    };

    let isbn_trimmed = trim_str(isbn);
    let isbn_err: Option<String> = if isbn_trimmed.as_str().unicode_len() == 0 {
        Some(String::from_str("required"))
    } else if !is_valid_isbn_format(isbn_trimmed.as_str()) {
        Some(String::from_str("must be 10 or 13 digits (hyphens allowed)"))
    } else {
        None
    };

    BookFormErrors {
        title: title_err,
        author: author_err,
        publisher: publisher_err,
        price: price_err,
        isbn: isbn_err,
    }
}

/// Whether `isbn` contains exactly 10 or 13 ASCII digits, every other
/// character being ignored as a separator.
pub fn is_valid_isbn_format(isbn: &str) -> (r: bool)
    ensures
        r == isbn_format_ok(isbn@),
{
    let digits = count_digits(isbn);
    digits == 10 || digits == 13
}

/// Validation accepts a form — assigns no field an error — exactly when the
/// trimmed title, author and publisher are non-empty and within their length
/// bounds, the trimmed price text parses to an integer between 1 and
/// [`PRICE_MAX`], and the trimmed ISBN's digits number 10 or 13.
pub proof fn lemma_validate_ok_iff(
    title: Seq<char>,
    author: Seq<char>,
    publisher: Seq<char>,
    price_str: Seq<char>,
    isbn: Seq<char>,
)
    ensures
        (title_error(title) is None && author_error(author) is None && publisher_error(publisher)
            is None && price_error(price_str) is None && isbn_error(isbn) is None) <==> {
            &&& 1 <= trim_spec(title).len() <= TITLE_MAX_CHARS
            &&& 1 <= trim_spec(author).len() <= AUTHOR_MAX_CHARS
            &&& 1 <= trim_spec(publisher).len() <= PUBLISHER_MAX_CHARS
            &&& (parse_u32_spec(trim_spec(price_str)) matches Some(v) && 1 <= v <= PRICE_MAX)
            &&& trim_spec(isbn).len() >= 1
            &&& isbn_format_ok(trim_spec(isbn))
        },
{
    if parse_u32_spec(trim_spec(price_str)) is Some {
        crate::text::lemma_parse_some_nonempty(trim_spec(price_str));
    }
}

} // verus!
