//! The creation controller: holds the form's raw field texts, validates
//! them before any submission, hands a validated form to the caller to
//! persist, and tracks the lifecycle of one creation attempt — idle,
//! submitting, succeeded, or failed.

use vstd::prelude::*;
use vstd::pervasive::unreached;
use vstd::string::StringExecFns;

use crate::books::{submittable, Book, CreateBookForm};
use crate::text::{parse_u32, parse_u32_spec, trim_spec, trim_str};
use crate::validation::{
    author_error, isbn_error, msg_view, price_error, publisher_error, title_error,
    validate_book_form, BookFormErrors,
};

verus! {

/// The lifecycle of one creation attempt.
pub enum SubmitState {
    Idle,
    Submitting,
    Success(Book),
    Error(String),
}

/// One of the form's five fields.
pub enum FormField {
    Title,
    Author,
    Publisher,
    Price,
    Isbn,
}

/// The form's state: the raw text of each field, the errors shown beside
/// them, and where the current creation attempt stands.
pub struct CreationController {
    pub title: String,
    pub author: String,
    pub publisher: String,
    pub price_text: String,
    pub isbn: String,
    pub errors: BookFormErrors,
    pub state: SubmitState,
}

/// While an attempt is in flight or has succeeded, the controls are
/// disabled: submitting again must change nothing.
pub open spec fn guarded(s: SubmitState) -> bool {
    s is Submitting || s is Success
}

/// A failed attempt clears back to idle on the next user action; any other
/// state stands.
pub open spec fn after_user_action(s: SubmitState) -> SubmitState {
    if s is Error {
        SubmitState::Idle
    } else {
        s
    }
}

/// Validation assigns no field of this form an error.
pub open spec fn form_ok(c: CreationController) -> bool {
    &&& title_error(c.title@) is None
    &&& author_error(c.author@) is None
    &&& publisher_error(c.publisher@) is None
    &&& price_error(c.price_text@) is None
    &&& isbn_error(c.isbn@) is None
}

/// How [`CreationController::edit`] transforms the controller: the edited
/// field takes the new text and its error — that one alone — is cleared
/// without re-validation; a failed attempt clears back to idle.
pub open spec fn edit_spec(c: CreationController, field: FormField, value: String) -> CreationController {
    let cleared = CreationController { state: after_user_action(c.state), ..c };
    match field {
        FormField::Title => (CreationController {
            title: value,
            errors: BookFormErrors { title: None, ..c.errors },
            ..cleared
        }),
        FormField::Author => (CreationController {
            author: value,
            errors: BookFormErrors { author: None, ..c.errors },
            ..cleared
        }),
        FormField::Publisher => (CreationController {
            publisher: value,
            errors: BookFormErrors { publisher: None, ..c.errors },
            ..cleared
        }),
        FormField::Price => (CreationController {
            price_text: value,
            errors: BookFormErrors { price: None, ..c.errors },
            ..cleared
        }),
        FormField::Isbn => (CreationController {
            isbn: value,
            errors: BookFormErrors { isbn: None, ..c.errors },
            ..cleared
        }),
    }
}

/// The message shown for a failed attempt: a fixed preamble with the
/// persistence layer's detail appended.
pub open spec fn failure_message(detail: Seq<char>) -> Seq<char> {
    "could not save the book: "@ + detail
}

impl CreationController {
    /// A blank form: empty fields, no errors, no attempt under way.
    pub fn new() -> (r: CreationController)
        ensures
            r.title@ == Seq::<char>::empty(),
            r.author@ == Seq::<char>::empty(),
            r.publisher@ == Seq::<char>::empty(),
            r.price_text@ == Seq::<char>::empty(),
            r.isbn@ == Seq::<char>::empty(),
            r.errors.title is None,
            r.errors.author is None,
            r.errors.publisher is None,
            r.errors.price is None,
            r.errors.isbn is None,
            r.state is Idle,
    {
        CreationController {
            title: String::new(),
            author: String::new(),
            publisher: String::new(),
            price_text: String::new(),
            isbn: String::new(),
            errors: BookFormErrors::empty(),
            state: SubmitState::Idle,
        }
    }

    /// The user edits one field.
    pub fn edit(&mut self, field: FormField, value: String)
        ensures
            *final(self) == edit_spec(*old(self), field, value),
    {
        if matches!(self.state, SubmitState::Error(_)) {
            self.state = SubmitState::Idle;
        }
        match field {
            FormField::Title => {
                self.title = value;
                self.errors.title = None;
            },
            FormField::Author => {
                self.author = value;
                self.errors.author = None;
            },
            FormField::Publisher => {
                self.publisher = value;
                self.errors.publisher = None;
            },
            FormField::Price => {
                self.price_text = value;
                self.errors.price = None;
            },
            FormField::Isbn => {
                self.isbn = value;
                self.errors.isbn = None;
            },
        }
    }

    /// The user retries after a failure: a failed attempt clears back to
    /// idle, anything else is left as it is.
    pub fn retry(&mut self)
        ensures
            *final(self) == (CreationController { state: after_user_action(old(self).state), ..*old(
                self,
            ) }),
    {
        if matches!(self.state, SubmitState::Error(_)) {
            self.state = SubmitState::Idle;
        }
    }

    /// The user submits the form. While an attempt is in flight or has
    /// succeeded this is a no-op. Otherwise the fields are validated: on
    /// any error the attempt stays idle, the per-field errors are surfaced
    /// and nothing is handed out; on none, the attempt turns to
    /// `Submitting` and the validated form — price parsed from its text —
    /// is returned for the caller to persist.
    pub fn submit(&mut self) -> (r: Option<CreateBookForm>)
        ensures
            guarded(old(self).state) ==> *final(self) == *old(self) && r is None,
            !guarded(old(self).state) ==> {
                &&& final(self).title == old(self).title
                &&& final(self).author == old(self).author
                &&& final(self).publisher == old(self).publisher
                &&& final(self).price_text == old(self).price_text
                &&& final(self).isbn == old(self).isbn
                &&& msg_view(final(self).errors.title) == title_error(old(self).title@)
                &&& msg_view(final(self).errors.author) == author_error(old(self).author@)
                &&& msg_view(final(self).errors.publisher) == publisher_error(
                    old(self).publisher@,
                )
                &&& msg_view(final(self).errors.price) == price_error(old(self).price_text@)
                &&& msg_view(final(self).errors.isbn) == isbn_error(old(self).isbn@)
                &&& (r is Some <==> form_ok(*old(self)))
            },
            !guarded(old(self).state) && !form_ok(*old(self)) ==> final(self).state is Idle,
            !guarded(old(self).state) && form_ok(*old(self)) ==> {
                &&& final(self).state is Submitting
                &&& (r matches Some(f) ==> {
                    &&& f.title == old(self).title
                    &&& f.author == old(self).author
                    &&& f.publisher == old(self).publisher
                    &&& f.isbn == old(self).isbn
                    &&& Some(f.price) == parse_u32_spec(trim_spec(old(self).price_text@))
                    &&& submittable(f@)
                })
            },
    {
        match self.state {
            SubmitState::Submitting => {
                return None;
            },
            SubmitState::Success(_) => {
                return None;
            },
            _ => {},
        }
        let errors = validate_book_form(
            self.title.as_str(),
            self.author.as_str(),
            self.publisher.as_str(),
            self.price_text.as_str(),
            self.isbn.as_str(),
        );
        if errors.has_errors() {
            self.errors = errors;
            self.state = SubmitState::Idle;
            None
        } else {
            let price_trimmed = trim_str(self.price_text.as_str());
            let price = match parse_u32(price_trimmed.as_str()) {
                Some(v) => v,
                None => unreached(),
            };
            let form = CreateBookForm {
                title: self.title.clone(),
                author: self.author.clone(),
                publisher: self.publisher.clone(),
                price,
                isbn: self.isbn.clone(),
            };
            self.errors = errors;
            self.state = SubmitState::Submitting;
            Some(form)
        }
    }

    /// The persistence layer answers the attempt in flight. Success keeps
    /// the created book for the view — the caller then schedules the
    /// delayed return to the search view; failure keeps a message carrying
    /// the persistence detail, which the user clears by editing or
    /// retrying.
    pub fn resolve(&mut self, outcome: Result<Book, String>)
        requires
            old(self).state is Submitting,
        ensures
            final(self).title == old(self).title,
            final(self).author == old(self).author,
            final(self).publisher == old(self).publisher,
            final(self).price_text == old(self).price_text,
            final(self).isbn == old(self).isbn,
            final(self).errors == old(self).errors,
            (outcome matches Ok(b) ==> final(self).state == SubmitState::Success(b)),
            (outcome matches Err(d) ==> final(self).state matches SubmitState::Error(m)
                && m@ == failure_message(d@)),
    {
        match outcome {
            Ok(book) => {
                self.state = SubmitState::Success(book);
            },
            Err(detail) => {
                let mut message = String::from_str("could not save the book: ");
                message.append(detail.as_str());
                self.state = SubmitState::Error(message);
            },
        }
    }
}

} // verus!
