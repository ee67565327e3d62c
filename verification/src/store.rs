//! An in-memory book store: the repository's search and insert semantics as
//! verified operations over a sequence of well-formed books. A
//! storage-backed deployment keeps the same contracts by construction: a
//! lookup asks for books whose title or author contains the query, an insert
//! appends a trimmed, freshly numbered book.

use vstd::prelude::*;
use vstd::string::StrSliceExecFns;
use vstd::string::StringExecFns;

use crate::books::{valid_book, submittable, Book, BookView, CreateBookForm};
use crate::text::{contains_substring, lemma_trim_idempotent, match_at, str_contains, trim_spec, trim_str};

verus! {

/// Configuration for a storage-backed deployment's connection pool: how
/// many concurrent connections it may hold, and how long an operation may
/// wait for one before failing with a persistence error.
pub struct DBOption {
    pub max_connections: u32,
    pub acquire_timeout: core::time::Duration,
}

/// A failure of the persistence layer, carrying its detail message.
#[derive(Debug)]
pub enum RepositoryError {
    Persistence(String),
}

impl RepositoryError {
    /// The detail message of the failure.
    pub fn detail(&self) -> (r: &String)
        ensures
            *self matches RepositoryError::Persistence(m) && r == m,
    {
        match self {
            RepositoryError::Persistence(m) => m,
        }
    }
}

/// The mathematical values of a sequence of books.
pub open spec fn views_of(s: Seq<Book>) -> Seq<BookView> {
    s.map_values(|b: Book| b@)
}

/// A book answers a query when its title or its author contains the query's
/// text as a substring. The query is always plain text, never pattern
/// syntax.
pub open spec fn matches_query(b: BookView, q: Seq<char>) -> bool {
    contains_substring(b.title, q) || contains_substring(b.author, q)
}

/// What a search returns: the whole catalog for an empty query, otherwise
/// the books that answer the query, in catalog order.
pub open spec fn search_spec(books: Seq<BookView>, q: Seq<char>) -> Seq<BookView> {
    if q.len() == 0 {
        books
    } else {
        books.filter(|b: BookView| matches_query(b, q))
    }
}

/// The books of the catalog, in storage order, with a counter for the next
/// identifier to assign.
pub struct BookStore {
    pub books: Vec<Book>,
    pub next_id: i32,
}

impl View for BookStore {
    type V = Seq<BookView>;

    open spec fn view(&self) -> Seq<BookView> {
        views_of(self.books@)
    }
}

impl BookStore {
    /// The store's invariant: every book is well formed, identifiers are
    /// distinct and all below the counter.
    pub open spec fn wf(&self) -> bool {
        &&& 1 <= self.next_id <= i32::MAX
        &&& forall|i: int| 0 <= i < self@.len() ==> valid_book(#[trigger] self@[i])
        &&& forall|i: int| 0 <= i < self@.len() ==> (#[trigger] self@[i].id) < self.next_id
        &&& forall|i: int, j: int|
            #![trigger self@[i].id, self@[j].id]
            0 <= i < j < self@.len() ==> self@[i].id != self@[j].id
    }

    /// An empty store; identifiers start at 1.
    pub fn new() -> (r: BookStore)
        ensures
            r.wf(),
            r@ == Seq::<BookView>::empty(),
            r.next_id == 1,
    {
        let r = BookStore { books: Vec::new(), next_id: 1 };
        proof {
            assert(r@ =~= Seq::<BookView>::empty());
        }
        r
    }

    /// Searches the catalog: an empty query returns every book, any other
    /// query the books whose title or author contains it, in catalog order.
    pub fn search(&self, query: &str) -> (r: Vec<Book>)
        ensures
            views_of(r@) == search_spec(self@, query@),
    {
        let mut out: Vec<Book> = Vec::new();
        let empty = query.unicode_len() == 0;
        let n = self.books.len();
        let mut i: usize = 0;
        while i < n
            invariant
                n == self.books.len(),
                0 <= i <= n,
                empty == (query@.len() == 0),
                views_of(out@) == search_spec(views_of(self.books@.subrange(0, i as int)), query@),
            decreases n - i,
        {
            let ghost prefix = views_of(self.books@.subrange(0, i as int));
            let b = &self.books[i];
            if empty || book_matches(b, query) {
                out.push(b.duplicate());
            }
            proof {
                assert(self.books@.subrange(0, i + 1) =~= self.books@.subrange(0, i as int).push(
                    self.books@[i as int],
                ));
                assert(views_of(self.books@.subrange(0, i + 1)) =~= prefix.push(
                    self.books@[i as int]@,
                ));
                if query@.len() != 0 {
                    lemma_filter_push(prefix, |b: BookView| matches_query(b, query@), self.books@[i as int]@);
                }
                assert(views_of(out@) =~= search_spec(
                    views_of(self.books@.subrange(0, i + 1)),
                    query@,
                ));
            }
            i = i + 1;
        }
        proof {
            assert(self.books@.subrange(0, n as int) =~= self.books@);
        }
        out
    }

    /// Inserts a validated form as a new book: its string fields trimmed,
    /// its identifier the store's counter. Fails, leaving the store
    /// unchanged, exactly when the identifier space is exhausted.
    pub fn create(&mut self, form: &CreateBookForm) -> (r: Result<Book, RepositoryError>)
        requires
            old(self).wf(),
            submittable(form@),
        ensures
            final(self).wf(),
            r is Ok <==> old(self).next_id < i32::MAX,
            (r matches Ok(b) ==> {
                &&& final(self)@ == old(self)@.push(b@)
                &&& final(self).next_id == old(self).next_id + 1
                &&& b@.id == old(self).next_id as int
                &&& b@.title == trim_spec(form@.title)
                &&& b@.author == trim_spec(form@.author)
                &&& b@.publisher == trim_spec(form@.publisher)
                &&& b@.price == form@.price
                &&& b@.isbn == trim_spec(form@.isbn)
                &&& valid_book(b@)
            }),
            (r is Err ==> *final(self) == *old(self)),
    {
        if self.next_id == i32::MAX {
            return Err(RepositoryError::Persistence(String::from_str("identifier space exhausted")));
        }
        let book = Book {
            id: self.next_id,
            title: trim_str(form.title.as_str()),
            author: trim_str(form.author.as_str()),
            publisher: trim_str(form.publisher.as_str()),
            price: form.price,
            isbn: trim_str(form.isbn.as_str()),
        };
        proof {
            lemma_trim_idempotent(form@.title);
            lemma_trim_idempotent(form@.author);
            lemma_trim_idempotent(form@.publisher);
            lemma_trim_idempotent(form@.isbn);
            assert(valid_book(book@));
        }
        let out = book.duplicate();
        let ghost before = self@;
        self.books.push(book);
        self.next_id = self.next_id + 1;
        proof {
            assert(self@ =~= before.push(out@));
        }
        Ok(out)
    }
}

/// Whether the book answers the query.
pub fn book_matches(b: &Book, query: &str) -> (r: bool)
    ensures
        r == matches_query(b@, query@),
{
    str_contains(b.title.as_str(), query) || str_contains(b.author.as_str(), query)
}

/// The containment pattern `%query%` that a storage-backed repository binds
/// as the sole parameter of its search statement, so the query text is data,
/// never statement syntax.
pub fn like_pattern(query: &str) -> (r: String)
    ensures
        r@ == seq!['%'] + query@ + seq!['%'],
{
    let mut p = String::from_str("%");
    p.append(query);
    p.append("%");
    proof {
        reveal_strlit("%");
        assert("%"@ =~= seq!['%']);
        assert(p@ =~= seq!['%'] + query@ + seq!['%']);
    }
    p
}

proof fn lemma_filter_push(s: Seq<BookView>, pred: spec_fn(BookView) -> bool, x: BookView)
    ensures
        s.push(x).filter(pred) == if pred(x) {
            s.filter(pred).push(x)
        } else {
            s.filter(pred)
        },
{
    reveal(Seq::filter);
    assert(s.push(x).drop_last() =~= s);
    assert(s.push(x).last() == x);
}

/// A book just added to the catalog is found again by searching for its
/// stored title: the new entry is among the results of that search.
pub proof fn lemma_created_book_found(books: Seq<BookView>, b: BookView)
    ensures
        search_spec(books.push(b), b.title).contains(b),
{
    let all = books.push(b);
    assert(all[books.len() as int] == b);
    if b.title.len() == 0 {
        assert(search_spec(all, b.title) == all);
        assert(all.contains(b));
    } else {
        assert(match_at(b.title, b.title, 0));
        assert(contains_substring(b.title, b.title));
        assert(matches_query(b, b.title));
        let pred = |bv: BookView| matches_query(bv, b.title);
        lemma_filter_push(books, pred, b);
        let f = books.filter(pred).push(b);
        assert(f[f.len() - 1] == b);
        assert(f.contains(b));
    }
}

} // verus!
