//! The book catalogue: records keyed by identifier, with a counter per
//! collection that hands out identifiers in increasing order.

use crate::text::{matches_ignoring_case, title_matches};
use std::collections::HashMap;
use vstd::prelude::*;

verus! {

broadcast use vstd::std_specs::hash::group_hash_axioms;

/// A book of the catalogue.
#[derive(Debug)]
pub struct Book {
    pub id: u64,
    pub title: String,
    pub author: String,
    pub year: u32,
}

/// What a [`Book`] holds, with its texts as character sequences.
pub ghost struct BookView {
    pub id: u64,
    pub title: Seq<char>,
    pub author: Seq<char>,
    pub year: u32,
}

impl View for Book {
    type V = BookView;

    open spec fn view(&self) -> BookView {
        BookView { id: self.id, title: self.title@, author: self.author@, year: self.year }
    }
}

impl Clone for Book {
    fn clone(&self) -> (r: Book)
        ensures
            r@ == self@,
    {
        Book {
            id: self.id,
            title: self.title.clone(),
            author: self.author.clone(),
            year: self.year,
        }
    }
}

/// An author of the catalogue.
#[derive(Debug)]
pub struct Author {
    pub id: u64,
    pub name: String,
    pub bio: String,
}

/// What an [`Author`] holds, with its texts as character sequences.
pub ghost struct AuthorView {
    pub id: u64,
    pub name: Seq<char>,
    pub bio: Seq<char>,
}

impl View for Author {
    type V = AuthorView;

    open spec fn view(&self) -> AuthorView {
        AuthorView { id: self.id, name: self.name@, bio: self.bio@ }
    }
}

impl Clone for Author {
    fn clone(&self) -> (r: Author)
        ensures
            r@ == self@,
    {
        Author { id: self.id, name: self.name.clone(), bio: self.bio.clone() }
    }
}

/// The books a fresh catalogue starts with.
pub open spec fn seed_books() -> Map<u64, BookView> {
    Map::<u64, BookView>::empty().insert(
        1,
        BookView {
            id: 1,
            title: "The Rust Programming Language"@,
            author: "Steve Klabnik"@,
            year: 2018,
        },
    ).insert(
        2,
        BookView { id: 2, title: "Programming Rust"@, author: "Jim Blandy"@, year: 2021 },
    )
}

/// The authors a fresh catalogue starts with.
pub open spec fn seed_authors() -> Map<u64, AuthorView> {
    Map::<u64, AuthorView>::empty().insert(
        1,
        AuthorView { id: 1, name: "Steve Klabnik"@, bio: "Rust core team member"@ },
    )
}

/// The records of `m` with an identifier below `upto`, by rising identifier.
pub open spec fn listing(m: Map<u64, BookView>, upto: nat) -> Seq<BookView>
    decreases upto,
{
    if upto == 0 {
        Seq::empty()
    } else {
        let k = (upto - 1) as u64;
        let before = listing(m, (upto - 1) as nat);
        if m.contains_key(k) {
            before.push(m[k])
        } else {
            before
        }
    }
}

/// Each record of `m` stands under its own identifier.
pub open spec fn keyed_by_id(m: Map<u64, BookView>) -> bool {
    forall|k: u64| #[trigger] m.contains_key(k) ==> m[k].id == k
}

/// A listing holds only records of the map, each with an identifier below
/// the bound, and their identifiers rise strictly: no record stands twice.
pub proof fn listing_rises(m: Map<u64, BookView>, upto: nat)
    requires
        keyed_by_id(m),
        upto <= u64::MAX + 1,
    ensures
        forall|i: int|
            0 <= i < listing(m, upto).len() ==> {
                let b = #[trigger] listing(m, upto)[i];
                m.contains_key(b.id) && m[b.id] == b && b.id < upto
            },
        forall|i: int, j: int|
            0 <= i < j < listing(m, upto).len() ==> (#[trigger] listing(m, upto)[i]).id < (
            #[trigger] listing(m, upto)[j]).id,
    decreases upto,
{
    if upto > 0 {
        listing_rises(m, (upto - 1) as nat);
        let here = listing(m, upto);
        let before = listing(m, (upto - 1) as nat);
        let k = (upto - 1) as u64;
        assert forall|i: int| 0 <= i < here.len() implies {
            let b = #[trigger] here[i];
            m.contains_key(b.id) && m[b.id] == b && b.id < upto
        } by {
            if i < before.len() {
                assert(here[i] == before[i]);
            } else {
                assert(here[i] == m[k]);
            }
        }
        assert forall|i: int, j: int| 0 <= i < j < here.len() implies (#[trigger] here[i]).id < (
        #[trigger] here[j]).id by {
            assert(here[i] == before[i]);
            if j < before.len() {
                assert(here[j] == before[j]);
            } else {
                assert(here[j] == m[k]);
            }
        }
    }
}

/// A listing holds every record of the map whose identifier is below the
/// bound.
pub proof fn listing_holds_all(m: Map<u64, BookView>, upto: nat, k: u64)
    requires
        upto <= u64::MAX + 1,
        m.contains_key(k),
        k < upto,
    ensures
        listing(m, upto).contains(m[k]),
    decreases upto,
{
    let here = listing(m, upto);
    if k == upto - 1 {
        assert(here[here.len() - 1] == m[k]);
    } else {
        listing_holds_all(m, (upto - 1) as nat, k);
        let before = listing(m, (upto - 1) as nat);
        let i = choose|i: int| 0 <= i < before.len() && before[i] == m[k];
        assert(here[i] == m[k]);
    }
}

/// The views of a vector of books, in order.
pub open spec fn book_views(v: Seq<Book>) -> Seq<BookView> {
    v.map_values(|b: Book| b@)
}

/// The records of `books` whose title holds `query`, case ignored, in the
/// order in which they stand.
pub open spec fn matching(books: Seq<BookView>, query: Seq<char>) -> Seq<BookView> {
    books.filter(|b: BookView| title_matches(b.title, query))
}

/// Copies out the books whose title holds `query`, case ignored, keeping
/// their order.
pub fn select_by_title(books: &Vec<Book>, query: &str) -> (r: Vec<Book>)
    ensures
        book_views(r@) == matching(book_views(books@), query@),
{
    let mut out: Vec<Book> = Vec::new();
    let mut i: usize = 0;
    proof {
        reveal(Seq::filter);
        assert(book_views(out@) =~= matching(book_views(books@.take(0)), query@));
    }
    while i < books.len()
        invariant
            i <= books.len(),
            book_views(out@) == matching(book_views(books@.take(i as int)), query@),
        decreases books.len() - i,
    {
        let ghost seen = book_views(books@.take(i as int));
        let ghost next = book_views(books@.take(i + 1));
        assert(next =~= seen.push(books@[i as int]@));
        assert(next.drop_last() =~= seen);
        proof {
            reveal(Seq::filter);
            assert(next.len() > 0 && next.last() == books@[i as int]@);
            assert(matching(next, query@) == if title_matches(books@[i as int]@.title, query@) {
                matching(seen, query@).push(books@[i as int]@)
            } else {
                matching(seen, query@)
            });
        }
        if matches_ignoring_case(books[i].title.as_str(), query) {
            let copy = books[i].clone();
            let ghost prev = out@;
            out.push(copy);
            assert(book_views(out@) =~= book_views(prev).push(copy@));
        }
        i = i + 1;
    }
    assert(books@.take(books.len() as int) =~= books@);
    out
}

/// The in-memory catalogue.
pub struct Database {
    books: HashMap<u64, Book>,
    authors: HashMap<u64, Author>,
    next_book_id: u64,
    next_author_id: u64,
}

impl Database {
    /// The books held, by identifier.
    pub closed spec fn books(&self) -> Map<u64, BookView> {
        self.books@.map_values(|b: Book| b@)
    }

    /// The authors held, by identifier.
    pub closed spec fn authors(&self) -> Map<u64, AuthorView> {
        self.authors@.map_values(|a: Author| a@)
    }

    /// The identifier that the next added book receives.
    pub closed spec fn next_book_id(&self) -> u64 {
        self.next_book_id
    }

    /// The identifier that the next added author would receive.
    pub closed spec fn next_author_id(&self) -> u64 {
        self.next_author_id
    }

    /// Every record is stored under its own identifier, and every identifier
    /// in use lies below the counter of its collection.
    pub open spec fn wf(&self) -> bool {
        &&& forall|k: u64| #[trigger]
            self.books().contains_key(k) ==> self.books()[k].id == k && k < self.next_book_id()
        &&& forall|k: u64| #[trigger]
            self.authors().contains_key(k) ==> self.authors()[k].id == k && k
                < self.next_author_id()
    }

    /// The identifier that the next added book receives.
    pub fn book_counter(&self) -> (r: u64)
        ensures
            r == self.next_book_id(),
    {
        self.next_book_id
    }

    /// A catalogue with its two starting books and one starting author.
    pub fn new() -> (db: Database)
        ensures
            db.wf(),
            db.books() == seed_books(),
            db.authors() == seed_authors(),
            db.next_book_id() == 3,
            db.next_author_id() == 2,
    {
        let mut books: HashMap<u64, Book> = HashMap::new();
        let mut authors: HashMap<u64, Author> = HashMap::new();
        books.insert(
            1,
            Book {
                id: 1,
                title: String::from_str("The Rust Programming Language"),
                author: String::from_str("Steve Klabnik"),
                year: 2018,
            },
        );
        books.insert(
            2,
            Book {
                id: 2,
                title: String::from_str("Programming Rust"),
                author: String::from_str("Jim Blandy"),
                year: 2021,
            },
        );
        authors.insert(
            1,
            Author {
                id: 1,
                name: String::from_str("Steve Klabnik"),
                bio: String::from_str("Rust core team member"),
            },
        );
        let db = Database { books, authors, next_book_id: 3, next_author_id: 2 };
        assert(db.books() =~= seed_books());
        assert(db.authors() =~= seed_authors());
        db
    }

    /// The book stored under `id`, if there is one.
    pub fn get_book(&self, id: u64) -> (r: Option<Book>)
        ensures
            match r {
                Some(b) => self.books().contains_key(id) && b@ == self.books()[id],
                None => !self.books().contains_key(id),
            },
    {
        match self.books.get(&id) {
            Some(b) => Some(b.clone()),
            None => None,
        }
    }

    /// Every book held, by rising identifier.
    pub fn get_all_books(&self) -> (r: Vec<Book>)
        requires
            self.wf(),
        ensures
            book_views(r@) == listing(self.books(), self.next_book_id() as nat),
    {
        let mut out: Vec<Book> = Vec::new();
        let mut k: u64 = 0;
        while k < self.next_book_id
            invariant
                k <= self.next_book_id,
                book_views(out@) == listing(self.books(), k as nat),
            decreases self.next_book_id - k,
        {
            match self.books.get(&k) {
                Some(b) => {
                    let copy = b.clone();
                    let ghost prev = out@;
                    out.push(copy);
                    assert(book_views(out@) =~= book_views(prev).push(copy@));
                },
                None => {},
            }
            k = k + 1;
        }
        out
    }

    /// The books whose title holds `query`, case ignored, by rising
    /// identifier.
    pub fn search_books(&self, query: &str) -> (r: Vec<Book>)
        requires
            self.wf(),
        ensures
            book_views(r@) == matching(
                listing(self.books(), self.next_book_id() as nat),
                query@,
            ),
    {
        let all = self.get_all_books();
        select_by_title(&all, query)
    }

    /// Stores a new book under the next free identifier and returns it.
    pub fn add_book(&mut self, title: String, author: String, year: u32) -> (r: Book)
        requires
            old(self).wf(),
            old(self).next_book_id() < u64::MAX,
        ensures
            final(self).wf(),
            r@ == (BookView {
                id: old(self).next_book_id(),
                title: title@,
                author: author@,
                year: year,
            }),
            final(self).books() == old(self).books().insert(old(self).next_book_id(), r@),
            final(self).next_book_id() == old(self).next_book_id() + 1,
            final(self).authors() == old(self).authors(),
            final(self).next_author_id() == old(self).next_author_id(),
    {
        let id = self.next_book_id;
        self.next_book_id = id + 1;
        let book = Book { id, title, author, year };
        let copy = book.clone();
        self.books.insert(id, copy);
        assert(self.books() =~= old(self).books().insert(id, book@));
        assert(self.authors() =~= old(self).authors());
        let ghost after = self.books();
        assert forall|k: u64| #[trigger] after.contains_key(k) implies after[k].id == k && k
            <= id by {
            if k != id {
                assert(old(self).books().contains_key(k));
            }
        }
        book
    }
}

} // verus!
