//! The domain entity and the boundary shapes: `Book`, the create and update
//! inputs with their merge rule, and the closed error enumeration that the
//! HTTP surface translates to status codes.

use vstd::prelude::*;

use crate::book_repo::{
    book_of_dto, dto_of_book, id_present, listing, merge_dto, row_index_of, row_with, DtoModel,
    RowModel,
};
use crate::ids::{fresh_book_id, is_v4_id};
use crate::urls::{normalize_url, url_norm_of};

verus! {

/// The failure kinds that the catalog surfaces.
#[derive(Clone, Copy, PartialEq, Eq, Structural, Debug)]
pub enum ApiError {
    /// A path segment that is not a UUID, or a `url` field that is not a URL.
    InvalidInput,
    /// The repository matched zero rows.
    NotFound,
    /// Connectivity loss, a constraint violation, or another driver failure.
    StorageFailure,
    /// A response body that could not be serialized.
    EncodingFailure,
}

/// The status code each failure kind is surfaced as.
pub open spec fn spec_status_of(e: ApiError) -> u16 {
    match e {
        ApiError::InvalidInput => 400,
        ApiError::NotFound => 404,
        ApiError::StorageFailure => 500,
        ApiError::EncodingFailure => 500,
    }
}

/// Translates a failure kind to its HTTP status code.
pub fn status_of(e: &ApiError) -> (s: u16)
    ensures
        s == spec_status_of(*e),
{
    match e {
        ApiError::InvalidInput => 400,
        ApiError::NotFound => 404,
        ApiError::StorageFailure => 500,
        ApiError::EncodingFailure => 500,
    }
}

/// The domain entity. `url`, when present, holds the serialization of a
/// parsed absolute URL.
pub struct Book {
    pub id: u128,
    pub name: String,
    pub url: Option<String>,
}

/// The mathematical value of a `Book`.
#[verifier::ext_equal]
pub ghost struct BookModel {
    pub id: u128,
    pub name: Seq<char>,
    pub url: Option<Seq<char>>,
}

impl View for Book {
    type V = BookModel;

    open spec fn view(&self) -> BookModel {
        BookModel { id: self.id, name: self.name@, url: self.url.deep_view() }
    }
}

impl DeepView for Book {
    type V = BookModel;

    open spec fn deep_view(&self) -> BookModel {
        self.view()
    }
}

/// A well-formed record: a non-empty name, and a URL that is its own
/// serialization (what `normalize_url` hands back).
pub open spec fn valid_book(b: BookModel) -> bool {
    &&& b.name.len() > 0
    &&& match b.url {
        Some(u) => url_norm_of(u) == Some(u),
        None => true,
    }
}

fn clone_opt_string(o: &Option<String>) -> (r: Option<String>)
    ensures
        r.deep_view() == o.deep_view(),
{
    match o {
        Some(s) => Some(s.clone()),
        None => None,
    }
}

impl Book {
    /// Builds a fresh record from a name and an optional URL string, which
    /// the caller must already know to parse; `try_new` checks instead of
    /// asking.
    pub fn new(name: &str, url: Option<&str>) -> (r: Self)
        requires
            name@.len() > 0,
            url matches Some(u) ==> url_norm_of(u@) is Some,
        ensures
            r@.name == name@,
            match url {
                Some(u) => r@.url == url_norm_of(u@),
                None => r@.url is None,
            },
            valid_book(r@),
            is_v4_id(r@.id),
    {
        let stored_url = match url {
            Some(s) => match normalize_url(s) {
                Some(t) => Some(t),
                None => {
                    proof {
                        assert(false);
                    }
                    None
                },
            },
            None => None,
        };
        Book { id: fresh_book_id(), name: name.to_owned(), url: stored_url }
    }

    /// Checked constructor: `None` exactly on an empty name or a URL string
    /// that does not parse.
    pub fn try_new(name: &str, url: Option<&str>) -> (r: Option<Self>)
        ensures
            match r {
                Some(b) => {
                    &&& name@.len() > 0
                    &&& b@.name == name@
                    &&& match url {
                        Some(u) => b@.url == url_norm_of(u@),
                        None => b@.url is None,
                    }
                    &&& valid_book(b@)
                    &&& is_v4_id(b@.id)
                },
                None => name@.len() == 0 || (url matches Some(u) && url_norm_of(u@) is None),
            },
    {
        if name.is_empty() {
            return None;
        }
        match url {
            Some(s) => match normalize_url(s) {
                Some(_t) => Some(Book::new(name, Some(s))),
                None => None,
            },
            None => Some(Book::new(name, None)),
        }
    }
}

/// The boundary shape for creation: `{ name, url? }`. The service assigns
/// the identifier.
pub struct BookCreateInput {
    pub name: String,
    pub url: Option<String>,
}

/// The mathematical value of a `BookCreateInput`.
#[verifier::ext_equal]
pub ghost struct BookCreateModel {
    pub name: Seq<char>,
    pub url: Option<Seq<char>>,
}

impl View for BookCreateInput {
    type V = BookCreateModel;

    open spec fn view(&self) -> BookCreateModel {
        BookCreateModel { name: self.name@, url: self.url.deep_view() }
    }
}

impl BookCreateInput {
    /// Builds the record that `register` stores: a freshly generated
    /// version-4 identifier and the input's fields, kept as they are.
    pub fn to_model(&self) -> (r: Book)
        ensures
            r@.name == self@.name,
            r@.url == self@.url,
            is_v4_id(r@.id),
    {
        Book {
            id: fresh_book_id(),
            name: self.name.clone(),
            url: clone_opt_string(&self.url),
        }
    }
}

/// The boundary shape for partial update: `{ name?, url? }`. An absent field
/// means "leave unchanged"; there is no way to clear a stored URL.
pub struct BookUpdateInput {
    pub name: Option<String>,
    pub url: Option<String>,
}

/// The mathematical value of a `BookUpdateInput`.
#[verifier::ext_equal]
pub ghost struct BookUpdateModel {
    pub name: Option<Seq<char>>,
    pub url: Option<Seq<char>>,
}

impl View for BookUpdateInput {
    type V = BookUpdateModel;

    open spec fn view(&self) -> BookUpdateModel {
        BookUpdateModel { name: self.name.deep_view(), url: self.url.deep_view() }
    }
}

/// The read-then-merge rule: each present field of the update replaces the
/// loaded value, each absent field preserves it, and the identifier never
/// changes.
pub open spec fn merged(u: BookUpdateModel, prev: BookModel) -> BookModel {
    BookModel {
        id: prev.id,
        name: match u.name {
            Some(n) => n,
            None => prev.name,
        },
        url: match u.url {
            Some(x) => Some(x),
            None => prev.url,
        },
    }
}

impl BookUpdateInput {
    /// Merges this update onto a loaded record.
    pub fn to_model(&self, prev: &Book) -> (r: Book)
        ensures
            r@ == merged(self@, prev@),
    {
        Book {
            id: prev.id,
            name: match &self.name {
                Some(n) => n.clone(),
                None => prev.name.clone(),
            },
            url: match &self.url {
                Some(u) => Some(u.clone()),
                None => clone_opt_string(&prev.url),
            },
        }
    }
}

/// What a successful `register` did to the table: some fresh version-4
/// identifier was drawn, and the input's fields were stored under it with
/// the next stamp.
pub open spec fn registered(
    old_rows: Seq<RowModel>,
    new_rows: Seq<RowModel>,
    stamp: u64,
    input: BookCreateModel,
    id: u128,
) -> bool {
    &&& !id_present(old_rows, id)
    &&& is_v4_id(id)
    &&& new_rows == old_rows.push(
        RowModel {
            dto: DtoModel {
                id,
                name: input.name,
                url: input.url,
                published_year: None,
                original_published_year: None,
            },
            updated_at: stamp,
        },
    )
}

/// The capability set that abstracts persistence: create/read/update over
/// rows of the `books` table. The table is modelled as a sequence of rows in
/// ascending write-stamp order; `stamp` is the value the next write is
/// stamped with, a strict upper bound on every stamp in the table.
pub trait BookRepo: Sized {
    /// The stored rows, in the order they were written.
    spec fn rows(&self) -> Seq<RowModel>;

    /// The stamp the next write receives.
    spec fn stamp(&self) -> u64;

    /// The backend's invariant.
    spec fn inv(&self) -> bool;

    /// Persists a full record under its identifier; a duplicate identifier
    /// is a constraint violation, surfaced as a storage failure.
    fn create(&mut self, book: &Book) -> (r: Result<(), ApiError>)
        requires
            old(self).inv(),
            old(self).stamp() < u64::MAX,
        ensures
            final(self).inv(),
            id_present(old(self).rows(), book@.id) ==> {
                &&& r == Err::<(), ApiError>(ApiError::StorageFailure)
                &&& final(self).rows() == old(self).rows()
                &&& final(self).stamp() == old(self).stamp()
            },
            !id_present(old(self).rows(), book@.id) ==> {
                &&& r == Ok::<(), ApiError>(())
                &&& final(self).rows() == old(self).rows().push(
                    RowModel { dto: dto_of_book(book@), updated_at: old(self).stamp() },
                )
                &&& final(self).stamp() == old(self).stamp() + 1
            },
    ;

    /// Reads one record back, with the URL tolerance on read. Not-found is
    /// surfaced only for an identifier truly absent; a backend may also
    /// report its storage unavailable.
    fn find_one(&self, id: u128) -> (r: Result<Book, ApiError>)
        requires
            self.inv(),
        ensures
            match r {
                Ok(b) => id_present(self.rows(), id) && b@ == book_of_dto(
                    row_with(self.rows(), id).dto,
                ),
                Err(e) => (e == ApiError::NotFound && !id_present(self.rows(), id)) || e
                    == ApiError::StorageFailure,
            },
    ;

    /// Lists the most recently written records, newest first, at most ten;
    /// a backend may also report its storage unavailable.
    fn find_all(&self) -> (r: Result<Vec<Book>, ApiError>)
        requires
            self.inv(),
        ensures
            match r {
                Ok(v) => v.deep_view() == listing(self.rows()),
                Err(e) => e == ApiError::StorageFailure,
            },
    ;

    /// Applies a full record to its stored row: mandatory columns are
    /// overwritten, optional columns only where the record carries a value.
    /// Zero matched rows surface as not-found.
    fn update_one(&mut self, book: &Book) -> (r: Result<(), ApiError>)
        requires
            old(self).inv(),
            old(self).stamp() < u64::MAX,
        ensures
            final(self).inv(),
            !id_present(old(self).rows(), book@.id) ==> {
                &&& r == Err::<(), ApiError>(ApiError::NotFound)
                &&& final(self).rows() == old(self).rows()
                &&& final(self).stamp() == old(self).stamp()
            },
            id_present(old(self).rows(), book@.id) ==> {
                &&& r == Ok::<(), ApiError>(())
                &&& final(self).rows() == old(self).rows().remove(
                    row_index_of(old(self).rows(), book@.id),
                ).push(
                    RowModel {
                        dto: merge_dto(row_with(old(self).rows(), book@.id).dto, dto_of_book(book@)),
                        updated_at: old(self).stamp(),
                    },
                )
                &&& final(self).stamp() == old(self).stamp() + 1
            },
    ;
}

/// The user-level operations: `register` generates the identifier, `update`
/// owns the read-then-merge rule, and the reads pass through.
pub trait BookService: Sized {
    /// The stored rows of the backing repository.
    spec fn rows(&self) -> Seq<RowModel>;

    /// The stamp the next write receives.
    spec fn stamp(&self) -> u64;

    /// The backing repository's invariant.
    spec fn inv(&self) -> bool;

    /// Stores a new record with a freshly generated version-4 identifier
    /// and the input's fields. The identifier is drawn at random, so a draw
    /// may collide with a stored row and fail the write — but never against
    /// an empty table, where success is owed.
    fn register(&mut self, input: &BookCreateInput) -> (r: Result<(), ApiError>)
        requires
            old(self).inv(),
            old(self).stamp() < u64::MAX,
        ensures
            final(self).inv(),
            match r {
                Ok(()) => {
                    &&& exists|id: u128|
                        #[trigger] registered(
                            old(self).rows(),
                            final(self).rows(),
                            old(self).stamp(),
                            input@,
                            id,
                        )
                    &&& final(self).stamp() == old(self).stamp() + 1
                },
                Err(e) => {
                    &&& e == ApiError::StorageFailure
                    &&& old(self).rows().len() > 0
                    &&& final(self).rows() == old(self).rows()
                    &&& final(self).stamp() == old(self).stamp()
                },
            },
    ;

    /// Reads one record by identifier. Not-found is surfaced only for an
    /// identifier truly absent; a backend may also report its storage
    /// unavailable.
    fn get_one(&self, id: u128) -> (r: Result<Book, ApiError>)
        requires
            self.inv(),
        ensures
            match r {
                Ok(b) => id_present(self.rows(), id) && b@ == book_of_dto(
                    row_with(self.rows(), id).dto,
                ),
                Err(e) => (e == ApiError::NotFound && !id_present(self.rows(), id)) || e
                    == ApiError::StorageFailure,
            },
    ;

    /// Lists the most recently written records, newest first, at most ten;
    /// a backend may also report its storage unavailable.
    fn get_all(&self) -> (r: Result<Vec<Book>, ApiError>)
        requires
            self.inv(),
        ensures
            match r {
                Ok(v) => v.deep_view() == listing(self.rows()),
                Err(e) => e == ApiError::StorageFailure,
            },
    ;

    /// Loads the stored record, merges the update onto it (absent fields
    /// preserve the loaded value), and writes the result back. A missing
    /// row surfaces as not-found and nothing is written; not-found is never
    /// surfaced for a present row. The load may also find its storage
    /// unavailable, and then nothing is written either.
    fn update(&mut self, id: u128, input: &BookUpdateInput) -> (r: Result<(), ApiError>)
        requires
            old(self).inv(),
            old(self).stamp() < u64::MAX,
        ensures
            final(self).inv(),
            r is Ok ==> id_present(old(self).rows(), id) && ({
                let prev = row_with(old(self).rows(), id);
                let b = merged(input@, book_of_dto(prev.dto));
                &&& final(self).rows() == old(self).rows().remove(
                    row_index_of(old(self).rows(), id),
                ).push(RowModel { dto: merge_dto(prev.dto, dto_of_book(b)), updated_at: old(self).stamp() })
                &&& final(self).stamp() == old(self).stamp() + 1
            }),
            r == Err::<(), ApiError>(ApiError::NotFound) ==> !id_present(old(self).rows(), id)
                && final(self).rows() == old(self).rows()
                && final(self).stamp() == old(self).stamp(),
            r == Err::<(), ApiError>(ApiError::StorageFailure) ==> final(self).rows() == old(self).rows()
                && final(self).stamp() == old(self).stamp(),
            r is Err ==> r == Err::<(), ApiError>(ApiError::NotFound)
                || r == Err::<(), ApiError>(ApiError::StorageFailure),
            !id_present(old(self).rows(), id) ==> r is Err,
    ;
}

} // verus!
