//! The HTTP surface: input validation at the boundary, and the four
//! handlers that bind service outcomes to status codes. Decoding JSON and
//! writing sockets stay outside; the handlers work on decoded values.

use vstd::prelude::*;

use crate::book_repo::{
    book_of_dto, dto_of_book, id_present, listing, merge_dto, row_index_of, row_with, RowModel,
};
use crate::ids::{parse_book_id, uuid_of_str};
use crate::ports::{
    merged, registered, status_of, Book, BookCreateInput, BookCreateModel, BookService,
    BookUpdateInput, BookUpdateModel,
};
use crate::urls::{normalize_url, url_norm_of};

verus! {

/// A response body: nothing, one record, or the listing.
pub enum ResponseBody {
    Empty,
    Single(Book),
    Listing(Vec<Book>),
}

/// What a handler hands back: a status code and a body.
pub struct ApiResponse {
    pub status: u16,
    pub body: ResponseBody,
}

/// A create input the surface accepts: a non-empty name, and a `url` field
/// (when present) that parses as an absolute URL.
pub open spec fn valid_create(c: BookCreateModel) -> bool {
    &&& c.name.len() > 0
    &&& match c.url {
        Some(u) => url_norm_of(u) is Some,
        None => true,
    }
}

/// The input as it is stored: the URL replaced by its serialization.
pub open spec fn normalized_create(c: BookCreateModel) -> BookCreateModel {
    BookCreateModel {
        name: c.name,
        url: match c.url {
            Some(u) => url_norm_of(u),
            None => None,
        },
    }
}

/// An update input the surface accepts: a present name is non-empty, and a
/// present `url` field parses as an absolute URL.
pub open spec fn valid_update(u: BookUpdateModel) -> bool {
    &&& match u.name {
        Some(n) => n.len() > 0,
        None => true,
    }
    &&& match u.url {
        Some(x) => url_norm_of(x) is Some,
        None => true,
    }
}

/// The update as it is applied: the URL replaced by its serialization.
pub open spec fn normalized_update(u: BookUpdateModel) -> BookUpdateModel {
    BookUpdateModel {
        name: u.name,
        url: match u.url {
            Some(x) => url_norm_of(x),
            None => None,
        },
    }
}

/// Checks a create input and normalizes its URL; `None` exactly on an input
/// the surface rejects.
pub fn validate_create(input: &BookCreateInput) -> (r: Option<BookCreateInput>)
    ensures
        match r {
            Some(v) => {
                &&& valid_create(input@)
                &&& v@ == normalized_create(input@)
                &&& match v@.url {
                    Some(t) => url_norm_of(t) == Some(t),
                    None => true,
                }
            },
            None => !valid_create(input@),
        },
{
    if input.name.as_str().is_empty() {
        return None;
    }
    match &input.url {
        Some(u) => match normalize_url(u.as_str()) {
            Some(t) => Some(BookCreateInput { name: input.name.clone(), url: Some(t) }),
            None => None,
        },
        None => Some(BookCreateInput { name: input.name.clone(), url: None }),
    }
}

/// Checks an update input and normalizes its URL; `None` exactly on an
/// input the surface rejects.
pub fn validate_update(input: &BookUpdateInput) -> (r: Option<BookUpdateInput>)
    ensures
        match r {
            Some(v) => {
                &&& valid_update(input@)
                &&& v@ == normalized_update(input@)
                &&& match v@.url {
                    Some(t) => url_norm_of(t) == Some(t),
                    None => true,
                }
            },
            None => !valid_update(input@),
        },
{
    let name = match &input.name {
        Some(n) => {
            if n.as_str().is_empty() {
                return None;
            }
            Some(n.clone())
        },
        None => None,
    };
    match &input.url {
        Some(u) => match normalize_url(u.as_str()) {
            Some(t) => Some(BookUpdateInput { name, url: Some(t) }),
            None => None,
        },
        None => Some(BookUpdateInput { name, url: None }),
    }
}

/// `POST /books`: stores a new record. `400` on a rejected input, `204` on
/// success, `500` on a storage failure; nothing is written except by a
/// success. The only failure open to the in-library backend is a collision
/// of the random identifier with a stored row, so against an empty table a
/// valid input is owed its `204`.
pub fn register<S: BookService>(service: &mut S, input: &BookCreateInput) -> (r: ApiResponse)
    requires
        old(service).inv(),
        old(service).stamp() < u64::MAX,
    ensures
        final(service).inv(),
        r.body is Empty,
        !valid_create(input@) ==> r.status == 400 && final(service).rows() == old(service).rows()
            && final(service).stamp() == old(service).stamp(),
        valid_create(input@) ==> {
            &&& (r.status == 204 || r.status == 500)
            &&& r.status == 204 ==> {
                &&& exists|id: u128|
                    #[trigger] registered(
                        old(service).rows(),
                        final(service).rows(),
                        old(service).stamp(),
                        normalized_create(input@),
                        id,
                    )
                &&& final(service).stamp() == old(service).stamp() + 1
            }
            &&& r.status == 500 ==> old(service).rows().len() > 0
                && final(service).rows() == old(service).rows()
                && final(service).stamp() == old(service).stamp()
        },
{
    let v = match validate_create(input) {
        Some(v) => v,
        None => {
            return ApiResponse { status: 400, body: ResponseBody::Empty };
        },
    };
    match service.register(&v) {
        Ok(()) => ApiResponse { status: 204, body: ResponseBody::Empty },
        Err(e) => ApiResponse { status: status_of(&e), body: ResponseBody::Empty },
    }
}

/// `GET /books`: the listing, newest-updated first, at most ten entries;
/// `500` where the backend reports its storage unavailable.
pub fn get_all<S: BookService>(service: &S) -> (r: ApiResponse)
    requires
        service.inv(),
    ensures
        r.status == 200 || r.status == 500,
        r.status == 200 ==> (r.body matches ResponseBody::Listing(v) && v.deep_view() == listing(
            service.rows(),
        )),
        r.status == 500 ==> r.body is Empty,
{
    match service.get_all() {
        Ok(v) => ApiResponse { status: 200, body: ResponseBody::Listing(v) },
        Err(e) => ApiResponse { status: status_of(&e), body: ResponseBody::Empty },
    }
}

/// `GET /books/{id}`: `400` before anything else on a path segment that is
/// not a UUID, `404` only on a row truly missing, `200` with the record on
/// a successful read, `500` where the backend reports its storage
/// unavailable.
pub fn get_one<S: BookService>(service: &S, id_segment: &str) -> (r: ApiResponse)
    requires
        service.inv(),
    ensures
        uuid_of_str(id_segment@) is None ==> r.status == 400 && r.body is Empty,
        uuid_of_str(id_segment@) matches Some(id) ==> {
            &&& r.status == 200 || r.status == 404 || r.status == 500
            &&& r.status == 200 ==> id_present(service.rows(), id) && (
            r.body matches ResponseBody::Single(b) && b@ == book_of_dto(
                row_with(service.rows(), id).dto,
            ))
            &&& r.status == 404 ==> !id_present(service.rows(), id) && r.body is Empty
            &&& r.status == 500 ==> r.body is Empty
        },
{
    let id = match parse_book_id(id_segment) {
        Some(id) => id,
        None => {
            return ApiResponse { status: 400, body: ResponseBody::Empty };
        },
    };
    match service.get_one(id) {
        Ok(b) => ApiResponse { status: 200, body: ResponseBody::Single(b) },
        Err(e) => ApiResponse { status: status_of(&e), body: ResponseBody::Empty },
    }
}

/// `PUT /books/{id}`: `400` before anything else on a path segment that is
/// not a UUID or on a rejected input, `404` only on a row truly missing,
/// `204` on a successful merge-and-write, `500` where the backend reports
/// its storage unavailable. Nothing is written except by the `204`.
pub fn update<S: BookService>(service: &mut S, id_segment: &str, input: &BookUpdateInput) -> (r:
    ApiResponse)
    requires
        old(service).inv(),
        old(service).stamp() < u64::MAX,
    ensures
        final(service).inv(),
        r.body is Empty,
        uuid_of_str(id_segment@) is None ==> r.status == 400 && final(service).rows() == old(service).rows() && final(service).stamp() == old(service).stamp(),
        uuid_of_str(id_segment@) matches Some(id) ==> {
            &&& !valid_update(input@) ==> r.status == 400 && final(service).rows() == old(service).rows() && final(service).stamp() == old(service).stamp()
            &&& valid_update(input@) ==> {
                &&& r.status == 204 || r.status == 404 || r.status == 500
                &&& r.status == 204 ==> id_present(old(service).rows(), id) && ({
                    let prev = row_with(old(service).rows(), id);
                    let b = merged(normalized_update(input@), book_of_dto(prev.dto));
                    &&& final(service).rows() == old(service).rows().remove(
                        row_index_of(old(service).rows(), id),
                    ).push(
                        RowModel {
                            dto: merge_dto(prev.dto, dto_of_book(b)),
                            updated_at: old(service).stamp(),
                        },
                    )
                    &&& final(service).stamp() == old(service).stamp() + 1
                })
                &&& r.status == 404 ==> !id_present(old(service).rows(), id)
                    && final(service).rows() == old(service).rows()
                    && final(service).stamp() == old(service).stamp()
                &&& r.status == 500 ==> final(service).rows() == old(service).rows()
                    && final(service).stamp() == old(service).stamp()
                &&& !id_present(old(service).rows(), id) ==> r.status != 204
            }
        },
{
    let id = match parse_book_id(id_segment) {
        Some(id) => id,
        None => {
            return ApiResponse { status: 400, body: ResponseBody::Empty };
        },
    };
    let v = match validate_update(input) {
        Some(v) => v,
        None => {
            return ApiResponse { status: 400, body: ResponseBody::Empty };
        },
    };
    match service.update(id, &v) {
        Ok(()) => ApiResponse { status: 204, body: ResponseBody::Empty },
        Err(e) => ApiResponse { status: status_of(&e), body: ResponseBody::Empty },
    }
}

} // verus!
