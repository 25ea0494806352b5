//! End-to-end scenarios over the HTTP surface, backed by the in-memory
//! repository.

use books_api::book_repo::MemBookRepo;
use books_api::book_service::BookServiceImpl;
use books_api::ports::{Book, BookCreateInput, BookUpdateInput};
use books_api::rest_controller::{get_all, get_one, register, update, ApiResponse, ResponseBody};

fn fresh_service() -> BookServiceImpl<MemBookRepo> {
    BookServiceImpl { book_repo: MemBookRepo::new() }
}

fn listing_of(r: ApiResponse) -> Vec<Book> {
    match r.body {
        ResponseBody::Listing(v) => v,
        _ => panic!("expected a listing body"),
    }
}

fn single_of(r: ApiResponse) -> Book {
    match r.body {
        ResponseBody::Single(b) => b,
        _ => panic!("expected a single-record body"),
    }
}

fn id_string(id: u128) -> String {
    uuid::Uuid::from_u128(id).to_string()
}

#[test]
fn s1_register_then_list() {
    let mut svc = fresh_service();
    let input = BookCreateInput {
        name: String::from("Dune"),
        url: Some(String::from("https://example.org/dune")),
    };
    let r = register(&mut svc, &input);
    assert_eq!(r.status, 204);

    let books = listing_of(get_all(&svc));
    assert_eq!(books.len(), 1);
    assert_eq!(books[0].name, "Dune");
    assert_eq!(books[0].url.as_deref(), Some("https://example.org/dune"));
}

#[test]
fn s2_update_name_keeps_url() {
    let mut svc = fresh_service();
    let input = BookCreateInput {
        name: String::from("Dune"),
        url: Some(String::from("https://example.org/dune")),
    };
    assert_eq!(register(&mut svc, &input).status, 204);
    let id = listing_of(get_all(&svc))[0].id;

    let patch = BookUpdateInput { name: Some(String::from("Dune (rev.)")), url: None };
    let r = update(&mut svc, &id_string(id), &patch);
    assert_eq!(r.status, 204);

    let r = get_one(&svc, &id_string(id));
    assert_eq!(r.status, 200);
    let b = single_of(r);
    assert_eq!(b.id, id);
    assert_eq!(b.name, "Dune (rev.)");
    assert_eq!(b.url.as_deref(), Some("https://example.org/dune"));
}

#[test]
fn s3_get_missing_row_is_404() {
    let svc = fresh_service();
    let r = get_one(&svc, "00000000-0000-0000-0000-000000000000");
    assert_eq!(r.status, 404);
}

#[test]
fn s4_get_malformed_id_is_400() {
    let svc = fresh_service();
    let r = get_one(&svc, "not-a-uuid");
    assert_eq!(r.status, 400);
}

#[test]
fn s5_listing_caps_at_ten_newest_first() {
    let mut svc = fresh_service();
    for i in 0..12 {
        let input = BookCreateInput { name: format!("book-{}", i), url: None };
        assert_eq!(register(&mut svc, &input).status, 204);
    }
    let books = listing_of(get_all(&svc));
    assert_eq!(books.len(), 10);
    for (k, b) in books.iter().enumerate() {
        assert_eq!(b.name, format!("book-{}", 11 - k));
    }
}

#[test]
fn s6_register_malformed_url_is_400() {
    let mut svc = fresh_service();
    let input = BookCreateInput { name: String::from("x"), url: Some(String::from("not a url")) };
    let r = register(&mut svc, &input);
    assert_eq!(r.status, 400);
    assert_eq!(listing_of(get_all(&svc)).len(), 0);
}
