//! Concrete checks of the stated laws, the error surface, and the write
//! plans.

use books_api::book_repo::{create_writes, update_writes, BookDto, MemBookRepo, SqlWrite};
use books_api::book_service::BookServiceImpl;
use books_api::ports::{
    status_of, ApiError, Book, BookCreateInput, BookRepo, BookService, BookUpdateInput,
};
use books_api::rest_controller::{get_all, get_one, register, update, ApiResponse, ResponseBody};

fn fresh_service() -> BookServiceImpl<MemBookRepo> {
    BookServiceImpl { book_repo: MemBookRepo::new() }
}

fn listing_of(r: ApiResponse) -> Vec<Book> {
    match r.body {
        ResponseBody::Listing(v) => v,
        _ => panic!("expected a listing body"),
    }
}

fn single_of(r: ApiResponse) -> Book {
    match r.body {
        ResponseBody::Single(b) => b,
        _ => panic!("expected a single-record body"),
    }
}

fn id_string(id: u128) -> String {
    uuid::Uuid::from_u128(id).to_string()
}

#[test]
fn create_then_read_round_trip() {
    let mut svc = fresh_service();
    let input = BookCreateInput {
        name: String::from("Solaris"),
        url: Some(String::from("https://example.org/solaris")),
    };
    assert_eq!(register(&mut svc, &input).status, 204);
    let id = listing_of(get_all(&svc))[0].id;

    let b = single_of(get_one(&svc, &id_string(id)));
    assert_eq!(b.name, "Solaris");
    assert_eq!(b.url.as_deref(), Some("https://example.org/solaris"));
}

#[test]
fn create_then_read_round_trip_without_url() {
    let mut svc = fresh_service();
    let input = BookCreateInput { name: String::from("Ubik"), url: None };
    assert_eq!(register(&mut svc, &input).status, 204);
    let id = listing_of(get_all(&svc))[0].id;

    let b = single_of(get_one(&svc, &id_string(id)));
    assert_eq!(b.name, "Ubik");
    assert!(b.url.is_none());
}

#[test]
fn merge_keeps_absent_fields() {
    let prev = Book {
        id: 7,
        name: String::from("old name"),
        url: Some(String::from("https://example.org/")),
    };
    let merged = BookUpdateInput { name: Some(String::from("new name")), url: None }
        .to_model(&prev);
    assert_eq!(merged.id, 7);
    assert_eq!(merged.name, "new name");
    assert_eq!(merged.url.as_deref(), Some("https://example.org/"));

    let merged = BookUpdateInput { name: None, url: Some(String::from("https://other.example/")) }
        .to_model(&prev);
    assert_eq!(merged.name, "old name");
    assert_eq!(merged.url.as_deref(), Some("https://other.example/"));
}

#[test]
fn empty_update_is_a_no_op_on_fields() {
    let mut svc = fresh_service();
    let input = BookCreateInput {
        name: String::from("Dune"),
        url: Some(String::from("https://example.org/dune")),
    };
    assert_eq!(register(&mut svc, &input).status, 204);
    let id = listing_of(get_all(&svc))[0].id;

    let patch = BookUpdateInput { name: None, url: None };
    assert_eq!(update(&mut svc, &id_string(id), &patch).status, 204);

    let b = single_of(get_one(&svc, &id_string(id)));
    assert_eq!(b.name, "Dune");
    assert_eq!(b.url.as_deref(), Some("https://example.org/dune"));
}

#[test]
fn update_moves_row_to_front_of_listing() {
    let mut svc = fresh_service();
    assert_eq!(
        register(&mut svc, &BookCreateInput { name: String::from("first"), url: None }).status,
        204,
    );
    assert_eq!(
        register(&mut svc, &BookCreateInput { name: String::from("second"), url: None }).status,
        204,
    );
    let books = listing_of(get_all(&svc));
    assert_eq!(books[0].name, "second");
    let first_id = books[1].id;

    let patch = BookUpdateInput { name: None, url: None };
    assert_eq!(update(&mut svc, &id_string(first_id), &patch).status, 204);

    let books = listing_of(get_all(&svc));
    assert_eq!(books[0].name, "first");
    assert_eq!(books[1].name, "second");
}

#[test]
fn update_of_missing_row_is_404_and_writes_nothing() {
    let mut svc = fresh_service();
    let patch = BookUpdateInput { name: Some(String::from("ghost")), url: None };
    let r = update(&mut svc, "11111111-2222-3333-4444-555555555555", &patch);
    assert_eq!(r.status, 404);
    assert_eq!(listing_of(get_all(&svc)).len(), 0);
}

#[test]
fn update_with_malformed_id_is_400() {
    let mut svc = fresh_service();
    let patch = BookUpdateInput { name: Some(String::from("x")), url: None };
    assert_eq!(update(&mut svc, "not-a-uuid", &patch).status, 400);
}

#[test]
fn update_with_malformed_url_is_400() {
    let mut svc = fresh_service();
    assert_eq!(
        register(&mut svc, &BookCreateInput { name: String::from("a"), url: None }).status,
        204,
    );
    let id = listing_of(get_all(&svc))[0].id;
    let patch = BookUpdateInput { name: None, url: Some(String::from("no scheme")) };
    assert_eq!(update(&mut svc, &id_string(id), &patch).status, 400);
}

#[test]
fn unparsable_stored_url_reads_back_as_none() {
    let mut repo = MemBookRepo::new();
    repo.load_row(BookDto {
        id: 42,
        name: String::from("legacy"),
        url: Some(String::from("not a url at all")),
        published_year: Some(1965),
        original_published_year: None,
    });
    let svc = BookServiceImpl { book_repo: repo };

    let b = svc.get_one(42).expect("the read itself succeeds");
    assert_eq!(b.name, "legacy");
    assert!(b.url.is_none());

    let r = get_one(&svc, &id_string(42));
    assert_eq!(r.status, 200);
    assert!(single_of(r).url.is_none());
}

#[test]
fn stored_url_is_the_parsed_serialization() {
    let mut svc = fresh_service();
    let input = BookCreateInput {
        name: String::from("n"),
        url: Some(String::from("HTTPS://EXAMPLE.ORG")),
    };
    assert_eq!(register(&mut svc, &input).status, 204);
    let books = listing_of(get_all(&svc));
    assert_eq!(books[0].url.as_deref(), Some("https://example.org/"));
}

#[test]
fn uuid_path_segments_parse_in_the_crate_s_accepted_forms() {
    let mut svc = fresh_service();
    assert_eq!(
        register(&mut svc, &BookCreateInput { name: String::from("n"), url: None }).status,
        204,
    );
    let id = listing_of(get_all(&svc))[0].id;
    let hyphenated = id_string(id);
    let simple = hyphenated.replace('-', "");
    let braced = format!("{{{}}}", hyphenated);

    assert_eq!(get_one(&svc, &hyphenated).status, 200);
    assert_eq!(get_one(&svc, &simple).status, 200);
    assert_eq!(get_one(&svc, &braced).status, 200);
    assert_eq!(get_one(&svc, "").status, 400);
}

#[test]
fn duplicate_identifier_is_a_storage_failure() {
    let mut repo = MemBookRepo::new();
    let book = Book { id: 9, name: String::from("one"), url: None };
    assert!(repo.create(&book).is_ok());
    let again = Book { id: 9, name: String::from("two"), url: None };
    assert_eq!(repo.create(&again), Err(ApiError::StorageFailure));
}

#[test]
fn status_codes_of_error_kinds() {
    assert_eq!(status_of(&ApiError::InvalidInput), 400);
    assert_eq!(status_of(&ApiError::NotFound), 404);
    assert_eq!(status_of(&ApiError::StorageFailure), 500);
    assert_eq!(status_of(&ApiError::EncodingFailure), 500);
}

#[test]
fn empty_name_is_rejected() {
    let mut svc = fresh_service();
    let input = BookCreateInput { name: String::new(), url: None };
    assert_eq!(register(&mut svc, &input).status, 400);
}

#[test]
fn create_plan_writes_only_present_columns() {
    let dto = BookDto {
        id: 3,
        name: String::from("n"),
        url: Some(String::from("https://example.org/")),
        published_year: None,
        original_published_year: None,
    };
    let plan = create_writes(&dto);
    assert_eq!(plan.len(), 2);
    assert!(matches!(&plan[0], SqlWrite::InsertBook { id: 3, name } if name == "n"));
    assert!(
        matches!(&plan[1], SqlWrite::SetUrl { id: 3, url } if url == "https://example.org/")
    );
}

#[test]
fn update_plan_writes_only_present_columns() {
    let bare = BookDto {
        id: 5,
        name: String::from("bare"),
        url: None,
        published_year: None,
        original_published_year: None,
    };
    let plan = update_writes(&bare);
    assert_eq!(plan.len(), 1);
    assert!(matches!(&plan[0], SqlWrite::SetName { id: 5, name } if name == "bare"));

    let full = BookDto {
        id: 5,
        name: String::from("full"),
        url: Some(String::from("https://example.org/")),
        published_year: Some(1970),
        original_published_year: Some(1969),
    };
    let plan = update_writes(&full);
    assert_eq!(plan.len(), 4);
    assert!(matches!(&plan[1], SqlWrite::SetUrl { id: 5, .. }));
    assert!(matches!(&plan[2], SqlWrite::SetPublishedYear { id: 5, year: 1970 }));
    assert!(matches!(&plan[3], SqlWrite::SetOriginalPublishedYear { id: 5, year: 1969 }));
}

#[test]
fn checked_constructor_accepts_and_rejects() {
    let b = Book::try_new("Dune", Some("https://example.org/dune")).expect("valid input");
    assert_eq!(b.name, "Dune");
    assert_eq!(b.url.as_deref(), Some("https://example.org/dune"));

    assert!(Book::try_new("", None).is_none());
    assert!(Book::try_new("Dune", Some("not a url")).is_none());

    let plain = Book::try_new("Dune", None).expect("valid input");
    assert!(plain.url.is_none());
}
