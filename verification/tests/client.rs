//! The typestate client: construction, authentication and the endpoints.

use alexandria_client::Book;
use alexandria_client::BodyRead;
use alexandria_client::Error;
use alexandria_client::Method;
use alexandria_client::Server;
use alexandria_client::Wire;
use alexandria_client::WireOutcome;

fn reply(status: u16, body: &str) -> WireOutcome {
    WireOutcome::Response(status, BodyRead::Text(body.to_string()))
}

fn unauth() -> Server<alexandria_client::Unauth> {
    Server::new("alexandria.example".to_string()).unwrap()
}

fn auth() -> Server<alexandria_client::Auth> {
    unauth().authenticate(reply(200, "null")).unwrap()
}

fn book(isbn: &str, title: &str, author: &str) -> Book {
    Book { isbn: isbn.to_string(), title: title.to_string(), author: author.to_string() }
}

#[test]
fn new_accepts_a_valid_address() {
    assert!(Server::new("alexandria.cslabs.clarkson.edu".to_string()).is_ok());
    assert!(Server::new("example.net".to_string()).is_ok());
}

#[test]
fn new_rejects_a_malformed_address() {
    assert!(Server::new("not a url".to_string()).is_err());
    assert!(Server::new("[".to_string()).is_err());
}

#[test]
fn unauthenticated_requests_use_the_plain_scheme() {
    let s = unauth();
    let d = s.get_books_request(3).unwrap();
    assert_eq!(d.url, "http://alexandria.example/book?count=3");
    assert_eq!(d.method, Method::Get);
    assert!(d.body.is_none());
    let d = s.get_book_by_isbn_request("978-0").unwrap();
    assert_eq!(d.url, "http://alexandria.example/book/978-0");
    assert_eq!(d.method, Method::Get);
}

#[test]
fn authenticate_request_carries_the_credentials_securely() {
    let s = unauth();
    let d = s.authenticate_request("user1", "hunter2").unwrap();
    assert_eq!(d.url, "https://alexandria.example/auth?user=user1&pass=hunter2");
    assert_eq!(d.method, Method::Get);
    assert!(d.body.is_none());
}

#[test]
fn authenticate_success_upgrades_the_scheme() {
    let s = auth();
    let d = s.get_books_request(7).unwrap();
    assert_eq!(d.url, "https://alexandria.example/book?count=7");
    let d = s.checkout_request("978-0", "s-1").unwrap();
    assert_eq!(d.url, "https://alexandria.example/checkout");
    assert_eq!(d.method, Method::Post);
    assert_eq!(d.body.unwrap(), "o978-0\ns-1\n");
}

#[test]
fn authenticate_failure_is_auth_error() {
    let s = unauth();
    match s.authenticate(reply(401, "")) {
        Err(Error::AuthError) => {}
        other => panic!("unexpected: {:?}", other.is_ok()),
    }
    // `s` was consumed either way: a fresh handle is needed to go on.
}

#[test]
fn get_books_decodes_the_list() {
    let s = unauth();
    let v = vec![book("1", "T", "A"), book("2", "U", "B")];
    let body = v.encode();
    assert_eq!(s.get_books(reply(200, &body)), Ok(v));
}

#[test]
fn get_book_by_isbn_absent_is_ok_none() {
    let s = unauth();
    assert_eq!(s.get_book_by_isbn(reply(200, "")), Ok(None));
    assert_eq!(s.get_book_by_isbn(reply(200, "null")), Ok(None));
}

#[test]
fn get_book_by_isbn_404_is_not_found() {
    let s = unauth();
    assert_eq!(s.get_book_by_isbn(reply(404, "")), Err(Error::NotFound));
}

#[test]
fn get_book_by_isbn_present_is_the_book() {
    let s = unauth();
    let b = book("978-0", "A Title", "An Author");
    let body = b.encode();
    assert_eq!(s.get_book_by_isbn(reply(200, &body)), Ok(Some(b)));
}

#[test]
fn checkout_and_checkin_report_the_business_outcome() {
    let s = auth();
    assert_eq!(s.checkout(reply(200, "true")), Ok(true));
    assert_eq!(s.checkout(reply(200, "false")), Ok(false));
    assert_eq!(s.checkin(reply(200, "true")), Ok(true));
    assert_eq!(s.checkin(reply(500, "")), Err(Error::InternalError));
}

#[test]
fn add_book_conflict_is_ok_false() {
    let s = auth();
    assert_eq!(s.add_book(reply(200, "false")), Ok(false));
    assert_eq!(s.add_book(reply(200, "true")), Ok(true));
}

#[test]
fn add_book_request_carries_the_book() {
    let s = auth();
    let b = book("1", "T", "A");
    let d = s.add_book_request(&b).unwrap();
    assert_eq!(d.url, "https://alexandria.example/book");
    assert_eq!(d.method, Method::Put);
    assert_eq!(d.body.unwrap(), "1\nT\nA\n");
}

#[test]
fn update_book_request_targets_the_isbn() {
    let s = auth();
    let b = book("2", "U", "B");
    let d = s.update_book_request("2", &b).unwrap();
    assert_eq!(d.url, "https://alexandria.example/book/2");
    assert_eq!(d.method, Method::Post);
    assert_eq!(d.body.unwrap(), "2\nU\nB\n");
    assert_eq!(s.update_book(reply(200, "true")), Ok(true));
}

#[test]
fn delete_book_request_has_no_body() {
    let s = auth();
    let d = s.delete_book_request("3").unwrap();
    assert_eq!(d.url, "https://alexandria.example/book/3");
    assert_eq!(d.method, Method::Delete);
    assert!(d.body.is_none());
    assert_eq!(s.delete_book(reply(200, "false")), Ok(false));
}

#[test]
fn register_book_request_carries_the_isbn() {
    let s = auth();
    let d = s.register_book_request("4").unwrap();
    assert_eq!(d.url, "https://alexandria.example/book/4");
    assert_eq!(d.method, Method::Put);
    assert_eq!(d.body.unwrap(), "4\n");
    assert_eq!(s.register_book(reply(200, "true")), Ok(true));
}

#[test]
fn an_awkward_isbn_never_panics() {
    // an ISBN full of reserved characters either still forms an address or
    // is reported as a transport-level error, never a panic
    let s = unauth();
    match s.get_book_by_isbn_request("bad isbn\u{0}/#?") {
        Ok(d) => assert_eq!(d.method, Method::Get),
        Err(e) => assert_eq!(e, Error::HttpError),
    }
}

#[test]
fn count_zero_renders_as_a_single_digit() {
    let s = unauth();
    let d = s.get_books_request(0).unwrap();
    assert_eq!(d.url, "http://alexandria.example/book?count=0");
}

#[test]
fn the_largest_count_renders_in_full() {
    let s = unauth();
    let d = s.get_books_request(u32::MAX).unwrap();
    assert_eq!(d.url, "http://alexandria.example/book?count=4294967295");
}
