//! Round trips and edge cases of the wire encoding.

use alexandria_client::Action;
use alexandria_client::ActionRequest;
use alexandria_client::Book;
use alexandria_client::Decoded;
use alexandria_client::Wire;

fn book(isbn: &str, title: &str, author: &str) -> Book {
    Book { isbn: isbn.to_string(), title: title.to_string(), author: author.to_string() }
}

#[test]
fn roundtrip_string() {
    let s = "plain text".to_string();
    assert_eq!(String::decode(&s.encode()), Decoded::Value(s));
}

#[test]
fn roundtrip_string_with_escapes() {
    let s = "50% off\nsecond line %n".to_string();
    assert_eq!(String::decode(&s.encode()), Decoded::Value(s));
}

#[test]
fn string_encoding_is_escaped_and_newline_ended() {
    let s = "a%b\nc".to_string();
    assert_eq!(s.encode(), "a%%b%nc\n");
}

#[test]
fn roundtrip_bool() {
    assert_eq!(true.encode(), "true");
    assert_eq!(false.encode(), "false");
    assert_eq!(bool::decode("true"), Decoded::Value(true));
    assert_eq!(bool::decode("false"), Decoded::Value(false));
}

#[test]
fn roundtrip_unit() {
    assert_eq!(().encode(), "null");
    assert_eq!(<()>::decode("null"), Decoded::Value(()));
    assert_eq!(<()>::decode(""), Decoded::Value(()));
}

#[test]
fn roundtrip_book() {
    let b = book("978-0", "A Title", "An Author");
    assert_eq!(Book::decode(&b.encode()), Decoded::Value(b));
}

#[test]
fn roundtrip_book_with_awkward_fields() {
    let b = book("97%8", "line\nbreak", "100%\n");
    assert_eq!(Book::decode(&b.encode()), Decoded::Value(b));
}

#[test]
fn roundtrip_books_empty() {
    let v: Vec<Book> = vec![];
    assert_eq!(v.encode(), "e");
    assert_eq!(<Vec<Book>>::decode("e"), Decoded::Value(vec![]));
}

#[test]
fn roundtrip_books_two() {
    let v = vec![book("1", "T", "A"), book("2", "U%", "B\n")];
    assert_eq!(<Vec<Book>>::decode(&v.encode()), Decoded::Value(v));
}

#[test]
fn books_encoding_shape() {
    let v = vec![book("1", "T", "A")];
    assert_eq!(v.encode(), "b1\nT\nA\ne");
}

#[test]
fn roundtrip_option_book() {
    let none: Option<Book> = None;
    assert_eq!(none.encode(), "null");
    assert_eq!(<Option<Book>>::decode("null"), Decoded::Value(None));
    let some = Some(book("3", "V", "C"));
    assert_eq!(<Option<Book>>::decode(&some.encode()), Decoded::Value(some));
}

#[test]
fn roundtrip_action_request() {
    let out = ActionRequest {
        action: Action::CheckOut,
        isbn: "978-1".to_string(),
        student_id: "s-9".to_string(),
    };
    assert_eq!(out.encode(), "o978-1\ns-9\n");
    assert_eq!(ActionRequest::decode(&out.encode()), Decoded::Value(out));
    let back = ActionRequest {
        action: Action::CheckIn,
        isbn: "i%sbn".to_string(),
        student_id: "id\n2".to_string(),
    };
    assert_eq!(ActionRequest::decode(&back.encode()), Decoded::Value(back));
}

#[test]
fn decode_null_and_empty_bodies() {
    assert_eq!(bool::decode(""), Decoded::Null);
    assert_eq!(bool::decode("null"), Decoded::Null);
    assert_eq!(String::decode("null"), Decoded::Null);
    assert_eq!(Book::decode(""), Decoded::Null);
    assert_eq!(<Vec<Book>>::decode("null"), Decoded::Null);
    assert_eq!(<Option<Book>>::decode(""), Decoded::Value(None));
}

#[test]
fn decode_rejects_garbage() {
    assert_eq!(bool::decode("yes"), Decoded::Invalid);
    assert_eq!(Book::decode("no newline"), Decoded::Invalid);
    assert_eq!(<Vec<Book>>::decode("x"), Decoded::Invalid);
    assert_eq!(String::decode("a\ntrailing"), Decoded::Invalid);
    assert_eq!(ActionRequest::decode("za\nb\n"), Decoded::Invalid);
    assert_eq!(String::decode("bad%escape\n"), Decoded::Invalid);
}
