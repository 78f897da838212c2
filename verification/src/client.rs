//! The typestate client: an Alexandria server handle.
//!
//! A handle is parameterized by an authentication-state marker.  The
//! unprivileged lookups exist on any handle; the privileged operations
//! (checkout, checkin, add, update, delete, register) exist only on an
//! authenticated one, so an unauthenticated handle cannot reach them at
//! all.  Authentication consumes the old handle and produces a new one
//! whose scheme is the secure one.
//!
//! Each endpoint comes as a pair: a `*_request` method that describes the
//! request to perform, and a method of the endpoint's own name that
//! classifies and decodes the transport's reply.

use vstd::prelude::*;
use vstd::string::*;

use crate::address::check_url;
use crate::address::url_parse_ok;
use crate::catalog::Action;
use crate::catalog::ActionRequest;
use crate::catalog::ActionRequestView;
use crate::catalog::Book;
use crate::digits::dec_rep;
use crate::digits::u32_to_dec;
use crate::error::APIResult;
use crate::error::Error;
use crate::executor::Method;
use crate::executor::body_text;
use crate::executor::prepare_delete;
use crate::executor::prepare_get;
use crate::executor::prepare_post;
use crate::executor::prepare_put;
use crate::executor::RequestDescriptor;
use crate::executor::WireOutcome;
use crate::executor::execute;
use crate::executor::execute_spec;
use crate::executor::result_deep_view;
use crate::wire::wire_action_request;
use crate::wire::wire_book;
use crate::wire::wire_str;

verus! {

/// Marker for a handle that has not authenticated.
pub struct Unauth;

/// Marker for a handle that has authenticated.
pub struct Auth;

/// The scheme an authentication state puts in front of every address:
/// plain before authentication, secure after.
pub trait Proto {
    /// The scheme, at the specification level.
    spec fn spec_proto() -> Seq<char>;

    /// The scheme as a string.
    fn proto(&self) -> (r: &'static str)
        ensures
            r@ == Self::spec_proto(),
    ;
}

impl Proto for Unauth {
    open spec fn spec_proto() -> Seq<char> {
        "http"@
    }

    fn proto(&self) -> (r: &'static str) {
        "http"
    }
}

impl Proto for Auth {
    open spec fn spec_proto() -> Seq<char> {
        "https"@
    }

    fn proto(&self) -> (r: &'static str) {
        "https"
    }
}

/// Law: the authenticated scheme is the secure one, the unauthenticated
/// scheme the plain one.
pub proof fn lemma_proto_schemes()
    ensures
        <Auth as Proto>::spec_proto() == "https"@,
        <Unauth as Proto>::spec_proto() == "http"@,
{
}

/// The address that lists the first `count` books.
pub open spec fn books_url(scheme: Seq<char>, base: Seq<char>, count: nat) -> Seq<char> {
    scheme + "://"@ + base + "/book?count="@ + dec_rep(count)
}

/// The address of one book, by ISBN.
pub open spec fn book_isbn_url(scheme: Seq<char>, base: Seq<char>, isbn: Seq<char>) -> Seq<char> {
    scheme + "://"@ + base + "/book/"@ + isbn
}

/// The address of the book collection.
pub open spec fn book_collection_url(scheme: Seq<char>, base: Seq<char>) -> Seq<char> {
    scheme + "://"@ + base + "/book"@
}

/// The checkout endpoint's address.
pub open spec fn checkout_url(scheme: Seq<char>, base: Seq<char>) -> Seq<char> {
    scheme + "://"@ + base + "/checkout"@
}

/// The checkin endpoint's address.
pub open spec fn checkin_url(scheme: Seq<char>, base: Seq<char>) -> Seq<char> {
    scheme + "://"@ + base + "/checkin"@
}

/// The authentication address, carrying the credentials as query
/// parameters.  It always uses the secure scheme: the authenticating
/// request itself is already made as the authenticated handle will make
/// its requests.
pub open spec fn auth_url(base: Seq<char>, user: Seq<char>, pass: Seq<char>) -> Seq<char> {
    "https"@ + "://"@ + base + "/auth?user="@ + user + "&pass="@ + pass
}

/// An Alexandria server.
///
/// An Alexandria server can be queried for contained books, and books can
/// be checked in/checked out after authentication.
pub struct Server<T> {
    base_url: String,
    proto: T,
}

impl<T> Server<T> {
    /// The base address the handle was built from.
    pub closed spec fn spec_base(&self) -> Seq<char> {
        self.base_url@
    }
}

impl Server<Unauth> {
    /// Create a new Alexandria server handle, located at the domain name
    /// `base`.  The address is validated here — it must form a well-formed
    /// URL behind a scheme — and no network activity happens.  When making
    /// requests, a path is appended to `base`, with the scheme the
    /// handle's state picks in front.
    pub fn new(base: String) -> (r: Result<Server<Unauth>, url::ParseError>)
        ensures
            r is Ok <==> url_parse_ok("http://"@ + base@),
            r matches Ok(s) ==> s.spec_base() == base@,
    {
        let mut probe = String::from_str("http://");
        probe.append(base.as_str());
        match check_url(probe.as_str()) {
            Ok(()) => Ok(Server { base_url: base, proto: Unauth }),
            Err(e) => Err(e),
        }
    }

    /// Describe the authentication request for a username/password pair.
    pub fn authenticate_request(&self, user: &str, pass: &str) -> (r: Result<
        RequestDescriptor,
        Error,
    >)
        ensures
            r is Ok <==> url_parse_ok(auth_url(self.spec_base(), user@, pass@)),
            r matches Err(e) ==> e == Error::HttpError,
            r matches Ok(d) ==> d.url@ == auth_url(self.spec_base(), user@, pass@) && d.method
                == Method::Get && body_text(d.body) == None::<Seq<char>>,
    {
        let mut u = String::from_str("https");
        u.append("://");
        u.append(self.base_url.as_str());
        u.append("/auth?user=");
        u.append(user);
        u.append("&pass=");
        u.append(pass);
        match check_url(u.as_str()) {
            Ok(()) => Ok(prepare_get(u)),
            Err(_) => Err(Error::HttpError),
        }
    }

    /// Complete authentication from the transport's reply to the request
    /// that [`Server::authenticate_request`] described.  Consumes the
    /// unauthenticated handle; on success the returned handle has the same
    /// base address and uses the secure scheme from then on.  On failure
    /// the old handle is gone for good: the caller starts over.
    pub fn authenticate(self, reply: WireOutcome) -> (r: APIResult<Server<Auth>>)
        ensures
            (r is Ok <==> execute_spec::<()>(reply) is Ok),
            r matches Ok(s) ==> s.spec_base() == self.spec_base(),
            r matches Err(e) ==> Err::<(), Error>(e) == execute_spec::<()>(reply),
    {
        let res = execute::<()>(reply);
        match res {
            Ok(()) => Ok(Server { base_url: self.base_url, proto: Auth }),
            Err(e) => Err(e),
        }
    }
}

impl<T: Proto> Server<T> {
    /// The handle's scheme-and-base address prefix.
    fn url_prefix(&self) -> (r: String)
        ensures
            r@ == T::spec_proto() + "://"@ + self.spec_base(),
    {
        let mut u = String::from_str(self.proto.proto());
        u.append("://");
        u.append(self.base_url.as_str());
        u
    }

    /// Describe the request that queries for the first `count` books.
    pub fn get_books_request(&self, count: u32) -> (r: Result<RequestDescriptor, Error>)
        ensures
            r is Ok <==> url_parse_ok(books_url(T::spec_proto(), self.spec_base(), count as nat)),
            r matches Err(e) ==> e == Error::HttpError,
            r matches Ok(d) ==> d.url@ == books_url(T::spec_proto(), self.spec_base(), count as nat)
                && d.method == Method::Get && body_text(d.body) == None::<Seq<char>>,
    {
        let mut u = self.url_prefix();
        u.append("/book?count=");
        let digits = u32_to_dec(count);
        u.append(digits.as_str());
        match check_url(u.as_str()) {
            Ok(()) => Ok(prepare_get(u)),
            Err(_) => Err(Error::HttpError),
        }
    }

    /// Complete a book-list query: classify the reply and decode the list.
    pub fn get_books(&self, reply: WireOutcome) -> (r: APIResult<Vec<Book>>)
        ensures
            result_deep_view(r) == execute_spec::<Vec<Book>>(reply),
    {
        execute(reply)
    }

    /// Describe the request that queries for the book with `isbn`.
    pub fn get_book_by_isbn_request(&self, isbn: &str) -> (r: Result<RequestDescriptor, Error>)
        ensures
            r is Ok <==> url_parse_ok(book_isbn_url(T::spec_proto(), self.spec_base(), isbn@)),
            r matches Err(e) ==> e == Error::HttpError,
            r matches Ok(d) ==> d.url@ == book_isbn_url(T::spec_proto(), self.spec_base(), isbn@)
                && d.method == Method::Get && body_text(d.body) == None::<Seq<char>>,
    {
        let mut u = self.url_prefix();
        u.append("/book/");
        u.append(isbn);
        match check_url(u.as_str()) {
            Ok(()) => Ok(prepare_get(u)),
            Err(_) => Err(Error::HttpError),
        }
    }

    /// Complete a single-book query.  A missing book comes back as an
    /// empty success body and decodes to `Ok(None)`; a 404 from the server
    /// is the transport-level `NotFound` error.  The two are never
    /// conflated.
    pub fn get_book_by_isbn(&self, reply: WireOutcome) -> (r: APIResult<Option<Book>>)
        ensures
            result_deep_view(r) == execute_spec::<Option<Book>>(reply),
    {
        execute(reply)
    }
}

impl Server<Auth> {
    /// Describe the request that checks the book `isbn` out to
    /// `student_id`.
    pub fn checkout_request(&self, isbn: &str, student_id: &str) -> (r: Result<
        RequestDescriptor,
        Error,
    >)
        ensures
            r is Ok <==> url_parse_ok(checkout_url("https"@, self.spec_base())),
            r matches Err(e) ==> e == Error::HttpError,
            r matches Ok(d) ==> d.url@ == checkout_url("https"@, self.spec_base()) && d.method
                == Method::Post && body_text(d.body) == Some(
                wire_action_request(
                    (ActionRequestView {
                        action: Action::CheckOut,
                        isbn: isbn@,
                        student_id: student_id@,
                    }),
                ),
            ),
    {
        let ac = ActionRequest {
            action: Action::CheckOut,
            isbn: String::from_str(isbn),
            student_id: String::from_str(student_id),
        };
        let mut u = self.url_prefix();
        u.append("/checkout");
        match check_url(u.as_str()) {
            Ok(()) => Ok(prepare_post(u, Some(&ac))),
            Err(_) => Err(Error::HttpError),
        }
    }

    /// Complete a checkout: `Ok(true)` if the checkout went through,
    /// `Ok(false)` if the server rejected the business operation.
    pub fn checkout(&self, reply: WireOutcome) -> (r: APIResult<bool>)
        ensures
            result_deep_view(r) == execute_spec::<bool>(reply),
    {
        execute(reply)
    }

    /// Describe the request that checks the book `isbn` back in from
    /// `student_id`.
    pub fn checkin_request(&self, isbn: &str, student_id: &str) -> (r: Result<
        RequestDescriptor,
        Error,
    >)
        ensures
            r is Ok <==> url_parse_ok(checkin_url("https"@, self.spec_base())),
            r matches Err(e) ==> e == Error::HttpError,
            r matches Ok(d) ==> d.url@ == checkin_url("https"@, self.spec_base()) && d.method
                == Method::Post && body_text(d.body) == Some(
                wire_action_request(
                    (ActionRequestView {
                        action: Action::CheckIn,
                        isbn: isbn@,
                        student_id: student_id@,
                    }),
                ),
            ),
    {
        let ac = ActionRequest {
            action: Action::CheckIn,
            isbn: String::from_str(isbn),
            student_id: String::from_str(student_id),
        };
        let mut u = self.url_prefix();
        u.append("/checkin");
        match check_url(u.as_str()) {
            Ok(()) => Ok(prepare_post(u, Some(&ac))),
            Err(_) => Err(Error::HttpError),
        }
    }

    /// Complete a checkin, with the same two-tier contract as checkout.
    pub fn checkin(&self, reply: WireOutcome) -> (r: APIResult<bool>)
        ensures
            result_deep_view(r) == execute_spec::<bool>(reply),
    {
        execute(reply)
    }

    /// Describe the request that updates the book with `isbn` to match
    /// `book`.
    pub fn update_book_request(&self, isbn: &str, book: &Book) -> (r: Result<
        RequestDescriptor,
        Error,
    >)
        ensures
            r is Ok <==> url_parse_ok(book_isbn_url("https"@, self.spec_base(), isbn@)),
            r matches Err(e) ==> e == Error::HttpError,
            r matches Ok(d) ==> d.url@ == book_isbn_url("https"@, self.spec_base(), isbn@)
                && d.method == Method::Post && body_text(d.body) == Some(
                wire_book(book.deep_view()),
            ),
    {
        let mut u = self.url_prefix();
        u.append("/book/");
        u.append(isbn);
        match check_url(u.as_str()) {
            Ok(()) => Ok(prepare_post(u, Some(book))),
            Err(_) => Err(Error::HttpError),
        }
    }

    /// Complete an update: `Ok(true)` if the update was applied.
    pub fn update_book(&self, reply: WireOutcome) -> (r: APIResult<bool>)
        ensures
            result_deep_view(r) == execute_spec::<bool>(reply),
    {
        execute(reply)
    }

    /// Describe the request that adds `book` to the library.
    pub fn add_book_request(&self, book: &Book) -> (r: Result<RequestDescriptor, Error>)
        ensures
            r is Ok <==> url_parse_ok(book_collection_url("https"@, self.spec_base())),
            r matches Err(e) ==> e == Error::HttpError,
            r matches Ok(d) ==> d.url@ == book_collection_url("https"@, self.spec_base())
                && d.method == Method::Put && body_text(d.body) == Some(
                wire_book(book.deep_view()),
            ),
    {
        let mut u = self.url_prefix();
        u.append("/book");
        match check_url(u.as_str()) {
            Ok(()) => Ok(prepare_put(u, Some(book))),
            Err(_) => Err(Error::HttpError),
        }
    }

    /// Complete an add: `Ok(true)` if the book was added, `Ok(false)` if a
    /// book with that ISBN already exists — a business outcome, not an
    /// error.
    pub fn add_book(&self, reply: WireOutcome) -> (r: APIResult<bool>)
        ensures
            result_deep_view(r) == execute_spec::<bool>(reply),
    {
        execute(reply)
    }

    /// Describe the request that removes the book with `isbn`.
    pub fn delete_book_request(&self, isbn: &str) -> (r: Result<RequestDescriptor, Error>)
        ensures
            r is Ok <==> url_parse_ok(book_isbn_url("https"@, self.spec_base(), isbn@)),
            r matches Err(e) ==> e == Error::HttpError,
            r matches Ok(d) ==> d.url@ == book_isbn_url("https"@, self.spec_base(), isbn@)
                && d.method == Method::Delete && body_text(d.body) == None::<Seq<char>>,
    {
        let mut u = self.url_prefix();
        u.append("/book/");
        u.append(isbn);
        match check_url(u.as_str()) {
            Ok(()) => Ok(prepare_delete(u, None::<&String>)),
            Err(_) => Err(Error::HttpError),
        }
    }

    /// Complete a deletion: `Ok(false)` means there was nothing to delete.
    pub fn delete_book(&self, reply: WireOutcome) -> (r: APIResult<bool>)
        ensures
            result_deep_view(r) == execute_spec::<bool>(reply),
    {
        execute(reply)
    }

    /// Describe the request that registers the book with `isbn`.
    pub fn register_book_request(&self, isbn: &str) -> (r: Result<RequestDescriptor, Error>)
        ensures
            r is Ok <==> url_parse_ok(book_isbn_url("https"@, self.spec_base(), isbn@)),
            r matches Err(e) ==> e == Error::HttpError,
            r matches Ok(d) ==> d.url@ == book_isbn_url("https"@, self.spec_base(), isbn@)
                && d.method == Method::Put && body_text(d.body) == Some(wire_str(isbn@)),
    {
        let mut u = self.url_prefix();
        u.append("/book/");
        u.append(isbn);
        let record = String::from_str(isbn);
        match check_url(u.as_str()) {
            Ok(()) => Ok(prepare_put(u, Some(&record))),
            Err(_) => Err(Error::HttpError),
        }
    }

    /// Complete a registration.
    pub fn register_book(&self, reply: WireOutcome) -> (r: APIResult<bool>)
        ensures
            result_deep_view(r) == execute_spec::<bool>(reply),
    {
        execute(reply)
    }
}

} // verus!
