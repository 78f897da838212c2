//! The wire encoding of payloads.
//!
//! Every request or response payload travels as structured text.  Strings
//! are written in an escaped, newline-terminated form; records are the
//! concatenation of their fields; a list of books is a run of `b`-prefixed
//! records ended by `e`.  An empty body, or the word `null`, stands for
//! "no value".

use vstd::prelude::*;
use vstd::string::*;

use crate::catalog::Action;
use crate::catalog::ActionRequest;
use crate::catalog::ActionRequestView;
use crate::catalog::Book;
use crate::catalog::BookView;
use crate::text::push_char;
use crate::text::str_eq;

verus! {

/// Outcome of decoding a response body.
#[derive(Debug, PartialEq, Eq)]
pub enum Decoded<T> {
    /// The body decoded to a value.
    Value(T),
    /// The body was empty or `null` where a value was expected.
    Null,
    /// The body was not a valid encoding of the expected type.
    Invalid,
}

/// A body that is empty or spells `null` stands for "no value".
pub open spec fn null_like(w: Seq<char>) -> bool {
    w == "null"@ || w.len() == 0
}

/// The escaped form of one character: `%` and newline are written as
/// two-character escapes so that a bare newline can end a string.
pub open spec fn esc_char(c: char) -> Seq<char> {
    if c == '%' {
        seq!['%', '%']
    } else if c == '\n' {
        seq!['%', 'n']
    } else {
        seq![c]
    }
}

/// The escaped form of a string.
pub open spec fn esc(s: Seq<char>) -> Seq<char>
    decreases s.len(),
{
    if s.len() == 0 {
        Seq::empty()
    } else {
        esc_char(s[0]) + esc(s.skip(1))
    }
}

/// A string on the wire: its escaped form ended by a newline.
pub open spec fn wire_str(s: Seq<char>) -> Seq<char> {
    esc(s) + seq!['\n']
}

/// Reads one escaped, newline-ended string from the front of `w`,
/// returning the string and what follows it.
pub open spec fn parse_str(w: Seq<char>) -> Option<(Seq<char>, Seq<char>)>
    decreases w.len(),
{
    if w.len() == 0 {
        None
    } else if w[0] == '\n' {
        Some((Seq::empty(), w.skip(1)))
    } else if w[0] == '%' {
        if w.len() >= 2 && (w[1] == '%' || w[1] == 'n') {
            let c = if w[1] == '%' {
                '%'
            } else {
                '\n'
            };
            match parse_str(w.skip(2)) {
                Some(p) => Some((seq![c] + p.0, p.1)),
                None => None,
            }
        } else {
            None
        }
    } else {
        match parse_str(w.skip(1)) {
            Some(p) => Some((seq![w[0]] + p.0, p.1)),
            None => None,
        }
    }
}

/// The escaped form of a one-character string is that character's escape.
pub proof fn lemma_esc_one(c: char)
    ensures
        esc(seq![c]) == esc_char(c),
{
    let s = seq![c];
    assert(s.skip(1) =~= Seq::<char>::empty());
    assert(esc(Seq::<char>::empty()) == Seq::<char>::empty());
    assert(esc(s) == esc_char(c) + esc(s.skip(1)));
    assert(esc_char(c) + Seq::<char>::empty() =~= esc_char(c));
}

/// Escaping distributes over concatenation.
pub proof fn lemma_esc_append(a: Seq<char>, b: Seq<char>)
    ensures
        esc(a + b) == esc(a) + esc(b),
    decreases a.len(),
{
    if a.len() == 0 {
        assert(a + b =~= b);
        assert(esc(a) + esc(b) =~= esc(b));
    } else {
        assert((a + b).skip(1) =~= a.skip(1) + b);
        lemma_esc_append(a.skip(1), b);
        assert((a + b)[0] == a[0]);
        assert(esc(a + b) =~= esc_char(a[0]) + (esc(a.skip(1)) + esc(b)));
        assert(esc(a) + esc(b) =~= esc_char(a[0]) + (esc(a.skip(1)) + esc(b)));
    }
}

/// Law: reading a string back off the wire gives the string and leaves
/// exactly what followed it.
pub proof fn lemma_parse_wire_str(s: Seq<char>, tail: Seq<char>)
    ensures
        parse_str(wire_str(s) + tail) == Some((s, tail)),
    decreases s.len(),
{
    let w = wire_str(s) + tail;
    if s.len() == 0 {
        assert(w =~= seq!['\n'] + tail);
        assert(w[0] == '\n');
        assert(w.skip(1) =~= tail);
        assert(parse_str(w) == Some((Seq::<char>::empty(), tail)));
        assert(s =~= Seq::<char>::empty());
    } else {
        let c = s[0];
        let rest = s.skip(1);
        assert(esc(s) == esc_char(c) + esc(rest));
        lemma_parse_wire_str(rest, tail);
        if c == '%' {
            assert(w =~= seq!['%', '%'] + (wire_str(rest) + tail));
            assert(w[0] == '%' && w[1] == '%');
            assert(w.skip(2) =~= wire_str(rest) + tail);
            assert(seq![c] + rest =~= s);
        } else if c == '\n' {
            assert(w =~= seq!['%', 'n'] + (wire_str(rest) + tail));
            assert(w[0] == '%' && w[1] == 'n');
            assert(w.skip(2) =~= wire_str(rest) + tail);
            assert(seq![c] + rest =~= s);
        } else {
            assert(w =~= seq![c] + (wire_str(rest) + tail));
            assert(w[0] == c);
            assert(w.skip(1) =~= wire_str(rest) + tail);
            assert(seq![c] + rest =~= s);
        }
    }
}

/// A wire-form string is never empty and never spells `null`.
pub proof fn lemma_wire_str_not_null(s: Seq<char>)
    ensures
        !null_like(wire_str(s)),
        wire_str(s).len() > 0,
        wire_str(s).last() == '\n',
{
    assert(wire_str(s).last() == '\n');
    reveal_strlit("null");
    if wire_str(s) == "null"@ {
        assert(wire_str(s).last() == 'l');
        assert(false);
    }
}

/// A successful read consumes at least the terminating newline.
pub proof fn lemma_parse_str_shrinks(w: Seq<char>)
    ensures
        parse_str(w) matches Some(p) ==> p.1.len() < w.len(),
    decreases w.len(),
{
    if w.len() == 0 {
    } else if w[0] == '\n' {
    } else if w[0] == '%' {
        if w.len() >= 2 && (w[1] == '%' || w[1] == 'n') {
            lemma_parse_str_shrinks(w.skip(2));
        }
    } else {
        lemma_parse_str_shrinks(w.skip(1));
    }
}

/// Whether the body is empty or spells `null`.
pub fn is_null_like(w: &str) -> (r: bool)
    ensures
        r == null_like(w@),
{
    str_eq(w, "null") || w.unicode_len() == 0
}

/// Appends the wire form of `s` onto `out`.
pub fn encode_str_onto(out: &mut String, s: &str)
    ensures
        final(out)@ == old(out)@ + wire_str(s@),
{
    let n = s.unicode_len();
    let mut i: usize = 0;
    while i < n
        invariant
            i <= n,
            n == s@.len(),
            out@ == old(out)@ + esc(s@.take(i as int)),
        decreases n - i,
    {
        let c = s.get_char(i);
        if c == '%' {
            push_char(out, '%');
            push_char(out, '%');
        } else if c == '\n' {
            push_char(out, '%');
            push_char(out, 'n');
        } else {
            push_char(out, c);
        }
        proof {
            lemma_esc_append(s@.take(i as int), seq![s@[i as int]]);
            assert(s@.take(i as int + 1) =~= s@.take(i as int) + seq![s@[i as int]]);
            lemma_esc_one(s@[i as int]);
            assert(out@ =~= old(out)@ + esc(s@.take(i as int + 1)));
        }
        i += 1;
    }
    proof {
        assert(s@.take(n as int) =~= s@);
    }
    push_char(out, '\n');
    proof {
        assert(out@ =~= old(out)@ + wire_str(s@));
    }
}

/// Reads one escaped, newline-ended string off the front of `w`.
pub fn parse_str_exec(w: &str) -> (r: Option<(String, String)>)
    ensures
        (match (r, parse_str(w@)) {
            (Some(p), Some(q)) => p.0@ == q.0 && p.1@ == q.1,
            (None, None) => true,
            _ => false,
        }),
    decreases w@.len(),
{
    let n = w.unicode_len();
    if n == 0 {
        return None;
    }
    let c0 = w.get_char(0);
    if c0 == '\n' {
        let rest = w.substring_char(1, n);
        proof {
            assert(rest@ =~= w@.skip(1));
        }
        Some((String::new(), String::from_str(rest)))
    } else if c0 == '%' {
        if n >= 2 {
            let c1 = w.get_char(1);
            if c1 == '%' || c1 == 'n' {
                let c = if c1 == '%' {
                    '%'
                } else {
                    '\n'
                };
                let sub = w.substring_char(2, n);
                proof {
                    assert(sub@ =~= w@.skip(2));
                }
                match parse_str_exec(sub) {
                    Some(p) => {
                        let mut s = String::new();
                        push_char(&mut s, c);
                        let s = s.concat(p.0.as_str());
                        proof {
                            assert(s@ =~= seq![c] + p.0@);
                        }
                        Some((s, p.1))
                    },
                    None => None,
                }
            } else {
                None
            }
        } else {
            None
        }
    } else {
        let sub = w.substring_char(1, n);
        proof {
            assert(sub@ =~= w@.skip(1));
        }
        match parse_str_exec(sub) {
            Some(p) => {
                let mut s = String::new();
                push_char(&mut s, c0);
                let s = s.concat(p.0.as_str());
                proof {
                    assert(s@ =~= seq![c0] + p.0@);
                }
                Some((s, p.1))
            },
            None => None,
        }
    }
}

} // verus!

// The record layer: books, book lists and action requests are runs of
// wire-form strings behind one-character tags.

use vstd::prelude::*;

verus! {

/// The wire form of a book: its three fields, each a wire-form string.
pub open spec fn wire_book(b: BookView) -> Seq<char> {
    wire_str(b.isbn) + wire_str(b.title) + wire_str(b.author)
}

/// Reads one book from the front of `w`, returning it and what follows.
pub open spec fn parse_book(w: Seq<char>) -> Option<(BookView, Seq<char>)> {
    match parse_str(w) {
        Some(p1) => match parse_str(p1.1) {
            Some(p2) => match parse_str(p2.1) {
                Some(p3) => Some(
                    (BookView { isbn: p1.0, title: p2.0, author: p3.0 }, p3.1),
                ),
                None => None,
            },
            None => None,
        },
        None => None,
    }
}

/// Law: reading a book back off the wire gives the book and leaves
/// exactly what followed it.
pub proof fn lemma_parse_wire_book(b: BookView, tail: Seq<char>)
    ensures
        parse_book(wire_book(b) + tail) == Some((b, tail)),
{
    let w = wire_book(b) + tail;
    assert(w =~= wire_str(b.isbn) + (wire_str(b.title) + (wire_str(b.author) + tail)));
    lemma_parse_wire_str(b.isbn, wire_str(b.title) + (wire_str(b.author) + tail));
    lemma_parse_wire_str(b.title, wire_str(b.author) + tail);
    lemma_parse_wire_str(b.author, tail);
}

/// A successful book read consumes at least one character.
pub proof fn lemma_parse_book_shrinks(w: Seq<char>)
    ensures
        parse_book(w) matches Some(p) ==> p.1.len() < w.len(),
{
    lemma_parse_str_shrinks(w);
    match parse_str(w) {
        Some(p1) => {
            lemma_parse_str_shrinks(p1.1);
            match parse_str(p1.1) {
                Some(p2) => {
                    lemma_parse_str_shrinks(p2.1);
                },
                None => {},
            }
        },
        None => {},
    }
}

/// A book on the wire is never empty and never spells `null`.
pub proof fn lemma_wire_book_not_null(b: BookView)
    ensures
        !null_like(wire_book(b)),
        wire_book(b).len() > 0,
{
    lemma_wire_str_not_null(b.author);
    assert(wire_book(b).last() == '\n');
    reveal_strlit("null");
    if wire_book(b) == "null"@ {
        assert(wire_book(b).last() == 'l');
        assert(false);
    }
}

/// The wire form of a list of books: each book behind a `b`, the run
/// ended by an `e`.
pub open spec fn wire_books(s: Seq<BookView>) -> Seq<char>
    decreases s.len(),
{
    if s.len() == 0 {
        seq!['e']
    } else {
        seq!['b'] + wire_book(s[0]) + wire_books(s.skip(1))
    }
}

#[via_fn]
proof fn parse_books_dec(w: Seq<char>) {
    if w.len() > 0 && w[0] != 'e' && w[0] == 'b' {
        lemma_parse_book_shrinks(w.skip(1));
    }
}

/// Reads a whole list of books: `w` must be exactly one `e`-ended run.
pub open spec fn parse_books(w: Seq<char>) -> Option<Seq<BookView>>
    decreases w.len(),
    via parse_books_dec
{
    if w.len() == 0 {
        None
    } else if w[0] == 'e' {
        if w.len() == 1 {
            Some(Seq::empty())
        } else {
            None
        }
    } else if w[0] == 'b' {
        match parse_book(w.skip(1)) {
            Some(p) => match parse_books(p.1) {
                Some(s) => Some(seq![p.0] + s),
                None => None,
            },
            None => None,
        }
    } else {
        None
    }
}

/// Law: reading a list of books back off the wire gives the list.
pub proof fn lemma_parse_wire_books(s: Seq<BookView>)
    ensures
        parse_books(wire_books(s)) == Some(s),
    decreases s.len(),
{
    let w = wire_books(s);
    if s.len() == 0 {
        assert(w =~= seq!['e']);
    } else {
        assert(w =~= seq!['b'] + (wire_book(s[0]) + wire_books(s.skip(1))));
        assert(w[0] == 'b');
        assert(w.skip(1) =~= wire_book(s[0]) + wire_books(s.skip(1)));
        lemma_parse_wire_book(s[0], wire_books(s.skip(1)));
        lemma_parse_wire_books(s.skip(1));
        assert(seq![s[0]] + s.skip(1) =~= s);
    }
}

/// A book list on the wire is never empty and never spells `null`.
pub proof fn lemma_wire_books_not_null(s: Seq<BookView>)
    ensures
        !null_like(wire_books(s)),
        wire_books(s).len() > 0,
{
    reveal_strlit("null");
    if s.len() == 0 {
        assert(wire_books(s) =~= seq!['e']);
    } else {
        assert(wire_books(s) =~= seq!['b'] + (wire_book(s[0]) + wire_books(s.skip(1))));
    }
}

/// The one-character tag of a business action.
pub open spec fn action_tag(a: Action) -> char {
    match a {
        Action::CheckOut => 'o',
        Action::CheckIn => 'i',
    }
}

/// The wire form of an action request: the action's tag, then the ISBN
/// and the student id as wire-form strings.
pub open spec fn wire_action_request(v: ActionRequestView) -> Seq<char> {
    seq![action_tag(v.action)] + wire_str(v.isbn) + wire_str(v.student_id)
}

/// Reads a whole action request: `w` must be exactly one request.
pub open spec fn parse_action_request(w: Seq<char>) -> Option<ActionRequestView> {
    if w.len() == 0 {
        None
    } else if w[0] == 'o' || w[0] == 'i' {
        let act = if w[0] == 'o' {
            Action::CheckOut
        } else {
            Action::CheckIn
        };
        match parse_str(w.skip(1)) {
            Some(p1) => match parse_str(p1.1) {
                Some(p2) => if p2.1.len() == 0 {
                    Some(ActionRequestView { action: act, isbn: p1.0, student_id: p2.0 })
                } else {
                    None
                },
                None => None,
            },
            None => None,
        }
    } else {
        None
    }
}

/// Law: reading an action request back off the wire gives the request.
pub proof fn lemma_parse_wire_action_request(v: ActionRequestView)
    ensures
        parse_action_request(wire_action_request(v)) == Some(v),
{
    let w = wire_action_request(v);
    assert(w =~= seq![action_tag(v.action)] + (wire_str(v.isbn) + (wire_str(v.student_id)
        + Seq::<char>::empty())));
    assert(w[0] == action_tag(v.action));
    assert(w.skip(1) =~= wire_str(v.isbn) + (wire_str(v.student_id) + Seq::<char>::empty()));
    lemma_parse_wire_str(v.isbn, wire_str(v.student_id) + Seq::<char>::empty());
    lemma_parse_wire_str(v.student_id, Seq::<char>::empty());
}

/// An action request on the wire is never empty and never spells `null`.
pub proof fn lemma_wire_action_request_not_null(v: ActionRequestView)
    ensures
        !null_like(wire_action_request(v)),
        wire_action_request(v).len() > 0,
{
    reveal_strlit("null");
    assert(wire_action_request(v)[0] == action_tag(v.action));
}

} // verus!

// The executable record layer.

verus! {

/// Appends the wire form of `b` onto `out`.
pub fn encode_book_onto(out: &mut String, b: &Book)
    ensures
        final(out)@ == old(out)@ + wire_book(b.deep_view()),
{
    encode_str_onto(out, b.isbn.as_str());
    encode_str_onto(out, b.title.as_str());
    encode_str_onto(out, b.author.as_str());
    proof {
        assert(out@ =~= old(out)@ + wire_book(b.deep_view()));
    }
}

/// Reads one book off the front of `w`.
pub fn parse_book_exec(w: &str) -> (r: Option<(Book, String)>)
    ensures
        (match (r, parse_book(w@)) {
            (Some(p), Some(q)) => p.0.deep_view() == q.0 && p.1@ == q.1,
            (None, None) => true,
            _ => false,
        }),
{
    match parse_str_exec(w) {
        Some(p1) => match parse_str_exec(p1.1.as_str()) {
            Some(p2) => match parse_str_exec(p2.1.as_str()) {
                Some(p3) => Some(
                    (Book { isbn: p1.0, title: p2.0, author: p3.0 }, p3.1),
                ),
                None => None,
            },
            None => None,
        },
        None => None,
    }
}

/// Renders the books from index `i` on as one `e`-ended run.
fn encode_books_from(v: &Vec<Book>, i: usize) -> (r: String)
    requires
        i <= v.len(),
    ensures
        r@ == wire_books(v.deep_view().skip(i as int)),
    decreases v.len() - i,
{
    if i == v.len() {
        let mut s = String::new();
        push_char(&mut s, 'e');
        proof {
            assert(v.deep_view().skip(i as int) =~= Seq::<BookView>::empty());
            assert(s@ =~= seq!['e']);
        }
        s
    } else {
        let mut s = String::new();
        push_char(&mut s, 'b');
        encode_book_onto(&mut s, &v[i]);
        let rest = encode_books_from(v, i + 1);
        let out = s.concat(rest.as_str());
        proof {
            let dv = v.deep_view();
            assert(dv.skip(i as int)[0] == dv[i as int]);
            assert(dv.skip(i as int).skip(1) =~= dv.skip(i as int + 1));
            assert(out@ =~= seq!['b'] + wire_book(dv[i as int]) + wire_books(dv.skip(
                i as int + 1,
            )));
            assert(wire_books(dv.skip(i as int)) =~= seq!['b'] + wire_book(
                dv.skip(i as int)[0],
            ) + wire_books(dv.skip(i as int).skip(1)));
        }
        out
    }
}

/// Reads a whole `e`-ended run of books.
fn parse_books_exec(w: &str) -> (r: Option<Vec<Book>>)
    ensures
        (match (r, parse_books(w@)) {
            (Some(v), Some(s)) => v.deep_view() == s,
            (None, None) => true,
            _ => false,
        }),
    decreases w@.len(),
{
    let n = w.unicode_len();
    if n == 0 {
        return None;
    }
    let c = w.get_char(0);
    if c == 'e' {
        if n == 1 {
            let v: Vec<Book> = Vec::new();
            proof {
                assert(v.deep_view() =~= Seq::<BookView>::empty());
            }
            Some(v)
        } else {
            None
        }
    } else if c == 'b' {
        let rest = w.substring_char(1, n);
        proof {
            assert(rest@ =~= w@.skip(1));
            lemma_parse_book_shrinks(rest@);
        }
        match parse_book_exec(rest) {
            Some(p) => {
                match parse_books_exec(p.1.as_str()) {
                    Some(v2) => {
                        let mut v2 = v2;
                        let ghost old_v2 = v2.deep_view();
                        v2.insert(0, p.0);
                        proof {
                            assert(v2.deep_view() =~= seq![p.0.deep_view()] + old_v2);
                        }
                        Some(v2)
                    },
                    None => None,
                }
            },
            None => None,
        }
    } else {
        None
    }
}

/// Appends the wire form of an action request onto `out`.
pub fn encode_action_request_onto(out: &mut String, a: &ActionRequest)
    ensures
        final(out)@ == old(out)@ + wire_action_request(a.deep_view()),
{
    match a.action {
        Action::CheckOut => push_char(out, 'o'),
        Action::CheckIn => push_char(out, 'i'),
    }
    encode_str_onto(out, a.isbn.as_str());
    encode_str_onto(out, a.student_id.as_str());
    proof {
        assert(out@ =~= old(out)@ + wire_action_request(a.deep_view()));
    }
}

/// Reads a whole action request.
fn parse_action_request_exec(w: &str) -> (r: Option<ActionRequest>)
    ensures
        (match (r, parse_action_request(w@)) {
            (Some(a), Some(av)) => a.deep_view() == av,
            (None, None) => true,
            _ => false,
        }),
{
    let n = w.unicode_len();
    if n == 0 {
        return None;
    }
    let c = w.get_char(0);
    if c == 'o' || c == 'i' {
        let act = if c == 'o' {
            Action::CheckOut
        } else {
            Action::CheckIn
        };
        let rest = w.substring_char(1, n);
        proof {
            assert(rest@ =~= w@.skip(1));
        }
        match parse_str_exec(rest) {
            Some(p1) => match parse_str_exec(p1.1.as_str()) {
                Some(p2) => if p2.1.unicode_len() == 0 {
                    proof {
                        assert(p2.1@ =~= Seq::<char>::empty());
                    }
                    Some(ActionRequest { action: act, isbn: p1.0, student_id: p2.0 })
                } else {
                    None
                },
                None => None,
            },
            None => None,
        }
    } else {
        None
    }
}

} // verus!

// The payload capability: every type that travels through the executor
// encodes to, and decodes from, the wire, and decoding an encoding gives
// the value back.

verus! {

/// The deep view of a decode outcome.
pub open spec fn decoded_deep_view<T: DeepView>(d: Decoded<T>) -> Decoded<T::V> {
    match d {
        Decoded::Value(v) => Decoded::Value(v.deep_view()),
        Decoded::Null => Decoded::Null,
        Decoded::Invalid => Decoded::Invalid,
    }
}

/// A payload type that travels through the request executor.
pub trait Wire: Sized + DeepView {
    /// The wire form of a value of this type.
    spec fn wire_spec(v: Self::V) -> Seq<char>;

    /// What any response body decodes to at this type.
    spec fn decode_spec(w: Seq<char>) -> Decoded<Self::V>;

    /// Law: decoding an encoded value gives back exactly that value.
    proof fn wire_roundtrip(v: Self::V)
        ensures
            Self::decode_spec(Self::wire_spec(v)) == Decoded::<Self::V>::Value(v),
    ;

    /// Encodes the value for the wire.
    fn encode(&self) -> (r: String)
        ensures
            r@ == Self::wire_spec(self.deep_view()),
    ;

    /// Decodes one whole response body.
    fn decode(w: &str) -> (r: Decoded<Self>)
        ensures
            decoded_deep_view(r) == Self::decode_spec(w@),
    ;
}

impl Wire for String {
    open spec fn wire_spec(v: Seq<char>) -> Seq<char> {
        wire_str(v)
    }

    open spec fn decode_spec(w: Seq<char>) -> Decoded<Seq<char>> {
        if null_like(w) {
            Decoded::Null
        } else {
            match parse_str(w) {
                Some(p) => if p.1.len() == 0 {
                    Decoded::Value(p.0)
                } else {
                    Decoded::Invalid
                },
                None => Decoded::Invalid,
            }
        }
    }

    proof fn wire_roundtrip(v: Seq<char>) {
        lemma_wire_str_not_null(v);
        lemma_parse_wire_str(v, Seq::empty());
        assert(wire_str(v) + Seq::<char>::empty() =~= wire_str(v));
    }

    fn encode(&self) -> (r: String) {
        let mut out = String::new();
        encode_str_onto(&mut out, self.as_str());
        proof {
            assert(out@ =~= wire_str(self@));
        }
        out
    }

    fn decode(w: &str) -> (r: Decoded<String>) {
        if is_null_like(w) {
            Decoded::Null
        } else {
            match parse_str_exec(w) {
                Some(p) => if p.1.unicode_len() == 0 {
                    Decoded::Value(p.0)
                } else {
                    Decoded::Invalid
                },
                None => Decoded::Invalid,
            }
        }
    }
}

impl Wire for bool {
    open spec fn wire_spec(v: bool) -> Seq<char> {
        if v {
            "true"@
        } else {
            "false"@
        }
    }

    open spec fn decode_spec(w: Seq<char>) -> Decoded<bool> {
        if w == "true"@ {
            Decoded::Value(true)
        } else if w == "false"@ {
            Decoded::Value(false)
        } else if null_like(w) {
            Decoded::Null
        } else {
            Decoded::Invalid
        }
    }

    proof fn wire_roundtrip(v: bool) {
        reveal_strlit("true");
        reveal_strlit("false");
        reveal_strlit("null");
        assert("true"@.len() == 4);
        assert("false"@.len() == 5);
        assert("null"@.len() == 4);
        assert("true"@[0] == 't');
        assert("null"@[0] == 'n');
    }

    fn encode(&self) -> (r: String) {
        if *self {
            String::from_str("true")
        } else {
            String::from_str("false")
        }
    }

    fn decode(w: &str) -> (r: Decoded<bool>) {
        if str_eq(w, "true") {
            Decoded::Value(true)
        } else if str_eq(w, "false") {
            Decoded::Value(false)
        } else if is_null_like(w) {
            Decoded::Null
        } else {
            Decoded::Invalid
        }
    }
}

impl Wire for () {
    open spec fn wire_spec(v: ()) -> Seq<char> {
        "null"@
    }

    open spec fn decode_spec(w: Seq<char>) -> Decoded<()> {
        if null_like(w) {
            Decoded::Value(())
        } else {
            Decoded::Invalid
        }
    }

    proof fn wire_roundtrip(v: ()) {
    }

    fn encode(&self) -> (r: String) {
        String::from_str("null")
    }

    fn decode(w: &str) -> (r: Decoded<()>) {
        if is_null_like(w) {
            Decoded::Value(())
        } else {
            Decoded::Invalid
        }
    }
}

impl Wire for Book {
    open spec fn wire_spec(v: BookView) -> Seq<char> {
        wire_book(v)
    }

    open spec fn decode_spec(w: Seq<char>) -> Decoded<BookView> {
        if null_like(w) {
            Decoded::Null
        } else {
            match parse_book(w) {
                Some(p) => if p.1.len() == 0 {
                    Decoded::Value(p.0)
                } else {
                    Decoded::Invalid
                },
                None => Decoded::Invalid,
            }
        }
    }

    proof fn wire_roundtrip(v: BookView) {
        lemma_wire_book_not_null(v);
        lemma_parse_wire_book(v, Seq::empty());
        assert(wire_book(v) + Seq::<char>::empty() =~= wire_book(v));
    }

    fn encode(&self) -> (r: String) {
        let mut out = String::new();
        encode_book_onto(&mut out, self);
        proof {
            assert(out@ =~= wire_book(self.deep_view()));
        }
        out
    }

    fn decode(w: &str) -> (r: Decoded<Book>) {
        if is_null_like(w) {
            Decoded::Null
        } else {
            match parse_book_exec(w) {
                Some(p) => if p.1.unicode_len() == 0 {
                    Decoded::Value(p.0)
                } else {
                    Decoded::Invalid
                },
                None => Decoded::Invalid,
            }
        }
    }
}

impl Wire for Vec<Book> {
    open spec fn wire_spec(v: Seq<BookView>) -> Seq<char> {
        wire_books(v)
    }

    open spec fn decode_spec(w: Seq<char>) -> Decoded<Seq<BookView>> {
        if null_like(w) {
            Decoded::Null
        } else {
            match parse_books(w) {
                Some(s) => Decoded::Value(s),
                None => Decoded::Invalid,
            }
        }
    }

    proof fn wire_roundtrip(v: Seq<BookView>) {
        lemma_wire_books_not_null(v);
        lemma_parse_wire_books(v);
    }

    fn encode(&self) -> (r: String) {
        let r = encode_books_from(self, 0);
        proof {
            assert(self.deep_view().skip(0) =~= self.deep_view());
        }
        r
    }

    fn decode(w: &str) -> (r: Decoded<Vec<Book>>) {
        if is_null_like(w) {
            Decoded::Null
        } else {
            match parse_books_exec(w) {
                Some(v) => Decoded::Value(v),
                None => Decoded::Invalid,
            }
        }
    }
}

impl Wire for Option<Book> {
    open spec fn wire_spec(v: Option<BookView>) -> Seq<char> {
        match v {
            None => "null"@,
            Some(b) => wire_book(b),
        }
    }

    open spec fn decode_spec(w: Seq<char>) -> Decoded<Option<BookView>> {
        if null_like(w) {
            Decoded::Value(None)
        } else {
            match parse_book(w) {
                Some(p) => if p.1.len() == 0 {
                    Decoded::Value(Some(p.0))
                } else {
                    Decoded::Invalid
                },
                None => Decoded::Invalid,
            }
        }
    }

    proof fn wire_roundtrip(v: Option<BookView>) {
        match v {
            None => {},
            Some(b) => {
                lemma_wire_book_not_null(b);
                lemma_parse_wire_book(b, Seq::empty());
                assert(wire_book(b) + Seq::<char>::empty() =~= wire_book(b));
            },
        }
    }

    fn encode(&self) -> (r: String) {
        match self {
            None => String::from_str("null"),
            Some(b) => {
                let mut out = String::new();
                encode_book_onto(&mut out, b);
                proof {
                    assert(out@ =~= wire_book(b.deep_view()));
                }
                out
            },
        }
    }

    fn decode(w: &str) -> (r: Decoded<Option<Book>>) {
        if is_null_like(w) {
            Decoded::Value(None)
        } else {
            match parse_book_exec(w) {
                Some(p) => if p.1.unicode_len() == 0 {
                    Decoded::Value(Some(p.0))
                } else {
                    Decoded::Invalid
                },
                None => Decoded::Invalid,
            }
        }
    }
}

impl Wire for ActionRequest {
    open spec fn wire_spec(v: ActionRequestView) -> Seq<char> {
        wire_action_request(v)
    }

    open spec fn decode_spec(w: Seq<char>) -> Decoded<ActionRequestView> {
        if null_like(w) {
            Decoded::Null
        } else {
            match parse_action_request(w) {
                Some(a) => Decoded::Value(a),
                None => Decoded::Invalid,
            }
        }
    }

    proof fn wire_roundtrip(v: ActionRequestView) {
        lemma_wire_action_request_not_null(v);
        lemma_parse_wire_action_request(v);
    }

    fn encode(&self) -> (r: String) {
        let mut out = String::new();
        encode_action_request_onto(&mut out, self);
        proof {
            assert(out@ =~= wire_action_request(self.deep_view()));
        }
        out
    }

    fn decode(w: &str) -> (r: Decoded<ActionRequest>) {
        if is_null_like(w) {
            Decoded::Null
        } else {
            match parse_action_request_exec(w) {
                Some(a) => Decoded::Value(a),
                None => Decoded::Invalid,
            }
        }
    }
}

} // verus!
