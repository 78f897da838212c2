//! The catalog payload types: books and checkout/checkin actions.

use vstd::prelude::*;

verus! {

/// A book record in the catalog.
#[derive(Clone, Debug, PartialEq, Eq)]
pub struct Book {
    pub isbn: String,
    pub title: String,
    pub author: String,
}

/// The ghost form of a [`Book`]: its fields as character sequences.
pub struct BookView {
    pub isbn: Seq<char>,
    pub title: Seq<char>,
    pub author: Seq<char>,
}

impl DeepView for Book {
    type V = BookView;

    open spec fn deep_view(&self) -> BookView {
        BookView { isbn: self.isbn@, title: self.title@, author: self.author@ }
    }
}

/// The business action carried by an [`ActionRequest`].
#[derive(Clone, Copy, Debug, PartialEq, Eq, Structural)]
pub enum Action {
    CheckOut,
    CheckIn,
}

/// A checkout/checkin request payload.
#[derive(Clone, Debug, PartialEq, Eq)]
pub struct ActionRequest {
    pub action: Action,
    pub isbn: String,
    pub student_id: String,
}

/// The ghost form of an [`ActionRequest`].
pub struct ActionRequestView {
    pub action: Action,
    pub isbn: Seq<char>,
    pub student_id: Seq<char>,
}

impl DeepView for ActionRequest {
    type V = ActionRequestView;

    open spec fn deep_view(&self) -> ActionRequestView {
        ActionRequestView {
            action: self.action,
            isbn: self.isbn@,
            student_id: self.student_id@,
        }
    }
}

} // verus!
