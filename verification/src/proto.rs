//! Request, response and error shapes of the endpoints.

use crate::status::status_as_u16;
use vstd::prelude::*;

verus! {

/// The credential of a call, supplied apart from the request body.
#[derive(Debug, PartialEq, Eq)]
pub struct Authorization {
    pub authorization: String,
}

impl View for Authorization {
    type V = Seq<char>;

    open spec fn view(&self) -> Seq<char> {
        self.authorization@
    }
}

/// Where a listing starts and how many records it may return.
#[derive(Debug, PartialEq, Eq)]
pub struct Cursor {
    pub cursor: Option<String>,
    pub limit: Option<u32>,
}

/// Mathematical model of a [`Cursor`].
pub struct CursorView {
    pub cursor: Option<Seq<char>>,
    pub limit: Option<u32>,
}

/// The text of an optional string, if there is one.
pub open spec fn text_of(s: Option<String>) -> Option<Seq<char>> {
    match s {
        Some(s) => Some(s@),
        None => None,
    }
}

impl View for Cursor {
    type V = CursorView;

    open spec fn view(&self) -> CursorView {
        CursorView { cursor: text_of(self.cursor), limit: self.limit }
    }
}

/// The cursors that lead to the neighbouring pages of a listing.
#[derive(Debug, PartialEq, Eq)]
pub struct Pagination {
    pub next_cursor: Option<String>,
    pub prev_cursor: Option<String>,
}

/// Mathematical model of a [`Pagination`].
pub struct PaginationView {
    pub next_cursor: Option<Seq<char>>,
    pub prev_cursor: Option<Seq<char>>,
}

impl View for Pagination {
    type V = PaginationView;

    open spec fn view(&self) -> PaginationView {
        PaginationView {
            next_cursor: text_of(self.next_cursor),
            prev_cursor: text_of(self.prev_cursor),
        }
    }
}

/// One page of records.
#[derive(Debug, PartialEq, Eq)]
pub struct Items<T> {
    pub items: Vec<T>,
    pub pagination: Pagination,
}

/// Mathematical model of an [`Items`].
pub struct ItemsView<V> {
    pub items: Seq<V>,
    pub pagination: PaginationView,
}

impl<T: View> View for Items<T> {
    type V = ItemsView<T::V>;

    open spec fn view(&self) -> ItemsView<T::V> {
        ItemsView { items: self.items@.map_values(|t: T| t@), pagination: self.pagination@ }
    }
}

/// Why a listing was refused.
#[derive(Debug, Clone, Copy, PartialEq, Eq, Structural)]
pub enum BooksListError {
    /// The credential is not the expected one.
    Unauthorized,
    /// More records were asked for than one page may hold.
    LimitExceeded { requested: u32, allowed: u32 },
}

impl BooksListError {
    /// The number of the transport status that reports this error: 401 for a
    /// refused credential, 422 for a limit that is too large.
    pub open spec fn spec_status_number(&self) -> u16 {
        match *self {
            BooksListError::Unauthorized => 401,
            BooksListError::LimitExceeded { .. } => 422,
        }
    }

    /// The number of the transport status that reports this error.
    #[verifier::when_used_as_spec(spec_status_number)]
    pub fn status_number(&self) -> (number: u16)
        ensures
            number == self.spec_status_number(),
    {
        match self {
            BooksListError::Unauthorized => 401,
            BooksListError::LimitExceeded { .. } => 422,
        }
    }

    /// The transport status that reports this error: the status whose number
    /// is [`Self::status_number`].
    pub fn status_code(&self) -> (status: http::StatusCode)
        ensures
            status_as_u16(status) == self.status_number(),
    {
        match http::StatusCode::from_u16(self.status_number()) {
            Ok(status) => status,
            Err(_) => vstd::pervasive::unreached(),
        }
    }
}

} // verus!
