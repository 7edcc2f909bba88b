//! The handlers: each answers one call from the shared state, the decoded
//! request and the decoded headers, and changes nothing.

use crate::model::{Book, BookView};
use crate::proto::{
    Authorization, BooksListError, Cursor, CursorView, Items, ItemsView, Pagination,
    PaginationView,
};
use crate::state::AppState;
use std::sync::Arc;
use vstd::prelude::*;

verus! {

/// The largest number of records that a listing may be asked for.
pub const MAX_LIMIT_ALLOWED: u32 = 100;

/// The credential that a caller has to present.
pub open spec fn expected_credential() -> Seq<char> {
    "password"@
}

/// The number of records that a request asks for: none named counts as zero.
pub open spec fn requested_limit(input: CursorView) -> u32 {
    match input.limit {
        Some(limit) => limit,
        None => 0,
    }
}

/// What listing the books answers. The credential is judged first, then the
/// limit; a call that passes both gets every book, in order, and no cursor
/// in either direction.
pub open spec fn list_outcome(
    books: Seq<BookView>,
    input: CursorView,
    credential: Seq<char>,
) -> Result<ItemsView<BookView>, BooksListError> {
    if credential != expected_credential() {
        Err(BooksListError::Unauthorized)
    } else if requested_limit(input) > MAX_LIMIT_ALLOWED {
        Err(
            BooksListError::LimitExceeded {
                requested: requested_limit(input),
                allowed: MAX_LIMIT_ALLOWED,
            },
        )
    } else {
        Ok(
            ItemsView {
                items: books,
                pagination: PaginationView { next_cursor: None, prev_cursor: None },
            },
        )
    }
}

/// The model of a handler's answer.
pub open spec fn answer_view(answer: Result<Items<Book>, BooksListError>) -> Result<
    ItemsView<BookView>,
    BooksListError,
> {
    match answer {
        Ok(items) => Ok(items@),
        Err(error) => Err(error),
    }
}

/// Lists the books of the catalogue. A call whose credential is not the
/// expected one is refused as unauthorized; an authorized call that asks for
/// more than [`MAX_LIMIT_ALLOWED`] records is refused with both numbers; any
/// other call gets a copy of every book and no cursor. The answer is
/// [`list_outcome`] of the catalogue, the request and the credential.
pub fn books_list(state: Arc<AppState>, input: Cursor, headers: Authorization) -> (answer: Result<
    Items<Book>,
    BooksListError,
>)
    ensures
        answer_view(answer) == list_outcome(state@, input@, headers@),
{
    let expected = "password".to_owned();
    if headers.authorization != expected {
        return Err(BooksListError::Unauthorized);
    }
    let requested = input.limit.unwrap_or(0);
    if requested > MAX_LIMIT_ALLOWED {
        return Err(BooksListError::LimitExceeded { requested, allowed: MAX_LIMIT_ALLOWED });
    }
    let items = state.books.clone();
    assert(items@.map_values(|b: Book| b@) =~= state@);
    Ok(Items { items, pagination: Pagination { next_cursor: None, prev_cursor: None } })
}

/// A call that presents any other credential than the expected one is refused
/// as unauthorized, whatever it asks for and whatever the catalogue holds.
pub proof fn wrong_credential_is_refused(
    books: Seq<BookView>,
    input: CursorView,
    credential: Seq<char>,
)
    requires
        credential != expected_credential(),
    ensures
        list_outcome(books, input, credential) == Err::<ItemsView<BookView>, BooksListError>(
            BooksListError::Unauthorized,
        ),
{
}

/// A refusal does not depend on the catalogue: a call that is refused over
/// one catalogue is refused in the same way over every other.
pub proof fn refusal_ignores_the_catalogue(
    books: Seq<BookView>,
    other_books: Seq<BookView>,
    input: CursorView,
    credential: Seq<char>,
)
    requires
        list_outcome(books, input, credential) is Err,
    ensures
        list_outcome(other_books, input, credential) == list_outcome(books, input, credential),
{
}

/// An authorized call that asks for more than the allowed number of records
/// is refused, and the refusal carries the number asked for and the number
/// allowed.
pub proof fn excessive_limit_is_refused(
    books: Seq<BookView>,
    input: CursorView,
    credential: Seq<char>,
    limit: u32,
)
    requires
        credential == expected_credential(),
        input.limit == Some(limit),
        limit > MAX_LIMIT_ALLOWED,
    ensures
        list_outcome(books, input, credential) == Err::<ItemsView<BookView>, BooksListError>(
            BooksListError::LimitExceeded { requested: limit, allowed: 100 },
        ),
{
}

/// An authorized call that names no limit, or one within the allowed number,
/// gets every book of the catalogue, unchanged and in order, and no cursor in
/// either direction.
pub proof fn accepted_call_lists_every_book(
    books: Seq<BookView>,
    input: CursorView,
    credential: Seq<char>,
)
    requires
        credential == expected_credential(),
        input.limit matches Some(limit) ==> limit <= MAX_LIMIT_ALLOWED,
    ensures
        list_outcome(books, input, credential) == Ok::<ItemsView<BookView>, BooksListError>(
            ItemsView {
                items: books,
                pagination: PaginationView { next_cursor: None, prev_cursor: None },
            },
        ),
{
}

} // verus!
