//! The state that all calls share.

use crate::model::{Book, BookGenre, BookGenreView, BookView};
use vstd::prelude::*;

verus! {

/// The catalogue: created once when the service starts and only read after.
#[derive(Debug)]
pub struct AppState {
    pub books: Vec<Book>,
}

impl View for AppState {
    type V = Seq<BookView>;

    open spec fn view(&self) -> Seq<BookView> {
        self.books@.map_values(|b: Book| b@)
    }
}

/// The one book that a new catalogue holds, under the identity `id`.
pub open spec fn seed_book(id: uuid::Uuid) -> BookView {
    BookView {
        id,
        isbn: "978-3-16-148410-0"@,
        title: "Default Book"@,
        author: "John Doe"@,
        genre: BookGenreView::Fiction,
        release_year: Some(2020u16),
        tags: seq!["default"@],
    }
}

impl AppState {
    /// The catalogue as it is at startup, its one book stored under `id`.
    pub fn seeded(id: uuid::Uuid) -> (state: AppState)
        ensures
            state@ == seq![seed_book(id)],
    {
        let tags = vec!["default".to_owned()];
        let book = Book {
            id,
            isbn: "978-3-16-148410-0".to_owned(),
            title: "Default Book".to_owned(),
            author: "John Doe".to_owned(),
            genre: BookGenre::Fiction,
            release_year: Some(2020),
            tags,
        };
        let state = AppState { books: vec![book] };
        assert(book@.tags =~= seq!["default"@]);
        assert(state@ =~= seq![seed_book(id)]);
        state
    }
}

impl Default for AppState {
    /// The catalogue at startup: the seed book under a fresh random identity.
    fn default() -> (state: Self)
        ensures
            state@.len() == 1,
            state@ == seq![seed_book(state@[0].id)],
    {
        AppState::seeded(uuid::Uuid::new_v4())
    }
}

} // verus!
