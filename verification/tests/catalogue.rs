use booksapi::model::{Book, BookGenre};
use booksapi::AppState;

#[test]
fn new_catalogue_holds_the_default_book() {
    let state = AppState::default();
    assert_eq!(state.books.len(), 1);
    let book = &state.books[0];
    assert_eq!(book.isbn, "978-3-16-148410-0");
    assert_eq!(book.title, "Default Book");
    assert_eq!(book.author, "John Doe");
    assert_eq!(book.genre, BookGenre::Fiction);
    assert_eq!(book.release_year, Some(2020));
    assert_eq!(book.tags, vec!["default".to_string()]);
}

#[test]
fn new_catalogue_gets_a_random_identity() {
    let first = AppState::default();
    let second = AppState::default();
    assert_eq!(first.books[0].id.get_version_num(), 4);
    assert_eq!(second.books[0].id.get_version_num(), 4);
    assert_ne!(first.books[0].id, second.books[0].id);
}

#[test]
fn seeded_catalogue_keeps_the_identity_given() {
    let id = uuid::Uuid::from_u128(0x1234_5678_9abc_def0_1234_5678_9abc_def0);
    let state = AppState::seeded(id);
    assert_eq!(
        state.books,
        vec![Book {
            id,
            isbn: "978-3-16-148410-0".to_string(),
            title: "Default Book".to_string(),
            author: "John Doe".to_string(),
            genre: BookGenre::Fiction,
            release_year: Some(2020),
            tags: vec!["default".to_string()],
        }]
    );
}

#[test]
fn cloned_book_equals_its_source() {
    let book = Book {
        id: uuid::Uuid::from_u128(77),
        isbn: "978-1-4028-9462-6".to_string(),
        title: "On Growth and Form".to_string(),
        author: "D'Arcy Thompson".to_string(),
        genre: BookGenre::Science { subject: "morphology".to_string() },
        release_year: Some(1917),
        tags: vec!["biology".to_string(), "mathematics".to_string()],
    };
    let copy = book.clone();
    assert_eq!(copy, book);
    assert_eq!(copy.tags.len(), 2);
}

#[test]
fn cloned_genre_keeps_its_shape_and_text() {
    let genres = vec![
        BookGenre::Fiction,
        BookGenre::Science { subject: "physics".to_string() },
        BookGenre::Biography,
        BookGenre::Other { description: "pamphlet".to_string() },
    ];
    for genre in &genres {
        assert_eq!(&genre.clone(), genre);
    }
    assert_ne!(
        BookGenre::Science { subject: "x".to_string() },
        BookGenre::Other { description: "x".to_string() }
    );
}
