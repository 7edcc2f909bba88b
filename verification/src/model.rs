//! Domain records of the catalogue.

use vstd::prelude::*;

verus! {

/// The genre of a book: a closed set of shapes, two of which carry a text.
#[derive(Debug, PartialEq, Eq)]
pub enum BookGenre {
    Fiction,
    Science { subject: String },
    Biography,
    Other { description: String },
}

/// Mathematical model of a [`BookGenre`].
pub enum BookGenreView {
    Fiction,
    Science { subject: Seq<char> },
    Biography,
    Other { description: Seq<char> },
}

impl View for BookGenre {
    type V = BookGenreView;

    open spec fn view(&self) -> BookGenreView {
        match *self {
            BookGenre::Fiction => BookGenreView::Fiction,
            BookGenre::Science { subject } => BookGenreView::Science { subject: subject@ },
            BookGenre::Biography => BookGenreView::Biography,
            BookGenre::Other { description } => BookGenreView::Other { description: description@ },
        }
    }
}

impl Clone for BookGenre {
    fn clone(&self) -> (res: Self)
        ensures
            res == *self,
    {
        match self {
            BookGenre::Fiction => BookGenre::Fiction,
            BookGenre::Science { subject } => BookGenre::Science { subject: subject.clone() },
            BookGenre::Biography => BookGenre::Biography,
            BookGenre::Other { description } => BookGenre::Other {
                description: description.clone(),
            },
        }
    }
}

/// A book of the catalogue.
#[derive(Debug, PartialEq, Eq)]
pub struct Book {
    /// Database identity
    pub id: uuid::Uuid,
    /// ISBN - identity
    pub isbn: String,
    /// Title
    pub title: String,
    /// Book author, full name
    pub author: String,
    /// Genre
    pub genre: BookGenre,
    /// Year of first release
    pub release_year: Option<u16>,
    /// Free-form labels
    pub tags: Vec<String>,
}

/// Mathematical model of a [`Book`].
pub struct BookView {
    pub id: uuid::Uuid,
    pub isbn: Seq<char>,
    pub title: Seq<char>,
    pub author: Seq<char>,
    pub genre: BookGenreView,
    pub release_year: Option<u16>,
    pub tags: Seq<Seq<char>>,
}

impl View for Book {
    type V = BookView;

    open spec fn view(&self) -> BookView {
        BookView {
            id: self.id,
            isbn: self.isbn@,
            title: self.title@,
            author: self.author@,
            genre: self.genre@,
            release_year: self.release_year,
            tags: self.tags@.map_values(|t: String| t@),
        }
    }
}

impl Clone for Book {
    fn clone(&self) -> (res: Self)
        ensures
            res@ == self@,
    {
        let tags = self.tags.clone();
        assert(tags@.map_values(|t: String| t@) =~= self.tags@.map_values(|t: String| t@));
        Book {
            id: self.id,
            isbn: self.isbn.clone(),
            title: self.title.clone(),
            author: self.author.clone(),
            genre: self.genre.clone(),
            release_year: self.release_year,
            tags,
        }
    }
}

} // verus!
