//! Domain models of the books module.

use vstd::prelude::*;

verus! {

/// A book.
#[derive(Debug)]
pub struct Book {
    /// Unique identifier for the book
    pub id: String,
    /// Title of the book
    pub title: String,
    /// Author of the book
    pub author: String,
    /// URL-friendly slug for the book
    pub slug: String,
}

impl Clone for Book {
    fn clone(&self) -> (copy: Self)
        ensures
            copy == *self,
    {
        Book {
            id: self.id.clone(),
            title: self.title.clone(),
            author: self.author.clone(),
            slug: self.slug.clone(),
        }
    }
}

/// What is asked for when a book is created.
#[derive(Debug)]
pub struct CreateBook {
    /// Title of the book
    pub title: String,
    /// Author of the book
    pub author: String,
    /// URL-friendly slug for the book
    pub slug: String,
}

impl Clone for CreateBook {
    fn clone(&self) -> (copy: Self)
        ensures
            copy == *self,
    {
        CreateBook {
            title: self.title.clone(),
            author: self.author.clone(),
            slug: self.slug.clone(),
        }
    }
}

} // verus!
