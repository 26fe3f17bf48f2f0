//! The books module.

pub mod models;

use crate::error::AppError;
use crate::json::{array_value, no_members, object_value, string_value};
use crate::json::{text, ArrayBuilder, ObjectBuilder};
use crate::module::{bindings_of, Binding, InitCtx, Migration, ModuleDescriptor, Route};
use crate::openapi::{fragment_paths, fragment_schemas, Members};
use crate::schema::{
    array_of, array_of_spec, fragment, fragment_spec, get_operation, get_operation_spec,
    json_content, json_content_spec, object_schema, object_schema_spec, plain_content,
    plain_content_spec, property, property_spec, reference, reference_spec, response,
    response_spec,
};
use models::Book;
use vstd::prelude::*;

verus! {

/// Name of the module, and of its mount point.
pub const NAME: &'static str = "books";

/// The script of the module's first migration.
pub const INIT_SCRIPT: &'static str = r#"
                DEFINE TABLE book SCHEMAFULL;
                DEFINE FIELD title  ON book TYPE string ASSERT $value != "";
                DEFINE FIELD author ON book TYPE string ASSERT $value != "";
                DEFINE FIELD slug   ON book TYPE string ASSERT $value != "";
                DEFINE INDEX book_slug_unique ON book FIELDS slug UNIQUE;
                "#;

/// The routes of the module, relative to its mount point.
pub open spec fn routes_spec() -> Seq<Binding> {
    seq![
        ("/"@, "books::list_books"@),
        ("/health"@, "books::health_check"@),
        ("/error-test"@, "books::error_test"@),
    ]
}

/// The answer to a failure inside the server.
pub open spec fn internal_error_response() -> serde_json::Value {
    response_spec("Internal server error"@, json_content_spec(reference_spec("ErrorResponse"@)))
}

/// The operations that the module documents, by path.
pub open spec fn paths_spec() -> Members {
    no_members().insert(
        "/"@,
        get_operation_spec(
            "List books"@,
            "Books"@,
            object_value(
                no_members().insert(
                    "200"@,
                    response_spec(
                        "List of books"@,
                        json_content_spec(array_of_spec(reference_spec("Book"@))),
                    ),
                ).insert("500"@, internal_error_response()),
            ),
        ),
    ).insert(
        "/health"@,
        get_operation_spec(
            "Books health check"@,
            "Books"@,
            object_value(
                no_members().insert("200"@, response_spec("OK"@, plain_content_spec())).insert(
                    "500"@,
                    internal_error_response(),
                ),
            ),
        ),
    ).insert(
        "/error-test"@,
        get_operation_spec(
            "Error test endpoint"@,
            "Books"@,
            object_value(
                no_members().insert(
                    "422"@,
                    response_spec(
                        "Validation error"@,
                        json_content_spec(reference_spec("ErrorResponse"@)),
                    ),
                ),
            ),
        ),
    )
}

/// The schemas that the module documents, by name.
pub open spec fn schemas_spec() -> Members {
    no_members().insert(
        "Book"@,
        object_schema_spec(
            object_value(
                no_members().insert("id"@, property_spec("Unique identifier for the book"@)).insert(
                    "title"@,
                    property_spec("Title of the book"@),
                ).insert("author"@, property_spec("Author of the book"@)).insert(
                    "slug"@,
                    property_spec("URL-friendly slug for the book"@),
                ),
            ),
            array_value(
                Seq::empty().push(string_value("id"@)).push(string_value("title"@)).push(
                    string_value("author"@),
                ).push(string_value("slug"@)),
            ),
        ),
    ).insert(
        "CreateBook"@,
        object_schema_spec(
            object_value(
                no_members().insert("title"@, property_spec("Title of the book"@)).insert(
                    "author"@,
                    property_spec("Author of the book"@),
                ).insert("slug"@, property_spec("URL-friendly slug for the book"@)),
            ),
            array_value(
                Seq::empty().push(string_value("title"@)).push(string_value("author"@)).push(
                    string_value("slug"@),
                ),
            ),
        ),
    )
}

/// Whether `module` is what this module registers: its name, its three
/// routes, its fragment and its one migration.
pub open spec fn is_books_module(module: ModuleDescriptor) -> bool {
    &&& module.name@ == NAME@
    &&& bindings_of(module.routes@) == routes_spec()
    &&& module.openapi == Some(fragment_spec(paths_spec(), schemas_spec()))
    &&& module.migrations@ == seq![Migration { id: "001_init", up: INIT_SCRIPT }]
}

/// Books module: a catalogue of books, answered from fixed data.
pub struct BooksModule;

impl BooksModule {
    pub fn new() -> (module: Self) {
        BooksModule
    }

    /// The name of the module.
    pub fn name(&self) -> (name: &'static str)
        ensures
            name@ == NAME@,
    {
        NAME
    }

    /// Initializes the module. There is nothing to prepare, so it succeeds.
    pub fn init(&self, ctx: &InitCtx<'_>) -> (outcome: Result<(), String>)
        ensures
            outcome is Ok,
    {
        Ok(())
    }

    /// The routes of the module, relative to its mount point.
    pub fn routes(&self) -> (routes: Vec<Route>)
        ensures
            bindings_of(routes@) == routes_spec(),
    {
        let mut routes: Vec<Route> = Vec::new();
        routes.push(Route::new("/", "books::list_books"));
        routes.push(Route::new("/health", "books::health_check"));
        routes.push(Route::new("/error-test", "books::error_test"));
        routes
    }

    /// The specification fragment of the module: three paths and two schemas.
    pub fn openapi(&self) -> (spec: Option<serde_json::Value>)
        ensures
            spec == Some(fragment_spec(paths_spec(), schemas_spec())),
            spec matches Some(value) && fragment_paths(value) == paths_spec() && fragment_schemas(
                value,
            ) == schemas_spec(),
    {
        let list = get_operation(
            "List books",
            "Books",
            ObjectBuilder::new().with(
                "200",
                response("List of books", json_content(array_of(reference("Book")))),
            ).with(
                "500",
                response("Internal server error", json_content(reference("ErrorResponse"))),
            ).build(),
        );
        let health = get_operation(
            "Books health check",
            "Books",
            ObjectBuilder::new().with("200", response("OK", plain_content())).with(
                "500",
                response("Internal server error", json_content(reference("ErrorResponse"))),
            ).build(),
        );
        let error_test = get_operation(
            "Error test endpoint",
            "Books",
            ObjectBuilder::new().with(
                "422",
                response("Validation error", json_content(reference("ErrorResponse"))),
            ).build(),
        );
        let paths = ObjectBuilder::new().with("/", list).with("/health", health).with(
            "/error-test",
            error_test,
        );
        let book = object_schema(
            ObjectBuilder::new().with("id", property("Unique identifier for the book")).with(
                "title",
                property("Title of the book"),
            ).with("author", property("Author of the book")).with(
                "slug",
                property("URL-friendly slug for the book"),
            ).build(),
            ArrayBuilder::new().with(text("id")).with(text("title")).with(text("author")).with(
                text("slug"),
            ).build(),
        );
        let create_book = object_schema(
            ObjectBuilder::new().with("title", property("Title of the book")).with(
                "author",
                property("Author of the book"),
            ).with("slug", property("URL-friendly slug for the book")).build(),
            ArrayBuilder::new().with(text("title")).with(text("author")).with(text("slug")).build(),
        );
        let schemas = ObjectBuilder::new().with("Book", book).with("CreateBook", create_book);
        Some(fragment(paths, schemas))
    }

    /// The migrations of the module.
    pub fn migrations(&self) -> (migrations: Vec<Migration>)
        ensures
            migrations@ == seq![Migration { id: "001_init", up: INIT_SCRIPT }],
    {
        let mut migrations: Vec<Migration> = Vec::new();
        migrations.push(Migration { id: "001_init", up: INIT_SCRIPT });
        migrations
    }

    /// Starts the module. It has no background work, so it succeeds.
    pub fn start(&self, ctx: &InitCtx<'_>) -> (outcome: Result<(), String>)
        ensures
            outcome is Ok,
    {
        Ok(())
    }

    /// Stops the module. It holds nothing, so it succeeds.
    pub fn stop(&self) -> (outcome: Result<(), String>)
        ensures
            outcome is Ok,
    {
        Ok(())
    }
}

/// The answer of the health check.
pub fn health_check() -> (answer: &'static str)
    ensures
        answer@ == "books module is healthy"@,
{
    "books module is healthy"
}

/// Lists the books: a fixed catalogue of two.
pub fn list_books() -> (books: Vec<Book>)
    ensures
        books@.len() == 2,
        books@[0].id@ == "book-1"@,
        books@[0].title@ == "The Rust Programming Language"@,
        books@[0].author@ == "Steve Klabnik"@,
        books@[0].slug@ == "rust-programming-language"@,
        books@[1].id@ == "book-2"@,
        books@[1].title@ == "Programming Rust"@,
        books@[1].author@ == "Jim Blandy"@,
        books@[1].slug@ == "programming-rust"@,
{
    let mut books: Vec<Book> = Vec::new();
    books.push(
        Book {
            id: "book-1".to_string(),
            title: "The Rust Programming Language".to_string(),
            author: "Steve Klabnik".to_string(),
            slug: "rust-programming-language".to_string(),
        },
    );
    books.push(
        Book {
            id: "book-2".to_string(),
            title: "Programming Rust".to_string(),
            author: "Jim Blandy".to_string(),
            slug: "programming-rust".to_string(),
        },
    );
    books
}

/// What the error test reports: that the slug is required.
pub open spec fn error_test_detail() -> serde_json::Value {
    object_value(
        no_members().insert("field"@, string_value("slug"@)).insert(
            "error"@,
            string_value("required"@),
        ),
    )
}

/// The message of the error test.
pub const ERROR_TEST_MESSAGE: &'static str =
    "This is a test validation error to demonstrate the new error format with trace_id and timestamp";

/// Always fails with a validation error, to show what error responses look
/// like.
pub fn error_test() -> (outcome: Result<serde_json::Value, AppError>)
    ensures
        outcome matches Err(AppError::Validation { details, code, message }) && details@
            == seq![error_test_detail()] && code@ == "validation_error"@ && message@
            == ERROR_TEST_MESSAGE@,
{
    let mut details: Vec<serde_json::Value> = Vec::new();
    details.push(
        ObjectBuilder::new().with("field", text("slug")).with("error", text("required")).build(),
    );
    Err(AppError::validation(details, ERROR_TEST_MESSAGE))
}

/// The books module as the registry keeps it.
pub fn create_module() -> (module: ModuleDescriptor)
    ensures
        is_books_module(module),
{
    let books = BooksModule::new();
    ModuleDescriptor {
        name: books.name().to_string(),
        routes: books.routes(),
        openapi: books.openapi(),
        migrations: books.migrations(),
    }
}

} // verus!
