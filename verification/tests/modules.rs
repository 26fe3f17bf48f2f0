use atlas::error::AppError;
use atlas::module::InitCtx;
use atlas::modules::books::{self, BooksModule};
use atlas::modules::register_all;
use atlas::modules::users::{self, UsersModule};
use atlas::registry::ModuleRegistry;
use atlas::router::build_router;
use atlas::settings::Settings;
use serde_json::Value;

fn parse(text: &str) -> Value {
    serde_json::from_str(text).unwrap()
}

fn bindings(routes: &[atlas::module::Route]) -> Vec<(&str, &str)> {
    routes.iter().map(|r| (r.path.as_str(), r.handler.as_str())).collect()
}

#[test]
fn books_module_declares_itself() {
    let module = BooksModule::new();
    assert_eq!(module.name(), "books");
    assert_eq!(
        bindings(&module.routes()),
        vec![
            ("/", "books::list_books"),
            ("/health", "books::health_check"),
            ("/error-test", "books::error_test"),
        ]
    );
    let migrations = module.migrations();
    assert_eq!(migrations.len(), 1);
    assert_eq!(migrations[0].id, "001_init");
    assert_eq!(
        migrations[0].up,
        r#"
                DEFINE TABLE book SCHEMAFULL;
                DEFINE FIELD title  ON book TYPE string ASSERT $value != "";
                DEFINE FIELD author ON book TYPE string ASSERT $value != "";
                DEFINE FIELD slug   ON book TYPE string ASSERT $value != "";
                DEFINE INDEX book_slug_unique ON book FIELDS slug UNIQUE;
                "#
    );
    let settings = Settings::default();
    let ctx = InitCtx { settings: &settings };
    assert_eq!(module.init(&ctx), Ok(()));
    assert_eq!(module.start(&ctx), Ok(()));
    assert_eq!(module.stop(), Ok(()));
    assert_eq!(books::health_check(), "books module is healthy");
}

#[test]
fn books_fragment_is_the_documented_one() {
    let expected = parse(
        r##"{
            "paths": {
                "/": {
                    "get": {
                        "summary": "List books",
                        "tags": ["Books"],
                        "responses": {
                            "200": {
                                "description": "List of books",
                                "content": {
                                    "application/json": {
                                        "schema": {
                                            "type": "array",
                                            "items": {
                                                "$ref": "#/components/schemas/Book"
                                            }
                                        }
                                    }
                                }
                            },
                            "500": {
                                "description": "Internal server error",
                                "content": {
                                    "application/json": {
                                        "schema": {
                                            "$ref": "#/components/schemas/ErrorResponse"
                                        }
                                    }
                                }
                            }
                        }
                    }
                },
                "/health": {
                    "get": {
                        "summary": "Books health check",
                        "tags": ["Books"],
                        "responses": {
                            "200": {
                                "description": "OK",
                                "content": {
                                    "text/plain": {
                                        "schema": {
                                            "type": "string"
                                        }
                                    }
                                }
                            },
                            "500": {
                                "description": "Internal server error",
                                "content": {
                                    "application/json": {
                                        "schema": {
                                            "$ref": "#/components/schemas/ErrorResponse"
                                        }
                                    }
                                }
                            }
                        }
                    }
                },
                "/error-test": {
                    "get": {
                        "summary": "Error test endpoint",
                        "tags": ["Books"],
                        "responses": {
                            "422": {
                                "description": "Validation error",
                                "content": {
                                    "application/json": {
                                        "schema": {
                                            "$ref": "#/components/schemas/ErrorResponse"
                                        }
                                    }
                                }
                            }
                        }
                    }
                }
            },
            "components": {
                "schemas": {
                    "Book": {
                        "type": "object",
                        "properties": {
                            "id": {
                                "type": "string",
                                "description": "Unique identifier for the book"
                            },
                            "title": {
                                "type": "string",
                                "description": "Title of the book"
                            },
                            "author": {
                                "type": "string",
                                "description": "Author of the book"
                            },
                            "slug": {
                                "type": "string",
                                "description": "URL-friendly slug for the book"
                            }
                        },
                        "required": ["id", "title", "author", "slug"]
                    },
                    "CreateBook": {
                        "type": "object",
                        "properties": {
                            "title": {
                                "type": "string",
                                "description": "Title of the book"
                            },
                            "author": {
                                "type": "string",
                                "description": "Author of the book"
                            },
                            "slug": {
                                "type": "string",
                                "description": "URL-friendly slug for the book"
                            }
                        },
                        "required": ["title", "author", "slug"]
                    }
                }
            }
        }"##,
    );
    assert_eq!(BooksModule::new().openapi(), Some(expected));
}

#[test]
fn users_module_declares_itself() {
    let module = UsersModule::new();
    assert_eq!(module.name(), "users");
    assert_eq!(
        bindings(&module.routes()),
        vec![
            ("/", "users::list_users"),
            ("/health", "users::health_check"),
            ("/profile", "users::get_profile"),
        ]
    );
    let migrations = module.migrations();
    assert_eq!(migrations.len(), 1);
    assert_eq!(migrations[0].id, "001_init");
    assert_eq!(
        migrations[0].up,
        r#"
                DEFINE TABLE user SCHEMAFULL;
                DEFINE FIELD email     ON user TYPE string ASSERT $value != "";
                DEFINE FIELD name      ON user TYPE string ASSERT $value != "";
                DEFINE FIELD bio       ON user TYPE string;
                DEFINE FIELD avatar_url ON user TYPE string;
                DEFINE INDEX user_email_unique ON user FIELDS email UNIQUE;
                "#
    );
    let settings = Settings::default();
    let ctx = InitCtx { settings: &settings };
    assert_eq!(module.init(&ctx), Ok(()));
    assert_eq!(module.start(&ctx), Ok(()));
    assert_eq!(module.stop(), Ok(()));
    assert_eq!(users::health_check(), "users module is healthy");
}

#[test]
fn users_fragment_is_the_documented_one() {
    let expected = parse(
        r##"{
            "paths": {
                "/": {
                    "get": {
                        "summary": "List users",
                        "tags": ["Users"],
                        "responses": {
                            "200": {
                                "description": "List of users",
                                "content": {
                                    "application/json": {
                                        "schema": {
                                            "type": "array",
                                            "items": {
                                                "$ref": "#/components/schemas/User"
                                            }
                                        }
                                    }
                                }
                            },
                            "500": {
                                "description": "Internal server error",
                                "content": {
                                    "application/json": {
                                        "schema": {
                                            "$ref": "#/components/schemas/ErrorResponse"
                                        }
                                    }
                                }
                            }
                        }
                    }
                },
                "/health": {
                    "get": {
                        "summary": "Users health check",
                        "tags": ["Users"],
                        "responses": {
                            "200": {
                                "description": "OK",
                                "content": {
                                    "text/plain": {
                                        "schema": {
                                            "type": "string"
                                        }
                                    }
                                }
                            }
                        }
                    }
                },
                "/profile": {
                    "get": {
                        "summary": "Get user profile",
                        "tags": ["Users"],
                        "responses": {
                            "200": {
                                "description": "User profile",
                                "content": {
                                    "application/json": {
                                        "schema": {
                                            "$ref": "#/components/schemas/UserProfile"
                                        }
                                    }
                                }
                            },
                            "404": {
                                "description": "User not found",
                                "content": {
                                    "application/json": {
                                        "schema": {
                                            "$ref": "#/components/schemas/ErrorResponse"
                                        }
                                    }
                                }
                            }
                        }
                    }
                }
            },
            "components": {
                "schemas": {
                    "User": {
                        "type": "object",
                        "properties": {
                            "id": {
                                "type": "string",
                                "description": "Unique identifier for the user"
                            },
                            "email": {
                                "type": "string",
                                "format": "email",
                                "description": "User's email address"
                            },
                            "name": {
                                "type": "string",
                                "description": "User's full name"
                            },
                            "created_at": {
                                "type": "string",
                                "format": "date-time",
                                "description": "When the user was created"
                            }
                        },
                        "required": ["id", "email", "name", "created_at"]
                    },
                    "UserProfile": {
                        "type": "object",
                        "properties": {
                            "id": {
                                "type": "string",
                                "description": "Unique identifier for the user"
                            },
                            "email": {
                                "type": "string",
                                "format": "email",
                                "description": "User's email address"
                            },
                            "name": {
                                "type": "string",
                                "description": "User's full name"
                            },
                            "bio": {
                                "type": "string",
                                "description": "User's biography"
                            },
                            "avatar_url": {
                                "type": "string",
                                "format": "uri",
                                "description": "URL to user's avatar image"
                            },
                            "created_at": {
                                "type": "string",
                                "format": "date-time",
                                "description": "When the user was created"
                            },
                            "updated_at": {
                                "type": "string",
                                "format": "date-time",
                                "description": "When the user was last updated"
                            }
                        },
                        "required": ["id", "email", "name", "created_at"]
                    }
                }
            }
        }"##,
    );
    assert_eq!(UsersModule::new().openapi(), Some(expected));
}

#[test]
fn the_handlers_answer_with_fixed_data() {
    let listed = books::list_books();
    assert_eq!(listed.len(), 2);
    assert_eq!(listed[0].id, "book-1");
    assert_eq!(listed[0].title, "The Rust Programming Language");
    assert_eq!(listed[0].author, "Steve Klabnik");
    assert_eq!(listed[0].slug, "rust-programming-language");
    assert_eq!(listed[1].id, "book-2");
    assert_eq!(listed[1].title, "Programming Rust");
    assert_eq!(listed[1].author, "Jim Blandy");
    assert_eq!(listed[1].slug, "programming-rust");
    assert_eq!(listed[1].clone().slug, "programming-rust");

    assert_eq!(
        users::list_users(),
        vec![
            parse(
                r#"{"id": "user-1", "email": "john@example.com", "name": "John Doe",
                    "created_at": "2024-01-01T00:00:00Z"}"#
            ),
            parse(
                r#"{"id": "user-2", "email": "jane@example.com", "name": "Jane Smith",
                    "created_at": "2024-01-02T00:00:00Z"}"#
            ),
        ]
    );
    assert_eq!(
        users::get_profile(),
        parse(
            r#"{"id": "user-1", "email": "john@example.com", "name": "John Doe",
                "bio": "Software developer passionate about Rust",
                "avatar_url": "https://example.com/avatars/john.jpg",
                "created_at": "2024-01-01T00:00:00Z", "updated_at": "2024-01-15T10:30:00Z"}"#
        )
    );
}

#[test]
fn the_error_test_always_fails_with_a_validation_error() {
    match books::error_test() {
        Err(AppError::Validation { details, code, message }) => {
            assert_eq!(details, vec![parse(r#"{"field": "slug", "error": "required"}"#)]);
            assert_eq!(code, "validation_error");
            assert_eq!(
                message,
                "This is a test validation error to demonstrate the new error format with trace_id and timestamp"
            );
        }
        other => panic!("expected a validation error, got {:?}", other),
    }
}

#[test]
fn register_all_registers_books_then_users_as_custom_modules() {
    let mut registry = ModuleRegistry::new();
    register_all(&mut registry);
    assert_eq!(registry.core_module_count(), 0);
    assert_eq!(registry.custom_module_count(), 2);
    let names: Vec<&str> = registry.modules().iter().map(|m| m.name.as_str()).collect();
    assert_eq!(names, vec!["books", "users"]);
    let created = books::create_module();
    assert_eq!(created.name, "books");
    assert_eq!(created.routes.len(), 3);
    assert_eq!(created.migrations.len(), 1);
    assert_eq!(created.openapi, BooksModule::new().openapi());
    assert_eq!(users::create_module().openapi, UsersModule::new().openapi());

    let migrations: Vec<(String, &str)> =
        registry.collect_migrations().into_iter().map(|(name, m)| (name, m.id)).collect();
    assert_eq!(
        migrations,
        vec![("books".to_string(), "001_init"), ("users".to_string(), "001_init")]
    );
}

#[test]
fn the_bundled_modules_compose_into_one_router_and_one_document() {
    let mut registry = ModuleRegistry::new();
    register_all(&mut registry);
    let router = build_router(&registry, &Settings::default());
    assert_eq!(
        router.paths(),
        vec![
            "/healthz",
            "/api/books/",
            "/api/books/health",
            "/api/books/error-test",
            "/api/users/",
            "/api/users/health",
            "/api/users/profile",
            "/swagger-ui",
            "/api-docs/openapi.json",
            "/docs/openapi.json",
        ]
    );
    let docs = router.docs.unwrap();
    let paths: Vec<&String> = docs.document["paths"].as_object().unwrap().keys().collect();
    assert_eq!(
        paths,
        vec![
            "/api/books/",
            "/api/books/error-test",
            "/api/books/health",
            "/api/users/",
            "/api/users/health",
            "/api/users/profile",
            "/healthz",
        ]
    );
    let schemas: Vec<&String> =
        docs.document["components"]["schemas"].as_object().unwrap().keys().collect();
    assert_eq!(schemas, vec!["Book", "CreateBook", "ErrorResponse", "User", "UserProfile"]);
    assert_eq!(
        docs.document["paths"]["/api/users/health"],
        UsersModule::new().openapi().unwrap()["paths"]["/health"]
    );
    assert_eq!(
        docs.document["components"]["schemas"]["Book"],
        BooksModule::new().openapi().unwrap()["components"]["schemas"]["Book"]
    );
    assert!(!docs.fell_back);
    assert_eq!(docs.served.paths.paths.len(), 7);
}
