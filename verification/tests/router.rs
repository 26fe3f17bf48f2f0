use atlas::module::{ModuleDescriptor, Route};
use atlas::openapi::{merge_openapi, mount_path, ApiDocs, SpecDocument};
use atlas::registry::ModuleRegistry;
use atlas::router::{build_router, AppliedLayer, ComposedRouter, Middleware, RouterBuilder};
use atlas::settings::Settings;
use serde_json::Value;

fn parse(text: &str) -> Value {
    serde_json::from_str(text).unwrap()
}

fn paths_of(router: &ComposedRouter) -> Vec<String> {
    router.paths()
}

fn module_with_schema(name: &str, schema: &str, body: &str) -> ModuleDescriptor {
    let fragment = format!(r#"{{"components": {{"schemas": {{"{}": {}}}}}}}"#, schema, body);
    ModuleDescriptor::new(name).with_openapi(parse(&fragment))
}

#[test]
fn test_router_builder_basic() {
    let router = RouterBuilder::new().route("/test", "test").build();
    assert_eq!(paths_of(&router), vec!["/test"]);
    assert_eq!(router.routes[0].handler, "test");
    assert!(router.layers.is_empty());
    assert!(router.docs.is_none());
}

#[test]
fn test_module_mounting() {
    let module_router = vec![Route::new("/", "module")];

    let router = RouterBuilder::new().mount_module("test", &module_router).build();

    assert_eq!(paths_of(&router), vec!["/api/test/"]);
    assert_eq!(router.routes[0].handler, "module");
}

#[test]
fn test_middleware_chain() {
    let router = RouterBuilder::new()
        .with_tracing()
        .with_cors()
        .with_request_id()
        .with_timeout(5000)
        .route("/health", "ok")
        .build();

    assert_eq!(paths_of(&router), vec!["/health"]);
    assert_eq!(
        router.layers,
        vec![
            AppliedLayer { middleware: Middleware::Tracing, covers: 0 },
            AppliedLayer { middleware: Middleware::Cors, covers: 0 },
            AppliedLayer { middleware: Middleware::RequestId, covers: 0 },
            AppliedLayer { middleware: Middleware::Timeout { millis: 5000 }, covers: 0 },
        ]
    );
}

#[test]
fn a_middleware_wraps_the_routes_composed_before_it() {
    let router = RouterBuilder::default()
        .route("/a", "a")
        .with_cors()
        .mount_module("m", &vec![Route::new("/x", "x"), Route::new("/y", "y")])
        .with_timeout(1)
        .build();
    assert_eq!(
        router.layers,
        vec![
            AppliedLayer { middleware: Middleware::Cors, covers: 1 },
            AppliedLayer { middleware: Middleware::Timeout { millis: 1 }, covers: 3 },
        ]
    );
}

#[test]
fn mount_path_is_api_and_the_name() {
    assert_eq!(mount_path("books"), "/api/books");
    assert_eq!(mount_path(""), "/api/");
}

#[test]
fn two_modules_with_two_routes_each_yield_four_routes_and_the_health_check() {
    let mut registry = ModuleRegistry::new();
    registry.register_custom(
        ModuleDescriptor::new("books").with_route("/", "books::list").with_route("/health", "books::health"),
    );
    registry.register_custom(
        ModuleDescriptor::new("users").with_route("/", "users::list").with_route("/health", "users::health"),
    );
    let router = build_router(&registry, &Settings::default());
    let paths = paths_of(&router);
    assert_eq!(
        paths,
        vec![
            "/healthz",
            "/api/books/",
            "/api/books/health",
            "/api/users/",
            "/api/users/health",
            "/swagger-ui",
            "/api-docs/openapi.json",
            "/docs/openapi.json",
        ]
    );
    let under_api = paths.iter().filter(|path| path.starts_with("/api/")).count();
    assert_eq!(under_api, 4);
    let handlers: Vec<&str> = router.routes.iter().map(|r| r.handler.as_str()).collect();
    assert_eq!(
        handlers,
        vec![
            "health_check",
            "books::list",
            "books::health",
            "users::list",
            "users::health",
            "swagger_ui",
            "api_docs",
            "openapi_json",
        ]
    );
    assert_eq!(
        router.layers,
        vec![
            AppliedLayer { middleware: Middleware::Tracing, covers: 0 },
            AppliedLayer { middleware: Middleware::Cors, covers: 0 },
            AppliedLayer { middleware: Middleware::RequestId, covers: 0 },
            AppliedLayer { middleware: Middleware::Timeout { millis: 15000 }, covers: 0 },
        ]
    );
}

#[test]
fn mount_order_does_not_change_what_is_served() {
    let books = vec![Route::new("/", "b"), Route::new("/health", "bh")];
    let users = vec![Route::new("/", "u"), Route::new("/health", "uh")];
    let one = RouterBuilder::new().mount_module("books", &books).mount_module("users", &users).build();
    let other = RouterBuilder::new().mount_module("users", &users).mount_module("books", &books).build();
    let mut first: Vec<(String, String)> =
        one.routes.iter().map(|r| (r.path.clone(), r.handler.clone())).collect();
    let mut second: Vec<(String, String)> =
        other.routes.iter().map(|r| (r.path.clone(), r.handler.clone())).collect();
    assert_ne!(first, second);
    first.sort();
    second.sort();
    assert_eq!(first, second);
}

#[test]
fn an_empty_registry_serves_the_health_check_and_the_documentation() {
    let registry = ModuleRegistry::new();
    assert!(registry.modules().is_empty());
    assert!(registry.collect_migrations().is_empty());
    let router = build_router(&registry, &Settings::default());
    assert_eq!(
        paths_of(&router),
        vec!["/healthz", "/swagger-ui", "/api-docs/openapi.json", "/docs/openapi.json"]
    );
    let docs = router.docs.unwrap();
    let expected = parse(
        r#"{
            "openapi": "3.0.0",
            "info": {
                "title": "ATLAS API",
                "version": "1.0.0",
                "description": "Core SaaS Framework API"
            },
            "paths": {
                "/healthz": {
                    "get": {
                        "summary": "Health check",
                        "responses": {
                            "200": {
                                "description": "OK",
                                "content": {
                                    "text/plain": {
                                        "schema": {
                                            "type": "string"
                                        }
                                    }
                                }
                            }
                        }
                    }
                }
            },
            "components": {
                "schemas": {
                    "ErrorResponse": {
                        "type": "object",
                        "properties": {
                            "error": {
                                "type": "object",
                                "properties": {
                                    "code": {
                                        "type": "string"
                                    },
                                    "message": {
                                        "type": "string"
                                    },
                                    "details": {
                                        "type": "array",
                                        "items": {}
                                    },
                                    "trace_id": {
                                        "type": "string"
                                    },
                                    "timestamp": {
                                        "type": "string"
                                    }
                                },
                                "required": ["code", "message", "trace_id", "timestamp"]
                            }
                        },
                        "required": ["error"]
                    }
                }
            }
        }"#,
    );
    assert_eq!(docs.document, expected);
    assert!(!docs.fell_back);
    assert_eq!(docs.served.info.title, "ATLAS API");
    assert_eq!(docs.served.info.version, "1.0.0");
    assert_eq!(docs.served.info.description, Some("Core SaaS Framework API".to_string()));
    assert!(docs.served.paths.paths.contains_key("/healthz"));
}

#[test]
fn the_later_module_wins_a_schema_name() {
    let first = module_with_schema("first", "Error", r#"{"type": "string"}"#);
    let second = module_with_schema("second", "Error", r#"{"type": "integer", "format": "int32"}"#);
    let merged = merge_openapi(SpecDocument::base(), &vec![&first, &second]).into_json();
    assert_eq!(
        merged["components"]["schemas"]["Error"],
        parse(r#"{"type": "integer", "format": "int32"}"#)
    );
    let merged = merge_openapi(SpecDocument::base(), &vec![&second, &first]).into_json();
    assert_eq!(merged["components"]["schemas"]["Error"], parse(r#"{"type": "string"}"#));
    // the schema of error responses stays beside it
    assert_eq!(merged["components"]["schemas"].as_object().unwrap().len(), 2);
    assert!(merged["components"]["schemas"]["ErrorResponse"].is_object());
}

#[test]
fn a_module_can_replace_the_schema_of_error_responses() {
    let module = module_with_schema("rude", "ErrorResponse", r#"{"type": "string"}"#);
    let merged = merge_openapi(SpecDocument::base(), &vec![&module]).into_json();
    assert_eq!(
        merged["components"]["schemas"],
        parse(r#"{"ErrorResponse": {"type": "string"}}"#)
    );
}

#[test]
fn paths_are_merged_under_the_mount_path_of_their_module() {
    let books = ModuleDescriptor::new("books").with_openapi(parse(
        r#"{"paths": {"/": {"get": {"summary": "list"}}, "/health": {"get": {}}, "": 1}}"#,
    ));
    let users = ModuleDescriptor::new("users").with_openapi(parse(
        r#"{"paths": {"/": {"get": {"summary": "users"}}}, "components": {"schemas": {"User": {}}}}"#,
    ));
    let silent = ModuleDescriptor::new("silent");
    let merged = merge_openapi(SpecDocument::empty(), &vec![&books, &silent, &users]).into_json();
    assert_eq!(
        merged["paths"],
        parse(
            r#"{
                "/api/books": 1,
                "/api/books/": {"get": {"summary": "list"}},
                "/api/books/health": {"get": {}},
                "/api/users/": {"get": {"summary": "users"}}
            }"#
        )
    );
    assert_eq!(merged["components"], parse(r#"{"schemas": {"User": {}}}"#));
    assert_eq!(merged["openapi"], "3.0.0");
    assert_eq!(merged["info"]["title"], "ATLAS API");
    assert_eq!(merged.as_object().unwrap().len(), 4);
}

#[test]
fn a_later_path_replaces_an_earlier_one_of_the_same_key() {
    let first = ModuleDescriptor::new("a").with_openapi(parse(r#"{"paths": {"/b/c": "first"}}"#));
    let second = ModuleDescriptor::new("a/b").with_openapi(parse(r#"{"paths": {"/c": "second"}}"#));
    let merged = merge_openapi(SpecDocument::empty(), &vec![&first, &second]).into_json();
    assert_eq!(merged["paths"], parse(r#"{"/api/a/b/c": "second"}"#));
}

#[test]
fn fragments_of_another_shape_contribute_nothing() {
    let shapes = [
        r#"null"#,
        r#"[]"#,
        r#""paths""#,
        r#"{}"#,
        r#"{"paths": ["/x"], "components": {"schemas": ["S"]}}"#,
        r#"{"paths": "x", "components": "y"}"#,
        r#"{"paths": null, "components": {"other": {"S": {}}}}"#,
        r#"{"schemas": {"S": {}}, "Paths": {"/x": {}}}"#,
    ];
    for shape in shapes {
        let module = ModuleDescriptor::new("odd").with_openapi(parse(shape));
        let merged = merge_openapi(SpecDocument::empty(), &vec![&module]).into_json();
        assert_eq!(merged["paths"], parse("{}"), "{}", shape);
        assert_eq!(merged["components"], parse(r#"{"schemas": {}}"#), "{}", shape);
    }
}

#[test]
fn set_path_and_set_schema_define_and_redefine() {
    let mut document = SpecDocument::empty();
    document.set_path("/x", parse("1"));
    document.set_path("/y", parse("2"));
    document.set_path("/x", parse("3"));
    document.set_schema("S", parse(r#""s""#));
    let mut json = document.into_json();
    assert_eq!(json["paths"], parse(r#"{"/x": 3, "/y": 2}"#));
    assert_eq!(json["components"]["schemas"], parse(r#"{"S": "s"}"#));
    json["paths"] = Value::Null;
    assert_eq!(json["paths"], Value::Null);
}

#[test]
fn a_document_of_another_structure_is_served_raw_and_the_explorer_gets_title_and_version() {
    // an operation object must not be a number
    let module = ModuleDescriptor::new("odd").with_openapi(parse(r#"{"paths": {"/x": {"get": 7}}}"#));
    let merged = merge_openapi(SpecDocument::base(), &vec![&module]).into_json();
    let docs = ApiDocs::new(merged.clone());
    assert_eq!(docs.document, merged);
    assert!(docs.fell_back);
    assert_eq!(docs.served.info.title, "ATLAS API");
    assert_eq!(docs.served.info.version, "1.0.0");
    assert_eq!(docs.served.info.description, None);
    assert!(docs.served.paths.paths.is_empty());
    assert!(docs.served.components.is_none());

    let mut registry = ModuleRegistry::new();
    registry.register_custom(module);
    let router = build_router(&registry, &Settings::default());
    assert!(router.docs.unwrap().fell_back);
}

#[test]
fn the_timeout_of_the_main_router_is_that_of_the_settings() {
    let mut settings = Settings::default();
    settings.server.request_timeout_ms = 250;
    let router = build_router(&ModuleRegistry::new(), &settings);
    assert_eq!(
        router.layers[3],
        AppliedLayer { middleware: Middleware::Timeout { millis: 250 }, covers: 0 }
    );
}

#[test]
fn from_parsed_serves_the_description_or_falls_back() {
    let document = parse(r#"{"openapi": "3.0.0"}"#);
    let description = utoipa::openapi::OpenApiBuilder::new()
        .info(utoipa::openapi::InfoBuilder::new().title("Other").version("9").build())
        .build();
    let docs = ApiDocs::from_parsed(document.clone(), Ok(description));
    assert_eq!(docs.document, document);
    assert!(!docs.fell_back);
    assert_eq!(docs.served.info.title, "Other");
    assert_eq!(docs.served.info.version, "9");

    let error = serde_json::from_str::<Value>("{").unwrap_err();
    let docs = ApiDocs::from_parsed(document.clone(), Err(error));
    assert_eq!(docs.document, document);
    assert!(docs.fell_back);
    assert_eq!(docs.served.info.title, "ATLAS API");
    assert_eq!(docs.served.info.version, "1.0.0");
    assert!(docs.served.paths.paths.is_empty());
}

#[test]
fn members_that_the_format_does_not_know_do_not_make_a_document_fall_back() {
    let module = ModuleDescriptor::new("ext").with_openapi(parse(
        r#"{"paths": {"/x": {"get": {"responses": {}, "x-one": 1, "x-two": 2}}}}"#,
    ));
    let merged = merge_openapi(SpecDocument::base(), &vec![&module]).into_json();
    let one = ApiDocs::new(merged.clone());
    let other = ApiDocs::new(merged.clone());
    assert!(!one.fell_back);
    assert_eq!(one.fell_back, other.fell_back);
    assert_eq!(one.document, other.document);
    assert!(one.served.paths.paths.contains_key("/api/ext/x"));
}
