//! The users module.

use crate::json::{array_value, no_members, object_value, string_value};
use crate::json::{text, ArrayBuilder, ObjectBuilder};
use crate::module::{bindings_of, Binding, InitCtx, Migration, ModuleDescriptor, Route};
use crate::openapi::{fragment_paths, fragment_schemas, Members};
use crate::schema::{
    array_of, array_of_spec, formatted_property, formatted_property_spec, fragment,
    fragment_spec, get_operation, get_operation_spec, json_content, json_content_spec,
    object_schema, object_schema_spec, plain_content, plain_content_spec, property,
    property_spec, reference, reference_spec, response, response_spec,
};
use vstd::prelude::*;

verus! {

/// Name of the module, and of its mount point.
pub const NAME: &'static str = "users";

/// The script of the module's first migration.
pub const INIT_SCRIPT: &'static str = r#"
                DEFINE TABLE user SCHEMAFULL;
                DEFINE FIELD email     ON user TYPE string ASSERT $value != "";
                DEFINE FIELD name      ON user TYPE string ASSERT $value != "";
                DEFINE FIELD bio       ON user TYPE string;
                DEFINE FIELD avatar_url ON user TYPE string;
                DEFINE INDEX user_email_unique ON user FIELDS email UNIQUE;
                "#;

/// The routes of the module, relative to its mount point.
pub open spec fn routes_spec() -> Seq<Binding> {
    seq![
        ("/"@, "users::list_users"@),
        ("/health"@, "users::health_check"@),
        ("/profile"@, "users::get_profile"@),
    ]
}

/// The operations that the module documents, by path.
pub open spec fn paths_spec() -> Members {
    no_members().insert(
        "/"@,
        get_operation_spec(
            "List users"@,
            "Users"@,
            object_value(
                no_members().insert(
                    "200"@,
                    response_spec(
                        "List of users"@,
                        json_content_spec(array_of_spec(reference_spec("User"@))),
                    ),
                ).insert(
                    "500"@,
                    response_spec(
                        "Internal server error"@,
                        json_content_spec(reference_spec("ErrorResponse"@)),
                    ),
                ),
            ),
        ),
    ).insert(
        "/health"@,
        get_operation_spec(
            "Users health check"@,
            "Users"@,
            object_value(no_members().insert("200"@, response_spec("OK"@, plain_content_spec()))),
        ),
    ).insert(
        "/profile"@,
        get_operation_spec(
            "Get user profile"@,
            "Users"@,
            object_value(
                no_members().insert(
                    "200"@,
                    response_spec(
                        "User profile"@,
                        json_content_spec(reference_spec("UserProfile"@)),
                    ),
                ).insert(
                    "404"@,
                    response_spec(
                        "User not found"@,
                        json_content_spec(reference_spec("ErrorResponse"@)),
                    ),
                ),
            ),
        ),
    )
}

/// The members that a user must have.
pub open spec fn required_spec() -> serde_json::Value {
    array_value(
        Seq::empty().push(string_value("id"@)).push(string_value("email"@)).push(
            string_value("name"@),
        ).push(string_value("created_at"@)),
    )
}

/// The schemas that the module documents, by name.
pub open spec fn schemas_spec() -> Members {
    no_members().insert(
        "User"@,
        object_schema_spec(
            object_value(
                no_members().insert("id"@, property_spec("Unique identifier for the user"@)).insert(
                    "email"@,
                    formatted_property_spec("email"@, "User's email address"@),
                ).insert("name"@, property_spec("User's full name"@)).insert(
                    "created_at"@,
                    formatted_property_spec("date-time"@, "When the user was created"@),
                ),
            ),
            required_spec(),
        ),
    ).insert(
        "UserProfile"@,
        object_schema_spec(
            object_value(
                no_members().insert("id"@, property_spec("Unique identifier for the user"@)).insert(
                    "email"@,
                    formatted_property_spec("email"@, "User's email address"@),
                ).insert("name"@, property_spec("User's full name"@)).insert(
                    "bio"@,
                    property_spec("User's biography"@),
                ).insert(
                    "avatar_url"@,
                    formatted_property_spec("uri"@, "URL to user's avatar image"@),
                ).insert(
                    "created_at"@,
                    formatted_property_spec("date-time"@, "When the user was created"@),
                ).insert(
                    "updated_at"@,
                    formatted_property_spec("date-time"@, "When the user was last updated"@),
                ),
            ),
            required_spec(),
        ),
    )
}

/// Whether `module` is what this module registers: its name, its three
/// routes, its fragment and its one migration.
pub open spec fn is_users_module(module: ModuleDescriptor) -> bool {
    &&& module.name@ == NAME@
    &&& bindings_of(module.routes@) == routes_spec()
    &&& module.openapi == Some(fragment_spec(paths_spec(), schemas_spec()))
    &&& module.migrations@ == seq![Migration { id: "001_init", up: INIT_SCRIPT }]
}

/// Users module: accounts and profiles, answered from fixed data.
pub struct UsersModule;

impl UsersModule {
    pub fn new() -> (module: Self) {
        UsersModule
    }

    /// The name of the module.
    pub fn name(&self) -> (name: &'static str)
        ensures
            name@ == NAME@,
    {
        NAME
    }

    /// Initializes the module. There is nothing to prepare, so it succeeds.
    pub fn init(&self, ctx: &InitCtx<'_>) -> (outcome: Result<(), String>)
        ensures
            outcome is Ok,
    {
        Ok(())
    }

    /// The routes of the module, relative to its mount point.
    pub fn routes(&self) -> (routes: Vec<Route>)
        ensures
            bindings_of(routes@) == routes_spec(),
    {
        let mut routes: Vec<Route> = Vec::new();
        routes.push(Route::new("/", "users::list_users"));
        routes.push(Route::new("/health", "users::health_check"));
        routes.push(Route::new("/profile", "users::get_profile"));
        routes
    }

    /// The specification fragment of the module: three paths and two schemas.
    pub fn openapi(&self) -> (spec: Option<serde_json::Value>)
        ensures
            spec == Some(fragment_spec(paths_spec(), schemas_spec())),
            spec matches Some(value) && fragment_paths(value) == paths_spec() && fragment_schemas(
                value,
            ) == schemas_spec(),
    {
        let list = get_operation(
            "List users",
            "Users",
            ObjectBuilder::new().with(
                "200",
                response("List of users", json_content(array_of(reference("User")))),
            ).with(
                "500",
                response("Internal server error", json_content(reference("ErrorResponse"))),
            ).build(),
        );
        let health = get_operation(
            "Users health check",
            "Users",
            ObjectBuilder::new().with("200", response("OK", plain_content())).build(),
        );
        let profile = get_operation(
            "Get user profile",
            "Users",
            ObjectBuilder::new().with(
                "200",
                response("User profile", json_content(reference("UserProfile"))),
            ).with(
                "404",
                response("User not found", json_content(reference("ErrorResponse"))),
            ).build(),
        );
        let paths = ObjectBuilder::new().with("/", list).with("/health", health).with(
            "/profile",
            profile,
        );
        let user = object_schema(
            ObjectBuilder::new().with("id", property("Unique identifier for the user")).with(
                "email",
                formatted_property("email", "User's email address"),
            ).with("name", property("User's full name")).with(
                "created_at",
                formatted_property("date-time", "When the user was created"),
            ).build(),
            required_members(),
        );
        let user_profile = object_schema(
            ObjectBuilder::new().with("id", property("Unique identifier for the user")).with(
                "email",
                formatted_property("email", "User's email address"),
            ).with("name", property("User's full name")).with(
                "bio",
                property("User's biography"),
            ).with("avatar_url", formatted_property("uri", "URL to user's avatar image")).with(
                "created_at",
                formatted_property("date-time", "When the user was created"),
            ).with(
                "updated_at",
                formatted_property("date-time", "When the user was last updated"),
            ).build(),
            required_members(),
        );
        let schemas = ObjectBuilder::new().with("User", user).with("UserProfile", user_profile);
        Some(fragment(paths, schemas))
    }

    /// The migrations of the module.
    pub fn migrations(&self) -> (migrations: Vec<Migration>)
        ensures
            migrations@ == seq![Migration { id: "001_init", up: INIT_SCRIPT }],
    {
        let mut migrations: Vec<Migration> = Vec::new();
        migrations.push(Migration { id: "001_init", up: INIT_SCRIPT });
        migrations
    }

    /// Starts the module. It has no background work, so it succeeds.
    pub fn start(&self, ctx: &InitCtx<'_>) -> (outcome: Result<(), String>)
        ensures
            outcome is Ok,
    {
        Ok(())
    }

    /// Stops the module. It holds nothing, so it succeeds.
    pub fn stop(&self) -> (outcome: Result<(), String>)
        ensures
            outcome is Ok,
    {
        Ok(())
    }
}

/// The members that a user must have.
fn required_members() -> (required: serde_json::Value)
    ensures
        required == required_spec(),
{
    ArrayBuilder::new().with(text("id")).with(text("email")).with(text("name")).with(
        text("created_at"),
    ).build()
}

/// The answer of the health check.
pub fn health_check() -> (answer: &'static str)
    ensures
        answer@ == "users module is healthy"@,
{
    "users module is healthy"
}

/// A user as the list shows it.
pub open spec fn listed_user(
    id: Seq<char>,
    email: Seq<char>,
    name: Seq<char>,
    created_at: Seq<char>,
) -> serde_json::Value {
    object_value(
        no_members().insert("id"@, string_value(id)).insert("email"@, string_value(email)).insert(
            "name"@,
            string_value(name),
        ).insert("created_at"@, string_value(created_at)),
    )
}

/// A user as the list shows it.
fn user_entry(id: &str, email: &str, name: &str, created_at: &str) -> (user: serde_json::Value)
    ensures
        user == listed_user(id@, email@, name@, created_at@),
{
    ObjectBuilder::new().with("id", text(id)).with("email", text(email)).with(
        "name",
        text(name),
    ).with("created_at", text(created_at)).build()
}

/// Lists the users: two fixed accounts.
pub fn list_users() -> (users: Vec<serde_json::Value>)
    ensures
        users@ == seq![
            listed_user(
                "user-1"@,
                "john@example.com"@,
                "John Doe"@,
                "2024-01-01T00:00:00Z"@,
            ),
            listed_user(
                "user-2"@,
                "jane@example.com"@,
                "Jane Smith"@,
                "2024-01-02T00:00:00Z"@,
            ),
        ],
{
    let mut users: Vec<serde_json::Value> = Vec::new();
    users.push(user_entry("user-1", "john@example.com", "John Doe", "2024-01-01T00:00:00Z"));
    users.push(user_entry("user-2", "jane@example.com", "Jane Smith", "2024-01-02T00:00:00Z"));
    assert(users@ =~= seq![
        listed_user("user-1"@, "john@example.com"@, "John Doe"@, "2024-01-01T00:00:00Z"@),
        listed_user("user-2"@, "jane@example.com"@, "Jane Smith"@, "2024-01-02T00:00:00Z"@),
    ]);
    users
}

/// The profile that `get_profile` answers with.
pub open spec fn profile_spec() -> serde_json::Value {
    object_value(
        no_members().insert("id"@, string_value("user-1"@)).insert(
            "email"@,
            string_value("john@example.com"@),
        ).insert("name"@, string_value("John Doe"@)).insert(
            "bio"@,
            string_value("Software developer passionate about Rust"@),
        ).insert("avatar_url"@, string_value("https://example.com/avatars/john.jpg"@)).insert(
            "created_at"@,
            string_value("2024-01-01T00:00:00Z"@),
        ).insert("updated_at"@, string_value("2024-01-15T10:30:00Z"@)),
    )
}

/// The profile of the one user that has one.
pub fn get_profile() -> (profile: serde_json::Value)
    ensures
        profile == profile_spec(),
{
    ObjectBuilder::new().with("id", text("user-1")).with("email", text("john@example.com")).with(
        "name",
        text("John Doe"),
    ).with("bio", text("Software developer passionate about Rust")).with(
        "avatar_url",
        text("https://example.com/avatars/john.jpg"),
    ).with("created_at", text("2024-01-01T00:00:00Z")).with(
        "updated_at",
        text("2024-01-15T10:30:00Z"),
    ).build()
}

/// The users module as the registry keeps it.
pub fn create_module() -> (module: ModuleDescriptor)
    ensures
        is_users_module(module),
{
    let users = UsersModule::new();
    ModuleDescriptor {
        name: users.name().to_string(),
        routes: users.routes(),
        openapi: users.openapi(),
        migrations: users.migrations(),
    }
}

} // verus!
