//! A small vocabulary for writing specification fragments.

use crate::json::{array_value, no_members, object_value, string_value};
use crate::json::{text, ArrayBuilder, ObjectBuilder};
use crate::openapi::{fragment_paths, fragment_schemas};
use vstd::prelude::*;
use vstd::string::StringExecFns;

verus! {

/// `{"type": "string"}`.
pub open spec fn string_type_spec() -> serde_json::Value {
    object_value(no_members().insert("type"@, string_value("string"@)))
}

/// `{"type": "string"}`.
pub fn string_type() -> (schema: serde_json::Value)
    ensures
        schema == string_type_spec(),
{
    ObjectBuilder::new().with("type", text("string")).build()
}

/// A reference to the schema called `name`.
pub open spec fn reference_spec(name: Seq<char>) -> serde_json::Value {
    object_value(no_members().insert("$ref"@, string_value("#/components/schemas/"@ + name)))
}

/// A reference to the schema called `name`.
pub fn reference(name: &str) -> (schema: serde_json::Value)
    ensures
        schema == reference_spec(name@),
{
    let target = String::from_str("#/components/schemas/").concat(name);
    ObjectBuilder::new().with("$ref", text(target.as_str())).build()
}

/// The schema of an array whose items follow `items`.
pub open spec fn array_of_spec(items: serde_json::Value) -> serde_json::Value {
    object_value(no_members().insert("type"@, string_value("array"@)).insert("items"@, items))
}

/// The schema of an array whose items follow `items`.
pub fn array_of(items: serde_json::Value) -> (schema: serde_json::Value)
    ensures
        schema == array_of_spec(items),
{
    ObjectBuilder::new().with("type", text("array")).with("items", items).build()
}

/// A string property with a description.
pub open spec fn property_spec(description: Seq<char>) -> serde_json::Value {
    object_value(
        no_members().insert("type"@, string_value("string"@)).insert(
            "description"@,
            string_value(description),
        ),
    )
}

/// A string property with a description.
pub fn property(description: &str) -> (schema: serde_json::Value)
    ensures
        schema == property_spec(description@),
{
    ObjectBuilder::new().with("type", text("string")).with("description", text(description)).build()
}

/// A string property with a format and a description.
pub open spec fn formatted_property_spec(
    format: Seq<char>,
    description: Seq<char>,
) -> serde_json::Value {
    object_value(
        no_members().insert("type"@, string_value("string"@)).insert(
            "format"@,
            string_value(format),
        ).insert("description"@, string_value(description)),
    )
}

/// A string property with a format and a description.
pub fn formatted_property(format: &str, description: &str) -> (schema: serde_json::Value)
    ensures
        schema == formatted_property_spec(format@, description@),
{
    ObjectBuilder::new().with("type", text("string")).with("format", text(format)).with(
        "description",
        text(description),
    ).build()
}

/// The schema of an object with `properties`, of which `required` must be
/// there.
pub open spec fn object_schema_spec(
    properties: serde_json::Value,
    required: serde_json::Value,
) -> serde_json::Value {
    object_value(
        no_members().insert("type"@, string_value("object"@)).insert(
            "properties"@,
            properties,
        ).insert("required"@, required),
    )
}

/// The schema of an object with `properties`, of which `required` must be
/// there.
pub fn object_schema(properties: serde_json::Value, required: serde_json::Value) -> (schema:
    serde_json::Value)
    ensures
        schema == object_schema_spec(properties, required),
{
    ObjectBuilder::new().with("type", text("object")).with("properties", properties).with(
        "required",
        required,
    ).build()
}

/// A body of the media type `application/json` that follows `schema`.
pub open spec fn json_content_spec(schema: serde_json::Value) -> serde_json::Value {
    object_value(
        no_members().insert(
            "application/json"@,
            object_value(no_members().insert("schema"@, schema)),
        ),
    )
}

/// A body of the media type `application/json` that follows `schema`.
pub fn json_content(schema: serde_json::Value) -> (content: serde_json::Value)
    ensures
        content == json_content_spec(schema),
{
    ObjectBuilder::new().with(
        "application/json",
        ObjectBuilder::new().with("schema", schema).build(),
    ).build()
}

/// A body of the media type `text/plain`.
pub open spec fn plain_content_spec() -> serde_json::Value {
    object_value(
        no_members().insert(
            "text/plain"@,
            object_value(no_members().insert("schema"@, string_type_spec())),
        ),
    )
}

/// A body of the media type `text/plain`.
pub fn plain_content() -> (content: serde_json::Value)
    ensures
        content == plain_content_spec(),
{
    ObjectBuilder::new().with(
        "text/plain",
        ObjectBuilder::new().with("schema", string_type()).build(),
    ).build()
}

/// A response with a description and a body.
pub open spec fn response_spec(
    description: Seq<char>,
    content: serde_json::Value,
) -> serde_json::Value {
    object_value(
        no_members().insert("description"@, string_value(description)).insert("content"@, content),
    )
}

/// A response with a description and a body.
pub fn response(description: &str, content: serde_json::Value) -> (described: serde_json::Value)
    ensures
        described == response_spec(description@, content),
{
    ObjectBuilder::new().with("description", text(description)).with("content", content).build()
}

/// The operations of a path that answers `GET` alone, filed under one tag.
pub open spec fn get_operation_spec(
    summary: Seq<char>,
    tag: Seq<char>,
    responses: serde_json::Value,
) -> serde_json::Value {
    object_value(
        no_members().insert(
            "get"@,
            object_value(
                no_members().insert("summary"@, string_value(summary)).insert(
                    "tags"@,
                    array_value(Seq::empty().push(string_value(tag))),
                ).insert("responses"@, responses),
            ),
        ),
    )
}

/// The operations of a path that answers `GET` alone, filed under one tag.
pub fn get_operation(summary: &str, tag: &str, responses: serde_json::Value) -> (operations:
    serde_json::Value)
    ensures
        operations == get_operation_spec(summary@, tag@, responses),
{
    let get = ObjectBuilder::new().with("summary", text(summary)).with(
        "tags",
        ArrayBuilder::new().with(text(tag)).build(),
    ).with("responses", responses).build();
    ObjectBuilder::new().with("get", get).build()
}

/// A fragment of `paths` and `schemas`.
pub open spec fn fragment_spec(
    paths: Map<Seq<char>, serde_json::Value>,
    schemas: Map<Seq<char>, serde_json::Value>,
) -> serde_json::Value {
    object_value(
        no_members().insert("paths"@, object_value(paths)).insert(
            "components"@,
            object_value(no_members().insert("schemas"@, object_value(schemas))),
        ),
    )
}

/// A fragment of `paths` and `schemas`. The composer reads from it the paths
/// and the schemas that it was made of.
pub fn fragment(paths: ObjectBuilder, schemas: ObjectBuilder) -> (value: serde_json::Value)
    ensures
        value == fragment_spec(paths.members(), schemas.members()),
        fragment_paths(value) == paths.members(),
        fragment_schemas(value) == schemas.members(),
{
    proof {
        reveal_strlit("paths");
        reveal_strlit("components");
        assert("paths"@ != "components"@) by {
            assert("paths"@.len() != "components"@.len());
        }
    }
    ObjectBuilder::new().with("paths", paths.build()).with(
        "components",
        ObjectBuilder::new().with("schemas", schemas.build()).build(),
    ).build()
}

} // verus!
