use atlas::json::{text, ArrayBuilder, ObjectBuilder};
use atlas::schema::{
    array_of, formatted_property, fragment, get_operation, json_content, object_schema,
    plain_content, property, reference, response, string_type,
};
use serde_json::Value;

fn parse(text: &str) -> Value {
    serde_json::from_str(text).unwrap()
}

#[test]
fn text_is_a_json_string() {
    assert_eq!(text("slug"), Value::String("slug".to_string()));
    assert_eq!(text(""), parse(r#""""#));
}

#[test]
fn object_builder_keeps_the_last_member_of_a_name() {
    assert_eq!(ObjectBuilder::new().build(), parse("{}"));
    let built = ObjectBuilder::new()
        .with("a", text("first"))
        .with("b", text("b"))
        .with("a", text("second"))
        .build();
    assert_eq!(built, parse(r#"{"a": "second", "b": "b"}"#));
}

#[test]
fn array_builder_keeps_the_order_of_the_items() {
    assert_eq!(ArrayBuilder::new().build(), parse("[]"));
    let built = ArrayBuilder::new().with(text("b")).with(text("a")).with(text("b")).build();
    assert_eq!(built, parse(r#"["b", "a", "b"]"#));
}

#[test]
fn the_vocabulary_of_fragments() {
    assert_eq!(string_type(), parse(r#"{"type": "string"}"#));
    assert_eq!(reference("Book"), parse(r##"{"$ref": "#/components/schemas/Book"}"##));
    assert_eq!(array_of(string_type()), parse(r#"{"type": "array", "items": {"type": "string"}}"#));
    assert_eq!(property("A name"), parse(r#"{"type": "string", "description": "A name"}"#));
    assert_eq!(
        formatted_property("email", "An address"),
        parse(r#"{"type": "string", "format": "email", "description": "An address"}"#)
    );
    assert_eq!(
        object_schema(parse(r#"{"id": 1}"#), parse(r#"["id"]"#)),
        parse(r#"{"type": "object", "properties": {"id": 1}, "required": ["id"]}"#)
    );
    assert_eq!(
        json_content(parse("1")),
        parse(r#"{"application/json": {"schema": 1}}"#)
    );
    assert_eq!(plain_content(), parse(r#"{"text/plain": {"schema": {"type": "string"}}}"#));
    assert_eq!(
        response("OK", parse("2")),
        parse(r#"{"description": "OK", "content": 2}"#)
    );
    assert_eq!(
        get_operation("List", "Books", parse("3")),
        parse(r#"{"get": {"summary": "List", "tags": ["Books"], "responses": 3}}"#)
    );
    assert_eq!(
        fragment(
            ObjectBuilder::new().with("/", parse("4")),
            ObjectBuilder::new().with("S", parse("5"))
        ),
        parse(r#"{"paths": {"/": 4}, "components": {"schemas": {"S": 5}}}"#)
    );
}
