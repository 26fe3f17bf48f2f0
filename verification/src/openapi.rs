//! Merging the specification fragments of the modules into one document.
//!
//! The document maps paths to operation definitions and schema names to
//! schema definitions. Fragments are merged in the order of the modules, and a
//! later definition replaces an earlier one of the same key: the last module
//! wins. Schema names are expected to differ between modules, but nothing
//! enforces it.

use crate::json::{
    array_value, map_entries, map_insert, map_members, map_new, member, no_members,
    object_from, object_members, object_value, string_value, text, value_as_object, value_get,
    ArrayBuilder, ObjectBuilder,
};
use crate::module::ModuleDescriptor;
use vstd::prelude::*;
use vstd::string::StringExecFns;

verus! {

/// Definitions by key: operation definitions by path, or schema definitions by
/// schema name.
pub type Members = Map<Seq<char>, serde_json::Value>;

/// The members of `value` where it is an object, none otherwise.
pub open spec fn members_or_none(value: Option<serde_json::Value>) -> Members {
    match value {
        Some(inner) => match object_members(inner) {
            Some(members) => members,
            None => no_members(),
        },
        None => no_members(),
    }
}

/// The operation definitions of a fragment by path: the members of its member
/// `paths`, where that is an object.
pub open spec fn fragment_paths(fragment: serde_json::Value) -> Members {
    members_or_none(member(fragment, "paths"@))
}

/// The schema definitions of a fragment by name: the members of `schemas`
/// under its member `components`, where that is an object.
pub open spec fn fragment_schemas(fragment: serde_json::Value) -> Members {
    match member(fragment, "components"@) {
        Some(components) => members_or_none(member(components, "schemas"@)),
        None => no_members(),
    }
}

/// Whether `text` begins with `prefix`.
pub open spec fn has_prefix(text: Seq<char>, prefix: Seq<char>) -> bool {
    prefix.len() <= text.len() && text.take(prefix.len() as int) == prefix
}

/// `members` with `prefix` put in front of every key.
pub open spec fn prefixed(prefix: Seq<char>, members: Members) -> Members {
    Map::new(
        |key: Seq<char>|
            has_prefix(key, prefix) && members.contains_key(key.skip(prefix.len() as int)),
        |key: Seq<char>| members[key.skip(prefix.len() as int)],
    )
}

/// The path under which the routes of the module called `name` are served.
pub open spec fn mount_prefix(name: Seq<char>) -> Seq<char> {
    "/api/"@ + name
}

/// The path under which the routes of the module called `name` are served.
pub fn mount_path(name: &str) -> (path: String)
    ensures
        path@ == mount_prefix(name@),
{
    String::from_str("/api/").concat(name)
}

/// What a module adds to the paths of the document: the paths of its fragment,
/// each under the module's mount path.
pub open spec fn module_paths(module: ModuleDescriptor) -> Members {
    match module.openapi {
        Some(fragment) => prefixed(mount_prefix(module.name@), fragment_paths(fragment)),
        None => no_members(),
    }
}

/// What a module adds to the schemas of the document: the schemas of its
/// fragment, under their bare names.
pub open spec fn module_schemas(module: ModuleDescriptor) -> Members {
    match module.openapi {
        Some(fragment) => fragment_schemas(fragment),
        None => no_members(),
    }
}

/// `base` with `parts` laid over it one after the other: where two hold a key,
/// the later one gives the definition.
pub open spec fn overlaid(base: Members, parts: Seq<Members>) -> Members
    decreases parts.len(),
{
    if parts.len() == 0 {
        base
    } else {
        overlaid(base, parts.drop_last()).union_prefer_right(parts.last())
    }
}

/// The paths of the document after `modules` were merged into `base`.
pub open spec fn merged_paths(base: Members, modules: Seq<ModuleDescriptor>) -> Members {
    overlaid(base, Seq::new(modules.len(), |i: int| module_paths(modules[i])))
}

/// The schemas of the document after `modules` were merged into `base`.
pub open spec fn merged_schemas(base: Members, modules: Seq<ModuleDescriptor>) -> Members {
    overlaid(base, Seq::new(modules.len(), |i: int| module_schemas(modules[i])))
}

/// Last write wins: a key that some part holds is defined by the last part that
/// holds it, as that part defines it and not as a blend.
pub proof fn lemma_last_part_wins(base: Members, parts: Seq<Members>, key: Seq<char>, last: int)
    requires
        0 <= last < parts.len(),
        parts[last].contains_key(key),
        forall|later: int| last < later < parts.len() ==> !parts[later].contains_key(key),
    ensures
        overlaid(base, parts).contains_key(key),
        overlaid(base, parts)[key] == parts[last][key],
    decreases parts.len(),
{
    if last < parts.len() - 1 {
        let earlier = parts.drop_last();
        assert(earlier[last] == parts[last]);
        assert forall|later: int| last < later < earlier.len() implies !earlier[later].contains_key(
            key,
        ) by {
            assert(earlier[later] == parts[later]);
        }
        lemma_last_part_wins(base, earlier, key, last);
        assert(!parts.last().contains_key(key));
    }
}

/// A key that no part holds stays as the base has it.
pub proof fn lemma_untouched_key(base: Members, parts: Seq<Members>, key: Seq<char>)
    requires
        forall|i: int| 0 <= i < parts.len() ==> !parts[i].contains_key(key),
    ensures
        overlaid(base, parts).contains_key(key) == base.contains_key(key),
        base.contains_key(key) ==> overlaid(base, parts)[key] == base[key],
    decreases parts.len(),
{
    if parts.len() > 0 {
        let earlier = parts.drop_last();
        assert forall|i: int| 0 <= i < earlier.len() implies !earlier[i].contains_key(key) by {
            assert(earlier[i] == parts[i]);
        }
        lemma_untouched_key(base, earlier, key);
        assert(!parts.last().contains_key(key));
    }
}

/// Two modules that declare one schema name: the document holds the definition
/// of the module that is merged later, whatever the earlier one declared.
pub proof fn lemma_later_schema_wins(
    base: Members,
    modules: Seq<ModuleDescriptor>,
    schema: Seq<char>,
    earlier: int,
    later: int,
)
    requires
        0 <= earlier < later < modules.len(),
        module_schemas(modules[earlier]).contains_key(schema),
        module_schemas(modules[later]).contains_key(schema),
        forall|after: int|
            later < after < modules.len() ==> !module_schemas(modules[after]).contains_key(schema),
    ensures
        merged_schemas(base, modules).contains_key(schema),
        merged_schemas(base, modules)[schema] == module_schemas(modules[later])[schema],
{
    let parts = Seq::new(modules.len(), |i: int| module_schemas(modules[i]));
    lemma_last_part_wins(base, parts, schema, later);
}

/// The entries of `entries` from place `from` on, as a map.
spec fn entries_from(
    members: Members,
    entries: Seq<(String, serde_json::Value)>,
    from: int,
) -> Members {
    Map::new(
        |key: Seq<char>|
            members.contains_key(key) && exists|i: int|
                from <= i < entries.len() && (#[trigger] entries[i]).0@ == key,
        |key: Seq<char>| members[key],
    )
}

/// Whether `entries` lists the members of `members`, each once.
spec fn lists(entries: Seq<(String, serde_json::Value)>, members: Members) -> bool {
    &&& forall|i: int|
        0 <= i < entries.len() ==> members.contains_pair(
            (#[trigger] entries[i]).0@,
            entries[i].1,
        )
    &&& forall|i: int, j: int|
        0 <= i < j < entries.len() ==> (#[trigger] entries[i]).0@ != (#[trigger] entries[j]).0@
    &&& forall|key: Seq<char>| #[trigger]
        members.contains_key(key) ==> exists|i: int|
            0 <= i < entries.len() && (#[trigger] entries[i]).0@ == key
}

/// A text that begins with `prefix` is `prefix` followed by the rest.
proof fn lemma_prefix_split(text: Seq<char>, prefix: Seq<char>)
    requires
        has_prefix(text, prefix),
    ensures
        text == prefix + text.skip(prefix.len() as int),
{
    assert(text =~= text.take(prefix.len() as int) + text.skip(prefix.len() as int));
}

/// `prefix` followed by `rest` begins with `prefix` and goes on with `rest`.
proof fn lemma_prefix_joined(prefix: Seq<char>, rest: Seq<char>)
    ensures
        has_prefix(prefix + rest, prefix),
        (prefix + rest).skip(prefix.len() as int) == rest,
{
    assert((prefix + rest).take(prefix.len() as int) =~= prefix);
    assert((prefix + rest).skip(prefix.len() as int) =~= rest);
}

/// Lays the members that `entries` list over `target`, each under `prefix`
/// followed by its name.
fn overlay_prefixed(
    target: &mut serde_json::Map<String, serde_json::Value>,
    prefix: &str,
    entries: Vec<(String, serde_json::Value)>,
    Ghost(members): Ghost<Members>,
)
    requires
        lists(entries@, members),
    ensures
        map_members(*final(target)) == map_members(*old(target)).union_prefer_right(
            prefixed(prefix@, members),
        ),
{
    let ghost start = map_members(*target);
    let ghost all = entries@;
    let mut rest = entries;
    proof {
        assert(prefixed(prefix@, entries_from(members, all, all.len() as int)) =~= no_members());
        assert(start.union_prefer_right(no_members()) =~= start);
    }
    // Members have different names, so it does not matter in which order they
    // are laid over the target: they are taken from the back.
    while rest.len() > 0
        invariant
            lists(all, members),
            rest@.len() <= all.len(),
            rest@ == all.take(rest@.len() as int),
            map_members(*target) == start.union_prefer_right(
                prefixed(prefix@, entries_from(members, all, rest@.len() as int)),
            ),
        decreases rest.len(),
    {
        let ghost count = rest@.len() as int;
        let ghost before = map_members(*target);
        let entry = rest.pop().unwrap();
        let mut key = prefix.to_string();
        key.append(entry.0.as_str());
        let ghost name = entry.0@;
        let ghost item = entry.1;
        proof {
            assert(entry == all[count - 1]);
            assert(rest@ =~= all.take(count - 1));
            assert(members.contains_pair(all[count - 1].0@, all[count - 1].1));
            lemma_prefix_joined(prefix@, name);
            let narrow = prefixed(prefix@, entries_from(members, all, count));
            let wide = prefixed(prefix@, entries_from(members, all, count - 1));
            assert forall|k: Seq<char>| wide.contains_key(k) <==> (narrow.contains_key(k) || k
                == key@) by {
                if has_prefix(k, prefix@) {
                    lemma_prefix_split(k, prefix@);
                    let tail = k.skip(prefix@.len() as int);
                    if wide.contains_key(k) && k != key@ {
                        let i = choose|i: int|
                            count - 1 <= i < all.len() && (#[trigger] all[i]).0@ == tail;
                        assert(i != count - 1);
                        assert(narrow.contains_key(k));
                    }
                    if narrow.contains_key(k) {
                        let i = choose|i: int|
                            count <= i < all.len() && (#[trigger] all[i]).0@ == tail;
                        assert(count - 1 <= i < all.len() && all[i].0@ == tail);
                    }
                    if k == key@ {
                        assert(tail == name);
                        assert(count - 1 <= count - 1 < all.len() && all[count - 1].0@ == tail);
                    }
                }
            }
            assert forall|k: Seq<char>| wide.contains_key(k) implies wide[k] == (if k == key@ {
                item
            } else {
                narrow[k]
            }) by {}
            assert(before.insert(key@, item) =~= start.union_prefer_right(wide));
        }
        map_insert(target, key, entry.1);
    }
    proof {
        assert(entries_from(members, all, 0) =~= members);
    }
}

/// The entries of `value` where it is an object, none otherwise.
fn entries_or_none(value: Option<&serde_json::Value>) -> (listed: (
    Vec<(String, serde_json::Value)>,
    Ghost<Members>,
))
    ensures
        lists(listed.0@, listed.1@),
        listed.1@ == members_or_none(
            match value {
                Some(inner) => Some(*inner),
                None => None,
            },
        ),
{
    match value {
        Some(inner) => match value_as_object(inner) {
            Some(map) => (map_entries(map), Ghost(map_members(*map))),
            None => (Vec::new(), Ghost(no_members())),
        },
        None => (Vec::new(), Ghost(no_members())),
    }
}

/// The document under construction: operation definitions by path and schema
/// definitions by schema name.
pub struct SpecDocument {
    paths: serde_json::Map<String, serde_json::Value>,
    schemas: serde_json::Map<String, serde_json::Value>,
}

impl SpecDocument {
    /// The operation definitions, by path.
    pub closed spec fn paths(self) -> Members {
        map_members(self.paths)
    }

    /// The schema definitions, by schema name.
    pub closed spec fn schemas(self) -> Members {
        map_members(self.schemas)
    }

    /// A document without definitions.
    pub fn empty() -> (document: SpecDocument)
        ensures
            document.paths() == no_members(),
            document.schemas() == no_members(),
    {
        SpecDocument { paths: map_new(), schemas: map_new() }
    }

    /// Defines the operations of `path`, in place of an earlier definition.
    pub fn set_path(&mut self, path: &str, item: serde_json::Value)
        ensures
            final(self).paths() == old(self).paths().insert(path@, item),
            final(self).schemas() == old(self).schemas(),
    {
        map_insert(&mut self.paths, path.to_string(), item);
    }

    /// Defines the schema called `name`, in place of an earlier definition.
    pub fn set_schema(&mut self, name: &str, definition: serde_json::Value)
        ensures
            final(self).paths() == old(self).paths(),
            final(self).schemas() == old(self).schemas().insert(name@, definition),
    {
        map_insert(&mut self.schemas, name.to_string(), definition);
    }

    /// Merges the fragment of the module called `module_name`: its paths go
    /// under the module's mount path, its schemas under their bare names. A
    /// definition already in the document under one of these keys is replaced.
    /// A fragment whose `paths` or `components.schemas` is missing or is no
    /// object contributes nothing there.
    pub fn merge_fragment(&mut self, module_name: &str, fragment: &serde_json::Value)
        ensures
            final(self).paths() == old(self).paths().union_prefer_right(
                prefixed(mount_prefix(module_name@), fragment_paths(*fragment)),
            ),
            final(self).schemas() == old(self).schemas().union_prefer_right(
                fragment_schemas(*fragment),
            ),
    {
        let prefix = mount_path(module_name);
        let (path_entries, Ghost(path_members)) = entries_or_none(value_get(fragment, "paths"));
        overlay_prefixed(&mut self.paths, prefix.as_str(), path_entries, Ghost(path_members));
        let (schema_entries, Ghost(schema_members)) = match value_get(fragment, "components") {
            Some(components) => entries_or_none(value_get(components, "schemas")),
            None => (Vec::new(), Ghost(no_members())),
        };
        proof {
            assert(prefixed(""@, schema_members) =~= schema_members) by {
                reveal_strlit("");
                assert forall|key: Seq<char>| key.skip(0) == key by {
                    assert(key.skip(0) =~= key);
                }
                assert forall|key: Seq<char>| has_prefix(key, ""@) by {
                    assert(key.take(0) =~= ""@);
                }
            }
        }
        overlay_prefixed(&mut self.schemas, "", schema_entries, Ghost(schema_members));
    }
}

/// The modules behind `references`, position by position.
pub open spec fn referred(references: Seq<&ModuleDescriptor>) -> Seq<ModuleDescriptor> {
    Seq::new(references.len(), |i: int| *references[i])
}

/// Merges the fragments of `modules` into `base`, module after module. A
/// module without a fragment contributes nothing. On one key the last module
/// wins.
pub fn merge_openapi(base: SpecDocument, modules: &Vec<&ModuleDescriptor>) -> (document:
    SpecDocument)
    ensures
        document.paths() == merged_paths(base.paths(), referred(modules@)),
        document.schemas() == merged_schemas(base.schemas(), referred(modules@)),
{
    let mut document = base;
    let ghost path_parts = Seq::new(modules@.len(), |i: int| module_paths(*modules@[i]));
    let ghost schema_parts = Seq::new(modules@.len(), |i: int| module_schemas(*modules@[i]));
    let mut m: usize = 0;
    proof {
        assert(path_parts.take(0) =~= Seq::<Members>::empty());
        assert(schema_parts.take(0) =~= Seq::<Members>::empty());
        assert(path_parts =~= Seq::new(
            referred(modules@).len(),
            |i: int| module_paths(referred(modules@)[i]),
        ));
        assert(schema_parts =~= Seq::new(
            referred(modules@).len(),
            |i: int| module_schemas(referred(modules@)[i]),
        ));
    }
    while m < modules.len()
        invariant
            m <= modules@.len(),
            path_parts == Seq::new(modules@.len(), |i: int| module_paths(*modules@[i])),
            schema_parts == Seq::new(modules@.len(), |i: int| module_schemas(*modules@[i])),
            document.paths() == overlaid(base.paths(), path_parts.take(m as int)),
            document.schemas() == overlaid(base.schemas(), schema_parts.take(m as int)),
        decreases modules.len() - m,
    {
        let module = modules[m];
        let ghost paths_before = document.paths();
        let ghost schemas_before = document.schemas();
        match &module.openapi {
            Some(fragment) => {
                document.merge_fragment(module.name.as_str(), fragment);
            },
            None => {
                assert(paths_before.union_prefer_right(no_members()) =~= paths_before);
                assert(schemas_before.union_prefer_right(no_members()) =~= schemas_before);
            },
        }
        proof {
            assert(path_parts.take(m as int + 1).drop_last() =~= path_parts.take(m as int));
            assert(path_parts.take(m as int + 1).last() == module_paths(*module));
            assert(schema_parts.take(m as int + 1).drop_last() =~= schema_parts.take(m as int));
            assert(schema_parts.take(m as int + 1).last() == module_schemas(*module));
        }
        m += 1;
    }
    proof {
        assert(path_parts.take(m as int) =~= path_parts);
        assert(schema_parts.take(m as int) =~= schema_parts);
    }
    document
}

/// Path of the health check, which every composed router serves.
pub const HEALTH_PATH: &'static str = "/healthz";

/// Name of the schema of error responses, which every document defines.
pub const ERROR_SCHEMA: &'static str = "ErrorResponse";

/// The schema `{"type": kind}`.
pub open spec fn typed_schema(kind: Seq<char>) -> serde_json::Value {
    object_value(no_members().insert("type"@, string_value(kind)))
}

/// The schema `{"type": kind}`.
fn typed(kind: &str) -> (schema: serde_json::Value)
    ensures
        schema == typed_schema(kind@),
{
    ObjectBuilder::new().with("type", text(kind)).build()
}

/// The operations of the health check: a `get` that answers 200 with plain
/// text.
pub open spec fn health_operations() -> serde_json::Value {
    let schema = typed_schema("string"@);
    let plain = object_value(no_members().insert("schema"@, schema));
    let content = object_value(no_members().insert("text/plain"@, plain));
    let ok = object_value(
        no_members().insert("description"@, string_value("OK"@)).insert("content"@, content),
    );
    let responses = object_value(no_members().insert("200"@, ok));
    let get = object_value(
        no_members().insert("summary"@, string_value("Health check"@)).insert(
            "responses"@,
            responses,
        ),
    );
    object_value(no_members().insert("get"@, get))
}

/// The schema of an error response: an object with the one required member
/// `error`, which holds code, message, details, trace id and timestamp.
pub open spec fn error_response_schema() -> serde_json::Value {
    let details = object_value(
        no_members().insert("type"@, string_value("array"@)).insert(
            "items"@,
            object_value(no_members()),
        ),
    );
    let properties = object_value(
        no_members().insert("code"@, typed_schema("string"@)).insert(
            "message"@,
            typed_schema("string"@),
        ).insert("details"@, details).insert("trace_id"@, typed_schema("string"@)).insert(
            "timestamp"@,
            typed_schema("string"@),
        ),
    );
    let required = array_value(
        Seq::empty().push(string_value("code"@)).push(string_value("message"@)).push(
            string_value("trace_id"@),
        ).push(string_value("timestamp"@)),
    );
    let error = object_value(
        no_members().insert("type"@, string_value("object"@)).insert(
            "properties"@,
            properties,
        ).insert("required"@, required),
    );
    object_value(
        no_members().insert("type"@, string_value("object"@)).insert(
            "properties"@,
            object_value(no_members().insert("error"@, error)),
        ).insert("required"@, array_value(Seq::empty().push(string_value("error"@)))),
    )
}

/// Title, version and description of the API.
pub open spec fn api_info() -> serde_json::Value {
    object_value(
        no_members().insert("title"@, string_value("ATLAS API"@)).insert(
            "version"@,
            string_value("1.0.0"@),
        ).insert("description"@, string_value("Core SaaS Framework API"@)),
    )
}

/// The JSON document that serves `paths` and `schemas`: the version of the
/// format, the API's info, the paths, and the schemas under `components`.
pub open spec fn document_value(paths: Members, schemas: Members) -> serde_json::Value {
    object_value(
        no_members().insert("openapi"@, string_value("3.0.0"@)).insert("info"@, api_info()).insert(
            "paths"@,
            object_value(paths),
        ).insert(
            "components"@,
            object_value(no_members().insert("schemas"@, object_value(schemas))),
        ),
    )
}

/// The paths that a document holds before any module is merged.
pub open spec fn base_paths() -> Members {
    no_members().insert(HEALTH_PATH@, health_operations())
}

/// The schemas that a document holds before any module is merged.
pub open spec fn base_schemas() -> Members {
    no_members().insert(ERROR_SCHEMA@, error_response_schema())
}

/// The operations of the health check.
fn build_health_operations() -> (operations: serde_json::Value)
    ensures
        operations == health_operations(),
{
    let plain = ObjectBuilder::new().with("schema", typed("string")).build();
    let content = ObjectBuilder::new().with("text/plain", plain).build();
    let ok = ObjectBuilder::new().with("description", text("OK")).with("content", content).build();
    let responses = ObjectBuilder::new().with("200", ok).build();
    let get = ObjectBuilder::new().with("summary", text("Health check")).with(
        "responses",
        responses,
    ).build();
    ObjectBuilder::new().with("get", get).build()
}

/// The schema of an error response.
fn build_error_response_schema() -> (schema: serde_json::Value)
    ensures
        schema == error_response_schema(),
{
    let details = ObjectBuilder::new().with("type", text("array")).with(
        "items",
        ObjectBuilder::new().build(),
    ).build();
    let properties = ObjectBuilder::new().with("code", typed("string")).with(
        "message",
        typed("string"),
    ).with("details", details).with("trace_id", typed("string")).with(
        "timestamp",
        typed("string"),
    ).build();
    let required = ArrayBuilder::new().with(text("code")).with(text("message")).with(
        text("trace_id"),
    ).with(text("timestamp")).build();
    let error = ObjectBuilder::new().with("type", text("object")).with(
        "properties",
        properties,
    ).with("required", required).build();
    ObjectBuilder::new().with("type", text("object")).with(
        "properties",
        ObjectBuilder::new().with("error", error).build(),
    ).with("required", ArrayBuilder::new().with(text("error")).build()).build()
}

impl SpecDocument {
    /// The document before any module is merged: the health check among the
    /// paths, the error response among the schemas.
    pub fn base() -> (document: SpecDocument)
        ensures
            document.paths() == base_paths(),
            document.schemas() == base_schemas(),
    {
        let mut document = SpecDocument::empty();
        document.set_path(HEALTH_PATH, build_health_operations());
        document.set_schema(ERROR_SCHEMA, build_error_response_schema());
        document
    }

    /// The document as JSON.
    pub fn into_json(self) -> (json: serde_json::Value)
        ensures
            json == document_value(self.paths(), self.schemas()),
    {
        let info = ObjectBuilder::new().with("title", text("ATLAS API")).with(
            "version",
            text("1.0.0"),
        ).with("description", text("Core SaaS Framework API")).build();
        let components = ObjectBuilder::new().with("schemas", object_from(self.schemas)).build();
        ObjectBuilder::new().with("openapi", text("3.0.0")).with("info", info).with(
            "paths",
            object_from(self.paths),
        ).with("components", components).build()
    }
}

/// `utoipa::openapi::OpenApi`, the description of an API that the explorer
/// reads. It is carried and not looked into.
#[verifier::external_type_specification]
#[verifier::external_body]
pub struct ExOpenApi(utoipa::openapi::OpenApi);

/// Whether `document` has the structure of an OpenAPI description, so that it
/// deserializes to one.
pub uninterp spec fn parses_as_openapi(document: serde_json::Value) -> bool;

/// The OpenAPI description that holds a title and a version and nothing else.
pub uninterp spec fn titled_openapi(
    title: Seq<char>,
    version: Seq<char>,
) -> utoipa::openapi::OpenApi;

/// `serde_json::from_value` at `utoipa::openapi::OpenApi`: a description
/// where `document` has the structure of one, an error where it has not.
/// Whether it succeeds depends on the document alone. The description itself
/// is not stated: it holds maps for members that the format does not know,
/// and each parse seeds their hashers anew.
#[verifier::external_body]
fn openapi_from_value(document: serde_json::Value) -> (parsed: Result<
    utoipa::openapi::OpenApi,
    serde_json::Error,
>)
    ensures
        parsed is Ok <==> parses_as_openapi(document),
{
    serde_json::from_value(document)
}

/// `utoipa::openapi::OpenApiBuilder` with an info of `InfoBuilder` that is
/// given a title and a version: the description that holds these two and is
/// otherwise as the builders start it.
#[verifier::external_body]
fn openapi_with_info(title: &str, version: &str) -> (api: utoipa::openapi::OpenApi)
    ensures
        api == titled_openapi(title@, version@),
{
    utoipa::openapi::OpenApiBuilder::new().info(
        utoipa::openapi::InfoBuilder::new().title(title).version(version).build(),
    ).build()
}

/// What the documentation endpoints serve: the merged document as it is, and
/// the description that the API explorer is given.
pub struct ApiDocs {
    /// The merged document, served as raw JSON.
    pub document: serde_json::Value,
    /// The description for the API explorer.
    pub served: utoipa::openapi::OpenApi,
    /// Whether `served` is the minimal description, because the merged
    /// document does not have the structure of an OpenAPI description.
    pub fell_back: bool,
}

/// The minimal description, which the explorer gets in place of a document
/// that does not have the structure of an OpenAPI description: title and
/// version of the API and nothing else.
pub open spec fn minimal_description() -> utoipa::openapi::OpenApi {
    titled_openapi("ATLAS API"@, "1.0.0"@)
}

impl ApiDocs {
    /// Whether these are the documentation endpoints of `document`: it is
    /// served raw as it is, and the explorer gets the minimal description
    /// exactly where `document` does not have the structure of an OpenAPI
    /// description. What the explorer gets of a document that has it is what
    /// the parse made of it, and is not stated.
    pub open spec fn serves(self, document: serde_json::Value) -> bool {
        &&& self.document == document
        &&& self.fell_back == !parses_as_openapi(document)
        &&& self.fell_back ==> self.served == minimal_description()
    }

    /// The documentation endpoints of `document`, given what parsing it gave:
    /// the description where there is one, the minimal description in place of
    /// an error.
    pub fn from_parsed(
        document: serde_json::Value,
        parsed: Result<utoipa::openapi::OpenApi, serde_json::Error>,
    ) -> (docs: ApiDocs)
        ensures
            docs.document == document,
            docs.fell_back == (parsed is Err),
            match parsed {
                Ok(api) => docs.served == api,
                Err(_) => docs.served == minimal_description(),
            },
    {
        match parsed {
            Ok(api) => ApiDocs { document, served: api, fell_back: false },
            Err(_) => ApiDocs {
                document,
                served: openapi_with_info("ATLAS API", "1.0.0"),
                fell_back: true,
            },
        }
    }

    /// Prepares `document` for serving. A document that does not deserialize to
    /// an OpenAPI description is still served as it is; the explorer then gets
    /// the minimal description.
    pub fn new(document: serde_json::Value) -> (docs: ApiDocs)
        ensures
            docs.serves(document),
    {
        let parsed = openapi_from_value(document.clone());
        ApiDocs::from_parsed(document, parsed)
    }
}

} // verus!
