//! The JSON values that specification fragments are made of.
//!
//! The values are `serde_json`'s own. Verus does not look inside them: what
//! this module states about them is taken from `serde_json` and not proved.
//! It is stated of `serde_json`'s default map, which keeps the members of an
//! object sorted by name; with the feature `preserve_order` a map would also
//! hold an order and a hasher of its own, of which nothing here speaks.

use vstd::prelude::*;

verus! {

/// `serde_json::Value`, a JSON value. Nothing is known of its inside but what
/// the items below state.
#[verifier::external_type_specification]
#[verifier::external_body]
pub struct ExValue(serde_json::Value);

/// `serde_json::Map`, the members of a JSON object. Nothing is known of its
/// inside but what the items below state.
#[verifier::external_type_specification]
#[verifier::external_body]
#[verifier::reject_recursive_types(K)]
#[verifier::reject_recursive_types(V)]
pub struct ExJsonMap<K, V>(serde_json::Map<K, V>);

/// `serde_json::Error`, why a value could not be read. It is looked at nowhere.
#[verifier::external_type_specification]
#[verifier::external_body]
pub struct ExJsonError(serde_json::Error);

/// `serde_json::Value`'s `Clone`: a copy that holds what the value holds.
pub assume_specification[ <serde_json::Value as Clone>::clone ](
    value: &serde_json::Value,
) -> (copy: serde_json::Value)
    ensures
        copy == *value,
;

/// The members of a JSON object by name; `None` for a value that is no object.
pub uninterp spec fn object_members(value: serde_json::Value) -> Option<
    Map<Seq<char>, serde_json::Value>,
>;

/// The members that a JSON map holds, by name.
pub uninterp spec fn map_members(map: serde_json::Map<String, serde_json::Value>) -> Map<
    Seq<char>,
    serde_json::Value,
>;

/// The JSON object whose members are `members`.
pub uninterp spec fn object_value(members: Map<Seq<char>, serde_json::Value>) -> serde_json::Value;

/// The JSON string that holds `text`.
pub uninterp spec fn string_value(text: Seq<char>) -> serde_json::Value;

/// The JSON array that holds `items` in this order.
pub uninterp spec fn array_value(items: Seq<serde_json::Value>) -> serde_json::Value;

/// A JSON map without members.
pub open spec fn no_members() -> Map<Seq<char>, serde_json::Value> {
    Map::empty()
}

/// The member of `value` called `key`, where `value` is an object that has one.
pub open spec fn member(value: serde_json::Value, key: Seq<char>) -> Option<serde_json::Value> {
    match object_members(value) {
        Some(members) => if members.contains_key(key) {
            Some(members[key])
        } else {
            None
        },
        None => None,
    }
}

/// `serde_json::Value::get` with a string index: the member called `key` if
/// `value` is an object that has one, else nothing.
#[verifier::external_body]
pub(crate) fn value_get<'a>(value: &'a serde_json::Value, key: &str) -> (found: Option<
    &'a serde_json::Value,
>)
    ensures
        match found {
            Some(item) => member(*value, key@) == Some(*item),
            None => member(*value, key@) is None,
        },
{
    value.get(key)
}

/// `serde_json::Value::as_object`: the map inside an object, nothing for any
/// other value.
#[verifier::external_body]
pub(crate) fn value_as_object<'a>(value: &'a serde_json::Value) -> (map: Option<
    &'a serde_json::Map<String, serde_json::Value>,
>)
    ensures
        match map {
            Some(inner) => object_members(*value) == Some(map_members(*inner)),
            None => object_members(*value) is None,
        },
{
    value.as_object()
}

/// `serde_json::Map::iter`, each entry copied out: every member of the map
/// once, and nothing else. The order is the map's own and is not stated.
#[verifier::external_body]
pub(crate) fn map_entries(map: &serde_json::Map<String, serde_json::Value>) -> (entries: Vec<
    (String, serde_json::Value),
>)
    ensures
        forall|i: int|
            0 <= i < entries@.len() ==> map_members(*map).contains_pair(
                (#[trigger] entries@[i]).0@,
                entries@[i].1,
            ),
        forall|i: int, j: int|
            0 <= i < j < entries@.len() ==> (#[trigger] entries@[i]).0@ != (
            #[trigger] entries@[j]).0@,
        forall|key: Seq<char>| #[trigger]
            map_members(*map).contains_key(key) ==> exists|i: int|
                0 <= i < entries@.len() && (#[trigger] entries@[i]).0@ == key,
{
    map.iter().map(|(key, item)| (key.clone(), item.clone())).collect()
}

/// `serde_json::Map::new`: a map without members.
#[verifier::external_body]
pub(crate) fn map_new() -> (fresh: serde_json::Map<String, serde_json::Value>)
    ensures
        map_members(fresh) == no_members(),
{
    serde_json::Map::new()
}

/// `serde_json::Map::insert`: afterwards `key` names `item`, whether or not
/// the map had a member of that name; the other members stay.
#[verifier::external_body]
pub(crate) fn map_insert(
    map: &mut serde_json::Map<String, serde_json::Value>,
    key: String,
    item: serde_json::Value,
)
    ensures
        map_members(*final(map)) == map_members(*old(map)).insert(key@, item),
{
    map.insert(key, item);
}

/// `serde_json::Value::Object`: the object whose members are those of `map`.
#[verifier::external_body]
pub(crate) fn object_from(map: serde_json::Map<String, serde_json::Value>) -> (value:
    serde_json::Value)
    ensures
        value == object_value(map_members(map)),
        object_members(value) == Some(map_members(map)),
{
    serde_json::Value::Object(map)
}

/// `serde_json::Value::String`: the JSON string that holds `text`.
#[verifier::external_body]
pub(crate) fn string_from(text: String) -> (value: serde_json::Value)
    ensures
        value == string_value(text@),
{
    serde_json::Value::String(text)
}

/// `serde_json::Value::Array`: the JSON array of `items`, in their order.
#[verifier::external_body]
pub(crate) fn array_from(items: Vec<serde_json::Value>) -> (value: serde_json::Value)
    ensures
        value == array_value(items@),
{
    serde_json::Value::Array(items)
}

/// The JSON string that holds `content`.
pub fn text(content: &str) -> (value: serde_json::Value)
    ensures
        value == string_value(content@),
{
    string_from(content.to_string())
}

/// A JSON object in the making.
pub struct ObjectBuilder {
    map: serde_json::Map<String, serde_json::Value>,
}

impl ObjectBuilder {
    /// The members given so far, by name.
    pub closed spec fn members(self) -> Map<Seq<char>, serde_json::Value> {
        map_members(self.map)
    }

    /// An object without members.
    pub fn new() -> (builder: ObjectBuilder)
        ensures
            builder.members() == no_members(),
    {
        ObjectBuilder { map: map_new() }
    }

    /// Gives the member called `name`, in place of an earlier one of that name.
    pub fn with(self, name: &str, item: serde_json::Value) -> (builder: ObjectBuilder)
        ensures
            builder.members() == self.members().insert(name@, item),
    {
        let mut builder = self;
        map_insert(&mut builder.map, name.to_string(), item);
        builder
    }

    /// The object with the members given.
    pub fn build(self) -> (value: serde_json::Value)
        ensures
            value == object_value(self.members()),
            object_members(value) == Some(self.members()),
    {
        object_from(self.map)
    }
}

/// A JSON array in the making.
pub struct ArrayBuilder {
    items: Vec<serde_json::Value>,
}

impl ArrayBuilder {
    /// The items given so far, in order.
    pub closed spec fn items(self) -> Seq<serde_json::Value> {
        self.items@
    }

    /// An array without items.
    pub fn new() -> (builder: ArrayBuilder)
        ensures
            builder.items() == Seq::<serde_json::Value>::empty(),
    {
        ArrayBuilder { items: Vec::new() }
    }

    /// Adds `item` behind the items given so far.
    pub fn with(self, item: serde_json::Value) -> (builder: ArrayBuilder)
        ensures
            builder.items() == self.items().push(item),
    {
        let mut builder = self;
        builder.items.push(item);
        builder
    }

    /// The array of the items given.
    pub fn build(self) -> (value: serde_json::Value)
        ensures
            value == array_value(self.items()),
    {
        array_from(self.items)
    }
}

} // verus!
