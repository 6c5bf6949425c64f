//! JSON values as the library sees them, and the schema fragments that describe
//! the parameters of a tool.
//!
//! A `serde_json::Value` is opaque to the verifier. What it holds is named by
//! [`json_view`]; the few constructors that the library calls are trusted
//! declarations over that name, and everything built from them is verified.

use vstd::prelude::*;

verus! {

/// The mathematical content of a JSON value.
pub enum JsonView {
    Null,
    Bool(bool),
    /// A number, by the text that stands for it in a JSON document.
    Number(Seq<char>),
    Text(Seq<char>),
    List(Seq<JsonView>),
    Object(Map<Seq<char>, JsonView>),
}

#[verifier::external_type_specification]
#[verifier::external_body]
pub struct ExJsonValue(serde_json::Value);

#[verifier::external_type_specification]
#[verifier::external_body]
#[verifier::reject_recursive_types(K)]
#[verifier::reject_recursive_types(V)]
pub struct ExJsonMap<K, V>(serde_json::Map<K, V>);

/// What a `serde_json::Value` holds.
pub uninterp spec fn json_view(value: serde_json::Value) -> JsonView;

/// The entries of a `serde_json::Map`, key by key.
pub uninterp spec fn json_entries(entries: serde_json::Map<String, serde_json::Value>) -> Map<
    Seq<char>,
    JsonView,
>;

/// The object content without entries.
pub open spec fn no_entries() -> Map<Seq<char>, JsonView> {
    Map::empty()
}

/// The views of a list of JSON values, in order.
pub open spec fn json_views(values: Seq<serde_json::Value>) -> Seq<JsonView> {
    values.map_values(|v: serde_json::Value| json_view(v))
}

/// `<serde_json::Value as Clone>::clone`: the copy holds what the value holds.
#[verifier::external_body]
pub(crate) fn clone_value(value: &serde_json::Value) -> (copy: serde_json::Value)
    ensures
        json_view(copy) == json_view(*value),
{
    value.clone()
}

/// `serde_json::Map::new`: a map without entries.
#[verifier::external_body]
pub(crate) fn empty_entries() -> (fresh: serde_json::Map<String, serde_json::Value>)
    ensures
        json_entries(fresh) == no_entries(),
{
    serde_json::Map::new()
}

/// `serde_json::Map::insert`: the key is bound to the value, replacing what it
/// was bound to before; the other entries stay.
#[verifier::external_body]
pub(crate) fn insert_entry(
    entries: &mut serde_json::Map<String, serde_json::Value>,
    key: &str,
    value: serde_json::Value,
)
    ensures
        json_entries(*final(entries)) == json_entries(*old(entries)).insert(
            key@,
            json_view(value),
        ),
{
    entries.insert(key.to_string(), value);
}

/// `serde_json::Value::Object`: the object with exactly the given entries.
#[verifier::external_body]
pub(crate) fn object_value(entries: serde_json::Map<String, serde_json::Value>) -> (value:
    serde_json::Value)
    ensures
        json_view(value) == JsonView::Object(json_entries(entries)),
{
    serde_json::Value::Object(entries)
}

/// `serde_json::Value::String`: the JSON string with the given text.
#[verifier::external_body]
pub(crate) fn text_value(text: &str) -> (value: serde_json::Value)
    ensures
        json_view(value) == JsonView::Text(text@),
{
    serde_json::Value::String(text.to_string())
}

/// `serde_json::Value::Array`: the JSON array of the given values, in order.
#[verifier::external_body]
pub(crate) fn list_value(items: Vec<serde_json::Value>) -> (value: serde_json::Value)
    ensures
        json_view(value) == JsonView::List(json_views(items@)),
{
    serde_json::Value::Array(items)
}

/// `serde_json::Value::Null`.
#[verifier::external_body]
pub(crate) fn null_value() -> (value: serde_json::Value)
    ensures
        json_view(value) == JsonView::Null,
{
    serde_json::Value::Null
}

/// What `serde_json::from_str` makes of a text that is read as a JSON value:
/// the value, or the report of what is wrong with the text.
pub uninterp spec fn parsed_json(text: Seq<char>) -> Result<JsonView, Seq<char>>;

/// The result of reading a text as JSON, by what it holds.
pub open spec fn parse_view(parsed: Result<serde_json::Value, String>) -> Result<
    JsonView,
    Seq<char>,
> {
    match parsed {
        Ok(value) => Ok(json_view(value)),
        Err(report) => Err(report@),
    }
}

/// `serde_json::from_str` at the type `serde_json::Value`, with the error
/// turned into its report by `to_string`.
#[verifier::external_body]
pub(crate) fn parse_json(text: &str) -> (parsed: Result<serde_json::Value, String>)
    ensures
        parse_view(parsed) == parsed_json(text@),
{
    match serde_json::from_str::<serde_json::Value>(text) {
        Ok(value) => Ok(value),
        Err(error) => Err(error.to_string()),
    }
}

/// The text of a member of an object, where the value is an object that has
/// the member and the member is a string.
pub open spec fn text_member(value: JsonView, key: Seq<char>) -> Option<Seq<char>> {
    match value {
        JsonView::Object(entries) => if entries.contains_key(key) {
            match entries[key] {
                JsonView::Text(text) => Some(text),
                _ => None,
            }
        } else {
            None
        },
        _ => None,
    }
}

/// The text of a member, by what it holds.
pub open spec fn member_view(member: Option<String>) -> Option<Seq<char>> {
    match member {
        Some(text) => Some(text@),
        None => None,
    }
}

/// `serde_json::Value::get` with a string key, then `serde_json::Value::as_str`:
/// the text of that member of an object where it is a string, else nothing.
#[verifier::external_body]
pub(crate) fn text_of_member(value: &serde_json::Value, key: &str) -> (member: Option<String>)
    ensures
        member_view(member) == text_member(json_view(*value), key@),
{
    match value.get(key) {
        Some(found) => found.as_str().map(|text| text.to_string()),
        None => None,
    }
}

/// The schema `{"type": name}`.
pub open spec fn typed_schema(name: Seq<char>) -> JsonView {
    JsonView::Object(no_entries().insert("type"@, JsonView::Text(name)))
}

/// The schema of a value that may be absent: either null or `inner`.
pub open spec fn optional_schema(inner: JsonView) -> JsonView {
    JsonView::Object(
        no_entries().insert(
            "oneOf"@,
            JsonView::List(seq![typed_schema("null"@), inner]),
        ),
    )
}

/// The schema of a list whose items follow `items`.
pub open spec fn array_schema(items: JsonView) -> JsonView {
    JsonView::Object(
        no_entries().insert("type"@, JsonView::Text("array"@)).insert(
            "items"@,
            items,
        ),
    )
}

/// The schema of an object with the given properties.
pub open spec fn object_schema(properties: Map<Seq<char>, JsonView>) -> JsonView {
    JsonView::Object(
        no_entries().insert("type"@, JsonView::Text("object"@)).insert(
            "properties"@,
            JsonView::Object(properties),
        ),
    )
}

fn create_typed_schema(name: &str) -> (schema: serde_json::Value)
    ensures
        json_view(schema) == typed_schema(name@),
{
    let mut entries = empty_entries();
    insert_entry(&mut entries, "type", text_value(name));
    object_value(entries)
}

/// The schema of an integer.
pub fn create_integer_schema() -> (schema: serde_json::Value)
    ensures
        json_view(schema) == typed_schema("integer"@),
{
    create_typed_schema("integer")
}

/// The schema of a number.
pub fn create_number_schema() -> (schema: serde_json::Value)
    ensures
        json_view(schema) == typed_schema("number"@),
{
    create_typed_schema("number")
}

/// The schema of a truth value.
pub fn create_boolean_schema() -> (schema: serde_json::Value)
    ensures
        json_view(schema) == typed_schema("boolean"@),
{
    create_typed_schema("boolean")
}

/// The schema of a string.
pub fn create_string_schema() -> (schema: serde_json::Value)
    ensures
        json_view(schema) == typed_schema("string"@),
{
    create_typed_schema("string")
}

/// The schema of the values of an enumeration that is named `name`: strings,
/// described as that enumeration.
pub open spec fn enum_schema(name: Seq<char>) -> JsonView {
    JsonView::Object(
        no_entries().insert("type"@, JsonView::Text("string"@)).insert(
            "description"@,
            JsonView::Text("Enum type "@ + name),
        ),
    )
}

/// The schema of the values of an enumeration.
pub fn create_enum_schema(name: &str) -> (schema: serde_json::Value)
    ensures
        json_view(schema) == enum_schema(name@),
{
    let description = String::from_str("Enum type ").concat(name);
    let mut entries = empty_entries();
    insert_entry(&mut entries, "type", text_value("string"));
    insert_entry(&mut entries, "description", text_value(description.as_str()));
    object_value(entries)
}

/// The schema of a value that may be absent, given the schema of the value.
pub fn create_optional_schema(inner: serde_json::Value) -> (schema: serde_json::Value)
    ensures
        json_view(schema) == optional_schema(json_view(inner)),
{
    let mut one_of: Vec<serde_json::Value> = Vec::new();
    one_of.push(create_typed_schema("null"));
    one_of.push(inner);
    assert(json_views(one_of@) =~= seq![typed_schema("null"@), json_view(inner)]);
    let mut entries = empty_entries();
    insert_entry(&mut entries, "oneOf", list_value(one_of));
    object_value(entries)
}

/// The schema of a list, given the schema of its items.
pub fn create_array_schema(items: serde_json::Value) -> (schema: serde_json::Value)
    ensures
        json_view(schema) == array_schema(json_view(items)),
{
    let mut entries = empty_entries();
    insert_entry(&mut entries, "type", text_value("array"));
    insert_entry(&mut entries, "items", items);
    object_value(entries)
}

/// The schema of an object, given the schemas of its properties.
pub fn create_object_schema(properties: serde_json::Map<String, serde_json::Value>) -> (schema:
    serde_json::Value)
    ensures
        json_view(schema) == object_schema(json_entries(properties)),
{
    let mut entries = empty_entries();
    insert_entry(&mut entries, "type", text_value("object"));
    insert_entry(&mut entries, "properties", object_value(properties));
    object_value(entries)
}

} // verus!

verus! {

/// A type whose values can stand as arguments of a tool: it knows the schema
/// that describes them.
pub trait JsonSchema {
    /// The schema of the values of this type.
    spec fn schema() -> JsonView;

    fn json_schema() -> (schema: serde_json::Value)
        ensures
            json_view(schema) == Self::schema(),
    ;
}

impl JsonSchema for i32 {
    open spec fn schema() -> JsonView {
        typed_schema("integer"@)
    }

    fn json_schema() -> (schema: serde_json::Value) {
        create_integer_schema()
    }
}

impl JsonSchema for i64 {
    open spec fn schema() -> JsonView {
        typed_schema("integer"@)
    }

    fn json_schema() -> (schema: serde_json::Value) {
        create_integer_schema()
    }
}

impl JsonSchema for isize {
    open spec fn schema() -> JsonView {
        typed_schema("integer"@)
    }

    fn json_schema() -> (schema: serde_json::Value) {
        create_integer_schema()
    }
}

impl JsonSchema for bool {
    open spec fn schema() -> JsonView {
        typed_schema("boolean"@)
    }

    fn json_schema() -> (schema: serde_json::Value) {
        create_boolean_schema()
    }
}

impl JsonSchema for String {
    open spec fn schema() -> JsonView {
        typed_schema("string"@)
    }

    fn json_schema() -> (schema: serde_json::Value) {
        create_string_schema()
    }
}

impl<T: JsonSchema> JsonSchema for Option<T> {
    open spec fn schema() -> JsonView {
        optional_schema(T::schema())
    }

    fn json_schema() -> (schema: serde_json::Value) {
        create_optional_schema(T::json_schema())
    }
}

impl<T: JsonSchema> JsonSchema for Vec<T> {
    open spec fn schema() -> JsonView {
        array_schema(T::schema())
    }

    fn json_schema() -> (schema: serde_json::Value) {
        create_array_schema(T::json_schema())
    }
}

} // verus!
