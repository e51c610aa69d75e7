use vstd::prelude::*;

verus! {

/// The JSON text of an object with one member: the string `value` under the
/// name `key`.
pub uninterp spec fn json_member_object(key: Seq<char>, value: Seq<char>) -> Seq<char>;

/// Builds with `serde_json` an object whose one member holds the string
/// `value` under the name `key`, and returns its `to_string()`. Trusted: the
/// result is the named function of `key` and `value`.
#[verifier::external_body]
fn member_object(key: &str, value: &str) -> (json: String)
    ensures
        json@ == json_member_object(key@, value@),
{
    let mut object = serde_json::Map::new();
    object.insert(String::from(key), serde_json::Value::String(String::from(value)));
    serde_json::Value::Object(object).to_string()
}

/// The JSON text of the object that names an event by its kind: its one
/// member is called `type`.
pub open spec fn json_type_object(kind: Seq<char>) -> Seq<char> {
    json_member_object("type"@, kind)
}

/// What is handed to an event sink: bytes as they are, or JSON text.
#[derive(Debug, Clone, PartialEq, Eq)]
pub enum IpcBody {
    Raw(Vec<u8>),
    Json(String),
}

/// The body of an event that consists of its kind alone.
pub fn kind_body(kind: &str) -> (body: IpcBody)
    ensures
        body matches IpcBody::Json(json) && json@ == json_type_object(kind@),
{
    IpcBody::Json(member_object("type", kind))
}

} // verus!
