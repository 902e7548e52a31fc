//! JSON documents: the model that contracts speak of, the library's own
//! document type, and the calls into `serde_json` that read and write text.

use vstd::prelude::*;
use vstd::string::*;

verus! {

/// A JSON document as a mathematical value. A number is held as the text
/// that prints it; an object as its members in the order the reader hands
/// them out.
pub enum JsonModel {
    Null,
    Bool(bool),
    Number(Seq<char>),
    Text(Seq<char>),
    Array(Seq<JsonModel>),
    Object(Seq<(Seq<char>, JsonModel)>),
}

/// The value of the first of `members` that is named `name`.
pub open spec fn first_named(members: Seq<(Seq<char>, JsonModel)>, name: Seq<char>) -> Option<
    JsonModel,
>
    decreases members.len(),
{
    if members.len() == 0 {
        None
    } else if members[0].0 == name {
        Some(members[0].1)
    } else {
        first_named(members.drop_first(), name)
    }
}

impl JsonModel {
    /// The member `name` of an object; `None` of an object without it and of
    /// anything that is no object.
    pub open spec fn member(self, name: Seq<char>) -> Option<JsonModel> {
        match self {
            JsonModel::Object(members) => first_named(members, name),
            _ => None,
        }
    }
}

/// A JSON document in memory.
#[derive(Debug, PartialEq, Eq)]
pub enum Json {
    Null,
    Bool(bool),
    Number(String),
    Text(String),
    Array(Vec<Json>),
    Object(Vec<(String, Json)>),
}

impl View for Json {
    type V = JsonModel;

    open spec fn view(&self) -> JsonModel
        decreases self,
    {
        match self {
            Json::Null => JsonModel::Null,
            Json::Bool(b) => JsonModel::Bool(*b),
            Json::Number(text) => JsonModel::Number(text@),
            Json::Text(text) => JsonModel::Text(text@),
            Json::Array(items) => JsonModel::Array(
                Seq::new(
                    items@.len(),
                    |i: int|
                        if 0 <= i < items@.len() {
                            items@[i]@
                        } else {
                            JsonModel::Null
                        },
                ),
            ),
            Json::Object(members) => JsonModel::Object(
                Seq::new(
                    members@.len(),
                    |i: int|
                        (
                            members@[i].0@,
                            if 0 <= i < members@.len() {
                                members@[i].1@
                            } else {
                                JsonModel::Null
                            },
                        ),
                ),
            ),
        }
    }
}

/// `serde_json::Value`, the tree that the reader builds of a document.
/// Nothing is known of such a value but what the functions below state of
/// it.
#[verifier::external_type_specification]
#[verifier::external_body]
pub struct ExValue(serde_json::Value);

/// `serde_json::Error`, the error with which the reader rejects a text. It
/// is carried through as it is; nothing is known of what it holds.
#[verifier::external_type_specification]
#[verifier::external_body]
pub struct ExError(serde_json::Error);

/// The document that `serde_json` reads from `text`; `None` where it rejects
/// the text.
pub uninterp spec fn json_document(text: Seq<char>) -> Option<JsonModel>;

/// The document that a `serde_json::Value` holds: what its variant and the
/// values below it stand for.
pub uninterp spec fn value_model(value: serde_json::Value) -> JsonModel;

/// `serde_json::from_str` at `serde_json::Value`: the same text always reads
/// as the same document, or is always rejected.
#[verifier::external_body]
fn read_value(text: &str) -> (read: Result<serde_json::Value, serde_json::Error>)
    ensures
        match read {
            Ok(value) => json_document(text@) == Some(value_model(value)),
            Err(_) => json_document(text@) is None,
        },
{
    serde_json::from_str::<serde_json::Value>(text)
}

/// `serde_json::Value::as_bool`: the boolean of a `Bool`, `None` of anything
/// else.
#[verifier::external_body]
fn value_as_bool(value: &serde_json::Value) -> (found: Option<bool>)
    ensures
        match found {
            Some(b) => value_model(*value) == JsonModel::Bool(b),
            None => !(value_model(*value) is Bool),
        },
{
    value.as_bool()
}

/// `serde_json::Value::as_str`: the text of a `String`, `None` of anything
/// else.
#[verifier::external_body]
fn value_as_str(value: &serde_json::Value) -> (found: Option<&str>)
    ensures
        match found {
            Some(text) => value_model(*value) == JsonModel::Text(text@),
            None => !(value_model(*value) is Text),
        },
{
    value.as_str()
}

/// `serde_json::Value::as_number`, printed by the number's `Display`: the
/// text of a `Number`, `None` of anything else.
#[verifier::external_body]
fn value_as_number(value: &serde_json::Value) -> (found: Option<String>)
    ensures
        match found {
            Some(text) => value_model(*value) == JsonModel::Number(text@),
            None => !(value_model(*value) is Number),
        },
{
    value.as_number().map(|number| number.to_string())
}

/// `serde_json::Value::as_array`: the items of an `Array`, `None` of anything
/// else.
#[verifier::external_body]
fn value_as_array(value: &serde_json::Value) -> (found: Option<&Vec<serde_json::Value>>)
    ensures
        match found {
            Some(items) => value_model(*value) == JsonModel::Array(
                items@.map_values(|item: serde_json::Value| value_model(item)),
            ),
            None => !(value_model(*value) is Array),
        },
{
    value.as_array()
}

/// `serde_json::Value::as_object`, its map walked by `Map::iter`: the members
/// of an `Object` in the order of that walk, `None` of anything else.
#[verifier::external_body]
fn value_as_object(value: &serde_json::Value) -> (found: Option<Vec<(&String, &serde_json::Value)>>)
    ensures
        match found {
            Some(members) => value_model(*value) == JsonModel::Object(
                members@.map_values(
                    |member: (&String, &serde_json::Value)| (member.0@, value_model(*member.1)),
                ),
            ),
            None => !(value_model(*value) is Object),
        },
{
    value.as_object().map(|map| map.iter().collect())
}

/// The library's own copy of a value of `serde_json`.
fn lift(value: &serde_json::Value) -> (doc: Json)
    ensures
        doc@ == value_model(*value),
    decreases value_model(*value),
{
    if let Some(b) = value_as_bool(value) {
        return Json::Bool(b);
    }
    if let Some(text) = value_as_str(value) {
        return Json::Text(String::from_str(text));
    }
    if let Some(text) = value_as_number(value) {
        return Json::Number(text);
    }
    if let Some(items) = value_as_array(value) {
        let mut docs: Vec<Json> = Vec::new();
        let mut i: usize = 0;
        while i < items.len()
            invariant
                i <= items.len(),
                docs@.len() == i,
                value_model(*value) == JsonModel::Array(
                    items@.map_values(|item: serde_json::Value| value_model(item)),
                ),
                forall|k: int| 0 <= k < i ==> (#[trigger] docs@[k])@ == value_model(items@[k]),
            decreases items.len() - i,
        {
            proof {
                let models = items@.map_values(|item: serde_json::Value| value_model(item));
                assert(models[i as int] == value_model(items@[i as int]));
                assert(decreases_to!(value_model(*value) => value_model(*value)->Array_0));
                assert(decreases_to!(models => models[i as int]));
            }
            let doc = lift(&items[i]);
            docs.push(doc);
            i += 1;
        }
        let array = Json::Array(docs);
        assert(array@ == value_model(*value)) by {
            assert(array@->Array_0 =~= value_model(*value)->Array_0);
        }
        return array;
    }
    if let Some(members) = value_as_object(value) {
        let mut docs: Vec<(String, Json)> = Vec::new();
        let mut i: usize = 0;
        while i < members.len()
            invariant
                i <= members.len(),
                docs@.len() == i,
                value_model(*value) == JsonModel::Object(
                    members@.map_values(
                        |member: (&String, &serde_json::Value)| (member.0@, value_model(*member.1)),
                    ),
                ),
                forall|k: int|
                    0 <= k < i ==> (#[trigger] docs@[k]).0@ == members@[k].0@ && docs@[k].1@
                        == value_model(*members@[k].1),
            decreases members.len() - i,
        {
            proof {
                let models = members@.map_values(
                    |member: (&String, &serde_json::Value)| (member.0@, value_model(*member.1)),
                );
                assert(models[i as int].1 == value_model(*members@[i as int].1));
                assert(decreases_to!(value_model(*value) => value_model(*value)->Object_0));
                assert(decreases_to!(models => models[i as int]));
                assert(decreases_to!(models[i as int] => models[i as int].1));
            }
            let name = members[i].0.clone();
            let doc = lift(members[i].1);
            docs.push((name, doc));
            i += 1;
        }
        let object = Json::Object(docs);
        assert(object@ == value_model(*value)) by {
            assert(object@->Object_0 =~= value_model(*value)->Object_0);
        }
        return object;
    }
    Json::Null
}

impl Json {
    /// The member `name` of an object; `None` of an object without it and of
    /// anything that is no object.
    pub fn member(&self, name: &str) -> (found: Option<&Json>)
        ensures
            match found {
                Some(doc) => self@.member(name@) == Some(doc@),
                None => self@.member(name@) is None,
            },
    {
        match self {
            Json::Object(members) => {
                let wanted = String::from_str(name);
                let ghost models = self@->Object_0;
                assert(models.skip(0) =~= models);
                let mut i: usize = 0;
                while i < members.len()
                    invariant
                        i <= members.len(),
                        wanted@ == name@,
                        self@ == JsonModel::Object(models),
                        models.len() == members@.len(),
                        forall|k: int|
                            0 <= k < models.len() ==> #[trigger] models[k] == (
                                members@[k].0@,
                                members@[k].1@,
                            ),
                        first_named(models, name@) == first_named(models.skip(i as int), name@),
                    decreases members.len() - i,
                {
                    proof {
                        let rest = models.skip(i as int);
                        assert(rest[0] == models[i as int]);
                        assert(rest.drop_first() =~= models.skip(i + 1));
                    }
                    if members[i].0 == wanted {
                        return Some(&members[i].1);
                    }
                    i += 1;
                }
                None
            },
            _ => None,
        }
    }
}

/// Reads `text` as one JSON document. The text is accepted or rejected as
/// `serde_json` decides, and an accepted text always yields the same
/// document.
pub fn parse(text: &str) -> (parsed: Result<Json, serde_json::Error>)
    ensures
        match parsed {
            Ok(doc) => json_document(text@) == Some(doc@),
            Err(_) => json_document(text@) is None,
        },
{
    match read_value(text) {
        Ok(value) => Ok(lift(&value)),
        Err(error) => Err(error),
    }
}

/// Whether two texts are the same.
pub(crate) fn same_text(left: &str, right: &str) -> (same: bool)
    ensures
        same == (left@ == right@),
{
    String::from_str(left) == String::from_str(right)
}

/// The JSON string literal, quotes included, that `serde_json` writes for
/// `text`.
pub uninterp spec fn json_string(text: Seq<char>) -> Seq<char>;

/// `serde_json::to_string` at `str`: the same text always gives the same
/// literal. Writing a string into memory has no step that fails, so the
/// result is always there.
#[verifier::external_body]
fn write_string(text: &str) -> (written: Result<String, serde_json::Error>)
    ensures
        match written {
            Ok(literal) => literal@ == json_string(text@),
            Err(_) => false,
        },
{
    serde_json::to_string(text)
}

/// `text` as a JSON string literal, quotes included.
pub fn quote(text: &str) -> (literal: String)
    ensures
        literal@ == json_string(text@),
{
    match write_string(text) {
        Ok(literal) => literal,
        Err(_) => unreached(),
    }
}

/// `serde::de::Error::custom` at `serde_json::Error`: an error of the reader's
/// own type that carries `reason` as its message.
#[verifier::external_body]
pub(crate) fn shape_error(reason: &str) -> serde_json::Error {
    <serde_json::Error as serde::de::Error>::custom(reason)
}

} // verus!
