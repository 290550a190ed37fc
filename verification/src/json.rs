//! JSON, as far as the service speaks it: the body of a request that creates
//! or updates a user, and the list of users in a response.
//!
//! Reading JSON and writing a JSON string are left to `serde_json`. What a
//! payload must hold, and how a list of users is laid out, is decided here.

use vstd::prelude::*;
use vstd::string::StringExecFns;
use crate::decimal::{decimal_text, push_decimal};
use crate::user::{user_view, views, User, UserView};

verus! {

/// `serde_json::Value`, a JSON value. Nothing of its inside is seen here: what
/// it holds is asked of `serde_json`.
#[verifier::external_type_specification]
#[verifier::external_body]
pub struct ExJsonValue(serde_json::Value);

/// `serde_json::Error`, what `serde_json` reports when it fails. Nothing of
/// its inside is seen here.
#[verifier::external_type_specification]
#[verifier::external_body]
pub struct ExJsonError(serde_json::Error);

/// The JSON value that `serde_json::from_str` reads out of a text; `None`
/// where it reports an error.
pub uninterp spec fn json_document(text: Seq<char>) -> Option<serde_json::Value>;

/// The member that `serde_json::Value::get` finds in a JSON value under a key;
/// `None` where it finds none.
pub uninterp spec fn json_member(value: serde_json::Value, key: Seq<char>) -> Option<
    serde_json::Value,
>;

/// The text that `serde_json::Value::as_str` finds in a JSON value; `None`
/// where it finds none.
pub uninterp spec fn json_text(value: serde_json::Value) -> Option<Seq<char>>;

/// The integer that `serde_json::Value::as_i64` finds in a JSON value; `None`
/// where it finds none.
pub uninterp spec fn json_integer(value: serde_json::Value) -> Option<i64>;

/// The JSON string that `serde_json::to_string` writes for a text that needs
/// escapes, quotes included; `None` where it reports an error.
pub uninterp spec fn json_escaped(text: Seq<char>) -> Option<Seq<char>>;

/// Calls `serde_json::from_str` for a `serde_json::Value`. It reads one JSON
/// value out of the whole text and reports an error for any other text.
/// Trusted: that the outcome depends on the text alone.
#[verifier::external_body]
fn parse_document(text: &str) -> (document: Result<serde_json::Value, serde_json::Error>)
    ensures
        match document {
            Ok(value) => json_document(text@) == Some(value),
            Err(_) => json_document(text@) is None,
        },
{
    serde_json::from_str::<serde_json::Value>(text)
}

/// Calls `serde_json::Value::get` with a key. It answers the member of that
/// name where the value is an object that has one, and `None` otherwise.
/// Trusted: that the outcome depends on the value and the key alone.
#[verifier::external_body]
fn member<'a>(value: &'a serde_json::Value, key: &str) -> (found: Option<&'a serde_json::Value>)
    ensures
        match found {
            Some(inner) => json_member(*value, key@) == Some(*inner),
            None => json_member(*value, key@) is None,
        },
{
    value.get(key)
}

/// `serde_json::Value::as_str` answers the text of a JSON string, and `None`
/// for any other value. Trusted: that the outcome depends on the value alone.
pub assume_specification[ serde_json::Value::as_str ](value: &serde_json::Value) -> (text:
    Option<&str>)
    ensures
        match text {
            Some(inner) => json_text(*value) == Some(inner@),
            None => json_text(*value) is None,
        },
;

/// `serde_json::Value::as_i64` answers the number of a JSON integer that fits
/// in `i64`, and `None` for any other value. Trusted: that the outcome depends
/// on the value alone.
pub assume_specification[ serde_json::Value::as_i64 ](value: &serde_json::Value) -> (number:
    Option<i64>)
    ensures
        number == json_integer(*value),
;

/// Calls `serde_json::to_string` for a text. It writes the text as a JSON
/// string: between quotation marks, with an escape in place of each quotation
/// mark, backslash and control character below U+0020, and the other
/// characters as they are. Trusted: that a text without any of those is
/// written as it is, and that what is written for another depends on the text
/// alone.
#[verifier::external_body]
fn encode_text(text: &str) -> (encoded: Result<String, serde_json::Error>)
    ensures
        match encoded {
            Ok(string) => if is_plain(text@) {
                string@ == quoted(text@)
            } else {
                json_escaped(text@) == Some(string@)
            },
            Err(_) => !is_plain(text@) && json_escaped(text@) is None,
        },
{
    serde_json::to_string(text)
}

/// Whether a text needs no escape in a JSON string: it holds no quotation
/// mark, no backslash and no control character below U+0020.
pub open spec fn is_plain(text: Seq<char>) -> bool {
    forall|i: int|
        0 <= i < text.len() ==> (#[trigger] text[i]) != '"' && text[i] != '\\' && text[i] as u32
            >= 0x20
}

/// A text between quotation marks.
pub open spec fn quoted(text: Seq<char>) -> Seq<char> {
    seq!['"'] + text + seq!['"']
}

/// A text as a JSON string; `None` where it cannot be written.
pub open spec fn json_string(text: Seq<char>) -> Option<Seq<char>> {
    if is_plain(text) {
        Some(quoted(text))
    } else {
        json_escaped(text)
    }
}

/// What a JSON value holds as text under a key: the member of that name,
/// where it is a string.
pub open spec fn member_text(value: serde_json::Value, key: Seq<char>) -> Option<Seq<char>> {
    match json_member(value, key) {
        Some(inner) => json_text(inner),
        None => None,
    }
}

/// What a JSON value holds as an integer under a key: the member of that name,
/// where it is an integer.
pub open spec fn member_integer(value: serde_json::Value, key: Seq<char>) -> Option<i64> {
    match json_member(value, key) {
        Some(inner) => json_integer(inner),
        None => None,
    }
}

/// What a text holds, where there is one.
pub open spec fn text_view(text: Option<&str>) -> Option<Seq<char>> {
    match text {
        Some(text) => Some(text@),
        None => None,
    }
}

/// The user that a name and an age make: both are needed. It has no
/// identifier yet.
pub open spec fn user_of(name: Option<Seq<char>>, age: Option<i64>) -> Option<UserView> {
    match (name, age) {
        (Some(name), Some(age)) => Some(UserView { id: None, name, age }),
        _ => None,
    }
}

/// The user that a request body gives: the body is one JSON value with a
/// member `name` that is a string and a member `age` that is an integer. Other
/// members, an `id` among them, are passed over.
pub open spec fn payload_of(body: Seq<char>) -> Option<UserView> {
    match json_document(body) {
        Some(document) => user_of(
            member_text(document, "name"@),
            member_integer(document, "age"@),
        ),
        None => None,
    }
}

/// What a string holds, where there is one.
pub open spec fn string_view(text: Option<String>) -> Option<Seq<char>> {
    match text {
        Some(text) => Some(text@),
        None => None,
    }
}

/// A user as a JSON object, with the members `id`, `name` and `age` in this
/// order and nothing between them. `name` is the name as a JSON string. A user
/// without identifier has `null` in its place.
pub open spec fn user_object(id: Option<i64>, name: Seq<char>, age: i64) -> Seq<char> {
    "{\"id\":"@ + (match id {
        Some(id) => decimal_text(id as int),
        None => "null"@,
    }) + ",\"name\":"@ + name + ",\"age\":"@ + decimal_text(age as int) + "}"@
}

/// Texts in a row, with a comma between each two.
pub open spec fn joined(items: Seq<Seq<char>>) -> Seq<char>
    decreases items.len(),
{
    if items.len() == 0 {
        Seq::empty()
    } else if items.len() == 1 {
        items[0]
    } else {
        joined(items.drop_last()) + ","@ + items.last()
    }
}

/// A JSON array of items that are JSON already.
pub open spec fn json_array(items: Seq<Seq<char>>) -> Seq<char> {
    "["@ + joined(items) + "]"@
}

/// A user as a JSON object. `None` where the name cannot be written.
pub open spec fn user_json(user: UserView) -> Option<Seq<char>> {
    match json_string(user.name) {
        Some(name) => Some(user_object(user.id, name, user.age)),
        None => None,
    }
}

/// Users as a JSON array of objects, in their order. `None` where the name of
/// one cannot be written.
pub open spec fn users_json(users: Seq<UserView>) -> Option<Seq<char>> {
    if forall|i: int| 0 <= i < users.len() ==> (#[trigger] user_json(users[i])) is Some {
        Some(json_array(Seq::new(users.len(), |i: int| user_json(users[i])->0)))
    } else {
        None
    }
}

/// Makes a user of a name and an age.
pub fn new_user(name: Option<&str>, age: Option<i64>) -> (user: Option<User>)
    ensures
        user_view(user) == user_of(text_view(name), age),
{
    match (name, age) {
        (Some(name), Some(age)) => Some(User { id: None, name: name.to_owned(), age }),
        _ => None,
    }
}

/// The text that a JSON value holds under a key.
fn text_under<'a>(document: &'a serde_json::Value, key: &str) -> (text: Option<&'a str>)
    ensures
        text_view(text) == member_text(*document, key@),
{
    match member(document, key) {
        Some(inner) => inner.as_str(),
        None => None,
    }
}

/// The integer that a JSON value holds under a key.
fn integer_under(document: &serde_json::Value, key: &str) -> (number: Option<i64>)
    ensures
        number == member_integer(*document, key@),
{
    match member(document, key) {
        Some(inner) => inner.as_i64(),
        None => None,
    }
}

/// Reads the user that a request body gives.
pub fn payload(body: &str) -> (user: Option<User>)
    ensures
        user_view(user) == payload_of(body@),
{
    match parse_document(body) {
        Ok(document) => new_user(text_under(&document, "name"), integer_under(&document, "age")),
        Err(_) => None,
    }
}

/// Writes a user as a JSON object, given its name as a JSON string.
pub fn write_user(id: Option<i64>, name: &str, age: i64) -> (json: String)
    ensures
        json@ == user_object(id, name@, age),
{
    let mut json = String::from_str("{\"id\":");
    match id {
        Some(id) => {
            push_decimal(&mut json, id);
        },
        None => {
            json.append("null");
        },
    }
    json.append(",\"name\":");
    json.append(name);
    json.append(",\"age\":");
    push_decimal(&mut json, age);
    json.append("}");
    json
}

/// Writes a JSON array of items that are JSON already.
pub fn write_array(items: &Vec<String>) -> (json: String)
    ensures
        json@ == json_array(items@.map_values(|item: String| item@)),
{
    let ghost texts = items@.map_values(|item: String| item@);
    let mut json = String::from_str("[");
    let mut i: usize = 0;
    while i < items.len()
        invariant
            i <= items.len(),
            texts == items@.map_values(|item: String| item@),
            json@ == "["@ + joined(texts.take(i as int)),
        decreases items.len() - i,
    {
        proof {
            assert(texts.take(i + 1).drop_last() =~= texts.take(i as int));
            assert(texts.take(i + 1).last() == items@[i as int]@);
        }
        if i > 0 {
            json.append(",");
        }
        json.append(items[i].as_str());
        i += 1;
    }
    assert(texts.take(i as int) =~= texts);
    json.append("]");
    json
}

/// Writes a user as a JSON object.
pub fn user_to_json(user: &User) -> (json: Option<String>)
    ensures
        string_view(json) == user_json(user@),
{
    match encode_text(user.name.as_str()) {
        Ok(name) => Some(write_user(user.id, name.as_str(), user.age)),
        Err(_) => None,
    }
}

/// Writes users as a JSON array.
pub fn users_to_json(users: &Vec<User>) -> (json: Option<String>)
    ensures
        string_view(json) == users_json(views(users@)),
{
    let mut objects: Vec<String> = Vec::new();
    let mut i: usize = 0;
    while i < users.len()
        invariant
            i <= users.len(),
            objects@.len() == i,
            forall|k: int|
                0 <= k < i ==> (#[trigger] user_json(views(users@)[k])) == Some(objects@[k]@),
        decreases users.len() - i,
    {
        match user_to_json(&users[i]) {
            Some(object) => {
                objects.push(object);
            },
            None => {
                assert(user_json(views(users@)[i as int]) is None);
                return None;
            },
        }
        i += 1;
    }
    assert(objects@.map_values(|item: String| item@) =~= Seq::new(
        views(users@).len(),
        |i: int| user_json(views(users@)[i])->0,
    ));
    Some(write_array(&objects))
}

} // verus!
