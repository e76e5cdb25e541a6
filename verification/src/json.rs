//! The directory set as a JSON value of `serde_json`.
//!
//! `serde_json` is not verified. What this module takes on trust of it is
//! written in the contracts of the declarations marked `external_body` below;
//! everything else is proved from them.

use vstd::prelude::*;
use crate::directories::{directory_map, lemma_keys_differ, DirectorySet};
use crate::home::{lookup_text, resolved_home};

verus! {

/// `serde_json::Value`, carried through as an opaque value.
#[verifier::external_type_specification]
#[verifier::external_body]
pub struct ExJsonValue(serde_json::Value);

/// `serde_json::Map`, carried through as an opaque value.
#[verifier::external_type_specification]
#[verifier::external_body]
#[verifier::reject_recursive_types(K)]
#[verifier::reject_recursive_types(V)]
pub struct ExJsonMap<K, V>(serde_json::Map<K, V>);

/// The members of a `serde_json::Map`, by key: `Some` with the text where the
/// member is a JSON string, `None` where it is any other JSON value.
pub uninterp spec fn map_members(
    members: serde_json::Map<String, serde_json::Value>,
) -> Map<Seq<char>, Option<Seq<char>>>;

/// The members of a `serde_json::Value` that is an object, by key, told as
/// [`map_members`] tells them. A value that is no object has none.
pub uninterp spec fn object_members(value: serde_json::Value) -> Map<Seq<char>, Option<Seq<char>>>;

/// The members of an empty JSON object.
pub open spec fn no_members() -> Map<Seq<char>, Option<Seq<char>>> {
    Map::empty()
}

/// A map from keys to texts as the members of a JSON object whose members
/// are all strings.
pub open spec fn text_members(texts: Map<Seq<char>, Seq<char>>) -> Map<
    Seq<char>,
    Option<Seq<char>>,
> {
    texts.map_values(|text: Seq<char>| Some(text))
}

/// Calls `serde_json::Map::new`. Trusted: the new map has no members.
#[verifier::external_body]
fn new_members() -> (fresh: serde_json::Map<String, serde_json::Value>)
    ensures
        map_members(fresh) == no_members(),
{
    serde_json::Map::new()
}

/// Calls `serde_json::Map::insert` with `key` and the JSON string `text`.
/// Trusted: afterwards the map holds that string under `key`, in place of
/// whatever it held there, and its other members are as before.
#[verifier::external_body]
fn insert_text(members: &mut serde_json::Map<String, serde_json::Value>, key: &str, text: String)
    ensures
        map_members(*final(members)) == map_members(*old(members)).insert(key@, Some(text@)),
{
    let _ = members.insert(key.to_owned(), serde_json::Value::String(text));
}

/// Wraps a map in `serde_json::Value::Object`. Trusted: the value is an
/// object with the members of the map.
#[verifier::external_body]
fn object_of(members: serde_json::Map<String, serde_json::Value>) -> (value: serde_json::Value)
    ensures
        object_members(value) == map_members(members),
{
    serde_json::Value::Object(members)
}

impl DirectorySet {
    /// The directory set as a JSON object: one string member for each of the
    /// four keys, and no other member.
    pub fn to_json(&self) -> (value: serde_json::Value)
        ensures
            object_members(value) == text_members(self@),
    {
        let mut members = new_members();
        insert_text(&mut members, "home", self.home().to_owned());
        insert_text(&mut members, "downloads", self.downloads().to_owned());
        insert_text(&mut members, "documents", self.documents().to_owned());
        insert_text(&mut members, "desktop", self.desktop().to_owned());
        proof {
            self.lemma_derived_from_home();
            lemma_keys_differ();
            assert(map_members(members) =~= text_members(self@));
        }
        object_of(members)
    }
}

/// Answers the request for the user's directories: resolves the home
/// directory from the outcome of the two lookups and lists the four
/// directories derived from it as a JSON object. No input makes it fail; the
/// error is there for callers that expect one.
pub fn get_user_dirs(primary: Option<String>, secondary: Option<String>) -> (answer: Result<
    serde_json::Value,
    String,
>)
    ensures
        answer is Ok,
        object_members(answer->Ok_0) == text_members(
            directory_map(resolved_home(lookup_text(primary), lookup_text(secondary))),
        ),
{
    let dirs = DirectorySet::resolve(primary, secondary);
    Ok(dirs.to_json())
}

} // verus!
