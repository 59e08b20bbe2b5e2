//! JSON documents as the library reads them.

use crate::text::same_text;
use vstd::prelude::*;

verus! {

/// A JSON document. Numbers are kept only as a tag: nothing here reads one.
#[derive(Debug, PartialEq, Eq)]
pub enum Json {
    Null,
    Bool(bool),
    Number,
    Text(String),
    Array(Vec<Json>),
    Object(Vec<(String, Json)>),
}

/// What a `Json` stands for.
pub enum JsonView {
    Null,
    Bool(bool),
    Number,
    Text(Seq<char>),
    Array(Seq<JsonView>),
    Object(Seq<(Seq<char>, JsonView)>),
}

/// The document that `doc` stands for.
pub open spec fn json_view(doc: Json) -> JsonView
    decreases doc,
{
    match doc {
        Json::Null => JsonView::Null,
        Json::Bool(b) => JsonView::Bool(b),
        Json::Number => JsonView::Number,
        Json::Text(s) => JsonView::Text(s@),
        Json::Array(items) => JsonView::Array(
            Seq::new(
                items@.len(),
                |i: int|
                    if 0 <= i < items@.len() {
                        json_view(items@[i])
                    } else {
                        JsonView::Null
                    },
            ),
        ),
        Json::Object(members) => JsonView::Object(
            Seq::new(
                members@.len(),
                |i: int|
                    if 0 <= i < members@.len() {
                        (members@[i].0@, json_view(members@[i].1))
                    } else {
                        (Seq::empty(), JsonView::Null)
                    },
            ),
        ),
    }
}

impl View for Json {
    type V = JsonView;

    open spec fn view(&self) -> JsonView {
        json_view(*self)
    }
}

/// The document behind a borrowed `Json`, if there is one.
pub open spec fn doc_view(parsed: Option<&Json>) -> Option<JsonView> {
    match parsed {
        Some(doc) => Some(doc@),
        None => None,
    }
}

/// An object's view holds the views of its members, in their order.
pub proof fn lemma_object_view(members: Vec<(String, Json)>)
    ensures
        Json::Object(members)@ is Object,
        Json::Object(members)@->Object_0.len() == members@.len(),
        forall|k: int|
            0 <= k < members@.len() ==> Json::Object(members)@->Object_0[k] == (
                #[trigger] members@[k].0@,
                members@[k].1@,
            ),
{
}

/// An array's view holds the views of its elements, in their order.
pub proof fn lemma_array_view(items: Vec<Json>)
    ensures
        Json::Array(items)@ is Array,
        Json::Array(items)@->Array_0.len() == items@.len(),
        forall|k: int|
            0 <= k < items@.len() ==> Json::Array(items)@->Array_0[k] == #[trigger] items@[k]@,
{
}

/// The value of the first member called `name`.
pub open spec fn first_named(members: Seq<(Seq<char>, JsonView)>, name: Seq<char>) -> Option<
    JsonView,
>
    decreases members.len(),
{
    if members.len() == 0 {
        None
    } else if members[0].0 == name {
        Some(members[0].1)
    } else {
        first_named(members.drop_first(), name)
    }
}

impl JsonView {
    /// The member `name` of an object; nothing for any other document.
    pub open spec fn get(self, name: Seq<char>) -> Option<JsonView> {
        match self {
            JsonView::Object(members) => first_named(members, name),
            _ => None,
        }
    }

    /// The characters of a text; nothing for any other document.
    pub open spec fn as_str(self) -> Option<Seq<char>> {
        match self {
            JsonView::Text(s) => Some(s),
            _ => None,
        }
    }

    /// The elements of an array; nothing for any other document.
    pub open spec fn as_array(self) -> Option<Seq<JsonView>> {
        match self {
            JsonView::Array(items) => Some(items),
            _ => None,
        }
    }

    /// The member `name` where it is a text.
    pub open spec fn get_str(self, name: Seq<char>) -> Option<Seq<char>> {
        match self.get(name) {
            Some(value) => value.as_str(),
            None => None,
        }
    }
}

impl Json {
    /// The member `name` of an object.
    pub fn get(&self, name: &str) -> (found: Option<&Json>)
        ensures
            found is Some <==> self@.get(name@) is Some,
            found matches Some(value) ==> self@.get(name@) == Some(value@),
    {
        match self {
            Json::Object(members) => {
                let mut i: usize = 0;
                proof {
                    lemma_object_view(*members);
                    assert(self@->Object_0.subrange(0, members@.len() as int) == self@->Object_0);
                }
                while i < members.len()
                    invariant
                        i <= members@.len(),
                        self@ is Object,
                        self@->Object_0.len() == members@.len(),
                        forall|k: int|
                            0 <= k < members@.len() ==> self@->Object_0[k] == (
                                #[trigger] members@[k].0@,
                                members@[k].1@,
                            ),
                        self@.get(name@) == first_named(
                            self@->Object_0.subrange(i as int, members@.len() as int),
                            name@,
                        ),
                    decreases members@.len() - i,
                {
                    let ghost rest = self@->Object_0.subrange(i as int, members@.len() as int);
                    assert(rest.drop_first() == self@->Object_0.subrange(
                        i + 1,
                        members@.len() as int,
                    ));
                    assert(rest[0] == (members@[i as int].0@, members@[i as int].1@));
                    if same_text(members[i].0.as_str(), name) {
                        return Some(&members[i].1);
                    }
                    i = i + 1;
                }
                None
            },
            _ => None,
        }
    }

    /// The characters of a text.
    pub fn as_str(&self) -> (text: Option<&str>)
        ensures
            text is Some <==> self@.as_str() is Some,
            text matches Some(s) ==> self@.as_str() == Some(s@),
    {
        match self {
            Json::Text(s) => Some(s.as_str()),
            _ => None,
        }
    }

    /// The elements of an array.
    pub fn as_array(&self) -> (items: Option<&Vec<Json>>)
        ensures
            items is Some <==> self@.as_array() is Some,
            items matches Some(v) ==> {
                &&& self@.as_array()->0.len() == v@.len()
                &&& forall|i: int| 0 <= i < v@.len() ==> self@.as_array()->0[i] == #[trigger] v@[i]@
            },
    {
        match self {
            Json::Array(items) => {
                proof {
                    lemma_array_view(*items);
                }
                Some(items)
            },
            _ => None,
        }
    }

    /// The member `name` where it is a text.
    pub fn get_str(&self, name: &str) -> (text: Option<&str>)
        ensures
            text is Some <==> self@.get_str(name@) is Some,
            text matches Some(s) ==> self@.get_str(name@) == Some(s@),
    {
        match self.get(name) {
            Some(value) => value.as_str(),
            None => None,
        }
    }
}

/// `serde_json::Value`, the document that the parser builds.
#[verifier::external_type_specification]
#[verifier::external_body]
pub struct ExValue(serde_json::Value);

/// The document that `serde_json::from_str` reads from `text`, where it
/// accepts `text`, with each number reduced to a tag.
pub uninterp spec fn parsed_json(text: Seq<char>) -> Option<JsonView>;

/// Copies a `serde_json::Value` into a `Json`, variant by variant; of a
/// number only the tag is kept.
#[verifier::external_body]
fn from_value(value: &serde_json::Value) -> Json {
    match value {
        serde_json::Value::Null => Json::Null,
        serde_json::Value::Bool(b) => Json::Bool(*b),
        serde_json::Value::Number(_) => Json::Number,
        serde_json::Value::String(s) => Json::Text(s.clone()),
        serde_json::Value::Array(items) => Json::Array(items.iter().map(from_value).collect()),
        serde_json::Value::Object(members) => Json::Object(
            members.iter().map(|(name, member)| (name.clone(), from_value(member))).collect(),
        ),
    }
}

/// Calls `serde_json::from_str` for a `serde_json::Value`. The result is
/// the document read, copied into a `Json`, or nothing where the parser
/// refuses `text`; it depends on `text` alone.
#[verifier::external_body]
pub(crate) fn parse(text: &str) -> (doc: Option<Json>)
    ensures
        doc is Some <==> parsed_json(text@) is Some,
        doc matches Some(json) ==> parsed_json(text@) == Some(json@),
{
    match serde_json::from_str::<serde_json::Value>(text) {
        Ok(value) => Some(from_value(&value)),
        Err(_) => None,
    }
}

} // verus!
