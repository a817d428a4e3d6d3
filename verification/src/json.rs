//! JSON documents as plain data, read and written by `serde_json`.

use crate::text::same_text;
use vstd::prelude::*;

verus! {

/// `serde_json::Value`, which the parser hands out. Nothing is known of what
/// is inside one.
#[verifier::external_type_specification]
#[verifier::external_body]
pub struct ExValue(serde_json::Value);

/// `serde_json::Number`. A number is carried from where it was read to where
/// it is written, and nothing is known of what is inside one.
#[verifier::external_type_specification]
#[verifier::external_body]
pub struct ExNumber(serde_json::Number);

/// `Clone` for `serde_json::Number`, which the crate derives: the clone is the
/// same number.
pub assume_specification[ <serde_json::Number as Clone>::clone ](
    n: &serde_json::Number,
) -> (r: serde_json::Number)
    ensures
        r == *n,
;

/// A JSON document. A number is carried as `serde_json` holds it and is
/// never looked into. The members of an object keep the order in which they
/// were given; where a key occurs twice, the later member is the one found.
#[derive(Debug, PartialEq)]
pub enum Json {
    Null,
    Bool(bool),
    Number(serde_json::Number),
    Text(String),
    Array(Vec<Json>),
    Object(Vec<Member>),
}

/// A member of an object: a key and its value.
#[derive(Debug, PartialEq)]
pub struct Member {
    pub key: String,
    pub value: Json,
}

/// The mathematical value of a JSON document.
pub enum Doc {
    Null,
    Bool(bool),
    Number(serde_json::Number),
    Text(Seq<char>),
    Array(Seq<Doc>),
    Object(Seq<(Seq<char>, Doc)>),
}

impl View for Json {
    type V = Doc;

    open spec fn view(&self) -> Doc
        decreases self,
    {
        match self {
            Json::Null => Doc::Null,
            Json::Bool(b) => Doc::Bool(*b),
            Json::Number(n) => Doc::Number(*n),
            Json::Text(s) => Doc::Text(s@),
            Json::Array(items) => Doc::Array(
                Seq::new(
                    items@.len(),
                    |i: int|
                        if 0 <= i < items@.len() {
                            items@[i]@
                        } else {
                            Doc::Null
                        },
                ),
            ),
            Json::Object(members) => Doc::Object(
                Seq::new(
                    members@.len(),
                    |i: int|
                        if 0 <= i < members@.len() {
                            (members@[i].key@, members@[i].value@)
                        } else {
                            (Seq::empty(), Doc::Null)
                        },
                ),
            ),
        }
    }
}

/// The values of a list of documents.
pub open spec fn docs_of(items: Seq<Json>) -> Seq<Doc> {
    Seq::new(items.len(), |i: int| items[i]@)
}

/// The keys and values of a list of members.
pub open spec fn members_of(members: Seq<Member>) -> Seq<(Seq<char>, Doc)> {
    Seq::new(members.len(), |i: int| (members[i].key@, members[i].value@))
}

/// The value of the last member of `members` whose key is `key`.
pub open spec fn lookup(members: Seq<(Seq<char>, Doc)>, key: Seq<char>) -> Option<Doc>
    decreases members.len(),
{
    if members.len() == 0 {
        None
    } else if members.last().0 == key {
        Some(members.last().1)
    } else {
        lookup(members.drop_last(), key)
    }
}

impl Doc {
    /// The member `key` of an object; nothing for any other document.
    pub open spec fn get(self, key: Seq<char>) -> Option<Doc> {
        match self {
            Doc::Object(members) => lookup(members, key),
            _ => None,
        }
    }

    /// The text of a string document.
    pub open spec fn text(self) -> Option<Seq<char>> {
        match self {
            Doc::Text(s) => Some(s),
            _ => None,
        }
    }

    /// The text of the member `key`, where that member is a string.
    pub open spec fn text_at(self, key: Seq<char>) -> Option<Seq<char>> {
        match self.get(key) {
            Some(d) => d.text(),
            None => None,
        }
    }

    /// The items of an array document.
    pub open spec fn items(self) -> Option<Seq<Doc>> {
        match self {
            Doc::Array(items) => Some(items),
            _ => None,
        }
    }

    /// The items of the member `key`, where that member is an array.
    pub open spec fn items_at(self, key: Seq<char>) -> Option<Seq<Doc>> {
        match self.get(key) {
            Some(d) => d.items(),
            None => None,
        }
    }

    /// The number of a number document.
    pub open spec fn number(self) -> Option<serde_json::Number> {
        match self {
            Doc::Number(n) => Some(n),
            _ => None,
        }
    }

    /// The number of the member `key`, where that member is a number.
    pub open spec fn number_at(self, key: Seq<char>) -> Option<serde_json::Number> {
        match self.get(key) {
            Some(d) => d.number(),
            None => None,
        }
    }
}

/// What `serde_json::from_str` makes of a text: the document, or the message
/// of the error.
pub uninterp spec fn json_parse(text: Seq<char>) -> Result<Doc, Seq<char>>;

/// The value of a parser's outcome.
pub open spec fn outcome_view(r: Result<Json, String>) -> Result<Doc, Seq<char>> {
    match r {
        Ok(j) => Ok(j@),
        Err(e) => Err(e@),
    }
}

/// The text that `serde_json::to_string` writes for the object whose one
/// member has the key `key` and the string `value`.
pub uninterp spec fn member_text(key: Seq<char>, value: Seq<char>) -> Seq<char>;

/// The view of an array is the list of its items' views.
pub proof fn lemma_array_view(items: Vec<Json>)
    ensures
        Json::Array(items)@ == Doc::Array(docs_of(items@)),
{
    assert(Json::Array(items)@->Array_0 =~= docs_of(items@));
}

/// The view of an object is the list of its members' views.
pub proof fn lemma_object_view(members: Vec<Member>)
    ensures
        Json::Object(members)@ == Doc::Object(members_of(members@)),
{
    reveal_with_fuel(<Json as View>::view, 2);
    assert(Json::Object(members)@->Object_0 =~= members_of(members@));
}

impl Member {
    /// The member that gives `value` the key `key`.
    pub fn new(key: &str, value: Json) -> (r: Member)
        ensures
            r.key@ == key@,
            r.value == value,
    {
        Member { key: key.to_owned(), value }
    }
}

impl DeepView for Json {
    type V = Doc;

    open spec fn deep_view(&self) -> Doc {
        self@
    }
}

/// The index of the last member of `members` whose key is `key`.
pub fn find_last(members: &Vec<Member>, key: &str) -> (r: Option<usize>)
    ensures
        r is Some <==> lookup(members_of(members@), key@) is Some,
        r matches Some(i) ==> i < members.len() && members[i as int].key@ == key@ && lookup(
            members_of(members@),
            key@,
        ) == Some(members[i as int].value@),
{
    let ghost all = members_of(members@);
    let mut i: usize = members.len();
    assert(all.take(i as int) =~= all);
    while i > 0
        invariant
            i <= members.len(),
            all == members_of(members@),
            lookup(all, key@) == lookup(all.take(i as int), key@),
        decreases i,
    {
        i -= 1;
        assert(all.take(i + 1).drop_last() =~= all.take(i as int));
        if same_text(members[i].key.as_str(), key) {
            return Some(i);
        }
    }
    None
}

impl Json {
    /// The member `key` of an object.
    pub fn get(&self, key: &str) -> (r: Option<&Json>)
        ensures
            r is Some <==> self@.get(key@) is Some,
            r matches Some(j) ==> self@.get(key@) == Some(j@),
    {
        match self {
            Json::Object(members) => {
                proof {
                    lemma_object_view(*members);
                }
                match find_last(members, key) {
                    Some(i) => Some(&members[i].value),
                    None => None,
                }
            },
            _ => None,
        }
    }

    /// The text of a string document.
    pub fn as_text(&self) -> (r: Option<&String>)
        ensures
            r is Some <==> self@.text() is Some,
            r matches Some(s) ==> self@.text() == Some(s@),
    {
        match self {
            Json::Text(s) => Some(s),
            _ => None,
        }
    }

    /// The text of the member `key`, where that member is a string.
    pub fn text_at(&self, key: &str) -> (r: Option<&String>)
        ensures
            r is Some <==> self@.text_at(key@) is Some,
            r matches Some(s) ==> self@.text_at(key@) == Some(s@),
    {
        match self.get(key) {
            Some(j) => j.as_text(),
            None => None,
        }
    }

    /// The items of an array document.
    pub fn as_array(&self) -> (r: Option<&Vec<Json>>)
        ensures
            r is Some <==> self@.items() is Some,
            r matches Some(v) ==> self@.items() == Some(docs_of(v@)),
    {
        match self {
            Json::Array(items) => {
                proof {
                    lemma_array_view(*items);
                }
                Some(items)
            },
            _ => None,
        }
    }

    /// The items of the member `key`, where that member is an array.
    pub fn array_at(&self, key: &str) -> (r: Option<&Vec<Json>>)
        ensures
            r is Some <==> self@.items_at(key@) is Some,
            r matches Some(v) ==> self@.items_at(key@) == Some(docs_of(v@)),
    {
        match self.get(key) {
            Some(j) => j.as_array(),
            None => None,
        }
    }

    /// The number of a number document.
    pub fn as_number(&self) -> (r: Option<&serde_json::Number>)
        ensures
            r is Some <==> self@.number() is Some,
            r matches Some(n) ==> self@.number() == Some(*n),
    {
        match self {
            Json::Number(n) => Some(n),
            _ => None,
        }
    }

    /// The number of the member `key`, where that member is a number.
    pub fn number_at(&self, key: &str) -> (r: Option<&serde_json::Number>)
        ensures
            r is Some <==> self@.number_at(key@) is Some,
            r matches Some(n) ==> self@.number_at(key@) == Some(*n),
    {
        match self.get(key) {
            Some(j) => j.as_number(),
            None => None,
        }
    }

    /// A string document.
    pub fn text(value: &str) -> (r: Json)
        ensures
            r@ == Doc::Text(value@),
    {
        Json::Text(value.to_owned())
    }

    /// An array document.
    pub fn array(items: Vec<Json>) -> (r: Json)
        ensures
            r@ == Doc::Array(docs_of(items@)),
    {
        proof {
            lemma_array_view(items);
        }
        Json::Array(items)
    }

    /// An object document.
    pub fn object(members: Vec<Member>) -> (r: Json)
        ensures
            r@ == Doc::Object(members_of(members@)),
    {
        proof {
            lemma_object_view(members);
        }
        Json::Object(members)
    }

    /// An object with the one member `key`, a string.
    pub fn labelled(key: &str, value: String) -> (r: Json)
        ensures
            r@ == Doc::Object(seq![(key@, Doc::Text(value@))]),
    {
        let mut members: Vec<Member> = Vec::new();
        members.push(Member { key: key.to_owned(), value: Json::Text(value) });
        proof {
            lemma_object_view(members);
            assert(members_of(members@) =~= seq![(key@, Doc::Text(value@))]);
        }
        Json::Object(members)
    }
}

/// The conversion that `read_text` applies to what the parser hands out:
/// each variant of `serde_json::Value` becomes the same variant of `Json`,
/// and the members of an object come in the order in which its map hands
/// them out.
#[verifier::external_body]
fn from_value(v: serde_json::Value) -> Json {
    match v {
        serde_json::Value::Null => Json::Null,
        serde_json::Value::Bool(b) => Json::Bool(b),
        serde_json::Value::Number(n) => Json::Number(n),
        serde_json::Value::String(s) => Json::Text(s),
        serde_json::Value::Array(a) => Json::Array(a.into_iter().map(from_value).collect()),
        serde_json::Value::Object(m) => Json::Object(
            m.into_iter().map(|(k, v)| Member { key: k, value: from_value(v) }).collect(),
        ),
    }
}

/// Calls `serde_json::from_str` for a `serde_json::Value`, and `to_string`
/// on the error where it gives one. The outcome is a function of the text
/// alone; the contract gives it its name and no more.
#[verifier::external_body]
pub(crate) fn read_text(text: &str) -> (r: Result<Json, String>)
    ensures
        outcome_view(r) == json_parse(text@),
{
    match serde_json::from_str::<serde_json::Value>(text) {
        Ok(v) => Ok(from_value(v)),
        Err(e) => Err(e.to_string()),
    }
}

/// Calls `serde_json::to_string` on the object whose one member has the key
/// `key` and the string `value`. The text is a function of the two alone;
/// the contract gives it its name and no more.
#[verifier::external_body]
pub(crate) fn write_member(key: &str, value: &str) -> (r: String)
    ensures
        r@ == member_text(key@, value@),
{
    let mut object = serde_json::Map::new();
    object.insert(key.to_owned(), serde_json::Value::String(value.to_owned()));
    serde_json::to_string(&serde_json::Value::Object(object)).unwrap_or_default()
}

} // verus!
