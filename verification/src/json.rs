//! A plain model of JSON documents, as far as the gateway protocol reads them.

use vstd::prelude::*;
use vstd::string::StringExecFns;

verus! {

/// Mathematical value of a received JSON document.
pub ghost enum JsonValue {
    Null,
    Bool(bool),
    UInt(u64),
    OtherNumber,
    Text(Seq<char>),
    Array(Seq<JsonValue>),
    Object(Seq<(Seq<char>, JsonValue)>),
}

/// A JSON document held as plain data.
///
/// Numbers that are not unsigned 64-bit integers are kept only as `OtherNumber`:
/// the protocol never reads their value.
#[derive(Debug)]
pub enum Json {
    Null,
    Bool(bool),
    UInt(u64),
    OtherNumber,
    Text(String),
    Array(Vec<Json>),
    Object(Vec<(String, Json)>),
}

/// The value of a document.
pub open spec fn json_value(j: Json) -> JsonValue
    decreases j,
{
    match j {
        Json::Null => JsonValue::Null,
        Json::Bool(b) => JsonValue::Bool(b),
        Json::UInt(n) => JsonValue::UInt(n),
        Json::OtherNumber => JsonValue::OtherNumber,
        Json::Text(s) => JsonValue::Text(s@),
        Json::Array(items) => JsonValue::Array(items_value(items, items@.len())),
        Json::Object(fields) => JsonValue::Object(fields_value(fields, fields@.len())),
    }
}

/// The values of the first `n` elements of an array.
pub open spec fn items_value(items: Vec<Json>, n: nat) -> Seq<JsonValue>
    decreases items, n,
{
    if n == 0 || n > items@.len() {
        Seq::empty()
    } else {
        items_value(items, (n - 1) as nat).push(json_value(items@[n - 1]))
    }
}

/// The names and values of the first `n` members of an object.
pub open spec fn fields_value(fields: Vec<(String, Json)>, n: nat) -> Seq<(Seq<char>, JsonValue)>
    decreases fields, n,
{
    if n == 0 || n > fields@.len() {
        Seq::empty()
    } else {
        fields_value(fields, (n - 1) as nat).push(
            (fields@[n - 1].0@, json_value(fields@[n - 1].1)),
        )
    }
}

impl View for Json {
    type V = JsonValue;

    open spec fn view(&self) -> JsonValue {
        json_value(*self)
    }
}

/// `items_value` goes element by element.
proof fn lemma_items_value(items: Vec<Json>, n: nat)
    requires
        n <= items@.len(),
    ensures
        items_value(items, n).len() == n,
        forall|k: int| 0 <= k < n ==> #[trigger] items_value(items, n)[k] == items@[k]@,
    decreases n,
{
    if n > 0 {
        lemma_items_value(items, (n - 1) as nat);
    }
}

/// `fields_value` goes member by member.
proof fn lemma_fields_value(fields: Vec<(String, Json)>, n: nat)
    requires
        n <= fields@.len(),
    ensures
        fields_value(fields, n).len() == n,
        forall|k: int|
            0 <= k < n ==> #[trigger] fields_value(fields, n)[k] == (
                fields@[k].0@,
                fields@[k].1@,
            ),
    decreases n,
{
    if n > 0 {
        lemma_fields_value(fields, (n - 1) as nat);
    }
}

/// What the first field named `key` holds, if there is one.
pub open spec fn lookup(fields: Seq<(Seq<char>, JsonValue)>, key: Seq<char>) -> Option<JsonValue>
    decreases fields.len(),
{
    if fields.len() == 0 {
        None
    } else if fields[0].0 == key {
        Some(fields[0].1)
    } else {
        lookup(fields.drop_first(), key)
    }
}

impl JsonValue {
    /// The member `key` of an object; `None` for a missing member and for anything
    /// that is not an object.
    pub open spec fn get(self, key: Seq<char>) -> Option<JsonValue> {
        match self {
            JsonValue::Object(fields) => lookup(fields, key),
            _ => None,
        }
    }

    /// A member that must be present and a string.
    pub open spec fn text_at(self, key: Seq<char>) -> Option<Seq<char>> {
        match self.get(key) {
            Some(JsonValue::Text(s)) => Some(s),
            _ => None,
        }
    }

    /// A member that may be missing or `null`, and is a string otherwise. The outer
    /// `None` stands for a member of another kind.
    pub open spec fn optional_text_at(self, key: Seq<char>) -> Option<Option<Seq<char>>> {
        match self.get(key) {
            None | Some(JsonValue::Null) => Some(None),
            Some(JsonValue::Text(s)) => Some(Some(s)),
            _ => None,
        }
    }

    /// A member that must be present and an unsigned integer of at most `max`.
    pub open spec fn uint_at(self, key: Seq<char>, max: u64) -> Option<u64> {
        match self.get(key) {
            Some(JsonValue::UInt(n)) if n <= max => Some(n),
            _ => None,
        }
    }

    /// A member that may be missing or `null`, and is an unsigned integer of at most
    /// `max` otherwise. The outer `None` stands for anything else.
    pub open spec fn optional_uint_at(self, key: Seq<char>, max: u64) -> Option<Option<u64>> {
        match self.get(key) {
            None | Some(JsonValue::Null) => Some(None),
            Some(JsonValue::UInt(n)) if n <= max => Some(Some(n)),
            _ => None,
        }
    }

    /// A member that must be present and an array.
    pub open spec fn array_at(self, key: Seq<char>) -> Option<Seq<JsonValue>> {
        match self.get(key) {
            Some(JsonValue::Array(items)) => Some(items),
            _ => None,
        }
    }
}

/// The view of an optional string.
pub open spec fn text_opt(s: Option<String>) -> Option<Seq<char>> {
    match s {
        Some(s) => Some(s@),
        None => None,
    }
}

/// The view of an optional string that may itself be absent.
pub open spec fn text_opt_opt(s: Option<Option<String>>) -> Option<Option<Seq<char>>> {
    match s {
        Some(s) => Some(text_opt(s)),
        None => None,
    }
}

/// The views of the elements of an optional array.
pub open spec fn items_opt(items: Option<&Vec<Json>>) -> Option<Seq<JsonValue>> {
    match items {
        Some(items) => Some(items_value(*items, items@.len())),
        None => None,
    }
}

/// The view of an optional document.
pub open spec fn view_opt(j: Option<&Json>) -> Option<JsonValue> {
    match j {
        Some(j) => Some(j@),
        None => None,
    }
}

/// `serde_json::Value`, a parsed document as the parser hands it out; nothing of
/// its contents is visible to proofs.
#[verifier::external_type_specification]
#[verifier::external_body]
pub struct ExValue(serde_json::Value);

/// The document that a text denotes as JSON, or `None` where the text is not one
/// JSON document.
///
/// Object members stand in the parser's own order, each name once, and a name
/// written twice keeps what was written last.
pub uninterp spec fn parsed(text: Seq<char>) -> Option<JsonValue>;

/// Copies a `serde_json::Value` into a [`Json`], variant by variant. A number is
/// `UInt` where `serde_json::Number::as_u64` gives one, and `OtherNumber` where
/// it does not.
#[verifier::external_body]
fn from_value(value: &serde_json::Value) -> Json {
    match value {
        serde_json::Value::Null => Json::Null,
        serde_json::Value::Bool(b) => Json::Bool(*b),
        serde_json::Value::Number(n) => n.as_u64().map_or(Json::OtherNumber, Json::UInt),
        serde_json::Value::String(s) => Json::Text(s.clone()),
        serde_json::Value::Array(items) => Json::Array(items.iter().map(from_value).collect()),
        serde_json::Value::Object(fields) => Json::Object(
            fields.iter().map(|(name, v)| (name.clone(), from_value(v))).collect(),
        ),
    }
}

/// `serde_json::from_str` at type `serde_json::Value`: parses one JSON document.
/// The contract only names the outcome, which depends on the text alone.
#[verifier::external_body]
pub(crate) fn parse(text: &str) -> (document: Option<Json>)
    ensures
        (match document {
            Some(j) => Some(j@),
            None => None,
        }) == parsed(text@),
{
    match serde_json::from_str::<serde_json::Value>(text) {
        Ok(value) => Some(from_value(&value)),
        Err(_) => None,
    }
}

/// A document that the client sends: `null`, unsigned numbers, strings, and objects
/// of these.
#[derive(Debug)]
pub enum Payload {
    Null,
    UInt(u64),
    Text(String),
    Object(Vec<(String, Payload)>),
}

/// The value of a document to send.
pub open spec fn payload_value(p: Payload) -> JsonValue
    decreases p,
{
    match p {
        Payload::Null => JsonValue::Null,
        Payload::UInt(n) => JsonValue::UInt(n),
        Payload::Text(s) => JsonValue::Text(s@),
        Payload::Object(members) => JsonValue::Object(pairs_value(members, members@.len())),
    }
}

/// The names and values of the first `n` members of an object to send.
pub open spec fn pairs_value(members: Vec<(String, Payload)>, n: nat) -> Seq<(Seq<char>, JsonValue)>
    decreases members, n,
{
    if n == 0 || n > members@.len() {
        Seq::empty()
    } else {
        pairs_value(members, (n - 1) as nat).push(
            (members@[n - 1].0@, payload_value(members@[n - 1].1)),
        )
    }
}

impl View for Payload {
    type V = JsonValue;

    open spec fn view(&self) -> JsonValue {
        payload_value(*self)
    }
}

/// `pairs_value` goes member by member.
pub(crate) proof fn lemma_pairs_value(members: Vec<(String, Payload)>, n: nat)
    requires
        n <= members@.len(),
    ensures
        pairs_value(members, n).len() == n,
        forall|k: int|
            0 <= k < n ==> #[trigger] pairs_value(members, n)[k] == (
                members@[k].0@,
                members@[k].1@,
            ),
    decreases n,
{
    if n > 0 {
        lemma_pairs_value(members, (n - 1) as nat);
    }
}

/// The compact JSON text of a document, as the serialiser writes it. It writes the
/// members of an object ordered by name, and of members with one name the last.
pub uninterp spec fn rendered(document: JsonValue) -> Seq<char>;

/// Copies a [`Payload`] into a `serde_json::Value`, variant by variant; the
/// members of an object go into a `serde_json::Map` in their order.
#[verifier::external_body]
fn to_value(payload: &Payload) -> serde_json::Value {
    match payload {
        Payload::Null => serde_json::Value::Null,
        Payload::UInt(n) => serde_json::Value::from(*n),
        Payload::Text(s) => serde_json::Value::from(s.as_str()),
        Payload::Object(members) => serde_json::Value::Object(
            members.iter().map(|(name, p)| (name.clone(), to_value(p))).collect(),
        ),
    }
}

/// `serde_json::Value`'s `to_string`: writes a document as compact JSON text. The
/// contract only names the text, which depends on the document alone.
#[verifier::external_body]
pub(crate) fn render(payload: &Payload) -> (text: String)
    ensures
        text@ == rendered(payload@),
{
    to_value(payload).to_string()
}

/// Whether two string slices hold the same characters in the same order.
pub(crate) fn text_eq(a: &str, b: &str) -> (same: bool)
    ensures
        same == (a@ == b@),
{
    String::from_str(a) == String::from_str(b)
}

impl Payload {
    /// Writes the document as compact JSON text.
    pub fn to_text(&self) -> (text: String)
        ensures
            text@ == rendered(self@),
    {
        render(self)
    }
}

impl Json {
    /// Reads a document from JSON text; `None` where the text is not one JSON
    /// document.
    pub fn from_text(text: &str) -> (document: Option<Json>)
        ensures
            (match document {
                Some(j) => Some(j@),
                None => None,
            }) == parsed(text@),
    {
        parse(text)
    }

    /// The place of the first member named `key` among the members of an object.
    fn position(fields: &Vec<(String, Json)>, key: &str) -> (place: Option<usize>)
        ensures
            match place {
                Some(i) => i < fields@.len() && lookup(
                    fields_value(*fields, fields@.len()),
                    key@,
                ) == Some(fields@[i as int].1@),
                None => lookup(fields_value(*fields, fields@.len()), key@) is None,
            },
    {
        let ghost members = fields_value(*fields, fields@.len());
        proof {
            lemma_fields_value(*fields, fields@.len());
            assert(members.skip(0) == members);
        }
        let mut i: usize = 0;
        while i < fields.len()
            invariant
                i <= fields.len(),
                members == fields_value(*fields, fields@.len()),
                members.len() == fields.len(),
                forall|k: int|
                    0 <= k < fields.len() ==> #[trigger] members[k] == (
                        fields@[k].0@,
                        fields@[k].1@,
                    ),
                lookup(members, key@) == lookup(members.skip(i as int), key@),
            decreases fields.len() - i,
        {
            let ghost rest = members.skip(i as int);
            assert(rest[0] == members[i as int]);
            assert(rest.drop_first() == members.skip(i + 1));
            if text_eq(fields[i].0.as_str(), key) {
                return Some(i);
            }
            i += 1;
        }
        None
    }

    /// Looks up a member of an object.
    pub fn get(&self, key: &str) -> (found: Option<&Json>)
        ensures
            view_opt(found) == self@.get(key@),
    {
        match self {
            Json::Object(fields) => match Json::position(fields, key) {
                Some(i) => Some(&fields[i].1),
                None => None,
            },
            _ => None,
        }
    }

    /// Takes a member out of an object, giving up the rest of the document.
    pub fn into_member(self, key: &str) -> (found: Option<Json>)
        ensures
            match found {
                Some(j) => self@.get(key@) == Some(j@),
                None => self@.get(key@) is None,
            },
    {
        match self {
            Json::Object(fields) => {
                let mut fields = fields;
                match Json::position(&fields, key) {
                    Some(i) => Some(fields.remove(i).1),
                    None => None,
                }
            },
            _ => None,
        }
    }

    /// Reads a member that must be a string.
    pub fn text_at(&self, key: &str) -> (text: Option<String>)
        ensures
            text_opt(text) == self@.text_at(key@),
    {
        match self.get(key) {
            Some(Json::Text(s)) => Some(s.clone()),
            _ => None,
        }
    }

    /// Reads a member that is a string, `null` or missing.
    pub fn optional_text_at(&self, key: &str) -> (text: Option<Option<String>>)
        ensures
            text_opt_opt(text) == self@.optional_text_at(key@),
    {
        match self.get(key) {
            None => Some(None),
            Some(Json::Null) => Some(None),
            Some(Json::Text(s)) => Some(Some(s.clone())),
            _ => None,
        }
    }

    /// Reads a member that must be an unsigned integer of at most `max`.
    pub fn uint_at(&self, key: &str, max: u64) -> (number: Option<u64>)
        ensures
            number == self@.uint_at(key@, max),
    {
        match self.get(key) {
            Some(Json::UInt(n)) => if *n <= max {
                Some(*n)
            } else {
                None
            },
            _ => None,
        }
    }

    /// Reads a member that is an unsigned integer of at most `max`, `null` or missing.
    pub fn optional_uint_at(&self, key: &str, max: u64) -> (number: Option<Option<u64>>)
        ensures
            number == self@.optional_uint_at(key@, max),
    {
        match self.get(key) {
            None => Some(None),
            Some(Json::Null) => Some(None),
            Some(Json::UInt(n)) => if *n <= max {
                Some(Some(*n))
            } else {
                None
            },
            _ => None,
        }
    }

    /// Reads a member that must be an array.
    pub fn array_at(&self, key: &str) -> (items: Option<&Vec<Json>>)
        ensures
            items_opt(items) == self@.array_at(key@),
    {
        match self.get(key) {
            Some(Json::Array(items)) => Some(items),
            _ => None,
        }
    }
}

/// The values that the elements of an array decode to under `model`, if each of
/// them decodes.
pub open spec fn list_of<V>(items: Seq<JsonValue>, model: spec_fn(JsonValue) -> Option<V>) -> Option<
    Seq<V>,
> {
    if forall|i: int| 0 <= i < items.len() ==> model(#[trigger] items[i]) is Some {
        Some(Seq::new(items.len(), |i: int| model(items[i])->0))
    } else {
        None
    }
}

/// The views of a list.
pub open spec fn views<T: View>(items: Seq<T>) -> Seq<T::V> {
    items.map_values(|item: T| item@)
}

/// Decodes every element of an array with `decode`; `None` unless all decode.
pub(crate) fn decode_list<T: View, F: Fn(&Json) -> Option<T>>(
    items: &Vec<Json>,
    decode: F,
    Ghost(model): Ghost<spec_fn(JsonValue) -> Option<T::V>>,
) -> (decoded: Option<Vec<T>>)
    requires
        forall|j: &Json| #[trigger] decode.requires((j,)),
        forall|j: &Json, r: Option<T>| #[trigger]
            decode.ensures((j,), r) ==> (match r {
                Some(t) => model(j@) == Some(t@),
                None => model(j@) is None,
            }),
    ensures
        match decoded {
            Some(list) => list_of(items_value(*items, items@.len()), model) == Some(views(list@)),
            None => list_of(items_value(*items, items@.len()), model) is None,
        },
{
    let mut list: Vec<T> = Vec::new();
    let ghost values = items_value(*items, items@.len());
    proof {
        lemma_items_value(*items, items@.len());
    }
    let mut i: usize = 0;
    while i < items.len()
        invariant
            i <= items.len(),
            values == items_value(*items, items@.len()),
            values.len() == items.len(),
            forall|k: int| 0 <= k < items.len() ==> #[trigger] values[k] == items@[k]@,
            list.len() == i,
            forall|k: int| 0 <= k < i ==> model(#[trigger] values[k]) == Some(list@[k]@),
            forall|j: &Json| #[trigger] decode.requires((j,)),
            forall|j: &Json, r: Option<T>| #[trigger]
                decode.ensures((j,), r) ==> (match r {
                    Some(t) => model(j@) == Some(t@),
                    None => model(j@) is None,
                }),
        decreases items.len() - i,
    {
        match decode(&items[i]) {
            Some(item) => {
                list.push(item);
            },
            None => {
                assert(model(values[i as int]) is None);
                return None;
            },
        }
        i += 1;
    }
    assert(list_of(values, model)->0 =~= views(list@));
    Some(list)
}

} // verus!
