//! JSON documents as trees of plain values.
//!
//! Parsing text and escaping strings are left to `serde_json`. What the parser hands
//! back is copied, level by level, into a [`Json`] tree, and everything that reads a
//! document works on that tree. The model of a document is a [`JsonView`], reached with
//! `deep_view()`.

use vstd::prelude::*;

verus! {

/// A JSON document.
#[derive(Debug, PartialEq, Eq)]
pub enum Json {
    Null,
    Bool(bool),
    /// A number. The payload is its value where the number is an integer from 0 to
    /// 2^64 - 1, and `None` for every other number (negative or fractional).
    Number(Option<u64>),
    Text(String),
    Array(Vec<Json>),
    /// An object: its members by name, in the order the parser hands them out.
    Object(Vec<(String, Json)>),
}

/// Mathematical model of [`Json`].
pub enum JsonView {
    Null,
    Bool(bool),
    Number(Option<u64>),
    Text(Seq<char>),
    Array(Seq<JsonView>),
    Object(Seq<(Seq<char>, JsonView)>),
}

/// The value of the first entry of `entries` whose name is `key`.
pub open spec fn lookup(entries: Seq<(Seq<char>, JsonView)>, key: Seq<char>) -> Option<JsonView>
    decreases entries.len(),
{
    if entries.len() == 0 {
        None
    } else if entries[0].0 == key {
        Some(entries[0].1)
    } else {
        lookup(entries.drop_first(), key)
    }
}

impl JsonView {
    /// The member `key`, where this is an object that has one.
    pub open spec fn member(self, key: Seq<char>) -> Option<JsonView> {
        match self {
            JsonView::Object(entries) => lookup(entries, key),
            _ => None,
        }
    }

    /// The string member `key`.
    pub open spec fn text_at(self, key: Seq<char>) -> Option<Seq<char>> {
        match self.member(key) {
            Some(JsonView::Text(s)) => Some(s),
            _ => None,
        }
    }

    /// The member `key` where it is an unsigned integer that fits 64 bits.
    pub open spec fn u64_at(self, key: Seq<char>) -> Option<u64> {
        match self.member(key) {
            Some(JsonView::Number(Some(n))) => Some(n),
            _ => None,
        }
    }

    /// The member `key` where it is an unsigned integer that fits 32 bits.
    pub open spec fn u32_at(self, key: Seq<char>) -> Option<u32> {
        match self.u64_at(key) {
            Some(n) => if n <= u32::MAX {
                Some(n as u32)
            } else {
                None
            },
            None => None,
        }
    }

    /// The boolean member `key`.
    pub open spec fn bool_at(self, key: Seq<char>) -> Option<bool> {
        match self.member(key) {
            Some(JsonView::Bool(b)) => Some(b),
            _ => None,
        }
    }

    /// The member `key` where the record may leave it out: `Some(None)` where the member
    /// is absent or `null`, `Some(Some(..))` where it is a string, `None` where it is
    /// anything else.
    pub open spec fn optional_text_at(self, key: Seq<char>) -> Option<Option<Seq<char>>> {
        match self.member(key) {
            None => Some(None),
            Some(JsonView::Null) => Some(None),
            Some(JsonView::Text(s)) => Some(Some(s)),
            Some(_) => None,
        }
    }
}

impl Json {
    /// The model of the document: the same tree, with its strings as sequences of
    /// characters.
    pub open spec fn model(self) -> JsonView
        decreases self,
    {
        match self {
            Json::Null => JsonView::Null,
            Json::Bool(b) => JsonView::Bool(b),
            Json::Number(n) => JsonView::Number(n),
            Json::Text(s) => JsonView::Text(s@),
            Json::Array(items) => JsonView::Array(
                Seq::new(
                    items@.len(),
                    |i: int|
                        if 0 <= i < items@.len() {
                            items@[i].model()
                        } else {
                            JsonView::Null
                        },
                ),
            ),
            Json::Object(entries) => JsonView::Object(
                Seq::new(
                    entries@.len(),
                    |i: int|
                        if 0 <= i < entries@.len() {
                            (entries@[i].0@, entries@[i].1.model())
                        } else {
                            (Seq::empty(), JsonView::Null)
                        },
                ),
            ),
        }
    }
}

impl DeepView for Json {
    type V = JsonView;

    open spec fn deep_view(&self) -> JsonView {
        self.model()
    }
}

impl Json {
    /// Looks up the member `key` of an object. The first entry of that name counts.
    pub fn get(&self, key: &str) -> (found: Option<&Json>)
        ensures
            found.deep_view() == self.deep_view().member(key@),
    {
        match self {
            Json::Object(entries) => {
                let wanted = key.to_owned();
                let ghost all = self.deep_view()->Object_0;
                assert(all.skip(0) =~= all);
                let mut i: usize = 0;
                while i < entries.len()
                    invariant
                        i <= entries.len(),
                        wanted@ == key@,
                        self.deep_view().member(key@) == lookup(all, key@),
                        all.len() == entries.len(),
                        forall|k: int|
                            0 <= k < all.len() ==> #[trigger] all[k] == (
                                entries[k].0@,
                                entries[k].1.deep_view(),
                            ),
                        lookup(all, key@) == lookup(all.skip(i as int), key@),
                    decreases entries.len() - i,
                {
                    if entries[i].0 == wanted {
                        return Some(&entries[i].1);
                    }
                    assert(all.skip(i as int).drop_first() =~= all.skip(i + 1));
                    i += 1;
                }
                None
            },
            _ => None,
        }
    }

    /// Reads the string member `key`.
    pub fn string_field(&self, key: &str) -> (r: Option<String>)
        ensures
            r.deep_view() == self.deep_view().text_at(key@),
    {
        match self.get(key) {
            Some(Json::Text(s)) => Some(s.clone()),
            _ => None,
        }
    }

    /// Reads the member `key` as an unsigned 64-bit integer.
    pub fn u64_field(&self, key: &str) -> (r: Option<u64>)
        ensures
            r == self.deep_view().u64_at(key@),
    {
        match self.get(key) {
            Some(Json::Number(Some(n))) => Some(*n),
            _ => None,
        }
    }

    /// Reads the member `key` as an unsigned 32-bit integer.
    pub fn u32_field(&self, key: &str) -> (r: Option<u32>)
        ensures
            r == self.deep_view().u32_at(key@),
    {
        match self.u64_field(key) {
            Some(n) => if n <= u32::MAX as u64 {
                Some(n as u32)
            } else {
                None
            },
            None => None,
        }
    }

    /// Reads the boolean member `key`.
    pub fn bool_field(&self, key: &str) -> (r: Option<bool>)
        ensures
            r == self.deep_view().bool_at(key@),
    {
        match self.get(key) {
            Some(Json::Bool(b)) => Some(*b),
            _ => None,
        }
    }

    /// Reads the string member `key` of a record that may leave it out or set it to
    /// `null`.
    pub fn optional_string_field(&self, key: &str) -> (r: Option<Option<String>>)
        ensures
            r.deep_view() == self.deep_view().optional_text_at(key@),
    {
        match self.get(key) {
            None => Some(None),
            Some(Json::Null) => Some(None),
            Some(Json::Text(s)) => Some(Some(s.clone())),
            Some(_) => None,
        }
    }
}

/// `serde_json::Value`, the tree that `serde_json` parses text into. Nothing is known of
/// a value of this type but what [`json_of_value`] names and [`shape`] hands out.
#[verifier::external_type_specification]
#[verifier::external_body]
pub struct ExValue(serde_json::Value);

/// The document that `serde_json::from_str` reads from `text`, or `None` where it
/// refuses the text. Not defined here: it stands for the parser's behaviour.
pub uninterp spec fn json_of_text(text: Seq<char>) -> Option<JsonView>;

/// The document that a `serde_json::Value` holds. Not defined here: it stands for the
/// contents of a type that is opaque to the verifier, and [`shape`] says how the
/// document of a value is made up of those of its parts.
pub uninterp spec fn json_of_value(value: serde_json::Value) -> JsonView;

/// The text that `serde_json` writes for a string: the string between double quotes,
/// with the characters escaped that JSON does not take as they are. Not defined here:
/// it stands for the serializer's behaviour.
pub uninterp spec fn quoted(text: Seq<char>) -> Seq<char>;

/// Calls `serde_json::from_str` for a `serde_json::Value`, and drops the error where
/// the parser returns one.
///
/// Trusted, not proved: whether the parser takes the text, and the document it reads
/// from it, depend on the text alone. The parser returns an error for text that is not
/// one JSON value and for values nested deeper than it goes.
#[verifier::external_body]
fn value_from_text(text: &str) -> (r: Option<serde_json::Value>)
    ensures
        match r {
            Some(value) => json_of_text(text@) == Some(json_of_value(value)),
            None => json_of_text(text@) is None,
        },
{
    serde_json::from_str::<serde_json::Value>(text).ok()
}

/// One level of a `serde_json::Value`: which variant it is and what that variant holds.
enum Shape<'a> {
    Null,
    Bool(bool),
    Number(Option<u64>),
    Text(&'a String),
    Array(&'a Vec<serde_json::Value>),
    Object(Vec<(&'a String, &'a serde_json::Value)>),
}

impl<'a> Shape<'a> {
    /// The document that a value of this shape holds.
    spec fn holds(self) -> JsonView {
        match self {
            Shape::Null => JsonView::Null,
            Shape::Bool(b) => JsonView::Bool(b),
            Shape::Number(n) => JsonView::Number(n),
            Shape::Text(s) => JsonView::Text(s@),
            Shape::Array(items) => JsonView::Array(
                Seq::new(items@.len(), |i: int| json_of_value(items@[i])),
            ),
            Shape::Object(entries) => JsonView::Object(
                Seq::new(
                    entries@.len(),
                    |i: int| ((*entries@[i].0)@, json_of_value(*entries@[i].1)),
                ),
            ),
        }
    }
}

/// Tells the variants of a `serde_json::Value` apart and hands out what the variant
/// holds: of a number what `serde_json::Number::as_u64` returns for it, of an object
/// its entries in the order in which `serde_json::Map::iter` yields them.
///
/// Trusted, not proved: the document that a value holds is made up of the documents
/// that its elements or members hold, as [`Shape::holds`] says.
#[verifier::external_body]
fn shape<'a>(value: &'a serde_json::Value) -> (r: Shape<'a>)
    ensures
        r.holds() == json_of_value(*value),
{
    match value {
        serde_json::Value::Null => Shape::Null,
        serde_json::Value::Bool(b) => Shape::Bool(*b),
        serde_json::Value::Number(n) => Shape::Number(n.as_u64()),
        serde_json::Value::String(s) => Shape::Text(s),
        serde_json::Value::Array(a) => Shape::Array(a),
        serde_json::Value::Object(m) => Shape::Object(m.iter().collect()),
    }
}

/// Copies what a `serde_json::Value` holds into a [`Json`].
fn json_from_value(value: &serde_json::Value) -> (json: Json)
    ensures
        json.deep_view() == json_of_value(*value),
    decreases json_of_value(*value),
{
    match shape(value) {
        Shape::Null => Json::Null,
        Shape::Bool(b) => Json::Bool(b),
        Shape::Number(n) => Json::Number(n),
        Shape::Text(s) => Json::Text(s.clone()),
        Shape::Array(items) => {
            let ghost whole = json_of_value(*value);
            let mut copies: Vec<Json> = Vec::new();
            let mut i: usize = 0;
            while i < items.len()
                invariant
                    i <= items.len(),
                    copies.len() == i,
                    whole == json_of_value(*value),
                    whole == Shape::Array(items).holds(),
                    forall|k: int|
                        0 <= k < i ==> (#[trigger] copies[k]).deep_view() == json_of_value(
                            items[k],
                        ),
                decreases items.len() - i,
            {
                assert(whole->Array_0[i as int] == json_of_value(items[i as int]));
                copies.push(json_from_value(&items[i]));
                i += 1;
            }
            let json = Json::Array(copies);
            assert(json.deep_view()->Array_0 =~= whole->Array_0);
            json
        },
        Shape::Object(entries) => {
            let ghost whole = json_of_value(*value);
            let mut copies: Vec<(String, Json)> = Vec::new();
            let mut i: usize = 0;
            while i < entries.len()
                invariant
                    i <= entries.len(),
                    copies.len() == i,
                    whole == json_of_value(*value),
                    whole == Shape::Object(entries).holds(),
                    forall|k: int|
                        0 <= k < i ==> (#[trigger] copies[k]).0@ == (*entries[k].0)@
                            && copies[k].1.deep_view() == json_of_value(*entries[k].1),
                decreases entries.len() - i,
            {
                assert(whole->Object_0[i as int].1 == json_of_value(*entries[i as int].1));
                copies.push((entries[i].0.clone(), json_from_value(entries[i].1)));
                i += 1;
            }
            let json = Json::Object(copies);
            assert(json.deep_view()->Object_0 =~= whole->Object_0);
            json
        },
    }
}

/// Writes a string as JSON, with the `Display` of a `serde_json::Value` that holds it.
///
/// Trusted, not proved: the text that comes out depends on the string alone.
#[verifier::external_body]
fn quote(text: &str) -> (written: String)
    ensures
        written@ == quoted(text@),
{
    serde_json::Value::String(text.to_owned()).to_string()
}

impl Json {
    /// Parses `text` as one JSON document.
    pub fn parse(text: &str) -> (r: Option<Json>)
        ensures
            r.deep_view() == json_of_text(text@),
    {
        match value_from_text(text) {
            Some(value) => Some(json_from_value(&value)),
            None => None,
        }
    }
}

/// The JSON object with the one member `name`, a string.
pub open spec fn object_text(name: Seq<char>, value: Seq<char>) -> Seq<char> {
    "{"@ + quoted(name) + ":"@ + quoted(value) + "}"@
}

/// `values` written as JSON strings with commas between them.
pub open spec fn quoted_list(values: Seq<Seq<char>>) -> Seq<char>
    decreases values.len(),
{
    if values.len() == 0 {
        Seq::empty()
    } else if values.len() == 1 {
        quoted(values[0])
    } else {
        quoted_list(values.drop_last()) + ","@ + quoted(values.last())
    }
}

/// The JSON object with the one member `name`, an array of strings.
pub open spec fn list_object_text(name: Seq<char>, values: Seq<Seq<char>>) -> Seq<char> {
    "{"@ + quoted(name) + ":["@ + quoted_list(values) + "]}"@
}

/// Writes the JSON object with the one member `name` whose value is the string `value`.
pub fn render_object(name: &str, value: &str) -> (text: String)
    ensures
        text@ == object_text(name@, value@),
{
    let mut text = String::from_str("{");
    let name = quote(name);
    text.append(name.as_str());
    text.append(":");
    let value = quote(value);
    text.append(value.as_str());
    text.append("}");
    text
}

/// Writes the JSON object with the one member `name` whose value is the array of the
/// strings `values`, in their order.
pub fn render_list_object(name: &str, values: &Vec<String>) -> (text: String)
    ensures
        text@ == list_object_text(name@, values.deep_view()),
{
    let mut text = String::from_str("{");
    let name = quote(name);
    text.append(name.as_str());
    text.append(":[");
    let ghost head = text@;
    let mut i: usize = 0;
    while i < values.len()
        invariant
            i <= values.len(),
            text@ == head + quoted_list(values.deep_view().take(i as int)),
        decreases values.len() - i,
    {
        let ghost before = values.deep_view().take(i as int);
        let ghost after = values.deep_view().take(i + 1);
        assert(after.drop_last() =~= before);
        if i > 0 {
            text.append(",");
        }
        let value = quote(values[i].as_str());
        text.append(value.as_str());
        i += 1;
    }
    assert(values.deep_view().take(values.len() as int) =~= values.deep_view());
    text.append("]}");
    text
}

} // verus!
