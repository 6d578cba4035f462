//! Reading typed records out of a [`Json`] document.

use crate::json::{Json, JsonView};
use vstd::prelude::*;

verus! {

/// A record that can be read from a JSON value.
pub trait Decode: Sized + DeepView {
    /// What `json` holds as this record: `None` where it does not have the record's shape.
    spec fn model(json: JsonView) -> Option<<Self as DeepView>::V>;

    /// Reads the record from `json`.
    fn decode(json: &Json) -> (r: Option<Self>)
        ensures
            r.deep_view() == Self::model(json.deep_view()),
    ;
}

/// What the elements of `items` hold as records of one kind, where every one of them has
/// the record's shape.
pub open spec fn models<T: Decode>(items: Seq<JsonView>) -> Option<Seq<<T as DeepView>::V>> {
    if forall|i: int| 0 <= i < items.len() ==> (#[trigger] T::model(items[i])) is Some {
        Some(Seq::new(items.len(), |i: int| T::model(items[i])->0))
    } else {
        None
    }
}

/// The member `key` as a record. The member has to be there.
pub open spec fn record_at<T: Decode>(json: JsonView, key: Seq<char>) -> Option<
    <T as DeepView>::V,
> {
    match json.member(key) {
        Some(value) => T::model(value),
        None => None,
    }
}

/// The member `key` as a record that may be left out: `Some(None)` where the member is
/// absent or `null`, `None` where it is there without the record's shape.
pub open spec fn optional_record_at<T: Decode>(json: JsonView, key: Seq<char>) -> Option<
    Option<<T as DeepView>::V>,
> {
    match json.member(key) {
        None => Some(None),
        Some(JsonView::Null) => Some(None),
        Some(value) => match T::model(value) {
            Some(record) => Some(Some(record)),
            None => None,
        },
    }
}

/// The member `key` as a list of records: an array whose elements all have the record's shape.
pub open spec fn records_at<T: Decode>(json: JsonView, key: Seq<char>) -> Option<
    Seq<<T as DeepView>::V>,
> {
    match json.member(key) {
        Some(JsonView::Array(items)) => models::<T>(items),
        _ => None,
    }
}

/// Reads every element of `items` as a record, in order.
pub fn decode_all<T: Decode>(items: &Vec<Json>) -> (r: Option<Vec<T>>)
    ensures
        r.deep_view() == models::<T>(items.deep_view()),
{
    let mut records: Vec<T> = Vec::new();
    let mut i: usize = 0;
    while i < items.len()
        invariant
            i <= items.len(),
            records.len() == i,
            forall|k: int|
                0 <= k < i ==> (#[trigger] T::model(items@[k].deep_view())) == Some(
                    records@[k].deep_view(),
                ),
        decreases items.len() - i,
    {
        match T::decode(&items[i]) {
            Some(record) => {
                records.push(record);
            },
            None => {
                assert(items.deep_view()[i as int] == items@[i as int].deep_view());
                return None;
            },
        }
        i += 1;
    }
    Some(records)
}

/// Reads the member `key` as a record.
pub fn decode_field<T: Decode>(json: &Json, key: &str) -> (r: Option<T>)
    ensures
        r.deep_view() == record_at::<T>(json.deep_view(), key@),
{
    match json.get(key) {
        Some(value) => T::decode(value),
        None => None,
    }
}

/// Reads the member `key` as a record that may be left out or `null`.
pub fn decode_optional_field<T: Decode>(json: &Json, key: &str) -> (r: Option<Option<T>>)
    ensures
        r.deep_view() == optional_record_at::<T>(json.deep_view(), key@),
{
    match json.get(key) {
        None => Some(None),
        Some(Json::Null) => Some(None),
        Some(value) => match T::decode(value) {
            Some(record) => Some(Some(record)),
            None => None,
        },
    }
}

/// Reads the member `key` as a list of records.
pub fn decode_list_field<T: Decode>(json: &Json, key: &str) -> (r: Option<Vec<T>>)
    ensures
        r.deep_view() == records_at::<T>(json.deep_view(), key@),
{
    match json.get(key) {
        Some(Json::Array(items)) => {
            assert(items.deep_view() =~= Json::Array(*items).deep_view()->Array_0);
            decode_all::<T>(items)
        },
        _ => None,
    }
}

} // verus!
