//! What to make of a reply.
//!
//! One policy for every operation. A status that is not a success is a failure, worded
//! by the error envelope in the body where there is one and by the bare status code
//! where there is not. Under a success status, an operation that expects a record reads
//! the body as that record, and fails where the body is something else. An operation
//! that expects no record succeeds, unless the body holds the error envelope: a reply
//! that words an error is never taken for a success.

use crate::decode::Decode;
use crate::failure::{Failure, FailureView};
use crate::http::{is_success, status_is_success, Reply};
use crate::json::{json_of_text, lookup, Json, JsonView};
use crate::objects::{
    CurrentlyPlayingTrackResponse, ErrorResponse, ListDevicesResponse, Paging,
    SearchAlbumsResponse, SearchArtistsResponse, TokenResponse,
};
use crate::text::decimal;
use vstd::prelude::*;

verus! {

/// The model of a result: the record's model, or the failure's.
pub open spec fn outcome_view<T: DeepView>(result: Result<T, Failure>) -> Result<
    T::V,
    FailureView,
> {
    match result {
        Ok(record) => Ok(record.deep_view()),
        Err(failure) => Err(failure.deep_view()),
    }
}

/// The failure that a reply stands for where it is not taken for a success: the status
/// and message of the error envelope in its body, or the status code where the body
/// holds none. `document` is the parsed body, `None` where the body is not JSON.
pub open spec fn refusal(status: u16, document: Option<JsonView>) -> FailureView {
    match document {
        Some(json) => match ErrorResponse::model(json) {
            Some(envelope) => FailureView::Api {
                status: envelope.error.status,
                message: envelope.error.message,
            },
            None => FailureView::Status { code: status },
        },
        None => FailureView::Status { code: status },
    }
}

/// The outcome of an operation that expects the record `T`.
pub open spec fn record_outcome<T: Decode>(status: u16, document: Option<JsonView>) -> Result<
    <T as DeepView>::V,
    FailureView,
> {
    if status_is_success(status) {
        match document {
            Some(json) => match T::model(json) {
                Some(record) => Ok(record),
                None => Err(FailureView::Deserialization),
            },
            None => Err(FailureView::Deserialization),
        }
    } else {
        Err(refusal(status, document))
    }
}

/// Whether a parsed body holds the error envelope.
pub open spec fn holds_envelope(document: Option<JsonView>) -> bool {
    document matches Some(json) && ErrorResponse::model(json) is Some
}

/// The outcome of an operation that expects no record: success under a success status,
/// unless the body holds the error envelope. Then, and under any other status, the
/// failure is the one that [`refusal`] words.
pub open spec fn plain_outcome(status: u16, document: Option<JsonView>) -> Result<
    (),
    FailureView,
> {
    if status_is_success(status) && !holds_envelope(document) {
        Ok(())
    } else {
        Err(refusal(status, document))
    }
}

/// Words the failure for a reply that is not taken for a success.
pub fn refuse(status: u16, document: &Option<Json>) -> (failure: Failure)
    ensures
        failure.deep_view() == refusal(status, document.deep_view()),
{
    match document {
        Some(json) => match ErrorResponse::decode(json) {
            Some(envelope) => Failure::Api {
                status: envelope.error.status,
                message: envelope.error.message,
            },
            None => Failure::Status { code: status },
        },
        None => Failure::Status { code: status },
    }
}

/// Settles an operation that expects the record `T`, given the status and the parsed body.
pub fn settle<T: Decode>(status: u16, document: &Option<Json>) -> (result: Result<T, Failure>)
    ensures
        outcome_view(result) == record_outcome::<T>(status, document.deep_view()),
{
    if is_success(status) {
        match document {
            Some(json) => match T::decode(json) {
                Some(record) => Ok(record),
                None => Err(Failure::Deserialization),
            },
            None => Err(Failure::Deserialization),
        }
    } else {
        Err(refuse(status, document))
    }
}

/// Settles an operation that expects no record, given the status and the parsed body.
pub fn settle_plain(status: u16, document: &Option<Json>) -> (result: Result<(), Failure>)
    ensures
        outcome_view(result) == plain_outcome(status, document.deep_view()),
{
    let failure = refuse(status, document);
    if is_success(status) {
        match failure {
            Failure::Api { status, message } => Err(Failure::Api { status, message }),
            _ => Ok(()),
        }
    } else {
        Err(failure)
    }
}

/// Reads a reply as the record `T`.
pub fn read_reply<T: Decode>(reply: &Reply) -> (result: Result<T, Failure>)
    ensures
        outcome_view(result) == record_outcome::<T>(reply.status, json_of_text(reply.body@)),
{
    let document = Json::parse(reply.body.as_str());
    settle::<T>(reply.status, &document)
}

/// Reads a reply to an operation that expects no record. The body is parsed whatever
/// the status: an error envelope under a success status is a failure too.
pub fn acknowledge(reply: &Reply) -> (result: Result<(), Failure>)
    ensures
        outcome_view(result) == plain_outcome(reply.status, json_of_text(reply.body@)),
{
    let document = Json::parse(reply.body.as_str());
    settle_plain(reply.status, &document)
}

/// A document that is the error envelope and nothing else: an object whose one member
/// is `error`, holding a status and a message.
pub open spec fn is_bare_envelope(json: JsonView) -> bool {
    &&& json matches JsonView::Object(entries)
    &&& entries.len() == 1
    &&& entries[0].0 == "error"@
    &&& ErrorResponse::model(json) is Some
}

proof fn lemma_bare_envelope_members(json: JsonView, key: Seq<char>)
    requires
        is_bare_envelope(json),
        key != "error"@,
    ensures
        json.member(key) is None,
{
    let entries = json->Object_0;
    assert(lookup(entries.drop_first(), key) is None);
}

/// Whatever the status, a reply whose body is the error envelope and nothing else is
/// not taken for a list of devices, for what is playing, for the result of a search or
/// for fresh tokens: each of these records has a member that the envelope lacks.
pub proof fn envelope_is_no_record(status: u16, json: JsonView)
    requires
        is_bare_envelope(json),
    ensures
        record_outcome::<ListDevicesResponse>(status, Some(json)) is Err,
        record_outcome::<CurrentlyPlayingTrackResponse>(status, Some(json)) is Err,
        record_outcome::<SearchAlbumsResponse>(status, Some(json)) is Err,
        record_outcome::<SearchArtistsResponse>(status, Some(json)) is Err,
        record_outcome::<TokenResponse>(status, Some(json)) is Err,
{
    reveal_strlit("error");
    reveal_strlit("devices");
    reveal_strlit("timestamp");
    reveal_strlit("albums");
    reveal_strlit("artists");
    reveal_strlit("access_token");
    assert("devices"@.len() == 7);
    assert("timestamp"@.len() == 9);
    assert("albums"@.len() == 6);
    assert("artists"@.len() == 7);
    assert("access_token"@.len() == 12);
    lemma_bare_envelope_members(json, "devices"@);
    lemma_bare_envelope_members(json, "timestamp"@);
    lemma_bare_envelope_members(json, "albums"@);
    lemma_bare_envelope_members(json, "artists"@);
    lemma_bare_envelope_members(json, "access_token"@);
}

/// Whatever the status, a reply whose body is the error envelope and nothing else is
/// not taken for a page of any kind of item.
pub proof fn envelope_is_no_page<T: Decode>(status: u16, json: JsonView)
    requires
        is_bare_envelope(json),
    ensures
        record_outcome::<Paging<T>>(status, Some(json)) is Err,
{
    reveal_strlit("error");
    reveal_strlit("href");
    assert("href"@.len() == 4);
    lemma_bare_envelope_members(json, "href"@);
}

/// A reply without a success status whose body holds an error envelope fails with the
/// status and the message of the envelope, unchanged, whatever the operation expected.
pub proof fn refusal_carries_the_envelope<T: Decode>(status: u16, json: JsonView)
    requires
        !status_is_success(status),
        ErrorResponse::model(json) is Some,
    ensures
        ({
            let error = ErrorResponse::model(json)->0.error;
            let failure = FailureView::Api { status: error.status, message: error.message };
            &&& record_outcome::<T>(status, Some(json)) == Err::<<T as DeepView>::V, _>(failure)
            &&& plain_outcome(status, Some(json)) == Err::<(), _>(failure)
            &&& failure.message() == "Request failed: "@ + error.message
        }),
{
}

/// A reply without a success status whose body is not JSON, or is JSON without an error
/// envelope, fails with the status code, whatever the operation expected.
pub proof fn refusal_falls_back_to_the_status<T: Decode>(
    status: u16,
    document: Option<JsonView>,
)
    requires
        !status_is_success(status),
        document matches Some(json) ==> ErrorResponse::model(json) is None,
    ensures
        ({
            let failure = FailureView::Status { code: status };
            &&& record_outcome::<T>(status, document) == Err::<<T as DeepView>::V, _>(failure)
            &&& plain_outcome(status, document) == Err::<(), _>(failure)
            &&& failure.message() == "Request failed: "@ + decimal(status as nat)
        }),
{
}

/// Whatever the status, a reply whose body holds an error envelope is no success for an
/// operation that expects no record: it fails with the status and the message of the
/// envelope, unchanged.
pub proof fn envelope_is_no_acknowledgement(status: u16, json: JsonView)
    requires
        ErrorResponse::model(json) is Some,
    ensures
        ({
            let error = ErrorResponse::model(json)->0.error;
            plain_outcome(status, Some(json)) == Err::<(), _>(
                FailureView::Api { status: error.status, message: error.message },
            )
        }),
{
}

/// An operation that expects no record succeeds exactly where the status is a success
/// and the body holds no error envelope, be it no JSON at all.
pub proof fn acknowledgement_needs_success_without_envelope(
    status: u16,
    document: Option<JsonView>,
)
    ensures
        plain_outcome(status, document) is Ok <==> status_is_success(status) && !holds_envelope(
            document,
        ),
{
}

} // verus!
