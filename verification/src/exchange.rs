//! What one exchange with the server gave, and what is made of it: a status,
//! a list of keys, or the error that says what went wrong.

use vstd::prelude::*;
use vstd::string::*;
use crate::error::{Error, ErrorType};
use crate::etsi014_client::{is_decode_failure, key_container_to_vector, text_view, Call};
use crate::json::key_and_id::KeyAndId;
use crate::json::key_container::{are_keys_of, is_container_failure, KeyContainer};
use crate::json::status_response::{is_status_of, missing_status_field, StatusResponse};
use crate::json::value::{field_failure, items_at, json_document, parse_document};
use crate::status::Status;
use crate::store::SecretBytes;
use crate::text::{decimal_digits, decimal_text};
use crate::transport::{
    request_rendered, request_text, status_as_number, status_number, status_rendered, status_text,
};

verus! {

/// How sending a request ended.
#[derive(Debug)]
pub enum Exchange {
    /// The request could not be sent; the cause as the transport printed it.
    NotSent { cause: String },
    /// An answer came, but its body is no text.
    Unreadable { cause: String },
    /// An answer came: its HTTP status and its body.
    Answered { status: reqwest::StatusCode, body: String },
}

/// The numbers of the HTTP statuses that report success.
pub open spec fn is_success(number: u16) -> bool {
    200 <= number < 300
}

/// The words about the body that was posted, where one was.
pub open spec fn body_info(post_body: Option<Seq<char>>) -> Seq<char> {
    match post_body {
        Some(b) => "\nUsing POST body: "@ + b,
        None => Seq::empty(),
    }
}

/// The message `summary` with everything that is known of the exchange.
pub open spec fn error_info(
    summary: Seq<char>,
    status: Seq<char>,
    response: Seq<char>,
    request: Seq<char>,
    post_body: Option<Seq<char>>,
) -> Seq<char> {
    summary + "\n\nHTTP Code: "@ + status + "\nResponse:\n"@ + response + "\nUsing request: "@
        + request + body_info(post_body)
}

/// The message for an answer that cannot be read as what was asked for.
pub open spec fn unreadable_message(
    status: Seq<char>,
    response: Seq<char>,
    request: Seq<char>,
    post_body: Option<Seq<char>>,
) -> Seq<char> {
    error_info("Unable to deserialize JSON from response."@, status, response, request, post_body)
}

/// The message for `received` keys where `expected` were asked for.
pub open spec fn count_message(received: nat, expected: nat) -> Seq<char> {
    "Got "@ + decimal_digits(received) + " instead of "@ + decimal_digits(expected) + " keys"@
}

/// The JSON document that an exchange brought: the body of an answer that
/// reports success, where that body is JSON.
pub open spec fn document_of(outcome: Exchange) -> Option<serde_json::Value> {
    match outcome {
        Exchange::Answered { status, body } => if is_success(status_number(status)) {
            json_document(body@)
        } else {
            None
        },
        _ => None,
    }
}

/// `e` says why an exchange brought no JSON document.
pub open spec fn is_exchange_failure(
    outcome: Exchange,
    request: Seq<char>,
    post_body: Option<Seq<char>>,
    e: Error,
) -> bool {
    match outcome {
        Exchange::NotSent { cause } => {
            &&& e.kind == ErrorType::ConnectionError
            &&& e.msg@ == "Error sending request: "@ + request
            &&& e.source == Some(cause)
        },
        Exchange::Unreadable { cause } => {
            &&& e.kind == ErrorType::InvalidResponse
            &&& e.msg@ == "Response not UTF-8"@
            &&& e.source == Some(cause)
        },
        Exchange::Answered { status, body } => {
            &&& e.kind == ErrorType::InvalidResponse
            &&& if is_success(status_number(status)) {
                &&& e.msg@ == unreadable_message(status_rendered(status), body@, request, post_body)
                &&& e.source is Some
            } else {
                &&& e.msg@ == error_info(
                    "Unsuccessful HTTP code"@,
                    status_rendered(status),
                    body@,
                    request,
                    post_body,
                )
                &&& e.source is None
            }
        },
    }
}

/// `e` refuses an answer that reports success and is JSON, but not what was
/// asked for; `cause` says what is wrong with it.
pub open spec fn is_unreadable_answer(
    outcome: Exchange,
    request: Seq<char>,
    post_body: Option<Seq<char>>,
    cause: Seq<char>,
    e: Error,
) -> bool {
    &&& outcome matches Exchange::Answered { status, body }
    &&& e.kind == ErrorType::InvalidResponse
    &&& e.msg@ == unreadable_message(status_rendered(status), body@, request, post_body)
    &&& e.source_view() == Some(cause)
}

/// Writes `error_info(summary, ..)`.
pub fn error_info_text(
    summary: &str,
    status: &str,
    response: &str,
    request: &str,
    post_body: Option<&str>,
) -> (r: String)
    ensures
        r@ == error_info(summary@, status@, response@, request@, text_view(post_body)),
{
    let mut r = String::from_str(summary);
    r.append("\n\nHTTP Code: ");
    r.append(status);
    r.append("\nResponse:\n");
    r.append(response);
    r.append("\nUsing request: ");
    r.append(request);
    match post_body {
        Some(b) => {
            r.append("\nUsing POST body: ");
            r.append(b);
        },
        None => {},
    }
    assert(r@ =~= error_info(summary@, status@, response@, request@, text_view(post_body)));
    r
}

/// The status, as it prints itself, and the body of an answer; two empty
/// texts where no answer came.
pub fn answer_of(outcome: &Exchange) -> (r: (String, &str))
    ensures
        match *outcome {
            Exchange::Answered { status, body } => r.0@ == status_rendered(status) && r.1@
                == body@,
            _ => r.0@ == Seq::<char>::empty() && r.1@ == Seq::<char>::empty(),
        },
{
    match outcome {
        Exchange::Answered { status, body } => (status_text(status), body.as_str()),
        _ => {
            proof {
                reveal_strlit("");
            }
            (String::new(), "")
        },
    }
}

/// The error for an answer that cannot be read as what was asked for.
pub fn unreadable_answer(
    status: &str,
    response: &str,
    request: &str,
    post_body: Option<&str>,
    cause: String,
) -> (e: Error)
    ensures
        e.kind == ErrorType::InvalidResponse,
        e.msg@ == unreadable_message(status@, response@, request@, text_view(post_body)),
        e.source == Some(cause),
{
    Error::new(
        error_info_text(
            "Unable to deserialize JSON from response.",
            status,
            response,
            request,
            post_body,
        ),
        ErrorType::InvalidResponse,
        Some(cause),
    )
}

/// The JSON document that an exchange brought.
///
/// A request that was not sent is a `ConnectionError`; a body that is no
/// text, a status code outside 200 to 299 and a body that is no JSON are each
/// an `InvalidResponse`. Nothing is tried a second time.
pub fn read_exchange(outcome: &Exchange, call: &Call) -> (r: Result<serde_json::Value, Error>)
    ensures
        match r {
            Ok(v) => document_of(*outcome) == Some(v),
            Err(e) => document_of(*outcome) is None && is_exchange_failure(
                *outcome,
                request_rendered(call.request),
                call.body(),
                e,
            ),
        },
{
    let request = &call.request;
    let post_body = call.body_text();
    match outcome {
        Exchange::NotSent { cause } => {
            let mut msg = String::from_str("Error sending request: ");
            msg.append(request_text(request).as_str());
            Err(Error::new(msg, ErrorType::ConnectionError, Some(cause.clone())))
        },
        Exchange::Unreadable { cause } => Err(
            Error::new(
                String::from_str("Response not UTF-8"),
                ErrorType::InvalidResponse,
                Some(cause.clone()),
            ),
        ),
        Exchange::Answered { status, body } => {
            let rendered = request_text(request);
            let number = status_as_number(status);
            let printed = status_text(status);
            if number < 200 || number >= 300 {
                return Err(
                    Error::new(
                        error_info_text(
                            "Unsuccessful HTTP code",
                            printed.as_str(),
                            body.as_str(),
                            rendered.as_str(),
                            post_body,
                        ),
                        ErrorType::InvalidResponse,
                        None,
                    ),
                );
            }
            match parse_document(body.as_str()) {
                Ok(v) => Ok(v),
                Err(cause) => Err(
                    unreadable_answer(
                        printed.as_str(),
                        body.as_str(),
                        rendered.as_str(),
                        post_body,
                        cause,
                    ),
                ),
            }
        },
    }
}

/// The status that a response stands for: field for field the same.
pub open spec fn status_of(sr: StatusResponse) -> Status {
    Status {
        source_kme_id: sr.source_kme_id,
        target_kme_id: sr.target_kme_id,
        source_sae_id: sr.source_sae_id,
        target_sae_id: sr.target_sae_id,
        key_size: sr.key_size,
        stored_key_count: sr.stored_key_count,
        max_key_count: sr.max_key_count,
        max_key_per_request: sr.max_key_per_request,
        max_key_size: sr.max_key_size,
        min_key_size: sr.min_key_size,
        max_sae_id_count: sr.max_sae_id_count,
    }
}

/// Turns a response into the status it stands for.
pub fn status_from_response(sr: StatusResponse) -> (s: Status)
    ensures
        s == status_of(sr),
{
    Status {
        source_kme_id: sr.source_kme_id,
        target_kme_id: sr.target_kme_id,
        source_sae_id: sr.source_sae_id,
        target_sae_id: sr.target_sae_id,
        key_size: sr.key_size,
        stored_key_count: sr.stored_key_count,
        max_key_count: sr.max_key_count,
        max_key_per_request: sr.max_key_per_request,
        max_key_size: sr.max_key_size,
        min_key_size: sr.min_key_size,
        max_sae_id_count: sr.max_sae_id_count,
    }
}

/// `r` is what an exchange for a status gives.
pub open spec fn is_status_outcome(
    outcome: Exchange,
    request: Seq<char>,
    post_body: Option<Seq<char>>,
    r: Result<Status, Error>,
) -> bool {
    match document_of(outcome) {
        None => r matches Err(e) && is_exchange_failure(outcome, request, post_body, e),
        Some(v) => match missing_status_field(v) {
            Some(name) => r matches Err(e) && is_unreadable_answer(
                outcome,
                request,
                post_body,
                field_failure(name),
                e,
            ),
            None => r matches Ok(s) && exists|sr: StatusResponse|
                is_status_of(v, sr) && s == status_of(sr),
        },
    }
}

/// The status that an exchange brought.
pub fn read_status(outcome: &Exchange, call: &Call) -> (r: Result<Status, Error>)
    ensures
        is_status_outcome(*outcome, request_rendered(call.request), call.body(), r),
{
    let v = read_exchange(outcome, call)?;
    match StatusResponse::from_json(&v) {
        Ok(sr) => {
            let s = status_from_response(sr);
            assert(is_status_of(v, sr) && s == status_of(sr));
            Ok(s)
        },
        Err(cause) => {
            let (status, body) = answer_of(outcome);
            Err(
                unreadable_answer(
                    status.as_str(),
                    body,
                    request_text(&call.request).as_str(),
                    call.body_text(),
                    cause,
                ),
            )
        },
    }
}

/// `e` refuses a list of `received` keys where `expected` were asked for.
pub open spec fn is_count_failure(received: nat, expected: nat, e: Error) -> bool {
    &&& received != expected
    &&& e.kind == ErrorType::InvalidResponse
    &&& e.msg@ == count_message(received, expected)
    &&& e.source is None
}

/// Accepts `received` keys where `expected` were asked for only if the two
/// numbers are the same.
pub fn check_count(received: usize, expected: usize) -> (r: Result<(), Error>)
    ensures
        match r {
            Ok(_) => received == expected,
            Err(e) => is_count_failure(received as nat, expected as nat, e),
        },
{
    if received != expected {
        let mut msg = String::from_str("Got ");
        msg.append(decimal_text(received as u128).as_str());
        msg.append(" instead of ");
        msg.append(decimal_text(expected as u128).as_str());
        msg.append(" keys");
        return Err(Error::new(msg, ErrorType::InvalidResponse, None));
    }
    Ok(())
}

/// Passes on a key container of exactly `expected` keys and refuses any
/// other.
pub fn check_key_count(kc: KeyContainer, expected: usize) -> (r: Result<KeyContainer, Error>)
    ensures
        match r {
            Ok(same) => kc.keys@.len() == expected && same == kc,
            Err(e) => is_count_failure(kc.keys@.len(), expected as nat, e),
        },
{
    check_count(kc.keys.len(), expected)?;
    Ok(kc)
}

/// `keys` are the keys that the entries `items` of a key container stand
/// for: the identifiers as they are, the bytes decoded from their texts.
pub open spec fn are_decoded_items(
    items: Seq<serde_json::Value>,
    keys: Seq<(String, SecretBytes)>,
) -> bool {
    exists|entries: Seq<KeyAndId>|
        are_keys_of(items, entries) && crate::etsi014_client::is_decoded_container(entries, keys)
}

/// `r` is what an exchange for `expected` keys gives.
pub open spec fn is_keys_outcome(
    outcome: Exchange,
    request: Seq<char>,
    post_body: Option<Seq<char>>,
    expected: nat,
    r: Result<Vec<(String, SecretBytes)>, Error>,
) -> bool {
    match document_of(outcome) {
        None => r matches Err(e) && is_exchange_failure(outcome, request, post_body, e),
        Some(v) => match r {
            Ok(keys) => {
                &&& items_at(v, "keys"@) matches Some(items)
                &&& items.len() == expected
                &&& are_decoded_items(items, keys@)
            },
            Err(e) => {
                ||| exists|cause: Seq<char>|
                    is_container_failure(v, cause) && is_unreadable_answer(
                        outcome,
                        request,
                        post_body,
                        cause,
                        e,
                    )
                ||| items_at(v, "keys"@) matches Some(items) && is_count_failure(
                    items.len(),
                    expected,
                    e,
                )
                ||| items_at(v, "keys"@) matches Some(items) && items.len() == expected
                    && exists|entries: Seq<KeyAndId>, i: int|
                    are_keys_of(items, entries) && is_decode_failure(entries, i, e)
            },
        },
    }
}

/// An answer that holds another number of keys than was asked for is refused
/// as an invalid response, whatever else it holds, and hands out no key.
pub proof fn lemma_wrong_count_is_refused(
    outcome: Exchange,
    request: Seq<char>,
    post_body: Option<Seq<char>>,
    expected: nat,
    r: Result<Vec<(String, SecretBytes)>, Error>,
)
    requires
        is_keys_outcome(outcome, request, post_body, expected, r),
        document_of(outcome) matches Some(v) && items_at(v, "keys"@) matches Some(items)
            && items.len() != expected,
    ensures
        r matches Err(e) && e.kind == ErrorType::InvalidResponse,
{
}

/// The keys that an exchange brought, where `expected` were asked for.
///
/// The answer is refused as a whole where it is no key container, where it
/// holds another number of keys than was asked for, and where one of its
/// keys is not valid Base64; no key is handed out then.
pub fn read_keys(outcome: &Exchange, call: &Call, expected: usize) -> (r: Result<
    Vec<(String, SecretBytes)>,
    Error,
>)
    ensures
        is_keys_outcome(*outcome, request_rendered(call.request), call.body(), expected as nat, r),
{
    let v = read_exchange(outcome, call)?;
    let kc = match KeyContainer::from_json(&v) {
        Ok(kc) => kc,
        Err(cause) => {
            let (status, body) = answer_of(outcome);
            let e = unreadable_answer(
                status.as_str(),
                body,
                request_text(&call.request).as_str(),
                call.body_text(),
                cause,
            );
            assert(is_container_failure(v, cause@) && is_unreadable_answer(
                *outcome,
                request_rendered(call.request),
                call.body(),
                cause@,
                e,
            ));
            return Err(e);
        },
    };
    let ghost entries = kc.keys@;
    let kc = check_key_count(kc, expected)?;
    match key_container_to_vector(kc) {
        Ok(keys) => {
            assert(are_keys_of(items_at(v, "keys"@).unwrap(), entries)
                && crate::etsi014_client::is_decoded_container(entries, keys@));
            Ok(keys)
        },
        Err(e) => {
            let ghost i = choose|i: int| is_decode_failure(entries, i, e);
            assert(are_keys_of(items_at(v, "keys"@).unwrap(), entries) && is_decode_failure(
                entries,
                i,
                e,
            ));
            Err(e)
        },
    }
}

} // verus!
