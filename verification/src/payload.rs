//! The payload of one event of a streamed response: a JSON document with a
//! list of choices, of which the first is read.

use crate::err::{Error, ErrorView};
use crate::json::{
    elements, is_object, json_elements, json_is_object, json_member, json_parsed, json_text,
    json_unsigned, member, parse, text, unsigned,
};
use crate::types::{
    chunk_of_choice, payload_of_members, InboundChunkPayload, InboundChunkPayloadView,
    ResponseChunk, ResponseChunkView,
};
use vstd::prelude::*;

verus! {

/// The bytes `[DONE]`, the payload that ends a stream.
pub open spec fn sentinel() -> Seq<u8> {
    seq![91u8, 68u8, 79u8, 78u8, 69u8, 93u8]
}

/// What the error for an unreadable payload says.
pub open spec fn malformed_payload_message() -> Seq<char> {
    "Invalid inbound streaming response payload"@
}

/// The text of the member `key` of `value`, where it has one that is a
/// JSON string.
pub open spec fn member_text(value: serde_json::Value, key: Seq<char>) -> Option<Seq<char>> {
    match json_member(value, key) {
        Some(inner) => json_text(inner),
        None => None,
    }
}

/// The first element of the member `choices` of a document.
pub open spec fn first_choice(document: serde_json::Value) -> Option<serde_json::Value> {
    match json_member(document, "choices"@) {
        Some(list) => match json_elements(list) {
            Some(items) => if items.len() > 0 {
                Some(items[0])
            } else {
                None
            },
            None => None,
        },
        None => None,
    }
}

/// The member `index` of a choice: a whole number that fits a `usize`.
pub open spec fn choice_index(choice: serde_json::Value) -> Option<usize> {
    match json_member(choice, "index"@) {
        Some(number) => match json_unsigned(number) {
            Some(n) => if n <= usize::MAX {
                Some(n as usize)
            } else {
                None
            },
            None => None,
        },
        None => None,
    }
}

/// The member `delta` of a choice, which must be an object, told apart by
/// its members `role` and `content`.
pub open spec fn choice_delta(choice: serde_json::Value) -> Option<InboundChunkPayloadView> {
    match json_member(choice, "delta"@) {
        Some(delta) => if json_is_object(delta) {
            Some(payload_of_members(member_text(delta, "role"@), member_text(delta, "content"@)))
        } else {
            None
        },
        None => None,
    }
}

/// The event that a payload document stands for: that of its first choice,
/// where the document has one with an index and a delta.
pub open spec fn chunk_of_document(document: serde_json::Value) -> Option<ResponseChunkView> {
    match first_choice(document) {
        Some(choice) => match (choice_index(choice), choice_delta(choice)) {
            (Some(index), Some(delta)) => Some(chunk_of_choice(index, delta)),
            _ => None,
        },
        None => None,
    }
}

/// What a payload gives: the end of the stream for the sentinel, the event
/// of the document for any other payload that is one, and a parsing error
/// for the rest.
pub open spec fn payload_outcome(payload: Seq<u8>) -> Result<ResponseChunkView, ErrorView> {
    if payload == sentinel() {
        Ok(ResponseChunkView::Done)
    } else {
        match json_parsed(payload) {
            Some(document) => match chunk_of_document(document) {
                Some(chunk) => Ok(chunk),
                None => Err(ErrorView::ParsingError(malformed_payload_message())),
            },
            None => Err(ErrorView::ParsingError(malformed_payload_message())),
        }
    }
}

/// The view of an outcome of decoding.
pub open spec fn outcome_view(outcome: Result<ResponseChunk, Error>) -> Result<
    ResponseChunkView,
    ErrorView,
> {
    match outcome {
        Ok(chunk) => Ok(chunk@),
        Err(error) => Err(error@),
    }
}

pub(crate) fn read_member_text<'a>(value: &'a serde_json::Value, key: &str) -> (found: Option<&'a str>)
    ensures
        match found {
            Some(content) => member_text(*value, key@) == Some(content@),
            None => member_text(*value, key@) is None,
        },
{
    match member(value, key) {
        Some(inner) => text(inner),
        None => None,
    }
}

fn read_first_choice<'a>(document: &'a serde_json::Value) -> (found: Option<&'a serde_json::Value>)
    ensures
        match found {
            Some(choice) => first_choice(*document) == Some(*choice),
            None => first_choice(*document) is None,
        },
{
    match member(document, "choices") {
        Some(list) => match elements(list) {
            Some(items) => if items.len() > 0 {
                Some(&items[0])
            } else {
                None
            },
            None => None,
        },
        None => None,
    }
}

fn read_choice_index(choice: &serde_json::Value) -> (found: Option<usize>)
    ensures
        found == choice_index(*choice),
{
    match member(choice, "index") {
        Some(number) => match unsigned(number) {
            Some(n) => if n <= usize::MAX as u64 {
                Some(n as usize)
            } else {
                None
            },
            None => None,
        },
        None => None,
    }
}

fn read_choice_delta(choice: &serde_json::Value) -> (found: Option<InboundChunkPayload>)
    ensures
        match found {
            Some(delta) => choice_delta(*choice) == Some(delta@),
            None => choice_delta(*choice) is None,
        },
{
    match member(choice, "delta") {
        Some(delta) => if is_object(delta) {
            let role = read_member_text(delta, "role");
            let content = read_member_text(delta, "content");
            Some(InboundChunkPayload::from_members(role, content))
        } else {
            None
        },
        None => None,
    }
}

/// Reads the event of a parsed payload: the first choice of its member
/// `choices`, by its index and the shape of its delta. `None` where the
/// document holds no such choice.
pub fn read_chunk(document: &serde_json::Value) -> (chunk: Option<ResponseChunk>)
    ensures
        match chunk {
            Some(event) => chunk_of_document(*document) == Some(event@),
            None => chunk_of_document(*document) is None,
        },
{
    match read_first_choice(document) {
        Some(choice) => {
            let index = read_choice_index(choice);
            let delta = read_choice_delta(choice);
            match (index, delta) {
                (Some(index), Some(delta)) => Some(ResponseChunk::from_choice(index, delta)),
                _ => None,
            }
        },
        None => None,
    }
}

/// Whether `payload` is the sentinel that ends a stream.
pub fn is_sentinel(payload: &[u8]) -> (answer: bool)
    ensures
        answer == (payload@ == sentinel()),
{
    let answer = payload.len() == 6 && payload[0] == 91 && payload[1] == 68 && payload[2] == 79
        && payload[3] == 78 && payload[4] == 69 && payload[5] == 93;
    proof {
        if answer {
            assert(payload@ =~= sentinel());
        }
    }
    answer
}

/// The error for a payload that cannot be read.
pub fn malformed_payload() -> (error: Error)
    ensures
        error@ == ErrorView::ParsingError(malformed_payload_message()),
{
    Error::ParsingError("Invalid inbound streaming response payload".to_owned())
}

/// Decodes the payload of one event.
pub fn decode_payload(payload: &[u8]) -> (outcome: Result<ResponseChunk, Error>)
    ensures
        outcome_view(outcome) == payload_outcome(payload@),
{
    if is_sentinel(payload) {
        Ok(ResponseChunk::Done)
    } else {
        match parse(payload) {
            Some(document) => match read_chunk(&document) {
                Some(chunk) => Ok(chunk),
                None => Err(malformed_payload()),
            },
            None => Err(malformed_payload()),
        }
    }
}

} // verus!
