use chatgpt::err::Error;
use chatgpt::payload::{decode_payload, is_sentinel, malformed_payload, read_chunk};
use chatgpt::types::{InboundChunkPayload, ResponseChunk, Role};
use serde_json::{Number, Value};

fn object(members: Vec<(&str, Value)>) -> Value {
    let mut map = serde_json::Map::new();
    for (key, value) in members {
        map.insert(key.to_string(), value);
    }
    Value::Object(map)
}

fn document(index: Value, delta: Value) -> Value {
    object(vec![(
        "choices",
        Value::Array(vec![object(vec![("index", index), ("delta", delta)])]),
    )])
}

fn number(n: u64) -> Value {
    Value::Number(Number::from(n))
}

#[test]
fn chunk_is_read_from_the_first_choice() {
    let role = document(number(2), object(vec![("role", Value::String("user".to_string()))]));
    assert_eq!(
        read_chunk(&role),
        Some(ResponseChunk::BeginResponse { role: Role::User, response_index: 2 })
    );
    let content = document(number(0), object(vec![("content", Value::String("Hi".to_string()))]));
    assert_eq!(
        read_chunk(&content),
        Some(ResponseChunk::Content { delta: "Hi".to_string(), response_index: 0 })
    );
    let close = document(number(5), object(Vec::new()));
    assert_eq!(read_chunk(&close), Some(ResponseChunk::CloseResponse { response_index: 5 }));
}

#[test]
fn chunk_is_refused_where_the_choice_is_not_one() {
    assert_eq!(read_chunk(&Value::Null), None);
    assert_eq!(read_chunk(&object(vec![("choices", Value::Array(Vec::new()))])), None);
    assert_eq!(read_chunk(&object(vec![("choices", number(1))])), None);
    assert_eq!(read_chunk(&document(Value::String("0".to_string()), object(Vec::new()))), None);
    assert_eq!(read_chunk(&document(Value::Number(Number::from(-1)), object(Vec::new()))), None);
    assert_eq!(read_chunk(&document(number(0), Value::Array(Vec::new()))), None);
    assert_eq!(read_chunk(&document(number(0), Value::Null)), None);
}

#[test]
fn delta_is_told_apart_by_its_members() {
    assert_eq!(
        InboundChunkPayload::from_members(Some("assistant"), Some("text")),
        InboundChunkPayload::AnnounceRoles { role: Role::Assistant }
    );
    assert_eq!(
        InboundChunkPayload::from_members(Some("nobody"), Some("text")),
        InboundChunkPayload::StreamContent { content: "text".to_string() }
    );
    assert_eq!(
        InboundChunkPayload::from_members(None, Some("")),
        InboundChunkPayload::StreamContent { content: String::new() }
    );
    assert_eq!(InboundChunkPayload::from_members(Some("nobody"), None), InboundChunkPayload::Close);
    assert_eq!(InboundChunkPayload::from_members(None, None), InboundChunkPayload::Close);
}

#[test]
fn choice_becomes_an_event() {
    assert_eq!(
        ResponseChunk::from_choice(1, InboundChunkPayload::AnnounceRoles { role: Role::System }),
        ResponseChunk::BeginResponse { role: Role::System, response_index: 1 }
    );
    assert_eq!(
        ResponseChunk::from_choice(
            2,
            InboundChunkPayload::StreamContent { content: "x".to_string() }
        ),
        ResponseChunk::Content { delta: "x".to_string(), response_index: 2 }
    );
    assert_eq!(
        ResponseChunk::from_choice(3, InboundChunkPayload::Close),
        ResponseChunk::CloseResponse { response_index: 3 }
    );
}

#[test]
fn sentinel_is_told_from_other_payloads() {
    assert!(is_sentinel(b"[DONE]"));
    assert!(!is_sentinel(b"[DONE] "));
    assert!(!is_sentinel(b"[done]"));
    assert!(!is_sentinel(b"[DONE"));
    assert!(!is_sentinel(b""));
}

#[test]
fn payload_is_decoded() {
    assert_eq!(decode_payload(b"[DONE]"), Ok(ResponseChunk::Done));
    assert_eq!(
        decode_payload(b"{\"choices\":[{\"index\":1,\"delta\":{\"content\":\"\\u00e9\"}}]}"),
        Ok(ResponseChunk::Content { delta: "é".to_string(), response_index: 1 })
    );
    assert_eq!(
        decode_payload(b" {\"choices\":[{\"delta\":{},\"index\":4}]} \n"),
        Ok(ResponseChunk::CloseResponse { response_index: 4 })
    );
    assert_eq!(decode_payload(b"[DONE] "), Err(malformed_payload()));
    assert_eq!(decode_payload(b"{"), Err(malformed_payload()));
    assert_eq!(
        malformed_payload(),
        Error::ParsingError("Invalid inbound streaming response payload".to_string())
    );
}
