use chatgpt::decoder::StreamDecoder;
use chatgpt::err::Error;
use chatgpt::types::{ResponseChunk, Role};

const STREAM: &str = "data: {\"choices\":[{\"index\":0,\"delta\":{\"role\":\"assistant\"}}]}\n\ndata: {\"choices\":[{\"index\":0,\"delta\":{\"content\":\"Hi\"}}]}\n\ndata: [DONE]\n\n";

fn expected_stream() -> Vec<Result<ResponseChunk, Error>> {
    vec![
        Ok(ResponseChunk::BeginResponse { role: Role::Assistant, response_index: 0 }),
        Ok(ResponseChunk::Content { delta: "Hi".to_string(), response_index: 0 }),
        Ok(ResponseChunk::Done),
    ]
}

fn malformed() -> Result<ResponseChunk, Error> {
    Err(Error::ParsingError("Invalid inbound streaming response payload".to_string()))
}

#[test]
fn whole_stream_in_one_fragment() {
    let mut decoder = StreamDecoder::new();
    let events = decoder.decode(STREAM.as_bytes());
    assert_eq!(events, expected_stream());
    assert!(decoder.unparsed().is_empty());
}

#[test]
fn stream_cut_inside_second_payload() {
    let second = STREAM.find("data: {\"choices\":[{\"index\":0,\"delta\":{\"content\"").unwrap();
    let end_of_second = second + STREAM[second..].find("\n\n").unwrap();
    for cut in (second + 6)..end_of_second {
        let mut decoder = StreamDecoder::new();
        let mut events = decoder.decode(&STREAM.as_bytes()[..cut]);
        assert_eq!(
            events,
            vec![Ok(ResponseChunk::BeginResponse { role: Role::Assistant, response_index: 0 })]
        );
        assert_eq!(decoder.unparsed(), &STREAM.as_bytes()[second..cut]);
        events.extend(decoder.decode(&STREAM.as_bytes()[cut..]));
        assert_eq!(events, expected_stream());
        assert!(decoder.unparsed().is_empty());
    }
}

#[test]
fn stream_cut_at_every_offset() {
    for cut in 0..=STREAM.len() {
        let mut decoder = StreamDecoder::new();
        let mut events = decoder.decode(&STREAM.as_bytes()[..cut]);
        events.extend(decoder.decode(&STREAM.as_bytes()[cut..]));
        assert_eq!(events, expected_stream(), "cut at {}", cut);
        assert!(decoder.unparsed().is_empty());
    }
}

#[test]
fn stream_cut_into_single_bytes() {
    let fragments: Vec<Vec<u8>> = STREAM.bytes().map(|byte| vec![byte]).collect();
    let mut decoder = StreamDecoder::new();
    let events = decoder.decode_all(&fragments);
    assert_eq!(events, expected_stream());
    assert!(decoder.unparsed().is_empty());
}

#[test]
fn stream_cut_in_three() {
    for first in 0..=STREAM.len() {
        for second in first..=STREAM.len() {
            let fragments = vec![
                STREAM.as_bytes()[..first].to_vec(),
                STREAM.as_bytes()[first..second].to_vec(),
                STREAM.as_bytes()[second..].to_vec(),
            ];
            let mut decoder = StreamDecoder::new();
            assert_eq!(decoder.decode_all(&fragments), expected_stream());
        }
    }
}

#[test]
fn sentinel_gives_one_done() {
    let mut decoder = StreamDecoder::new();
    assert_eq!(decoder.decode(b"data: [DONE]\n\n"), vec![Ok(ResponseChunk::Done)]);
    assert!(decoder.unparsed().is_empty());
}

#[test]
fn events_behind_the_sentinel_are_still_read() {
    let mut decoder = StreamDecoder::new();
    let events = decoder
        .decode(b"data: [DONE]\n\ndata: {\"choices\":[{\"index\":1,\"delta\":{}}]}\n\n");
    assert_eq!(
        events,
        vec![Ok(ResponseChunk::Done), Ok(ResponseChunk::CloseResponse { response_index: 1 })]
    );
}

#[test]
fn terminator_cut_in_the_middle() {
    let mut decoder = StreamDecoder::new();
    assert_eq!(decoder.decode(b"data: [DONE]\n"), vec![]);
    assert_eq!(decoder.unparsed(), b"data: [DONE]\n");
    assert_eq!(decoder.decode(b"\n"), vec![Ok(ResponseChunk::Done)]);
    assert!(decoder.unparsed().is_empty());
    assert_eq!(decoder.decode(b""), vec![]);
}

#[test]
fn line_prefix_cut_in_the_middle() {
    let mut decoder = StreamDecoder::new();
    assert_eq!(decoder.decode(b"dat"), vec![]);
    assert_eq!(decoder.unparsed(), b"dat");
    assert_eq!(decoder.decode(b"a: [DONE]\n\nda"), vec![Ok(ResponseChunk::Done)]);
    assert_eq!(decoder.unparsed(), b"da");
}

#[test]
fn empty_fragment_changes_nothing() {
    let mut decoder = StreamDecoder::new();
    assert_eq!(decoder.decode(b""), vec![]);
    assert!(decoder.unparsed().is_empty());
    assert_eq!(decoder.decode(b"data: {\"cho"), vec![]);
    assert_eq!(decoder.decode(b""), vec![]);
    assert_eq!(decoder.unparsed(), b"data: {\"cho");
}

#[test]
fn event_over_many_fragments() {
    let mut decoder = StreamDecoder::new();
    assert_eq!(decoder.decode(b"data: {\"choices\":[{\"ind"), vec![]);
    assert_eq!(decoder.decode(b"ex\":2,\"delta\":{\"con"), vec![]);
    assert_eq!(decoder.decode(b"tent\":\"a\\nb\"}}]}"), vec![]);
    assert_eq!(
        decoder.decode(b"\n\n"),
        vec![Ok(ResponseChunk::Content { delta: "a\nb".to_string(), response_index: 2 })]
    );
}

#[test]
fn pieces_without_prefix_are_ignored() {
    let mut decoder = StreamDecoder::new();
    let events = decoder.decode(b": keep-alive\n\nevent: ping\n\n\n\ndata: [DONE]\n\n");
    assert_eq!(events, vec![Ok(ResponseChunk::Done)]);
    assert!(decoder.unparsed().is_empty());
}

#[test]
fn piece_behind_a_third_line_feed_is_ignored() {
    let mut decoder = StreamDecoder::new();
    let events = decoder.decode(b"data: [DONE]\n\n\ndata: [DONE]\n\n");
    assert_eq!(events, vec![Ok(ResponseChunk::Done)]);
}

#[test]
fn malformed_payload_is_an_error_in_the_sequence() {
    let mut decoder = StreamDecoder::new();
    let events = decoder.decode(b"data: {not json}\n\ndata: [DONE]\n\n");
    assert_eq!(events, vec![malformed(), Ok(ResponseChunk::Done)]);
    assert!(decoder.unparsed().is_empty());
}

#[test]
fn empty_payload_is_malformed() {
    let mut decoder = StreamDecoder::new();
    assert_eq!(decoder.decode(b"data: \n\n"), vec![malformed()]);
}

#[test]
fn payload_without_choice_is_malformed() {
    let mut decoder = StreamDecoder::new();
    assert_eq!(decoder.decode(b"data: {\"choices\":[]}\n\n"), vec![malformed()]);
    assert_eq!(decoder.decode(b"data: {\"other\":1}\n\n"), vec![malformed()]);
    assert_eq!(decoder.decode(b"data: [1,2]\n\n"), vec![malformed()]);
    assert_eq!(
        decoder.decode(b"data: {\"choices\":[{\"delta\":{}}]}\n\n"),
        vec![malformed()]
    );
    assert_eq!(
        decoder.decode(b"data: {\"choices\":[{\"index\":0}]}\n\n"),
        vec![malformed()]
    );
    assert_eq!(
        decoder.decode(b"data: {\"choices\":[{\"index\":-1,\"delta\":{}}]}\n\n"),
        vec![malformed()]
    );
    assert_eq!(
        decoder.decode(b"data: {\"choices\":[{\"index\":0,\"delta\":\"x\"}]}\n\n"),
        vec![malformed()]
    );
}

#[test]
fn invalid_utf8_gives_one_error_and_keeps_the_rest() {
    let mut decoder = StreamDecoder::new();
    assert_eq!(decoder.decode(b"data: [DO"), vec![]);
    let events = decoder.decode(&[0xff, 0xfe, b'\n', b'\n']);
    assert_eq!(
        events,
        vec![Err(Error::ParsingError("Stream fragment is not valid UTF-8".to_string()))]
    );
    assert_eq!(decoder.unparsed(), b"data: [DO");
    assert_eq!(decoder.decode(b"NE]\n\n"), vec![Ok(ResponseChunk::Done)]);
}

#[test]
fn character_cut_in_two_is_refused() {
    let text = "data: {\"choices\":[{\"index\":0,\"delta\":{\"content\":\"é\"}}]}\n\n";
    let cut = text.find('é').unwrap() + 1;
    let mut decoder = StreamDecoder::new();
    let first = decoder.decode(&text.as_bytes()[..cut]);
    assert_eq!(
        first,
        vec![Err(Error::ParsingError("Stream fragment is not valid UTF-8".to_string()))]
    );
    let mut whole = StreamDecoder::new();
    assert_eq!(
        whole.decode(text.as_bytes()),
        vec![Ok(ResponseChunk::Content { delta: "é".to_string(), response_index: 0 })]
    );
}

#[test]
fn transport_failure_is_passed_on() {
    let mut decoder = StreamDecoder::new();
    assert_eq!(decoder.decode_part(Ok(b"data: [DONE]\n".to_vec())), vec![]);
    assert_eq!(
        decoder.decode_part(Err("connection reset".to_string())),
        vec![Err(Error::TransportError("connection reset".to_string()))]
    );
    assert_eq!(decoder.unparsed(), b"data: [DONE]\n");
    assert_eq!(decoder.decode_part(Ok(b"\n".to_vec())), vec![Ok(ResponseChunk::Done)]);
}

#[test]
fn delta_shapes() {
    let mut decoder = StreamDecoder::new();
    let events = decoder.decode(
        b"data: {\"choices\":[{\"index\":3,\"delta\":{\"role\":\"assistant\",\"content\":\"\"}}]}\n\n\
data: {\"choices\":[{\"index\":3,\"delta\":{\"role\":\"narrator\",\"content\":\"x\"}}]}\n\n\
data: {\"choices\":[{\"index\":3,\"delta\":{\"content\":null}}]}\n\n\
data: {\"choices\":[{\"index\":4,\"delta\":{\"role\":\"user\"}},{\"index\":5,\"delta\":{}}]}\n\n",
    );
    assert_eq!(
        events,
        vec![
            Ok(ResponseChunk::BeginResponse { role: Role::Assistant, response_index: 3 }),
            Ok(ResponseChunk::Content { delta: "x".to_string(), response_index: 3 }),
            Ok(ResponseChunk::CloseResponse { response_index: 3 }),
            Ok(ResponseChunk::BeginResponse { role: Role::User, response_index: 4 }),
        ]
    );
}
