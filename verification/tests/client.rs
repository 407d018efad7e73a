use serde_json::Value;
use tiqer::client::{
    checked_address, dispatch_decoded, receive, start, step, ConnectError, Dispatch, TickerError,
};
use tiqer::cursor::CursorTable;
use tiqer::frame::{CloseNotice, Frame};
use tiqer::render::{render_ticker, RenderPlan, StreamPayload, TickerPayload};

fn symbols(items: &[&str]) -> Vec<String> {
    items.iter().map(|item| item.to_string()).collect()
}

fn text_member(object: &Value, key: &str) -> Option<String> {
    object.get(key).and_then(Value::as_str).map(str::to_string)
}

fn decode_envelope(text: &str) -> Option<StreamPayload> {
    let body: Value = serde_json::from_str(text).ok()?;
    let data = body.get("data")?;
    Some(StreamPayload {
        stream: text_member(&body, "stream")?,
        data: TickerPayload { s: text_member(data, "s")?, c: text_member(data, "c")? },
    })
}

fn encode_envelope(body: &StreamPayload) -> String {
    let mut data = serde_json::Map::new();
    data.insert("s".to_string(), Value::String(body.data.s.clone()));
    data.insert("c".to_string(), Value::String(body.data.c.clone()));
    let mut outer = serde_json::Map::new();
    outer.insert("stream".to_string(), Value::String(body.stream.clone()));
    outer.insert("data".to_string(), Value::Object(data));
    Value::Object(outer).to_string()
}

fn echo(text: &str) -> Option<String> {
    Some(text.to_string())
}

const ENVELOPE: &str = "{\"stream\":\"btcusdt@ticker\",\"data\":{\"s\":\"BTCUSDT\",\"c\":\"64000.50\"}}";

#[test]
fn start_gives_the_address_to_connect_to() {
    assert_eq!(
        start(&symbols(&["btcusdt", "adausdt"])),
        Ok("wss://stream.binance.com:9443/stream?streams=btcusdt@ticker/adausdt@ticker".to_string())
    );
}

#[test]
fn start_gives_the_address_as_the_url_is_serialized() {
    assert_eq!(
        start(&symbols(&["btc usdt"])),
        Ok("wss://stream.binance.com:9443/stream?streams=btc%20usdt@ticker".to_string())
    );
}

#[test]
fn start_refuses_an_empty_set() {
    assert_eq!(start(&Vec::new()), Err(ConnectError::EmptySubscription));
}

#[test]
fn an_address_that_is_no_url_is_a_connect_error() {
    assert_eq!(checked_address(Err(url::ParseError::EmptyHost)), Err(ConnectError::BadAddress));
    assert_eq!(checked_address(Ok("wss://host/".to_string())), Ok("wss://host/".to_string()));
}

#[test]
fn an_envelope_decodes_into_symbol_and_price() {
    let frame = Frame::Text(ENVELOPE.to_string());
    match receive(Ok(frame), &decode_envelope) {
        Dispatch::Message(body) => {
            assert_eq!(body.stream, "btcusdt@ticker");
            assert_eq!(body.data.s, "BTCUSDT");
            assert_eq!(body.data.c, "64000.50");
        }
        Dispatch::Error(error) => panic!("unexpected {:?}", error),
    }
}

#[test]
fn encoding_and_decoding_again_changes_nothing() {
    let first = decode_envelope(ENVELOPE).unwrap();
    let again = receive(Ok(Frame::Text(encode_envelope(&first))), &decode_envelope);
    assert_eq!(again, Dispatch::Message(first));
}

#[test]
fn a_frame_that_is_no_json_is_one_parsing_error() {
    let bad = Frame::Text("not json".to_string());
    let events = vec![Ok(bad.clone()), Ok(Frame::Text(ENVELOPE.to_string()))];
    let mut messages = 0;
    let mut errors = Vec::new();
    for event in events {
        match receive(event, &decode_envelope) {
            Dispatch::Message(_) => messages += 1,
            Dispatch::Error(error) => errors.push(error),
        }
    }
    assert_eq!(errors, vec![TickerError::ParsingError { message: bad }]);
    assert_eq!(messages, 1);
}

#[test]
fn raw_bytes_that_are_no_json_are_a_parsing_error() {
    let bad = Frame::Binary(b"not json".to_vec());
    assert_eq!(
        receive(Ok(bad.clone()), &decode_envelope),
        Dispatch::Error(TickerError::ParsingError { message: bad })
    );
}

#[test]
fn json_of_another_shape_is_a_parsing_error() {
    let bad = Frame::Text("{\"stream\":\"btcusdt@ticker\"}".to_string());
    assert_eq!(
        receive(Ok(bad.clone()), &decode_envelope),
        Dispatch::Error(TickerError::ParsingError { message: bad })
    );
}

#[test]
fn a_read_failure_is_one_socket_error() {
    let r: Dispatch<StreamPayload> =
        receive(Err("Connection reset without closing handshake".to_string()), &decode_envelope);
    assert_eq!(
        r,
        Dispatch::Error(TickerError::SocketError {
            message: "Connection reset without closing handshake".to_string()
        })
    );
}

#[test]
fn the_loop_goes_on_after_a_read_failure_and_ends_with_the_stream() {
    let events = vec![
        Some(Err("reset".to_string())),
        Some(Ok(Frame::Text(ENVELOPE.to_string()))),
        Some(Err("reset again".to_string())),
        None,
    ];
    let mut seen = Vec::new();
    for next in events {
        match step(next, &decode_envelope) {
            Some(dispatch) => seen.push(dispatch),
            None => break,
        }
    }
    assert_eq!(
        seen,
        vec![
            Dispatch::Error(TickerError::SocketError { message: "reset".to_string() }),
            Dispatch::Message(decode_envelope(ENVELOPE).unwrap()),
            Dispatch::Error(TickerError::SocketError { message: "reset again".to_string() }),
        ]
    );
}

#[test]
fn the_end_of_the_stream_gives_nothing() {
    assert_eq!(step(None, &decode_envelope), None);
}

#[test]
fn dispatches_keep_the_order_of_the_frames() {
    let frames = ["first", "second", "third"];
    let seen: Vec<Dispatch<String>> = frames
        .iter()
        .map(|text| step(Some(Ok(Frame::Text(text.to_string()))), &echo).unwrap())
        .collect();
    assert_eq!(
        seen,
        vec![
            Dispatch::Message("first".to_string()),
            Dispatch::Message("second".to_string()),
            Dispatch::Message("third".to_string()),
        ]
    );
}

#[test]
fn binary_ping_and_pong_payloads_are_decoded_as_utf8() {
    let bytes = "prix: 1 €".as_bytes().to_vec();
    assert_eq!(receive(Ok(Frame::Binary(bytes.clone())), &echo), Dispatch::Message("prix: 1 €".to_string()));
    assert_eq!(receive(Ok(Frame::Ping(bytes.clone())), &echo), Dispatch::Message("prix: 1 €".to_string()));
    assert_eq!(receive(Ok(Frame::Pong(bytes)), &echo), Dispatch::Message("prix: 1 €".to_string()));
}

#[test]
fn a_payload_that_is_not_utf8_is_a_parsing_error() {
    let bad = Frame::Binary(vec![0xff, 0xfe, 0x00]);
    assert_eq!(
        receive(Ok(bad.clone()), &echo),
        Dispatch::Error(TickerError::ParsingError { message: bad })
    );
    let cut = Frame::Ping(vec![0xe2, 0x82]);
    assert_eq!(
        receive(Ok(cut.clone()), &echo),
        Dispatch::Error(TickerError::ParsingError { message: cut })
    );
}

#[test]
fn a_close_frame_carries_its_reason() {
    assert_eq!(receive(Ok(Frame::Close(None)), &echo), Dispatch::Message(String::new()));
    let notice = CloseNotice { code: 1001, reason: "going away".to_string() };
    assert_eq!(
        receive(Ok(Frame::Close(Some(notice))), &echo),
        Dispatch::Message("going away".to_string())
    );
}

#[test]
fn a_close_frame_is_no_envelope() {
    let frame = Frame::Close(None);
    assert_eq!(
        receive(Ok(frame.clone()), &decode_envelope),
        Dispatch::Error(TickerError::ParsingError { message: frame })
    );
}

#[test]
fn a_decoded_value_is_a_message_and_none_a_parsing_error() {
    let frame = Frame::Text("7".to_string());
    assert_eq!(dispatch_decoded(frame.clone(), Some(7)), Dispatch::Message(7));
    assert_eq!(
        dispatch_decoded::<i32>(frame.clone(), None),
        Dispatch::Error(TickerError::ParsingError { message: frame })
    );
}

#[test]
fn three_symbols_end_to_end() {
    let set = symbols(&["btcusdt", "adausdt", "xlmusdt"]);
    let table = CursorTable::build(&set).unwrap();
    assert_eq!(table.lookup(&"BTCUSDT".to_string()), Some(3));
    assert_eq!(table.lookup(&"ADAUSDT".to_string()), Some(2));
    assert_eq!(table.lookup(&"XLMUSDT".to_string()), Some(1));
    let frame = Frame::Text(
        "{\"stream\":\"adausdt@ticker\",\"data\":{\"s\":\"ADAUSDT\",\"c\":\"0.4512\",\"v\":\"1\"}}"
            .to_string(),
    );
    let body = match receive(Ok(frame), &decode_envelope) {
        Dispatch::Message(body) => body,
        Dispatch::Error(error) => panic!("unexpected {:?}", error),
    };
    assert_eq!(
        render_ticker(&table, &body),
        Ok(RenderPlan { up: 2, line: "\rADAUSDT: 0.4512\r".to_string(), down: 2 })
    );
    assert_eq!(table.len(), 3);
    assert_eq!(table.lookup(&"BTCUSDT".to_string()), Some(3));
    assert_eq!(table.lookup(&"XLMUSDT".to_string()), Some(1));
}
