use tiqer::casing::normalize_symbols;
use tiqer::topic::{build_address, topic, TopicError};

fn symbols(items: &[&str]) -> Vec<String> {
    items.iter().map(|item| item.to_string()).collect()
}

#[test]
fn topic_appends_the_ticker_suffix() {
    assert_eq!(topic("btcusdt"), "btcusdt@ticker");
    assert_eq!(topic(""), "@ticker");
}

#[test]
fn address_of_two_symbols_keeps_their_order() {
    let address = build_address(&symbols(&["btcusdt", "adausdt"])).unwrap();
    assert_eq!(
        address,
        "wss://stream.binance.com:9443/stream?streams=btcusdt@ticker/adausdt@ticker"
    );
    assert!(address.to_lowercase().contains("streams=btcusdt@ticker/adausdt@ticker"));
}

#[test]
fn address_of_swapped_symbols_is_swapped() {
    let address = build_address(&symbols(&["adausdt", "btcusdt"])).unwrap();
    assert_eq!(
        address,
        "wss://stream.binance.com:9443/stream?streams=adausdt@ticker/btcusdt@ticker"
    );
}

#[test]
fn address_of_one_symbol_has_no_separator() {
    let address = build_address(&symbols(&["xlmusdt"])).unwrap();
    assert_eq!(address, "wss://stream.binance.com:9443/stream?streams=xlmusdt@ticker");
}

#[test]
fn address_of_four_symbols() {
    let address = build_address(&symbols(&["btcusdt", "adausdt", "iotausdt", "xlmusdt"])).unwrap();
    assert_eq!(
        address,
        "wss://stream.binance.com:9443/stream?streams=btcusdt@ticker/adausdt@ticker/iotausdt@ticker/xlmusdt@ticker"
    );
}

#[test]
fn address_is_the_same_on_every_call() {
    let set = symbols(&["btcusdt", "adausdt", "xlmusdt"]);
    assert_eq!(build_address(&set), build_address(&set));
}

#[test]
fn address_of_an_empty_set_is_refused() {
    assert_eq!(build_address(&Vec::new()), Err(TopicError::EmptySubscription));
}

#[test]
fn symbols_are_lowercased_in_order() {
    let raw = symbols(&["BTCUSDT", "AdaUsdt", "xlmusdt"]);
    assert_eq!(normalize_symbols(&raw), symbols(&["btcusdt", "adausdt", "xlmusdt"]));
}

#[test]
fn no_symbols_normalize_to_none() {
    assert_eq!(normalize_symbols(&Vec::new()), Vec::<String>::new());
}
