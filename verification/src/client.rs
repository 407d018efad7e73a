//! The decisions of the streaming client.
//!
//! The client opens one connection and turns each inbound frame into one
//! dispatch: a decoded message for the message handler, or a classified
//! failure for the error handler. Opening the connection and waiting for the
//! next frame are the caller's part; what to connect to and what to do with
//! a frame is decided here.

use vstd::prelude::*;
use url::ParseError;
use url::Url;
use crate::casing::texts;
use crate::frame::{frame_text, message_text, Frame};
use crate::topic::{address_of, build_address};

verus! {

/// A failure that the client reports for one frame; the receive loop goes on.
#[derive(Debug, Clone, PartialEq, Eq)]
#[allow(inconsistent_fields)]
pub enum TickerError {
    /// The frame carries no text, or its text does not decode into the
    /// expected envelope. Holds the frame as it came.
    ParsingError { message: Frame },
    /// The transport failed to read a frame. Holds the transport's words.
    SocketError { message: String },
}

/// Why the client could not start.
#[derive(Debug, Clone, PartialEq, Eq)]
pub enum ConnectError {
    /// The subscription set holds no symbol pair.
    EmptySubscription,
    /// The subscription address is no URL.
    BadAddress,
    /// The handshake with the endpoint failed. Holds the transport's words.
    Unreachable { reason: String },
}

/// What the client hands to its caller for one inbound frame.
#[derive(Debug, Clone, PartialEq, Eq)]
pub enum Dispatch<T> {
    /// A decoded envelope, for the message handler.
    Message(T),
    /// A classified failure, for the error handler.
    Error(TickerError),
}

/// The error of `Url::parse` in the `url` crate, carried through unread.
#[verifier::external_type_specification]
#[verifier::external_body]
pub struct ExUrlParseError(ParseError);

/// The serialization of the URL that the `url` crate parses from `text`,
/// where it parses one.
pub uninterp spec fn url_text(text: Seq<char>) -> Option<Seq<char>>;

/// Calls `Url::parse` and takes the URL's serialization. Trusted: the
/// outcome is a function of the text alone; nothing is claimed of which
/// texts parse or of how the serialization differs from the text.
#[verifier::external_body]
fn parse_url(text: &str) -> (r: Result<String, ParseError>)
    ensures
        r.is_ok() == url_text(text@).is_some(),
        r.is_ok() ==> r.unwrap()@ == url_text(text@).unwrap(),
{
    Url::parse(text).map(String::from)
}

/// The address to connect to for a given outcome of parsing the
/// subscription address: the serialized URL, or the refusal of the address.
pub fn checked_address(parsed: Result<String, ParseError>) -> (r: Result<String, ConnectError>)
    ensures
        match parsed {
            Ok(address) => r == Ok::<String, ConnectError>(address),
            Err(_) => r == Err::<String, ConnectError>(ConnectError::BadAddress),
        },
{
    match parsed {
        Ok(address) => Ok(address),
        Err(_) => Err(ConnectError::BadAddress),
    }
}

/// Starts a client for a subscription set: decides what to connect to.
///
/// An empty set is refused before anything is parsed or opened. Otherwise
/// the address of the multiplexed stream is built, in the order of the set,
/// and parsed as a URL; the result is the URL's serialization.
pub fn start(symbol_pairs: &Vec<String>) -> (r: Result<String, ConnectError>)
    ensures
        symbol_pairs.len() == 0 ==> r == Err::<String, ConnectError>(
            ConnectError::EmptySubscription,
        ),
        symbol_pairs.len() > 0 ==> match url_text(address_of(texts(symbol_pairs@))) {
            Some(address) => r.is_ok() && r.unwrap()@ == address,
            None => r == Err::<String, ConnectError>(ConnectError::BadAddress),
        },
{
    match build_address(symbol_pairs) {
        Err(_) => Err(ConnectError::EmptySubscription),
        Ok(address) => checked_address(parse_url(address.as_str())),
    }
}

/// The decode step gives `decoded` for some string whose text is `text`.
pub open spec fn decodes_to<T, D: Fn(&str) -> Option<T>>(
    decode: &D,
    text: Seq<char>,
    decoded: Option<T>,
) -> bool {
    exists|given: &str| given@ == text && #[trigger] decode.ensures((given,), decoded)
}

/// What a frame becomes for a given result of the decode step.
pub open spec fn dispatch_of<T>(frame: Frame, decoded: Option<T>) -> Dispatch<T> {
    match decoded {
        Some(value) => Dispatch::Message(value),
        None => Dispatch::Error(TickerError::ParsingError { message: frame }),
    }
}

/// `dispatch` is what the client hands out for `event` under `decode`.
///
/// A read failure is a socket error that holds the transport's words. A
/// frame without text is a parsing error that holds the frame. A frame with
/// text is whatever the decode step made of that text.
pub open spec fn answers<T, D: Fn(&str) -> Option<T>>(
    event: Result<Frame, String>,
    decode: &D,
    dispatch: Dispatch<T>,
) -> bool {
    match event {
        Err(reason) => dispatch == Dispatch::<T>::Error(
            TickerError::SocketError { message: reason },
        ),
        Ok(frame) => match frame_text(frame) {
            None => dispatch == Dispatch::<T>::Error(TickerError::ParsingError { message: frame }),
            Some(text) => exists|decoded: Option<T>| #[trigger]
                decodes_to(decode, text, decoded) && dispatch == dispatch_of(frame, decoded),
        },
    }
}

/// A read failure gives a socket error with the transport's words, whatever
/// the decode step would do.
pub proof fn lemma_read_failure_is_socket_error<T, D: Fn(&str) -> Option<T>>(
    reason: String,
    decode: &D,
    dispatch: Dispatch<T>,
)
    requires
        answers(Err(reason), decode, dispatch),
    ensures
        dispatch == Dispatch::<T>::Error(TickerError::SocketError { message: reason }),
{
}

/// A frame that carries no text, or whose text the decode step never
/// decodes, gives a parsing error that holds the frame, and no message.
pub proof fn lemma_undecodable_is_parsing_error<T, D: Fn(&str) -> Option<T>>(
    frame: Frame,
    decode: &D,
    dispatch: Dispatch<T>,
)
    requires
        answers(Ok(frame), decode, dispatch),
        frame_text(frame) matches Some(text) ==> forall|decoded: Option<T>| #[trigger]
            decodes_to(decode, text, decoded) ==> decoded.is_none(),
    ensures
        dispatch == Dispatch::<T>::Error(TickerError::ParsingError { message: frame }),
{
}

/// A frame whose text the decode step always decodes gives a message, and
/// no error.
pub proof fn lemma_decodable_is_message<T, D: Fn(&str) -> Option<T>>(
    frame: Frame,
    decode: &D,
    dispatch: Dispatch<T>,
)
    requires
        answers(Ok(frame), decode, dispatch),
        frame_text(frame).is_some(),
        forall|decoded: Option<T>| #[trigger]
            decodes_to(decode, frame_text(frame).unwrap(), decoded) ==> decoded.is_some(),
    ensures
        dispatch is Message,
        decodes_to(decode, frame_text(frame).unwrap(), Some(dispatch->Message_0)),
{
}

/// The decode step may be called on every string that holds the text of
/// `event`'s frame, where the event is a frame with text.
pub open spec fn decodable<T, D: Fn(&str) -> Option<T>>(
    event: Result<Frame, String>,
    decode: &D,
) -> bool {
    event matches Ok(frame) ==> (frame_text(frame) matches Some(text) ==> forall|given: &str|
        given@ == text ==> #[trigger] decode.requires((given,)))
}

/// What a frame with text becomes once the decode step has given `decoded`
/// for that text.
pub fn dispatch_decoded<T>(frame: Frame, decoded: Option<T>) -> (r: Dispatch<T>)
    ensures
        r == dispatch_of(frame, decoded),
{
    match decoded {
        Some(value) => Dispatch::Message(value),
        None => Dispatch::Error(TickerError::ParsingError { message: frame }),
    }
}

/// Decides what one inbound event becomes.
///
/// A read failure becomes a socket error, and the decode step is not asked.
/// Neither is it for a frame without text, which becomes a parsing error.
/// A frame with text is handed to the decode step once: what it decodes is
/// the message, and where it decodes nothing the frame becomes a parsing
/// error that holds the frame as it came.
pub fn receive<T, D: Fn(&str) -> Option<T>>(event: Result<Frame, String>, decode: &D) -> (r:
    Dispatch<T>)
    requires
        decodable(event, decode),
    ensures
        answers(event, decode, r),
{
    match event {
        Err(reason) => Dispatch::Error(TickerError::SocketError { message: reason }),
        Ok(frame) => match message_text(&frame) {
            None => Dispatch::Error(TickerError::ParsingError { message: frame }),
            Some(text) => {
                let decoded = decode(text.as_str());
                assert(decodes_to(decode, frame_text(frame).unwrap(), decoded));
                dispatch_decoded(frame, decoded)
            },
        },
    }
}

/// One turn of the receive loop, for what the transport yielded.
///
/// The loop ends when the transport yields nothing more, and only then:
/// every event, a read failure too, gives exactly one dispatch, after which
/// the loop asks for the next event.
pub fn step<T, D: Fn(&str) -> Option<T>>(next: Option<Result<Frame, String>>, decode: &D) -> (r:
    Option<Dispatch<T>>)
    requires
        next matches Some(event) ==> decodable(event, decode),
    ensures
        match next {
            None => r.is_none(),
            Some(event) => r.is_some() && answers(event, decode, r.unwrap()),
        },
{
    match next {
        None => None,
        Some(event) => Some(receive(event, decode)),
    }
}

} // verus!
