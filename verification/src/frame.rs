//! Frames as the transport delivers them, held as plain values.

use vstd::prelude::*;
use vstd::utf8::*;
use tokio_tungstenite::tungstenite::protocol::frame::coding::CloseCode;
use tokio_tungstenite::tungstenite::protocol::CloseFrame;
use tokio_tungstenite::tungstenite::protocol::Message;

verus! {

/// What the peer said when it closed the connection.
#[derive(Debug, Clone, PartialEq, Eq)]
pub struct CloseNotice {
    /// The status code of the close frame.
    pub code: u16,
    /// The reason given, as text.
    pub reason: String,
}

/// One message unit of the streaming transport.
#[derive(Debug, Clone, PartialEq, Eq)]
pub enum Frame {
    /// A text message.
    Text(String),
    /// A binary message.
    Binary(Vec<u8>),
    /// A ping with its payload.
    Ping(Vec<u8>),
    /// A pong with its payload.
    Pong(Vec<u8>),
    /// A close message, with the peer's notice if it sent one.
    Close(Option<CloseNotice>),
}

/// The text of a payload of bytes: its decoding where the bytes are UTF-8,
/// nothing otherwise.
pub open spec fn payload_text(bytes: Seq<u8>) -> Option<Seq<char>> {
    if valid_utf8(bytes) {
        Some(decode_utf8(bytes))
    } else {
        None
    }
}

/// The text that a frame carries, if it carries any.
///
/// A text frame carries its text; a binary, ping or pong frame the decoding
/// of its payload; a close frame the reason of its notice, the empty text
/// without one.
pub open spec fn frame_text(frame: Frame) -> Option<Seq<char>> {
    match frame {
        Frame::Text(text) => Some(text@),
        Frame::Binary(bytes) => payload_text(bytes@),
        Frame::Ping(bytes) => payload_text(bytes@),
        Frame::Pong(bytes) => payload_text(bytes@),
        Frame::Close(None) => Some(Seq::empty()),
        Frame::Close(Some(notice)) => Some(notice.reason@),
    }
}

/// Calls `Message::to_text` of tungstenite on the message that `frame`
/// stands for. Trusted: the call fails exactly on a binary, ping or pong
/// payload that is not UTF-8, and otherwise hands out the text, the decoded
/// payload, or the close reason (empty without a notice).
#[verifier::external_body]
pub(crate) fn message_text(frame: &Frame) -> (r: Option<String>)
    ensures
        r.is_some() == frame_text(*frame).is_some(),
        r.is_some() ==> r.unwrap()@ == frame_text(*frame).unwrap(),
{
    let message = match frame {
        Frame::Text(text) => Message::Text(text.as_str().into()),
        Frame::Binary(bytes) => Message::Binary(bytes.clone().into()),
        Frame::Ping(bytes) => Message::Ping(bytes.clone().into()),
        Frame::Pong(bytes) => Message::Pong(bytes.clone().into()),
        Frame::Close(None) => Message::Close(None),
        Frame::Close(Some(notice)) => Message::Close(Some(CloseFrame {
            code: CloseCode::from(notice.code),
            reason: notice.reason.as_str().into(),
        })),
    };
    message.to_text().ok().map(String::from)
}

} // verus!
