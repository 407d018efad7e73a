//! The terminal renderer's plan for one price update.
//!
//! The display is a block of one line per subscribed symbol pair, with the
//! cursor resting just below it. An update moves the cursor up to the pair's
//! row, overwrites that row in place, flushes, and moves the cursor down by
//! the same number of rows. What to move and what to write is decided here;
//! the terminal itself is the caller's.

use vstd::prelude::*;
use vstd::string::*;
use crate::casing::{to_upper, uppercase_text};
use crate::cursor::CursorTable;

verus! {

/// One update of the display: move up, write and flush, move down.
#[derive(Debug, Clone, PartialEq, Eq)]
pub struct RenderPlan {
    /// Rows to move the cursor up before writing.
    pub up: u16,
    /// The text to write; it starts and ends with a carriage return, so that
    /// the row is replaced and the cursor stays on it.
    pub line: String,
    /// Rows to move the cursor down after the flush.
    pub down: u16,
}

/// Why an update cannot be shown.
#[derive(Debug, Clone, PartialEq, Eq)]
pub enum RenderError {
    /// The table has no row for the symbol. Holds the key that was looked up.
    UnknownSymbol { symbol: String },
}

/// The payload of one ticker message, with the field names of the feed.
#[derive(Debug, Clone, PartialEq, Eq)]
pub struct TickerPayload {
    /// The symbol pair, in uppercase.
    pub s: String,
    /// The current price, as the feed's text.
    pub c: String,
}

/// The envelope of one ticker message.
#[derive(Debug, Clone, PartialEq, Eq)]
pub struct StreamPayload {
    /// The topic that the message belongs to.
    pub stream: String,
    /// The ticker itself.
    pub data: TickerPayload,
}

/// The text of one row: carriage return, symbol, colon and blank, price,
/// carriage return.
pub open spec fn line_of(symbol: Seq<char>, price: Seq<char>) -> Seq<char> {
    "\r"@ + symbol + ": "@ + price + "\r"@
}

/// A block of `count` line feeds.
pub open spec fn blank_lines(count: nat) -> Seq<char> {
    Seq::new(count, |i: int| '\n')
}

/// The placeholder block that is printed once, before the first update: one
/// empty line per subscribed symbol pair.
pub fn placeholder_lines(count: usize) -> (r: String)
    ensures
        r@ == blank_lines(count as nat),
{
    let mut out = String::new();
    let mut i: usize = 0;
    while i < count
        invariant
            i <= count,
            out@ == blank_lines(i as nat),
        decreases count - i,
    {
        proof {
            reveal_strlit("\n");
        }
        out.append("\n");
        i += 1;
        assert(out@ =~= blank_lines(i as nat));
    }
    out
}

/// Plans the update of one symbol's row.
///
/// The symbol is looked up under its uppercase form. Where the table holds
/// it, the cursor goes up by the row's offset and down by the same, and the
/// row is overwritten with the symbol as it was given and the price. Where
/// it does not, the update is refused and names the key that missed.
pub fn render_update(table: &CursorTable, symbol: &str, price: &str) -> (r: Result<
    RenderPlan,
    RenderError,
>)
    requires
        table.wf(),
    ensures
        match table.offset_of(uppercase_text(symbol@)) {
            Some(offset) => {
                &&& r.is_ok()
                &&& r.unwrap().up == offset
                &&& r.unwrap().down == offset
                &&& r.unwrap().line@ == line_of(symbol@, price@)
            },
            None => {
                &&& r.is_err()
                &&& r.unwrap_err() matches RenderError::UnknownSymbol { symbol: key }
                &&& key@ == uppercase_text(symbol@)
            },
        },
{
    let key = to_upper(symbol);
    match table.lookup(&key) {
        None => Err(RenderError::UnknownSymbol { symbol: key }),
        Some(relative) => {
            let mut line = String::from_str("\r");
            line.append(symbol);
            line.append(": ");
            line.append(price);
            line.append("\r");
            Ok(RenderPlan { up: relative, line, down: relative })
        },
    }
}

/// Plans the update that a ticker message asks for: that of its symbol's
/// row, with its price.
pub fn render_ticker(table: &CursorTable, body: &StreamPayload) -> (r: Result<
    RenderPlan,
    RenderError,
>)
    requires
        table.wf(),
    ensures
        match table.offset_of(uppercase_text(body.data.s@)) {
            Some(offset) => {
                &&& r.is_ok()
                &&& r.unwrap().up == offset
                &&& r.unwrap().down == offset
                &&& r.unwrap().line@ == line_of(body.data.s@, body.data.c@)
            },
            None => {
                &&& r.is_err()
                &&& r.unwrap_err() matches RenderError::UnknownSymbol { symbol: key }
                &&& key@ == uppercase_text(body.data.s@)
            },
        },
{
    render_update(table, body.data.s.as_str(), body.data.c.as_str())
}

} // verus!
