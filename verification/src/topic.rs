//! The topic builder: from an ordered subscription set to the address of the
//! multiplexed stream.

use vstd::prelude::*;
use vstd::string::*;
use crate::casing::texts;

verus! {

/// Why no address can be built.
#[derive(Debug, Clone, Copy, PartialEq, Eq)]
pub enum TopicError {
    /// The subscription set holds no symbol pair.
    EmptySubscription,
}

/// The address up to the first topic.
pub open spec fn endpoint_prefix() -> Seq<char> {
    "wss://stream.binance.com:9443/stream?streams="@
}

/// The topic of one symbol pair: the pair followed by `@ticker`.
pub open spec fn topic_of(symbol: Seq<char>) -> Seq<char> {
    symbol + "@ticker"@
}

/// The topics of `symbols` in order, with `/` between neighbours.
pub open spec fn joined_topics(symbols: Seq<Seq<char>>) -> Seq<char>
    decreases symbols.len(),
{
    if symbols.len() == 0 {
        Seq::empty()
    } else if symbols.len() == 1 {
        topic_of(symbols[0])
    } else {
        joined_topics(symbols.drop_last()) + "/"@ + topic_of(symbols.last())
    }
}

/// The address that subscribes to `symbols`, in order.
pub open spec fn address_of(symbols: Seq<Seq<char>>) -> Seq<char> {
    endpoint_prefix() + joined_topics(symbols)
}

/// Where the topic of the symbol pair at `index` begins in
/// `joined_topics(symbols)`: behind the topics of all earlier pairs and the
/// separator after each.
pub open spec fn topic_start(symbols: Seq<Seq<char>>, index: int) -> int
    decreases index,
{
    if index <= 0 {
        0
    } else {
        topic_start(symbols, index - 1) + topic_of(symbols[index - 1]).len() + "/"@.len()
    }
}

/// The topic string of one symbol pair.
pub fn topic(symbol: &str) -> (r: String)
    ensures
        r@ == topic_of(symbol@),
{
    let mut out = String::from_str(symbol);
    out.append("@ticker");
    out
}

/// The joined topics of a longer set extend those of the set without its
/// last symbol pair.
proof fn lemma_joined_step(symbols: Seq<Seq<char>>, i: int)
    requires
        0 <= i < symbols.len(),
    ensures
        joined_topics(symbols.take(i + 1)) == if i == 0 {
            topic_of(symbols[0])
        } else {
            joined_topics(symbols.take(i)) + "/"@ + topic_of(symbols[i])
        },
{
    let head = symbols.take(i + 1);
    assert(head.last() == symbols[i]);
    assert(head[0] == symbols[0]);
    assert(head.drop_last() =~= symbols.take(i));
}

/// No topic begins before the joined topics do, and each begins behind the
/// one before it.
proof fn lemma_start_grows(symbols: Seq<Seq<char>>, index: int)
    ensures
        0 <= topic_start(symbols, index),
        index > 0 ==> topic_start(symbols, index - 1) + topic_of(symbols[index - 1]).len()
            + "/"@.len() == topic_start(symbols, index),
    decreases index,
{
    if index > 0 {
        lemma_start_grows(symbols, index - 1);
    }
}

/// Where a topic begins depends on the symbol pairs before it alone.
proof fn lemma_start_of_prefix(symbols: Seq<Seq<char>>, index: int)
    requires
        0 <= index < symbols.len(),
    ensures
        topic_start(symbols.drop_last(), index) == topic_start(symbols, index),
    decreases index,
{
    if index > 0 {
        lemma_start_of_prefix(symbols, index - 1);
        assert(symbols.drop_last()[index - 1] == symbols[index - 1]);
    }
}

/// The joined topics end with the topic of the last symbol pair.
proof fn lemma_joined_len(symbols: Seq<Seq<char>>)
    requires
        symbols.len() > 0,
    ensures
        joined_topics(symbols).len() == topic_start(symbols, symbols.len() - 1) + topic_of(
            symbols.last(),
        ).len(),
    decreases symbols.len(),
{
    let n = symbols.len() as int;
    if n > 1 {
        let head = symbols.drop_last();
        lemma_joined_len(head);
        lemma_start_of_prefix(symbols, n - 2);
        assert(head.last() == symbols[n - 2]);
    }
}

/// The topic builder keeps the order of the subscription set: in the joined
/// topics, the topic of each symbol pair stands whole at its own place,
/// behind the topics of all pairs before it, and from the second topic on a
/// separator stands just before it.
pub proof fn lemma_topics_in_order(symbols: Seq<Seq<char>>, index: int)
    requires
        0 <= index < symbols.len(),
    ensures
        0 <= topic_start(symbols, index),
        topic_start(symbols, index) + topic_of(symbols[index]).len() <= joined_topics(
            symbols,
        ).len(),
        joined_topics(symbols).subrange(
            topic_start(symbols, index),
            topic_start(symbols, index) + topic_of(symbols[index]).len(),
        ) == topic_of(symbols[index]),
        index > 0 ==> topic_start(symbols, index - 1) + topic_of(symbols[index - 1]).len()
            < topic_start(symbols, index),
        index > 0 ==> joined_topics(symbols).subrange(
            topic_start(symbols, index) - "/"@.len(),
            topic_start(symbols, index),
        ) == "/"@,
    decreases symbols.len(),
{
    reveal_strlit("/");
    lemma_start_grows(symbols, index);
    lemma_start_grows(symbols, index - 1);
    let n = symbols.len() as int;
    let joined = joined_topics(symbols);
    let begin = topic_start(symbols, index);
    let this = topic_of(symbols[index]);
    if n == 1 {
        assert(joined.subrange(0, this.len() as int) =~= this);
    } else {
        let head = symbols.drop_last();
        let before = joined_topics(head);
        lemma_joined_len(head);
        lemma_start_of_prefix(symbols, n - 2);
        assert(head.last() == symbols[n - 2]);
        assert(joined == before + "/"@ + topic_of(symbols.last()));
        if index == n - 1 {
            assert(begin == before.len() + 1);
            assert(joined.subrange(begin, begin + this.len()) =~= this);
            assert(joined.subrange(begin - 1, begin) =~= "/"@);
        } else {
            lemma_topics_in_order(head, index);
            lemma_start_of_prefix(symbols, index);
            assert(head[index] == symbols[index]);
            assert(joined.subrange(begin, begin + this.len()) =~= before.subrange(
                begin,
                begin + this.len(),
            ));
            if index > 0 {
                assert(head[index - 1] == symbols[index - 1]);
                assert(joined.subrange(begin - 1, begin) =~= before.subrange(begin - 1, begin));
            }
        }
    }
}

/// Builds the address of the multiplexed stream for a subscription set.
///
/// The topics stand in the order of `symbols`. An empty set is refused.
pub fn build_address(symbols: &Vec<String>) -> (r: Result<String, TopicError>)
    ensures
        symbols.len() == 0 ==> r == Err::<String, TopicError>(TopicError::EmptySubscription),
        symbols.len() > 0 ==> r.is_ok() && r.unwrap()@ == address_of(texts(symbols@)),
{
    if symbols.len() == 0 {
        return Err(TopicError::EmptySubscription);
    }
    let ghost all = texts(symbols@);
    let mut joined = String::new();
    let mut i: usize = 0;
    while i < symbols.len()
        invariant
            i <= symbols.len(),
            all == texts(symbols@),
            joined@ == joined_topics(all.take(i as int)),
        decreases symbols.len() - i,
    {
        proof {
            lemma_joined_step(all, i as int);
        }
        if i > 0 {
            joined.append("/");
        }
        joined.append(symbols[i].as_str());
        joined.append("@ticker");
        assert(joined@ =~= joined_topics(all.take(i + 1)));
        i += 1;
    }
    assert(all.take(symbols.len() as int) =~= all);
    let mut address = String::from_str("wss://stream.binance.com:9443/stream?streams=");
    address.append(joined.as_str());
    Ok(address)
}

} // verus!
