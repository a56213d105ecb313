use crate::types::SubscriptionError;
use vstd::prelude::*;

verus! {

/// A new block event, containing the block number and hash.
#[derive(Debug, Clone, Copy, PartialEq, Eq)]
pub struct NewBlock {
    pub hash: [u8; 32],
    pub number: u64,
}

/// A collector that listens for new blocks, and generates a stream of
/// [events](NewBlock) which contain the block number and hash.
#[derive(Debug, Clone, Copy)]
pub struct BlockCollector {}

/// A live stream of a [`BlockCollector`]: it exists only once the
/// subscription to new block headers stands.
#[derive(Debug)]
pub struct BlockStream {}

impl BlockCollector {
    pub fn new() -> (collector: Self)
        ensures
            collector == (BlockCollector {  }),
    {
        BlockCollector {  }
    }

    /// Decides what becomes of a stream request once the node has answered
    /// the subscribe call: where the subscription stands, a stream beside
    /// the subscription that feeds it; where the call was rejected, the
    /// subscription error.
    pub fn get_event_stream<S, E>(&self, subscribed: Result<S, E>) -> (stream: Result<
        (BlockStream, S),
        SubscriptionError<E>,
    >)
        ensures
            stream == match subscribed {
                Ok(subscription) => Ok::<(BlockStream, S), SubscriptionError<E>>(
                    (BlockStream {  }, subscription),
                ),
                Err(cause) => Err(SubscriptionError { cause }),
            },
    {
        match subscribed {
            Ok(subscription) => Ok((BlockStream {  }, subscription)),
            Err(cause) => Err(SubscriptionError { cause }),
        }
    }
}

impl BlockStream {
    /// The event for a header with the given hash and number.
    pub open spec fn spec_on_header(hash: [u8; 32], number: u64) -> NewBlock {
        NewBlock { hash, number }
    }

    /// The events for `headers`, each a pair of hash and number, taken one
    /// by one in the order of delivery.
    pub open spec fn events(headers: Seq<([u8; 32], u64)>) -> Seq<NewBlock>
        decreases headers.len(),
    {
        if headers.len() == 0 {
            Seq::empty()
        } else {
            seq![Self::spec_on_header(headers[0].0, headers[0].1)] + Self::events(
                headers.drop_first(),
            )
        }
    }

    /// Turns a received block header, given by its hash and number, into
    /// the event to emit.
    pub fn on_header(&self, hash: [u8; 32], number: u64) -> (event: NewBlock)
        ensures
            event == Self::spec_on_header(hash, number),
    {
        NewBlock { hash, number }
    }
}

/// Headers and events correspond one to one, in the order of delivery:
/// the event at each place carries the hash and the number of the header
/// at that place.
pub proof fn lemma_blocks_follow_headers(headers: Seq<([u8; 32], u64)>)
    ensures
        BlockStream::events(headers).len() == headers.len(),
        forall|at: int|
            0 <= at < headers.len() ==> {
                &&& (#[trigger] BlockStream::events(headers)[at]).hash == headers[at].0
                &&& BlockStream::events(headers)[at].number == headers[at].1
            },
    decreases headers.len(),
{
    if headers.len() > 0 {
        lemma_blocks_follow_headers(headers.drop_first());
        assert forall|at: int| 0 <= at < headers.len() implies {
            &&& (#[trigger] BlockStream::events(headers)[at]).hash == headers[at].0
            &&& BlockStream::events(headers)[at].number == headers[at].1
        } by {
            if at > 0 {
                assert(BlockStream::events(headers)[at] == BlockStream::events(
                    headers.drop_first(),
                )[at - 1]);
                assert(headers.drop_first()[at - 1] == headers[at]);
            }
        }
    }
}

} // verus!
