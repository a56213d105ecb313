use crate::types::SubscriptionError;
use vstd::prelude::*;

verus! {

/// A collector that listens for new transactions in the mempool, and
/// generates a stream of events which contain the transaction.
#[derive(Debug, Clone, Copy)]
pub struct MempoolCollector {}

/// What reaches a live mempool stream.
#[derive(Debug, PartialEq, Eq)]
pub enum MempoolEvent<T, E> {
    /// The subscription delivered the hash of a pending transaction.
    Hash([u8; 32]),
    /// The fetch of the transaction with the outstanding hash completed:
    /// with the transaction, with none where the node no longer has it,
    /// or with an error.
    Fetched(Result<Option<T>, E>),
}

/// What a live mempool stream does about an event.
#[derive(Debug, PartialEq, Eq)]
pub enum MempoolAction<T, E> {
    /// Fetch the transaction with this hash from the node.
    Fetch([u8; 32]),
    /// Emit the resolved transaction.
    Emit(T),
    /// The transaction is gone: emit nothing, report nothing.
    Drop,
    /// The fetch failed: log the error, emit nothing, and go on.
    LogAndDrop(E),
}

/// A live stream of a [`MempoolCollector`]: it exists only once the
/// subscription to pending transaction hashes stands. At most one fetch
/// is outstanding at any time.
#[derive(Debug, Clone, Copy, PartialEq, Eq)]
pub enum MempoolStream {
    /// Waiting for the subscription to deliver the next hash.
    Listening,
    /// Waiting for the fetch of the transaction with this hash.
    Resolving { hash: [u8; 32] },
}

impl MempoolCollector {
    pub fn new() -> (collector: Self)
        ensures
            collector == (MempoolCollector {  }),
    {
        MempoolCollector {  }
    }

    /// Decides what becomes of a stream request once the node has answered
    /// the subscribe call: where the subscription stands, a listening
    /// stream beside the subscription that feeds it; where the call was
    /// rejected, the subscription error, before any event.
    pub fn get_event_stream<S, E>(&self, subscribed: Result<S, E>) -> (stream: Result<
        (MempoolStream, S),
        SubscriptionError<E>,
    >)
        ensures
            stream == match subscribed {
                Ok(subscription) => Ok::<(MempoolStream, S), SubscriptionError<E>>(
                    (MempoolStream::Listening, subscription),
                ),
                Err(cause) => Err(SubscriptionError { cause }),
            },
    {
        match subscribed {
            Ok(subscription) => Ok((MempoolStream::Listening, subscription)),
            Err(cause) => Err(SubscriptionError { cause }),
        }
    }
}

impl MempoolCollector {
    /// What is said, before the error itself, where the subscribe call was
    /// rejected.
    pub fn subscription_failure_text(&self) -> (text: &'static str)
        ensures
            text == "Error subscribing to pending transactions",
    {
        "Error subscribing to pending transactions"
    }

    /// What is said, before the error itself, where a fetch failed.
    pub fn resolution_failure_text(&self) -> (text: &'static str)
        ensures
            text == "Error getting transaction by hash",
    {
        "Error getting transaction by hash"
    }
}

impl<T, E> MempoolEvent<T, E> {
    /// What is done about this event. It depends on the event alone.
    pub open spec fn spec_action(self) -> MempoolAction<T, E> {
        match self {
            MempoolEvent::Hash(hash) => MempoolAction::Fetch(hash),
            MempoolEvent::Fetched(Ok(Some(tx))) => MempoolAction::Emit(tx),
            MempoolEvent::Fetched(Ok(None)) => MempoolAction::Drop,
            MempoolEvent::Fetched(Err(e)) => MempoolAction::LogAndDrop(e),
        }
    }
}

impl MempoolStream {
    /// `event` is the one that the stream waits for: a hash while it
    /// listens, the outcome of the fetch while one is outstanding.
    pub open spec fn admits<T, E>(self, event: MempoolEvent<T, E>) -> bool {
        match self {
            MempoolStream::Listening => event is Hash,
            MempoolStream::Resolving { .. } => event is Fetched,
        }
    }

    /// The stream after `event`.
    pub open spec fn spec_after<T, E>(self, event: MempoolEvent<T, E>) -> MempoolStream {
        match event {
            MempoolEvent::Hash(hash) => MempoolStream::Resolving { hash },
            MempoolEvent::Fetched(_) => MempoolStream::Listening,
        }
    }

    /// Every event of `events`, taken in turn from this state, is the one
    /// that the stream waits for at that point.
    pub open spec fn admits_all<T, E>(self, events: Seq<MempoolEvent<T, E>>) -> bool
        decreases events.len(),
    {
        events.len() == 0 || (self.admits(events[0]) && self.spec_after(events[0]).admits_all(
            events.drop_first(),
        ))
    }

    /// What is done about each event of `events`, taken in turn from this
    /// state.
    pub open spec fn run<T, E>(self, events: Seq<MempoolEvent<T, E>>) -> Seq<MempoolAction<T, E>>
        decreases events.len(),
    {
        if events.len() == 0 {
            Seq::empty()
        } else {
            seq![events[0].spec_action()] + self.spec_after(events[0]).run(events.drop_first())
        }
    }

    /// Whether `event` is the one that the stream waits for.
    pub fn accepts<T, E>(&self, event: &MempoolEvent<T, E>) -> (ok: bool)
        ensures
            ok == self.admits(*event),
    {
        match self {
            MempoolStream::Listening => match event {
                MempoolEvent::Hash(_) => true,
                MempoolEvent::Fetched(_) => false,
            },
            MempoolStream::Resolving { .. } => match event {
                MempoolEvent::Hash(_) => false,
                MempoolEvent::Fetched(_) => true,
            },
        }
    }

    /// Takes the next event and decides what is done about it.
    ///
    /// A hash starts the fetch of its transaction; no further hash is
    /// taken until that fetch has completed. A fetched transaction is
    /// emitted; one that is gone is dropped; a failed fetch is logged and
    /// dropped. In each case the stream goes on.
    pub fn step<T, E>(&mut self, event: MempoolEvent<T, E>) -> (action: MempoolAction<T, E>)
        requires
            old(self).admits(event),
        ensures
            action == event.spec_action(),
            *final(self) == old(self).spec_after(event),
    {
        match event {
            MempoolEvent::Hash(hash) => {
                *self = MempoolStream::Resolving { hash };
                MempoolAction::Fetch(hash)
            },
            MempoolEvent::Fetched(fetched) => {
                *self = MempoolStream::Listening;
                match fetched {
                    Ok(Some(tx)) => MempoolAction::Emit(tx),
                    Ok(None) => MempoolAction::Drop,
                    Err(e) => MempoolAction::LogAndDrop(e),
                }
            },
        }
    }
}

/// One action per event, each decided by its event alone.
pub proof fn lemma_each_event_answered_alone<T, E>(
    stream: MempoolStream,
    events: Seq<MempoolEvent<T, E>>,
)
    ensures
        stream.run(events).len() == events.len(),
        forall|at: int|
            0 <= at < events.len() ==> #[trigger] stream.run(events)[at]
                == events[at].spec_action(),
    decreases events.len(),
{
    if events.len() > 0 {
        let next = stream.spec_after(events[0]);
        lemma_each_event_answered_alone(next, events.drop_first());
        assert forall|at: int| 0 <= at < events.len() implies #[trigger] stream.run(events)[at]
            == events[at].spec_action() by {
            if at > 0 {
                assert(stream.run(events)[at] == next.run(events.drop_first())[at - 1]);
                assert(events.drop_first()[at - 1] == events[at]);
            }
        }
    }
}

/// Hashes are resolved one at a time: from a listening stream, hashes and
/// fetch outcomes alternate, so that each outcome belongs to the hash
/// just before it and no hash is taken while a fetch is outstanding.
pub proof fn lemma_one_fetch_at_a_time<T, E>(events: Seq<MempoolEvent<T, E>>, at: int)
    requires
        MempoolStream::Listening.admits_all(events),
        0 <= at < events.len(),
    ensures
        at % 2 == 0 <==> events[at] is Hash,
        at % 2 == 1 <==> events[at] is Fetched,
    decreases at,
{
    if at >= 2 {
        let after_one = MempoolStream::Listening.spec_after(events[0]);
        let rest = events.drop_first();
        assert(after_one.admits_all(rest));
        let after_two = after_one.spec_after(rest[0]);
        assert(after_two.admits_all(rest.drop_first()));
        assert(rest.drop_first()[at - 2] == events[at]);
        lemma_one_fetch_at_a_time(rest.drop_first(), at - 2);
    } else if at == 1 {
        let after_one = MempoolStream::Listening.spec_after(events[0]);
        assert(after_one.admits_all(events.drop_first()));
        assert(events.drop_first()[0] == events[1]);
    }
}

/// Only resolved transactions are emitted, and a failure touches nothing
/// else. From a listening stream:
/// - whatever is emitted is the body that the fetch just completed with,
///   fetched for the hash delivered just before;
/// - a failed fetch, and one that finds nothing, emit nothing;
/// - each hash is fetched as it arrives, whatever became of the hashes
///   before it.
pub proof fn lemma_only_resolved_transactions_emitted<T, E>(
    events: Seq<MempoolEvent<T, E>>,
    at: int,
)
    requires
        MempoolStream::Listening.admits_all(events),
        0 <= at < events.len(),
    ensures
        ({
            let actions = MempoolStream::Listening.run(events);
            &&& actions[at] matches MempoolAction::Emit(tx) ==> {
                &&& events[at] == MempoolEvent::<T, E>::Fetched(Ok(Some(tx)))
                &&& at >= 1
                &&& events[at - 1] matches MempoolEvent::Hash(hash)
                &&& actions[at - 1] == MempoolAction::<T, E>::Fetch(hash)
            }
            &&& events[at] matches MempoolEvent::Fetched(Err(e)) ==> actions[at]
                == MempoolAction::<T, E>::LogAndDrop(e)
            &&& events[at] == MempoolEvent::<T, E>::Fetched(Ok(None)) ==> actions[at]
                == MempoolAction::<T, E>::Drop
            &&& events[at] matches MempoolEvent::Hash(hash) ==> actions[at] == MempoolAction::<
                T,
                E,
            >::Fetch(hash)
        }),
{
    lemma_each_event_answered_alone(MempoolStream::Listening, events);
    lemma_one_fetch_at_a_time(events, at);
    if at >= 1 {
        lemma_one_fetch_at_a_time(events, at - 1);
    }
}

} // verus!
