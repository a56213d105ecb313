use crate::types::SubscriptionError;
use vstd::prelude::*;

verus! {

/// A collector that listens for new blockchain event logs based on a
/// filter, and generates a stream of the logs that the node delivers for
/// it. The filter is fixed when the collector is made.
#[derive(Debug)]
pub struct LogCollector<F> {
    filter: F,
}

/// A live stream of a [`LogCollector`]: it exists only once the
/// subscription for the collector's filter stands.
#[derive(Debug)]
pub struct LogStream {}

impl<F> LogCollector<F> {
    /// The filter that the collector was made with.
    pub closed spec fn spec_filter(&self) -> &F {
        &self.filter
    }

    pub fn new(filter: F) -> (collector: Self)
        ensures
            *collector.spec_filter() == filter,
    {
        LogCollector { filter }
    }

    /// The filter to subscribe with.
    #[verifier::when_used_as_spec(spec_filter)]
    pub fn filter(&self) -> (filter: &F)
        ensures
            filter == self.spec_filter(),
    {
        &self.filter
    }

    /// Decides what becomes of a stream request once the node has answered
    /// the subscribe call for the collector's filter: where the
    /// subscription stands, a stream beside the subscription that feeds it;
    /// where the call was rejected, the subscription error.
    pub fn get_event_stream<S, E>(&self, subscribed: Result<S, E>) -> (stream: Result<
        (LogStream, S),
        SubscriptionError<E>,
    >)
        ensures
            stream == match subscribed {
                Ok(subscription) => Ok::<(LogStream, S), SubscriptionError<E>>(
                    (LogStream {  }, subscription),
                ),
                Err(cause) => Err(SubscriptionError { cause }),
            },
    {
        match subscribed {
            Ok(subscription) => Ok((LogStream {  }, subscription)),
            Err(cause) => Err(SubscriptionError { cause }),
        }
    }
}

impl LogStream {
    /// The events for `logs`, taken one by one in the order of delivery.
    pub open spec fn events<L>(logs: Seq<L>) -> Seq<L>
        decreases logs.len(),
    {
        if logs.len() == 0 {
            Seq::empty()
        } else {
            seq![logs[0]] + Self::events(logs.drop_first())
        }
    }

    /// Turns a delivered log into the event to emit: the log itself.
    pub fn on_log<L>(&self, log: L) -> (event: L)
        ensures
            event == log,
    {
        log
    }
}

/// The stream emits what the subscription delivers and nothing else: the
/// same logs, unchanged, in the order of delivery.
pub proof fn lemma_logs_pass_unchanged<L>(logs: Seq<L>)
    ensures
        LogStream::events(logs) == logs,
    decreases logs.len(),
{
    if logs.len() > 0 {
        lemma_logs_pass_unchanged(logs.drop_first());
        assert(seq![logs[0]] + logs.drop_first() =~= logs);
    }
}

} // verus!
