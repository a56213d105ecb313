use alloy::primitives::U128;
use std::ops::{Div, Mul};
use vstd::prelude::*;

verus! {

/// One more than the largest 128-bit unsigned value.
pub open spec fn two_pow_128() -> int {
    0x1_0000_0000_0000_0000_0000_0000_0000_0000int
}

/// Quotient of two 128-bit unsigned integers, computed by alloy's `U128`
/// (`Div::div` of `ruint::Uint<128, 2>`).
///
/// Trusted: the quotient is rounded down. The outside function panics on a
/// zero divisor, which the precondition leaves out. Every `u128` fits in a
/// `U128` and back, so neither conversion fails.
#[verifier::external_body]
fn uint128_div(numerator: u128, divisor: u128) -> (quotient: u128)
    requires
        divisor != 0,
    ensures
        quotient == numerator as int / divisor as int,
{
    U128::from(numerator).div(U128::from(divisor)).to::<u128>()
}

/// Product of two 128-bit unsigned integers, computed by alloy's `U128`
/// (`Mul::mul` of `ruint::Uint<128, 2>`).
///
/// Trusted: the product wraps around at 2^128. Every `u128` fits in a
/// `U128` and back, so neither conversion fails.
#[verifier::external_body]
fn uint128_mul(left: u128, right: u128) -> (product: u128)
    ensures
        product == (left as int * right as int) % two_pow_128(),
{
    U128::from(left).mul(U128::from(right)).to::<u128>()
}

/// Information about the gas bid for a transaction.
#[derive(Debug, Clone, Copy, PartialEq, Eq)]
pub struct GasBidInfo {
    /// Total profit expected from the opportunity.
    pub total_profit: u128,
    /// Whole-number percentage of the break-even gas price to bid.
    pub bid_percentage: u128,
}

impl GasBidInfo {
    /// Gas price at which the whole profit goes to fees.
    pub open spec fn spec_breakeven_gas_price(self, gas_usage: u64) -> int {
        self.total_profit as int / gas_usage as int
    }

    /// Gas price that corresponds to the bid percentage: the break-even
    /// price times the percentage, wrapped at 2^128, then divided by 100.
    pub open spec fn spec_bid_gas_price(self, gas_usage: u64) -> int {
        ((self.spec_breakeven_gas_price(gas_usage) * self.bid_percentage as int)
            % two_pow_128()) / 100
    }

    /// Gas price at which the whole profit goes to fees: `total_profit`
    /// divided by `gas_usage`, rounded down.
    pub fn breakeven_gas_price(&self, gas_usage: u64) -> (price: u128)
        requires
            gas_usage != 0,
        ensures
            price == self.spec_breakeven_gas_price(gas_usage),
    {
        uint128_div(self.total_profit, gas_usage as u128)
    }

    /// Gas price to bid: `bid_percentage` percent of the break-even price,
    /// multiplied before it is divided, each step rounded down.
    pub fn bid_gas_price(&self, gas_usage: u64) -> (price: u128)
        requires
            gas_usage != 0,
        ensures
            price == self.spec_bid_gas_price(gas_usage),
    {
        let breakeven: u128 = self.breakeven_gas_price(gas_usage);
        let scaled: u128 = uint128_mul(breakeven, self.bid_percentage);
        uint128_div(scaled, 100)
    }
}

/// Where the break-even price times the percentage fits in 128 bits, the
/// bid is the exact share: break-even price times percentage, divided by
/// 100 and rounded down.
pub proof fn lemma_bid_is_share_of_breakeven(info: GasBidInfo, gas_usage: u64)
    requires
        gas_usage != 0,
        info.spec_breakeven_gas_price(gas_usage) * info.bid_percentage <= u128::MAX,
    ensures
        info.spec_bid_gas_price(gas_usage) == (info.spec_breakeven_gas_price(gas_usage)
            * info.bid_percentage) / 100,
{
    let breakeven = info.spec_breakeven_gas_price(gas_usage);
    let product = breakeven * info.bid_percentage as int;
    assert(0 <= breakeven) by (nonlinear_arith)
        requires
            breakeven == info.total_profit as int / gas_usage as int,
            gas_usage > 0,
    ;
    assert(0 <= product) by (nonlinear_arith)
        requires
            product == breakeven * info.bid_percentage as int,
            0 <= breakeven,
    ;
    vstd::arithmetic::div_mod::lemma_small_mod(product as nat, two_pow_128() as nat);
}

/// A bid of 100 percent is the break-even price itself, where a hundred
/// times that price fits in 128 bits.
pub proof fn lemma_full_bid_is_breakeven(info: GasBidInfo, gas_usage: u64)
    requires
        gas_usage != 0,
        info.bid_percentage == 100,
        info.spec_breakeven_gas_price(gas_usage) * 100 <= u128::MAX,
    ensures
        info.spec_bid_gas_price(gas_usage) == info.spec_breakeven_gas_price(gas_usage),
{
    lemma_bid_is_share_of_breakeven(info, gas_usage);
}

/// A bid of at most 100 percent never exceeds the break-even price,
/// whether or not the multiplication wraps.
pub proof fn lemma_bid_at_most_breakeven(info: GasBidInfo, gas_usage: u64)
    requires
        gas_usage != 0,
        info.bid_percentage <= 100,
    ensures
        0 <= info.spec_bid_gas_price(gas_usage) <= info.spec_breakeven_gas_price(gas_usage),
{
    let breakeven = info.spec_breakeven_gas_price(gas_usage);
    let product = breakeven * info.bid_percentage as int;
    let wrapped = product % two_pow_128();
    assert(0 <= breakeven) by (nonlinear_arith)
        requires
            breakeven == info.total_profit as int / gas_usage as int,
            gas_usage > 0,
    ;
    assert(0 <= product <= breakeven * 100) by (nonlinear_arith)
        requires
            product == breakeven * info.bid_percentage as int,
            0 <= breakeven,
            info.bid_percentage <= 100,
    ;
    vstd::arithmetic::div_mod::lemma_mod_decreases(product as nat, two_pow_128() as nat);
    assert(0 <= wrapped <= product);
}

/// A bid of zero percent is a gas price of zero.
pub proof fn lemma_zero_percent_bids_nothing(info: GasBidInfo, gas_usage: u64)
    requires
        gas_usage != 0,
        info.bid_percentage == 0,
    ensures
        info.spec_bid_gas_price(gas_usage) == 0,
{
    let breakeven = info.spec_breakeven_gas_price(gas_usage);
    assert(breakeven * 0 == 0) by (nonlinear_arith);
}

/// The break-even price and the bid both fit in 128 bits.
pub proof fn lemma_gas_prices_fit(info: GasBidInfo, gas_usage: u64)
    requires
        gas_usage != 0,
    ensures
        0 <= info.spec_breakeven_gas_price(gas_usage) <= info.total_profit,
        0 <= info.spec_bid_gas_price(gas_usage) <= u128::MAX,
{
    let breakeven = info.spec_breakeven_gas_price(gas_usage);
    assert(0 <= breakeven <= info.total_profit) by (nonlinear_arith)
        requires
            breakeven == info.total_profit as int / gas_usage as int,
            gas_usage > 0,
    ;
    let product = breakeven * info.bid_percentage as int;
    vstd::arithmetic::div_mod::lemma_mod_bound(product, two_pow_128());
}

/// A transaction to submit to the mempool, with an optional gas bid.
///
/// `tx` is the transaction request, with every field but the gas price set
/// by the caller.
#[derive(Debug, Clone)]
pub struct SubmitTxToMempool<T> {
    pub tx: T,
    pub gas_bid_info: Option<GasBidInfo>,
}

/// Why an `execute` call failed, with the node's error.
#[derive(Debug, PartialEq, Eq)]
pub enum ExecuteError<E> {
    /// The node could not estimate the gas usage of the request.
    GasEstimationFailed(E),
    /// The node could not tell the current gas price.
    GasPriceFetchFailed(E),
    /// The node did not accept the request.
    SendFailed(E),
}

impl<E> ExecuteError<E> {
    /// The context that the error is reported with; a failed submission is
    /// reported by the node's error alone.
    pub fn context(&self) -> (text: Option<&'static str>)
        ensures
            text == match *self {
                ExecuteError::GasEstimationFailed(_) => Some("Error estimating gas usage: {}"),
                ExecuteError::GasPriceFetchFailed(_) => Some("Error getting gas price: {}"),
                ExecuteError::SendFailed(_) => None::<&'static str>,
            },
    {
        match self {
            ExecuteError::GasEstimationFailed(_) => Some("Error estimating gas usage: {}"),
            ExecuteError::GasPriceFetchFailed(_) => Some("Error getting gas price: {}"),
            ExecuteError::SendFailed(_) => None,
        }
    }

    /// The node's error.
    pub fn into_cause(self) -> (cause: E)
        ensures
            cause == match self {
                ExecuteError::GasEstimationFailed(e) => e,
                ExecuteError::GasPriceFetchFailed(e) => e,
                ExecuteError::SendFailed(e) => e,
            },
    {
        match self {
            ExecuteError::GasEstimationFailed(e) => e,
            ExecuteError::GasPriceFetchFailed(e) => e,
            ExecuteError::SendFailed(e) => e,
        }
    }
}

/// What the node answered to the call that the executor asked for last.
#[derive(Debug, PartialEq, Eq)]
pub enum NodeReply<E> {
    /// Answer to estimate-gas on the request.
    GasEstimate(Result<u64, E>),
    /// Answer to get-gas-price.
    GasPrice(Result<u128, E>),
    /// Answer to send-transaction; its submission handle is not kept.
    Sent(Result<(), E>),
}

/// What is to happen next in an `execute` call.
#[derive(Debug, PartialEq, Eq)]
pub enum NextStep<T, E> {
    /// Ask the node for the current gas price.
    GetGasPrice,
    /// Set the gas price of `tx` to `gas_price` and submit it to the node.
    SendTransaction { tx: T, gas_price: u128 },
    /// The call is over: hand this result to the caller.
    Return(Result<(), ExecuteError<E>>),
}

/// Where one `execute` call stands.
#[derive(Debug, PartialEq, Eq)]
pub enum Execution<T> {
    /// Waiting for the gas estimate of `tx`.
    EstimatingGas { tx: T, gas_bid_info: Option<GasBidInfo> },
    /// Waiting for the network's gas price.
    FetchingGasPrice { tx: T },
    /// The request has been handed out for submission.
    Sending,
    /// The result has been handed out; nothing more is asked of the node.
    Finished,
}

impl<E> NodeReply<E> {
    /// The gas estimate, or the fetch of the gas price, failed.
    pub open spec fn is_pricing_failure(self) -> bool {
        match self {
            NodeReply::GasEstimate(Err(_)) => true,
            NodeReply::GasPrice(Err(_)) => true,
            _ => false,
        }
    }

    /// The node gave a gas estimate.
    pub open spec fn is_estimate(self) -> bool {
        match self {
            NodeReply::GasEstimate(Ok(_)) => true,
            _ => false,
        }
    }
}

impl<T> Execution<T> {
    /// `reply` answers the call that this execution waits for. A gas
    /// estimate of zero has no break-even price, so it is not admitted
    /// where a bid is to be computed.
    pub open spec fn admits<E>(self, reply: NodeReply<E>) -> bool {
        match (self, reply) {
            (Execution::EstimatingGas { gas_bid_info, .. }, NodeReply::GasEstimate(estimate)) => {
                gas_bid_info is Some && estimate is Ok ==> estimate->Ok_0 != 0
            },
            (Execution::FetchingGasPrice { .. }, NodeReply::GasPrice(_)) => true,
            (Execution::Sending, NodeReply::Sent(_)) => true,
            _ => false,
        }
    }

    /// The state after `reply`, and what is to happen next. Meaningful
    /// where `self.admits(reply)`.
    pub open spec fn spec_step<E>(self, reply: NodeReply<E>) -> (Execution<T>, NextStep<T, E>) {
        match (self, reply) {
            (
                Execution::EstimatingGas { tx, gas_bid_info: Some(info) },
                NodeReply::GasEstimate(Ok(gas_usage)),
            ) => (
                Execution::Sending,
                NextStep::SendTransaction {
                    tx,
                    gas_price: info.spec_bid_gas_price(gas_usage) as u128,
                },
            ),
            (
                Execution::EstimatingGas { tx, gas_bid_info: None },
                NodeReply::GasEstimate(Ok(_)),
            ) => (Execution::FetchingGasPrice { tx }, NextStep::GetGasPrice),
            (Execution::EstimatingGas { .. }, NodeReply::GasEstimate(Err(e))) => (
                Execution::Finished,
                NextStep::Return(Err(ExecuteError::GasEstimationFailed(e))),
            ),
            (Execution::FetchingGasPrice { tx }, NodeReply::GasPrice(Ok(gas_price))) => (
                Execution::Sending,
                NextStep::SendTransaction { tx, gas_price },
            ),
            (Execution::FetchingGasPrice { .. }, NodeReply::GasPrice(Err(e))) => (
                Execution::Finished,
                NextStep::Return(Err(ExecuteError::GasPriceFetchFailed(e))),
            ),
            (Execution::Sending, NodeReply::Sent(Ok(_))) => (
                Execution::Finished,
                NextStep::Return(Ok(())),
            ),
            (Execution::Sending, NodeReply::Sent(Err(e))) => (
                Execution::Finished,
                NextStep::Return(Err(ExecuteError::SendFailed(e))),
            ),
            _ => arbitrary(),
        }
    }

    /// Whether `reply` answers the call that this execution waits for.
    pub fn accepts<E>(&self, reply: &NodeReply<E>) -> (ok: bool)
        ensures
            ok == self.admits(*reply),
    {
        match self {
            Execution::EstimatingGas { gas_bid_info, .. } => match reply {
                NodeReply::GasEstimate(Ok(gas_usage)) => gas_bid_info.is_none() || *gas_usage != 0,
                NodeReply::GasEstimate(Err(_)) => true,
                _ => false,
            },
            Execution::FetchingGasPrice { .. } => match reply {
                NodeReply::GasPrice(_) => true,
                _ => false,
            },
            Execution::Sending => match reply {
                NodeReply::Sent(_) => true,
                _ => false,
            },
            Execution::Finished => false,
        }
    }

    /// The request whose gas usage or gas price is still being determined.
    pub fn tx(&self) -> (pending: Option<&T>)
        ensures
            pending == match *self {
                Execution::EstimatingGas { tx, .. } => Some(&tx),
                Execution::FetchingGasPrice { tx } => Some(&tx),
                _ => None,
            },
    {
        match self {
            Execution::EstimatingGas { tx, .. } => Some(tx),
            Execution::FetchingGasPrice { tx } => Some(tx),
            _ => None,
        }
    }

    /// Takes the node's answer and decides what happens next.
    ///
    /// A failed estimate or a failed price fetch ends the call with its
    /// error; no submission follows. With a bid, the gas price is computed
    /// from the estimate; without one, the network's price is asked for and
    /// used as it comes.
    pub fn step<E>(self, reply: NodeReply<E>) -> (next: (Execution<T>, NextStep<T, E>))
        requires
            self.admits(reply),
        ensures
            next == self.spec_step(reply),
    {
        match self {
            Execution::EstimatingGas { tx, gas_bid_info } => match reply {
                NodeReply::GasEstimate(Ok(gas_usage)) => match gas_bid_info {
                    Some(info) => {
                        let gas_price: u128 = info.bid_gas_price(gas_usage);
                        (Execution::Sending, NextStep::SendTransaction { tx, gas_price })
                    },
                    None => (Execution::FetchingGasPrice { tx }, NextStep::GetGasPrice),
                },
                NodeReply::GasEstimate(Err(e)) => (
                    Execution::Finished,
                    NextStep::Return(Err(ExecuteError::GasEstimationFailed(e))),
                ),
                _ => unreached(),
            },
            Execution::FetchingGasPrice { tx } => match reply {
                NodeReply::GasPrice(Ok(gas_price)) => (
                    Execution::Sending,
                    NextStep::SendTransaction { tx, gas_price },
                ),
                NodeReply::GasPrice(Err(e)) => (
                    Execution::Finished,
                    NextStep::Return(Err(ExecuteError::GasPriceFetchFailed(e))),
                ),
                _ => unreached(),
            },
            Execution::Sending => match reply {
                NodeReply::Sent(Ok(_)) => (Execution::Finished, NextStep::Return(Ok(()))),
                NodeReply::Sent(Err(e)) => (
                    Execution::Finished,
                    NextStep::Return(Err(ExecuteError::SendFailed(e))),
                ),
                _ => unreached(),
            },
            Execution::Finished => unreached(),
        }
    }
}

impl<T> Execution<T> {
    /// Every reply of `replies`, taken in turn from this state, answers the
    /// call that the execution waits for at that point.
    pub open spec fn admits_all<E>(self, replies: Seq<NodeReply<E>>) -> bool
        decreases replies.len(),
    {
        replies.len() == 0 || (self.admits(replies[0]) && self.spec_step(
            replies[0],
        ).0.admits_all(replies.drop_first()))
    }

    /// What is to happen after each reply of `replies`, taken in turn from
    /// this state.
    pub open spec fn run<E>(self, replies: Seq<NodeReply<E>>) -> Seq<NextStep<T, E>>
        decreases replies.len(),
    {
        if replies.len() == 0 {
            Seq::empty()
        } else {
            seq![self.spec_step(replies[0]).1] + self.spec_step(replies[0]).0.run(
                replies.drop_first(),
            )
        }
    }

    /// The number of node calls that can still be answered from this state.
    pub open spec fn calls_left(self) -> nat {
        match self {
            Execution::EstimatingGas { gas_bid_info: None, .. } => 3,
            Execution::EstimatingGas { gas_bid_info: Some(_), .. } => 2,
            Execution::FetchingGasPrice { .. } => 2,
            Execution::Sending => 1,
            Execution::Finished => 0,
        }
    }
}

/// One step is answered per reply, and an execution takes at most as many
/// replies as it has node calls left: three without a bid, two with one.
pub proof fn lemma_run_is_bounded<T, E>(state: Execution<T>, replies: Seq<NodeReply<E>>)
    requires
        state.admits_all(replies),
    ensures
        state.run(replies).len() == replies.len(),
        replies.len() <= state.calls_left(),
    decreases replies.len(),
{
    if replies.len() > 0 {
        lemma_run_is_bounded(state.spec_step(replies[0]).0, replies.drop_first());
    }
}

/// The step after the reply at `at` is the step that the state reached by
/// the replies before it takes on that reply.
pub proof fn lemma_run_unfolds<T, E>(state: Execution<T>, replies: Seq<NodeReply<E>>, at: int)
    requires
        state.admits_all(replies),
        0 < at < replies.len(),
    ensures
        state.spec_step(replies[0]).0.admits_all(replies.drop_first()),
        state.run(replies)[at] == state.spec_step(replies[0]).0.run(replies.drop_first())[at - 1],
        state.run(replies)[0] == state.spec_step(replies[0]).1,
        replies.drop_first()[at - 1] == replies[at],
{
    lemma_run_is_bounded(state.spec_step(replies[0]).0, replies.drop_first());
}

/// No submission after a failure: where the gas estimate or the price
/// fetch fails, no step of the call is a send.
pub proof fn lemma_no_send_after_failure<T, E>(
    executor: MempoolExecutor,
    action: SubmitTxToMempool<T>,
    replies: Seq<NodeReply<E>>,
    failed: int,
)
    requires
        executor.spec_execute(action).admits_all(replies),
        0 <= failed < replies.len(),
        replies[failed].is_pricing_failure(),
    ensures
        forall|at: int|
            0 <= at < replies.len() ==> !(#[trigger] executor.spec_execute(action).run(
                replies,
            )[at] is SendTransaction),
{
    let start = executor.spec_execute(action);
    lemma_run_is_bounded(start, replies);
    let steps = start.run(replies);
    assert forall|at: int| 0 <= at < replies.len() implies !(#[trigger] steps[at]
        is SendTransaction) by {
        let second = start.spec_step(replies[0]).0;
        let rest = replies.drop_first();
        if replies.len() >= 2 {
            lemma_run_unfolds(start, replies, 1);
            if replies.len() >= 3 {
                lemma_run_unfolds(start, replies, 2);
                lemma_run_unfolds(second, rest, 1);
            }
        }
    }
}

/// A call hands its request out at most once, and its result last: after
/// the result no further reply is taken.
pub proof fn lemma_at_most_one_send<T, E>(
    executor: MempoolExecutor,
    action: SubmitTxToMempool<T>,
    replies: Seq<NodeReply<E>>,
)
    requires
        executor.spec_execute(action).admits_all(replies),
    ensures
        ({
            let steps = executor.spec_execute(action).run(replies);
            &&& forall|at: int, other: int|
                0 <= at < replies.len() && 0 <= other < replies.len()
                    && #[trigger] steps[at] is SendTransaction
                    && #[trigger] steps[other] is SendTransaction ==> at == other
            &&& forall|at: int|
                0 <= at < replies.len() && #[trigger] steps[at] is Return ==> at == replies.len()
                    - 1
        }),
{
    let start = executor.spec_execute(action);
    lemma_run_is_bounded(start, replies);
    if replies.len() >= 2 {
        lemma_run_unfolds(start, replies, 1);
        if replies.len() >= 3 {
            lemma_run_unfolds(start, replies, 2);
            lemma_run_unfolds(start.spec_step(replies[0]).0, replies.drop_first(), 1);
        }
    }
}

/// Without a bid, the network's gas price is asked for once, right after a
/// successful estimate, and a request is only ever sent with that price
/// as the node gave it.
pub proof fn lemma_market_price_asked_once_and_sent_verbatim<T, E>(
    executor: MempoolExecutor,
    tx: T,
    replies: Seq<NodeReply<E>>,
)
    requires
        executor.spec_execute(SubmitTxToMempool { tx, gas_bid_info: None }).admits_all(replies),
    ensures
        ({
            let steps = executor.spec_execute(SubmitTxToMempool { tx, gas_bid_info: None }).run(
                replies,
            );
            &&& forall|at: int|
                0 <= at < replies.len() && #[trigger] steps[at] is GetGasPrice ==> at == 0
            &&& replies.len() >= 1 && replies[0].is_estimate() ==> steps[0] is GetGasPrice
            &&& forall|at: int|
                0 <= at < replies.len() && #[trigger] steps[at] is SendTransaction ==> {
                    &&& at == 1
                    &&& steps[0] is GetGasPrice
                    &&& replies[1] matches NodeReply::GasPrice(Ok(gas_price))
                    &&& steps[1] == NextStep::<T, E>::SendTransaction { tx, gas_price }
                }
        }),
{
    let start = executor.spec_execute(SubmitTxToMempool { tx, gas_bid_info: None });
    lemma_run_is_bounded(start, replies);
    if replies.len() >= 2 {
        lemma_run_unfolds(start, replies, 1);
        if replies.len() >= 3 {
            lemma_run_unfolds(start, replies, 2);
            lemma_run_unfolds(start.spec_step(replies[0]).0, replies.drop_first(), 1);
        }
    }
}

/// With a bid, the network's gas price is never asked for: a request is
/// only ever sent right after the estimate, priced by the bid computed
/// from it.
pub proof fn lemma_bid_priced_from_estimate<T, E>(
    executor: MempoolExecutor,
    tx: T,
    info: GasBidInfo,
    replies: Seq<NodeReply<E>>,
)
    requires
        executor.spec_execute(SubmitTxToMempool { tx, gas_bid_info: Some(info) }).admits_all(
            replies,
        ),
    ensures
        ({
            let steps = executor.spec_execute(
                SubmitTxToMempool { tx, gas_bid_info: Some(info) },
            ).run(replies);
            &&& forall|at: int| 0 <= at < replies.len() ==> !(#[trigger] steps[at] is GetGasPrice)
            &&& forall|at: int|
                0 <= at < replies.len() && #[trigger] steps[at] is SendTransaction ==> {
                    &&& at == 0
                    &&& replies[0] matches NodeReply::GasEstimate(Ok(gas_usage))
                    &&& gas_usage != 0
                    &&& steps[0] == NextStep::<T, E>::SendTransaction {
                        tx,
                        gas_price: info.spec_bid_gas_price(gas_usage) as u128,
                    }
                }
        }),
{
    let start = executor.spec_execute(SubmitTxToMempool { tx, gas_bid_info: Some(info) });
    lemma_run_is_bounded(start, replies);
    if replies.len() >= 2 {
        lemma_run_unfolds(start, replies, 1);
    }
}

/// Nothing is kept between calls: a call that ends in success has
/// submitted the request of its action exactly once, as its step before
/// the last, and a further call on an equal action, by this or any other
/// executor, goes through the same steps and submits again.
pub proof fn lemma_each_call_submits_anew<T, E>(
    first: MempoolExecutor,
    second: MempoolExecutor,
    action: SubmitTxToMempool<T>,
    replies: Seq<NodeReply<E>>,
)
    requires
        first.spec_execute(action).admits_all(replies),
        replies.len() > 0,
        first.spec_execute(action).run(replies).last() == NextStep::<T, E>::Return(Ok(())),
    ensures
        second.spec_execute(action).admits_all(replies),
        second.spec_execute(action).run(replies) == first.spec_execute(action).run(replies),
        ({
            let steps = first.spec_execute(action).run(replies);
            let sent = replies.len() - 2;
            &&& 0 <= sent
            &&& steps[sent] matches NextStep::SendTransaction { tx, .. }
            &&& tx == action.tx
            &&& forall|at: int|
                0 <= at < replies.len() && #[trigger] steps[at] is SendTransaction ==> at == sent
        }),
{
    let start = first.spec_execute(action);
    lemma_run_is_bounded(start, replies);
    if replies.len() >= 2 {
        lemma_run_unfolds(start, replies, 1);
        if replies.len() >= 3 {
            lemma_run_unfolds(start, replies, 2);
            lemma_run_unfolds(start.spec_step(replies[0]).0, replies.drop_first(), 1);
        }
    }
}

/// An executor that sends transactions to the mempool.
#[derive(Debug, Clone, Copy)]
pub struct MempoolExecutor {}

impl MempoolExecutor {
    pub fn new() -> (executor: Self)
        ensures
            executor == (MempoolExecutor {  }),
    {
        MempoolExecutor {  }
    }

    /// The state in which `execute` starts on `action`.
    pub open spec fn spec_execute<T>(&self, action: SubmitTxToMempool<T>) -> Execution<T> {
        Execution::EstimatingGas { tx: action.tx, gas_bid_info: action.gas_bid_info }
    }

    /// Starts sending a transaction to the mempool: the gas usage of
    /// `action.tx` is to be estimated first.
    pub fn execute<T>(&self, action: SubmitTxToMempool<T>) -> (execution: Execution<T>)
        ensures
            execution == self.spec_execute(action),
    {
        Execution::EstimatingGas { tx: action.tx, gas_bid_info: action.gas_bid_info }
    }
}

} // verus!
