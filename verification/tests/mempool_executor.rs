use alloy::network::TransactionBuilder;
use alloy::primitives::{Address, U256};
use alloy::rpc::types::serde_helpers::WithOtherFields;
use alloy::rpc::types::TransactionRequest;
use artemis_core::executors::mempool_executor::{
    ExecuteError, Execution, GasBidInfo, MempoolExecutor, NextStep, NodeReply, SubmitTxToMempool,
};

/// Feeds `replies` to an execution of `action` and collects the steps.
fn run(
    action: SubmitTxToMempool<&'static str>,
    replies: Vec<NodeReply<&'static str>>,
) -> (Execution<&'static str>, Vec<NextStep<&'static str, &'static str>>) {
    let mut execution = MempoolExecutor::new().execute(action);
    let mut steps = Vec::new();
    for reply in replies {
        assert!(execution.accepts(&reply));
        let (next, step) = execution.step(reply);
        execution = next;
        steps.push(step);
    }
    (execution, steps)
}

fn sends(steps: &[NextStep<&'static str, &'static str>]) -> usize {
    steps.iter().filter(|step| matches!(step, NextStep::SendTransaction { .. })).count()
}

fn price_fetches(steps: &[NextStep<&'static str, &'static str>]) -> usize {
    steps.iter().filter(|step| matches!(step, NextStep::GetGasPrice)).count()
}

/// The mempool executor sends the request, once, at the node's gas price.
#[test]
fn test_mempool_executor_sends_tx_simple() {
    let mempool_executor = MempoolExecutor::new();

    let account = Address::repeat_byte(0x11);
    let value = U256::from(42);
    let gas_price = 100000000000000000_u128;
    let tx = TransactionRequest::default()
        .with_to(account)
        .with_from(account)
        .with_value(value)
        .with_gas_price(gas_price);
    let action = SubmitTxToMempool { tx: WithOtherFields::new(tx.clone()), gas_bid_info: None };

    let execution = mempool_executor.execute(action);
    assert_eq!(execution.tx(), Some(&WithOtherFields::new(tx.clone())));
    let (execution, step) = execution.step::<String>(NodeReply::GasEstimate(Ok(21_000)));
    assert_eq!(step, NextStep::GetGasPrice);
    let (execution, step) = execution.step::<String>(NodeReply::GasPrice(Ok(2_000_000_000)));
    let mut count = 0;
    match step {
        NextStep::SendTransaction { tx: mut sent, gas_price } => {
            assert_eq!(gas_price, 2_000_000_000);
            assert_eq!(sent, WithOtherFields::new(tx));
            sent.set_gas_price(gas_price);
            assert_eq!(sent.gas_price, Some(2_000_000_000));
            assert_eq!(sent.value, Some(value));
            count += 1;
        }
        other => panic!("expected a submission, got {:?}", other),
    }
    let (execution, step) = execution.step::<String>(NodeReply::Sent(Ok(())));
    assert_eq!(step, NextStep::Return(Ok(())));
    assert_eq!(execution, Execution::Finished);
    assert_eq!(count, 1);
}

#[test]
fn execute_starts_with_the_gas_estimate() {
    let info = GasBidInfo { total_profit: 1000, bid_percentage: 50 };
    let execution =
        MempoolExecutor::new().execute(SubmitTxToMempool { tx: "tx", gas_bid_info: Some(info) });
    assert_eq!(execution, Execution::EstimatingGas { tx: "tx", gas_bid_info: Some(info) });
    assert_eq!(execution.tx(), Some(&"tx"));
    assert!(execution.accepts(&NodeReply::<&str>::GasEstimate(Ok(100))));
    assert!(execution.accepts(&NodeReply::GasEstimate(Err("down"))));
    assert!(!execution.accepts(&NodeReply::<&str>::GasPrice(Ok(1))));
    assert!(!execution.accepts(&NodeReply::<&str>::Sent(Ok(()))));
}

#[test]
fn bid_path_prices_from_the_estimate() {
    let info = GasBidInfo { total_profit: 1000, bid_percentage: 50 };
    let (execution, steps) = run(
        SubmitTxToMempool { tx: "tx", gas_bid_info: Some(info) },
        vec![NodeReply::GasEstimate(Ok(100)), NodeReply::Sent(Ok(()))],
    );
    assert_eq!(
        steps,
        vec![NextStep::SendTransaction { tx: "tx", gas_price: 5 }, NextStep::Return(Ok(()))]
    );
    assert_eq!(execution, Execution::Finished);
    assert_eq!(price_fetches(&steps), 0);
    assert_eq!(sends(&steps), 1);
}

#[test]
fn full_bid_sends_at_breakeven() {
    let info = GasBidInfo { total_profit: 1000, bid_percentage: 100 };
    let (_, steps) = run(
        SubmitTxToMempool { tx: "tx", gas_bid_info: Some(info) },
        vec![NodeReply::GasEstimate(Ok(100))],
    );
    assert_eq!(steps, vec![NextStep::SendTransaction { tx: "tx", gas_price: 10 }]);
}

#[test]
fn truncated_bid_sends_at_zero() {
    let info = GasBidInfo { total_profit: 100, bid_percentage: 25 };
    let (_, steps) = run(
        SubmitTxToMempool { tx: "tx", gas_bid_info: Some(info) },
        vec![NodeReply::GasEstimate(Ok(50))],
    );
    assert_eq!(steps, vec![NextStep::SendTransaction { tx: "tx", gas_price: 0 }]);
}

#[test]
fn without_bid_the_node_price_is_fetched_once_and_used_verbatim() {
    let (execution, steps) = run(
        SubmitTxToMempool { tx: "tx", gas_bid_info: None },
        vec![
            NodeReply::GasEstimate(Ok(21_000)),
            NodeReply::GasPrice(Ok(123_456_789)),
            NodeReply::Sent(Ok(())),
        ],
    );
    assert_eq!(
        steps,
        vec![
            NextStep::GetGasPrice,
            NextStep::SendTransaction { tx: "tx", gas_price: 123_456_789 },
            NextStep::Return(Ok(())),
        ]
    );
    assert_eq!(execution, Execution::Finished);
    assert_eq!(price_fetches(&steps), 1);
    assert_eq!(sends(&steps), 1);
}

#[test]
fn without_bid_the_estimate_does_not_touch_the_price() {
    for gas_usage in [0u64, 1, 21_000, u64::MAX] {
        let (_, steps) = run(
            SubmitTxToMempool { tx: "tx", gas_bid_info: None },
            vec![NodeReply::GasEstimate(Ok(gas_usage)), NodeReply::GasPrice(Ok(u128::MAX))],
        );
        assert_eq!(
            steps,
            vec![
                NextStep::GetGasPrice,
                NextStep::SendTransaction { tx: "tx", gas_price: u128::MAX },
            ]
        );
    }
}

#[test]
fn failed_estimate_ends_the_call_without_a_send() {
    for gas_bid_info in [None, Some(GasBidInfo { total_profit: 1000, bid_percentage: 50 })] {
        let (execution, steps) = run(
            SubmitTxToMempool { tx: "tx", gas_bid_info },
            vec![NodeReply::GasEstimate(Err("no estimate"))],
        );
        assert_eq!(
            steps,
            vec![NextStep::Return(Err(ExecuteError::GasEstimationFailed("no estimate")))]
        );
        assert_eq!(execution, Execution::Finished);
        assert_eq!(sends(&steps), 0);
        assert_eq!(price_fetches(&steps), 0);
        assert!(!execution.accepts(&NodeReply::<&str>::Sent(Ok(()))));
        assert!(!execution.accepts(&NodeReply::<&str>::GasEstimate(Ok(1))));
        assert!(!execution.accepts(&NodeReply::<&str>::GasPrice(Ok(1))));
    }
}

#[test]
fn failed_price_fetch_ends_the_call_without_a_send() {
    let (execution, steps) = run(
        SubmitTxToMempool { tx: "tx", gas_bid_info: None },
        vec![NodeReply::GasEstimate(Ok(21_000)), NodeReply::GasPrice(Err("no price"))],
    );
    assert_eq!(
        steps,
        vec![
            NextStep::GetGasPrice,
            NextStep::Return(Err(ExecuteError::GasPriceFetchFailed("no price"))),
        ]
    );
    assert_eq!(execution, Execution::Finished);
    assert_eq!(sends(&steps), 0);
    assert!(!execution.accepts(&NodeReply::<&str>::Sent(Ok(()))));
}

#[test]
fn failed_send_is_reported() {
    let (execution, steps) = run(
        SubmitTxToMempool { tx: "tx", gas_bid_info: None },
        vec![
            NodeReply::GasEstimate(Ok(21_000)),
            NodeReply::GasPrice(Ok(7)),
            NodeReply::Sent(Err("rejected")),
        ],
    );
    assert_eq!(steps[2], NextStep::Return(Err(ExecuteError::SendFailed("rejected"))));
    assert_eq!(execution, Execution::Finished);
    assert_eq!(sends(&steps), 1);
}

#[test]
fn second_call_on_the_same_action_submits_again() {
    let executor = MempoolExecutor::new();
    let mut submissions = Vec::new();
    for _ in 0..2 {
        let action = SubmitTxToMempool { tx: "same nonce", gas_bid_info: None };
        let execution = executor.execute(action);
        let (execution, _) = execution.step::<&str>(NodeReply::GasEstimate(Ok(21_000)));
        let (execution, step) = execution.step::<&str>(NodeReply::GasPrice(Ok(9)));
        if let NextStep::SendTransaction { tx, gas_price } = step {
            submissions.push((tx, gas_price));
        }
        let (_, step) = execution.step::<&str>(NodeReply::Sent(Ok(())));
        assert_eq!(step, NextStep::Return(Ok(())));
    }
    assert_eq!(submissions, vec![("same nonce", 9), ("same nonce", 9)]);
}

#[test]
fn zero_estimate_is_not_accepted_where_a_bid_is_computed() {
    let info = GasBidInfo { total_profit: 1000, bid_percentage: 50 };
    let execution =
        MempoolExecutor::new().execute(SubmitTxToMempool { tx: "tx", gas_bid_info: Some(info) });
    assert!(!execution.accepts(&NodeReply::<&str>::GasEstimate(Ok(0))));
    assert!(execution.accepts(&NodeReply::<&str>::GasEstimate(Ok(1))));

    let execution = MempoolExecutor::new().execute(SubmitTxToMempool { tx: "tx", gas_bid_info: None });
    assert!(execution.accepts(&NodeReply::<&str>::GasEstimate(Ok(0))));
}

#[test]
fn request_is_held_until_it_is_handed_out() {
    let execution = MempoolExecutor::new().execute(SubmitTxToMempool { tx: 5u8, gas_bid_info: None });
    assert_eq!(execution.tx(), Some(&5));
    let (execution, _) = execution.step::<&str>(NodeReply::GasEstimate(Ok(1)));
    assert_eq!(execution, Execution::FetchingGasPrice { tx: 5 });
    assert_eq!(execution.tx(), Some(&5));
    let (execution, _) = execution.step::<&str>(NodeReply::GasPrice(Ok(1)));
    assert_eq!(execution, Execution::Sending);
    assert_eq!(execution.tx(), None);
    assert!(execution.accepts(&NodeReply::<&str>::Sent(Ok(()))));
    assert!(!execution.accepts(&NodeReply::<&str>::GasPrice(Ok(1))));
}

#[test]
fn error_contexts() {
    let estimate: ExecuteError<&str> = ExecuteError::GasEstimationFailed("a");
    let price: ExecuteError<&str> = ExecuteError::GasPriceFetchFailed("b");
    let send: ExecuteError<&str> = ExecuteError::SendFailed("c");
    assert_eq!(estimate.context(), Some("Error estimating gas usage: {}"));
    assert_eq!(price.context(), Some("Error getting gas price: {}"));
    assert_eq!(send.context(), None);
    assert_eq!(estimate.into_cause(), "a");
    assert_eq!(price.into_cause(), "b");
    assert_eq!(send.into_cause(), "c");
}
