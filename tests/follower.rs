use slot_follower::harvest::{
    Action, CallFailure, Command, Event, Fault, Harvester, Phase, Report, Target, RETRY_DELAY_MS,
};
use slot_follower::rpc::{
    BlockConfig, BlockOutcome, JsonRpcError, JsonRpcRequest, JsonRpcResponse, Params,
    BLOCK_NOT_AVAILABLE, BLOCK_SKIPPED,
};

fn remote(code: i64, message: &str) -> JsonRpcError {
    JsonRpcError { code, message: message.to_string() }
}

fn block_event(outcome: BlockOutcome) -> Event {
    Event::Block(outcome)
}

fn frontier(slot: u64) -> Event {
    Event::Frontier(JsonRpcResponse {
        jsonrpc: "2.0".to_string(),
        id: 1,
        result: Some(slot),
        error: None,
    })
}

fn fetch_at(slot: u64, delay_ms: u64) -> Action {
    Action::Call { target: Target::Block { slot }, delay_ms }
}

fn fetching(cursor: u64) -> Harvester {
    Harvester { phase: Phase::Fetching { cursor } }
}

fn block_value(text: &str) -> JsonRpcResponse<serde_json::Value> {
    JsonRpcResponse {
        jsonrpc: "2.0".to_string(),
        id: 2,
        result: Some(serde_json::from_str(text).unwrap()),
        error: None,
    }
}

#[test]
fn scenario_from_frontier_to_end_of_data() {
    let mut h = Harvester::new();
    assert_eq!(Harvester::first_call(), Action::Call { target: Target::Frontier, delay_ms: 0 });

    let c = h.step(frontier(1000));
    assert_eq!(c.report, Some(Report::Starting { slot: 1000 }));
    assert_eq!(c.action, fetch_at(1000, 0));

    let c = h.step(block_event(BlockOutcome::Transactions(3)));
    assert_eq!(c.report, Some(Report::Fetched { slot: 1000, tx_count: 3 }));
    assert_eq!(c.action, fetch_at(1001, 0));

    let c = h.step(block_event(BlockOutcome::Remote(remote(-32007, "skipped"))));
    assert_eq!(c.report, Some(Report::Skipped { slot: 1001 }));
    assert_eq!(c.action, fetch_at(1002, 0));

    let c = h.step(block_event(BlockOutcome::Remote(remote(-32004, "not available"))));
    assert_eq!(c.report, None);
    assert_eq!(c.action, fetch_at(1002, 500));

    let c = h.step(block_event(BlockOutcome::Transactions(0)));
    assert_eq!(c.report, Some(Report::Fetched { slot: 1002, tx_count: 0 }));
    assert_eq!(c.action, fetch_at(1003, 0));

    let c = h.step(block_event(BlockOutcome::NoResult));
    assert_eq!(c.report, Some(Report::NoBlockData { slot: 1003 }));
    assert_eq!(c.action, Action::Finish);
    assert_eq!(h.phase, Phase::Terminated);
}

#[test]
fn transport_failure_at_start_stops_before_any_fetch() {
    let mut h = Harvester::new();
    let c = h.step(Event::Failure(CallFailure::Transport));
    assert_eq!(c, Command { report: None, action: Action::Abort(Fault::Call(CallFailure::Transport)) });
    assert_eq!(h.phase, Phase::Terminated);
}

#[test]
fn not_produced_retries_same_slot_each_time() {
    let mut h = fetching(77);
    for _ in 0..5 {
        let c = h.step(block_event(BlockOutcome::Remote(remote(BLOCK_NOT_AVAILABLE, "later"))));
        assert_eq!(c.report, None);
        assert_eq!(c.action, fetch_at(77, RETRY_DELAY_MS));
        assert_eq!(h.phase, Phase::Fetching { cursor: 77 });
    }
    assert_eq!(RETRY_DELAY_MS, 500);
}

#[test]
fn skipped_slot_is_reported_and_passed() {
    let mut h = fetching(41);
    let c = h.step(block_event(BlockOutcome::Remote(remote(BLOCK_SKIPPED, "skipped"))));
    assert_eq!(c.report, Some(Report::Skipped { slot: 41 }));
    assert_eq!(c.action, fetch_at(42, 0));
    assert_eq!(h.phase, Phase::Fetching { cursor: 42 });
}

#[test]
fn fetched_block_reports_count_and_moves_on() {
    let mut h = fetching(9);
    let c = h.step(block_event(BlockOutcome::Transactions(12)));
    assert_eq!(c.report, Some(Report::Fetched { slot: 9, tx_count: 12 }));
    assert_eq!(c.action, fetch_at(10, 0));
}

#[test]
fn first_block_call_uses_frontier() {
    let mut h = Harvester::new();
    let c = h.step(frontier(5));
    assert_eq!(h.phase, Phase::Fetching { cursor: 5 });
    assert_eq!(c.action, fetch_at(5, 0));
}

#[test]
fn same_response_same_decision_at_any_slot() {
    for slot in [0u64, 3, 1_000_000] {
        let mut h = fetching(slot);
        let c = h.step(block_event(BlockOutcome::Remote(remote(BLOCK_NOT_AVAILABLE, "x"))));
        assert_eq!(c.action, fetch_at(slot, 500));
        let c = h.step(block_event(BlockOutcome::Remote(remote(BLOCK_SKIPPED, "x"))));
        assert_eq!(c.action, fetch_at(slot + 1, 0));
        let c = h.step(block_event(BlockOutcome::Transactions(2)));
        assert_eq!(c.action, fetch_at(slot + 2, 0));
        let c = h.step(block_event(BlockOutcome::NoTransactions));
        assert_eq!(c.action, Action::Finish);
    }
}

#[test]
fn missing_transactions_ends_and_nothing_follows() {
    let mut h = fetching(300);
    let c = h.step(block_event(BlockOutcome::NoTransactions));
    assert_eq!(c.report, Some(Report::NoTransactions { slot: 300 }));
    assert_eq!(c.action, Action::Finish);
    let c = h.step(block_event(BlockOutcome::Transactions(1)));
    assert_eq!(c.action, Action::Abort(Fault::Unexpected));
    assert_eq!(h.phase, Phase::Terminated);
}

#[test]
fn other_remote_error_is_reported_and_retried_at_once() {
    let mut h = fetching(8);
    let c = h.step(block_event(BlockOutcome::Remote(remote(-32600, "invalid request"))));
    assert_eq!(
        c.report,
        Some(Report::RemoteError { code: -32600, message: "invalid request".to_string() })
    );
    assert_eq!(c.action, fetch_at(8, 0));
    assert_eq!(h.phase, Phase::Fetching { cursor: 8 });
}

#[test]
fn frontier_error_aborts() {
    let mut h = Harvester::new();
    let c = h.step(Event::Frontier(JsonRpcResponse {
        jsonrpc: "2.0".to_string(),
        id: 1,
        result: None,
        error: Some(remote(-32000, "down")),
    }));
    assert_eq!(c.action, Action::Abort(Fault::Remote(remote(-32000, "down"))));
    assert_eq!(h.phase, Phase::Terminated);
}

#[test]
fn frontier_without_result_aborts() {
    let mut h = Harvester::new();
    let c = h.step(Event::Frontier(JsonRpcResponse {
        jsonrpc: "2.0".to_string(),
        id: 1,
        result: None,
        error: None,
    }));
    assert_eq!(c.action, Action::Abort(Fault::MissingFrontier));
}

#[test]
fn decode_failure_while_fetching_aborts() {
    let mut h = fetching(4);
    let c = h.step(Event::Failure(CallFailure::Decode));
    assert_eq!(c.action, Action::Abort(Fault::Call(CallFailure::Decode)));
    assert_eq!(h.phase, Phase::Terminated);
}

#[test]
fn cursor_at_largest_slot_cannot_advance() {
    let mut h = fetching(u64::MAX);
    let c = h.step(block_event(BlockOutcome::Transactions(1)));
    assert_eq!(c.report, Some(Report::Fetched { slot: u64::MAX, tx_count: 1 }));
    assert_eq!(c.action, Action::Abort(Fault::CursorOverflow));
}

#[test]
fn block_event_before_frontier_is_unexpected() {
    let mut h = Harvester::new();
    let c = h.step(block_event(BlockOutcome::NoResult));
    assert_eq!(c.action, Action::Abort(Fault::Unexpected));
}

#[test]
fn frontier_request_shape() {
    let r = Target::Frontier.request();
    assert_eq!(r.jsonrpc, "2.0");
    assert_eq!(r.id, 1);
    assert_eq!(r.method, "getSlot");
    assert_eq!(r.params, Params::Empty);
}

#[test]
fn block_request_shape() {
    let r = Target::Block { slot: 1234 }.request();
    assert_eq!(r.jsonrpc, "2.0");
    assert_eq!(r.id, 2);
    assert_eq!(r.method, "getBlock");
    assert_eq!(
        r.params,
        Params::Block {
            slot: 1234,
            config: BlockConfig {
                encoding: "json".to_string(),
                max_supported_transaction_version: 0,
                transaction_details: "full".to_string(),
                rewards: false,
            },
        }
    );
}

#[test]
fn new_request_keeps_arguments() {
    let r = JsonRpcRequest::new(7, "getHealth", Params::Empty);
    assert_eq!(r.jsonrpc, "2.0");
    assert_eq!(r.id, 7);
    assert_eq!(r.method, "getHealth");
}

#[test]
fn response_with_transactions_counts_them() {
    let o = BlockOutcome::from_response(block_value(r#"{"blockhash":"x","transactions":[{},{},{}]}"#));
    assert_eq!(o, BlockOutcome::Transactions(3));
    let o = BlockOutcome::from_response(block_value(r#"{"transactions":[]}"#));
    assert_eq!(o, BlockOutcome::Transactions(0));
}

#[test]
fn response_without_transaction_list() {
    let o = BlockOutcome::from_response(block_value(r#"{"blockhash":"x"}"#));
    assert_eq!(o, BlockOutcome::NoTransactions);
    let o = BlockOutcome::from_response(block_value(r#"{"transactions":5}"#));
    assert_eq!(o, BlockOutcome::NoTransactions);
    let o = BlockOutcome::from_response(block_value(r#"[1,2]"#));
    assert_eq!(o, BlockOutcome::NoTransactions);
}

#[test]
fn response_without_result_or_error() {
    let o = BlockOutcome::from_response(JsonRpcResponse {
        jsonrpc: "2.0".to_string(),
        id: 2,
        result: None,
        error: None,
    });
    assert_eq!(o, BlockOutcome::NoResult);
}

#[test]
fn response_error_wins_over_result() {
    let mut resp = block_value(r#"{"transactions":[1]}"#);
    resp.error = Some(remote(BLOCK_SKIPPED, "skipped"));
    let o = BlockOutcome::from_response(resp);
    assert_eq!(o, BlockOutcome::Remote(remote(-32007, "skipped")));
}
