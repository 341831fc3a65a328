use relayer_order_api::handler::{
    step, Action, AmountSign, Event, Phase, QueueRecord, RequestError, RequestFlow, RpcMethod,
};
use relayer_order_api::hex_codec::HexError;
use relayer_order_api::rpc_types::ByteRec;

fn params(s: &str) -> Event {
    Event::Params(Ok(ByteRec { data: s.to_string() }))
}

fn record(topic: &str, key: &str) -> (String, String) {
    (topic.to_string(), key.to_string())
}

fn rec_of(r: &QueueRecord) -> (String, String) {
    (r.topic.clone(), r.key.clone())
}

/// Feeds `events` to a new request and collects the actions.
fn drive(m: RpcMethod, events: Vec<Event>) -> (RequestFlow, Vec<Action>) {
    let mut flow = RequestFlow::new(m);
    let mut actions = Vec::new();
    for e in events {
        let (next, a) = step(flow, e);
        flow = next;
        actions.push(a);
    }
    (flow, actions)
}

#[test]
fn trader_order_happy_path() {
    let (flow, actions) = drive(
        RpcMethod::CreateTraderOrder,
        vec![
            params("0102"),
            Event::Order(Ok(())),
            Event::Verification { outcome: Ok(()), now_micros: 5 },
            Event::TraderLimits { margin: AmountSign::Positive, leverage_within_limit: true },
            Event::ZkosTx(Ok(vec![0xab, 0x01])),
            Event::ResponseValue { outcome: Ok(()), now_micros: 1234 },
            Event::Submitted(Ok(())),
        ],
    );
    assert!(flow.is_done());
    assert!(matches!(&actions[0], Action::DecodeOrder(b) if *b == vec![1u8, 2u8]));
    assert!(matches!(actions[1], Action::Verify));
    assert!(matches!(actions[2], Action::CheckLimits));
    assert!(matches!(actions[3], Action::SerializeZkosTx));
    assert!(matches!(actions[4], Action::SerializeResponse));
    match &actions[5] {
        Action::Submit { record: r, zkos_tx } => {
            assert_eq!(rec_of(r), record("CLIENT-REQUEST", "CreateTraderOrder-1234"));
            assert_eq!(zkos_tx.as_deref(), Some("ab01"));
        }
        other => panic!("unexpected {:?}", other),
    }
    assert!(matches!(actions[6], Action::Accept));
}

#[test]
fn lend_order_happy_path_forwards_no_zkos_text() {
    let (flow, actions) = drive(
        RpcMethod::CreateLendOrder,
        vec![
            params("00"),
            Event::Order(Ok(())),
            Event::Verification { outcome: Ok(()), now_micros: 1 },
            Event::LendLimits { deposit: AmountSign::Positive, now_micros: 2 },
            Event::ResponseValue { outcome: Ok(()), now_micros: 77 },
            Event::Submitted(Ok(())),
        ],
    );
    assert!(flow.is_done());
    assert!(matches!(actions[2], Action::CheckLimits));
    assert!(matches!(actions[3], Action::SerializeResponse));
    match &actions[4] {
        Action::Submit { record: r, zkos_tx } => {
            assert_eq!(rec_of(r), record("CLIENT-REQUEST", "CreateLendOrder-77"));
            assert!(zkos_tx.is_none());
        }
        other => panic!("unexpected {:?}", other),
    }
    assert!(matches!(actions[5], Action::Accept));
}

#[test]
fn settle_and_cancel_skip_limits() {
    for (m, name) in [
        (RpcMethod::ExecuteTraderOrder, "ExecuteTraderOrder"),
        (RpcMethod::ExecuteLendOrder, "ExecuteLendOrder"),
        (RpcMethod::CancelTraderOrder, "CancelTraderOrder"),
    ] {
        let (flow, actions) = drive(
            m,
            vec![
                params("ff"),
                Event::Order(Ok(())),
                Event::Verification { outcome: Ok(()), now_micros: 3 },
                Event::ResponseValue { outcome: Ok(()), now_micros: 9 },
                Event::Submitted(Ok(())),
            ],
        );
        assert!(flow.is_done());
        assert!(matches!(actions[2], Action::SerializeResponse));
        match &actions[3] {
            Action::Submit { record: r, zkos_tx } => {
                assert_eq!(rec_of(r), record("CLIENT-REQUEST", &format!("{}-9", name)));
                assert!(zkos_tx.is_none());
            }
            other => panic!("unexpected {:?}", other),
        }
        assert!(matches!(actions[4], Action::Accept));
    }
}

#[test]
fn bad_params_are_refused_without_log() {
    let (flow, actions) = drive(
        RpcMethod::CreateTraderOrder,
        vec![Event::Params(Err("missing field `data`".to_string()))],
    );
    assert!(flow.is_done());
    match &actions[0] {
        Action::Reject { error: RequestError::InvalidParams(t), log: None } => {
            assert_eq!(t, "missing field `data`")
        }
        other => panic!("unexpected {:?}", other),
    }
}

#[test]
fn bad_hex_is_refused_without_log() {
    let (_, actions) = drive(RpcMethod::CreateLendOrder, vec![params("0x12")]);
    assert!(matches!(
        actions[0],
        Action::Reject {
            error: RequestError::InvalidHex(HexError::InvalidHexCharacter { c: 'x', index: 1 }),
            log: None
        }
    ));
    let (_, actions) = drive(RpcMethod::CreateLendOrder, vec![params("123")]);
    assert!(matches!(
        actions[0],
        Action::Reject { error: RequestError::InvalidHex(HexError::OddLength), log: None }
    ));
}

#[test]
fn undecodable_order_is_refused_without_log() {
    let (_, actions) = drive(
        RpcMethod::ExecuteLendOrder,
        vec![params("00"), Event::Order(Err("io error".to_string()))],
    );
    assert!(matches!(&actions[1], Action::Reject { error: RequestError::InvalidParams(t), log: None } if t == "io error"));
}

#[test]
fn failed_verification_is_logged() {
    let (flow, actions) = drive(
        RpcMethod::CancelTraderOrder,
        vec![
            params("00"),
            Event::Order(Ok(())),
            Event::Verification { outcome: Err("bad signature".to_string()), now_micros: 42 },
        ],
    );
    assert!(flow.is_done());
    match &actions[2] {
        Action::Reject { error: RequestError::InvalidParams(t), log: Some(r) } => {
            assert_eq!(t, "bad signature");
            assert_eq!(rec_of(r), record("CLIENT-FAILED-REQUEST", "CancelTraderOrderfailed-42"));
        }
        other => panic!("unexpected {:?}", other),
    }
}

fn trader_limits(margin: AmountSign, leverage_ok: bool) -> Action {
    let (flow, mut actions) = drive(
        RpcMethod::CreateTraderOrder,
        vec![
            params("00"),
            Event::Order(Ok(())),
            Event::Verification { outcome: Ok(()), now_micros: 1 },
            Event::TraderLimits { margin, leverage_within_limit: leverage_ok },
        ],
    );
    assert!(flow.is_done());
    actions.pop().unwrap()
}

#[test]
fn trader_limits_refusals() {
    for (margin, lev, margin_error) in [
        (AmountSign::NotPositive, true, true),
        (AmountSign::NotPositive, false, true),
        (AmountSign::Positive, false, false),
        (AmountSign::Unordered, true, false),
    ] {
        match trader_limits(margin, lev) {
            Action::Reject { error, log: Some(r) } => {
                assert_eq!(rec_of(&r), record("CLIENT-FAILED-REQUEST", "CreateTraderOrderfailed"));
                if margin_error {
                    assert!(matches!(error, RequestError::InvalidInitialMargin));
                } else {
                    assert!(matches!(error, RequestError::InvalidLeverage));
                }
            }
            other => panic!("unexpected {:?}", other),
        }
    }
}

#[test]
fn lend_deposit_refusal_is_logged() {
    for deposit in [AmountSign::NotPositive, AmountSign::Unordered] {
        let (flow, actions) = drive(
            RpcMethod::CreateLendOrder,
            vec![
                params("00"),
                Event::Order(Ok(())),
                Event::Verification { outcome: Ok(()), now_micros: 1 },
                Event::LendLimits { deposit, now_micros: 555 },
            ],
        );
        assert!(flow.is_done());
        match &actions[3] {
            Action::Reject { error: RequestError::InvalidDeposit, log: Some(r) } => {
                assert_eq!(rec_of(r), record("CLIENT-FAILED-REQUEST", "CreateLendOrderfailed-555"));
            }
            other => panic!("unexpected {:?}", other),
        }
    }
}

#[test]
fn late_failures_are_not_logged() {
    let (_, actions) = drive(
        RpcMethod::CreateTraderOrder,
        vec![
            params("00"),
            Event::Order(Ok(())),
            Event::Verification { outcome: Ok(()), now_micros: 1 },
            Event::TraderLimits { margin: AmountSign::Positive, leverage_within_limit: true },
            Event::ZkosTx(Err("size limit".to_string())),
        ],
    );
    assert!(matches!(&actions[4], Action::Reject { error: RequestError::TxSerialization(t), log: None } if t == "size limit"));

    let (_, actions) = drive(
        RpcMethod::ExecuteTraderOrder,
        vec![
            params("00"),
            Event::Order(Ok(())),
            Event::Verification { outcome: Ok(()), now_micros: 1 },
            Event::ResponseValue { outcome: Err("bad value".to_string()), now_micros: 2 },
        ],
    );
    assert!(matches!(&actions[3], Action::Reject { error: RequestError::ResponseSerialization(t), log: None } if t == "bad value"));

    let (flow, actions) = drive(
        RpcMethod::ExecuteTraderOrder,
        vec![
            params("00"),
            Event::Order(Ok(())),
            Event::Verification { outcome: Ok(()), now_micros: 1 },
            Event::ResponseValue { outcome: Ok(()), now_micros: 2 },
            Event::Submitted(Err("broker down".to_string())),
        ],
    );
    assert!(flow.is_done());
    assert!(matches!(&actions[4], Action::Reject { error: RequestError::QueueSend(t), log: None } if t == "broker down"));
}

#[test]
fn events_out_of_turn_change_nothing() {
    let (flow, actions) = drive(
        RpcMethod::ExecuteLendOrder,
        vec![
            Event::Order(Ok(())),
            Event::Submitted(Ok(())),
            Event::TraderLimits { margin: AmountSign::Positive, leverage_within_limit: true },
        ],
    );
    assert!(matches!(flow.phase, Phase::AwaitParams));
    assert!(actions.iter().all(|a| matches!(a, Action::Wait)));
    // A lend order ignores trader limits.
    let (flow, actions) = drive(
        RpcMethod::CreateLendOrder,
        vec![
            params("00"),
            Event::Order(Ok(())),
            Event::Verification { outcome: Ok(()), now_micros: 1 },
            Event::TraderLimits { margin: AmountSign::Positive, leverage_within_limit: true },
        ],
    );
    assert!(matches!(flow.phase, Phase::AwaitLimits));
    assert!(matches!(actions[3], Action::Wait));
}

#[test]
fn answered_request_stays_answered() {
    let (flow, actions) = drive(
        RpcMethod::CreateTraderOrder,
        vec![
            Event::Params(Err("x".to_string())),
            params("00"),
            Event::Order(Ok(())),
            Event::Submitted(Ok(())),
        ],
    );
    assert!(flow.is_done());
    let answers = actions
        .iter()
        .filter(|a| matches!(a, Action::Reject { .. } | Action::Accept))
        .count();
    assert_eq!(answers, 1);
    assert!(actions[1..].iter().all(|a| matches!(a, Action::Wait)));
}

#[test]
fn method_names() {
    assert_eq!(RpcMethod::CreateTraderOrder.name(), "CreateTraderOrder");
    assert_eq!(RpcMethod::CreateLendOrder.name(), "CreateLendOrder");
    assert_eq!(RpcMethod::ExecuteTraderOrder.name(), "ExecuteTraderOrder");
    assert_eq!(RpcMethod::ExecuteLendOrder.name(), "ExecuteLendOrder");
    assert_eq!(RpcMethod::CancelTraderOrder.name(), "CancelTraderOrder");
}

#[test]
fn zkos_text_decodes_back_to_the_transaction() {
    let tx = vec![0x00u8, 0x7f, 0x80, 0xff, 0x12];
    let (_, actions) = drive(
        RpcMethod::CreateTraderOrder,
        vec![
            params("00"),
            Event::Order(Ok(())),
            Event::Verification { outcome: Ok(()), now_micros: 1 },
            Event::TraderLimits { margin: AmountSign::Positive, leverage_within_limit: true },
            Event::ZkosTx(Ok(tx.clone())),
            Event::ResponseValue { outcome: Ok(()), now_micros: 2 },
        ],
    );
    match &actions[5] {
        Action::Submit { zkos_tx: Some(text), .. } => {
            assert_eq!(text, "007f80ff12");
            assert_eq!(
                relayer_order_api::hex_codec::decode_byte_rec(&ByteRec { data: text.clone() }),
                Ok(tx)
            );
            assert_eq!(
                relayer_order_api::json::failed_request_payload(text).unwrap(),
                b"\"007f80ff12\"".to_vec()
            );
        }
        other => panic!("unexpected {:?}", other),
    }
}
