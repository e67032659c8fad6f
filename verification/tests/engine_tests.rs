use prost::Message;
use puppeteer::answers::ResponseAnswer;
use puppeteer::engine::{Config, Fee, Puppeteer, ResponseHook, SubmissionRequest};
use puppeteer::errors::PuppeteerError;
use puppeteer::ica::IcaLifecycle;
use puppeteer::registry::QueryValue;
use puppeteer::slot::TxStatus;
use puppeteer::types::{Coin, Transaction};

fn test_config() -> Config {
    Config {
        connection_id: "connection-0".to_string(),
        port_id: "transfer".to_string(),
        update_period: 10,
        remote_denom: "stake".to_string(),
        allowed_senders: vec!["core".to_string()],
        transfer_channel_id: "channel-0".to_string(),
    }
}

fn empty_fee() -> Fee {
    Fee { recv_fee: vec![], ack_fee: vec![], timeout_fee: vec![] }
}

fn registered_engine() -> Puppeteer {
    let mut p = Puppeteer::new();
    let config = test_config();
    p.begin_registration(&config).unwrap();
    p.confirm_registration("cosmos1ica".to_string(), 1).unwrap();
    p
}

fn delegate_batch() -> Transaction {
    Transaction::Delegate {
        interchain_account_id: "puppeteer".to_string(),
        denom: "stake".to_string(),
        items: vec![("valX".to_string(), 100u128)],
    }
}

fn delegate_ack_payload() -> Vec<u8> {
    #[allow(deprecated)]
    let msg_data = cosmos_sdk_proto::cosmos::base::abci::v1beta1::TxMsgData {
        data: vec![cosmos_sdk_proto::cosmos::base::abci::v1beta1::MsgData {
            msg_type: "/cosmos.staking.v1beta1.MsgDelegate".to_string(),
            data: vec![],
        }],
        msg_responses: vec![],
    };
    msg_data.encode_to_vec()
}

fn submit_ack_bytes(sequence_id: u64) -> Vec<u8> {
    let resp = neutron_sdk::bindings::msg::MsgSubmitTxResponse {
        sequence_id,
        channel: "channel-3".to_string(),
    };
    serde_json_wasm::to_vec(&resp).unwrap()
}

fn register_ack_bytes(id: u64) -> Vec<u8> {
    let resp = neutron_sdk::bindings::msg::MsgRegisterInterchainQueryResponse { id };
    serde_json_wasm::to_vec(&resp).unwrap()
}

#[test]
fn submit_then_success_roundtrip() {
    let mut p = registered_engine();
    let config = test_config();
    let req = p
        .submit(&config, empty_fee(), "core", delegate_batch(), Some(60), "notify".to_string())
        .unwrap();
    match req {
        SubmissionRequest::Tx { connection_id, interchain_account_id, messages, timeout, .. } => {
            assert_eq!(connection_id, "connection-0");
            assert_eq!(interchain_account_id, "puppeteer");
            assert_eq!(timeout, 60);
            assert_eq!(messages.len(), 1);
            assert_eq!(messages[0].type_url, "/cosmos.staking.v1beta1.MsgDelegate");
            let decoded =
                cosmos_sdk_proto::cosmos::staking::v1beta1::MsgDelegate::decode(
                    messages[0].value.as_slice(),
                )
                .unwrap();
            assert_eq!(decoded.delegator_address, "cosmos1ica");
            assert_eq!(decoded.validator_address, "valX");
            let amount = decoded.amount.unwrap();
            assert_eq!(amount.denom, "stake");
            assert_eq!(amount.amount, "100");
        }
        _ => panic!("expected a transaction request"),
    }
    assert_eq!(p.tx_status(), TxStatus::Submitting);
    let (seq, channel) = p.on_submission_ack(&submit_ack_bytes(5)).unwrap();
    assert_eq!(seq, 5);
    assert_eq!(channel, "channel-3");
    assert_eq!(p.tx_status(), TxStatus::WaitingForAck);
    let n = p.resolve_success(Some(5), &delegate_ack_payload()).unwrap();
    assert_eq!(n.recipient, "notify");
    match n.hook {
        ResponseHook::Success { request_id, transaction, answers } => {
            assert_eq!(request_id, 5);
            assert_eq!(transaction, delegate_batch());
            assert_eq!(answers, vec![ResponseAnswer::Delegate]);
        }
        _ => panic!("expected a success hook"),
    }
    assert_eq!(p.tx_status(), TxStatus::Idle);
    // the notified party may submit again at once
    let again = p.submit(
        &config,
        empty_fee(),
        "core",
        delegate_batch(),
        None,
        "notify".to_string(),
    );
    assert!(again.is_ok());
}

#[test]
fn second_submit_fails_in_flight() {
    let mut p = registered_engine();
    let config = test_config();
    p.submit(&config, empty_fee(), "core", delegate_batch(), Some(60), "n".to_string())
        .unwrap();
    p.on_submission_ack(&submit_ack_bytes(7)).unwrap();
    assert_eq!(p.tx_status(), TxStatus::WaitingForAck);
    let second = p.submit(
        &config,
        empty_fee(),
        "core",
        delegate_batch(),
        Some(60),
        "n".to_string(),
    );
    assert_eq!(second.unwrap_err(), PuppeteerError::InFlight);
    assert_eq!(PuppeteerError::InFlight.message(), "transaction already in flight");
    assert_eq!(p.tx_status(), TxStatus::WaitingForAck);
}

#[test]
fn mismatched_sequence_is_rejected() {
    let mut p = registered_engine();
    let config = test_config();
    p.submit(&config, empty_fee(), "core", delegate_batch(), None, "n".to_string())
        .unwrap();
    p.on_submission_ack(&submit_ack_bytes(9)).unwrap();
    let wrong = p.resolve_success(Some(10), &delegate_ack_payload());
    assert_eq!(wrong.unwrap_err(), PuppeteerError::NoMatchingPendingTransaction);
    assert_eq!(p.tx_status(), TxStatus::WaitingForAck);
    let missing = p.resolve_error(None, "boom".to_string());
    assert_eq!(missing.unwrap_err(), PuppeteerError::NoMatchingPendingTransaction);
    assert_eq!(p.tx_status(), TxStatus::WaitingForAck);
    let right = p.resolve_error(Some(9), "boom".to_string());
    assert!(right.is_ok());
    assert_eq!(p.tx_status(), TxStatus::Idle);
}

#[test]
fn timeout_resets_slot_and_marks_account() {
    let mut p = registered_engine();
    let config = test_config();
    p.submit(&config, empty_fee(), "core", delegate_batch(), Some(60), "n".to_string())
        .unwrap();
    p.on_submission_ack(&submit_ack_bytes(3)).unwrap();
    let n = p.resolve_timeout(Some(3)).unwrap();
    assert_eq!(n.recipient, "n");
    match n.hook {
        ResponseHook::Error { request_id, details, .. } => {
            assert_eq!(request_id, 3);
            assert_eq!(details, "Timeout");
        }
        _ => panic!("expected an error hook"),
    }
    assert_eq!(p.tx_status(), TxStatus::Idle);
    assert_eq!(p.ica_lifecycle(), IcaLifecycle::Timeout);
}

#[test]
fn query_registration_and_delivery() {
    let mut p = registered_engine();
    let config = test_config();
    let req = p.register_balance_query(&config, "stake".to_string()).unwrap();
    assert_eq!(req.connection_id, "connection-0");
    assert_eq!(req.update_period, 10);
    let id = p
        .on_query_registered(&register_ack_bytes(7), puppeteer::types::QueryKind::Balance)
        .unwrap();
    assert_eq!(id, 7);
    let coins = vec![Coin { denom: "stake".to_string(), amount: 200 }];
    p.deliver_result(7, QueryValue::Balance(coins.clone()), 100).unwrap();
    let (cached, height) = p.balances();
    assert_eq!(cached, &coins);
    assert_eq!(height, 100);
    let unknown = p.deliver_result(9, QueryValue::Balance(coins.clone()), 100);
    assert_eq!(unknown.unwrap_err(), PuppeteerError::UnknownQueryId);
}

#[test]
fn same_delivery_twice_leaves_cache_unchanged() {
    let mut p = registered_engine();
    p.confirm_query(4, puppeteer::types::QueryKind::Balance).unwrap();
    let coins = vec![Coin { denom: "stake".to_string(), amount: 55 }];
    p.deliver_result(4, QueryValue::Balance(coins.clone()), 42).unwrap();
    let first = (p.balances().0.clone(), p.balances().1);
    p.deliver_result(4, QueryValue::Balance(coins.clone()), 42).unwrap();
    let second = (p.balances().0.clone(), p.balances().1);
    assert_eq!(first, second);
}

#[test]
fn later_delivery_wins_even_at_lower_height() {
    let mut p = registered_engine();
    p.confirm_query(4, puppeteer::types::QueryKind::Balance).unwrap();
    let newer = vec![Coin { denom: "stake".to_string(), amount: 90 }];
    let older = vec![Coin { denom: "stake".to_string(), amount: 10 }];
    p.deliver_result(4, QueryValue::Balance(newer), 100).unwrap();
    p.deliver_result(4, QueryValue::Balance(older.clone()), 50).unwrap();
    let (cached, height) = p.balances();
    assert_eq!(cached, &older);
    assert_eq!(height, 50);
}

#[test]
fn query_kind_mismatch_is_rejected() {
    let mut p = registered_engine();
    p.confirm_query(4, puppeteer::types::QueryKind::Balance).unwrap();
    // idempotent overwrite with the same kind
    assert!(p.confirm_query(4, puppeteer::types::QueryKind::Balance).is_ok());
    let again = p.confirm_query(4, puppeteer::types::QueryKind::Delegations);
    assert_eq!(again.unwrap_err(), PuppeteerError::QueryKindMismatch);
    let delivery = p.deliver_result(
        4,
        QueryValue::Delegations(vec![]),
        10,
    );
    assert_eq!(delivery.unwrap_err(), PuppeteerError::QueryKindMismatch);
}

#[test]
fn unauthorized_and_unready_submissions() {
    let mut p = Puppeteer::new();
    let config = test_config();
    let bad_sender = p.submit(
        &config,
        empty_fee(),
        "intruder",
        delegate_batch(),
        None,
        "n".to_string(),
    );
    assert_eq!(bad_sender.unwrap_err(), PuppeteerError::Unauthorized);
    let not_ready = p.submit(
        &config,
        empty_fee(),
        "core",
        delegate_batch(),
        None,
        "n".to_string(),
    );
    assert_eq!(not_ready.unwrap_err(), PuppeteerError::AccountNotReady);
}

#[test]
fn registration_lifecycle_errors() {
    let mut p = Puppeteer::new();
    let config = test_config();
    let early = p.confirm_registration("a".to_string(), 1);
    assert_eq!(early.unwrap_err(), PuppeteerError::RegistrationNotInProgress);
    p.begin_registration(&config).unwrap();
    let twice = p.begin_registration(&config);
    assert_eq!(twice.unwrap_err(), PuppeteerError::RegistrationNotAllowed);
    p.confirm_registration("a".to_string(), 1).unwrap();
    assert_eq!(p.ica_lifecycle(), IcaLifecycle::Registered);
    let after = p.begin_registration(&config);
    assert_eq!(after.unwrap_err(), PuppeteerError::RegistrationNotAllowed);
}

#[test]
fn local_ack_errors() {
    let mut p = registered_engine();
    let idle_ack = p.on_submission_ack(&submit_ack_bytes(1));
    assert_eq!(idle_ack.unwrap_err(), PuppeteerError::NotSubmitting);
    let config = test_config();
    p.submit(&config, empty_fee(), "core", delegate_batch(), None, "n".to_string())
        .unwrap();
    let garbage = p.on_submission_ack(b"not json");
    assert_eq!(garbage.unwrap_err(), PuppeteerError::MalformedAck);
    assert_eq!(p.tx_status(), TxStatus::Submitting);
    p.abort_submission().unwrap();
    assert_eq!(p.tx_status(), TxStatus::Idle);
}

#[test]
fn malformed_payload_after_match() {
    let mut p = registered_engine();
    let config = test_config();
    p.submit(&config, empty_fee(), "core", delegate_batch(), None, "n".to_string())
        .unwrap();
    p.on_submission_ack(&submit_ack_bytes(2)).unwrap();
    let r = p.resolve_success(Some(2), &[0xff, 0xff, 0xff]);
    assert_eq!(r.unwrap_err(), PuppeteerError::MalformedPayload);
    // the slot was reset before decoding, as on any matched terminal event
    assert_eq!(p.tx_status(), TxStatus::Idle);
}

#[test]
fn transfer_submission_picks_the_single_remote_coin() {
    let mut p = registered_engine();
    let config = test_config();
    let funds = vec![
        Coin { denom: "untrn".to_string(), amount: 1000 },
        Coin { denom: "stake".to_string(), amount: 5 },
    ];
    let req = p
        .submit_transfer(&config, empty_fee(), "core", funds, Some(30), "n".to_string())
        .unwrap();
    match req {
        SubmissionRequest::Transfer {
            source_port,
            source_channel,
            denom,
            amount,
            recipient,
            timeout,
            ..
        } => {
            assert_eq!(source_port, "transfer");
            assert_eq!(source_channel, "channel-0");
            assert_eq!(denom, "stake");
            assert_eq!(amount, 5);
            assert_eq!(recipient, "cosmos1ica");
            assert_eq!(timeout, 30);
        }
        _ => panic!("expected a transfer request"),
    }
    assert_eq!(p.tx_status(), TxStatus::Submitting);
    let (seq, _) = p.on_transfer_ack(&submit_ack_bytes(11)).unwrap();
    assert_eq!(seq, 11);
    let n = p.resolve_success(Some(11), &[]).unwrap();
    match n.hook {
        ResponseHook::Success { answers, .. } => {
            assert_eq!(answers, vec![ResponseAnswer::IbcTransfer]);
        }
        _ => panic!("expected a success hook"),
    }
}

#[test]
fn transfer_submission_funds_errors() {
    let mut p = registered_engine();
    let config = test_config();
    let only_local = vec![Coin { denom: "untrn".to_string(), amount: 1000 }];
    let none = p.submit_transfer(&config, empty_fee(), "core", only_local, None, "n".to_string());
    assert_eq!(none.unwrap_err(), PuppeteerError::NoTransferFunds);
    let two = vec![
        Coin { denom: "stake".to_string(), amount: 1 },
        Coin { denom: "atom".to_string(), amount: 2 },
    ];
    let many = p.submit_transfer(&config, empty_fee(), "core", two, None, "n".to_string());
    assert_eq!(many.unwrap_err(), PuppeteerError::MultipleTransferFunds);
    assert_eq!(p.tx_status(), TxStatus::Idle);
}

#[test]
fn dispatcher_routes_events() {
    let mut p = Puppeteer::new();
    let config = test_config();
    p.begin_registration(&config).unwrap();
    let opened = p.handle_event(puppeteer::engine::Event::ChannelOpened {
        handle: "cosmos1ica".to_string(),
        height: 4,
    });
    assert_eq!(opened.unwrap(), None);
    assert_eq!(p.ica_lifecycle(), IcaLifecycle::Registered);
    p.submit(&config, empty_fee(), "core", delegate_batch(), None, "n".to_string())
        .unwrap();
    p.on_submission_ack(&submit_ack_bytes(5)).unwrap();
    let resolved = p
        .handle_event(puppeteer::engine::Event::Response {
            sequence_id: Some(5),
            payload: delegate_ack_payload(),
        })
        .unwrap();
    assert!(resolved.is_some());
    assert_eq!(p.tx_status(), TxStatus::Idle);
    let spurious = p.handle_event(puppeteer::engine::Event::Timeout { sequence_id: Some(5) });
    assert_eq!(spurious.unwrap_err(), PuppeteerError::NoMatchingPendingTransaction);
}
