use prost::Message;
use puppeteer::answers::{decode_answer, decode_answers, decode_tx_msg_data, ResponseAnswer};
use puppeteer::codec::{
    begin_redelegate_bytes, coin_bytes, redeem_shares_bytes, tokenize_shares_bytes,
    withdraw_reward_bytes,
};
use puppeteer::types::{Coin, Timestamp};

fn vint(mut n: u64) -> Vec<u8> {
    let mut out = Vec::new();
    while n >= 128 {
        out.push(128 + (n % 128) as u8);
        n /= 128;
    }
    out.push(n as u8);
    out
}

fn str_field(no: u8, s: &str) -> Vec<u8> {
    let mut out = Vec::new();
    if !s.is_empty() {
        out.push(no * 8 + 2);
        out.extend_from_slice(&vint(s.len() as u64));
        out.extend_from_slice(s.as_bytes());
    }
    out
}

fn msg_field(no: u8, body: &[u8]) -> Vec<u8> {
    let mut out = Vec::new();
    out.push(no * 8 + 2);
    out.extend_from_slice(&vint(body.len() as u64));
    out.extend_from_slice(body);
    out
}

fn uint_field(no: u8, v: u64) -> Vec<u8> {
    let mut out = Vec::new();
    if v != 0 {
        out.push(no * 8);
        out.extend_from_slice(&vint(v));
    }
    out
}

fn timestamp_fixture(seconds: u64, nanos: u64) -> Vec<u8> {
    let mut out = uint_field(1, seconds);
    out.extend_from_slice(&uint_field(2, nanos));
    out
}

fn coin_fixture(denom: &str, amount: &str) -> Vec<u8> {
    let mut out = str_field(1, denom);
    out.extend_from_slice(&str_field(2, amount));
    out
}

#[test]
fn delegate_answer_from_empty_payload() {
    let a = decode_answer("/cosmos.staking.v1beta1.MsgDelegate", &[]);
    assert_eq!(a, ResponseAnswer::Delegate);
}

#[test]
fn undelegate_answer_carries_completion_time() {
    let body = msg_field(1, &timestamp_fixture(1700000000, 5));
    let a = decode_answer("/cosmos.staking.v1beta1.MsgUndelegate", &body);
    assert_eq!(
        a,
        ResponseAnswer::Undelegate {
            completion_time: Some(Timestamp { seconds: 1700000000, nanos: 5 }),
        }
    );
}

#[test]
fn redelegate_answer_carries_completion_time() {
    let body = msg_field(1, &timestamp_fixture(42, 0));
    let a = decode_answer("/cosmos.staking.v1beta1.MsgBeginRedelegate", &body);
    assert_eq!(
        a,
        ResponseAnswer::BeginRedelegate {
            completion_time: Some(Timestamp { seconds: 42, nanos: 0 }),
        }
    );
}

#[test]
fn tokenize_answer_carries_amount() {
    let body = msg_field(1, &coin_fixture("stake", "123"));
    let a = decode_answer("/cosmos.staking.v1beta1.MsgTokenizeShares", &body);
    assert_eq!(
        a,
        ResponseAnswer::TokenizeShares {
            amount: Some(Coin { denom: "stake".to_string(), amount: 123 }),
        }
    );
}

#[test]
fn redeem_answer_carries_amount() {
    let body = msg_field(1, &coin_fixture("factory/share", "999999999999"));
    let a = decode_answer("/cosmos.staking.v1beta1.MsgRedeemTokensForShares", &body);
    assert_eq!(
        a,
        ResponseAnswer::RedeemShares {
            amount: Some(Coin { denom: "factory/share".to_string(), amount: 999999999999 }),
        }
    );
}

#[test]
fn unrecognized_tag_yields_unknown() {
    let a = decode_answer("/cosmos.gov.v1beta1.MsgVote", &[]);
    assert_eq!(a, ResponseAnswer::Unknown);
}

#[test]
fn undecodable_payload_yields_unknown_without_failing_the_batch() {
    // a truncated varint under a recognized tag
    let bad = vec![0x08u8];
    let a = decode_answer("/cosmos.staking.v1beta1.MsgUndelegate", &bad);
    assert_eq!(a, ResponseAnswer::Unknown);
    // an amount that overflows a u128 is undecodable for its position
    let body = msg_field(1, &coin_fixture("stake", "340282366920938463463374607431768211456"));
    let b = decode_answer("/cosmos.staking.v1beta1.MsgTokenizeShares", &body);
    assert_eq!(b, ResponseAnswer::Unknown);
}

#[test]
fn invalid_utf8_denomination_is_undecodable() {
    let mut coin = Vec::new();
    coin.push(0x0au8);
    coin.push(2u8);
    coin.extend_from_slice(&[0xC3, 0x28]); // not valid UTF-8
    coin.extend_from_slice(&str_field(2, "5"));
    let body = msg_field(1, &coin);
    let a = decode_answer("/cosmos.staking.v1beta1.MsgTokenizeShares", &body);
    assert_eq!(a, ResponseAnswer::Unknown);
}

#[test]
fn batched_answers_keep_positions() {
    #[allow(deprecated)]
    let payload = cosmos_sdk_proto::cosmos::base::abci::v1beta1::TxMsgData {
        data: vec![
            cosmos_sdk_proto::cosmos::base::abci::v1beta1::MsgData {
                msg_type: "/cosmos.bank.v1beta1.MsgSend".to_string(),
                data: vec![],
            },
            cosmos_sdk_proto::cosmos::base::abci::v1beta1::MsgData {
                msg_type: "/cosmos.staking.v1beta1.MsgUndelegate".to_string(),
                data: msg_field(1, &timestamp_fixture(9, 0)),
            },
        ],
        msg_responses: vec![],
    }
    .encode_to_vec();
    let items = decode_tx_msg_data(&payload).unwrap();
    assert_eq!(items.len(), 2);
    let answers = decode_answers(&items);
    assert_eq!(
        answers,
        vec![
            ResponseAnswer::Unknown,
            ResponseAnswer::Undelegate {
                completion_time: Some(Timestamp { seconds: 9, nanos: 0 }),
            },
        ]
    );
}

#[test]
fn garbage_acknowledgement_is_refused() {
    assert!(decode_tx_msg_data(&[0xff, 0xff]).is_none());
}

#[test]
fn redelegate_request_bytes_decode_under_prost() {
    let bytes = begin_redelegate_bytes("cosmos1ica", "valA", "valB", "stake", 700);
    let decoded = cosmos_sdk_proto::cosmos::staking::v1beta1::MsgBeginRedelegate::decode(
        bytes.as_slice(),
    )
    .unwrap();
    assert_eq!(decoded.delegator_address, "cosmos1ica");
    assert_eq!(decoded.validator_src_address, "valA");
    assert_eq!(decoded.validator_dst_address, "valB");
    let amount = decoded.amount.unwrap();
    assert_eq!(amount.denom, "stake");
    assert_eq!(amount.amount, "700");
}

#[test]
fn withdraw_reward_request_bytes_decode_under_prost() {
    let bytes = withdraw_reward_bytes("cosmos1ica", "valC");
    let decoded =
        cosmos_sdk_proto::cosmos::distribution::v1beta1::MsgWithdrawDelegatorReward::decode(
            bytes.as_slice(),
        )
        .unwrap();
    assert_eq!(decoded.delegator_address, "cosmos1ica");
    assert_eq!(decoded.validator_address, "valC");
}

#[test]
fn tokenize_and_redeem_request_bytes() {
    let coin = coin_fixture("stake", "50");
    let mut expected = str_field(1, "cosmos1ica");
    expected.extend_from_slice(&str_field(2, "valA"));
    expected.extend_from_slice(&msg_field(3, &coin));
    expected.extend_from_slice(&str_field(4, "cosmos1ica"));
    assert_eq!(
        tokenize_shares_bytes("cosmos1ica", "valA", "stake", 50, "cosmos1ica"),
        expected
    );

    let mut expected = str_field(1, "cosmos1ica");
    expected.extend_from_slice(&msg_field(2, &coin_fixture("share", "7")));
    assert_eq!(redeem_shares_bytes("cosmos1ica", "share", 7), expected);
}

#[test]
fn coin_message_bytes() {
    assert_eq!(coin_bytes("stake", 123), coin_fixture("stake", "123"));
    // the empty denomination is omitted, the zero amount is written out
    assert_eq!(coin_bytes("", 0), str_field(2, "0"));
}
