use prost::Message;
use puppeteer::text::{format_dec_u128, parse_dec_u128};
use puppeteer::wire::{encode_msg_delegate, encode_msg_send, encode_msg_undelegate};

#[test]
fn delegate_wire_bytes_decode_under_prost() {
    let bytes = encode_msg_delegate("cosmos1ica", "valA", "stake", 100);
    let decoded =
        cosmos_sdk_proto::cosmos::staking::v1beta1::MsgDelegate::decode(bytes.as_slice()).unwrap();
    assert_eq!(decoded.delegator_address, "cosmos1ica");
    assert_eq!(decoded.validator_address, "valA");
    let amount = decoded.amount.unwrap();
    assert_eq!(amount.denom, "stake");
    assert_eq!(amount.amount, "100");
}

#[test]
fn undelegate_wire_bytes_decode_under_prost() {
    let bytes = encode_msg_undelegate("cosmos1ica", "valB", "stake", 250);
    let decoded =
        cosmos_sdk_proto::cosmos::staking::v1beta1::MsgUndelegate::decode(bytes.as_slice())
            .unwrap();
    assert_eq!(decoded.delegator_address, "cosmos1ica");
    assert_eq!(decoded.validator_address, "valB");
    let amount = decoded.amount.unwrap();
    assert_eq!(amount.denom, "stake");
    assert_eq!(amount.amount, "250");
}

#[test]
fn send_wire_bytes_decode_under_prost() {
    let bytes = encode_msg_send("cosmos1ica", "cosmos1recipient", "stake", 42);
    let decoded =
        cosmos_sdk_proto::cosmos::bank::v1beta1::MsgSend::decode(bytes.as_slice()).unwrap();
    assert_eq!(decoded.from_address, "cosmos1ica");
    assert_eq!(decoded.to_address, "cosmos1recipient");
    assert_eq!(decoded.amount.len(), 1);
    assert_eq!(decoded.amount[0].denom, "stake");
    assert_eq!(decoded.amount[0].amount, "42");
}

#[test]
fn decimal_digits_roundtrip() {
    assert_eq!(format_dec_u128(0), b"0".to_vec());
    assert_eq!(format_dec_u128(105), b"105".to_vec());
    assert_eq!(
        format_dec_u128(u128::MAX),
        b"340282366920938463463374607431768211455".to_vec()
    );
    assert_eq!(parse_dec_u128(b"0"), Some(0));
    assert_eq!(parse_dec_u128(b"00105"), Some(105));
    assert_eq!(
        parse_dec_u128(b"340282366920938463463374607431768211455"),
        Some(u128::MAX)
    );
    assert_eq!(parse_dec_u128(b"340282366920938463463374607431768211456"), None);
    assert_eq!(parse_dec_u128(b""), None);
    assert_eq!(parse_dec_u128(b"12a"), None);
}
