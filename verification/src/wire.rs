use vstd::prelude::*;
use prost::Message;

verus! {

/// The name of the wire encoding of a delegation request; the encoding is a
/// function of the message fields alone.
pub uninterp spec fn msg_delegate_wire(
    delegator: Seq<char>,
    validator: Seq<char>,
    denom: Seq<char>,
    amount: u128,
) -> Seq<u8>;

/// Relies on prost's generated encoding of `MsgDelegate`
/// (cosmos-sdk-proto) to serialize a delegation request.
#[verifier::external_body]
pub fn encode_msg_delegate(delegator: &str, validator: &str, denom: &str, amount: u128) -> (r: Vec<
    u8,
>)
    ensures
        r@ == msg_delegate_wire(delegator@, validator@, denom@, amount),
{
    cosmos_sdk_proto::cosmos::staking::v1beta1::MsgDelegate {
        delegator_address: delegator.to_string(),
        validator_address: validator.to_string(),
        amount: Some(cosmos_sdk_proto::cosmos::base::v1beta1::Coin {
            denom: denom.to_string(),
            amount: amount.to_string(),
        }),
    }.encode_to_vec()
}

/// The name of the wire encoding of an undelegation request; the encoding is
/// a function of the message fields alone.
pub uninterp spec fn msg_undelegate_wire(
    delegator: Seq<char>,
    validator: Seq<char>,
    denom: Seq<char>,
    amount: u128,
) -> Seq<u8>;

/// Relies on prost's generated encoding of `MsgUndelegate`
/// (cosmos-sdk-proto) to serialize an undelegation request.
#[verifier::external_body]
pub fn encode_msg_undelegate(
    delegator: &str,
    validator: &str,
    denom: &str,
    amount: u128,
) -> (r: Vec<u8>)
    ensures
        r@ == msg_undelegate_wire(delegator@, validator@, denom@, amount),
{
    cosmos_sdk_proto::cosmos::staking::v1beta1::MsgUndelegate {
        delegator_address: delegator.to_string(),
        validator_address: validator.to_string(),
        amount: Some(cosmos_sdk_proto::cosmos::base::v1beta1::Coin {
            denom: denom.to_string(),
            amount: amount.to_string(),
        }),
    }.encode_to_vec()
}

/// The name of the wire encoding of a bank send request; the encoding is a
/// function of the message fields alone.
pub uninterp spec fn msg_send_wire(
    from: Seq<char>,
    to: Seq<char>,
    denom: Seq<char>,
    amount: u128,
) -> Seq<u8>;

/// Relies on prost's generated encoding of `MsgSend` (cosmos-sdk-proto) to
/// serialize a single-coin bank send request.
#[verifier::external_body]
pub fn encode_msg_send(from: &str, to: &str, denom: &str, amount: u128) -> (r: Vec<u8>)
    ensures
        r@ == msg_send_wire(from@, to@, denom@, amount),
{
    cosmos_sdk_proto::cosmos::bank::v1beta1::MsgSend {
        from_address: from.to_string(),
        to_address: to.to_string(),
        amount: vec![cosmos_sdk_proto::cosmos::base::v1beta1::Coin {
            denom: denom.to_string(),
            amount: amount.to_string(),
        }],
    }.encode_to_vec()
}

} // verus!
