use vstd::prelude::*;

verus! {

/// The name of the parse of a local transaction-submission acknowledgement:
/// the assigned channel sequence number and the channel, when the bytes
/// parse.
pub uninterp spec fn submit_tx_ack_of(data: Seq<u8>) -> Option<(u64, Seq<char>)>;

/// Relies on `serde_json_wasm::from_slice` for neutron-sdk's
/// `MsgSubmitTxResponse` to parse the local acknowledgement of a submitted
/// transaction; the result is a function of the bytes alone.
#[verifier::external_body]
pub fn parse_submit_tx_ack(data: &[u8]) -> (r: Option<(u64, String)>)
    ensures
        r is Some <==> submit_tx_ack_of(data@) is Some,
        r matches Some(p) ==> submit_tx_ack_of(data@) == Some((p.0, p.1@)),
{
    serde_json_wasm::from_slice::<neutron_sdk::bindings::msg::MsgSubmitTxResponse>(data)
        .ok()
        .map(|m| (m.sequence_id, m.channel))
}

/// The name of the parse of a local transfer acknowledgement: the assigned
/// channel sequence number and the channel, when the bytes parse.
pub uninterp spec fn transfer_ack_of(data: Seq<u8>) -> Option<(u64, Seq<char>)>;

/// Relies on `serde_json_wasm::from_slice` for neutron-sdk's
/// `MsgIbcTransferResponse` to parse the local acknowledgement of a
/// transfer; the result is a function of the bytes alone.
#[verifier::external_body]
pub fn parse_transfer_ack(data: &[u8]) -> (r: Option<(u64, String)>)
    ensures
        r is Some <==> transfer_ack_of(data@) is Some,
        r matches Some(p) ==> transfer_ack_of(data@) == Some((p.0, p.1@)),
{
    serde_json_wasm::from_slice::<neutron_sdk::bindings::msg::MsgIbcTransferResponse>(data)
        .ok()
        .map(|m| (m.sequence_id, m.channel))
}

/// The name of the parse of a query-registration acknowledgement: the
/// identifier assigned to the registered query, when the bytes parse.
pub uninterp spec fn register_query_ack_of(data: Seq<u8>) -> Option<u64>;

/// Relies on `serde_json_wasm::from_slice` for neutron-sdk's
/// `MsgRegisterInterchainQueryResponse` to parse the acknowledgement of a
/// query registration; the result is a function of the bytes alone.
#[verifier::external_body]
pub fn parse_register_query_ack(data: &[u8]) -> (r: Option<u64>)
    ensures
        r == register_query_ack_of(data@),
{
    serde_json_wasm::from_slice::<neutron_sdk::bindings::msg::MsgRegisterInterchainQueryResponse>(
        data,
    ).ok().map(|m| m.id)
}

} // verus!
